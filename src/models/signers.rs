//! Signers, and the lists that attach them to documents.
use vstd::prelude::*;

verus! {

/// A person who signs documents. `key`, `created_at` and `updated_at` are
/// set by the server in its responses only.
#[derive(Debug, Clone, PartialEq, Eq)]
pub struct Signer {
    /// Unique key of the signer, assigned by the server.
    pub key: Option<String>,
    /// Email of the signer.
    pub email: String,
    /// Phone number for messages by SMS or WhatsApp.
    pub phone_number: String,
    /// The ways the signer may authenticate (email, sms, whatsapp, ...), in
    /// order.
    pub auths: Vec<String>,
    /// Full name of the signer.
    pub name: String,
    /// National identity number of the signer.
    pub documentation: String,
    /// Date of birth of the signer.
    pub birthday: String,
    /// Whether `documentation` and `birthday` are given.
    pub has_documentation: bool,
    /// The channel through which the signer is notified.
    pub delivery: String,
    /// Whether a selfie is asked for.
    pub selfie_enabled: bool,
    /// Whether a handwritten signature is asked for.
    pub handwritten_enabled: bool,
    /// Whether an official document is asked for.
    pub official_document_enabled: bool,
    /// Whether a liveness check is asked for.
    pub liveness_enabled: bool,
    /// When the signer was created.
    pub created_at: Option<String>,
    /// When the signer was last updated.
    pub updated_at: Option<String>,
}

/// The association of a signer with a document. The optional fields are set
/// by the server in its responses only; the others are what a request gives.
#[derive(Debug, Clone, PartialEq, Eq)]
pub struct SignerToDocument {
    /// Unique key of the association.
    pub key: Option<String>,
    /// Key of the signature request, used to notify the signer.
    pub request_signature_key: Option<String>,
    /// Key of the document.
    pub document_key: String,
    /// Key of the signer.
    pub signer_key: String,
    /// The role in which the signer signs.
    pub sign_as: String,
    /// Position of the signer in a sequential signing.
    pub group: Option<u32>,
    /// When the association was created.
    pub created_at: Option<String>,
    /// When the association was last updated.
    pub updated_at: Option<String>,
    /// Link where the signer signs the document.
    pub url: Option<String>,
    /// Message sent to the signer with the request to sign.
    pub message: String,
}

} // verus!
