//! Documents created from templates, and the events of their lifecycle.
use std::collections::HashMap;
use vstd::prelude::*;

verus! {

/// The template a document is filled from.
#[derive(Debug, Clone, PartialEq, Eq)]
pub struct DocumentTemplate {
    /// Unique key of the template within the service.
    pub key: String,
    /// Values of the template's placeholders, by placeholder name.
    pub data: HashMap<String, String>,
}

/// The structured data of a document event.
#[derive(Debug, Clone, PartialEq, Eq)]
pub struct EventData {
    /// The user who created the document.
    pub user: HashMap<String, String>,
    /// The account under which the document was created.
    pub account: HashMap<String, String>,
    /// Deadline recorded with the event.
    pub deadline_at: String,
    /// Whether the document closes itself once everyone has signed, as
    /// recorded with the event.
    pub auto_close: bool,
    /// Locale recorded with the event.
    pub locale: String,
}

/// An event in a document's lifecycle.
#[derive(Debug, Clone, PartialEq, Eq)]
pub struct DocumentEvent {
    /// Name of the event.
    pub name: String,
    /// Data of the event.
    pub data: EventData,
    /// When the event occurred.
    pub occurred_at: String,
}

/// A document of the service. The optional fields are set by the server in
/// its responses; `path` and `template` are what a request gives.
#[derive(Debug, Clone, PartialEq, Eq)]
pub struct Document {
    /// Unique key, assigned by the server.
    pub key: Option<String>,
    /// Full path of the document in the service's file tree.
    pub path: String,
    /// Name of the generated file.
    pub filename: Option<String>,
    /// When the document was last updated.
    pub updated_at: Option<String>,
    /// When the document was finished.
    pub finished_at: Option<String>,
    /// The document's deadline.
    pub deadline_at: Option<String>,
    /// Status of the document.
    pub status: Option<String>,
    /// Whether the document closes itself once everyone has signed.
    pub auto_close: Option<bool>,
    /// The document's locale.
    pub locale: Option<String>,
    /// Free metadata of the document.
    pub metadata: Option<HashMap<String, String>>,
    /// Whether signers sign in sequence.
    pub sequence_enabled: Option<bool>,
    /// The group of signers whose turn it is.
    pub signable_group: Option<String>,
    /// Interval between reminders.
    pub remind_interval: Option<String>,
    /// Where the document's files can be downloaded.
    pub downloads: Option<HashMap<String, String>>,
    /// The template the document is filled from.
    pub template: DocumentTemplate,
    /// Keys of the document's signers.
    pub signers: Option<Vec<String>>,
    /// Events of the document's lifecycle.
    pub events: Option<Vec<DocumentEvent>>,
}

} // verus!
