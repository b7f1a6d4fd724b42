//! The client: configuration, request URLs and the reading of responses.
use crate::error::ClientError;
use crate::json::{
    error_text, is_json_text, is_string_map_json, json_value_of, parse_string_map, parse_value,
    string_map_of,
};
use std::collections::HashMap;
use vstd::prelude::*;

verus! {

/// The production base URL of the service.
pub const DEFAULT_HOST: &'static str = "https://app.clicksign.com/";

/// `host`, `endpoint` and the token joined as they stand: nothing is
/// encoded, and no slash is added or removed.
pub open spec fn spec_url(host: Seq<char>, token: Seq<char>, endpoint: Seq<char>) -> Seq<char> {
    host + endpoint + "?access_token="@ + token
}

/// The path under which a template's documents are created.
pub open spec fn template_documents_path(template_id: Seq<char>) -> Seq<char> {
    "templates/"@ + template_id + "/documents"@
}

/// The operations of the remote API that the client makes.
#[derive(Debug, Clone, PartialEq, Eq)]
pub enum Endpoint {
    /// Create a document from the template with this id.
    TemplateDocuments(String),
    /// Create a signer.
    Signers,
    /// Add a signer to a document.
    Lists,
    /// Ask a signer, by email, to sign.
    Notifications,
}

impl Endpoint {
    /// The path of the operation, relative to the host.
    pub open spec fn spec_path(&self) -> Seq<char> {
        match self {
            Endpoint::TemplateDocuments(id) => template_documents_path(id@),
            Endpoint::Signers => "signers"@,
            Endpoint::Lists => "lists"@,
            Endpoint::Notifications => "notifications"@,
        }
    }

    /// The path of the operation, relative to the host.
    pub fn path(&self) -> (r: String)
        ensures
            r@ == self.spec_path(),
    {
        match self {
            Endpoint::TemplateDocuments(id) => {
                let mut r = String::from_str("templates/");
                r.append(id.as_str());
                r.append("/documents");
                r
            },
            Endpoint::Signers => String::from_str("signers"),
            Endpoint::Lists => String::from_str("lists"),
            Endpoint::Notifications => String::from_str("notifications"),
        }
    }
}

/// Whether a status code means success.
pub open spec fn is_success(status: u16) -> bool {
    status == 200 || status == 201 || status == 202
}

/// What a response with this status and body comes to.
pub open spec fn response_outcome(status: u16, body: String) -> Result<String, ClientError> {
    if is_success(status) {
        Ok(body)
    } else if status == 400 {
        Err(ClientError::BadRequest(body))
    } else if status == 401 {
        Err(ClientError::Unauthorized)
    } else if status == 403 {
        Err(ClientError::Forbidden)
    } else if status == 500 {
        Err(ClientError::ServerError)
    } else if status == 503 {
        Err(ClientError::ServiceUnavailable)
    } else {
        Err(ClientError::UnexpectedStatus(status))
    }
}

/// Whether `part` occurs in `s` as a contiguous piece.
pub open spec fn contains_text(s: Seq<char>, part: Seq<char>) -> bool {
    exists|i: int| 0 <= i <= s.len() - part.len() && #[trigger] s.subrange(i, i + part.len()) == part
}

/// A response with a success status is handed back as its body, unchanged.
pub proof fn lemma_success_keeps_body(status: u16, body: String)
    requires
        is_success(status),
    ensures
        response_outcome(status, body) == Ok::<String, ClientError>(body),
{
}

/// The failure of a response with status 400 carries the text that the
/// server sent, and its message contains that text.
pub proof fn lemma_bad_request_keeps_text(body: String)
    ensures
        response_outcome(400, body) == Err::<String, ClientError>(ClientError::BadRequest(body)),
        contains_text(ClientError::BadRequest(body).spec_message(), body@),
{
    let m = ClientError::BadRequest(body).spec_message();
    let k = "400 Bad Request: "@.len() as int;
    assert(m.subrange(k, k + body@.len()) =~= body@);
}

/// Statuses 401, 403, 500 and 503 each come to their own fixed failure,
/// whatever the body of the response.
pub proof fn lemma_fixed_failures_ignore_body(status: u16, body: String, other: String)
    requires
        status == 401 || status == 403 || status == 500 || status == 503,
    ensures
        response_outcome(status, body) == response_outcome(status, other),
        status == 401 ==> response_outcome(status, body) == Err::<String, ClientError>(ClientError::Unauthorized),
        status == 403 ==> response_outcome(status, body) == Err::<String, ClientError>(ClientError::Forbidden),
        status == 500 ==> response_outcome(status, body) == Err::<String, ClientError>(ClientError::ServerError),
        status == 503 ==> response_outcome(status, body) == Err::<String, ClientError>(ClientError::ServiceUnavailable),
{
}

/// A POST to send: the full URL and the JSON body.
#[derive(Debug)]
pub struct JsonPost<B> {
    /// The full URL, token included.
    pub url: String,
    /// The parsed body, sent as JSON.
    pub body: B,
}

/// The configuration of a client of the signature service. It does not
/// change after construction.
#[derive(Debug, Clone, PartialEq, Eq)]
pub struct Client {
    /// The base URL of the service; a trailing slash is expected.
    pub host: String,
    /// The access token that authenticates every request.
    pub access_token: String,
}

impl Client {
    /// The full URL of `endpoint` on this client.
    pub open spec fn spec_build_url(&self, endpoint: Seq<char>) -> Seq<char> {
        spec_url(self.host@, self.access_token@, endpoint)
    }

    /// A client with this token, on `host` or else on the production host.
    pub fn new(access_token: &str, host: Option<&str>) -> (r: Client)
        ensures
            r.access_token@ == access_token@,
            host is None ==> r.host@ == DEFAULT_HOST@,
            host matches Some(h) ==> r.host@ == h@,
    {
        let host = match host {
            Some(h) => String::from_str(h),
            None => String::from_str(DEFAULT_HOST),
        };
        Client { host, access_token: String::from_str(access_token) }
    }

    /// The full URL of `endpoint`: host, endpoint and token, joined as they
    /// stand.
    pub fn build_url(&self, endpoint: &str) -> (r: String)
        ensures
            r@ == self.spec_build_url(endpoint@),
    {
        let mut r = self.host.clone();
        r.append(endpoint);
        r.append("?access_token=");
        r.append(self.access_token.as_str());
        r
    }

    /// The full URL of an operation.
    pub fn url_for(&self, endpoint: &Endpoint) -> (r: String)
        ensures
            r@ == self.spec_build_url(endpoint.spec_path()),
    {
        let path = endpoint.path();
        self.build_url(path.as_str())
    }

    /// Reads a response: its body on success, else the failure that its
    /// status stands for.
    pub fn handler(&self, status: u16, body: String) -> (r: Result<String, ClientError>)
        ensures
            r == response_outcome(status, body),
    {
        if status == 200 || status == 201 || status == 202 {
            Ok(body)
        } else if status == 400 {
            Err(ClientError::BadRequest(body))
        } else if status == 401 {
            Err(ClientError::Unauthorized)
        } else if status == 403 {
            Err(ClientError::Forbidden)
        } else if status == 500 {
            Err(ClientError::ServerError)
        } else if status == 503 {
            Err(ClientError::ServiceUnavailable)
        } else {
            Err(ClientError::UnexpectedStatus(status))
        }
    }

    /// Prepares the creation of a document from a template: the body must be
    /// JSON, of any shape, since a template's placeholders are its own.
    pub fn document_by_model_request(&self, template_id: &str, template_body: &str) -> (r: Result<
        JsonPost<serde_json::Value>,
        ClientError,
    >)
        ensures
            r is Ok <==> is_json_text(template_body@),
            r matches Ok(p) ==> p.url@ == self.spec_build_url(template_documents_path(template_id@)),
            r matches Ok(p) ==> p.body == json_value_of(template_body@),
            r matches Err(e) ==> e is MalformedInput,
    {
        match parse_value(template_body) {
            Ok(body) => {
                let endpoint = Endpoint::TemplateDocuments(String::from_str(template_id));
                let url = self.url_for(&endpoint);
                Ok(JsonPost { url, body })
            },
            Err(e) => Err(ClientError::MalformedInput(error_text(&e))),
        }
    }

    /// Reads the response to the creation of a document: the failure that
    /// its status stands for, else the body parsed as JSON.
    pub fn document_by_model_response(&self, status: u16, body: String) -> (r: Result<
        serde_json::Value,
        ClientError,
    >)
        ensures
            response_outcome(status, body) matches Err(e) ==> r == Err::<serde_json::Value, ClientError>(e),
            is_success(status) ==> (r is Ok <==> is_json_text(body@)),
            is_success(status) && r is Err ==> r->Err_0 is MalformedInput,
            r matches Ok(v) ==> is_success(status) && v == json_value_of(body@),
    {
        match self.handler(status, body) {
            Ok(text) => match parse_value(text.as_str()) {
                Ok(v) => Ok(v),
                Err(e) => Err(ClientError::MalformedInput(error_text(&e))),
            },
            Err(e) => Err(e),
        }
    }

    /// Prepares a signing request by email: the body must be a JSON object
    /// whose values are all strings.
    pub fn notification_request(&self, request_body: &str) -> (r: Result<
        JsonPost<HashMap<String, String>>,
        ClientError,
    >)
        ensures
            r is Ok <==> is_string_map_json(request_body@),
            r matches Ok(p) ==> p.url@ == self.spec_build_url("notifications"@),
            r matches Ok(p) ==> p.body.deep_view() == string_map_of(request_body@),
            r matches Err(e) ==> e is MalformedInput,
    {
        match parse_string_map(request_body) {
            Ok(body) => {
                let url = self.url_for(&Endpoint::Notifications);
                Ok(JsonPost { url, body })
            },
            Err(e) => Err(ClientError::MalformedInput(error_text(&e))),
        }
    }
}

} // verus!
