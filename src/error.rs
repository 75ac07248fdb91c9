use vstd::prelude::*;
use vstd::string::StringExecFns;

verus! {

#[verifier::external_type_specification]
#[verifier::external_body]
pub struct ExIoError(std::io::Error);

#[verifier::external_type_specification]
#[verifier::external_body]
pub struct ExJsonError(serde_json::Error);

/// The HTTP status of a successful reply.
pub const STATUS_OK: u16 = 200;

/// The HTTP status of a reply to a failure inside the server.
pub const STATUS_INTERNAL_SERVER_ERROR: u16 = 500;

/// A failure of a request handler.
#[derive(Debug)]
pub enum ServiceError {
    /// A failure described by a message for the client.
    Custom(String),
    /// An input/output failure.
    IO(std::io::Error),
    /// A JSON serialisation failure.
    SERDE(serde_json::Error),
}

/// An HTTP reply: its status and, for a JSON reply, the body text.
#[derive(Debug)]
pub struct Reply {
    pub status: u16,
    pub json_body: Option<String>,
}

/// The JSON text that serde_json writes for a string with these characters.
pub uninterp spec fn json_string_of(s: Seq<char>) -> Seq<char>;

/// The body of the reply to a custom failure, given the JSON text of its
/// message: an object whose one member `message` holds it.
pub open spec fn message_json(encoded: Seq<char>) -> Seq<char> {
    "{\"message\":"@ + encoded + "}"@
}

/// Relies on serde_json::to_string on a `str`: the JSON string literal for
/// the text (quotes and escapes), a function of its characters alone.
#[verifier::external_body]
fn json_string(s: &str) -> (r: Result<String, serde_json::Error>)
    ensures
        r is Ok ==> r->Ok_0@ == json_string_of(s@),
{
    serde_json::to_string(s)
}

/// The body of the reply to a custom failure whose message was encoded as
/// the JSON text `encoded`.
pub fn message_body(encoded: &str) -> (r: String)
    ensures
        r@ == message_json(encoded@),
{
    let mut body = String::from_str("{\"message\":");
    body.append(encoded);
    body.append("}");
    body
}

/// The reply to a custom failure, given the outcome of encoding its message:
/// the JSON object on success, a bare internal-error status otherwise.
pub fn custom_reply(encoded: Result<String, serde_json::Error>) -> (r: Reply)
    ensures
        encoded is Ok ==> r.status == STATUS_OK && r.json_body is Some
            && r.json_body->0@ == message_json(encoded->Ok_0@),
        encoded is Err ==> r.status == STATUS_INTERNAL_SERVER_ERROR && r.json_body is None,
{
    match encoded {
        Ok(text) => Reply { status: STATUS_OK, json_body: Some(message_body(text.as_str())) },
        Err(_) => Reply { status: STATUS_INTERNAL_SERVER_ERROR, json_body: None },
    }
}

impl ServiceError {
    /// The reply that reports this failure to the client. A custom failure
    /// is answered with its message as JSON, unless the message cannot be
    /// encoded; every other failure with a bare internal-error status.
    pub fn into_reply(self) -> (r: Reply)
        ensures
            match self {
                ServiceError::Custom(m) => (r.status == STATUS_OK && r.json_body is Some
                    && r.json_body->0@ == message_json(json_string_of(m@))) || (r.status
                    == STATUS_INTERNAL_SERVER_ERROR && r.json_body is None),
                _ => r.status == STATUS_INTERNAL_SERVER_ERROR && r.json_body is None,
            },
    {
        match self {
            ServiceError::Custom(m) => custom_reply(json_string(m.as_str())),
            _ => Reply { status: STATUS_INTERNAL_SERVER_ERROR, json_body: None },
        }
    }
}

impl From<std::io::Error> for ServiceError {
    fn from(e: std::io::Error) -> ServiceError {
        ServiceError::IO(e)
    }
}

impl vstd::std_specs::convert::FromSpecImpl<std::io::Error> for ServiceError {
    open spec fn obeys_from_spec() -> bool {
        true
    }

    open spec fn from_spec(e: std::io::Error) -> ServiceError {
        ServiceError::IO(e)
    }
}

impl From<serde_json::Error> for ServiceError {
    fn from(e: serde_json::Error) -> ServiceError {
        ServiceError::SERDE(e)
    }
}

impl vstd::std_specs::convert::FromSpecImpl<serde_json::Error> for ServiceError {
    open spec fn obeys_from_spec() -> bool {
        true
    }

    open spec fn from_spec(e: serde_json::Error) -> ServiceError {
        ServiceError::SERDE(e)
    }
}

} // verus!
