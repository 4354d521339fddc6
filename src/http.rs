use vstd::prelude::*;
use vstd::string::*;
use vstd::utf8::*;

use crate::permission::PermissionSet;

verus! {

/// The address that every endpoint path is appended to.
pub const API_BASE: &'static str = "https://discord.com/api/v10";

/// The product string sent as the `User-Agent` header.
pub const USER_AGENT: &'static str = "DiscordBot (https://github.com/gaybreak/daybreak 0.1)";

/// The HTTP verbs that the API's endpoints use.
#[derive(Clone, Copy, Debug, PartialEq, Eq, Structural)]
pub enum Method {
    Get,
    Post,
    Put,
    Patch,
    Delete,
}

/// One intended call: the permissions it needs, its verb, and its path with
/// every identifier already filled in (it starts with `/`).
#[derive(Clone, Debug)]
pub struct Request {
    pub required_permissions: PermissionSet,
    pub method: Method,
    pub endpoint: String,
}

impl Request {
    /// A request with the given parts.
    pub fn new(required_permissions: PermissionSet, method: Method, endpoint: String) -> (r:
        Request)
        ensures
            r.required_permissions == required_permissions,
            r.method == method,
            r.endpoint == endpoint,
    {
        Request { required_permissions, method, endpoint }
    }
}

/// A request as it goes on the wire.
#[derive(Clone, Debug)]
pub struct WireRequest {
    pub method: Method,
    /// The full address: the API base followed by the endpoint path.
    pub uri: String,
    /// The value of the `User-Agent` header.
    pub user_agent: String,
    /// The value of the `Authorization` header.
    pub authorization: String,
    /// The JSON text of the body; `None` sends an empty body.
    pub body: Option<String>,
}

/// Why a request failed.
#[derive(Clone, Debug)]
pub enum RequestError {
    /// The bot lacks these permissions, which the request needs; nothing was
    /// sent.
    MissingPermissions(PermissionSet),
    /// The request could not be sent or its response could not be read.
    Transport(String),
    /// A JSON body could not be written, or the response was not UTF-8 text,
    /// not JSON, or not of the expected shape.
    Decode(String),
}

/// Relies on `core::str::from_utf8`: it succeeds exactly on well-formed UTF-8,
/// and the text is then what the bytes encode.
#[verifier::external_body]
fn utf8_text(bytes: &[u8]) -> (r: Option<&str>)
    ensures
        r is Some <==> valid_utf8(bytes@),
        r matches Some(t) ==> t@ == decode_utf8(bytes@),
{
    std::str::from_utf8(bytes).ok()
}

/// Relies on `serde_json::from_str`: reads the text as JSON into a `T`; on
/// failure the error's message is kept.
#[verifier::external_body]
fn json_from_str<T: serde::de::DeserializeOwned>(text: &str) -> (r: Result<T, String>) {
    match serde_json::from_str(text) {
        Ok(value) => Ok(value),
        Err(e) => Err(e.to_string()),
    }
}

/// Relies on `serde_json::to_string`: the JSON text of the value; on failure
/// the error's message is kept.
#[verifier::external_body]
fn json_to_string<P: serde::Serialize>(value: &P) -> (r: Result<String, String>) {
    match serde_json::to_string(value) {
        Ok(text) => Ok(text),
        Err(e) => Err(e.to_string()),
    }
}

/// The JSON text of a request body; a value that cannot be written as JSON
/// is a decode error.
pub fn encode_params<P: serde::Serialize>(params: &P) -> (r: Result<String, RequestError>)
    ensures
        r matches Err(e) ==> e is Decode,
{
    match json_to_string(params) {
        Ok(text) => Ok(text),
        Err(message) => Err(RequestError::Decode(message)),
    }
}

/// Decodes a response body: it must be UTF-8 text holding JSON of type `T`.
/// Every failure here is a decode error, never a transport error.
pub fn decode_response<T: serde::de::DeserializeOwned>(bytes: &[u8]) -> (r: Result<
    T,
    RequestError,
>)
    ensures
        r matches Err(e) ==> e is Decode,
        !valid_utf8(bytes@) ==> r is Err,
{
    match utf8_text(bytes) {
        None => Err(RequestError::Decode(String::from_str("response body is not valid UTF-8"))),
        Some(text) => match json_from_str(text) {
            Ok(value) => Ok(value),
            Err(message) => Err(RequestError::Decode(message)),
        },
    }
}

/// The outcome of a request given what the transport delivered: its error
/// message, or the bytes of the response body.
pub fn complete<T: serde::de::DeserializeOwned>(response: Result<Vec<u8>, String>) -> (r: Result<
    T,
    RequestError,
>)
    ensures
        response matches Err(m) ==> r == Err::<T, RequestError>(RequestError::Transport(m)),
        response matches Ok(b) ==> (r matches Err(e) ==> e is Decode) && (!valid_utf8(b@)
            ==> r is Err),
{
    match response {
        Err(message) => Err(RequestError::Transport(message)),
        Ok(bytes) => decode_response(bytes.as_slice()),
    }
}

} // verus!
