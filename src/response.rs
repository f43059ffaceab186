//! Responses: bodies, status codes, JSON payloads and the default responses.
use vstd::prelude::*;

verus! {

/// The status of a response to a request no route took.
pub const METHOD_NOT_ALLOWED: u16 = 405;

/// The status of a response to a malformed request.
pub const BAD_REQUEST: u16 = 400;

/// The media type of JSON payloads.
pub const JSON_MEDIA_TYPE: &'static str = "application/json";

/// The body of a request or a response.
#[derive(Debug)]
pub enum Body {
    Empty,
    Text(String),
    Binary(Vec<u8>),
}

impl Body {
    /// A copy of the body.
    pub fn duplicate(&self) -> (r: Body)
        ensures
            self is Empty ==> r is Empty,
            self matches Body::Text(t) ==> r matches Body::Text(u) && u@ == t@,
            self matches Body::Binary(b) ==> r matches Body::Binary(c) && c@ == b@,
    {
        match self {
            Body::Empty => Body::Empty,
            Body::Text(t) => Body::Text(t.clone()),
            Body::Binary(b) => {
                let c = b.clone();
                assert(c@ =~= b@);
                Body::Binary(c)
            },
        }
    }
}

/// A response: a status code, the media type of its body if one is declared,
/// and the body.
#[derive(Debug)]
pub struct Response {
    pub status: u16,
    pub content_type: Option<String>,
    pub body: Body,
}

/// The response when no route answers a request: status 405 and no body.
pub fn method_not_found() -> (r: Response)
    ensures
        r.status == METHOD_NOT_ALLOWED,
        r.content_type is None,
        r.body is Empty,
{
    Response { status: METHOD_NOT_ALLOWED, content_type: None, body: Body::Empty }
}

#[verifier::external_type_specification]
#[verifier::external_body]
pub struct ExJsonValue(serde_json::Value);

/// Relies on serde_json's `FromIterator<(K, V)> for Value`: a JSON object
/// with the single member `key`, whose value is the string `text`.
#[verifier::external_body]
fn json_object_with(key: &str, text: &str) -> (r: serde_json::Value) {
    serde_json::Value::from_iter([(key.to_owned(), serde_json::Value::String(text.to_owned()))])
}

/// Relies on `Display for serde_json::Value`: the compact JSON text of a value.
#[verifier::external_body]
fn json_text(v: &serde_json::Value) -> (r: String) {
    v.to_string()
}

/// A JSON payload with the status code it is sent with.
pub struct JsonResponse {
    value: serde_json::Value,
    status_code: u16,
}

impl JsonResponse {
    /// A JSON response with the given payload and status code.
    pub fn new(value: serde_json::Value, status_code: u16) -> (r: JsonResponse)
        ensures
            r.status_code() == status_code,
            r.value() == value,
    {
        JsonResponse { value, status_code }
    }

    /// A JSON response with status 400; without a payload it carries
    /// `{"message": "Bad Request"}`.
    pub fn bad_request(value: Option<serde_json::Value>) -> (r: Self)
        ensures
            r.status_code() == BAD_REQUEST,
            value matches Some(v) ==> r.value() == v,
    {
        let body = match value {
            Some(v) => v,
            None => json_object_with("message", "Bad Request"),
        };
        JsonResponse::new(body, BAD_REQUEST)
    }

    pub closed spec fn status_code(&self) -> u16 {
        self.status_code
    }

    pub closed spec fn value(&self) -> serde_json::Value {
        self.value
    }

    /// The status code the payload is sent with.
    pub fn status(&self) -> (r: u16)
        ensures
            r == self.status_code(),
    {
        self.status_code
    }

    /// The response that carries the payload as JSON text, declared as
    /// `application/json`.
    pub fn into_response(self) -> (r: Response)
        ensures
            r.status == self.status_code(),
            r.content_type matches Some(t) && t@ == JSON_MEDIA_TYPE@,
            r.body is Text,
    {
        let text = json_text(&self.value);
        Response {
            status: self.status_code,
            content_type: Some(JSON_MEDIA_TYPE.to_owned()),
            body: Body::Text(text),
        }
    }
}

} // verus!
