//! Guards: the typed extraction of handler arguments from a request, each
//! ending in a value, an error response, or a forward to the next route.
use vstd::prelude::*;
use crate::bindings::{lookup, ParameterBindings};
use crate::response::{Body, JsonResponse, Response, BAD_REQUEST, JSON_MEDIA_TYPE};

verus! {

/// What a guard gives: the value it extracted, a response that ends the
/// request, or a signal that the route does not apply.
pub enum GuardOutcome<V> {
    Value(V),
    Error(Response),
    Forward,
}

/// The raw bytes of a binary request body.
pub struct Binary(Vec<u8>);

/// The text of a textual request body.
pub struct Text(String);

impl Binary {
    pub fn new(t: Vec<u8>) -> (r: Self)
        ensures
            r.bytes() == t@,
    {
        Binary(t)
    }

    pub closed spec fn bytes(&self) -> Seq<u8> {
        self.0@
    }

    /// The bytes held.
    pub fn as_bytes(&self) -> (r: &Vec<u8>)
        ensures
            r@ == self.bytes(),
    {
        &self.0
    }

    /// Takes the bytes out.
    pub fn into_inner(self) -> (r: Vec<u8>)
        ensures
            r@ == self.bytes(),
    {
        self.0
    }

    /// The body's bytes where it is binary; any other body forwards.
    pub fn from_body(body: &Body) -> (r: GuardOutcome<Binary>)
        ensures
            body matches Body::Binary(b) ==> r matches GuardOutcome::Value(v) && v.bytes() == b@,
            !(body is Binary) ==> r is Forward,
    {
        match body {
            Body::Binary(b) => {
                let c = b.clone();
                assert(c@ =~= b@);
                GuardOutcome::Value(Binary::new(c))
            },
            _ => GuardOutcome::Forward,
        }
    }
}

impl Text {
    pub fn new(t: String) -> (r: Self)
        ensures
            r.text() == t@,
    {
        Text(t)
    }

    pub closed spec fn text(&self) -> Seq<char> {
        self.0@
    }

    /// The text held.
    pub fn as_string(&self) -> (r: &String)
        ensures
            r@ == self.text(),
    {
        &self.0
    }

    /// Takes the text out.
    pub fn into_inner(self) -> (r: String)
        ensures
            r@ == self.text(),
    {
        self.0
    }

    /// The body's text where it is textual; any other body forwards.
    pub fn from_body(body: &Body) -> (r: GuardOutcome<Text>)
        ensures
            body matches Body::Text(t) ==> r matches GuardOutcome::Value(v) && v.text() == t@,
            !(body is Text) ==> r is Forward,
    {
        match body {
            Body::Text(t) => GuardOutcome::Value(Text::new(t.clone())),
            _ => GuardOutcome::Forward,
        }
    }
}

/// The whole body, whatever it holds.
pub fn body_guard(body: &Body) -> (r: GuardOutcome<Body>)
    ensures
        r matches GuardOutcome::Value(b) && (body is Empty ==> b is Empty) && (body matches Body::Text(
            t,
        ) ==> b matches Body::Text(u) && u@ == t@) && (body matches Body::Binary(x) ==> b matches Body::Binary(
            y,
        ) && y@ == x@),
{
    GuardOutcome::Value(body.duplicate())
}

/// A byte with ASCII capitals made small.
pub open spec fn ascii_lower(b: u8) -> u8 {
    if 65 <= b && b <= 90 {
        (b + 32) as u8
    } else {
        b
    }
}

/// A `Content-Type` value that names JSON, in any ASCII case.
pub open spec fn names_json(v: Seq<u8>) -> bool {
    v.len() == JSON_MEDIA_TYPE@.len() && forall|i: int|
        0 <= i < v.len() ==> ascii_lower(#[trigger] v[i]) == JSON_MEDIA_TYPE@[i] as u8
}

/// Whether a `Content-Type` header value names JSON, ignoring ASCII case.
pub fn is_json_content_type(v: &[u8]) -> (r: bool)
    ensures
        r == names_json(v@),
{
    let n = JSON_MEDIA_TYPE.unicode_len();
    if v.len() != n {
        return false;
    }
    let mut i: usize = 0;
    while i < v.len()
        invariant
            n == JSON_MEDIA_TYPE@.len(),
            v@.len() == n,
            i <= v@.len(),
            forall|j: int| 0 <= j < i ==> ascii_lower(#[trigger] v@[j]) == JSON_MEDIA_TYPE@[j] as u8,
        decreases v@.len() - i,
    {
        let b = v[i];
        let lower: u8 = if 65 <= b && b <= 90 { b + 32 } else { b };
        if lower != JSON_MEDIA_TYPE.get_char(i) as u8 {
            return false;
        }
        i = i + 1;
    }
    true
}

/// A response that refuses a malformed request, with the default JSON message.
pub fn bad_request_response() -> (r: Response)
    ensures
        r.status == BAD_REQUEST,
        r.content_type matches Some(t) && t@ == JSON_MEDIA_TYPE@,
{
    JsonResponse::bad_request(None).into_response()
}

/// A request that declares a JSON body and carries text.
pub open spec fn json_request(content_type: Option<&[u8]>, body: &Body) -> bool {
    content_type is Some && names_json(content_type->0@) && body is Text
}

/// The text of a JSON request, before it is read into a value: the
/// `Content-Type` header must name JSON and the body must be text, else the
/// request is refused with status 400.
pub fn json_body_text(content_type: Option<&[u8]>, body: &Body) -> (r: GuardOutcome<String>)
    ensures
        json_request(content_type, body) ==> r is Value && r->Value_0@ == body->Text_0@,
        !json_request(content_type, body) ==> r is Error && r->Error_0.status == BAD_REQUEST,
{
    match content_type {
        Some(v) => {
            if !is_json_content_type(v) {
                return GuardOutcome::Error(bad_request_response());
            }
        },
        None => {
            return GuardOutcome::Error(bad_request_response());
        },
    }
    match body {
        Body::Text(t) => GuardOutcome::Value(t.clone()),
        _ => GuardOutcome::Error(bad_request_response()),
    }
}

/// A payload read from a JSON request body.
pub struct Json<T>(T);

impl<T> Json<T> {
    pub fn new(t: T) -> (r: Self)
        ensures
            r.inner() == t,
    {
        Json(t)
    }

    pub closed spec fn inner(&self) -> T {
        self.0
    }

    /// The payload held.
    pub fn get(&self) -> (r: &T)
        ensures
            *r == self.inner(),
    {
        &self.0
    }

    /// Takes the payload out.
    pub fn into_inner(self) -> (r: T)
        ensures
            r == self.inner(),
    {
        self.0
    }

    /// The guard's outcome once the body text has been read: the payload, or
    /// status 400 where the text did not hold a value of the expected shape.
    pub fn from_parsed(parsed: Option<T>) -> (r: GuardOutcome<Json<T>>)
        ensures
            parsed matches Some(v) ==> r matches GuardOutcome::Value(j) && j.inner() == v,
            parsed is None ==> r is Error && r->Error_0.status == BAD_REQUEST,
    {
        match parsed {
            Some(v) => GuardOutcome::Value(Json::new(v)),
            None => GuardOutcome::Error(bad_request_response()),
        }
    }
}

/// A handler argument taken from a placeholder of the route's path.
pub struct Path<T>(T);

impl<T> Path<T> {
    pub fn new(t: T) -> (r: Self)
        ensures
            r.inner() == t,
    {
        Path(t)
    }

    pub closed spec fn inner(&self) -> T {
        self.0
    }

    /// The value held.
    pub fn get(&self) -> (r: &T)
        ensures
            *r == self.inner(),
    {
        &self.0
    }

    /// Takes the value out.
    pub fn into_inner(self) -> (r: T)
        ensures
            r == self.inner(),
    {
        self.0
    }
}

/// The value of a decimal numeral: digits only.
pub open spec fn digits_value(s: Seq<char>) -> int
    decreases s.len(),
{
    if s.len() == 0 {
        0
    } else {
        digits_value(s.drop_last()) * 10 + (s.last() as int - '0' as int)
    }
}

/// One or more decimal digits.
pub open spec fn all_digits(s: Seq<char>) -> bool {
    s.len() > 0 && forall|i: int| 0 <= i < s.len() ==> '0' <= #[trigger] s[i] && s[i] <= '9'
}

/// The integer that `s` writes: an optional `+` or `-` and then digits only.
pub open spec fn decimal_value(s: Seq<char>) -> Option<int> {
    if s.len() > 0 && (s[0] == '+' || s[0] == '-') {
        if all_digits(s.drop_first()) {
            Some(if s[0] == '-' { -digits_value(s.drop_first()) } else { digits_value(s.drop_first()) })
        } else {
            None
        }
    } else if all_digits(s) {
        Some(digits_value(s))
    } else {
        None
    }
}

/// The `i32` that `s` writes, where it writes one in range.
pub open spec fn decimal_i32(s: Seq<char>) -> Option<i32> {
    match decimal_value(s) {
        Some(v) => if i32::MIN <= v && v <= i32::MAX {
            Some(v as i32)
        } else {
            None
        },
        None => None,
    }
}

/// Relies on `i32`'s `FromStr`: an optional sign followed by digits only,
/// refused when out of range.
#[verifier::external_body]
fn parse_i32(s: &str) -> (r: Option<i32>)
    ensures
        r == decimal_i32(s@),
{
    s.parse::<i32>().ok()
}

/// The path parameter `name` as text: forwards where the route binds no such
/// placeholder.
pub fn path_text(bindings: &ParameterBindings, name: &str) -> (r: GuardOutcome<String>)
    ensures
        lookup(bindings@, name@) is None ==> r is Forward,
        lookup(bindings@, name@) matches Some(v) ==> r matches GuardOutcome::Value(s) && s@ == v,
{
    match bindings.get(name) {
        Some(v) => GuardOutcome::Value(v.clone()),
        None => GuardOutcome::Forward,
    }
}

/// The path parameter `name` as an `i32`: forwards where the route binds no
/// such placeholder or where its text is no `i32`, so that another route may
/// take the request.
pub fn path_i32(bindings: &ParameterBindings, name: &str) -> (r: GuardOutcome<i32>)
    ensures
        lookup(bindings@, name@) is None ==> r is Forward,
        lookup(bindings@, name@) matches Some(v) ==> (match decimal_i32(v) {
            Some(n) => r == GuardOutcome::<i32>::Value(n),
            None => r is Forward,
        }),
{
    match bindings.get(name) {
        Some(v) => match parse_i32(v.as_str()) {
            Some(n) => GuardOutcome::Value(n),
            None => GuardOutcome::Forward,
        },
        None => GuardOutcome::Forward,
    }
}

} // verus!
