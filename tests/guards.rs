use aws_oxide_api::guards::{body_guard, is_json_content_type, json_body_text, path_i32, path_text};
use aws_oxide_api::{
    Binary, Body, GuardOutcome, Json, JsonResponse, ParameterBindings, Path, QueryParameters,
    RequestView, State, Text,
};

fn status_of<T>(o: &GuardOutcome<T>) -> Option<u16> {
    match o {
        GuardOutcome::Error(r) => Some(r.status),
        _ => None,
    }
}

/// Reads the `field` member of a JSON object, as the handler of the JSON
/// guard scenario expects it.
fn field_of(text: &str) -> Option<String> {
    let v: serde_json::Value = serde_json::from_str(text).ok()?;
    v.get("field")?.as_str().map(|s| s.to_string())
}

fn json_guard(content_type: Option<&[u8]>, body: &Body) -> GuardOutcome<Json<String>> {
    match json_body_text(content_type, body) {
        GuardOutcome::Value(text) => Json::from_parsed(field_of(&text)),
        GuardOutcome::Error(e) => GuardOutcome::Error(e),
        GuardOutcome::Forward => GuardOutcome::Forward,
    }
}

#[test]
fn json_guard_accepts_json_with_field() {
    let body = Body::Text("{\"field\":\"x\"}".to_string());
    match json_guard(Some(b"application/json"), &body) {
        GuardOutcome::Value(j) => assert_eq!(j.into_inner(), "x"),
        _ => panic!("expected a value"),
    }
    match json_guard(Some(b"Application/JSON"), &body) {
        GuardOutcome::Value(j) => assert_eq!(j.get(), "x"),
        _ => panic!("expected a value"),
    }
}

#[test]
fn json_guard_refuses_wrong_or_missing_content_type() {
    let body = Body::Text("{\"field\":\"x\"}".to_string());
    assert_eq!(status_of(&json_guard(Some(b"text/plain"), &body)), Some(400));
    assert_eq!(status_of(&json_guard(None, &body)), Some(400));
    assert_eq!(status_of(&json_guard(Some(b"application/json; x"), &body)), Some(400));
}

#[test]
fn json_guard_refuses_missing_field_and_non_text_body() {
    let body = Body::Text("{\"not-correct-field\":\"x\"}".to_string());
    assert_eq!(status_of(&json_guard(Some(b"application/json"), &body)), Some(400));
    assert_eq!(status_of(&json_guard(Some(b"application/json"), &Body::Empty)), Some(400));
    assert_eq!(status_of(&json_guard(Some(b"application/json"), &Body::Binary(vec![1]))), Some(400));
}

#[test]
fn bad_request_response_carries_default_message() {
    let r = JsonResponse::bad_request(None).into_response();
    assert_eq!(r.status, 400);
    assert_eq!(r.content_type.as_deref(), Some("application/json"));
    match r.body {
        Body::Text(t) => {
            let v: serde_json::Value = serde_json::from_str(&t).unwrap();
            assert_eq!(v.get("message").and_then(|m| m.as_str()), Some("Bad Request"));
        },
        _ => panic!("expected text"),
    }
    let custom = JsonResponse::new(serde_json::Value::Bool(true), 201);
    assert_eq!(custom.status(), 201);
    let r = custom.into_response();
    assert_eq!(r.status, 201);
    assert!(matches!(r.body, Body::Text(ref t) if t == "true"));
}

#[test]
fn content_type_check_ignores_ascii_case_only() {
    assert!(is_json_content_type(b"application/json"));
    assert!(is_json_content_type(b"APPLICATION/JSON"));
    assert!(!is_json_content_type(b"application/jsonx"));
    assert!(!is_json_content_type(b""));
}

#[test]
fn body_guards_take_matching_bodies() {
    let text = Body::Text("hi".to_string());
    let bin = Body::Binary(vec![1, 2, 3]);
    match Text::from_body(&text) {
        GuardOutcome::Value(t) => assert_eq!(t.into_inner(), "hi"),
        _ => panic!("expected text"),
    }
    assert!(matches!(Text::from_body(&bin), GuardOutcome::Forward));
    match Binary::from_body(&bin) {
        GuardOutcome::Value(b) => assert_eq!(b.as_bytes(), &vec![1, 2, 3]),
        _ => panic!("expected bytes"),
    }
    assert!(matches!(Binary::from_body(&Body::Empty), GuardOutcome::Forward));
    match body_guard(&bin) {
        GuardOutcome::Value(Body::Binary(b)) => assert_eq!(b, vec![1, 2, 3]),
        _ => panic!("expected the body"),
    }
    assert_eq!(Text::new("a".to_string()).as_string(), "a");
    assert_eq!(Binary::new(vec![9]).into_inner(), vec![9]);
}

#[test]
fn path_guards_parse_or_forward() {
    let mut b = ParameterBindings::new();
    b.insert("id".to_string(), "12345".to_string());
    b.insert("name".to_string(), "abc".to_string());
    b.insert("neg".to_string(), "-7".to_string());
    b.insert("big".to_string(), "2147483648".to_string());
    assert!(matches!(path_i32(&b, "id"), GuardOutcome::Value(12345)));
    assert!(matches!(path_i32(&b, "neg"), GuardOutcome::Value(-7)));
    assert!(matches!(path_i32(&b, "name"), GuardOutcome::Forward));
    assert!(matches!(path_i32(&b, "big"), GuardOutcome::Forward));
    assert!(matches!(path_i32(&b, "missing"), GuardOutcome::Forward));
    match path_text(&b, "name") {
        GuardOutcome::Value(s) => assert_eq!(s, "abc"),
        _ => panic!("expected text"),
    }
    assert!(matches!(path_text(&b, "missing"), GuardOutcome::Forward));
    assert_eq!(*Path::new(3).get(), 3);
    assert_eq!(Path::new("x").into_inner(), "x");
}

#[test]
fn later_binding_hides_earlier() {
    let mut b = ParameterBindings::new();
    b.insert("id".to_string(), "1".to_string());
    b.insert("id".to_string(), "2".to_string());
    assert_eq!(b.get("id").unwrap(), "2");
}

#[test]
fn query_string_pairs_and_fragment() {
    let q = QueryParameters::parse("key=value&key2=value2&key#fragment");
    assert_eq!(q.len(), 3);
    assert_eq!(q.get("key2").unwrap(), "value2");
    assert_eq!(q.get("key").unwrap(), "value");
    assert!(q.get("fragment").is_none());
    assert!(q.get("key#fragment").is_none());
    let bare = QueryParameters::parse("a=1&flag");
    assert_eq!(bare.get("flag").unwrap(), "");
    assert_eq!(bare.get("a").unwrap(), "1");
    let empty = QueryParameters::parse("&&");
    assert_eq!(empty.len(), 0);
    let eq_in_value = QueryParameters::parse("k=a=b");
    assert_eq!(eq_in_value.get("k").unwrap(), "a=b");
}

#[test]
fn request_view_exposes_its_parts() {
    let v = RequestView::new(
        "POST",
        "/some/field",
        Some("x=1"),
        Some(b"application/json".to_vec()),
        Body::Text("{}".to_string()),
    );
    assert_eq!(v.incoming_route().method, "POST");
    assert_eq!(v.incoming_route().uri.segments, vec!["some".to_string(), "field".to_string()]);
    assert_eq!(v.parameters().get("x").unwrap(), "1");
    assert_eq!(v.content_type(), Some(&b"application/json"[..]));
    assert!(matches!(v.body(), Body::Text(t) if t == "{}"));
    let none = RequestView::new("GET", "/", None, None, Body::Empty);
    assert_eq!(none.parameters().len(), 0);
    assert!(none.content_type().is_none());
}

#[test]
fn state_handle_reads_value() {
    let data = String::from("abcd");
    let s = State::new(&data);
    assert_eq!(s.get(), "abcd");
}
