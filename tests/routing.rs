use h3_hello::query::extract_name_from_query;
use h3_hello::routes::{hello_message, plain_greeting, route, str_equal, Method, ResponseOutcome};

fn body_json(r: &ResponseOutcome) -> serde_json::Value {
    serde_json::from_str(r.body.as_ref().expect("a body")).expect("JSON body")
}

#[test]
fn health_route_reports_status() {
    let r = route(Method::Get, "/health", None);
    assert_eq!(r.status, 200);
    assert_eq!(r.content_type.as_deref(), Some("application/json"));
    let v = body_json(&r);
    let expected: serde_json::Value =
        serde_json::from_str(r#"{"status":"healthy","version":"1.0.0","protocol":"HTTP/3"}"#).unwrap();
    assert_eq!(v, expected);
}

#[test]
fn root_route_greets_ada() {
    let r = route(Method::Get, "/", Some("name=Ada"));
    assert_eq!(r.status, 200);
    assert_eq!(r.content_type.as_deref(), Some("application/json"));
    let v = body_json(&r);
    assert_eq!(v["message"], "Hello, Ada via HTTP/3!");
    assert_eq!(v["protocol"], "HTTP/3");
}

#[test]
fn root_body_text_is_exact() {
    let r = route(Method::Get, "/", Some("name=Ada"));
    assert_eq!(
        r.body.as_deref(),
        Some(r#"{"message":"Hello, Ada via HTTP/3!","protocol":"HTTP/3"}"#)
    );
}

#[test]
fn root_without_query_greets_world_once() {
    let r = route(Method::Get, "/", None);
    assert_eq!(r.status, 200);
    let v = body_json(&r);
    assert_eq!(v["message"], "Hello, World via HTTP/3!");
    let text = r.body.unwrap();
    assert_eq!(text.matches("World").count(), 1);
    assert!(!text.contains("None"));
    assert!(!text.contains("null"));
}

#[test]
fn name_value_kept_verbatim() {
    for v in ["Ada", "", "a=b", "%20x", "Grace Hopper", "ünï", "\"quoted\""] {
        let q = format!("name={}", v);
        let r = route(Method::Get, "/", Some(&q));
        let body = body_json(&r);
        assert_eq!(body["message"], format!("Hello, {} via HTTP/3!", v));
    }
}

#[test]
fn query_ignored_off_root() {
    let a = route(Method::Get, "/health", Some("name=Ada"));
    let b = route(Method::Get, "/health", None);
    assert_eq!(a.body, b.body);
    let c = route(Method::Post, "/", Some("name=Ada"));
    assert_eq!(c.status, 404);
    assert_eq!(c.body.as_deref(), Some("Not Found"));
}

#[test]
fn unsupported_routes_are_not_found() {
    let long = "/x".repeat(5000);
    let cases: Vec<(Method, &str)> = vec![
        (Method::Post, "/"),
        (Method::Put, "/health"),
        (Method::Other, "/"),
        (Method::Get, "/missing"),
        (Method::Get, ""),
        (Method::Get, "/health/"),
        (Method::Get, "/ünïcödé?&="),
        (Method::Get, &long),
    ];
    for (m, p) in cases {
        let r = route(m, p, Some("name=Ada"));
        assert_eq!(r.status, 404);
        assert_eq!(r.content_type, None);
        assert_eq!(r.body.as_deref(), Some("Not Found"));
    }
}

#[test]
fn query_first_name_pair_wins() {
    assert_eq!(extract_name_from_query(Some("name=Ada&name=Bob")), "Ada");
    assert_eq!(extract_name_from_query(Some("x=1&name=Bob")), "Bob");
    assert_eq!(extract_name_from_query(Some("name&name=Bob")), "Bob");
    assert_eq!(extract_name_from_query(Some("name=a=b")), "a=b");
    assert_eq!(extract_name_from_query(Some("name=")), "");
    assert_eq!(extract_name_from_query(Some("names=Ada")), "World");
    assert_eq!(extract_name_from_query(Some("")), "World");
    assert_eq!(extract_name_from_query(Some("&&")), "World");
    assert_eq!(extract_name_from_query(Some("a&name=Zoë&")), "Zoë");
    assert_eq!(extract_name_from_query(None), "World");
}

#[test]
fn method_tokens() {
    assert_eq!(Method::from_token("GET"), Method::Get);
    assert_eq!(Method::from_token("HEAD"), Method::Head);
    assert_eq!(Method::from_token("POST"), Method::Post);
    assert_eq!(Method::from_token("PUT"), Method::Put);
    assert_eq!(Method::from_token("DELETE"), Method::Delete);
    assert_eq!(Method::from_token("CONNECT"), Method::Connect);
    assert_eq!(Method::from_token("OPTIONS"), Method::Options);
    assert_eq!(Method::from_token("TRACE"), Method::Trace);
    assert_eq!(Method::from_token("PATCH"), Method::Patch);
    assert_eq!(Method::from_token("get"), Method::Other);
    assert_eq!(Method::from_token(""), Method::Other);
}

#[test]
fn greetings() {
    assert_eq!(hello_message("Ada"), "Hello, Ada via HTTP/3!");
    assert_eq!(plain_greeting(Some("Ada")), "Hello, Ada!");
    assert_eq!(plain_greeting(None), "Hello, World!");
}

#[test]
fn string_equality() {
    assert!(str_equal("/health", "/health"));
    assert!(!str_equal("/health", "/Health"));
    assert!(!str_equal("/", ""));
    assert!(str_equal("", ""));
}

#[test]
fn routed_responses_have_bodies() {
    assert!(route(Method::Get, "/", None).has_body());
    assert!(route(Method::Get, "/health", None).has_body());
    assert!(route(Method::Delete, "/x", None).has_body());
}

#[test]
fn health_body_text_is_exact() {
    let r = route(Method::Get, "/health", Some("name=Ada"));
    assert_eq!(
        r.body.as_deref(),
        Some(r#"{"protocol":"HTTP/3","status":"healthy","version":"1.0.0"}"#)
    );
}

#[test]
fn escaped_name_stays_valid_json() {
    let r = route(Method::Get, "/", Some("name=a\"b\\c"));
    let v = body_json(&r);
    assert_eq!(v["message"], "Hello, a\"b\\c via HTTP/3!");
}

#[test]
fn plaintext_health_pairs() {
    assert_eq!(
        h3_hello::routes::plain_health(),
        vec![
            ("status".to_string(), "healthy".to_string()),
            ("version".to_string(), "1.0.0".to_string())
        ]
    );
}
