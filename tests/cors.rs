use users_router::cors::{Segment, CORS};
use users_router::http::{Header, Method, Request, Response, Status};

fn path(segments: &[&str]) -> Vec<String> {
    segments.iter().map(|s| s.to_string()).collect()
}

fn request(method: Method, segments: &[&str]) -> Request {
    Request::new(method, path(segments))
}

fn has_cors_headers(res: &Response) -> [bool; 3] {
    [
        res.has_header("Access-Control-Allow-Origin"),
        res.has_header("Access-Control-Allow-Headers"),
        res.has_header("Access-Control-Allow-Methods"),
    ]
}

#[test]
fn test_cors_allowed_endpoints() {
    // Every registered endpoint, wildcards filled with "foo", gets the headers.
    for endpoint in CORS::endpoints() {
        let segments: Vec<String> = endpoint
            .path
            .iter()
            .map(|s| match s {
                Segment::Literal(l) => l.clone(),
                Segment::Wildcard => "foo".to_string(),
            })
            .collect();
        let req = Request::new(endpoint.method, segments);
        let res = CORS.after(&req, Response::new());
        assert!(res.has_header("Access-Control-Allow-Origin"));
        assert!(res.has_header("Access-Control-Allow-Headers"));
        assert!(res.has_header("Access-Control-Allow-Methods"));
    }

    // POST /setup is not a cross-origin endpoint: no headers.
    let req = request(Method::Post, &["setup"]);
    let res = CORS.after(&req, Response::new());
    assert!(!res.has_header("Access-Control-Allow-Origin"));
    assert!(!res.has_header("Access-Control-Allow-Headers"));
    assert!(!res.has_header("Access-Control-Allow-Methods"));
}

#[test]
fn registry_has_fourteen_endpoints() {
    assert_eq!(CORS::endpoints().len(), 14);
}

#[test]
fn cors_header_values() {
    let res = CORS.after(&request(Method::Get, &["users"]), Response::new());
    let pairs: Vec<(String, String)> =
        res.headers.iter().map(|h| (h.name.clone(), h.value.clone())).collect();
    assert_eq!(
        pairs,
        vec![
            ("Access-Control-Allow-Origin".to_string(), "*".to_string()),
            ("Access-Control-Allow-Headers".to_string(), "accept, content-type".to_string()),
            (
                "Access-Control-Allow-Methods".to_string(),
                "GET, HEAD, POST, DELETE, OPTIONS, PUT".to_string()
            ),
        ]
    );
}

#[test]
fn cors_keeps_existing_headers_status_and_body() {
    let mut res = Response::with_status(Status::NotImplemented);
    res.headers.push(Header::new("X-Trace", "1"));
    res.body = "kept".to_string();
    let out = CORS.after(&request(Method::Put, &["users", "42"]), res);
    assert_eq!(out.status, Some(Status::NotImplemented));
    assert_eq!(out.body, "kept");
    assert_eq!(out.headers.len(), 4);
    assert_eq!(out.headers[0].name, "X-Trace");
    assert_eq!(out.headers[0].value, "1");
}

#[test]
fn cors_leaves_unmatched_response_unchanged() {
    let mut res = Response::with_status(Status::Success);
    res.headers.push(Header::new("X-Trace", "1"));
    let out = CORS.after(&request(Method::Patch, &["users", "42"]), res);
    assert_eq!(out.status, Some(Status::Success));
    assert_eq!(out.headers.len(), 1);
    assert_eq!(has_cors_headers(&out), [false, false, false]);
}

#[test]
fn cors_method_must_agree() {
    assert!(CORS::is_cors_endpoint(Method::Delete, &path(&["invitations"])));
    assert!(!CORS::is_cors_endpoint(Method::Delete, &path(&["users"])));
    assert!(!CORS::is_cors_endpoint(Method::Head, &path(&["users"])));
    assert!(!CORS::is_cors_endpoint(Method::Other, &path(&["users"])));
    assert!(!CORS::is_cors_endpoint(Method::Post, &path(&["setup"])));
}

#[test]
fn cors_segment_count_must_agree() {
    assert!(CORS::is_cors_endpoint(Method::Post, &path(&["recoveries", "bob"])));
    assert!(!CORS::is_cors_endpoint(Method::Post, &path(&["recoveries"])));
    assert!(!CORS::is_cors_endpoint(Method::Post, &path(&["recoveries", "bob", "x"])));
    assert!(CORS::is_cors_endpoint(Method::Get, &path(&["permissions", "a", "b"])));
    assert!(!CORS::is_cors_endpoint(Method::Get, &path(&["permissions", "a", "b", "c"])));
    assert!(!CORS::is_cors_endpoint(Method::Get, &path(&[])));
    assert!(!CORS::is_cors_endpoint(Method::Put, &path(&["users"])));
}

#[test]
fn cors_wildcard_takes_any_non_empty_segment() {
    assert!(CORS::is_cors_endpoint(Method::Put, &path(&["users", "a b%2F?*#é"])));
    assert!(CORS::is_cors_endpoint(Method::Put, &path(&["users", "*"])));
    assert!(CORS::is_cors_endpoint(Method::Get, &path(&["recoveries", "_", "-"])));
    assert!(!CORS::is_cors_endpoint(Method::Put, &path(&["users", ""])));
}

#[test]
fn cors_literal_rejects_other_case_or_content() {
    assert!(!CORS::is_cors_endpoint(Method::Get, &path(&["Users"])));
    assert!(!CORS::is_cors_endpoint(Method::Get, &path(&["USERS"])));
    assert!(!CORS::is_cors_endpoint(Method::Get, &path(&["user"])));
    assert!(!CORS::is_cors_endpoint(Method::Get, &path(&["users "])));
    assert!(!CORS::is_cors_endpoint(Method::Post, &path(&["Recoveries", "bob"])));
}

#[test]
fn cors_underscore_is_a_literal() {
    // The `_` pattern is literal, but `permissions/*/*` also takes these paths.
    assert!(CORS::is_cors_endpoint(Method::Get, &path(&["permissions", "_", "t"])));
    assert!(CORS::is_cors_endpoint(Method::Get, &path(&["permissions", "x", "t"])));
    let endpoints = CORS::endpoints();
    let underscore = &endpoints[12];
    assert!(matches!(&underscore.path[1], Segment::Literal(l) if l == "_"));
    assert!(!CORS::matches(underscore, Method::Get, &path(&["permissions", "x", "t"])));
    assert!(CORS::matches(underscore, Method::Get, &path(&["permissions", "_", "t"])));
}

#[test]
fn status_codes() {
    assert_eq!(Status::Success.code(), 200);
    assert_eq!(Status::BadRequest.code(), 400);
    assert_eq!(Status::InternalServerError.code(), 500);
    assert_eq!(Status::NotImplemented.code(), 501);
}

#[test]
fn fresh_response_is_empty() {
    let res = Response::new();
    assert_eq!(res.status, None);
    assert!(res.headers.is_empty());
    assert!(res.body.is_empty());
    assert!(!res.has_header("Access-Control-Allow-Origin"));
}
