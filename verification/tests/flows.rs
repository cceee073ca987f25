use axum::body::Body;
use axum::http::{Method, Request, StatusCode};
use axum_extra::extract::cookie::{Cookie, CookieJar};
use starriver::adapter::username_flow::UsernameFlow;
use starriver::adapter::username_password_flow::UsernamePasswordFlow;
use starriver::base::authentication::HttpMethod;

fn method_of(m: &Method) -> HttpMethod {
    match *m {
        Method::GET => HttpMethod::Get,
        Method::POST => HttpMethod::Post,
        Method::PUT => HttpMethod::Put,
        Method::DELETE => HttpMethod::Delete,
        Method::PATCH => HttpMethod::Patch,
        Method::HEAD => HttpMethod::Head,
        Method::OPTIONS => HttpMethod::Options,
        Method::CONNECT => HttpMethod::Connect,
        Method::TRACE => HttpMethod::Trace,
        _ => HttpMethod::Other,
    }
}

fn cookie_names(req: &Request<Body>) -> Vec<String> {
    CookieJar::from_headers(req.headers())
        .iter()
        .map(|c| c.name().to_string())
        .collect()
}

#[test]
fn username_flow_test_is_access_require_authentication() {
    let flow = UsernameFlow {};

    let req = Request::builder()
        .uri("/api/protected")
        .method(Method::GET)
        .body(Body::empty())
        .unwrap();
    assert!(flow.is_access_require_authentication(req.uri().path(), method_of(req.method())));

    let req = Request::builder()
        .uri("/users")
        .method(Method::POST)
        .body(Body::empty())
        .unwrap();
    assert!(!flow.is_access_require_authentication(req.uri().path(), method_of(req.method())));
}

#[test]
fn username_flow_test_is_authenticated() {
    let flow = UsernameFlow {};

    let cookie = Cookie::new("id", "test_value");
    let req = Request::builder()
        .uri("/")
        .header("Cookie", cookie.to_string())
        .body(Body::empty())
        .unwrap();
    assert!(flow.is_authenticated(&cookie_names(&req)));

    let req = Request::builder().uri("/").body(Body::empty()).unwrap();
    assert!(!flow.is_authenticated(&cookie_names(&req)));
}

#[test]
fn username_flow_test_is_authenticate_request() {
    let flow = UsernameFlow {};

    let req = Request::builder()
        .uri("/login")
        .method(Method::POST)
        .body(Body::empty())
        .unwrap();
    assert!(flow.is_authenticate_request(req.uri().path(), method_of(req.method())));

    let req = Request::builder()
        .uri("/login")
        .method(Method::GET)
        .body(Body::empty())
        .unwrap();
    assert!(!flow.is_authenticate_request(req.uri().path(), method_of(req.method())));

    let req = Request::builder()
        .uri("/other")
        .method(Method::POST)
        .body(Body::empty())
        .unwrap();
    assert!(!flow.is_authenticate_request(req.uri().path(), method_of(req.method())));
}

#[test]
fn username_flow_test_on_unauthenticated() {
    let flow = UsernameFlow {};
    let _req = Request::builder().body(Body::empty()).unwrap();
    let status = flow.on_unauthenticated();
    assert_eq!(status, StatusCode::UNAUTHORIZED.as_u16());
}

#[test]
fn username_password_flow_test_is_access_require_authentication() {
    let flow = UsernamePasswordFlow {};

    let req = Request::builder()
        .uri("/api/un_protected")
        .method(Method::GET)
        .body(Body::empty())
        .unwrap();
    assert!(!flow.is_access_require_authentication(req.uri().path(), method_of(req.method())));

    let req = Request::builder()
        .uri("/users")
        .method(Method::POST)
        .body(Body::empty())
        .unwrap();
    assert!(flow.is_access_require_authentication(req.uri().path(), method_of(req.method())));
}

#[test]
fn username_password_flow_test_is_authenticated() {
    let flow = UsernamePasswordFlow {};

    let cookie = Cookie::new("id", "test_value");
    let req = Request::builder()
        .uri("/")
        .header("Cookie", cookie.to_string())
        .body(Body::empty())
        .unwrap();
    assert!(flow.is_authenticated(&cookie_names(&req)));

    let req = Request::builder().uri("/").body(Body::empty()).unwrap();
    assert!(!flow.is_authenticated(&cookie_names(&req)));
}

#[test]
fn username_password_flow_test_is_authenticate_request() {
    let flow = UsernamePasswordFlow {};

    let req = Request::builder()
        .uri("/login")
        .method(Method::POST)
        .body(Body::empty())
        .unwrap();
    assert!(flow.is_authenticate_request(req.uri().path(), method_of(req.method())));

    let req = Request::builder()
        .uri("/login")
        .method(Method::GET)
        .body(Body::empty())
        .unwrap();
    assert!(!flow.is_authenticate_request(req.uri().path(), method_of(req.method())));
}

#[test]
fn username_password_flow_test_on_unauthenticated() {
    let flow = UsernamePasswordFlow {};
    let _req = Request::builder().body(Body::empty()).unwrap();
    let status = flow.on_unauthenticated();
    assert_eq!(status, StatusCode::UNAUTHORIZED.as_u16());
}
