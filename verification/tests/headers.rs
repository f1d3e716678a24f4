use factoryplus::service::fetch_util::is_idempotent;
use factoryplus::service::request::{copy_pairs, FetchOpts, HttpRequestMethod};
use factoryplus::service::utils::{check_correct_headers, headers_or_error};
use factoryplus::service::ServiceType;
use http::header::{HeaderValue, ACCEPT, AUTHORIZATION, CONTENT_TYPE};
use http::HeaderMap;

#[test]
fn accept_is_added_to_an_empty_request() {
    let headers = HeaderMap::new();
    let out = check_correct_headers(&headers, &None, &"https://x".to_string()).unwrap();
    assert_eq!(out.len(), 1);
    assert_eq!(out.get(ACCEPT).unwrap(), "application/json");
    assert!(out.get(CONTENT_TYPE).is_none());
    assert!(headers.is_empty());
}

#[test]
fn content_type_is_added_when_there_is_a_body() {
    let headers = HeaderMap::new();
    let body = Some("{}".to_string());
    let out = check_correct_headers(&headers, &body, &"https://x".to_string()).unwrap();
    assert_eq!(out.len(), 2);
    assert_eq!(out.get(ACCEPT).unwrap(), "application/json");
    assert_eq!(out.get(CONTENT_TYPE).unwrap(), "application/json");
}

#[test]
fn supplied_headers_are_not_overwritten() {
    let mut headers = HeaderMap::new();
    headers.insert(ACCEPT, HeaderValue::from_static("text/plain"));
    headers.insert(CONTENT_TYPE, HeaderValue::from_static("application/merge-patch+json"));
    headers.insert(AUTHORIZATION, HeaderValue::from_static("Basic abc"));
    let body = Some("{}".to_string());
    let out = check_correct_headers(&headers, &body, &"https://x".to_string()).unwrap();
    assert_eq!(out.len(), 3);
    assert_eq!(out.get(ACCEPT).unwrap(), "text/plain");
    assert_eq!(out.get(CONTENT_TYPE).unwrap(), "application/merge-patch+json");
    assert_eq!(out.get(AUTHORIZATION).unwrap(), "Basic abc");
}

#[test]
fn a_supplied_accept_is_kept_and_content_type_added() {
    let mut headers = HeaderMap::new();
    headers.insert(ACCEPT, HeaderValue::from_static("text/plain"));
    let body = Some("x".to_string());
    let out = check_correct_headers(&headers, &body, &"u".to_string()).unwrap();
    assert_eq!(out.get(ACCEPT).unwrap(), "text/plain");
    assert_eq!(out.get(CONTENT_TYPE).unwrap(), "application/json");
    assert_eq!(headers.len(), 1);
}

#[test]
fn the_outcome_of_normalisation() {
    let mut headers = HeaderMap::new();
    headers.insert(ACCEPT, HeaderValue::from_static("a/b"));
    let kept = headers_or_error(true, headers.clone(), &"https://x/y".to_string()).unwrap();
    assert_eq!(kept, headers);
    let e = headers_or_error(false, headers, &"https://x/y".to_string()).unwrap_err();
    assert_eq!(e.message, "Couldn't create correct header values.");
    assert_eq!(e.url, "https://x/y");
}

#[test]
fn a_new_request_is_an_empty_get() {
    let opts = FetchOpts::new();
    assert_eq!(opts.url, "");
    assert_eq!(opts.service, ServiceType::Directory);
    assert!(opts.method == HttpRequestMethod::GET);
    assert!(opts.headers.is_empty());
    assert!(opts.query.is_none());
    assert!(opts.body.is_none());
}

#[test]
fn a_request_is_copied_whole() {
    let mut opts = FetchOpts::new();
    opts.url = "/v1/x".to_string();
    opts.service = ServiceType::ConfigDb;
    opts.method = HttpRequestMethod::PATCH;
    opts.headers.insert(ACCEPT, HeaderValue::from_static("a/b"));
    opts.query = Some(vec![("k".to_string(), "v".to_string()), ("l".to_string(), "w".to_string())]);
    opts.body = Some("body".to_string());
    let copy = opts.clone();
    assert_eq!(copy.url, "/v1/x");
    assert_eq!(copy.service, ServiceType::ConfigDb);
    assert!(copy.method == HttpRequestMethod::PATCH);
    assert_eq!(copy.headers, opts.headers);
    assert_eq!(copy.query, opts.query);
    assert_eq!(copy.body, opts.body);
    assert_eq!(copy_pairs(&Vec::new()), Vec::new());
}

#[test]
fn idempotence_needs_get_no_headers_and_no_body() {
    let mut opts = FetchOpts::new();
    assert!(is_idempotent(&opts));
    opts.body = Some("x".to_string());
    assert!(!is_idempotent(&opts));
    opts.body = None;
    opts.method = HttpRequestMethod::POST;
    assert!(!is_idempotent(&opts));
    opts.method = HttpRequestMethod::HEAD;
    assert!(!is_idempotent(&opts));
    opts.method = HttpRequestMethod::GET;
    assert!(is_idempotent(&opts));
    opts.headers.insert(ACCEPT, HeaderValue::from_static("a/b"));
    assert!(!is_idempotent(&opts));
}

#[test]
fn defaults_are_added_to_a_well_filled_collection() {
    let mut headers = HeaderMap::new();
    for i in 0..500 {
        let name = http::header::HeaderName::from_bytes(format!("x-custom-{}", i).as_bytes()).unwrap();
        headers.insert(name, HeaderValue::from_static("v"));
    }
    let body = Some("{}".to_string());
    let out = check_correct_headers(&headers, &body, &"u".to_string()).unwrap();
    assert_eq!(out.keys_len(), 502);
    assert_eq!(out.get(ACCEPT).unwrap(), "application/json");
    assert_eq!(out.get(CONTENT_TYPE).unwrap(), "application/json");
    assert_eq!(headers.keys_len(), 500);
}
