use std::collections::BTreeMap;

use meilisearch_transport::errors::Error;
use meilisearch_transport::request::{add_query_parameters, append_query, build_headers,
    build_request_plan, build_stream_plan, qualified_version, Method, ReqwestClient, Verb};

fn no_query() -> BTreeMap<String, String> {
    BTreeMap::new()
}

fn two_params() -> BTreeMap<String, String> {
    let mut q = BTreeMap::new();
    q.insert("a".to_string(), "1".to_string());
    q.insert("b".to_string(), "two".to_string());
    q
}

#[test]
fn empty_query_leaves_url_unchanged() {
    let url = add_query_parameters("http://localhost/indexes", &no_query()).unwrap();
    assert_eq!(url, "http://localhost/indexes");
}

#[test]
fn non_empty_query_gains_exactly_one_question_mark() {
    let url = add_query_parameters("http://localhost/indexes", &two_params()).unwrap();
    assert_eq!(url, "http://localhost/indexes?a=1&b=two");
    assert_eq!(url.matches('?').count(), 1);
}

#[test]
fn unsupported_query_shape_is_encoding_error() {
    let r = add_query_parameters("http://localhost/indexes", &7u32);
    assert!(matches!(r, Err(Error::EncodingError(_))));
}

#[test]
fn unsupported_body_shape_is_encoding_error() {
    // serde_json refuses a map whose keys are not strings.
    let mut body: BTreeMap<Vec<u8>, u64> = BTreeMap::new();
    body.insert(vec![1], 2);
    let m: Method<BTreeMap<String, String>, _> = Method::Post { query: no_query(), body };
    let r = build_request_plan("http://localhost/documents", &m);
    assert!(matches!(r, Err(Error::EncodingError(_))));
}

#[test]
fn query_round_trip_reproduces_key_value_pairs() {
    // Stands in for an echo server: the encoded parameters are decoded
    // back from the URL and must reproduce the pairs that were sent.
    let sent = two_params();
    let url = add_query_parameters("http://localhost/indexes", &sent).unwrap();
    let encoded = url.split_once('?').expect("query expected").1;
    let mut decoded = BTreeMap::new();
    for pair in encoded.split('&') {
        let (k, v) = pair.split_once('=').expect("pair expected");
        decoded.insert(k.to_string(), v.to_string());
    }
    assert_eq!(decoded, sent);
}

#[test]
fn append_query_is_verbatim() {
    assert_eq!(append_query("u", ""), "u");
    assert_eq!(append_query("u", "a=1"), "u?a=1");
}

#[test]
fn qualified_version_formats_version() {
    assert_eq!(qualified_version(Some("1.2.3")), "Meilisearch Rust (v1.2.3)");
    assert_eq!(qualified_version(None), "Meilisearch Rust (vunknown)");
}

#[test]
fn headers_carry_bearer_only_with_api_key() {
    let h = build_headers(Some("0.1"), Some("secret"));
    assert_eq!(h.user_agent, "Meilisearch Rust (v0.1)");
    assert_eq!(h.bearer.as_deref(), Some("Bearer secret"));
    let h = build_headers(None, None);
    assert_eq!(h.user_agent, "Meilisearch Rust (vunknown)");
    assert!(h.bearer.is_none());
}

#[test]
fn get_plan_has_no_body() {
    let m: Method<BTreeMap<String, String>, ()> = Method::Get { query: two_params() };
    let p = build_request_plan("http://localhost/indexes", &m).unwrap();
    assert_eq!(p.verb, Verb::Get);
    assert_eq!(p.url, "http://localhost/indexes?a=1&b=two");
    assert!(p.content_type.is_none());
    assert!(p.body.is_none());
}

#[test]
fn delete_plan_has_no_body() {
    let m: Method<BTreeMap<String, String>, ()> = Method::Delete { query: no_query() };
    let p = build_request_plan("http://localhost/indexes/one", &m).unwrap();
    assert_eq!(p.verb, Verb::Delete);
    assert_eq!(p.url, "http://localhost/indexes/one");
    assert!(p.content_type.is_none());
    assert!(p.body.is_none());
}

#[test]
fn post_plan_serializes_body_as_json() {
    let m: Method<BTreeMap<String, String>, Vec<u64>> =
        Method::Post { query: no_query(), body: vec![1, 2] };
    let p = build_request_plan("http://localhost/documents", &m).unwrap();
    assert_eq!(p.verb, Verb::Post);
    assert_eq!(p.url, "http://localhost/documents");
    assert_eq!(p.content_type.as_deref(), Some("application/json"));
    assert_eq!(p.body.as_deref(), Some("[1,2]"));
}

#[test]
fn put_and_patch_plans_carry_query_and_body() {
    let m: Method<BTreeMap<String, String>, Vec<u64>> =
        Method::Put { query: two_params(), body: vec![3] };
    let p = build_request_plan("http://localhost/settings", &m).unwrap();
    assert_eq!(p.verb, Verb::Put);
    assert_eq!(p.url, "http://localhost/settings?a=1&b=two");
    assert_eq!(p.body.as_deref(), Some("[3]"));

    let m: Method<BTreeMap<String, String>, Vec<u64>> =
        Method::Patch { query: no_query(), body: vec![4] };
    let p = build_request_plan("http://localhost/settings", &m).unwrap();
    assert_eq!(p.verb, Verb::Patch);
    assert_eq!(p.body.as_deref(), Some("[4]"));
}

#[test]
fn stream_plan_hands_the_body_back_verbatim() {
    let m: Method<BTreeMap<String, String>, Vec<u8>> =
        Method::Post { query: no_query(), body: vec![10, 20] };
    let (p, body) = build_stream_plan("http://localhost/documents", m, "text/plain").unwrap();
    assert_eq!(p.verb, Verb::Post);
    assert_eq!(p.url, "http://localhost/documents");
    assert_eq!(p.content_type.as_deref(), Some("text/plain"));
    assert_eq!(body, Some(vec![10, 20]));
}

#[test]
fn stream_plan_without_body_has_no_content_type() {
    let m: Method<BTreeMap<String, String>, Vec<u8>> = Method::Delete { query: no_query() };
    let (p, body) = build_stream_plan("http://localhost/tasks", m, "text/plain").unwrap();
    assert_eq!(p.verb, Verb::Delete);
    assert!(p.content_type.is_none());
    assert!(body.is_none());
}

#[test]
fn reqwest_client_is_constructible() {
    let _c = ReqwestClient::new();
}
