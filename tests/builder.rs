use std::sync::Arc;
use nftscape::client::{BuildError, DEFAULT_USER_AGENT};
use nftscape::opensea::API_BASE_MAINNET;
use nftscape::ApiClient;

#[test]
fn basic_auth_header() {
    let mut b = ApiClient::builder().basic_auth("alice", Some("secret")).unwrap();
    let expected = format!("Basic {}", base64::encode("alice:secret"));
    assert_eq!(expected, "Basic YWxpY2U6c2VjcmV0");
    assert_eq!(b.headers_mut().get("authorization").unwrap().as_bytes(), expected.as_bytes());
}

#[test]
fn basic_auth_without_password() {
    let mut b = ApiClient::builder().basic_auth("bob", None).unwrap();
    assert_eq!(b.headers_mut().get("authorization").unwrap(), "Basic Ym9iOg==");
}

#[test]
fn default_headers_name_library() {
    let mut b = ApiClient::builder();
    b.finish_headers().unwrap();
    let h = b.headers_mut();
    assert_eq!(h.get("user-agent").unwrap(), DEFAULT_USER_AGENT);
    assert!(DEFAULT_USER_AGENT.starts_with("nftscape/"));
    assert_eq!(h.get("accept").unwrap(), "application/json");
}

#[test]
fn explicit_user_agent_wins() {
    let mut b = ApiClient::builder().user_agent("tester/2");
    b.finish_headers().unwrap();
    assert_eq!(b.headers_mut().get("user-agent").unwrap(), "tester/2");
}

#[test]
fn invalid_user_agent_is_refused() {
    let r = ApiClient::builder().user_agent("bad\nagent").build(API_BASE_MAINNET);
    assert!(matches!(r, Err(BuildError::InvalidUserAgent)));
}

#[test]
fn headers_replace_and_keep_entries() {
    let mut map = reqwest::header::HeaderMap::new();
    map.insert("x-key", "v".parse().unwrap());
    let mut b = ApiClient::builder().headers(map);
    b.finish_headers().unwrap();
    let h = b.headers_mut();
    assert_eq!(h.get("x-key").unwrap(), "v");
    assert_eq!(h.len(), 3);
}

#[test]
fn build_parses_base() {
    let c = ApiClient::builder().build(API_BASE_MAINNET).unwrap();
    assert_eq!(c.base_path().as_str(), "https://api.opensea.io/");
    assert_eq!(c.join_url("api/v1/assets").unwrap().as_str(), "https://api.opensea.io/api/v1/assets");
}

#[test]
fn build_refuses_relative_base() {
    let r = ApiClient::builder().build("not a url");
    assert!(matches!(r, Err(BuildError::InvalidBaseUrl(_))));
}

#[test]
fn build_keeps_injected_client() {
    let shared = Arc::new(reqwest::Client::new());
    let c = ApiClient::builder().client(shared.clone()).build("https://example.org").unwrap();
    assert!(Arc::ptr_eq(c.client(), &shared));
}

#[test]
fn basic_auth_empty_and_non_ascii_credentials() {
    let mut b = ApiClient::builder().basic_auth("", Some("")).unwrap();
    assert_eq!(b.headers_mut().get("authorization").unwrap(), "Basic Og==");
    let mut b = ApiClient::builder().basic_auth("ü", None).unwrap();
    assert_eq!(b.headers_mut().get("authorization").unwrap(), "Basic w7w6");
}

#[test]
fn basic_auth_keeps_other_headers() {
    let mut map = reqwest::header::HeaderMap::new();
    map.insert("x-key", "v".parse().unwrap());
    let mut b = ApiClient::builder().headers(map).basic_auth("a", Some("b")).unwrap();
    let h = b.headers_mut();
    assert_eq!(h.get("x-key").unwrap(), "v");
    assert_eq!(h.get("authorization").unwrap(), "Basic YTpi");
}

#[test]
fn staged_headers_win_over_defaults() {
    let mut map = reqwest::header::HeaderMap::new();
    map.insert("accept", "text/plain".parse().unwrap());
    map.insert("user-agent", "mine/1".parse().unwrap());
    let mut b = ApiClient::builder().headers(map);
    b.finish_headers().unwrap();
    let h = b.headers_mut();
    assert_eq!(h.get("accept").unwrap(), "text/plain");
    assert_eq!(h.get("user-agent").unwrap(), "mine/1");
    assert_eq!(h.len(), 2);
}

#[test]
fn staged_user_agent_beats_staged_header() {
    let mut map = reqwest::header::HeaderMap::new();
    map.insert("user-agent", "mine/1".parse().unwrap());
    let mut b = ApiClient::builder().headers(map).user_agent("chosen/2");
    b.finish_headers().unwrap();
    let h = b.headers_mut();
    assert_eq!(h.get("user-agent").unwrap(), "chosen/2");
    assert_eq!(h.get("accept").unwrap(), "application/json");
}

#[test]
fn builder_clones() {
    let b = ApiClient::builder().user_agent("x/1");
    let mut c = b.clone();
    c.finish_headers().unwrap();
    assert_eq!(c.headers_mut().get("user-agent").unwrap(), "x/1");
}

#[test]
fn build_base_is_parsed_base() {
    let c = ApiClient::builder().build("https://api.opensea.io").unwrap();
    assert_eq!(c.base_path(), &url::Url::parse("https://api.opensea.io").unwrap());
}
