use api_codegen::client::{ApiClient, HeaderMap};

#[test]
fn new_client_is_empty() {
    let client = ApiClient::new("http://example.com".to_string());
    assert_eq!(client.base_url(), "http://example.com");
    let auth = "Authorization".to_string();
    assert!(client.default_headers().get(&auth).is_none());
}

#[test]
fn default_header_last_write_wins() {
    let client = ApiClient::new("http://example.com".to_string())
        .with_default_header("Accept".to_string(), "text/plain".to_string())
        .with_default_header("Accept".to_string(), "application/json".to_string());
    let key = "Accept".to_string();
    assert_eq!(
        client.default_headers().get(&key),
        Some(&"application/json".to_string())
    );
}

#[test]
fn merged_headers_override_on_collision() {
    let mut extra = HeaderMap::new();
    extra.insert("Accept".to_string(), "application/json".to_string());
    extra.insert("X-Trace".to_string(), "on".to_string());
    let client = ApiClient::new("http://example.com".to_string())
        .with_default_header("Accept".to_string(), "text/plain".to_string())
        .with_default_header("User-Agent".to_string(), "api-codegen".to_string())
        .with_default_headers(extra);
    let headers = client.default_headers();
    let accept = "Accept".to_string();
    let agent = "User-Agent".to_string();
    let trace = "X-Trace".to_string();
    assert_eq!(headers.get(&accept), Some(&"application/json".to_string()));
    assert_eq!(headers.get(&agent), Some(&"api-codegen".to_string()));
    assert_eq!(headers.get(&trace), Some(&"on".to_string()));
}

#[test]
fn basic_auth_sets_encoded_credentials() {
    // the standard encoding of "u:p" is "dTpw"
    let client = ApiClient::new("http://example.com".to_string()).with_basic_auth("u", "p");
    let auth = "Authorization".to_string();
    assert_eq!(client.default_headers().get(&auth), Some(&"Basic dTpw".to_string()));
}

#[test]
fn bearer_auth_overrides_basic_auth() {
    // with_basic_auth("u", "p") then with_bearer_auth("t"): the final
    // Authorization value is the bearer one — last write wins
    let client = ApiClient::new("http://example.com".to_string())
        .with_basic_auth("u", "p")
        .with_bearer_auth("t".to_string());
    let auth = "Authorization".to_string();
    assert_eq!(client.default_headers().get(&auth), Some(&"Bearer t".to_string()));
}

#[test]
fn transport_handle_is_accessible() {
    let client = ApiClient::new("http://example.com".to_string());
    // the handle exists and can be handed out for dispatch
    let _handle: &reqwest::Client = client.client();
}

#[test]
fn header_map_get_miss() {
    let mut headers = HeaderMap::new();
    headers.insert("Accept".to_string(), "application/json".to_string());
    let other = "Content-Type".to_string();
    assert!(headers.get(&other).is_none());
}
