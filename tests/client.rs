use async_openai::config::Config;
use portkey::{Client, BASE_URL};
use portkey::ClientError;
use portkey::headers::{virtual_key_headers, VIRTUAL_KEY_HEADER};
use reqwest::header::AUTHORIZATION;

fn bearer_of(client: Client) -> String {
    let provider = client.openai();
    let headers = provider.0.config().headers();
    headers.get(AUTHORIZATION).unwrap().to_str().unwrap().to_string()
}

#[test]
fn construct_configures_base_url_header_and_credential() {
    let client = Client::new("sk-test-123", "vk-test-456").unwrap();
    assert_eq!(client.base_url(), "https://api.portkey.ai/v1");
    assert_eq!(client.virtual_key(), "vk-test-456");
    assert_eq!(client.api_key(), "sk-test-123");
    let provider = client.openai();
    assert_eq!(provider.0.config().api_base(), "https://api.portkey.ai/v1");
    assert_eq!(provider.0.config().url("/chat/completions"), "https://api.portkey.ai/v1/chat/completions");
    let headers = provider.0.config().headers();
    assert_eq!(headers.get(AUTHORIZATION).unwrap().to_str().unwrap(), "Bearer sk-test-123");
    assert!(headers.get(VIRTUAL_KEY_HEADER).is_none());
}

#[test]
fn construct_rejects_newline_in_virtual_key() {
    let r = Client::new("sk-test-123", "bad\nvalue");
    assert!(matches!(r, Err(ClientError::HeaderEncoding)));
}

#[test]
fn construct_rejects_control_bytes_in_virtual_key() {
    for bad in ["a\rb", "\0", "del\u{7f}", "x\u{1b}y"] {
        assert!(matches!(Client::new("sk-test-123", bad), Err(ClientError::HeaderEncoding)));
    }
}

#[test]
fn construct_accepts_tab_space_and_non_ascii_virtual_key() {
    for good in ["a\tb", "with space", "caf\u{e9}", ""] {
        let client = Client::new("sk-test-123", good).unwrap();
        assert_eq!(client.virtual_key(), good);
    }
}

#[test]
fn construct_does_not_check_the_api_key_for_emptiness() {
    let client = Client::new("", "vk-test-456").unwrap();
    assert_eq!(client.api_key(), "");
    assert_eq!(client.base_url(), BASE_URL);
}

#[test]
fn base_url_is_the_gateway_whatever_the_keys() {
    let a = Client::new("sk-a", "vk-a").unwrap();
    let b = Client::new("sk-other", "vk-other").unwrap();
    assert_eq!(a.base_url(), BASE_URL);
    assert_eq!(b.base_url(), BASE_URL);
    assert_eq!(BASE_URL, "https://api.portkey.ai/v1");
}

#[test]
fn routing_headers_hold_the_virtual_key_alone() {
    let headers = virtual_key_headers("vk-test-456").unwrap();
    assert_eq!(headers.len(), 1);
    assert_eq!(headers.keys_len(), 1);
    assert_eq!(headers.get("x-portkey-virtual-key").unwrap().to_str().unwrap(), "vk-test-456");
    assert!(headers.values().all(|v| v.as_bytes() != b"sk-test-123"));
}

#[test]
fn routing_header_value_keeps_the_bytes_of_the_key() {
    let headers = virtual_key_headers("caf\u{e9}\tx").unwrap();
    let value = headers.get(VIRTUAL_KEY_HEADER).unwrap();
    assert_eq!(value.as_bytes(), "caf\u{e9}\tx".as_bytes());
}

#[test]
fn routing_headers_reject_a_newline() {
    assert!(matches!(virtual_key_headers("bad\nvalue"), Err(ClientError::HeaderEncoding)));
}

#[test]
fn credential_comes_from_the_api_key_alone() {
    let a = Client::new("sk-test-123", "vk-one").unwrap();
    let b = Client::new("sk-test-123", "vk-two").unwrap();
    assert_eq!(a.api_key(), b.api_key());
    assert_eq!(bearer_of(a), "Bearer sk-test-123");
    assert_eq!(bearer_of(b), "Bearer sk-test-123");
}

#[test]
fn unwrap_hands_over_the_configured_provider_client() {
    let client = Client::new("sk-test-123", "vk-test-456").unwrap();
    let provider = client.openai();
    let config = provider.0.config();
    assert_eq!(config.api_base(), BASE_URL);
    assert_eq!(config.org_id(), "");
}

#[test]
fn error_messages() {
    assert_eq!(ClientError::HeaderEncoding.message(), "virtual key is not a valid header value");
    assert_eq!(ClientError::TransportInit.message(), "failed to build the HTTP transport");
}

#[test]
fn clients_from_the_same_keys_are_configured_alike() {
    let a = Client::new("sk-test-123", "vk-test-456").unwrap().openai();
    let b = Client::new("sk-test-123", "vk-test-456").unwrap().openai();
    assert_eq!(a.0.config().api_base(), b.0.config().api_base());
    assert_eq!(a.0.config().headers(), b.0.config().headers());
}
