use deepgram::common::reconnect::{should_retry, DEFAULT_MAX_RETRIES};
use deepgram::{AuthMethod, Deepgram, DeepgramError};

#[test]
fn client_base_urls() {
    let dg = Deepgram::new("token").unwrap();
    assert_eq!(dg.base_url_text(), "https://api.deepgram.com/");
    assert_eq!(dg.authorization().unwrap(), "Token token");
    let dg = Deepgram::with_base_url("ws://10.0.0.1:9000/prefix").unwrap();
    assert_eq!(dg.base_url_text(), "ws://10.0.0.1:9000/prefix");
    assert!(dg.authorization().is_none());
}

#[test]
fn client_rejects_bad_base_urls() {
    assert!(matches!(Deepgram::with_base_url_and_api_key("not a url", "k"), Err(DeepgramError::InvalidUrl)));
    assert!(matches!(Deepgram::with_base_url_and_api_key("ftp://example.com", "k"), Err(DeepgramError::InvalidUrl)));
    assert!(matches!(Deepgram::with_base_url("mailto:someone@example.com"), Err(DeepgramError::InvalidUrl)));
}

#[test]
fn auth_header_values() {
    assert_eq!(AuthMethod::ApiKey("abc".into()).header_value(), "Token abc");
    assert_eq!(AuthMethod::TempToken("xyz".into()).header_value(), "Bearer xyz");
}

#[test]
fn retry_policy_with_a_maximum() {
    assert!(should_retry(Some(5), 0));
    assert!(should_retry(Some(5), 4));
    assert!(!should_retry(Some(5), 5));
    assert!(!should_retry(Some(5), 6));
    assert!(!should_retry(Some(0), 0));
}

#[test]
fn retry_policy_unlimited() {
    assert!(should_retry(None, 1000));
    assert!(should_retry(None, u32::MAX));
}

#[test]
fn test_default_config() {
    let max_retries = Some(DEFAULT_MAX_RETRIES);
    assert_eq!(max_retries, Some(5));
    assert!(should_retry(max_retries, 0));
    assert!(should_retry(max_retries, 4));
    assert!(!should_retry(max_retries, 5));
}

#[test]
fn test_unlimited_retries() {
    let max_retries: Option<u32> = None;
    assert!(should_retry(max_retries, 1000));
}
