use kromer2_api::{KromerClient, KromerError};

#[test]
fn valid_base_url_builds_client() {
    assert!(KromerClient::new("https://kromer.reconnected.cc").is_ok());
    assert!(KromerClient::new("http://localhost:8080/").is_ok());
}

#[test]
fn missing_scheme_is_url_failure() {
    let r = KromerClient::new("kromer.reconnected.cc");
    assert!(matches!(r, Err(KromerError::Url(url::ParseError::RelativeUrlWithoutBase))));
}

#[test]
fn unparseable_url_is_url_failure() {
    assert!(matches!(KromerClient::new(""), Err(KromerError::Url(_))));
    assert!(matches!(KromerClient::new("http://[::1"), Err(KromerError::Url(_))));
    assert!(matches!(KromerClient::new("https://exa mple.com"), Err(KromerError::Url(_))));
}

#[test]
fn url_failure_comes_before_transport() {
    let r = KromerClient::from_parts(Err(url::ParseError::EmptyHost), Ok(reqwest::Client::new()));
    assert!(matches!(r, Err(KromerError::Url(url::ParseError::EmptyHost))));
}

#[test]
fn from_parts_keeps_url() {
    let base = url::Url::parse("https://kromer.reconnected.cc/").unwrap();
    let c = KromerClient::from_parts(Ok(base), Ok(reqwest::Client::new())).unwrap();
    let u = c.endpoint_url("/api/krist/motd").unwrap();
    assert_eq!(u.as_str(), "https://kromer.reconnected.cc/api/krist/motd");
}

#[test]
fn endpoint_url_joins_path() {
    let c = KromerClient::new("https://kromer.reconnected.cc").unwrap();
    let u = c.endpoint_url("/api/krist/addresses/a1/transactions").unwrap();
    assert_eq!(u.as_str(), "https://kromer.reconnected.cc/api/krist/addresses/a1/transactions");
}

#[test]
fn endpoint_url_rejects_bad_join() {
    let c = KromerClient::new("https://kromer.reconnected.cc").unwrap();
    assert!(matches!(c.endpoint_url("//[bad"), Err(KromerError::Url(_))));
}
