use judge0_rs::response::settle;
use judge0_rs::{Config, Error};

fn json_failure() -> serde_json::Error {
    serde_json::from_str::<serde_json::Value>("{").unwrap_err()
}

fn transport_failure() -> reqwest::Error {
    reqwest::Client::new().get("not an address").build().unwrap_err()
}

#[test]
fn messages() {
    assert_eq!(Error::from(transport_failure()).message(), "Failed to make request");
    assert_eq!(
        Error::from(json_failure()).message(),
        "Failed to serialize/deserialize json"
    );
    assert_eq!(
        Error::HeaderName("bad name".into()).message(),
        "Invalid header name: bad name"
    );
    assert_eq!(
        Error::HeaderValue("bad\nvalue".into()).message(),
        "Invalid header value: bad\nvalue"
    );
    assert_eq!(Error::HeaderName(String::new()).message(), "Invalid header name: ");
}

#[test]
fn a_json_failure_is_a_serialization_error() {
    let cause = json_failure();
    let text = cause.to_string();
    match Error::from(cause) {
        Error::Serde(kept) => assert_eq!(kept.to_string(), text),
        other => panic!("unexpected {:?}", other),
    }
}

#[test]
fn a_transport_failure_is_a_request_error() {
    let cause = transport_failure();
    let text = cause.to_string();
    match Error::from(cause) {
        Error::Request(kept) => {
            assert!(kept.is_builder());
            assert_eq!(kept.to_string(), text);
        }
        other => panic!("unexpected {:?}", other),
    }
}

#[test]
fn settle_keeps_values_and_files_failures() {
    assert_eq!(settle(None, Ok::<u8, serde_json::Error>(7)).unwrap(), 7);
    assert_eq!(settle(Some(transport_failure()), Ok::<u8, serde_json::Error>(7)).unwrap(), 7);
    match settle(None, Err::<u8, serde_json::Error>(json_failure())) {
        Err(Error::Serde(cause)) => assert_eq!(cause.to_string(), json_failure().to_string()),
        other => panic!("unexpected {:?}", other),
    }
    match settle(Some(transport_failure()), Err::<u8, serde_json::Error>(json_failure())) {
        Err(Error::Request(cause)) => {
            assert_eq!(cause.to_string(), transport_failure().to_string())
        }
        other => panic!("unexpected {:?}", other),
    }
}

#[test]
fn default_config() {
    let config = Config::default();
    assert_eq!(config.authentication_header_name, "X-Auth-Token");
    assert_eq!(config.authentication_token, None);
    assert_eq!(config.authorization_header_name, "X-Auth-User");
    assert_eq!(config.authorization_token, None);
    assert!(!config.base64_encoded);
    assert!(!config.wait);
}
