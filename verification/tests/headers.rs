use http::header::{HeaderName, HeaderValue};
use judge0_rs::header::{build_headers, header_name, header_value};
use judge0_rs::{Client, Config, Error, Request, Submission};

const BASE: &str = "http://localhost:2358";

fn every_operation(client: &Client) -> Vec<Result<Request, Error>> {
    vec![
        client.authenticate(),
        client.authorize(),
        client.get_languages(),
        client.get_all_languages(),
        client.get_language(45),
        client.get_statuses(),
        client.get_about(),
        client.get_workers(),
        client.create_submission(Submission::default()),
        client.get_submission("t", None),
        client.delete_submission("t", Some("token")),
        client.batch_submit(vec![Submission::default()]),
        client.get_batch_submission(vec!["a", "b"], None),
        client.request("/x", judge0_rs::Method::Get),
        client.request_with_body("/x", judge0_rs::Method::Post, judge0_rs::Body::Empty),
    ]
}

#[test]
fn content_type_is_always_there() {
    let headers = Client::new(BASE).headers().unwrap();
    assert_eq!(headers.len(), 1);
    assert_eq!(headers.keys_len(), 1);
    assert_eq!(headers.get("content-type").unwrap(), "application/json");
    assert_eq!(headers.get(http::header::CONTENT_TYPE).unwrap(), "application/json");
}

#[test]
fn authentication_token_travels_in_every_request() {
    let client = Client::new(BASE).configure(Config {
        authentication_token: Some("token".into()),
        ..Default::default()
    });
    let all = every_operation(&client);
    assert_eq!(all.len(), 15);
    for result in all {
        let request = result.unwrap();
        assert_eq!(request.headers.len(), 2);
        assert_eq!(request.headers.get("X-Auth-Token").unwrap(), "token");
        let values: Vec<&HeaderValue> = request.headers.get_all("x-auth-token").iter().collect();
        assert_eq!(values.len(), 1);
        assert_eq!(values[0].as_bytes(), b"token");
        assert_eq!(request.headers.get("content-type").unwrap(), "application/json");
        assert!(request.headers.get("x-auth-user").is_none());
    }
}

#[test]
fn header_is_left_out_without_a_token() {
    let client = Client::new(BASE);
    for result in every_operation(&client) {
        let request = result.unwrap();
        assert!(request.headers.get("x-auth-token").is_none());
        assert!(request.headers.get("x-auth-user").is_none());
        assert_eq!(request.headers.len(), 1);
    }
}

#[test]
fn authorization_token_travels_under_its_own_name() {
    let client = Client::new(BASE).configure(Config {
        authentication_token: Some("key".into()),
        authorization_token: Some("user".into()),
        ..Default::default()
    });
    let headers = client.headers().unwrap();
    assert_eq!(headers.len(), 3);
    assert_eq!(headers.get("x-auth-token").unwrap(), "key");
    assert_eq!(headers.get("x-auth-user").unwrap(), "user");
    let only = Client::new(BASE).configure(Config {
        authorization_token: Some("user".into()),
        ..Default::default()
    });
    let headers = only.headers().unwrap();
    assert_eq!(headers.len(), 2);
    assert!(headers.get("x-auth-token").is_none());
    assert_eq!(headers.get("x-auth-user").unwrap(), "user");
}

#[test]
fn configured_names_are_used() {
    let config = Config {
        authentication_header_name: "X-Api-Key".into(),
        authentication_token: Some("k".into()),
        authorization_header_name: "X-Api-User".into(),
        authorization_token: Some("u".into()),
        ..Default::default()
    };
    let headers = build_headers(&config).unwrap();
    assert_eq!(headers.len(), 3);
    assert_eq!(headers.get("x-api-key").unwrap(), "k");
    assert_eq!(headers.get("x-api-user").unwrap(), "u");
    let names: Vec<&str> = headers.keys().map(|name| name.as_str()).collect();
    assert!(names.contains(&"x-api-key"));
    assert!(names.contains(&"x-api-user"));
    assert!(names.contains(&"content-type"));
}

#[test]
fn a_later_header_replaces_an_earlier_one_of_the_same_name() {
    let config = Config {
        authentication_header_name: "X-Same".into(),
        authentication_token: Some("first".into()),
        authorization_header_name: "x-same".into(),
        authorization_token: Some("second".into()),
        ..Default::default()
    };
    let headers = build_headers(&config).unwrap();
    assert_eq!(headers.len(), 2);
    assert_eq!(headers.get_all("x-same").iter().count(), 1);
    assert_eq!(headers.get("x-same").unwrap(), "second");
    let config = Config {
        authentication_header_name: "Content-Type".into(),
        authentication_token: Some("text/plain".into()),
        ..Default::default()
    };
    let headers = build_headers(&config).unwrap();
    assert_eq!(headers.len(), 1);
    assert_eq!(headers.get("content-type").unwrap(), "text/plain");
}

#[test]
fn malformed_header_name_stops_every_operation() {
    let client = Client::new(BASE).configure(Config {
        authentication_header_name: "X-Auth\nToken".into(),
        authentication_token: Some("token".into()),
        ..Default::default()
    });
    for result in every_operation(&client) {
        match result {
            Err(Error::HeaderName(name)) => assert_eq!(name, "X-Auth\nToken"),
            other => panic!("unexpected {:?}", other),
        }
    }
    match client.headers() {
        Err(Error::HeaderName(name)) => assert_eq!(name, "X-Auth\nToken"),
        other => panic!("unexpected {:?}", other),
    }
}

#[test]
fn malformed_names_of_every_kind() {
    let long = "a".repeat(65536);
    for name in ["", "with space", "tab\there", "caf\u{e9}", "a:b", "nul\0", "del\u{7f}", long.as_str()] {
        let config = Config {
            authentication_header_name: name.into(),
            authentication_token: Some("token".into()),
            ..Default::default()
        };
        match build_headers(&config) {
            Err(Error::HeaderName(refused)) => assert_eq!(refused, name),
            other => panic!("{:?} gave {:?}", name, other),
        }
    }
    let longest = "a".repeat(65535);
    let config = Config {
        authentication_header_name: longest.clone(),
        authentication_token: Some("token".into()),
        ..Default::default()
    };
    assert_eq!(build_headers(&config).unwrap().get(longest.as_str()).unwrap(), "token");
}

#[test]
fn malformed_header_value_is_named() {
    let client = Client::new(BASE).configure(Config {
        authentication_token: Some("bad\r\nvalue".into()),
        ..Default::default()
    });
    match client.get_languages() {
        Err(Error::HeaderValue(value)) => assert_eq!(value, "bad\r\nvalue"),
        other => panic!("unexpected {:?}", other),
    }
    let client = Client::new(BASE).configure(Config {
        authorization_token: Some("del\u{7f}".into()),
        ..Default::default()
    });
    match client.create_submission(Submission::default()) {
        Err(Error::HeaderValue(value)) => assert_eq!(value, "del\u{7f}"),
        other => panic!("unexpected {:?}", other),
    }
}

#[test]
fn the_name_is_looked_at_before_the_value() {
    let config = Config {
        authentication_header_name: "bad name".into(),
        authentication_token: Some("bad\nvalue".into()),
        ..Default::default()
    };
    match build_headers(&config) {
        Err(Error::HeaderName(name)) => assert_eq!(name, "bad name"),
        other => panic!("unexpected {:?}", other),
    }
}

#[test]
fn authentication_is_looked_at_before_authorization() {
    let config = Config {
        authentication_token: Some("bad\nvalue".into()),
        authorization_header_name: "bad name".into(),
        authorization_token: Some("user".into()),
        ..Default::default()
    };
    match build_headers(&config) {
        Err(Error::HeaderValue(value)) => assert_eq!(value, "bad\nvalue"),
        other => panic!("unexpected {:?}", other),
    }
    let config = Config {
        authentication_token: Some("fine".into()),
        authorization_header_name: "bad name".into(),
        authorization_token: Some("user".into()),
        ..Default::default()
    };
    match build_headers(&config) {
        Err(Error::HeaderName(name)) => assert_eq!(name, "bad name"),
        other => panic!("unexpected {:?}", other),
    }
}

#[test]
fn a_name_without_a_token_is_never_looked_at() {
    let config = Config {
        authentication_header_name: "bad name".into(),
        authorization_header_name: "\n".into(),
        ..Default::default()
    };
    let headers = build_headers(&config).unwrap();
    assert_eq!(headers.len(), 1);
}

#[test]
fn values_keep_their_bytes() {
    let config = Config {
        authentication_token: Some("tab\tand caf\u{e9} ~".into()),
        ..Default::default()
    };
    let headers = build_headers(&config).unwrap();
    assert_eq!(
        headers.get("x-auth-token").unwrap().as_bytes(),
        "tab\tand caf\u{e9} ~".as_bytes()
    );
    let config = Config { authentication_token: Some("".into()), ..Default::default() };
    assert_eq!(build_headers(&config).unwrap().get("x-auth-token").unwrap(), "");
}

#[test]
fn header_name_is_read_in_lower_case() {
    let name: HeaderName = header_name("X-Auth-Token").unwrap();
    assert_eq!(name.as_str(), "x-auth-token");
    assert_eq!(header_name("Content-Type").unwrap(), http::header::CONTENT_TYPE);
    assert_eq!(header_name("!#$%&'*+-.^_`|~09azAZ").unwrap().as_str(), "!#$%&'*+-.^_`|~09azaz");
    match header_name("a b") {
        Err(Error::HeaderName(name)) => assert_eq!(name, "a b"),
        other => panic!("unexpected {:?}", other),
    }
    for mark in ["\"", "(", ")", ",", "/", ":", ";", "<", "=", ">", "?", "@", "[", "\\", "]", "{", "}"] {
        assert!(header_name(mark).is_err());
    }
}

#[test]
fn header_value_is_read_as_it_is() {
    let value: HeaderValue = header_value("Token Value").unwrap();
    assert_eq!(value.as_bytes(), b"Token Value");
    assert_eq!(header_value("\t").unwrap().as_bytes(), b"\t");
    for text in ["\n", "\r", "\0", "\u{1f}", "\u{7f}", "a\u{1}b"] {
        match header_value(text) {
            Err(Error::HeaderValue(value)) => assert_eq!(value, text),
            other => panic!("unexpected {:?}", other),
        }
    }
}
