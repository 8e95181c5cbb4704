use judge0_rs::response::{acknowledge, decode_value, decode_values};
use judge0_rs::{
    Body, Client, Config, Decimal, Error, Field, FieldValue, Method, Request, Status, Submission,
    Timestamp,
};
use serde_json::Value;

const BASE: &str = "http://localhost:2358";

fn text(name: &'static str, value: &str) -> Field {
    Field { name, value: FieldValue::Text(value.into()) }
}

fn count(name: &'static str, value: usize) -> Field {
    Field { name, value: FieldValue::Count(value) }
}

fn flag(name: &'static str, value: bool) -> Field {
    Field { name, value: FieldValue::Flag(value) }
}

fn quantity(name: &'static str, value: f64) -> Field {
    Field { name, value: FieldValue::Quantity(Decimal::from_bits(value.to_bits())) }
}

fn made(result: Result<Request, Error>) -> Request {
    match result {
        Ok(request) => request,
        Err(error) => panic!("no request: {}", error.message()),
    }
}

fn assert_plain_headers(request: &Request) {
    assert_eq!(request.headers.len(), 1);
    assert_eq!(request.headers.get("content-type").unwrap(), "application/json");
}

fn waiting() -> Config {
    Config { wait: true, ..Default::default() }
}

#[test]
fn languages_ok() {
    let client = Client::new(BASE);
    let request = made(client.get_languages());
    assert_eq!(request.method, Method::Get);
    assert_eq!(request.method.name(), "GET");
    assert_eq!(request.url, "http://localhost:2358/languages");
    assert_eq!(request.body, Body::Empty);
    assert_plain_headers(&request);
}

#[test]
fn language_ok() {
    let client = Client::new(BASE);
    let request = made(client.get_language(1));
    assert_eq!(request.method.name(), "GET");
    assert_eq!(request.url, "http://localhost:2358/languages/1");
    assert_eq!(request.body, Body::Empty);
    assert_plain_headers(&request);
}

#[test]
fn about_ok() {
    let client = Client::new(BASE);
    let request = made(client.get_about());
    assert_eq!(request.method.name(), "GET");
    assert_eq!(request.url, "http://localhost:2358/about");
    assert_eq!(request.body, Body::Empty);
    assert_plain_headers(&request);
}

#[test]
fn workers_ok() {
    let client = Client::new(BASE);
    let request = made(client.get_workers());
    assert_eq!(request.method.name(), "GET");
    assert_eq!(request.url, "http://localhost:2358/workers");
    assert_eq!(request.body, Body::Empty);
    assert_plain_headers(&request);
}

#[test]
fn create_submission_ok() {
    let client = Client::new(BASE);

    let body = r#"{
      "token": "d85cd024-1548-4165-96c7-7bc88673f194"
    }"#;

    let request = made(client.create_submission(Submission {
        source_code: r#"print("Hello, world!")"#.into(),
        language_id: 1,
        ..Default::default()
    }));

    assert_eq!(request.method.name(), "POST");
    assert_eq!(
        request.url,
        "http://localhost:2358/submissions?base64_encoded=false&wait=false"
    );
    assert_plain_headers(&request);
    assert_eq!(
        request.body,
        Body::Object(vec![
            text("source_code", r#"print("Hello, world!")"#),
            count("language_id", 1),
        ])
    );

    let result = decode_value(None, body).unwrap();

    assert_eq!(result, serde_json::from_str::<Value>(body).unwrap());
}

#[test]
fn create_submission_invalid_language() {
    let client = Client::new(BASE);

    let body = r#"{
      "language_id": ["language with id 9000 doesn't exist"]
    }"#;

    let request = made(client.create_submission(Submission {
        source_code: r#"print("Hello, world!")"#.into(),
        language_id: 9000,
        ..Default::default()
    }));

    assert_eq!(request.method.name(), "POST");
    assert_eq!(
        request.url,
        "http://localhost:2358/submissions?base64_encoded=false&wait=false"
    );
    assert_plain_headers(&request);
    assert_eq!(
        request.body,
        Body::Object(vec![
            text("source_code", r#"print("Hello, world!")"#),
            count("language_id", 9000),
        ])
    );

    let result = decode_value(None, body).unwrap();

    assert_eq!(result, serde_json::from_str::<Value>(body).unwrap());
}

#[test]
fn create_submission_invalid_wall_time_limit() {
    let client = Client::new(BASE);

    let body = r#"{
      "wall_time_limit": ["must be less than or equal to 150"]
    }"#;

    let request = made(client.create_submission(Submission {
        source_code: r#"print("Hello, world!")"#.into(),
        language_id: 4,
        number_of_runs: Some(1),
        stdin: Some("Judge0".into()),
        expected_output: Some("hello, Judge0".into()),
        cpu_time_limit: Some(Decimal::from_bits(1.0f64.to_bits())),
        cpu_extra_time: Some(Decimal::from_bits(0.5f64.to_bits())),
        wall_time_limit: Some(Decimal::from_bits(100000.0f64.to_bits())),
        memory_limit: Some(Decimal::from_bits(128000.0f64.to_bits())),
        stack_limit: Some(128000),
        enable_per_process_and_thread_time_limit: Some(false),
        enable_per_process_and_thread_memory_limit: Some(false),
        max_file_size: Some(1024),
        ..Default::default()
    }));

    assert_eq!(request.method.name(), "POST");
    assert_eq!(
        request.url,
        "http://localhost:2358/submissions?base64_encoded=false&wait=false"
    );
    assert_plain_headers(&request);
    assert_eq!(
        request.body,
        Body::Object(vec![
            text("source_code", r#"print("Hello, world!")"#),
            count("language_id", 4),
            text("stdin", "Judge0"),
            text("expected_output", "hello, Judge0"),
            quantity("cpu_time_limit", 1.0),
            quantity("cpu_extra_time", 0.5),
            quantity("wall_time_limit", 100000.0),
            quantity("memory_limit", 128000.0),
            count("stack_limit", 128000),
            flag("enable_per_process_and_thread_time_limit", false),
            flag("enable_per_process_and_thread_memory_limit", false),
            count("max_file_size", 1024),
            count("number_of_runs", 1),
        ])
    );

    let result = decode_value(None, body).unwrap();

    assert_eq!(result, serde_json::from_str::<Value>(body).unwrap());
}

#[test]
fn create_submission_invalid_utf8() {
    let client = Client::new(BASE).configure(waiting());

    let body = r#"{
      "token": "fcd0de6d-ee52-4a9d-8a00-6e0d98d394cf",
      "error": "some attributes for this submission cannot be converted to UTF-8, use base64_encoded=true query parameter"
    }"#;

    let request = made(client.create_submission(Submission {
        source_code: r#""print(\"\xFE\")""#.into(),
        language_id: 70,
        ..Default::default()
    }));

    assert_eq!(request.method.name(), "POST");
    assert_eq!(
        request.url,
        "http://localhost:2358/submissions?base64_encoded=false&wait=true"
    );
    assert_plain_headers(&request);
    assert_eq!(
        request.body,
        Body::Object(vec![
            text("source_code", r#""print(\"\xFE\")""#),
            count("language_id", 70),
        ])
    );

    let result = decode_value(None, body).unwrap();

    assert_eq!(result, serde_json::from_str::<Value>(body).unwrap());
}

#[test]
fn create_submission_wait_for_finish() {
    let client = Client::new(BASE).configure(waiting());

    let body = r#"{
      "stdout": "hello, Judge0\n",
      "time": "0.001",
      "memory": 380,
      "stderr": null,
      "token": "eb0dd001-66db-47f4-8a69-b736c9bc23f6",
      "compile_output": null,
      "message": null,
      "status": {
        "id": 3,
        "description": "Accepted"
      }
    }"#;

    let source = r#"
          #include <stdio.h>

          int main(void) {
            char name[10];
            scanf("%s", name);
            printf("hello, %s\n", name);
            return 0;
          }"#;

    let request = made(client.create_submission(Submission {
        source_code: source.into(),
        language_id: 4,
        stdin: Some("Judge0".into()),
        expected_output: Some("hello, Judge0".into()),
        ..Default::default()
    }));

    assert_eq!(request.method.name(), "POST");
    assert_eq!(
        request.url,
        "http://localhost:2358/submissions?base64_encoded=false&wait=true"
    );
    assert_eq!(
        request.body,
        Body::Object(vec![
            text("source_code", source),
            count("language_id", 4),
            text("stdin", "Judge0"),
            text("expected_output", "hello, Judge0"),
        ])
    );

    let result = decode_value(None, body).unwrap();

    assert_eq!(result, serde_json::from_str::<Value>(body).unwrap());
    assert_eq!(result["status"]["id"], 3);
    assert_eq!(result["stdout"], "hello, Judge0\n");
}

#[test]
fn authenticate_posts_without_query() {
    let request = made(Client::new(BASE).authenticate());
    assert_eq!(request.method, Method::Post);
    assert_eq!(request.url, "http://localhost:2358/authenticate");
    assert_eq!(request.body, Body::Empty);
}

#[test]
fn authorize_posts_without_query() {
    let request = made(Client::new(BASE).authorize());
    assert_eq!(request.method, Method::Post);
    assert_eq!(request.url, "http://localhost:2358/authorize");
    assert_eq!(request.body, Body::Empty);
}

#[test]
fn language_lists_have_no_query() {
    let configs = vec![
        Config::default(),
        Config { base64_encoded: true, wait: true, ..Default::default() },
        Config { authentication_token: Some("k".into()), ..Default::default() },
    ];
    for config in configs {
        let client = Client::new(BASE).configure(config);
        let active = made(client.get_languages());
        let all = made(client.get_all_languages());
        assert_eq!(active.url, "http://localhost:2358/languages");
        assert_eq!(all.url, "http://localhost:2358/languages/all");
        assert_eq!(active.method, Method::Get);
        assert_eq!(all.method, Method::Get);
        assert!(!active.url.contains('?'));
        assert!(!all.url.contains('?'));
    }
}

#[test]
fn language_by_id_writes_the_id_in_decimal() {
    let client = Client::new(BASE);
    assert_eq!(made(client.get_language(45)).url, "http://localhost:2358/languages/45");
    assert_eq!(made(client.get_language(0)).url, "http://localhost:2358/languages/0");
    assert_eq!(made(client.get_language(1003)).url, "http://localhost:2358/languages/1003");
}

#[test]
fn statuses_are_read_from_their_own_path() {
    let request = made(Client::new(BASE).get_statuses());
    assert_eq!(request.method, Method::Get);
    assert_eq!(request.url, "http://localhost:2358/statuses");
}

#[test]
fn about_is_not_read_from_the_statuses_path() {
    let request = made(Client::new(BASE).get_about());
    assert_ne!(request.url, made(Client::new(BASE).get_statuses()).url);
    assert!(request.url.ends_with("/about"));
}

#[test]
fn create_submission_writes_both_flags_in_order() {
    for base64_encoded in [false, true] {
        for wait in [false, true] {
            let client = Client::new(BASE).configure(Config {
                base64_encoded,
                wait,
                ..Default::default()
            });
            let request = made(client.create_submission(Submission::default()));
            assert_eq!(
                request.url,
                format!(
                    "http://localhost:2358/submissions?base64_encoded={}&wait={}",
                    base64_encoded, wait
                )
            );
        }
    }
}

#[test]
fn create_submission_flag_literals() {
    let client = Client::new(BASE).configure(Config {
        base64_encoded: true,
        wait: false,
        ..Default::default()
    });
    let request = made(client.create_submission(Submission::default()));
    assert_eq!(
        request.url,
        "http://localhost:2358/submissions?base64_encoded=true&wait=false"
    );
}

#[test]
fn get_submission_defaults_fields_to_all() {
    let client = Client::new(BASE);
    let request = made(client.get_submission("abc", None));
    assert_eq!(request.method, Method::Get);
    assert_eq!(
        request.url,
        "http://localhost:2358/submissions/abc?base64_encoded=false&wait=false&fields=*"
    );
    assert_eq!(request.body, Body::Empty);
}

#[test]
fn get_submission_keeps_the_fields_given() {
    let client = Client::new(BASE).configure(Config {
        base64_encoded: true,
        wait: true,
        ..Default::default()
    });
    let request = made(client.get_submission("abc", Some("token,status")));
    assert_eq!(
        request.url,
        "http://localhost:2358/submissions/abc?base64_encoded=true&wait=true&fields=token,status"
    );
}

#[test]
fn delete_submission_carries_fields_only() {
    let client = Client::new(BASE).configure(Config {
        base64_encoded: true,
        wait: true,
        ..Default::default()
    });
    let request = made(client.delete_submission("abc", None));
    assert_eq!(request.method, Method::Delete);
    assert_eq!(request.method.name(), "DELETE");
    assert_eq!(request.url, "http://localhost:2358/submissions/abc?fields=*");
    let request = made(client.delete_submission("abc", Some("stdout")));
    assert_eq!(request.url, "http://localhost:2358/submissions/abc?fields=stdout");
    assert_eq!(request.body, Body::Empty);
}

#[test]
fn batch_submit_keeps_the_order() {
    let client = Client::new(BASE).configure(Config {
        base64_encoded: true,
        wait: true,
        ..Default::default()
    });
    let sources = ["print(\"foo\")", "print(\"bar\")", "print(\"baz\")"];
    let submissions: Vec<Submission> = sources
        .iter()
        .map(|source| Submission {
            source_code: source.to_string(),
            language_id: 1,
            ..Default::default()
        })
        .collect();
    let request = made(client.batch_submit(submissions));
    assert_eq!(request.method, Method::Post);
    assert_eq!(
        request.url,
        "http://localhost:2358/submissions/batch?base64_encoded=true"
    );
    assert_eq!(
        request.body,
        Body::Array(vec![
            vec![text("source_code", "print(\"foo\")"), count("language_id", 1)],
            vec![text("source_code", "print(\"bar\")"), count("language_id", 1)],
            vec![text("source_code", "print(\"baz\")"), count("language_id", 1)],
        ])
    );
}

#[test]
fn batch_submit_of_nothing() {
    let request = made(Client::new(BASE).batch_submit(Vec::new()));
    assert_eq!(
        request.url,
        "http://localhost:2358/submissions/batch?base64_encoded=false"
    );
    assert_eq!(request.body, Body::Array(Vec::new()));
}

#[test]
fn get_batch_submission_joins_tokens_with_commas() {
    let client = Client::new(BASE);
    let request = made(client.get_batch_submission(vec!["a", "b", "c"], None));
    assert_eq!(request.method, Method::Get);
    assert_eq!(
        request.url,
        "http://localhost:2358/submissions/batch?tokens=a,b,c&base64_encoded=false&fields=*"
    );
    assert_eq!(request.body, Body::Empty);
}

#[test]
fn get_batch_submission_edge_cases() {
    let client = Client::new(BASE).configure(Config {
        base64_encoded: true,
        ..Default::default()
    });
    let none = made(client.get_batch_submission(Vec::new(), Some("token")));
    assert_eq!(
        none.url,
        "http://localhost:2358/submissions/batch?tokens=&base64_encoded=true&fields=token"
    );
    let one = made(client.get_batch_submission(vec!["only"], None));
    assert_eq!(
        one.url,
        "http://localhost:2358/submissions/batch?tokens=only&base64_encoded=true&fields=*"
    );
}

#[test]
fn base_url_is_used_as_it_is() {
    let request = made(Client::new("https://judge.example/api").get_workers());
    assert_eq!(request.url, "https://judge.example/api/workers");
    let request = made(Client::new("").get_workers());
    assert_eq!(request.url, "/workers");
}

#[test]
fn request_appends_the_endpoint() {
    let client = Client::new(BASE);
    let request = made(client.request("/anything?x=1", Method::Delete));
    assert_eq!(request.method, Method::Delete);
    assert_eq!(request.url, "http://localhost:2358/anything?x=1");
    assert_eq!(request.body, Body::Empty);
    let request = made(client.request_with_body(
        "/other",
        Method::Post,
        Body::Array(vec![vec![flag("on", true)]]),
    ));
    assert_eq!(request.url, "http://localhost:2358/other");
    assert_eq!(request.body, Body::Array(vec![vec![flag("on", true)]]));
}

#[test]
fn configure_replaces_the_settings_whole() {
    let client = Client::new(BASE)
        .configure(Config {
            authentication_token: Some("first".into()),
            wait: true,
            ..Default::default()
        })
        .configure(Config { base64_encoded: true, ..Default::default() });
    let request = made(client.create_submission(Submission::default()));
    assert_eq!(
        request.url,
        "http://localhost:2358/submissions?base64_encoded=true&wait=false"
    );
    assert!(request.headers.get("x-auth-token").is_none());
}

#[test]
fn a_client_serves_many_calls() {
    let client = Client::new(BASE);
    let first = made(client.get_languages());
    let second = made(client.get_statuses());
    let third = made(client.get_languages());
    assert_eq!(first.url, third.url);
    assert_ne!(first.url, second.url);
}

#[test]
fn service_errors_are_data() {
    let body = r#"{"wall_time_limit":["must be less than or equal to 150"]}"#;
    let decoded = decode_value(None, body).unwrap();
    assert_eq!(decoded, serde_json::from_str::<Value>(body).unwrap());
    assert_eq!(
        decoded["wall_time_limit"][0],
        "must be less than or equal to 150"
    );
}

#[test]
fn decode_value_refuses_what_is_no_json() {
    for body in ["", "{", "{\"token\": }", "not json", "[1, 2", "{} trailing"] {
        match decode_value(None, body) {
            Err(Error::Serde(_)) => {}
            other => panic!("{:?} gave {:?}", body, other),
        }
    }
}

#[test]
fn decode_value_takes_any_json() {
    for body in ["null", "true", "3", "\"text\"", "[]", "{}", " {\"token\":\"t\"} "] {
        let decoded = decode_value(None, body).unwrap();
        assert_eq!(decoded, serde_json::from_str::<Value>(body).unwrap());
    }
    assert_eq!(decode_value(None, "{\"token\":\"t\"}").unwrap()["token"], "t");
    assert!(decode_value(None, "{\"token\":\"t\"}").unwrap().get("stdout").is_none());
}

#[test]
fn decode_values_keeps_the_order() {
    let body = r#"[{"token":"a"},{"language_id":["can't be blank"]},{"token":"c"}]"#;
    let decoded = decode_values(None, body).unwrap();
    assert_eq!(decoded.len(), 3);
    assert_eq!(decoded[0]["token"], "a");
    assert_eq!(decoded[1]["language_id"][0], "can't be blank");
    assert_eq!(decoded[2]["token"], "c");
    assert_eq!(decoded, serde_json::from_str::<Vec<Value>>(body).unwrap());
    assert!(decode_values(None, "[]").unwrap().is_empty());
}

#[test]
fn decode_values_refuses_what_is_no_array() {
    for body in ["{\"token\":\"a\"}", "3", "", "[", "null"] {
        match decode_values(None, body) {
            Err(Error::Serde(_)) => {}
            other => panic!("{:?} gave {:?}", body, other),
        }
    }
}

fn refusal(status: u16) -> Option<reqwest::Error> {
    let answer = http::Response::builder().status(status).body(String::new()).unwrap();
    reqwest::Response::from(answer).error_for_status().err()
}

#[test]
fn validation_error_with_status_422_is_a_result() {
    let body = r#"{"wall_time_limit":["must be less than or equal to 150"]}"#;
    let decoded = decode_value(refusal(422), body).unwrap();
    assert_eq!(decoded, serde_json::from_str::<Value>(body).unwrap());
    let list = r#"[{"language_id":["can't be blank"]}]"#;
    let decoded = decode_values(refusal(422), list).unwrap();
    assert_eq!(decoded, serde_json::from_str::<Vec<Value>>(list).unwrap());
}

#[test]
fn unreadable_body_under_an_error_status_is_a_failed_request() {
    match decode_value(refusal(404), "") {
        Err(Error::Request(cause)) => {
            assert!(cause.is_status());
            assert_eq!(cause.status().map(|status| status.as_u16()), Some(404));
        }
        other => panic!("unexpected {:?}", other),
    }
    match decode_values(refusal(500), "<html>") {
        Err(Error::Request(cause)) => {
            assert_eq!(cause.status().map(|status| status.as_u16()), Some(500));
        }
        other => panic!("unexpected {:?}", other),
    }
}

#[test]
fn unreadable_body_under_a_good_status_is_a_serialization_failure() {
    assert!(refusal(200).is_none());
    assert!(refusal(201).is_none());
    match decode_value(refusal(200), "<html>") {
        Err(Error::Serde(_)) => {}
        other => panic!("unexpected {:?}", other),
    }
    match decode_values(refusal(201), "{}") {
        Err(Error::Serde(_)) => {}
        other => panic!("unexpected {:?}", other),
    }
}

#[test]
fn acknowledge_goes_by_the_status_alone() {
    assert!(acknowledge(None).is_ok());
    assert!(acknowledge(refusal(200)).is_ok());
    match acknowledge(refusal(401)) {
        Err(Error::Request(cause)) => {
            assert_eq!(cause.status().map(|status| status.as_u16()), Some(401));
        }
        other => panic!("unexpected {:?}", other),
    }
}

fn answered() -> Submission {
    Submission {
        source_code: "print(1)".into(),
        language_id: 71,
        stdin: Some("in".into()),
        cpu_time_limit: Some(Decimal::from_bits(2.0f64.to_bits())),
        callback_url: Some("http://callback".into()),
        stdout: Some("1\n".into()),
        stderr: Some("".into()),
        compile_output: Some("".into()),
        message: Some("m".into()),
        exit_code: Some(0),
        exit_signal: Some(9),
        status: Some(Status { id: 3, description: "Accepted".into() }),
        created_at: Some(Timestamp { seconds: 1, nanoseconds: 2 }),
        finished_at: Some(Timestamp { seconds: 3, nanoseconds: 4 }),
        token: Some("t".into()),
        time: Some(Decimal::from_bits(0.001f64.to_bits())),
        wall_time: Some(Decimal::from_bits(0.002f64.to_bits())),
        memory: Some(Decimal::from_bits(380.0f64.to_bits())),
        ..Default::default()
    }
}

fn asked() -> Vec<Field> {
    vec![
        text("source_code", "print(1)"),
        count("language_id", 71),
        text("stdin", "in"),
        quantity("cpu_time_limit", 2.0),
        text("callback_url", "http://callback"),
    ]
}

#[test]
fn only_the_input_fields_are_sent() {
    assert_eq!(answered().input_fields(), asked());
    let request = made(Client::new(BASE).create_submission(answered()));
    assert_eq!(request.body, Body::Object(asked()));
    let request = made(Client::new(BASE).batch_submit(vec![answered(), answered()]));
    assert_eq!(request.body, Body::Array(vec![asked(), asked()]));
}

#[test]
fn request_with_body_sends_the_body_as_given() {
    let request = made(Client::new(BASE).request_with_body(
        "/submissions",
        Method::Post,
        Body::Object(vec![text("token", "t")]),
    ));
    assert_eq!(request.body, Body::Object(vec![text("token", "t")]));
}
