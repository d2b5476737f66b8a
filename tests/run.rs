use glot_run::client::{prepare_request, TIMEOUT_SECS};
use glot_run::response::{check_response, error_response, is_success_status, run_result};
use glot_run::request::{encode_request, frame_request};
use glot_run::{
    Config, Error, ErrorBody, Expect, File, QuotedRequest, Reply, RunRequest, RunRequestPayload, RunResult,
};

fn config(base_url: &str) -> Config {
    Config { base_url: base_url.to_string(), access_token: "SECRET-REDACTED".to_string() }
}

fn request(files: Vec<File>, stdin: Option<&str>, command: Option<&str>) -> RunRequest {
    RunRequest {
        image: "glot/python:latest".to_string(),
        payload: RunRequestPayload {
            language: "python".to_string(),
            files,
            stdin: stdin.map(|s| s.to_string()),
            command: command.map(|s| s.to_string()),
        },
    }
}

fn file(name: &str, content: &str) -> File {
    File { name: name.to_string(), content: content.to_string() }
}

#[test]
fn run_url_with_and_without_trailing_slash() {
    assert_eq!(config("http://x/").run_url(), "http://x/run");
    assert_eq!(config("http://x").run_url(), "http://x/run");
}

#[test]
fn run_url_drops_every_trailing_slash() {
    assert_eq!(config("https://run.example.com/api///").run_url(), "https://run.example.com/api/run");
    assert_eq!(config("/").run_url(), "/run");
    assert_eq!(config("").run_url(), "/run");
}

#[test]
fn encode_request_without_stdin_and_command_writes_null() {
    let body = encode_request(&request(vec![file("main.py", "print(\"hi\")")], None, None)).unwrap();
    assert_eq!(
        body,
        "{\"image\":\"glot/python:latest\",\"payload\":{\"language\":\"python\",\"files\":[{\"name\":\"main.py\",\"content\":\"print(\\\"hi\\\")\"}],\"stdin\":null,\"command\":null}}"
    );
}

#[test]
fn encode_request_keeps_empty_stdin_apart_from_absent() {
    let absent = encode_request(&request(vec![], None, None)).unwrap();
    let empty = encode_request(&request(vec![], Some(""), Some(""))).unwrap();
    assert_ne!(absent, empty);
    assert!(empty.contains("\"stdin\":\"\",\"command\":\"\""));
    assert!(absent.contains("\"stdin\":null,\"command\":null"));
}

#[test]
fn encode_request_empty_files_and_order_of_files() {
    let none = encode_request(&request(vec![], None, None)).unwrap();
    assert!(none.contains("\"files\":[]"));
    let two = encode_request(&request(vec![file("a.py", "1"), file("b.py", "2\n")], Some("in"), Some("python a.py"))).unwrap();
    assert_eq!(
        two,
        "{\"image\":\"glot/python:latest\",\"payload\":{\"language\":\"python\",\"files\":[{\"name\":\"a.py\",\"content\":\"1\"},{\"name\":\"b.py\",\"content\":\"2\\n\"}],\"stdin\":\"in\",\"command\":\"python a.py\"}}"
    );
}

#[test]
fn encoded_request_is_valid_json() {
    let body = encode_request(&request(vec![file("m\u{e9}.py", "tab\there \\ \u{1}")], Some("x"), None)).unwrap();
    let value: serde_json::Value = serde_json::from_str(&body).unwrap();
    assert_eq!(value["payload"]["files"][0]["content"], "tab\there \\ \u{1}");
    assert_eq!(value["payload"]["files"][0]["name"], "m\u{e9}.py");
    assert_eq!(value["payload"]["stdin"], "x");
    assert!(value["payload"]["command"].is_null());
}

#[test]
fn prepare_request_sets_url_headers_timeout_and_body() {
    let req = request(vec![file("main.py", "print(1)")], None, None);
    let post = prepare_request(&config("http://x/"), &req).unwrap();
    assert_eq!(post.url, "http://x/run");
    assert_eq!(
        post.headers,
        vec![
            ("X-Access-Token".to_string(), "SECRET-REDACTED".to_string()),
            ("Content-Type".to_string(), "application/json".to_string()),
        ]
    );
    assert_eq!(post.timeout_secs, 300);
    assert_eq!(TIMEOUT_SECS, 300);
    assert_eq!(post.body, encode_request(&req).unwrap());
}

#[test]
fn success_status_range() {
    assert!(!is_success_status(199));
    assert!(is_success_status(200));
    assert!(is_success_status(299));
    assert!(!is_success_status(300));
    assert!(!is_success_status(400));
}

#[test]
fn check_response_on_statuses() {
    assert_eq!(check_response(Reply::Status(200)).unwrap(), Expect::RunResult);
    assert_eq!(check_response(Reply::Status(204)).unwrap(), Expect::RunResult);
    assert_eq!(check_response(Reply::Status(400)).unwrap(), Expect::ErrorBody(400));
    assert_eq!(check_response(Reply::Status(500)).unwrap(), Expect::ErrorBody(500));
}

#[test]
fn transport_failure_is_a_request_error() {
    let failure = ureq::Error::ConnectionFailed("Connection refused".to_string());
    match check_response(Reply::NoResponse(Some(failure))) {
        Err(Error::Request(ureq::Error::ConnectionFailed(text))) => assert_eq!(text, "Connection refused"),
        other => panic!("unexpected outcome: {:?}", other),
    }
}

#[test]
fn failure_without_cause_is_empty_synthetic() {
    assert!(matches!(check_response(Reply::NoResponse(None)), Err(Error::EmptySynthetic())));
}

#[test]
fn well_formed_success_body_is_the_result() {
    let result = RunResult { stdout: "a".to_string(), stderr: String::new(), error: String::new() };
    let out = run_result(Ok(result)).unwrap();
    assert_eq!(out.stdout, "a");
    assert_eq!(out.stderr, "");
    assert_eq!(out.error, "");
}

#[test]
fn malformed_success_body_is_deserialize_response() {
    let err = std::io::Error::new(std::io::ErrorKind::InvalidData, "missing field `stdout`");
    match run_result(Err(err)) {
        Err(Error::DeserializeResponse(e)) => assert_eq!(e.to_string(), "missing field `stdout`"),
        other => panic!("unexpected outcome: {:?}", other),
    }
}

#[test]
fn error_status_with_message_is_response_not_ok() {
    let body = ErrorBody { message: "bad language".to_string() };
    match error_response(400, Ok(body)) {
        Error::ResponseNotOk(resp) => {
            assert_eq!(resp.status_code, 400);
            assert_eq!(resp.body.message, "bad language");
        }
        other => panic!("unexpected outcome: {:?}", other),
    }
}

#[test]
fn malformed_error_body_is_deserialize_error_response() {
    let err = std::io::Error::new(std::io::ErrorKind::InvalidData, "expected value");
    assert!(matches!(error_response(502, Err(err)), Error::DeserializeErrorResponse(_)));
}

#[test]
fn describe_each_variant() {
    let body = ErrorBody { message: "bad language".to_string() };
    assert_eq!(error_response(400, Ok(body)).describe(), "Response not ok: bad language");
    assert_eq!(
        Error::EmptySynthetic().describe(),
        "Expected synthetic error, but there was none (programming error)"
    );
    let io = std::io::Error::new(std::io::ErrorKind::InvalidData, "broken");
    assert_eq!(run_result(Err(io)).unwrap_err().describe(), "Failed to deserialize response body: broken");
    let io = std::io::Error::new(std::io::ErrorKind::InvalidData, "broken");
    assert_eq!(
        error_response(500, Err(io)).describe(),
        "Failed to deserialize error response body: broken"
    );
    let failure = ureq::Error::ConnectionFailed("refused".to_string());
    let text = check_response(Reply::NoResponse(Some(failure))).unwrap_err().describe();
    assert!(text.starts_with("Request error: "));
    assert!(text.len() > "Request error: ".len());
    let json_err = serde_json::from_str::<serde_json::Value>("{").unwrap_err();
    let text = Error::SerializeRequest(json_err).describe();
    assert!(text.starts_with("Failed to serialize request body: "));
    assert!(text.len() > "Failed to serialize request body: ".len());
}

#[test]
fn frame_request_places_literals() {
    let quoted = QuotedRequest {
        image: "\"img\"".to_string(),
        language: "\"rust\"".to_string(),
        files: vec![
            ("\"a.rs\"".to_string(), "\"fn main() {}\"".to_string()),
            ("\"b.rs\"".to_string(), "\"\"".to_string()),
        ],
        stdin: None,
        command: Some("\"cargo run\"".to_string()),
    };
    assert_eq!(
        frame_request(&quoted),
        "{\"image\":\"img\",\"payload\":{\"language\":\"rust\",\"files\":[{\"name\":\"a.rs\",\"content\":\"fn main() {}\"},{\"name\":\"b.rs\",\"content\":\"\"}],\"stdin\":null,\"command\":\"cargo run\"}}"
    );
}

#[test]
fn encode_request_escapes_as_stated() {
    let req = request(vec![file("e", "\u{8}\u{c}\n\r\t\u{1f}\u{0}\"\\/\u{e9}\u{7f}")], None, None);
    let body = encode_request(&req).unwrap();
    assert!(body.contains("{\"name\":\"e\",\"content\":\"\\b\\f\\n\\r\\t\\u001f\\u0000\\\"\\\\/\u{e9}\u{7f}\"}"));
}
