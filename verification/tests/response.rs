use rs_git_fsmonitor::error::{ErrorKind, HookError};
use rs_git_fsmonitor::reply::HookReply;
use rs_git_fsmonitor::response::{read_clock_response, read_query_response, WatchResponse};
use rs_git_fsmonitor::transport::{parse_output, parse_text};
use serde_json::Value;

fn value(text: &str) -> Value {
    serde_json::from_str(text).unwrap()
}

fn changes(clock: &str, files: &[&str]) -> Result<WatchResponse, HookError> {
    Ok(WatchResponse::Changes(HookReply {
        clock: clock.to_string(),
        files: files.iter().map(|f| f.to_string()).collect(),
    }))
}

fn missing_file_data() -> Result<WatchResponse, HookError> {
    Err(HookError {
        kind: ErrorKind::ProtocolViolation,
        message: "missing file data".to_string(),
        causes: vec![],
    })
}

#[test]
fn response_with_files_gives_clock_and_paths() {
    let reply = value("{\"clock\": \"c:123\", \"files\": [\"a.txt\", \"b/c.txt\"]}");
    assert_eq!(read_query_response(&reply), changes("c:123", &["a.txt", "b/c.txt"]));
}

#[test]
fn response_with_no_files_gives_the_clock_alone() {
    let reply = value("{\"clock\": \"c:1\", \"files\": []}");
    assert_eq!(read_query_response(&reply), changes("c:1", &[]));
}

#[test]
fn response_keeps_order_and_repeats() {
    let reply = value("{\"clock\": \"c:1\", \"files\": [\"z\", \"a\", \"z\"]}");
    assert_eq!(read_query_response(&reply), changes("c:1", &["z", "a", "z"]));
}

#[test]
fn response_passes_over_what_is_no_string() {
    let reply = value(
        "{\"clock\": \"c:1\", \"files\": [1, \"a\", null, {\"name\": \"x\"}, [\"y\"], \"b\", true, 2.5]}",
    );
    assert_eq!(read_query_response(&reply), changes("c:1", &["a", "b"]));
}

#[test]
fn response_without_clock_has_an_empty_one() {
    assert_eq!(read_query_response(&value("{\"files\": [\"a\"]}")), changes("", &["a"]));
    assert_eq!(
        read_query_response(&value("{\"clock\": 5, \"files\": [\"a\"]}")),
        changes("", &["a"])
    );
}

#[test]
fn response_with_error_gives_the_watcher_words() {
    let reply = value("{\"error\": \"unable to resolve root 'foo'\"}");
    assert_eq!(
        read_query_response(&reply),
        Ok(WatchResponse::Error("unable to resolve root 'foo'".to_string()))
    );
}

#[test]
fn error_takes_precedence_over_files() {
    let reply = value("{\"error\": \"bad\", \"clock\": \"c:1\", \"files\": [\"a\"]}");
    assert_eq!(read_query_response(&reply), Ok(WatchResponse::Error("bad".to_string())));
}

#[test]
fn error_that_is_no_string_is_not_an_error() {
    let reply = value("{\"error\": 7, \"clock\": \"c:1\", \"files\": [\"a\"]}");
    assert_eq!(read_query_response(&reply), changes("c:1", &["a"]));
    assert_eq!(read_query_response(&value("{\"error\": null}")), missing_file_data());
}

#[test]
fn response_with_neither_is_a_violation() {
    assert_eq!(read_query_response(&value("{}")), missing_file_data());
    assert_eq!(read_query_response(&value("{\"clock\": \"c:1\"}")), missing_file_data());
    assert_eq!(read_query_response(&value("{\"files\": \"a.txt\"}")), missing_file_data());
    assert_eq!(read_query_response(&value("{\"files\": {\"0\": \"a\"}}")), missing_file_data());
}

#[test]
fn response_that_is_no_object_is_a_violation() {
    assert_eq!(read_query_response(&value("[\"files\"]")), missing_file_data());
    assert_eq!(read_query_response(&value("\"files\"")), missing_file_data());
    assert_eq!(read_query_response(&value("null")), missing_file_data());
    assert_eq!(read_query_response(&value("3")), missing_file_data());
}

#[test]
fn clock_response_gives_the_clock() {
    assert_eq!(read_clock_response(&value("{\"clock\": \"c:99\"}")), Ok("c:99".to_string()));
    assert_eq!(
        read_clock_response(&value("{\"version\": \"4.9\", \"clock\": \"c:1:2\"}")),
        Ok("c:1:2".to_string())
    );
}

#[test]
fn clock_response_without_clock_fails() {
    let failure = Err(HookError {
        kind: ErrorKind::ClockFetchFailure,
        message: "failed to call watcher clock".to_string(),
        causes: vec![],
    });
    assert_eq!(read_clock_response(&value("{}")), failure);
    assert_eq!(read_clock_response(&value("{\"clock\": 99}")), failure);
    assert_eq!(read_clock_response(&value("{\"error\": \"no\"}")), failure);
    assert_eq!(read_clock_response(&value("[\"clock\"]")), failure);
}

#[test]
fn parse_text_reads_one_json_value() {
    let parsed = parse_text(" {\"clock\": \"c:1\", \"files\": [\"a\"]}\n").unwrap();
    assert_eq!(parsed["clock"].as_str(), Some("c:1"));
    assert_eq!(parsed["files"].as_array().map(|a| a.len()), Some(1));
    assert_eq!(parse_text("17").unwrap(), Value::from(17u64));
}

#[test]
fn parse_text_reports_the_parser_message_as_it_stands() {
    let err = parse_text("").unwrap_err();
    assert_eq!(err.kind, ErrorKind::TransportFailure);
    assert_eq!(err.message, "EOF while parsing a value at line 1 column 0");
    assert!(err.causes.is_empty());
    for text in ["not json", "{\"a\": ", "[1,]", "{} {}", "{\"a\":1}x"] {
        let expected = serde_json::from_str::<Value>(text).unwrap_err().to_string();
        let err = parse_text(text).unwrap_err();
        assert_eq!(err.kind, ErrorKind::TransportFailure);
        assert_eq!(err.message, expected);
        assert!(err.causes.is_empty());
    }
}

#[test]
fn parse_output_reads_utf8_json() {
    let parsed = parse_output(b"{\"clock\": \"c:99\"}".to_vec()).unwrap();
    assert_eq!(parsed["clock"].as_str(), Some("c:99"));
    let parsed = parse_output("[\"d\u{e9}j\u{e0}\"]".as_bytes().to_vec()).unwrap();
    assert_eq!(parsed[0].as_str(), Some("d\u{e9}j\u{e0}"));
}

#[test]
fn parse_output_refuses_bytes_that_are_no_text() {
    let err = parse_output(vec![b'{', 0xff, b'}']).unwrap_err();
    assert_eq!(err.kind, ErrorKind::TransportFailure);
    assert_eq!(err.message, "watcher didn't return valid JSON");
    assert_eq!(err.causes, vec!["invalid utf-8 sequence of 1 bytes from index 1".to_string()]);
    let bytes = vec![b'"', 0xe2, 0x82];
    let expected = String::from_utf8(bytes.clone()).unwrap_err().to_string();
    let err = parse_output(bytes).unwrap_err();
    assert_eq!(err.causes, vec![expected]);
}

#[test]
fn parse_output_refuses_text_that_is_no_json() {
    let err = parse_output(b"watchman: command not found".to_vec()).unwrap_err();
    assert_eq!(err.kind, ErrorKind::TransportFailure);
    assert_eq!(
        err.message,
        serde_json::from_str::<Value>("watchman: command not found").unwrap_err().to_string()
    );
    assert!(err.causes.is_empty());
    let err = parse_output(Vec::new()).unwrap_err();
    assert_eq!(err.message, "EOF while parsing a value at line 1 column 0");
}
