use rs_git_fsmonitor::error::{pretty_error, ErrorKind, HookError};
use rs_git_fsmonitor::protocol::{Action, Event, Fault, HookRequest, Phase, Session, SUPPORTED_VERSION};
use rs_git_fsmonitor::query::{clock_text, query_text, watch_text};
use rs_git_fsmonitor::reply::HookReply;

fn request(version: u8, token: &str) -> HookRequest {
    HookRequest { version, token: token.to_string() }
}

fn started(token: &str) -> Session {
    let (session, action) = Session::start(request(2, token), Ok("/repo".to_string()));
    assert_eq!(action, Action::Send { request: query_text("/repo", token) });
    session
}

fn exited(output: &str) -> Event {
    Event::Exited { success: true, output: output.as_bytes().to_vec() }
}

fn failure(kind: ErrorKind, message: &str, causes: &[&str]) -> Action {
    Action::Fail {
        error: HookError {
            kind,
            message: message.to_string(),
            causes: causes.iter().map(|c| c.to_string()).collect(),
        },
    }
}

#[test]
fn supported_version_is_two() {
    assert_eq!(SUPPORTED_VERSION, 2);
}

#[test]
fn start_sends_the_query() {
    let (session, action) = Session::start(request(2, "c:123"), Ok("/repo".to_string()));
    assert_eq!(session.phase(), Phase::Querying);
    assert!(!session.is_over());
    assert_eq!(
        action,
        Action::Send {
            request: "[\"query\",\"/repo\",{\"expression\":[\"not\",[\"dirname\",\".git\"]],\"fields\":[\"name\"],\"since\":\"c:123\"}]".to_string()
        }
    );
}

#[test]
fn start_with_version_one_fails_without_a_request() {
    let (session, action) = Session::start(request(1, "c:123"), Ok("/repo".to_string()));
    assert_eq!(session.phase(), Phase::Failed);
    assert!(session.is_over());
    assert_eq!(action, failure(ErrorKind::UnsupportedVersion, "unsupported version", &[]));
}

#[test]
fn start_with_version_three_fails_without_a_request() {
    let (session, action) = Session::start(request(3, "0"), Ok("/repo".to_string()));
    assert_eq!(session.phase(), Phase::Failed);
    assert_eq!(action, failure(ErrorKind::UnsupportedVersion, "unsupported version", &[]));
}

#[test]
fn start_with_any_other_version_fails() {
    for version in [0u8, 1, 3, 4, 255] {
        let (session, action) = Session::start(request(version, "c:1"), Ok("/r".to_string()));
        assert_eq!(session.phase(), Phase::Failed);
        assert!(matches!(action, Action::Fail { .. }));
    }
}

#[test]
fn version_is_judged_before_the_work_tree() {
    let (_, action) = Session::start(request(1, "c:1"), Err("gone".to_string()));
    assert_eq!(action, failure(ErrorKind::UnsupportedVersion, "unsupported version", &[]));
}

#[test]
fn start_without_a_work_tree_fails() {
    let (session, action) =
        Session::start(request(2, "c:1"), Err("No such file or directory".to_string()));
    assert_eq!(session.phase(), Phase::Failed);
    assert_eq!(
        action,
        failure(
            ErrorKind::EnvironmentUnavailable,
            "couldn't get working directory",
            &["No such file or directory"]
        )
    );
}

#[test]
fn files_are_handed_to_git() {
    let mut session = started("c:100");
    let action = session.step(exited("{\"clock\": \"c:123\", \"files\": [\"a.txt\", \"b/c.txt\"]}"));
    assert_eq!(action, Action::Finish { output: b"c:123\0a.txt\0b/c.txt\0".to_vec() });
    assert_eq!(session.phase(), Phase::Success);
    assert!(session.is_over());
}

#[test]
fn no_files_hands_the_clock_alone() {
    let mut session = started("c:100");
    let action = session.step(exited("{\"clock\": \"c:1\", \"files\": []}"));
    assert_eq!(action, Action::Finish { output: b"c:1\0".to_vec() });
    assert_eq!(session.phase(), Phase::Success);
}

#[test]
fn query_reply_is_read_whatever_the_exit_status() {
    let mut session = started("0");
    let action = session.step(Event::Exited {
        success: false,
        output: b"{\"clock\": \"c:5\", \"files\": [\"x\"]}".to_vec(),
    });
    assert_eq!(action, Action::Finish { output: b"c:5\0x\0".to_vec() });
}

#[test]
fn unwatched_root_is_registered_then_asked_for_its_clock() {
    let mut session = started("c:100");
    let action = session.step(exited("{\"error\": \"unable to resolve root 'foo'\"}"));
    assert_eq!(
        action,
        Action::Register {
            notice: "adding /repo to watch list".to_string(),
            request: "[\"watch\",\"/repo\"]".to_string(),
        }
    );
    assert_eq!(session.phase(), Phase::Watching);
    assert!(!session.is_over());

    let action = session.step(exited("{\"watch\": \"/repo\"}"));
    assert_eq!(
        action,
        Action::MarkDirty { output: b"/\0/\0".to_vec(), request: "[\"clock\",\"/repo\"]".to_string() }
    );
    assert_eq!(session.phase(), Phase::ClockFetching);

    let action = session.step(exited("{\"clock\": \"c:99\"}"));
    assert_eq!(action, Action::Finish { output: b"c:99\0/\0".to_vec() });
    assert_eq!(session.phase(), Phase::BootstrapSuccess);
    assert!(session.is_over());
}

#[test]
fn requests_of_the_bootstrap_are_the_command_texts() {
    let mut session = started("17");
    match session.step(exited("{\"error\": \"unable to resolve root\"}")) {
        Action::Register { request, .. } => assert_eq!(request, watch_text("/repo")),
        other => panic!("unexpected action {:?}", other),
    }
    match session.step(exited("")) {
        Action::MarkDirty { request, .. } => assert_eq!(request, clock_text("/repo")),
        other => panic!("unexpected action {:?}", other),
    }
}

#[test]
fn dirty_marker_is_out_before_the_clock_fails() {
    let mut session = started("c:100");
    session.step(exited("{\"error\": \"unable to resolve root 'foo'\"}"));
    let marked = session.step(exited("{}"));
    assert!(matches!(&marked, Action::MarkDirty { output, .. } if output == b"/\0/\0"));
    let action = session.step(exited("{\"error\": \"no clock\"}"));
    assert_eq!(action, failure(ErrorKind::ClockFetchFailure, "failed to call watcher clock", &[]));
    assert_eq!(session.phase(), Phase::Failed);
}

#[test]
fn failed_registration_ends_the_run() {
    let mut session = started("c:100");
    session.step(exited("{\"error\": \"unable to resolve root 'foo'\"}"));
    let action = session.step(Event::Exited { success: false, output: b"{}".to_vec() });
    assert_eq!(action, failure(ErrorKind::WatchRegistrationFailure, "watch failed", &[]));
    assert_eq!(session.phase(), Phase::Failed);
}

#[test]
fn registration_looks_at_the_exit_status_only() {
    let mut session = started("c:100");
    session.step(exited("{\"error\": \"unable to resolve root 'foo'\"}"));
    let action = session.step(Event::Exited { success: true, output: vec![0xff, 0xfe] });
    assert!(matches!(action, Action::MarkDirty { .. }));
}

#[test]
fn other_watcher_error_fails_with_its_words_and_the_token() {
    let mut session = started("c:100");
    let action = session.step(exited("{\"error\": \"some other problem\"}"));
    assert_eq!(
        action,
        failure(
            ErrorKind::ProtocolViolation,
            "watcher failed for an unexpected reason some other problem (token: c:100)",
            &[]
        )
    );
    assert_eq!(session.phase(), Phase::Failed);
    match action {
        Action::Fail { error } => {
            let shown = pretty_error(&error);
            assert!(shown.contains("some other problem"));
            assert!(shown.contains("c:100"));
        }
        other => panic!("unexpected action {:?}", other),
    }
}

#[test]
fn unwatched_marker_is_matched_exactly() {
    let mut session = started("1");
    let action = session.step(exited("{\"error\": \"Unable to resolve root\"}"));
    assert!(matches!(action, Action::Fail { .. }));
    let mut session = started("1");
    let action = session.step(exited("{\"error\": \"unable  to resolve root\"}"));
    assert!(matches!(action, Action::Fail { .. }));
    let mut session = started("1");
    let action = session.step(exited("{\"error\": \"watchman: unable to resolve root /x: not watched\"}"));
    assert!(matches!(action, Action::Register { .. }));
}

#[test]
fn reply_without_files_or_error_fails() {
    let mut session = started("c:100");
    let action = session.step(exited("{\"clock\": \"c:1\"}"));
    assert_eq!(action, failure(ErrorKind::ProtocolViolation, "missing file data", &[]));
    assert_eq!(session.phase(), Phase::Failed);
}

#[test]
fn reply_that_is_no_json_fails() {
    let mut session = started("c:100");
    let action = session.step(exited("oops"));
    assert_eq!(
        action,
        failure(ErrorKind::TransportFailure, "expected value at line 1 column 1", &[])
    );
    assert_eq!(session.phase(), Phase::Failed);
}

#[test]
fn reply_that_is_no_text_fails() {
    let mut session = started("c:100");
    let action = session.step(Event::Exited { success: true, output: vec![0xc3, 0x28] });
    assert_eq!(
        action,
        failure(
            ErrorKind::TransportFailure,
            "watcher didn't return valid JSON",
            &["invalid utf-8 sequence of 1 bytes from index 0"]
        )
    );
    assert_eq!(session.phase(), Phase::Failed);
}

#[test]
fn clock_reply_that_is_no_json_fails() {
    let mut session = started("c:100");
    session.step(exited("{\"error\": \"unable to resolve root\"}"));
    session.step(exited(""));
    let action = session.step(exited(""));
    assert_eq!(
        action,
        failure(ErrorKind::TransportFailure, "EOF while parsing a value at line 1 column 0", &[])
    );
}

#[test]
fn broken_round_trip_fails_in_every_waiting_phase() {
    let broken = || Event::Broken { fault: Fault::Spawn, cause: "not found".to_string() };
    let expected =
        || failure(ErrorKind::TransportFailure, "couldn't start watcher", &["not found"]);

    let mut session = started("c:1");
    assert_eq!(session.step(broken()), expected());
    assert_eq!(session.phase(), Phase::Failed);

    let mut session = started("c:1");
    session.step(exited("{\"error\": \"unable to resolve root\"}"));
    assert_eq!(session.step(broken()), expected());
    assert_eq!(session.phase(), Phase::Failed);

    let mut session = started("c:1");
    session.step(exited("{\"error\": \"unable to resolve root\"}"));
    session.step(exited(""));
    assert_eq!(session.step(broken()), expected());
    assert_eq!(session.phase(), Phase::Failed);
}

#[test]
fn each_fault_has_its_message() {
    let mut session = started("c:1");
    let action = session.step(Event::Broken { fault: Fault::Write, cause: "Broken pipe".to_string() });
    assert_eq!(action, failure(ErrorKind::TransportFailure, "Broken pipe", &[]));

    let mut session = started("c:1");
    let action = session.step(Event::Broken { fault: Fault::Wait, cause: "interrupted".to_string() });
    assert_eq!(
        action,
        failure(ErrorKind::TransportFailure, "failed to wait on watcher", &["interrupted"])
    );
}

#[test]
fn finished_run_ignores_further_events() {
    let mut session = started("c:100");
    session.step(exited("{\"clock\": \"c:1\", \"files\": []}"));
    assert_eq!(session.step(exited("{\"clock\": \"c:2\", \"files\": [\"x\"]}")), Action::Nothing);
    assert_eq!(session.phase(), Phase::Success);

    let (mut session, _) = Session::start(request(1, "c:1"), Ok("/repo".to_string()));
    assert_eq!(session.step(exited("{\"clock\": \"c:2\", \"files\": []}")), Action::Nothing);
    assert_eq!(session.phase(), Phase::Failed);
}

#[test]
fn same_reply_gives_the_same_bytes() {
    let reply = "{\"clock\": \"c:7\", \"files\": [\"a\", \"b\"]}";
    let mut first = started("c:6");
    let mut second = started("c:6");
    let one = first.step(exited(reply));
    let two = second.step(exited(reply));
    assert_eq!(one, two);
    assert_eq!(one, Action::Finish { output: b"c:7\0a\0b\0".to_vec() });
}

#[test]
fn dirty_marker_is_a_complete_answer() {
    let mut session = started("c:100");
    session.step(exited("{\"error\": \"unable to resolve root 'foo'\"}"));
    let marked = session.step(exited("{}"));
    let everything = HookReply { clock: "/".to_string(), files: vec!["/".to_string()] };
    match marked {
        Action::MarkDirty { output, .. } => {
            assert_eq!(output, everything.encode());
            assert_eq!(output, vec![b'/', 0, b'/', 0]);
        }
        other => panic!("unexpected action {:?}", other),
    }
}
