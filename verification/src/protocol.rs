//! The conversation between the hook and the watcher, as a state machine.
//!
//! A run starts with what git passed and where the work tree is. Each step
//! takes what became of the last request and says what to do next: send
//! another request, write bytes for git, or stop. The machine performs no
//! input or output itself; whoever drives it carries out each [`Action`] and
//! comes back with the [`Event`] that followed.
//!
//! ```text
//! start ─▶ Querying ─▶ Success
//!             │
//!             └─▶ Watching ─▶ ClockFetching ─▶ BootstrapSuccess
//!
//! every phase that waits for the watcher ─▶ Failed
//! ```

use vstd::prelude::*;
use crate::error::{caused_error, plain_error, ErrorKind, HookError, HookErrorView};
use crate::json::json_render;
use crate::query::{clock_request, clock_text, query_request, query_text, watch_request, watch_text};
use crate::reply::{push_record, record, records, reply_bytes, HookReply, HookReplyView};
use crate::response::{
    clock_response, query_response, read_clock_response, read_query_response, WatchResponse,
    WatchResponseView,
};
use crate::text::{contains, contains_text};
use crate::token::clockspec_of;
use crate::transport::{output_content, parse_output};

verus! {

/// The one protocol version that the hook speaks.
pub const SUPPORTED_VERSION: u8 = 2;

/// What git passes to the hook.
#[derive(Debug, PartialEq, Eq)]
pub struct HookRequest {
    pub version: u8,
    pub token: String,
}

/// Where a run stands.
#[derive(Debug, Clone, Copy, PartialEq, Eq, Structural)]
pub enum Phase {
    /// The query is with the watcher.
    Querying,
    /// The watcher did not know the work tree and has been asked to watch it.
    Watching,
    /// The work tree is watched and the watcher has been asked for its clock.
    ClockFetching,
    /// The watcher answered the query; the answer has been handed out.
    Success,
    /// The work tree was newly registered; everything has been reported as
    /// changed, under a fresh clock.
    BootstrapSuccess,
    /// The run was given up.
    Failed,
}

impl Phase {
    /// Whether the run is over.
    pub open spec fn is_final(self) -> bool {
        self is Success || self is BootstrapSuccess || self is Failed
    }
}

/// The part of a round trip that broke.
#[derive(Debug, Clone, Copy, PartialEq, Eq, Structural)]
pub enum Fault {
    /// The watcher could not be started.
    Spawn,
    /// The request could not be written to the watcher.
    Write,
    /// The watcher's exit could not be awaited.
    Wait,
}

/// What became of a request.
#[derive(Debug, PartialEq, Eq)]
pub enum Event {
    /// The watcher ran and exited, having written `output`.
    Exited { success: bool, output: Vec<u8> },
    /// The round trip broke at `fault`, for the reason `cause`.
    Broken { fault: Fault, cause: String },
}

/// The mathematical content of an [`Event`].
pub enum EventView {
    Exited { success: bool, output: Seq<u8> },
    Broken { fault: Fault, cause: Seq<char> },
}

impl View for Event {
    type V = EventView;

    open spec fn view(&self) -> EventView {
        match self {
            Event::Exited { success, output } => EventView::Exited {
                success: *success,
                output: output@,
            },
            Event::Broken { fault, cause } => EventView::Broken { fault: *fault, cause: cause@ },
        }
    }
}

/// What the driver is to do next.
#[derive(Debug, PartialEq, Eq)]
pub enum Action {
    /// Send `request` to the watcher and report what became of it.
    Send { request: String },
    /// Tell the user `notice`, then send `request`.
    Register { notice: String, request: String },
    /// Write `output` for git at once: the complete answer that reports
    /// everything as changed, so that it stands whatever becomes of
    /// `request`. Then send `request`.
    MarkDirty { output: Vec<u8>, request: String },
    /// Write `output` for git and end the run successfully.
    Finish { output: Vec<u8> },
    /// Report `error` and end the run unsuccessfully.
    Fail { error: HookError },
    /// Nothing: the run had ended before the event came.
    Nothing,
}

/// The mathematical content of an [`Action`].
pub enum ActionView {
    Send { request: Seq<char> },
    Register { notice: Seq<char>, request: Seq<char> },
    MarkDirty { output: Seq<u8>, request: Seq<char> },
    Finish { output: Seq<u8> },
    Fail { error: HookErrorView },
    Nothing,
}

impl View for Action {
    type V = ActionView;

    open spec fn view(&self) -> ActionView {
        match self {
            Action::Send { request } => ActionView::Send { request: request@ },
            Action::Register { notice, request } => ActionView::Register {
                notice: notice@,
                request: request@,
            },
            Action::MarkDirty { output, request } => ActionView::MarkDirty {
                output: output@,
                request: request@,
            },
            Action::Finish { output } => ActionView::Finish { output: output@ },
            Action::Fail { error } => ActionView::Fail { error: error@ },
            Action::Nothing => ActionView::Nothing,
        }
    }
}

/// One run of the hook.
#[derive(Debug, PartialEq, Eq)]
pub struct Session {
    phase: Phase,
    root: String,
    token: String,
}

/// The mathematical content of a [`Session`].
pub struct SessionView {
    pub phase: Phase,
    /// The work-tree root; empty when the run failed before it was known.
    pub root: Seq<char>,
    pub token: Seq<char>,
}

impl View for Session {
    type V = SessionView;

    closed spec fn view(&self) -> SessionView {
        SessionView { phase: self.phase, root: self.root@, token: self.token@ }
    }
}

/// The words by which the watcher says that it does not watch a root.
pub open spec fn unwatched_marker() -> Seq<char> {
    "unable to resolve root"@
}

/// The path that stands for the whole work tree.
pub open spec fn whole_tree() -> Seq<char> {
    "/"@
}

/// The answer that reports everything as changed: the whole work tree both
/// as the clock token and as the one changed path.
pub open spec fn dirty_reply() -> HookReplyView {
    HookReplyView { clock: whole_tree(), files: seq![whole_tree()] }
}

/// The bytes that tell git to take every file as changed: the record of the
/// whole work tree twice, once as the clock token and once as the one
/// changed path.
pub open spec fn dirty_marker() -> Seq<u8> {
    record(whole_tree()) + record(whole_tree())
}

/// The marker is a complete answer on the wire: the bytes of the answer that
/// reports everything as changed.
pub proof fn lemma_dirty_marker_is_an_answer()
    ensures
        dirty_marker() == reply_bytes(dirty_reply()),
{
    let files = dirty_reply().files;
    assert(files.drop_last() =~= Seq::<Seq<char>>::empty());
    assert(records(files.drop_last()) =~= Seq::<u8>::empty());
    assert(records(files) =~= record(whole_tree()));
}

/// The answer after a fresh registration: the new clock, and the whole work
/// tree as changed.
pub open spec fn bootstrap_reply(clock: Seq<char>) -> HookReplyView {
    HookReplyView { clock, files: seq![whole_tree()] }
}

/// The failure of a run that git started with another protocol version.
pub open spec fn unsupported_version() -> HookErrorView {
    plain_error(ErrorKind::UnsupportedVersion, "unsupported version"@)
}

/// The failure of a run whose work tree could not be determined.
pub open spec fn no_work_tree(cause: Seq<char>) -> HookErrorView {
    caused_error(ErrorKind::EnvironmentUnavailable, "couldn't get working directory"@, cause)
}

/// The failure of a round trip that broke.
pub open spec fn broken_round_trip(fault: Fault, cause: Seq<char>) -> HookErrorView {
    match fault {
        Fault::Spawn => caused_error(ErrorKind::TransportFailure, "couldn't start watcher"@, cause),
        Fault::Write => plain_error(ErrorKind::TransportFailure, cause),
        Fault::Wait => caused_error(
            ErrorKind::TransportFailure,
            "failed to wait on watcher"@,
            cause,
        ),
    }
}

/// The failure of a query that the watcher turned down for a reason other
/// than an unwatched root: it quotes the watcher's words and the token.
pub open spec fn unexpected_error(message: Seq<char>, token: Seq<char>) -> HookErrorView {
    plain_error(
        ErrorKind::ProtocolViolation,
        "watcher failed for an unexpected reason "@ + message + " (token: "@ + token + ")"@,
    )
}

/// The failure of a registration that the watcher did not complete.
pub open spec fn watch_failed() -> HookErrorView {
    plain_error(ErrorKind::WatchRegistrationFailure, "watch failed"@)
}

/// What the user is told when a work tree is registered.
pub open spec fn registration_notice(root: Seq<char>) -> Seq<char> {
    "adding "@ + root + " to watch list"@
}

/// The content of a work-tree root, or of the reason why it is not known.
pub open spec fn work_tree_view(work_tree: Result<String, String>) -> Result<Seq<char>, Seq<char>> {
    match work_tree {
        Ok(root) => Ok(root@),
        Err(cause) => Err(cause@),
    }
}

/// The first step of a run: a version other than the supported one fails at
/// once, then a missing work tree; otherwise the query goes out.
pub open spec fn first_step(
    version: u8,
    token: Seq<char>,
    work_tree: Result<Seq<char>, Seq<char>>,
) -> (SessionView, ActionView) {
    if version != SUPPORTED_VERSION {
        (
            SessionView { phase: Phase::Failed, root: Seq::empty(), token },
            ActionView::Fail { error: unsupported_version() },
        )
    } else {
        match work_tree {
            Err(cause) => (
                SessionView { phase: Phase::Failed, root: Seq::empty(), token },
                ActionView::Fail { error: no_work_tree(cause) },
            ),
            Ok(root) => (
                SessionView { phase: Phase::Querying, root, token },
                ActionView::Send { request: json_render(query_request(root, clockspec_of(token))) },
            ),
        }
    }
}

/// The step that follows a reply to the query.
pub open spec fn after_query(root: Seq<char>, token: Seq<char>, output: Seq<u8>) -> (
    Phase,
    ActionView,
) {
    match output_content(output) {
        Err(error) => (Phase::Failed, ActionView::Fail { error }),
        Ok(content) => match query_response(content) {
            Err(error) => (Phase::Failed, ActionView::Fail { error }),
            Ok(WatchResponseView::Changes(reply)) => (
                Phase::Success,
                ActionView::Finish { output: reply_bytes(reply) },
            ),
            Ok(WatchResponseView::Error(message)) => if contains_text(
                message,
                unwatched_marker(),
            ) {
                (
                    Phase::Watching,
                    ActionView::Register {
                        notice: registration_notice(root),
                        request: json_render(watch_request(root)),
                    },
                )
            } else {
                (Phase::Failed, ActionView::Fail { error: unexpected_error(message, token) })
            },
        },
    }
}

/// The step that follows the watcher's exit from a registration: once the
/// work tree is watched, the answer that reports everything as changed goes
/// out before the clock is asked for.
pub open spec fn after_watch(root: Seq<char>, success: bool) -> (Phase, ActionView) {
    if success {
        (
            Phase::ClockFetching,
            ActionView::MarkDirty {
                output: dirty_marker(),
                request: json_render(clock_request(root)),
            },
        )
    } else {
        (Phase::Failed, ActionView::Fail { error: watch_failed() })
    }
}

/// The step that follows a reply to the clock request.
pub open spec fn after_clock(output: Seq<u8>) -> (Phase, ActionView) {
    match output_content(output) {
        Err(error) => (Phase::Failed, ActionView::Fail { error }),
        Ok(content) => match clock_response(content) {
            Err(error) => (Phase::Failed, ActionView::Fail { error }),
            Ok(clock) => (
                Phase::BootstrapSuccess,
                ActionView::Finish { output: reply_bytes(bootstrap_reply(clock)) },
            ),
        },
    }
}

/// The phase and the action that follow `event` in a run that stands at
/// `session`. A finished run stays as it is.
pub open spec fn next_step(session: SessionView, event: EventView) -> (Phase, ActionView) {
    if session.phase.is_final() {
        (session.phase, ActionView::Nothing)
    } else {
        match event {
            EventView::Broken { fault, cause } => (
                Phase::Failed,
                ActionView::Fail { error: broken_round_trip(fault, cause) },
            ),
            EventView::Exited { success, output } => match session.phase {
                Phase::Querying => after_query(session.root, session.token, output),
                Phase::Watching => after_watch(session.root, success),
                _ => after_clock(output),
            },
        }
    }
}

/// Builds the failure of a round trip that broke.
fn round_trip_error(fault: Fault, cause: String) -> (error: HookError)
    ensures
        error@ == broken_round_trip(fault, cause@),
{
    match fault {
        Fault::Spawn => HookError::with_cause(
            ErrorKind::TransportFailure,
            "couldn't start watcher".to_owned(),
            cause,
        ),
        Fault::Write => HookError::new(ErrorKind::TransportFailure, cause),
        Fault::Wait => HookError::with_cause(
            ErrorKind::TransportFailure,
            "failed to wait on watcher".to_owned(),
            cause,
        ),
    }
}

/// Decides what follows a reply to the query.
fn handle_query_reply(root: &str, token: &str, output: Vec<u8>) -> (step: (Phase, Action))
    ensures
        (step.0, step.1@) == after_query(root@, token@, output@),
{
    let reply = match parse_output(output) {
        Ok(reply) => reply,
        Err(error) => {
            return (Phase::Failed, Action::Fail { error });
        },
    };
    match read_query_response(&reply) {
        Err(error) => (Phase::Failed, Action::Fail { error }),
        Ok(WatchResponse::Changes(changes)) => (
            Phase::Success,
            Action::Finish { output: changes.encode() },
        ),
        Ok(WatchResponse::Error(message)) => {
            if contains(message.as_str(), "unable to resolve root") {
                let mut notice = "adding ".to_owned();
                notice.append(root);
                notice.append(" to watch list");
                (Phase::Watching, Action::Register { notice, request: watch_text(root) })
            } else {
                let mut text = "watcher failed for an unexpected reason ".to_owned();
                text.append(message.as_str());
                text.append(" (token: ");
                text.append(token);
                text.append(")");
                (
                    Phase::Failed,
                    Action::Fail { error: HookError::new(ErrorKind::ProtocolViolation, text) },
                )
            }
        },
    }
}

/// Decides what follows the watcher's exit from a registration.
fn handle_watch_exit(root: &str, success: bool) -> (step: (Phase, Action))
    ensures
        (step.0, step.1@) == after_watch(root@, success),
{
    if success {
        let mut output: Vec<u8> = Vec::new();
        push_record(&mut output, "/");
        push_record(&mut output, "/");
        assert(output@ =~= dirty_marker());
        (Phase::ClockFetching, Action::MarkDirty { output, request: clock_text(root) })
    } else {
        (
            Phase::Failed,
            Action::Fail {
                error: HookError::new(
                    ErrorKind::WatchRegistrationFailure,
                    "watch failed".to_owned(),
                ),
            },
        )
    }
}

/// Decides what follows a reply to the clock request.
fn handle_clock_reply(output: Vec<u8>) -> (step: (Phase, Action))
    ensures
        (step.0, step.1@) == after_clock(output@),
{
    let reply = match parse_output(output) {
        Ok(reply) => reply,
        Err(error) => {
            return (Phase::Failed, Action::Fail { error });
        },
    };
    match read_clock_response(&reply) {
        Err(error) => (Phase::Failed, Action::Fail { error }),
        Ok(clock) => {
            let mut files: Vec<String> = Vec::new();
            files.push("/".to_owned());
            let answer = HookReply { clock, files };
            assert(answer@.files =~= seq![whole_tree()]);
            (Phase::BootstrapSuccess, Action::Finish { output: answer.encode() })
        },
    }
}

impl Session {
    /// Where the run stands.
    pub fn phase(&self) -> (phase: Phase)
        ensures
            phase == self@.phase,
    {
        self.phase
    }

    /// Whether the run is over.
    pub fn is_over(&self) -> (over: bool)
        ensures
            over == self@.phase.is_final(),
    {
        match self.phase {
            Phase::Success | Phase::BootstrapSuccess | Phase::Failed => true,
            _ => false,
        }
    }

    /// Starts a run with what git passed and the work-tree root, or the
    /// reason why the root is not known. No request goes out for a version
    /// other than the supported one.
    pub fn start(request: HookRequest, work_tree: Result<String, String>) -> (run: (
        Session,
        Action,
    ))
        ensures
            (run.0@, run.1@) == first_step(
                request.version,
                request.token@,
                work_tree_view(work_tree),
            ),
            request.version != SUPPORTED_VERSION ==> run.1@ == (ActionView::Fail {
                error: unsupported_version(),
            }),
    {
        let HookRequest { version, token } = request;
        if version != SUPPORTED_VERSION {
            let error = HookError::new(
                ErrorKind::UnsupportedVersion,
                "unsupported version".to_owned(),
            );
            return (
                Session { phase: Phase::Failed, root: String::new(), token },
                Action::Fail { error },
            );
        }
        match work_tree {
            Err(cause) => {
                let error = HookError::with_cause(
                    ErrorKind::EnvironmentUnavailable,
                    "couldn't get working directory".to_owned(),
                    cause,
                );
                (
                    Session { phase: Phase::Failed, root: String::new(), token },
                    Action::Fail { error },
                )
            },
            Ok(root) => {
                let request = query_text(root.as_str(), token.as_str());
                (Session { phase: Phase::Querying, root, token }, Action::Send { request })
            },
        }
    }

    /// Takes what became of the last request and decides what to do next.
    pub fn step(&mut self, event: Event) -> (action: Action)
        ensures
            (final(self)@.phase, action@) == next_step(old(self)@, event@),
            final(self)@.root == old(self)@.root,
            final(self)@.token == old(self)@.token,
    {
        if self.is_over() {
            return Action::Nothing;
        }
        let (phase, action) = match event {
            Event::Broken { fault, cause } => (
                Phase::Failed,
                Action::Fail { error: round_trip_error(fault, cause) },
            ),
            Event::Exited { success, output } => match self.phase {
                Phase::Querying => handle_query_reply(
                    self.root.as_str(),
                    self.token.as_str(),
                    output,
                ),
                Phase::Watching => handle_watch_exit(self.root.as_str(), success),
                _ => handle_clock_reply(output),
            },
        };
        self.phase = phase;
        action
    }
}

} // verus!
