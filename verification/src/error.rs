//! What can go wrong in one run of the hook, and how it is reported.
//!
//! An error carries its kind, a message, and the chain of causes beneath it,
//! the nearest first. Every error ends the run.

use vstd::prelude::*;
use crate::text::texts;

verus! {

/// The kinds of failure.
#[derive(Debug, Clone, Copy, PartialEq, Eq, Structural)]
pub enum ErrorKind {
    /// Git asked for a protocol version other than the supported one.
    UnsupportedVersion,
    /// The work-tree root could not be determined.
    EnvironmentUnavailable,
    /// The watcher could not be run, or its output was not JSON text.
    TransportFailure,
    /// The watcher's reply lacked what was expected, or reported an error
    /// that is not understood.
    ProtocolViolation,
    /// The watcher did not accept the work tree for watching.
    WatchRegistrationFailure,
    /// The watcher did not report its clock.
    ClockFetchFailure,
}

/// A failure with its causes.
#[derive(Debug, PartialEq, Eq)]
pub struct HookError {
    pub kind: ErrorKind,
    pub message: String,
    /// The causes beneath the message, the nearest first.
    pub causes: Vec<String>,
}

/// The mathematical content of a [`HookError`].
pub struct HookErrorView {
    pub kind: ErrorKind,
    pub message: Seq<char>,
    pub causes: Seq<Seq<char>>,
}

impl View for HookError {
    type V = HookErrorView;

    open spec fn view(&self) -> HookErrorView {
        HookErrorView { kind: self.kind, message: self.message@, causes: texts(self.causes@) }
    }
}

/// An error of the given kind without a cause.
pub open spec fn plain_error(kind: ErrorKind, message: Seq<char>) -> HookErrorView {
    HookErrorView { kind, message, causes: Seq::empty() }
}

/// An error of the given kind with one cause beneath it.
pub open spec fn caused_error(kind: ErrorKind, message: Seq<char>, cause: Seq<char>)
    -> HookErrorView {
    HookErrorView { kind, message, causes: seq![cause] }
}

/// The text that separates a message from its cause.
pub open spec fn cause_separator() -> Seq<char> {
    ":\n"@
}

/// A message followed by its causes, each introduced by a colon and a line
/// break.
pub open spec fn chain_text(message: Seq<char>, causes: Seq<Seq<char>>) -> Seq<char>
    decreases causes.len(),
{
    if causes.len() == 0 {
        message
    } else {
        chain_text(message, causes.drop_last()) + cause_separator() + causes.last()
    }
}

impl HookError {
    /// An error without a cause.
    pub fn new(kind: ErrorKind, message: String) -> (err: HookError)
        ensures
            err@ == plain_error(kind, message@),
    {
        let err = HookError { kind, message, causes: Vec::new() };
        assert(err@.causes =~= Seq::empty());
        err
    }

    /// An error with one cause beneath it.
    pub fn with_cause(kind: ErrorKind, message: String, cause: String) -> (err: HookError)
        ensures
            err@ == caused_error(kind, message@, cause@),
    {
        let mut causes: Vec<String> = Vec::new();
        causes.push(cause);
        let err = HookError { kind, message, causes };
        assert(err@.causes =~= seq![cause@]);
        err
    }
}

/// Renders an error for the user: the message, then each cause in turn on a
/// line of its own, the line before it ending in a colon.
pub fn pretty_error(err: &HookError) -> (pretty: String)
    ensures
        pretty@ == chain_text(err@.message, err@.causes),
{
    let mut pretty = err.message.clone();
    let ghost causes = err@.causes;
    let mut i: usize = 0;
    while i < err.causes.len()
        invariant
            i <= err.causes@.len(),
            causes == texts(err.causes@),
            pretty@ == chain_text(err.message@, causes.take(i as int)),
        decreases err.causes@.len() - i,
    {
        proof {
            assert(causes.take(i + 1).drop_last() =~= causes.take(i as int));
            assert(causes.take(i + 1).last() == err.causes@[i as int]@);
        }
        pretty.append(":\n");
        pretty.append(err.causes[i].as_str());
        i += 1;
    }
    assert(causes.take(i as int) =~= causes);
    pretty
}

} // verus!
