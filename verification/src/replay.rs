//! A whole run against recorded events.
//!
//! [`replay`] drives a [`Session`] with the events of a finished or imagined
//! conversation and keeps book of everything the driver would have done: the
//! requests sent, the notices shown, the bytes written for git, and the error
//! reported. The laws of the protocol are stated over that record.

use vstd::prelude::*;
use crate::error::{HookError, HookErrorView};
use crate::protocol::{
    bootstrap_reply, dirty_marker, first_step, next_step, unexpected_error, unsupported_version, work_tree_view,
    Action, ActionView, Event, EventView, HookRequest, Phase, Session, SessionView,
    SUPPORTED_VERSION,
};
use crate::reply::reply_bytes;
use crate::text::{contains_text, occurs_at, texts};

verus! {

/// What a run did, up to the last event that it was given.
#[derive(Debug, PartialEq, Eq)]
pub struct Transcript {
    /// The run as it stands.
    pub session: Session,
    /// The requests sent to the watcher, in order.
    pub requests: Vec<String>,
    /// What the user was told, in order.
    pub notices: Vec<String>,
    /// All bytes written for git.
    pub output: Vec<u8>,
    /// The error that ended the run, if one did.
    pub error: Option<HookError>,
}

/// The mathematical content of a [`Transcript`].
pub struct TranscriptView {
    pub session: SessionView,
    pub requests: Seq<Seq<char>>,
    pub notices: Seq<Seq<char>>,
    pub output: Seq<u8>,
    pub error: Option<HookErrorView>,
}

impl View for Transcript {
    type V = TranscriptView;

    open spec fn view(&self) -> TranscriptView {
        TranscriptView {
            session: self.session@,
            requests: texts(self.requests@),
            notices: texts(self.notices@),
            output: self.output@,
            error: match self.error {
                Some(error) => Some(error@),
                None => None,
            },
        }
    }
}

/// The contents of a sequence of events, element by element.
pub open spec fn event_views(events: Seq<Event>) -> Seq<EventView> {
    Seq::new(events.len(), |i: int| events[i]@)
}

/// The record of a run that has not taken a step yet.
pub open spec fn blank(session: SessionView) -> TranscriptView {
    TranscriptView {
        session,
        requests: Seq::empty(),
        notices: Seq::empty(),
        output: Seq::empty(),
        error: None,
    }
}

/// The record after the run has moved to `phase` and the driver has carried
/// out `action`.
pub open spec fn noted(before: TranscriptView, phase: Phase, action: ActionView)
    -> TranscriptView {
    let session = SessionView {
        phase,
        root: before.session.root,
        token: before.session.token,
    };
    match action {
        ActionView::Send { request } => TranscriptView {
            session,
            requests: before.requests.push(request),
            notices: before.notices,
            output: before.output,
            error: before.error,
        },
        ActionView::Register { notice, request } => TranscriptView {
            session,
            requests: before.requests.push(request),
            notices: before.notices.push(notice),
            output: before.output,
            error: before.error,
        },
        ActionView::MarkDirty { output, request } => TranscriptView {
            session,
            requests: before.requests.push(request),
            notices: before.notices,
            output: before.output + output,
            error: before.error,
        },
        ActionView::Finish { output } => TranscriptView {
            session,
            requests: before.requests,
            notices: before.notices,
            output: before.output + output,
            error: before.error,
        },
        ActionView::Fail { error } => TranscriptView {
            session,
            requests: before.requests,
            notices: before.notices,
            output: before.output,
            error: Some(error),
        },
        ActionView::Nothing => TranscriptView {
            session,
            requests: before.requests,
            notices: before.notices,
            output: before.output,
            error: before.error,
        },
    }
}

/// The record of a run after its first step.
pub open spec fn started(version: u8, token: Seq<char>, work_tree: Result<Seq<char>, Seq<char>>)
    -> TranscriptView {
    let (session, action) = first_step(version, token, work_tree);
    noted(blank(session), session.phase, action)
}

/// The record of a run that was started and then given `events` in order.
pub open spec fn replayed(
    version: u8,
    token: Seq<char>,
    work_tree: Result<Seq<char>, Seq<char>>,
    events: Seq<EventView>,
) -> TranscriptView
    decreases events.len(),
{
    if events.len() == 0 {
        started(version, token, work_tree)
    } else {
        let before = replayed(version, token, work_tree, events.drop_last());
        let (phase, action) = next_step(before.session, events.last());
        noted(before, phase, action)
    }
}

impl Transcript {
    /// Enters into the record what the driver does for `action`.
    fn note(&mut self, action: Action)
        ensures
            final(self)@ == noted(old(self)@, final(self).session@.phase, action@),
            final(self).session == old(self).session,
    {
        let ghost before = self@;
        match action {
            Action::Send { request } => {
                self.requests.push(request);
                assert(texts(self.requests@) =~= before.requests.push(request@));
            },
            Action::Register { notice, request } => {
                self.requests.push(request);
                self.notices.push(notice);
                assert(texts(self.requests@) =~= before.requests.push(request@));
                assert(texts(self.notices@) =~= before.notices.push(notice@));
            },
            Action::MarkDirty { output, request } => {
                self.requests.push(request);
                self.output.extend_from_slice(output.as_slice());
                assert(texts(self.requests@) =~= before.requests.push(request@));
                assert(self.output@ =~= before.output + output@);
            },
            Action::Finish { output } => {
                self.output.extend_from_slice(output.as_slice());
                assert(self.output@ =~= before.output + output@);
            },
            Action::Fail { error } => {
                self.error = Some(error);
            },
            Action::Nothing => {},
        }
    }
}

/// Runs the hook against recorded events: starts a run and hands it the
/// events in order, carrying out every action on paper. Events that come
/// after the run has ended change nothing.
pub fn replay(request: HookRequest, work_tree: Result<String, String>, events: Vec<Event>) -> (done:
    Transcript)
    ensures
        done@ == replayed(
            request.version,
            request.token@,
            work_tree_view(work_tree),
            event_views(events@),
        ),
{
    let ghost version = request.version;
    let ghost token = request.token@;
    let ghost tree = work_tree_view(work_tree);
    let ghost all = event_views(events@);
    let (session, action) = Session::start(request, work_tree);
    let mut done = Transcript {
        session,
        requests: Vec::new(),
        notices: Vec::new(),
        output: Vec::new(),
        error: None,
    };
    assert(done@.requests =~= Seq::empty() && done@.notices =~= Seq::empty());
    done.note(action);
    assert(all.take(0) =~= Seq::empty());
    for event in it: events
        invariant
            all == event_views(it.seq()),
            done@ == replayed(version, token, tree, all.take(it.index() as int)),
    {
        proof {
            assert(all.take(it.index() + 1).drop_last() =~= all.take(it.index() as int));
            assert(all.take(it.index() + 1).last() == event@);
        }
        let action = done.session.step(event);
        done.note(action);
    }
    assert(all.take(all.len() as int) =~= all);
    done
}

/// What holds of the record of every run, phase by phase: how many requests
/// have gone out, what has been written for git, and whether an error has
/// been reported.
pub open spec fn coherent(record: TranscriptView) -> bool {
    match record.session.phase {
        Phase::Querying => {
            &&& record.requests.len() == 1
            &&& record.notices.len() == 0
            &&& record.output.len() == 0
            &&& record.error is None
        },
        Phase::Watching => {
            &&& record.requests.len() == 2
            &&& record.notices.len() == 1
            &&& record.output.len() == 0
            &&& record.error is None
        },
        Phase::ClockFetching => {
            &&& record.requests.len() == 3
            &&& record.notices.len() == 1
            &&& record.output == dirty_marker()
            &&& record.error is None
        },
        Phase::Success => {
            &&& record.requests.len() == 1
            &&& record.notices.len() == 0
            &&& record.error is None
        },
        Phase::BootstrapSuccess => {
            &&& record.requests.len() == 3
            &&& record.notices.len() == 1
            &&& exists|clock: Seq<char>|
                record.output == dirty_marker() + reply_bytes(#[trigger] bootstrap_reply(clock))
            &&& record.error is None
        },
        Phase::Failed => {
            &&& record.requests.len() <= 3
            &&& record.notices.len() <= 1
            &&& record.output.len() == 0 || record.output == dirty_marker()
            &&& record.error is Some
        },
    }
}

/// One step keeps a record coherent.
proof fn lemma_step_keeps_coherent(before: TranscriptView, event: EventView)
    requires
        coherent(before),
    ensures
        ({
            let (phase, action) = next_step(before.session, event);
            coherent(noted(before, phase, action))
        }),
{
    let (phase, action) = next_step(before.session, event);
    let after = noted(before, phase, action);
    if before.session.phase.is_final() {
        assert(after == before);
    } else if phase is BootstrapSuccess {
        let clock = choose|clock: Seq<char>|
            action == (ActionView::Finish { output: reply_bytes(bootstrap_reply(clock)) });
        assert(after.output == dirty_marker() + reply_bytes(bootstrap_reply(clock)));
    } else {
        assert(Seq::<u8>::empty() + dirty_marker() =~= dirty_marker());
    }
}

/// The record of every run is coherent, whatever the watcher answers and
/// whatever breaks.
pub proof fn lemma_replayed_is_coherent(
    version: u8,
    token: Seq<char>,
    work_tree: Result<Seq<char>, Seq<char>>,
    events: Seq<EventView>,
)
    ensures
        coherent(replayed(version, token, work_tree, events)),
    decreases events.len(),
{
    if events.len() > 0 {
        lemma_replayed_is_coherent(version, token, work_tree, events.drop_last());
        lemma_step_keeps_coherent(
            replayed(version, token, work_tree, events.drop_last()),
            events.last(),
        );
    }
}

/// A run makes at most three round trips to the watcher: the query, and at
/// most a registration and a clock request after it.
pub proof fn lemma_at_most_three_requests(
    version: u8,
    token: Seq<char>,
    work_tree: Result<Seq<char>, Seq<char>>,
    events: Seq<EventView>,
)
    ensures
        replayed(version, token, work_tree, events).requests.len() <= 3,
{
    lemma_replayed_is_coherent(version, token, work_tree, events);
}

/// A run that git starts with a version other than the supported one fails
/// without a single request to the watcher and without output, whatever
/// else it is given.
pub proof fn lemma_unsupported_version_sends_nothing(
    version: u8,
    token: Seq<char>,
    work_tree: Result<Seq<char>, Seq<char>>,
    events: Seq<EventView>,
)
    requires
        version != SUPPORTED_VERSION,
    ensures
        ({
            let record = replayed(version, token, work_tree, events);
            &&& record.session.phase is Failed
            &&& record.requests.len() == 0
            &&& record.notices.len() == 0
            &&& record.output.len() == 0
            &&& record.error == Some(unsupported_version())
        }),
    decreases events.len(),
{
    if events.len() > 0 {
        lemma_unsupported_version_sends_nothing(version, token, work_tree, events.drop_last());
    }
}

/// A run that fails has written nothing for git, or exactly the marker that
/// reports the whole work tree as changed, clock token and path: the marker
/// goes out before the clock is asked for and is not lost when that request
/// fails, and no part of any other answer is ever written before a failure.
pub proof fn lemma_failed_run_wrote_nothing_but_the_marker(
    version: u8,
    token: Seq<char>,
    work_tree: Result<Seq<char>, Seq<char>>,
    events: Seq<EventView>,
)
    requires
        replayed(version, token, work_tree, events).session.phase is Failed,
    ensures
        ({
            let record = replayed(version, token, work_tree, events);
            &&& record.error is Some
            &&& record.output.len() == 0 || record.output == dirty_marker()
            &&& record.requests.len() == 3 ==> record.output == dirty_marker()
        }),
    decreases events.len(),
{
    lemma_replayed_is_coherent(version, token, work_tree, events);
    if events.len() > 0 {
        let before = replayed(version, token, work_tree, events.drop_last());
        lemma_replayed_is_coherent(version, token, work_tree, events.drop_last());
        if before.session.phase is Failed {
            lemma_failed_run_wrote_nothing_but_the_marker(
                version,
                token,
                work_tree,
                events.drop_last(),
            );
        }
    }
}

/// What has been written for git stays written: the output after more events
/// begins with the output before them.
pub proof fn lemma_output_only_grows(
    version: u8,
    token: Seq<char>,
    work_tree: Result<Seq<char>, Seq<char>>,
    events: Seq<EventView>,
    n: int,
)
    requires
        0 <= n <= events.len(),
    ensures
        replayed(version, token, work_tree, events.take(n)).output.is_prefix_of(
            replayed(version, token, work_tree, events).output,
        ),
    decreases events.len() - n,
{
    if n == events.len() {
        assert(events.take(n) =~= events);
    } else {
        lemma_output_only_grows(version, token, work_tree, events, n + 1);
        assert(events.take(n + 1).drop_last() =~= events.take(n));
    }
}

/// Asking twice gives the same answer: two runs that are started alike and
/// meet the same events in the same order send the same requests and write
/// the same bytes.
pub proof fn lemma_same_conversation_same_record(
    first: HookRequest,
    second: HookRequest,
    first_tree: Result<String, String>,
    second_tree: Result<String, String>,
    first_events: Seq<Event>,
    second_events: Seq<Event>,
)
    requires
        first.version == second.version,
        first.token@ == second.token@,
        work_tree_view(first_tree) == work_tree_view(second_tree),
        event_views(first_events) == event_views(second_events),
    ensures
        replayed(
            first.version,
            first.token@,
            work_tree_view(first_tree),
            event_views(first_events),
        ) == replayed(
            second.version,
            second.token@,
            work_tree_view(second_tree),
            event_views(second_events),
        ),
{
}

/// The failure for an error that is not understood quotes both the watcher's
/// words and the token that was asked about.
pub proof fn lemma_unexpected_error_quotes_both(message: Seq<char>, token: Seq<char>)
    ensures
        contains_text(unexpected_error(message, token).message, message),
        contains_text(unexpected_error(message, token).message, token),
{
    let text = unexpected_error(message, token).message;
    let lead = "watcher failed for an unexpected reason "@;
    let middle = " (token: "@;
    let at_message = lead.len() as int;
    let at_token = (lead.len() + message.len() + middle.len()) as int;
    assert(text.subrange(at_message, at_message + message.len()) =~= message);
    assert(occurs_at(text, message, at_message));
    assert(text.subrange(at_token, at_token + token.len()) =~= token);
    assert(occurs_at(text, token, at_token));
}

} // verus!
