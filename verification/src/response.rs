//! The watcher's replies, read from JSON.
//!
//! A reply to a query is an object with either an `error` string, or a
//! `files` array and a `clock` string. An `error` string takes precedence.
//! Elements of `files` that are not strings are passed over. A reply with
//! neither is a violation of the protocol.

use vstd::prelude::*;
use serde_json::Value;
use crate::error::{plain_error, ErrorKind, HookError, HookErrorView};
use crate::json::{as_list, as_text, json_view, json_views, member, JsonData};
use crate::reply::{HookReply, HookReplyView};
use crate::text::texts;

verus! {

/// The watcher's reply to a query.
#[derive(Debug, PartialEq, Eq)]
pub enum WatchResponse {
    /// The watcher reports an error, in its own words.
    Error(String),
    /// The watcher's clock and the files that changed.
    Changes(HookReply),
}

/// The mathematical content of a [`WatchResponse`].
pub enum WatchResponseView {
    Error(Seq<char>),
    Changes(HookReplyView),
}

impl View for WatchResponse {
    type V = WatchResponseView;

    open spec fn view(&self) -> WatchResponseView {
        match self {
            WatchResponse::Error(message) => WatchResponseView::Error(message@),
            WatchResponse::Changes(reply) => WatchResponseView::Changes(reply@),
        }
    }
}

/// The strings among `items`, in their order.
pub open spec fn text_items(items: Seq<JsonData>) -> Seq<Seq<char>>
    decreases items.len(),
{
    if items.len() == 0 {
        Seq::empty()
    } else {
        match items.last() {
            JsonData::Text(s) => text_items(items.drop_last()).push(s),
            _ => text_items(items.drop_last()),
        }
    }
}

/// The string under `key`, or the empty string when there is none.
pub open spec fn text_or_empty(content: JsonData, key: Seq<char>) -> Seq<char> {
    match content.member(key) {
        JsonData::Text(s) => s,
        _ => Seq::empty(),
    }
}

/// The failure of a reply that has neither an error nor files.
pub open spec fn missing_file_data() -> HookErrorView {
    plain_error(ErrorKind::ProtocolViolation, "missing file data"@)
}

/// The failure of a reply to a clock request that has no clock.
pub open spec fn missing_clock() -> HookErrorView {
    plain_error(ErrorKind::ClockFetchFailure, "failed to call watcher clock"@)
}

/// What a reply to a query says.
pub open spec fn query_response(content: JsonData) -> Result<WatchResponseView, HookErrorView> {
    match content.member("error"@) {
        JsonData::Text(message) => Ok(WatchResponseView::Error(message)),
        _ => match content.member("files"@) {
            JsonData::List(items) => Ok(
                WatchResponseView::Changes(
                    HookReplyView {
                        clock: text_or_empty(content, "clock"@),
                        files: text_items(items),
                    },
                ),
            ),
            _ => Err(missing_file_data()),
        },
    }
}

/// What a reply to a clock request says: the clock id.
pub open spec fn clock_response(content: JsonData) -> Result<Seq<char>, HookErrorView> {
    match content.member("clock"@) {
        JsonData::Text(clock) => Ok(clock),
        _ => Err(missing_clock()),
    }
}

/// Collects the strings among `items`, in their order.
fn collect_texts(items: &Vec<Value>) -> (out: Vec<String>)
    ensures
        texts(out@) == text_items(json_views(items@)),
{
    let ghost all = json_views(items@);
    let mut out: Vec<String> = Vec::new();
    let mut i: usize = 0;
    assert(texts(out@) =~= text_items(all.take(0)));
    while i < items.len()
        invariant
            i <= items@.len(),
            all == json_views(items@),
            texts(out@) == text_items(all.take(i as int)),
        decreases items@.len() - i,
    {
        let ghost before = out@;
        proof {
            assert(all.take(i + 1).drop_last() =~= all.take(i as int));
            assert(all.take(i + 1).last() == json_view(items@[i as int]));
        }
        match as_text(&items[i]) {
            Some(name) => {
                out.push(name.to_owned());
                assert(texts(out@) =~= texts(before).push(name@));
            },
            None => {},
        }
        i += 1;
    }
    assert(all.take(i as int) =~= all);
    out
}

/// Reads the watcher's reply to a query.
pub fn read_query_response(reply: &Value) -> (response: Result<WatchResponse, HookError>)
    ensures
        match response {
            Ok(r) => query_response(json_view(*reply)) == Ok::<WatchResponseView, HookErrorView>(
                r@,
            ),
            Err(e) => query_response(json_view(*reply)) == Err::<WatchResponseView, HookErrorView>(
                e@,
            ),
        },
{
    if let Some(message) = as_text(member(reply, "error")) {
        return Ok(WatchResponse::Error(message.to_owned()));
    }
    match as_list(member(reply, "files")) {
        Some(items) => {
            let clock = match as_text(member(reply, "clock")) {
                Some(clock) => clock.to_owned(),
                None => String::new(),
            };
            let files = collect_texts(items);
            Ok(WatchResponse::Changes(HookReply { clock, files }))
        },
        None => Err(
            HookError::new(ErrorKind::ProtocolViolation, "missing file data".to_owned()),
        ),
    }
}

/// Reads the watcher's reply to a clock request.
pub fn read_clock_response(reply: &Value) -> (clock: Result<String, HookError>)
    ensures
        match clock {
            Ok(id) => clock_response(json_view(*reply)) == Ok::<Seq<char>, HookErrorView>(id@),
            Err(e) => clock_response(json_view(*reply)) == Err::<Seq<char>, HookErrorView>(e@),
        },
{
    match as_text(member(reply, "clock")) {
        Some(clock) => Ok(clock.to_owned()),
        None => Err(
            HookError::new(
                ErrorKind::ClockFetchFailure,
                "failed to call watcher clock".to_owned(),
            ),
        ),
    }
}

} // verus!
