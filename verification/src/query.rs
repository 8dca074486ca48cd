//! The requests that the hook sends to the watcher.
//!
//! Each request is a JSON array whose first element names the command and
//! whose second is the work-tree root. The query carries a third element with
//! its options: since when, which fields of each changed file to report, and
//! which files to leave out.

use vstd::prelude::*;
use serde_json::Value;
use crate::json::{
    distinct_keys, json_render, json_view, json_views, list_value, members_of, number_value,
    object_value, render, text_value, JsonData, JsonNumber,
};
use crate::token::{clockspec, clockspec_of, Clockspec, ClockspecView};

verus! {

/// The JSON value that stands for a clockspec: a clock id is a string, a
/// timestamp a number of seconds.
pub open spec fn since_value(since: ClockspecView) -> JsonData {
    match since {
        ClockspecView::ClockId(id) => JsonData::Text(id),
        ClockspecView::Epoch(seconds) => JsonData::Number(JsonNumber::Unsigned(seconds)),
    }
}

/// The fields asked of each changed file: its name only.
pub open spec fn requested_fields() -> JsonData {
    JsonData::List(seq![JsonData::Text("name"@)])
}

/// The expression that leaves out what lies in the version-control metadata
/// directory.
pub open spec fn path_filter() -> JsonData {
    JsonData::List(
        seq![
            JsonData::Text("not"@),
            JsonData::List(seq![JsonData::Text("dirname"@), JsonData::Text(".git"@)]),
        ],
    )
}

/// The options of a query.
pub open spec fn query_options(since: ClockspecView) -> Map<Seq<char>, JsonData> {
    Map::empty().insert("since"@, since_value(since)).insert("fields"@, requested_fields()).insert(
        "expression"@,
        path_filter(),
    )
}

/// The request for what changed under `root` since `since`.
pub open spec fn query_request(root: Seq<char>, since: ClockspecView) -> JsonData {
    JsonData::List(
        seq![
            JsonData::Text("query"@),
            JsonData::Text(root),
            JsonData::Object(query_options(since)),
        ],
    )
}

/// The request that names a command and the root it applies to.
pub open spec fn command_request(command: Seq<char>, root: Seq<char>) -> JsonData {
    JsonData::List(seq![JsonData::Text(command), JsonData::Text(root)])
}

/// The request to start watching `root`.
pub open spec fn watch_request(root: Seq<char>) -> JsonData {
    command_request("watch"@, root)
}

/// The request for the watcher's current clock for `root`.
pub open spec fn clock_request(root: Seq<char>) -> JsonData {
    command_request("clock"@, root)
}

/// The JSON value of a clockspec.
fn since_json(since: &Clockspec) -> (v: Value)
    ensures
        json_view(v) == since_value(since@),
{
    match since {
        Clockspec::ClockId(id) => text_value(id.as_str()),
        Clockspec::Epoch(seconds) => number_value(*seconds),
    }
}

/// The JSON value of the requested fields.
fn fields_json() -> (v: Value)
    ensures
        json_view(v) == requested_fields(),
{
    let mut names: Vec<Value> = Vec::new();
    names.push(text_value("name"));
    assert(json_views(names@) =~= seq![JsonData::Text("name"@)]);
    list_value(names)
}

/// The JSON value of the path filter.
fn filter_json() -> (v: Value)
    ensures
        json_view(v) == path_filter(),
{
    let mut inner: Vec<Value> = Vec::new();
    inner.push(text_value("dirname"));
    inner.push(text_value(".git"));
    assert(json_views(inner@) =~= seq![JsonData::Text("dirname"@), JsonData::Text(".git"@)]);
    let mut outer: Vec<Value> = Vec::new();
    outer.push(text_value("not"));
    outer.push(list_value(inner));
    assert(json_views(outer@) =~= seq![
        JsonData::Text("not"@),
        JsonData::List(seq![JsonData::Text("dirname"@), JsonData::Text(".git"@)]),
    ]);
    list_value(outer)
}

/// Builds the query for what changed under `git_work_tree` since the point
/// that `token` stands for.
pub fn get_watchman_query(git_work_tree: &str, token: &str) -> (query: Value)
    ensures
        json_view(query) == query_request(git_work_tree@, clockspec_of(token@)),
{
    let since = clockspec(token);
    let mut options: Vec<(String, Value)> = Vec::new();
    options.push(("since".to_owned(), since_json(&since)));
    options.push(("fields".to_owned(), fields_json()));
    options.push(("expression".to_owned(), filter_json()));
    proof {
        reveal_strlit("since");
        reveal_strlit("fields");
        reveal_strlit("expression");
        let all = options@;
        assert(all[0].0@.len() == 5 && all[1].0@.len() == 6 && all[2].0@.len() == 10);
        assert(distinct_keys(all));
        assert(all.drop_last().drop_last().drop_last() =~= Seq::empty());
        reveal_with_fuel(members_of, 4);
        assert(members_of(all) =~= query_options(since@));
    }
    let mut parts: Vec<Value> = Vec::new();
    parts.push(text_value("query"));
    parts.push(text_value(git_work_tree));
    parts.push(object_value(options));
    assert(json_views(parts@) =~= seq![
        JsonData::Text("query"@),
        JsonData::Text(git_work_tree@),
        JsonData::Object(query_options(since@)),
    ]);
    list_value(parts)
}

/// Builds the request that names `command` and the root it applies to.
fn command_json(command: &str, root: &str) -> (request: Value)
    ensures
        json_view(request) == command_request(command@, root@),
{
    let mut parts: Vec<Value> = Vec::new();
    parts.push(text_value(command));
    parts.push(text_value(root));
    assert(json_views(parts@) =~= seq![JsonData::Text(command@), JsonData::Text(root@)]);
    list_value(parts)
}

/// The text of the query that is sent to the watcher.
pub fn query_text(git_work_tree: &str, token: &str) -> (text: String)
    ensures
        text@ == json_render(query_request(git_work_tree@, clockspec_of(token@))),
{
    let query = get_watchman_query(git_work_tree, token);
    render(&query)
}

/// The text of the request to start watching `root`.
pub fn watch_text(root: &str) -> (text: String)
    ensures
        text@ == json_render(watch_request(root@)),
{
    let request = command_json("watch", root);
    render(&request)
}

/// The text of the request for the watcher's clock for `root`.
pub fn clock_text(root: &str) -> (text: String)
    ensures
        text@ == json_render(clock_request(root@)),
{
    let request = command_json("clock", root);
    render(&request)
}

} // verus!
