//! The protocol logic of a git `fsmonitor` hook that answers from a
//! file-watching daemon.
//!
//! Git hands the hook a protocol version and a token; the hook asks the
//! watcher what changed since that token and answers with a clock token and
//! the changed paths, each followed by a NUL byte. Everything here is a
//! function of plain values: the surrounding program runs the watcher and
//! writes the answer.

pub mod json;
pub mod text;
pub mod token;
pub mod error;
pub mod reply;
pub mod query;
pub mod transport;
pub mod response;
pub mod protocol;
pub mod replay;
