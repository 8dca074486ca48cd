//! What comes back from one round trip to the watcher: bytes that must be
//! UTF-8 text holding a single JSON value.

use vstd::prelude::*;
use vstd::utf8::{decode_utf8, encode_utf8, encode_utf8_decode_utf8, valid_utf8};
use serde_json::Value;
use std::string::FromUtf8Error;
use crate::error::{caused_error, plain_error, ErrorKind, HookError, HookErrorView};
use crate::json::{error_text, json_parse, json_view, parse_value, JsonData};

verus! {

/// `std::string::FromUtf8Error`, carried as an opaque value: only its
/// message is read, through [`utf8_error_text`].
#[verifier::external_type_specification]
#[verifier::external_body]
pub struct ExFromUtf8Error(FromUtf8Error);

/// The message that a `FromUtf8Error` displays.
pub uninterp spec fn utf8_error_text(e: FromUtf8Error) -> Seq<char>;

/// The message with which `String::from_utf8` turns down bytes that are not
/// UTF-8.
pub uninterp spec fn invalid_utf8_text(bytes: Seq<u8>) -> Seq<char>;

/// `String::from_utf8`: succeeds exactly on valid UTF-8, and the string then
/// consists of the given bytes; otherwise the error's message is a function
/// of the bytes.
#[verifier::external_body]
pub(crate) fn string_from_utf8(bytes: Vec<u8>) -> (r: Result<String, FromUtf8Error>)
    ensures
        match r {
            Ok(s) => valid_utf8(bytes@) && encode_utf8(s@) == bytes@,
            Err(e) => !valid_utf8(bytes@) && utf8_error_text(e) == invalid_utf8_text(bytes@),
        },
{
    String::from_utf8(bytes)
}

/// `FromUtf8Error`'s `to_string`: the message that the error displays.
#[verifier::external_body]
pub(crate) fn utf8_error_message(e: &FromUtf8Error) -> (r: String)
    ensures
        r@ == utf8_error_text(*e),
{
    e.to_string()
}

/// The message for output that is not text.
pub open spec fn not_text_message() -> Seq<char> {
    "watcher didn't return valid JSON"@
}

/// What the watcher's output holds: the content of the JSON value that it
/// spells, or the failure to read it. Output that is not UTF-8 fails with the
/// decoder's message as its cause; text that is not JSON fails with the
/// parser's message as it stands.
pub open spec fn output_content(output: Seq<u8>) -> Result<JsonData, HookErrorView> {
    if !valid_utf8(output) {
        Err(
            caused_error(
                ErrorKind::TransportFailure,
                not_text_message(),
                invalid_utf8_text(output),
            ),
        )
    } else {
        match json_parse(decode_utf8(output)) {
            Ok(content) => Ok(content),
            Err(message) => Err(plain_error(ErrorKind::TransportFailure, message)),
        }
    }
}

/// Reads a text that should hold one JSON value.
pub fn parse_text(text: &str) -> (parsed: Result<Value, HookError>)
    ensures
        match parsed {
            Ok(v) => json_parse(text@) == Ok::<JsonData, Seq<char>>(json_view(v)),
            Err(e) => json_parse(text@) is Err && e@ == plain_error(
                ErrorKind::TransportFailure,
                json_parse(text@)->Err_0,
            ),
        },
{
    match parse_value(text) {
        Ok(v) => Ok(v),
        Err(e) => Err(HookError::new(ErrorKind::TransportFailure, error_text(&e))),
    }
}

/// Reads the bytes that the watcher wrote as one JSON value.
pub fn parse_output(output: Vec<u8>) -> (parsed: Result<Value, HookError>)
    ensures
        match parsed {
            Ok(v) => output_content(output@) == Ok::<JsonData, HookErrorView>(json_view(v)),
            Err(e) => output_content(output@) == Err::<JsonData, HookErrorView>(e@),
        },
{
    match string_from_utf8(output) {
        Ok(text) => {
            proof {
                encode_utf8_decode_utf8(text@);
            }
            parse_text(text.as_str())
        },
        Err(e) => Err(
            HookError::with_cause(
                ErrorKind::TransportFailure,
                "watcher didn't return valid JSON".to_owned(),
                utf8_error_message(&e),
            ),
        ),
    }
}

} // verus!
