//! The token that git hands to the hook, read as a clockspec for the watcher.
//!
//! A token that begins with `c` is a clock id that the watcher issued earlier
//! and is passed back unchanged. Any other token is a decimal count of
//! nanoseconds since the epoch, cut down to whole seconds; a token that is no
//! such number stands for the epoch itself.

use vstd::prelude::*;
use crate::text::chars_of;

verus! {

/// Nanoseconds in a second.
pub const NANOS_PER_SECOND: u64 = 1_000_000_000;

/// A point in time from which the watcher reports changes.
#[derive(Debug, PartialEq, Eq)]
pub enum Clockspec {
    /// A clock id issued by the watcher.
    ClockId(String),
    /// Whole seconds since the epoch.
    Epoch(u64),
}

/// The mathematical content of a [`Clockspec`].
pub enum ClockspecView {
    ClockId(Seq<char>),
    Epoch(u64),
}

impl View for Clockspec {
    type V = ClockspecView;

    open spec fn view(&self) -> ClockspecView {
        match self {
            Clockspec::ClockId(id) => ClockspecView::ClockId(id@),
            Clockspec::Epoch(seconds) => ClockspecView::Epoch(*seconds),
        }
    }
}

/// Whether `c` is one of the ten decimal digits.
pub open spec fn is_digit(c: char) -> bool {
    '0' <= c <= '9'
}

/// The number that a decimal digit stands for.
pub open spec fn digit_value(c: char) -> nat {
    (c as u32 - '0' as u32) as nat
}

/// Whether every character of `s` is a decimal digit.
pub open spec fn all_digits(s: Seq<char>) -> bool {
    forall|i: int| 0 <= i < s.len() ==> is_digit(#[trigger] s[i])
}

/// The number written by a sequence of decimal digits, the most significant
/// first. The empty sequence writes zero.
pub open spec fn decimal_value(digits: Seq<char>) -> nat
    decreases digits.len(),
{
    if digits.len() == 0 {
        0
    } else {
        10 * decimal_value(digits.drop_last()) + digit_value(digits.last())
    }
}

/// The digits of a number text: what follows one optional leading `+`.
pub open spec fn digits_of(s: Seq<char>) -> Seq<char> {
    if s.len() > 0 && s[0] == '+' {
        s.subrange(1, s.len() as int)
    } else {
        s
    }
}

/// The unsigned 64-bit number that `s` writes in decimal: an optional `+`,
/// then at least one digit and nothing else, with a value that fits. `None`
/// for every other text.
pub open spec fn parse_u64(s: Seq<char>) -> Option<u64> {
    let digits = digits_of(s);
    if digits.len() > 0 && all_digits(digits) && decimal_value(digits) <= u64::MAX {
        Some(decimal_value(digits) as u64)
    } else {
        None
    }
}

/// Whether a token is a clock id: its first character is `c`.
pub open spec fn is_clock_id(token: Seq<char>) -> bool {
    token.len() > 0 && token[0] == 'c'
}

/// The whole seconds that a timestamp token stands for: its nanoseconds
/// divided by a billion and truncated, and zero when it is no number.
pub open spec fn epoch_seconds(token: Seq<char>) -> u64 {
    match parse_u64(token) {
        Some(nanos) => nanos / NANOS_PER_SECOND,
        None => 0,
    }
}

/// The clockspec that a token stands for.
pub open spec fn clockspec_of(token: Seq<char>) -> ClockspecView {
    if is_clock_id(token) {
        ClockspecView::ClockId(token)
    } else {
        ClockspecView::Epoch(epoch_seconds(token))
    }
}

/// The character that writes a digit below ten.
pub open spec fn digit_char(d: nat) -> char {
    seq!['0', '1', '2', '3', '4', '5', '6', '7', '8', '9'][d as int]
}

/// The usual decimal writing of a number: no sign, no leading zero but for
/// zero itself.
pub open spec fn decimal_text(n: nat) -> Seq<char>
    decreases n,
{
    if n < 10 {
        seq![digit_char(n)]
    } else {
        decimal_text(n / 10).push(digit_char(n % 10))
    }
}

/// The decimal writing of a number is made of digits and writes that number.
pub proof fn lemma_decimal_text_reads_back(n: nat)
    ensures
        decimal_text(n).len() > 0,
        all_digits(decimal_text(n)),
        decimal_value(decimal_text(n)) == n,
    decreases n,
{
    let text = decimal_text(n);
    if n < 10 {
        assert(text.drop_last() =~= Seq::<char>::empty());
        assert(decimal_value(text.drop_last()) == 0);
        assert(text.last() == digit_char(n));
    } else {
        lemma_decimal_text_reads_back(n / 10);
        assert(text.drop_last() =~= decimal_text(n / 10));
        assert(text.last() == digit_char(n % 10));
        assert forall|i: int| 0 <= i < text.len() implies is_digit(#[trigger] text[i]) by {
            if i < text.len() - 1 {
                assert(text[i] == decimal_text(n / 10)[i]);
            }
        }
    }
}

/// A timestamp token stands for its whole seconds: the token that writes `t`
/// nanoseconds in decimal is read as `t` divided by a billion, rounded down.
pub proof fn lemma_timestamp_token(t: u64)
    ensures
        !is_clock_id(decimal_text(t as nat)),
        parse_u64(decimal_text(t as nat)) == Some(t),
        clockspec_of(decimal_text(t as nat)) == ClockspecView::Epoch(t / NANOS_PER_SECOND),
{
    let text = decimal_text(t as nat);
    lemma_decimal_text_reads_back(t as nat);
    assert(is_digit(text[0]));
    assert(digits_of(text) == text);
}

/// A number never shrinks when more digits follow it.
proof fn lemma_decimal_value_grows(digits: Seq<char>, n: int)
    requires
        0 <= n <= digits.len(),
    ensures
        decimal_value(digits.take(n)) <= decimal_value(digits),
    decreases digits.len() - n,
{
    if n == digits.len() {
        assert(digits.take(n) =~= digits);
    } else {
        lemma_decimal_value_grows(digits, n + 1);
        assert(digits.take(n + 1).drop_last() =~= digits.take(n));
    }
}

/// Reads the digits of `chars` from position `start` on as a decimal number.
fn parse_digits(chars: &Vec<char>, start: usize) -> (value: Option<u64>)
    requires
        start <= chars@.len(),
    ensures
        ({
            let digits = chars@.subrange(start as int, chars@.len() as int);
            value == if digits.len() > 0 && all_digits(digits) && decimal_value(digits)
                <= u64::MAX {
                Some(decimal_value(digits) as u64)
            } else {
                None::<u64>
            }
        }),
{
    let ghost digits = chars@.subrange(start as int, chars@.len() as int);
    if start == chars.len() {
        return None;
    }
    let mut value: u64 = 0;
    let mut i: usize = start;
    while i < chars.len()
        invariant
            start <= i <= chars@.len(),
            digits == chars@.subrange(start as int, chars@.len() as int),
            all_digits(digits.take(i - start)),
            value == decimal_value(digits.take(i - start)),
        decreases chars@.len() - i,
    {
        let c = chars[i];
        let ghost seen = digits.take(i - start + 1);
        proof {
            assert(seen.drop_last() =~= digits.take(i - start));
            assert(seen.last() == c);
        }
        if c < '0' || c > '9' {
            assert(!is_digit(digits[i - start]));
            return None;
        }
        let d: u64 = (c as u32 - '0' as u32) as u64;
        proof {
            lemma_decimal_value_grows(digits, i - start + 1);
        }
        if value > (u64::MAX - d) / 10 {
            return None;
        }
        value = 10 * value + d;
        i += 1;
    }
    assert(digits.take(i - start) =~= digits);
    Some(value)
}

/// Interprets the token that git passed: a clock id is kept verbatim, a
/// timestamp in nanoseconds becomes whole seconds, and anything else becomes
/// the epoch.
pub fn clockspec(token: &str) -> (since: Clockspec)
    ensures
        since@ == clockspec_of(token@),
        is_clock_id(token@) ==> since@ == ClockspecView::ClockId(token@),
        !is_clock_id(token@) ==> match parse_u64(token@) {
            Some(nanos) => since@ == ClockspecView::Epoch(nanos / NANOS_PER_SECOND),
            None => since@ == ClockspecView::Epoch(0),
        },
{
    let chars = chars_of(token);
    if chars.len() > 0 && chars[0] == 'c' {
        return Clockspec::ClockId(token.to_owned());
    }
    let start: usize = if chars.len() > 0 && chars[0] == '+' {
        1
    } else {
        0
    };
    assert(chars@.subrange(start as int, chars@.len() as int) =~= digits_of(token@));
    let nanos = match parse_digits(&chars, start) {
        Some(n) => n,
        None => 0,
    };
    Clockspec::Epoch(nanos / NANOS_PER_SECOND)
}

} // verus!
