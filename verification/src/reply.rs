//! The answer that git reads from the hook's standard output.
//!
//! The wire format is a run of records, each ended by a NUL byte: first the
//! clock token, then every changed path in the order in which the watcher
//! reported it. There is no other separator and no line break.

use vstd::prelude::*;
use vstd::utf8::encode_utf8;
use crate::text::texts;

verus! {

/// The clock token and the changed paths of one answer.
#[derive(Debug, PartialEq, Eq)]
pub struct HookReply {
    pub clock: String,
    /// The changed paths, in the order received: neither sorted nor
    /// deduplicated.
    pub files: Vec<String>,
}

/// The mathematical content of a [`HookReply`].
pub struct HookReplyView {
    pub clock: Seq<char>,
    pub files: Seq<Seq<char>>,
}

impl View for HookReply {
    type V = HookReplyView;

    open spec fn view(&self) -> HookReplyView {
        HookReplyView { clock: self.clock@, files: texts(self.files@) }
    }
}

/// One record on the wire: the UTF-8 bytes of a text and a NUL byte.
pub open spec fn record(text: Seq<char>) -> Seq<u8> {
    encode_utf8(text).push(0u8)
}

/// The records of a sequence of texts, one after the other.
pub open spec fn records(items: Seq<Seq<char>>) -> Seq<u8>
    decreases items.len(),
{
    if items.len() == 0 {
        Seq::empty()
    } else {
        records(items.drop_last()) + record(items.last())
    }
}

/// The bytes of an answer: the clock's record, then the paths' records.
pub open spec fn reply_bytes(reply: HookReplyView) -> Seq<u8> {
    record(reply.clock) + records(reply.files)
}

/// Appends the record of `text` to `out`.
pub fn push_record(out: &mut Vec<u8>, text: &str)
    ensures
        final(out)@ == old(out)@ + record(text@),
{
    let ghost before = out@;
    out.extend_from_slice(text.as_bytes());
    assert(out@ =~= before + encode_utf8(text@));
    out.push(0u8);
    assert(out@ =~= before + record(text@));
}

impl HookReply {
    /// Serializes the answer for git.
    pub fn encode(&self) -> (out: Vec<u8>)
        ensures
            out@ == reply_bytes(self@),
    {
        let mut out: Vec<u8> = Vec::new();
        push_record(&mut out, self.clock.as_str());
        let ghost files = self@.files;
        let mut i: usize = 0;
        while i < self.files.len()
            invariant
                i <= self.files@.len(),
                files == texts(self.files@),
                out@ == record(self.clock@) + records(files.take(i as int)),
            decreases self.files@.len() - i,
        {
            proof {
                assert(files.take(i + 1).drop_last() =~= files.take(i as int));
                assert(files.take(i + 1).last() == self.files@[i as int]@);
            }
            push_record(&mut out, self.files[i].as_str());
            i += 1;
        }
        assert(files.take(i as int) =~= files);
        out
    }
}

} // verus!
