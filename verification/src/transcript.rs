//! Bounded, sanitized capture of a run's output.
//!
//! The transcript accumulates the UTF-8 text of the output chunks, capped at
//! a fixed byte size. Once the cap is reached further bytes are dropped from
//! the transcript only. Truncation at the cap always falls on a character
//! boundary: an incomplete trailing multi-byte sequence is discarded rather
//! than corrupting the decoded text.

use vstd::prelude::*;

verus! {

use vstd::string::StringSliceAdditionalSpecFns;
use vstd::utf8::{
    encode_utf8,
    is_char_boundary,
    is_char_boundary_start_end_of_seq,
    valid_utf8,
    valid_utf8_concat,
    valid_utf8_split,
};

/// Cap on the transcript size, in bytes.
pub const MAX_TRANSCRIPT_BYTES: usize = 51200;

/// The largest prefix length of `bytes` that fits in `room` bytes and ends
/// on a character boundary.
pub open spec fn boundary_fit(bytes: Seq<u8>, room: int) -> int
    decreases room,
{
    if room <= 0 {
        0
    } else if room >= bytes.len() {
        bytes.len() as int
    } else if is_char_boundary(bytes, room) {
        room
    } else {
        boundary_fit(bytes, room - 1)
    }
}

/// The transcript after appending `chunk` to `t`: the largest prefix of
/// `chunk` that keeps the transcript within its cap and ends on a character
/// boundary. A chunk that is not valid UTF-8 is dropped entirely.
pub open spec fn spec_appended(t: Seq<u8>, chunk: Seq<u8>) -> Seq<u8> {
    if valid_utf8(chunk) {
        t + chunk.subrange(
            0,
            boundary_fit(chunk, MAX_TRANSCRIPT_BYTES as int - t.len() as int),
        )
    } else {
        t
    }
}

/// Relies on std::str::from_utf8: it succeeds exactly on UTF-8 input and
/// returns a string of the same bytes.
#[verifier::external_body]
fn utf8_check(bytes: &[u8]) -> (r: Option<&str>)
    ensures
        match r {
            Some(s) => valid_utf8(bytes@) && s.spec_bytes() == bytes@,
            None => !valid_utf8(bytes@),
        },
{
    std::str::from_utf8(bytes).ok()
}

/// Relies on String::from_utf8: on UTF-8 input it returns a string of the
/// same bytes.
#[verifier::external_body]
fn utf8_string(bytes: &Vec<u8>) -> (r: String)
    requires
        valid_utf8(bytes@),
    ensures
        encode_utf8(r@) == bytes@,
{
    String::from_utf8(bytes.clone()).unwrap_or_default()
}

/// The bounded transcript text, stored as UTF-8 bytes.
pub struct Transcript {
    buf: Vec<u8>,
}

impl View for Transcript {
    type V = Seq<u8>;

    closed spec fn view(&self) -> Seq<u8> {
        self.buf@
    }
}

impl Transcript {
    /// The transcript never exceeds its cap and is always valid UTF-8.
    pub open spec fn wf(&self) -> bool {
        &&& self@.len() <= MAX_TRANSCRIPT_BYTES
        &&& valid_utf8(self@)
    }

    pub fn new() -> (r: Self)
        ensures
            r@ == Seq::<u8>::empty(),
            r.wf(),
    {
        Transcript { buf: Vec::new() }
    }

    /// Current size of the transcript in bytes.
    pub fn byte_len(&self) -> (r: usize)
        ensures
            r == self@.len(),
    {
        self.buf.len()
    }

    /// Append an (already sanitized) output chunk, keeping the transcript
    /// within its cap and on a character boundary.
    #[verifier::loop_isolation(false)]
    pub fn append_chunk(&mut self, chunk: &[u8])
        requires
            old(self).wf(),
        ensures
            final(self).wf(),
            final(self)@ == spec_appended(old(self)@, chunk@),
    {
        let room = MAX_TRANSCRIPT_BYTES - self.buf.len();
        let s = match utf8_check(chunk) {
            Some(s) => s,
            None => {
                return ;
            },
        };
        let len = chunk.len();
        let mut n: usize = if len <= room {
            len
        } else {
            room
        };
        proof {
            is_char_boundary_start_end_of_seq(chunk@);
            assert(boundary_fit(chunk@, room as int) == boundary_fit(chunk@, n as int));
        }
        while !s.is_char_boundary(n)
            invariant
                n <= len,
                n <= room,
                boundary_fit(chunk@, room as int) == boundary_fit(chunk@, n as int),
            decreases n,
        {
            proof {
                assert(n != 0 && n != len);
            }
            n = n - 1;
        }
        proof {
            assert(boundary_fit(chunk@, room as int) == n as int);
            valid_utf8_split(chunk@, n as int);
            valid_utf8_concat(self@, chunk@.subrange(0, n as int));
        }
        let mut j: usize = 0;
        while j < n
            invariant
                j <= n,
                self@ == old(self)@ + chunk@.subrange(0, j as int),
            decreases n - j,
        {
            self.buf.push(chunk[j]);
            proof {
                assert(chunk@.subrange(0, j as int + 1) =~= chunk@.subrange(0, j as int).push(
                    chunk@[j as int],
                ));
                assert(self@ =~= old(self)@ + chunk@.subrange(0, j as int + 1));
            }
            j = j + 1;
        }
    }

    /// The transcript as text.
    pub fn text(&self) -> (r: String)
        requires
            self.wf(),
        ensures
            encode_utf8(r@) == self@,
    {
        utf8_string(&self.buf)
    }
}

/// The transcript law: at every state it is within its cap and decodes as
/// UTF-8, so it never holds a truncated multi-byte fragment.
pub proof fn lemma_transcript_bounded(t: &Transcript)
    requires
        t.wf(),
    ensures
        t@.len() <= MAX_TRANSCRIPT_BYTES,
        valid_utf8(t@),
{
}

} // verus!
