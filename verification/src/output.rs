//! Output pump step: turn one raw chunk read from the child into the live
//! output event and the transcript update.
//!
//! The live event carries the exact bytes, transport-encoded as base64; the
//! transcript receives an ANSI-stripped, UTF-8 projection, bounded by the
//! transcript cap. Bytes are only ever dropped from the transcript, never
//! from the live stream.

use vstd::prelude::*;

verus! {

use crate::transcript::{spec_appended, Transcript};

/// The bytes of `bytes` with ANSI escape sequences removed.
pub uninterp spec fn ansi_stripped(bytes: Seq<u8>) -> Seq<u8>;

/// The base64 encoding (standard alphabet, padded) of `bytes`.
pub uninterp spec fn base64_of(bytes: Seq<u8>) -> Seq<char>;

/// Relies on strip_ansi_escapes::strip: removal of ANSI escape sequences is
/// a function of the input bytes alone.
#[verifier::external_body]
fn strip_ansi(chunk: &[u8]) -> (r: Vec<u8>)
    ensures
        r@ == ansi_stripped(chunk@),
{
    strip_ansi_escapes::strip(chunk)
}

/// Relies on the base64 crate's STANDARD engine: the encoding is a function
/// of the input bytes alone. The engine panics when the encoded size
/// overflows `usize`, so the input length is kept far below that.
#[verifier::external_body]
fn encode_base64(chunk: &[u8]) -> (r: String)
    requires
        chunk@.len() <= 0x1000_0000,
    ensures
        r@ == base64_of(chunk@),
{
    base64::Engine::encode(&base64::engine::general_purpose::STANDARD, chunk)
}

/// A live output event: one chunk of a running script's output, in arrival
/// order, base64-encoded for transport.
#[derive(Debug)]
pub struct ScriptOutputEvent {
    pub script_id: i64,
    pub data: String,
}

/// Process one chunk read from the child: emit it byte-for-byte (base64
/// encoded) as a live event for `script_id`, and append its ANSI-stripped
/// UTF-8 projection to the transcript, within the transcript's cap.
pub fn process_chunk(script_id: i64, chunk: &[u8], transcript: &mut Transcript) -> (ev:
    ScriptOutputEvent)
    requires
        old(transcript).wf(),
        chunk@.len() <= 0x1000_0000,
    ensures
        final(transcript).wf(),
        final(transcript)@ == spec_appended(old(transcript)@, ansi_stripped(chunk@)),
        ev.script_id == script_id,
        ev.data@ == base64_of(chunk@),
{
    let data = encode_base64(chunk);
    let stripped = strip_ansi(chunk);
    transcript.append_chunk(stripped.as_slice());
    ScriptOutputEvent { script_id, data }
}

} // verus!
