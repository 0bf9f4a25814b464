//! Transcript and output pump behavior: the live stream carries exact bytes,
//! the transcript is ANSI-stripped, capped, and never cut inside a
//! multi-byte character.

use base64::Engine;
use conduit::output::process_chunk;
use conduit::transcript::{Transcript, MAX_TRANSCRIPT_BYTES};

#[test]
fn live_event_carries_exact_bytes_even_with_escapes() {
    let mut transcript = Transcript::new();
    let raw = b"\x1b[31mred\x1b[0m\n";
    let ev = process_chunk(1, raw, &mut transcript);
    let decoded = base64::engine::general_purpose::STANDARD
        .decode(ev.data.as_bytes())
        .unwrap();
    assert_eq!(decoded, raw);
}

#[test]
fn transcript_is_ansi_stripped() {
    let mut transcript = Transcript::new();
    process_chunk(1, b"\x1b[31mred\x1b[0m plain", &mut transcript);
    assert_eq!(transcript.text(), "red plain");
}

#[test]
fn base64_encoding_is_not_the_identity() {
    let mut transcript = Transcript::new();
    let ev = process_chunk(1, b"hello", &mut transcript);
    assert_ne!(ev.data.as_bytes(), b"hello");
    assert_eq!(ev.data, "aGVsbG8=");
}

#[test]
fn transcript_caps_at_fifty_kib() {
    let mut transcript = Transcript::new();
    let chunk = [b'a'; 4096];
    for _ in 0..20 {
        transcript.append_chunk(&chunk);
    }
    assert_eq!(transcript.byte_len(), MAX_TRANSCRIPT_BYTES);
    assert_eq!(MAX_TRANSCRIPT_BYTES, 50 * 1024);
    // Further output is dropped from the transcript only.
    transcript.append_chunk(b"more");
    assert_eq!(transcript.byte_len(), MAX_TRANSCRIPT_BYTES);
    assert_eq!(transcript.text().len(), MAX_TRANSCRIPT_BYTES);
}

#[test]
fn truncation_never_splits_a_multibyte_character() {
    let mut transcript = Transcript::new();
    // Fill to one byte below the cap.
    let chunk = [b'a'; 4096];
    for _ in 0..12 {
        transcript.append_chunk(&chunk);
    }
    transcript.append_chunk(&[b'a'; 2047]);
    assert_eq!(transcript.byte_len(), MAX_TRANSCRIPT_BYTES - 1);

    // A two-byte character does not fit in one byte of room: it is
    // discarded whole rather than truncated mid-character.
    transcript.append_chunk("é".as_bytes());
    assert_eq!(transcript.byte_len(), MAX_TRANSCRIPT_BYTES - 1);

    // A chunk that starts with ASCII keeps the part that fits on a
    // character boundary.
    transcript.append_chunk("xé".as_bytes());
    assert_eq!(transcript.byte_len(), MAX_TRANSCRIPT_BYTES);
    let text = transcript.text();
    assert!(text.ends_with("ax"));
}

#[test]
fn multibyte_text_within_the_cap_is_kept_whole() {
    let mut transcript = Transcript::new();
    transcript.append_chunk("héllo wörld".as_bytes());
    assert_eq!(transcript.text(), "héllo wörld");
}

#[test]
fn invalid_utf8_chunk_is_dropped_from_the_transcript() {
    let mut transcript = Transcript::new();
    transcript.append_chunk(b"ok");
    transcript.append_chunk(&[0xff, 0x61, 0x62]);
    assert_eq!(transcript.text(), "ok");
}
