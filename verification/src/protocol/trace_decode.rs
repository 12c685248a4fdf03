//! Human-readable decoding of raw X11 wire bytes for trace logging.
//!
//! Decodes the two 32-byte-header shapes every reply/event on this server
//! uses, so that a trace log is legible without a side calculation.

use vstd::prelude::*;
use super::endianness::{u16_at, u32_at};
use super::handshake::decimal;
use super::types::ByteOrder;

verus! {

/// The reply length in 4-byte units that a reply header carries (0 when the
/// header is cut short before it).
pub open spec fn traced_reply_length(bytes: Seq<u8>, order: ByteOrder) -> u32 {
    if bytes.len() >= 8 {
        u32_at(bytes, 4, order)
    } else {
        0
    }
}

/// The one-line summary of a server-to-client message.
pub open spec fn describe_outgoing_text(bytes: Seq<u8>, order: ByteOrder) -> Seq<char> {
    if bytes.len() < 4 {
        "<"@ + decimal(bytes.len()) + " bytes, too short to decode>"@
    } else {
        let sequence = decimal(u16_at(bytes, 2, order) as nat);
        if bytes[0] == 0 {
            "Error(code="@ + decimal(bytes[1] as nat) + ", sequence="@ + sequence + ")"@
        } else if bytes[0] == 1 {
            let words = traced_reply_length(bytes, order);
            "Reply(sequence="@ + sequence + ", extra_length_words="@ + decimal(words as nat)
                + ", total_bytes="@ + decimal((32 + 4 * words) as nat) + ")"@
        } else {
            "Event(code="@ + decimal(bytes[0] as nat) + ", detail="@ + decimal(bytes[1] as nat)
                + ", sequence="@ + sequence + ")"@
        }
    }
}

/// `format!` of the summary of a message too short to decode.
#[verifier::external_body]
fn too_short_summary(len: usize) -> (s: String)
    ensures
        s@ == "<"@ + decimal(len as nat) + " bytes, too short to decode>"@,
{
    format!("<{} bytes, too short to decode>", len)
}

/// `format!` of the summary of an error.
#[verifier::external_body]
fn error_summary(code: u8, sequence: u16) -> (s: String)
    ensures
        s@ == "Error(code="@ + decimal(code as nat) + ", sequence="@ + decimal(sequence as nat)
            + ")"@,
{
    format!("Error(code={}, sequence={})", code, sequence)
}

/// `format!` of the summary of a reply.
#[verifier::external_body]
fn reply_summary(sequence: u16, words: u32, total: u64) -> (s: String)
    ensures
        s@ == "Reply(sequence="@ + decimal(sequence as nat) + ", extra_length_words="@ + decimal(
            words as nat,
        ) + ", total_bytes="@ + decimal(total as nat) + ")"@,
{
    format!("Reply(sequence={}, extra_length_words={}, total_bytes={})", sequence, words, total)
}

/// `format!` of the summary of an event.
#[verifier::external_body]
fn event_summary(code: u8, detail: u8, sequence: u16) -> (s: String)
    ensures
        s@ == "Event(code="@ + decimal(code as nat) + ", detail="@ + decimal(detail as nat)
            + ", sequence="@ + decimal(sequence as nat) + ")"@,
{
    format!("Event(code={}, detail={}, sequence={})", code, detail, sequence)
}

/// Decode the first bytes of a server-to-client reply or event as human
/// text, for trace logging: replies (`1, unused, sequence(2), length(4), ...`),
/// errors (`0, code, sequence(2), ...`) and core events (`code, detail,
/// sequence(2), ...`). Never panics on short or malformed input.
pub fn describe_outgoing(bytes: &[u8], byte_order: ByteOrder) -> (s: String)
    ensures
        s@ == describe_outgoing_text(bytes@, byte_order),
{
    if bytes.len() < 4 {
        return too_short_summary(bytes.len());
    }
    let first = bytes[0];
    let second = bytes[1];
    let sequence = super::endianness::decode_u16(bytes[2], bytes[3], byte_order);
    if first == 0 {
        error_summary(second, sequence)
    } else if first == 1 {
        let reply_length: u32 = if bytes.len() >= 8 {
            super::endianness::decode_u32(bytes[4], bytes[5], bytes[6], bytes[7], byte_order)
        } else {
            0
        };
        let total: u64 = 32 + (reply_length as u64) * 4;
        reply_summary(sequence, reply_length, total)
    } else {
        event_summary(first, second, sequence)
    }
}

} // verus!
