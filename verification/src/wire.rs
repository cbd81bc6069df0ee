//! Outgoing wire frames, built byte for byte under exact contracts.
//!
//! The gateway's wire contract fixes each frame's JSON shape; the
//! builders here produce those bytes directly, so what goes on the
//! wire is pinned down by the specification functions below rather
//! than by a serializer the verifier cannot see into. String values
//! are escaped per the JSON grammar: quote and backslash get a
//! backslash, control bytes become a `\u00XX` sequence, everything
//! else (multi-byte UTF-8 included) passes through unchanged.

use vstd::prelude::*;
use vstd::string::StringSliceAdditionalSpecFns;
use crate::digits::{dec_digits, format_u64_dec};
use crate::intents::Intents;

verus! {

/// The lowercase hex digit of a nibble.
pub open spec fn hex_digit(n: u8) -> u8 {
    if n < 10 {
        (0x30 + n) as u8
    } else {
        (0x57 + n) as u8
    }
}

/// What one byte of a JSON string value becomes on the wire.
pub open spec fn esc_byte(b: u8) -> Seq<u8> {
    if b == 0x22 {
        seq![0x5Cu8, 0x22u8]
    } else if b == 0x5C {
        seq![0x5Cu8, 0x5Cu8]
    } else if b < 0x20 {
        seq![0x5Cu8, 0x75u8, 0x30u8, 0x30u8, hex_digit(b / 16), hex_digit(b % 16)]
    } else {
        seq![b]
    }
}

/// A whole string value, escaped byte for byte.
pub open spec fn spec_json_escaped(s: Seq<u8>) -> Seq<u8>
    decreases s.len(),
{
    if s.len() == 0 {
        Seq::empty()
    } else {
        spec_json_escaped(s.drop_last()) + esc_byte(s.last())
    }
}

/// Escapes the bytes of a string value for embedding in a JSON text.
pub fn escape_json_bytes(s: &[u8]) -> (r: Vec<u8>)
    ensures
        r@ == spec_json_escaped(s@),
{
    let mut out: Vec<u8> = Vec::new();
    let mut i: usize = 0;
    proof {
        assert(s@.take(0) =~= Seq::<u8>::empty());
    }
    while i < s.len()
        invariant
            0 <= i <= s@.len(),
            out@ == spec_json_escaped(s@.take(i as int)),
        decreases s@.len() - i,
    {
        let b = s[i];
        proof {
            assert(s@.take(i + 1).drop_last() =~= s@.take(i as int));
            assert(s@.take(i + 1).last() == s@[i as int]);
        }
        if b == 0x22 {
            out.push(0x5C);
            out.push(0x22);
        } else if b == 0x5C {
            out.push(0x5C);
            out.push(0x5C);
        } else if b < 0x20 {
            out.push(0x5C);
            out.push(0x75);
            out.push(0x30);
            out.push(0x30);
            out.push(if b < 0x10 {
                0x30
            } else {
                0x31
            });
            let lo = b % 16;
            out.push(if lo < 10 {
                (0x30 + lo) as u8
            } else {
                (0x57 + lo) as u8
            });
        } else {
            out.push(b);
        }
        proof {
            assert(out@ =~= spec_json_escaped(s@.take(i as int)) + esc_byte(s@[i as int]));
        }
        i = i + 1;
    }
    proof {
        assert(s@.take(s@.len() as int) =~= s@);
    }
    out
}

/// The heartbeat frame: opcode 1, carrying the last-seen sequence
/// number, or null when the session has not seen one yet.
pub open spec fn spec_heartbeat_frame(seq: Option<u64>) -> Seq<u8> {
    "{\"op\":1,\"d\":".spec_bytes() + (match seq {
        Option::None => "null".spec_bytes(),
        Option::Some(n) => dec_digits(n as nat),
    }) + "}".spec_bytes()
}

pub fn heartbeat_frame(seq: Option<u64>) -> (r: Vec<u8>)
    ensures
        r@ == spec_heartbeat_frame(seq),
{
    let mut out: Vec<u8> = Vec::new();
    out.extend_from_slice("{\"op\":1,\"d\":".as_bytes());
    match seq {
        None => out.extend_from_slice("null".as_bytes()),
        Some(n) => {
            let digits = format_u64_dec(n);
            out.extend_from_slice(digits.as_slice());
        },
    }
    out.extend_from_slice("}".as_bytes());
    proof {
        assert(out@ =~= spec_heartbeat_frame(seq));
    }
    out
}

/// The identify frame: opcode 2, carrying the bot token, the
/// capability mask, and the client-identification properties.
pub open spec fn spec_identify_frame(
    token: Seq<u8>,
    intents: u64,
    os: Seq<u8>,
    browser: Seq<u8>,
    device: Seq<u8>,
) -> Seq<u8> {
    "{\"op\":2,\"d\":{\"token\":\"".spec_bytes() + spec_json_escaped(token)
        + "\",\"intents\":".spec_bytes() + dec_digits(intents as nat)
        + ",\"properties\":{\"$os\":\"".spec_bytes() + spec_json_escaped(os)
        + "\",\"$browser\":\"".spec_bytes() + spec_json_escaped(browser)
        + "\",\"$device\":\"".spec_bytes() + spec_json_escaped(device) + "\"}}}".spec_bytes()
}

pub fn identify_frame(token: &str, intents: Intents, os: &str, browser: &str, device: &str) -> (r:
    Vec<u8>)
    ensures
        r@ == spec_identify_frame(
            token.spec_bytes(),
            intents.value,
            os.spec_bytes(),
            browser.spec_bytes(),
            device.spec_bytes(),
        ),
{
    let mut out: Vec<u8> = Vec::new();
    out.extend_from_slice("{\"op\":2,\"d\":{\"token\":\"".as_bytes());
    let escaped_token = escape_json_bytes(token.as_bytes());
    out.extend_from_slice(escaped_token.as_slice());
    out.extend_from_slice("\",\"intents\":".as_bytes());
    let digits = format_u64_dec(intents.value);
    out.extend_from_slice(digits.as_slice());
    out.extend_from_slice(",\"properties\":{\"$os\":\"".as_bytes());
    let escaped_os = escape_json_bytes(os.as_bytes());
    out.extend_from_slice(escaped_os.as_slice());
    out.extend_from_slice("\",\"$browser\":\"".as_bytes());
    let escaped_browser = escape_json_bytes(browser.as_bytes());
    out.extend_from_slice(escaped_browser.as_slice());
    out.extend_from_slice("\",\"$device\":\"".as_bytes());
    let escaped_device = escape_json_bytes(device.as_bytes());
    out.extend_from_slice(escaped_device.as_slice());
    out.extend_from_slice("\"}}}".as_bytes());
    proof {
        assert(out@ =~= spec_identify_frame(
            token.spec_bytes(),
            intents.value,
            os.spec_bytes(),
            browser.spec_bytes(),
            device.spec_bytes(),
        ));
    }
    out
}

/// The resume frame: opcode 6, re-attaching to a preserved session by
/// its server-issued identifier and the last sequence number seen.
pub open spec fn spec_resume_frame(token: Seq<u8>, session_id: Seq<u8>, seq: u64) -> Seq<u8> {
    "{\"op\":6,\"d\":{\"token\":\"".spec_bytes() + spec_json_escaped(token)
        + "\",\"session_id\":\"".spec_bytes() + spec_json_escaped(session_id)
        + "\",\"seq\":".spec_bytes() + dec_digits(seq as nat) + "}}".spec_bytes()
}

pub fn resume_frame(token: &str, session_id: &str, seq: u64) -> (r: Vec<u8>)
    ensures
        r@ == spec_resume_frame(token.spec_bytes(), session_id.spec_bytes(), seq),
{
    let mut out: Vec<u8> = Vec::new();
    out.extend_from_slice("{\"op\":6,\"d\":{\"token\":\"".as_bytes());
    let escaped_token = escape_json_bytes(token.as_bytes());
    out.extend_from_slice(escaped_token.as_slice());
    out.extend_from_slice("\",\"session_id\":\"".as_bytes());
    let escaped_session = escape_json_bytes(session_id.as_bytes());
    out.extend_from_slice(escaped_session.as_slice());
    out.extend_from_slice("\",\"seq\":".as_bytes());
    let digits = format_u64_dec(seq);
    out.extend_from_slice(digits.as_slice());
    out.extend_from_slice("}}".as_bytes());
    proof {
        assert(out@ =~= spec_resume_frame(token.spec_bytes(), session_id.spec_bytes(), seq));
    }
    out
}

/// The connect address: the discovered endpoint with the protocol
/// version and encoding appended.
pub fn gateway_connect_url(base: &str) -> (r: String)
    ensures
        r@ == base@ + "/?v=10&encoding=json"@,
{
    let mut url = base.to_owned();
    url.append("/?v=10&encoding=json");
    url
}

} // verus!
