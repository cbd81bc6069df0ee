//! Time-ordered 64-bit entity identifiers and their embedded fields.
//!
//! An identifier packs, from the high bits down: milliseconds since the
//! platform epoch (42 bits), a worker id (5 bits), a process id
//! (5 bits) and a per-process sequence increment (12 bits). Equality
//! and ordering are numeric on the raw value.

use vstd::prelude::*;
use vstd::string::StringSliceAdditionalSpecFns;
use crate::digits::{all_dec_digits, dec_value, parse_u64_dec};
use crate::errors::DiscordError;

verus! {

/// Milliseconds between the Unix epoch and the platform's own epoch.
pub const EPOCH_MS: u64 = 1420070400000;

#[derive(Debug, Clone, Copy, PartialEq, Eq, Structural, Hash, PartialOrd, Ord)]
pub struct Snowflake(pub u64);

/// Millisecond timestamp encoded in an identifier's high 42 bits,
/// shifted back onto the Unix epoch.
pub open spec fn spec_timestamp(v: u64) -> int {
    (v >> 22) + EPOCH_MS
}

pub open spec fn spec_worker_id(v: u64) -> u64 {
    (v & 0x3E0000) >> 17
}

pub open spec fn spec_process_id(v: u64) -> u64 {
    (v & 0x1F000) >> 12
}

pub open spec fn spec_increment(v: u64) -> u64 {
    v & 0xFFF
}

impl Snowflake {
    pub fn new(id: u64) -> (r: Self)
        ensures
            r.0 == id,
    {
        Snowflake(id)
    }

    /// The creation time embedded in the identifier, in milliseconds
    /// since the Unix epoch.
    pub fn timestamp(&self) -> (r: i64)
        ensures
            r == spec_timestamp(self.0),
    {
        let shifted = self.0 >> 22;
        proof {
            let v = self.0;
            assert(v >> 22 <= 0x3FF_FFFF_FFFFu64) by (bit_vector);
        }
        (shifted + EPOCH_MS) as i64
    }

    /// The worker id embedded in bits 17 to 21.
    pub fn worker_id(&self) -> (r: u8)
        ensures
            r == spec_worker_id(self.0),
    {
        proof {
            let v = self.0;
            assert((v & 0x3E0000) >> 17 < 256) by (bit_vector);
        }
        ((self.0 & 0x3E0000) >> 17) as u8
    }

    /// The process id embedded in bits 12 to 16.
    pub fn process_id(&self) -> (r: u8)
        ensures
            r == spec_process_id(self.0),
    {
        proof {
            let v = self.0;
            assert((v & 0x1F000) >> 12 < 256) by (bit_vector);
        }
        ((self.0 & 0x1F000) >> 12) as u8
    }

    /// The sequence increment embedded in the low 12 bits.
    pub fn increment(&self) -> (r: u16)
        ensures
            r == spec_increment(self.0),
    {
        proof {
            let v = self.0;
            assert(v & 0xFFF < 0x10000) by (bit_vector);
        }
        (self.0 & 0xFFF) as u16
    }

    /// Reads an identifier from its textual form: a non-empty string of
    /// ASCII decimal digits whose value fits in 64 bits. Anything else
    /// is rejected as invalid input.
    pub fn parse_str(s: &str) -> (r: Result<Self, DiscordError>)
        ensures
            r is Ok <==> s.spec_bytes().len() > 0 && all_dec_digits(s.spec_bytes())
                && dec_value(s.spec_bytes()) <= u64::MAX,
            r is Ok ==> r->Ok_0.0 == dec_value(s.spec_bytes()),
            r is Err ==> r->Err_0 is InvalidData && r->Err_0->InvalidData_0@ == s@,
    {
        match parse_u64_dec(s.as_bytes()) {
            Some(v) => Ok(Snowflake(v)),
            None => Err(DiscordError::InvalidData(s.to_owned())),
        }
    }
}

impl From<u64> for Snowflake {
    fn from(id: u64) -> (r: Self) {
        Snowflake(id)
    }
}

impl vstd::std_specs::convert::FromSpecImpl<u64> for Snowflake {
    open spec fn obeys_from_spec() -> bool {
        true
    }

    open spec fn from_spec(id: u64) -> Self {
        Snowflake(id)
    }
}

impl From<Snowflake> for u64 {
    fn from(snowflake: Snowflake) -> (r: u64) {
        snowflake.0
    }
}

impl vstd::std_specs::convert::FromSpecImpl<Snowflake> for u64 {
    open spec fn obeys_from_spec() -> bool {
        true
    }

    open spec fn from_spec(snowflake: Snowflake) -> u64 {
        snowflake.0
    }
}

/// The embedded timestamp is monotonically non-decreasing in the raw
/// identifier value: later identifiers never carry earlier creation
/// times.
pub proof fn lemma_timestamp_monotonic(a: u64, b: u64)
    requires
        a <= b,
    ensures
        spec_timestamp(a) <= spec_timestamp(b),
{
    assert(a <= b ==> (a >> 22) <= (b >> 22)) by (bit_vector);
}

/// Packing a timestamp offset, worker id, process id and increment into
/// an identifier and extracting them again gives the fields back
/// unchanged: the field codec round-trips on every in-range input.
pub proof fn lemma_fields_round_trip(t: u64, w: u64, p: u64, i: u64)
    requires
        t < 0x400_0000_0000,
        w < 0x20,
        p < 0x20,
        i < 0x1000,
    ensures
        ({
            let v = (t << 22) | (w << 17) | (p << 12) | i;
            &&& (v >> 22) == t
            &&& spec_worker_id(v) == w
            &&& spec_process_id(v) == p
            &&& spec_increment(v) == i
        }),
{
    let v = (t << 22) | (w << 17) | (p << 12) | i;
    assert((t << 22) | (w << 17) | (p << 12) | i == v ==> v >> 22 == t && (v & 0x3E0000) >> 17 == w
        && (v & 0x1F000) >> 12 == p && v & 0xFFF == i) by (bit_vector)
        requires
            t < 0x400_0000_0000u64,
            w < 0x20u64,
            p < 0x20u64,
            i < 0x1000u64,
    ;
}

} // verus!
