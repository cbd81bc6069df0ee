//! A minimal entity: just an identifier, for callers that want to hand
//! an id to an API that expects a full record.

use vstd::prelude::*;
use vstd::string::StringSliceAdditionalSpecFns;
use crate::digits::{all_dec_digits, dec_value, parse_u64_dec};
use crate::errors::DiscordError;
use crate::snowflake::EPOCH_MS;

verus! {

#[derive(Debug, Clone, Copy, PartialEq, Eq, Structural, Hash)]
pub struct Object {
    pub id: u64,
}

impl Object {
    pub fn new(id: u64) -> (r: Self)
        ensures
            r.id == id,
    {
        Object { id }
    }

    /// Reads an object from the textual form of its identifier, under
    /// the identifier codec's grammar; anything else is rejected as
    /// invalid input carrying the offending text.
    pub fn parse_str(s: &str) -> (r: Result<Self, DiscordError>)
        ensures
            r is Ok <==> s.spec_bytes().len() > 0 && all_dec_digits(s.spec_bytes()) && dec_value(
                s.spec_bytes(),
            ) <= u64::MAX,
            r is Ok ==> r->Ok_0.id == dec_value(s.spec_bytes()),
            r is Err ==> r->Err_0 is InvalidData && r->Err_0->InvalidData_0@ == s@,
    {
        match parse_u64_dec(s.as_bytes()) {
            Some(v) => Ok(Object { id: v }),
            None => Err(DiscordError::InvalidData(s.to_owned())),
        }
    }

    /// The creation time embedded in the identifier, in milliseconds
    /// since the Unix epoch.
    pub fn created_at_ms(&self) -> (r: u64)
        ensures
            r == (self.id >> 22) + EPOCH_MS,
    {
        let shifted = self.id >> 22;
        proof {
            let v = self.id;
            assert(v >> 22 <= 0x3FF_FFFF_FFFFu64) by (bit_vector);
        }
        shifted + EPOCH_MS
    }
}

/// The oldest object the platform can name: identifier zero.
pub fn oldest_object() -> (r: Object)
    ensures
        r.id == 0,
{
    Object { id: 0 }
}

} // verus!
