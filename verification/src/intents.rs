//! Capability flag set: a 64-bit mask naming which event categories a
//! connection subscribes to.
//!
//! Construction applies named boolean overrides onto a base mask and
//! rejects unknown names. The documented default subscribes to every
//! known category except the three privileged ones: member lists,
//! presences, and message content.

use vstd::prelude::*;
use vstd::string::StringExecFns;
use crate::errors::DiscordError;

verus! {

pub const GUILDS: u64 = 1u64 << 0;

pub const MEMBERS: u64 = 1u64 << 1;

pub const MODERATION: u64 = 1u64 << 2;

pub const EXPRESSIONS: u64 = 1u64 << 3;

pub const INTEGRATIONS: u64 = 1u64 << 4;

pub const WEBHOOKS: u64 = 1u64 << 5;

pub const INVITES: u64 = 1u64 << 6;

pub const VOICE_STATES: u64 = 1u64 << 7;

pub const PRESENCES: u64 = 1u64 << 8;

pub const GUILD_MESSAGES: u64 = 1u64 << 9;

pub const GUILD_REACTIONS: u64 = 1u64 << 10;

pub const GUILD_TYPING: u64 = 1u64 << 11;

pub const DM_MESSAGES: u64 = 1u64 << 12;

pub const DM_REACTIONS: u64 = 1u64 << 13;

pub const DM_TYPING: u64 = 1u64 << 14;

pub const MESSAGE_CONTENT: u64 = 1u64 << 15;

pub const GUILD_SCHEDULED_EVENTS: u64 = 1u64 << 16;

pub const AUTO_MODERATION_CONFIGURATION: u64 = 1u64 << 20;

pub const AUTO_MODERATION_EXECUTION: u64 = 1u64 << 21;

pub const GUILD_POLLS: u64 = 1u64 << 24;

pub const DM_POLLS: u64 = 1u64 << 25;

/// Every known category bit.
pub const ALL_MASK: u64 = (1u64 << 0) | (1u64 << 1) | (1u64 << 2) | (1u64 << 3) | (1u64 << 4) | (
1u64 << 5) | (1u64 << 6) | (1u64 << 7) | (1u64 << 8) | (1u64 << 9) | (1u64 << 10) | (1u64 << 11) | (
1u64 << 12) | (1u64 << 13) | (1u64 << 14) | (1u64 << 15) | (1u64 << 16) | (1u64 << 20) | (1u64
    << 21) | (1u64 << 24) | (1u64 << 25);

#[derive(Debug, Clone, Copy, PartialEq, Eq, Structural)]
pub struct Intents {
    pub value: u64,
}

/// The mask bit a field name stands for, or `None` for an unknown name.
/// Several categories answer to more than one name.
pub open spec fn spec_flag_bit(name: Seq<char>) -> Option<u64> {
    if name == "guilds"@ {
        Some(GUILDS)
    } else if name == "members"@ {
        Some(MEMBERS)
    } else if name == "moderation"@ || name == "bans"@ {
        Some(MODERATION)
    } else if name == "emojis"@ || name == "emojis_and_stickers"@ || name == "expressions"@ {
        Some(EXPRESSIONS)
    } else if name == "integrations"@ {
        Some(INTEGRATIONS)
    } else if name == "webhooks"@ {
        Some(WEBHOOKS)
    } else if name == "invites"@ {
        Some(INVITES)
    } else if name == "voice_states"@ {
        Some(VOICE_STATES)
    } else if name == "presences"@ {
        Some(PRESENCES)
    } else if name == "messages"@ || name == "guild_messages"@ {
        Some(GUILD_MESSAGES)
    } else if name == "dm_messages"@ {
        Some(DM_MESSAGES)
    } else if name == "reactions"@ || name == "guild_reactions"@ {
        Some(GUILD_REACTIONS)
    } else if name == "dm_reactions"@ {
        Some(DM_REACTIONS)
    } else if name == "typing"@ || name == "guild_typing"@ {
        Some(GUILD_TYPING)
    } else if name == "dm_typing"@ {
        Some(DM_TYPING)
    } else if name == "message_content"@ {
        Some(MESSAGE_CONTENT)
    } else if name == "guild_scheduled_events"@ {
        Some(GUILD_SCHEDULED_EVENTS)
    } else if name == "auto_moderation"@ || name == "auto_moderation_configuration"@ {
        Some(AUTO_MODERATION_CONFIGURATION)
    } else if name == "auto_moderation_execution"@ {
        Some(AUTO_MODERATION_EXECUTION)
    } else if name == "polls"@ || name == "guild_polls"@ {
        Some(GUILD_POLLS)
    } else if name == "dm_polls"@ {
        Some(DM_POLLS)
    } else {
        None
    }
}

pub(crate) fn str_is(name: &str, lit: &str) -> (r: bool)
    ensures
        r == (name@ == lit@),
{
    let a = name.to_owned();
    let b = lit.to_owned();
    a == b
}

/// Looks a field name up in the closed set of known categories.
pub fn flag_bit(name: &str) -> (r: Option<u64>)
    ensures
        r == spec_flag_bit(name@),
{
    if str_is(name, "guilds") {
        Some(GUILDS)
    } else if str_is(name, "members") {
        Some(MEMBERS)
    } else if str_is(name, "moderation") || str_is(name, "bans") {
        Some(MODERATION)
    } else if str_is(name, "emojis") || str_is(name, "emojis_and_stickers") || str_is(
        name,
        "expressions",
    ) {
        Some(EXPRESSIONS)
    } else if str_is(name, "integrations") {
        Some(INTEGRATIONS)
    } else if str_is(name, "webhooks") {
        Some(WEBHOOKS)
    } else if str_is(name, "invites") {
        Some(INVITES)
    } else if str_is(name, "voice_states") {
        Some(VOICE_STATES)
    } else if str_is(name, "presences") {
        Some(PRESENCES)
    } else if str_is(name, "messages") || str_is(name, "guild_messages") {
        Some(GUILD_MESSAGES)
    } else if str_is(name, "dm_messages") {
        Some(DM_MESSAGES)
    } else if str_is(name, "reactions") || str_is(name, "guild_reactions") {
        Some(GUILD_REACTIONS)
    } else if str_is(name, "dm_reactions") {
        Some(DM_REACTIONS)
    } else if str_is(name, "typing") || str_is(name, "guild_typing") {
        Some(GUILD_TYPING)
    } else if str_is(name, "dm_typing") {
        Some(DM_TYPING)
    } else if str_is(name, "message_content") {
        Some(MESSAGE_CONTENT)
    } else if str_is(name, "guild_scheduled_events") {
        Some(GUILD_SCHEDULED_EVENTS)
    } else if str_is(name, "auto_moderation") || str_is(name, "auto_moderation_configuration") {
        Some(AUTO_MODERATION_CONFIGURATION)
    } else if str_is(name, "auto_moderation_execution") {
        Some(AUTO_MODERATION_EXECUTION)
    } else if str_is(name, "polls") || str_is(name, "guild_polls") {
        Some(GUILD_POLLS)
    } else if str_is(name, "dm_polls") {
        Some(DM_POLLS)
    } else {
        None
    }
}

/// The named overrides, applied to a base mask left to right: a true
/// field sets its bit, a false field clears it, and the first unknown
/// name fails the whole construction.
pub open spec fn spec_apply_fields(base: u64, fields: Seq<(Seq<char>, bool)>) -> Result<
    u64,
    Seq<char>,
>
    decreases fields.len(),
{
    if fields.len() == 0 {
        Ok(base)
    } else {
        match spec_flag_bit(fields[0].0) {
            None => Err(fields[0].0),
            Some(bit) => spec_apply_fields(
                if fields[0].1 {
                    base | bit
                } else {
                    base & !bit
                },
                fields.drop_first(),
            ),
        }
    }
}

/// The view of an override list: each name as its character sequence.
pub open spec fn fields_view(fields: Seq<(String, bool)>) -> Seq<(Seq<char>, bool)> {
    fields.map_values(|p: (String, bool)| (p.0@, p.1))
}

impl Intents {
    /// Applies named boolean overrides onto a base mask. An unknown
    /// field name fails the construction with an invalid-input error
    /// carrying that name; the base mask is not touched.
    pub fn construct(base: u64, fields: &Vec<(String, bool)>) -> (r: Result<Self, DiscordError>)
        ensures
            r is Ok <==> spec_apply_fields(base, fields_view(fields@)) is Ok,
            r is Ok ==> r->Ok_0.value == spec_apply_fields(base, fields_view(fields@))->Ok_0,
            r is Err ==> r->Err_0 is InvalidData && r->Err_0->InvalidData_0@ == spec_apply_fields(
                base,
                fields_view(fields@),
            )->Err_0,
    {
        let ghost full = fields_view(fields@);
        proof {
            assert(full.skip(0) =~= full);
        }
        let mut cur: u64 = base;
        let mut i: usize = 0;
        while i < fields.len()
            invariant
                0 <= i <= fields@.len(),
                full == fields_view(fields@),
                spec_apply_fields(base, full) == spec_apply_fields(cur, full.skip(i as int)),
            decreases fields@.len() - i,
        {
            proof {
                assert(full.skip(i as int).drop_first() =~= full.skip(i + 1));
                assert(full.skip(i as int)[0] == (fields@[i as int].0@, fields@[i as int].1));
            }
            let name: &String = &fields[i].0;
            let on: bool = fields[i].1;
            match flag_bit(name.as_str()) {
                None => {
                    return Err(DiscordError::InvalidData(name.clone()));
                },
                Some(bit) => {
                    if on {
                        cur = cur | bit;
                    } else {
                        cur = cur & !bit;
                    }
                },
            }
            i = i + 1;
        }
        proof {
            assert(full.skip(fields@.len() as int) =~= Seq::<(Seq<char>, bool)>::empty());
        }
        Ok(Intents { value: cur })
    }

    /// The mask with every known category bit set.
    pub fn all() -> (r: Self)
        ensures
            r.value == ALL_MASK,
    {
        Intents { value: ALL_MASK }
    }

    /// The empty mask.
    pub fn none() -> (r: Self)
        ensures
            r.value == 0,
    {
        Intents { value: 0 }
    }

    /// The documented default: every known category except the three
    /// privileged ones (member lists, presences, message content).
    pub fn default() -> (r: Self)
        ensures
            r.value == ALL_MASK & !PRESENCES & !MEMBERS & !MESSAGE_CONTENT,
    {
        Intents { value: ALL_MASK & !PRESENCES & !MEMBERS & !MESSAGE_CONTENT }
    }

    /// Set union of the two masks; neither operand is changed.
    pub fn union(&self, other: &Self) -> (r: Self)
        ensures
            r.value == self.value | other.value,
    {
        Intents { value: self.value | other.value }
    }

    /// Set intersection of the two masks; neither operand is changed.
    pub fn intersection(&self, other: &Self) -> (r: Self)
        ensures
            r.value == self.value & other.value,
    {
        Intents { value: self.value & other.value }
    }

    /// Symmetric difference of the two masks; neither operand is
    /// changed.
    pub fn xor(&self, other: &Self) -> (r: Self)
        ensures
            r.value == self.value ^ other.value,
    {
        Intents { value: self.value ^ other.value }
    }

    /// The bitwise complement of the mask; the operand is not changed.
    pub fn complement(&self) -> (r: Self)
        ensures
            r.value == !self.value,
    {
        Intents { value: !self.value }
    }

    /// Truthiness: whether any bit at all is set.
    pub fn any(&self) -> (r: bool)
        ensures
            r == (self.value != 0),
    {
        self.value != 0
    }

    pub fn guilds(&self) -> (r: bool)
        ensures
            r == (self.value & GUILDS != 0),
    {
        self.value & GUILDS != 0
    }

    pub fn set_guilds(&mut self, on: bool)
        ensures
            final(self).value == if on {
                old(self).value | GUILDS
            } else {
                old(self).value & !GUILDS
            },
    {
        if on {
            self.value = self.value | GUILDS;
        } else {
            self.value = self.value & !GUILDS;
        }
    }

    pub fn members(&self) -> (r: bool)
        ensures
            r == (self.value & MEMBERS != 0),
    {
        self.value & MEMBERS != 0
    }

    pub fn set_members(&mut self, on: bool)
        ensures
            final(self).value == if on {
                old(self).value | MEMBERS
            } else {
                old(self).value & !MEMBERS
            },
    {
        if on {
            self.value = self.value | MEMBERS;
        } else {
            self.value = self.value & !MEMBERS;
        }
    }

    pub fn message_content(&self) -> (r: bool)
        ensures
            r == (self.value & MESSAGE_CONTENT != 0),
    {
        self.value & MESSAGE_CONTENT != 0
    }

    pub fn set_message_content(&mut self, on: bool)
        ensures
            final(self).value == if on {
                old(self).value | MESSAGE_CONTENT
            } else {
                old(self).value & !MESSAGE_CONTENT
            },
    {
        if on {
            self.value = self.value | MESSAGE_CONTENT;
        } else {
            self.value = self.value & !MESSAGE_CONTENT;
        }
    }
}

/// Union is idempotent: a mask joined with itself is itself.
pub proof fn law_union_idempotent(a: u64)
    ensures
        (a | a) == a,
{
    assert((a | a) == a) by (bit_vector);
}

/// A mask intersected with its own complement is the empty mask.
pub proof fn law_intersection_complement_empty(a: u64)
    ensures
        (a & !a) == 0,
{
    assert((a & !a) == 0) by (bit_vector);
}

/// Symmetric difference decomposes into union minus intersection.
pub proof fn law_xor_decomposition(a: u64, b: u64)
    ensures
        (a ^ b) == ((a | b) & !(a & b)),
{
    assert((a ^ b) == ((a | b) & !(a & b))) by (bit_vector);
}

/// The default mask clears exactly the three privileged categories:
/// every other known bit is set, and what `all` has beyond `default`
/// is precisely those three bits.
pub proof fn law_default_excludes_privileged()
    ensures
        ALL_MASK & !(ALL_MASK & !PRESENCES & !MEMBERS & !MESSAGE_CONTENT) == PRESENCES | MEMBERS
            | MESSAGE_CONTENT,
        ALL_MASK & !PRESENCES & !MEMBERS & !MESSAGE_CONTENT == ALL_MASK & !(PRESENCES | MEMBERS
            | MESSAGE_CONTENT),
        (ALL_MASK & !PRESENCES & !MEMBERS & !MESSAGE_CONTENT) & (PRESENCES | MEMBERS
            | MESSAGE_CONTENT) == 0,
        (ALL_MASK & !PRESENCES & !MEMBERS & !MESSAGE_CONTENT) | (PRESENCES | MEMBERS
            | MESSAGE_CONTENT) == ALL_MASK,
{
    assert(ALL_MASK & !(ALL_MASK & !PRESENCES & !MEMBERS & !MESSAGE_CONTENT) == PRESENCES | MEMBERS
        | MESSAGE_CONTENT) by (bit_vector);
    assert(ALL_MASK & !PRESENCES & !MEMBERS & !MESSAGE_CONTENT == ALL_MASK & !(PRESENCES | MEMBERS
        | MESSAGE_CONTENT)) by (bit_vector);
    assert((ALL_MASK & !PRESENCES & !MEMBERS & !MESSAGE_CONTENT) & (PRESENCES | MEMBERS
        | MESSAGE_CONTENT) == 0) by (bit_vector);
    assert((ALL_MASK & !PRESENCES & !MEMBERS & !MESSAGE_CONTENT) | (PRESENCES | MEMBERS
        | MESSAGE_CONTENT) == ALL_MASK) by (bit_vector);
}

/// A presence status, as declared to the platform.
#[derive(Debug, Clone, Copy, PartialEq, Eq, Structural, Hash)]
pub enum Status {
    Online,
    Offline,
    Idle,
    Dnd,
    Invisible,
}

/// The wire name of each status (lowercase; do-not-disturb is "dnd").
pub open spec fn spec_status_name(s: Status) -> Seq<char> {
    match s {
        Status::Online => "online"@,
        Status::Offline => "offline"@,
        Status::Idle => "idle"@,
        Status::Dnd => "dnd"@,
        Status::Invisible => "invisible"@,
    }
}

impl Status {
    pub fn wire_name(&self) -> (r: &str)
        ensures
            r@ == spec_status_name(*self),
    {
        match self {
            Status::Online => "online",
            Status::Offline => "offline",
            Status::Idle => "idle",
            Status::Dnd => "dnd",
            Status::Invisible => "invisible",
        }
    }
}

} // verus!
