//! The entity cache: three keyed stores (guilds, users, channels) of
//! opaque structured records observed on the stream, plus the
//! session's own user identifier.
//!
//! Writes are last-write-wins, records live until removed explicitly
//! or the cache is cleared, and every operation's effect on the store
//! is stated over its map view. The embedding program decides how the
//! cache is shared between the stream's writer and its readers.

use vstd::prelude::*;
use std::collections::HashMap;
use crate::json::json_clone;
use crate::snowflake::Snowflake;

verus! {

broadcast use vstd::std_specs::hash::group_hash_axioms;

pub struct State {
    pub guilds: HashMap<u64, serde_json::Value>,
    pub users: HashMap<u64, serde_json::Value>,
    pub channels: HashMap<u64, serde_json::Value>,
    pub user_id: Option<Snowflake>,
}

impl State {
    /// An empty cache with no own-user identifier.
    pub fn new() -> (r: Self)
        ensures
            r.guilds@ == Map::<u64, serde_json::Value>::empty(),
            r.users@ == Map::<u64, serde_json::Value>::empty(),
            r.channels@ == Map::<u64, serde_json::Value>::empty(),
            r.user_id is None,
    {
        State {
            guilds: HashMap::new(),
            users: HashMap::new(),
            channels: HashMap::new(),
            user_id: None,
        }
    }

    pub fn add_guild(&mut self, id: Snowflake, data: serde_json::Value)
        ensures
            final(self).guilds@ == old(self).guilds@.insert(id.0, data),
            final(self).users == old(self).users,
            final(self).channels == old(self).channels,
            final(self).user_id == old(self).user_id,
    {
        self.guilds.insert(id.0, data);
    }

    pub fn get_guild(&self, id: Snowflake) -> (r: Option<serde_json::Value>)
        ensures
            r == if self.guilds@.contains_key(id.0) {
                Some(self.guilds@[id.0])
            } else {
                Option::<serde_json::Value>::None
            },
    {
        match self.guilds.get(&id.0) {
            Some(v) => Some(json_clone(v)),
            None => None,
        }
    }

    pub fn remove_guild(&mut self, id: Snowflake)
        ensures
            final(self).guilds@ == old(self).guilds@.remove(id.0),
            final(self).users == old(self).users,
            final(self).channels == old(self).channels,
            final(self).user_id == old(self).user_id,
    {
        self.guilds.remove(&id.0);
        proof {
            assert(final(self).guilds@ =~= old(self).guilds@.remove(id.0));
        }
    }

    pub fn add_user(&mut self, id: Snowflake, data: serde_json::Value)
        ensures
            final(self).users@ == old(self).users@.insert(id.0, data),
            final(self).guilds == old(self).guilds,
            final(self).channels == old(self).channels,
            final(self).user_id == old(self).user_id,
    {
        self.users.insert(id.0, data);
    }

    pub fn get_user(&self, id: Snowflake) -> (r: Option<serde_json::Value>)
        ensures
            r == if self.users@.contains_key(id.0) {
                Some(self.users@[id.0])
            } else {
                Option::<serde_json::Value>::None
            },
    {
        match self.users.get(&id.0) {
            Some(v) => Some(json_clone(v)),
            None => None,
        }
    }

    pub fn remove_user(&mut self, id: Snowflake)
        ensures
            final(self).users@ == old(self).users@.remove(id.0),
            final(self).guilds == old(self).guilds,
            final(self).channels == old(self).channels,
            final(self).user_id == old(self).user_id,
    {
        self.users.remove(&id.0);
        proof {
            assert(final(self).users@ =~= old(self).users@.remove(id.0));
        }
    }

    pub fn add_channel(&mut self, id: Snowflake, data: serde_json::Value)
        ensures
            final(self).channels@ == old(self).channels@.insert(id.0, data),
            final(self).guilds == old(self).guilds,
            final(self).users == old(self).users,
            final(self).user_id == old(self).user_id,
    {
        self.channels.insert(id.0, data);
    }

    pub fn get_channel(&self, id: Snowflake) -> (r: Option<serde_json::Value>)
        ensures
            r == if self.channels@.contains_key(id.0) {
                Some(self.channels@[id.0])
            } else {
                Option::<serde_json::Value>::None
            },
    {
        match self.channels.get(&id.0) {
            Some(v) => Some(json_clone(v)),
            None => None,
        }
    }

    pub fn remove_channel(&mut self, id: Snowflake)
        ensures
            final(self).channels@ == old(self).channels@.remove(id.0),
            final(self).guilds == old(self).guilds,
            final(self).users == old(self).users,
            final(self).user_id == old(self).user_id,
    {
        self.channels.remove(&id.0);
        proof {
            assert(final(self).channels@ =~= old(self).channels@.remove(id.0));
        }
    }

    pub fn set_user_id(&mut self, id: Snowflake)
        ensures
            final(self).user_id == Some(id),
            final(self).guilds == old(self).guilds,
            final(self).users == old(self).users,
            final(self).channels == old(self).channels,
    {
        self.user_id = Some(id);
    }

    pub fn get_user_id(&self) -> (r: Option<Snowflake>)
        ensures
            r == self.user_id,
    {
        self.user_id
    }

    /// Drops all three stores (used on fatal disconnect or logout);
    /// the own-user identifier is kept until a new session replaces
    /// it.
    pub fn clear(&mut self)
        ensures
            final(self).guilds@ == Map::<u64, serde_json::Value>::empty(),
            final(self).users@ == Map::<u64, serde_json::Value>::empty(),
            final(self).channels@ == Map::<u64, serde_json::Value>::empty(),
            final(self).user_id == old(self).user_id,
    {
        self.guilds.clear();
        self.users.clear();
        self.channels.clear();
    }
}

/// A record put under a key is the record a lookup of that key then
/// finds.
pub proof fn law_put_then_get(m: Map<u64, serde_json::Value>, id: u64, record: serde_json::Value)
    ensures
        m.insert(id, record).contains_key(id),
        m.insert(id, record)[id] == record,
{
}

/// Writes to distinct keys never lose each other: after two puts under
/// different keys, both records are found.
pub proof fn law_distinct_puts_kept(
    m: Map<u64, serde_json::Value>,
    id1: u64,
    id2: u64,
    r1: serde_json::Value,
    r2: serde_json::Value,
)
    requires
        id1 != id2,
    ensures
        m.insert(id1, r1).insert(id2, r2)[id1] == r1,
        m.insert(id1, r1).insert(id2, r2)[id2] == r2,
{
}

} // verus!
