//! The state that all guilds share: the sessions by guild, and the client
//! that fetches module files.

use std::collections::HashMap;
use vstd::prelude::*;

verus! {

/// The key under which the shared state is kept in the platform client.
#[derive(Debug, Clone, Copy, PartialEq, Eq, Structural)]
pub struct BotDataKey;

/// The shared state. `H` is the handle of a session and `C` the client
/// for downloads. A guild has at most one session.
pub struct BotData<H, C> {
    pub sessions: HashMap<u64, H>,
    pub downloader_client: C,
}

impl<H, C> BotData<H, C> {
    /// The shared state at start: no sessions.
    pub fn new(downloader_client: C) -> (data: Self)
        ensures
            data.sessions@ == Map::<u64, H>::empty(),
            data.downloader_client == downloader_client,
    {
        BotData { sessions: HashMap::new(), downloader_client }
    }

    /// Whether `guild_id` has a session.
    pub fn has_session(&self, guild_id: u64) -> (found: bool)
        ensures
            found == self.sessions@.contains_key(guild_id),
    {
        broadcast use vstd::std_specs::hash::group_hash_axioms;

        self.sessions.contains_key(&guild_id)
    }

    /// The session of `guild_id`, if it has one.
    pub fn session(&self, guild_id: u64) -> (handle: Option<&H>)
        ensures
            match handle {
                Some(h) => self.sessions@.contains_key(guild_id) && *h == self.sessions@[guild_id],
                None => !self.sessions@.contains_key(guild_id),
            },
    {
        broadcast use vstd::std_specs::hash::group_hash_axioms;

        self.sessions.get(&guild_id)
    }

    /// Gives `guild_id` the session `handle`, unless it has one: then
    /// nothing changes and the handle comes back.
    pub fn add_session(&mut self, guild_id: u64, handle: H) -> (refused: Option<H>)
        ensures
            final(self).downloader_client == old(self).downloader_client,
            match refused {
                Some(h) => {
                    &&& old(self).sessions@.contains_key(guild_id)
                    &&& h == handle
                    &&& final(self).sessions@ == old(self).sessions@
                },
                None => {
                    &&& !old(self).sessions@.contains_key(guild_id)
                    &&& final(self).sessions@ == old(self).sessions@.insert(guild_id, handle)
                },
            },
    {
        broadcast use vstd::std_specs::hash::group_hash_axioms;

        if self.sessions.contains_key(&guild_id) {
            Some(handle)
        } else {
            self.sessions.insert(guild_id, handle);
            None
        }
    }

    /// Takes the session of `guild_id` away and hands it out. A guild
    /// without a session gives `None` and nothing changes.
    pub fn remove_session(&mut self, guild_id: u64) -> (handle: Option<H>)
        ensures
            final(self).downloader_client == old(self).downloader_client,
            final(self).sessions@ == old(self).sessions@.remove(guild_id),
            match handle {
                Some(h) => old(self).sessions@.contains_key(guild_id) && h == old(self).sessions@[guild_id],
                None => !old(self).sessions@.contains_key(guild_id),
            },
    {
        broadcast use vstd::std_specs::hash::group_hash_axioms;

        self.sessions.remove(&guild_id)
    }
}

/// Taking a session away twice is the same as taking it away once.
pub proof fn lemma_remove_session_idempotent<H>(sessions: Map<u64, H>, guild_id: u64)
    ensures
        sessions.remove(guild_id).remove(guild_id) == sessions.remove(guild_id),
        !sessions.remove(guild_id).contains_key(guild_id),
{
    assert(sessions.remove(guild_id).remove(guild_id) =~= sessions.remove(guild_id));
}

} // verus!
