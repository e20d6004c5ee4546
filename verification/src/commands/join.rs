//! `/join`: brings the player into the voice channel of the user.

use crate::commands::CommandDefinition;
use vstd::prelude::*;

verus! {

/// What `/join` decides before anything is joined.
#[derive(Debug, Clone, PartialEq, Eq)]
pub enum JoinDecision {
    /// Nothing is joined; this is the answer.
    Refused(String),
    /// The voice channel to join.
    Join(u64),
}

/// The answer to a user who is in no voice channel.
pub open spec fn no_channel_text() -> Seq<char> {
    "Join a voice channel first"@
}

/// The answer where the guild has a session already.
pub open spec fn session_exists_text() -> Seq<char> {
    "The bot is already in the voice channel or a session already exists for this guild id"@
}

/// Decides a join from the voice channel that the user is in, if any, and
/// from whether the guild has a session already. The user's channel is
/// looked at first.
pub fn handle(voice_channel: Option<u64>, session_exists: bool) -> (decision: JoinDecision)
    ensures
        match voice_channel {
            None => decision matches JoinDecision::Refused(reply) && reply@ == no_channel_text(),
            Some(channel) => if session_exists {
                decision matches JoinDecision::Refused(reply) && reply@ == session_exists_text()
            } else {
                decision == JoinDecision::Join(channel)
            },
        },
{
    match voice_channel {
        None => JoinDecision::Refused("Join a voice channel first".to_owned()),
        Some(channel) => {
            if session_exists {
                JoinDecision::Refused(
                    "The bot is already in the voice channel or a session already exists for this guild id".to_owned(),
                )
            } else {
                JoinDecision::Join(channel)
            }
        },
    }
}

/// The answer after the voice channel was joined.
pub fn joined_text() -> (reply: &'static str)
    ensures
        reply@ == "Joined your voice channel. No module is currently playing"@,
{
    "Joined your voice channel. No module is currently playing"
}

/// Whether `definition` is this command as it is registered: its name, its
/// description and its options.
pub open spec fn is_registered(definition: CommandDefinition) -> bool {
    &&& definition.is("join"@, "Join a voice channel"@, 0)
}

/// The command as it is registered: `join`, without options.
pub fn register() -> (definition: CommandDefinition)
    ensures
        is_registered(definition),
{
    CommandDefinition::new("join", "Join a voice channel")
}

} // verus!
