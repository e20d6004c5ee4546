//! Where an event of the platform goes: to a command, to the vote, to the
//! end of a session, or nowhere.

use vstd::prelude::*;
use vstd::string::*;

verus! {

/// The kinds of interaction that the platform reports.
#[derive(Debug, Clone, Copy, PartialEq, Eq, Structural)]
pub enum InteractionKind {
    /// A command was given.
    Command,
    /// A button was pressed.
    Button,
    /// Another component was used.
    Component,
    /// Anything else.
    Other,
}

/// Where an interaction goes.
#[derive(Debug, Clone, Copy, PartialEq, Eq, Structural)]
pub enum Route {
    /// To the command of that name.
    Command,
    /// To the vote that runs.
    Vote,
    /// Nowhere.
    Ignore,
}

/// Whether `text` starts with `prefix`.
pub open spec fn starts_with(text: Seq<char>, prefix: Seq<char>) -> bool {
    prefix.len() <= text.len() && text.subrange(0, prefix.len() as int) == prefix
}

/// Where an interaction of `kind` goes; `custom_id` is the identifier of
/// the component, for a component. Commands go to their handlers, and the
/// press of a button whose identifier starts with `vote` goes to the vote.
pub open spec fn route_of(kind: InteractionKind, custom_id: Seq<char>) -> Route {
    match kind {
        InteractionKind::Command => Route::Command,
        InteractionKind::Button => if starts_with(custom_id, "vote"@) {
            Route::Vote
        } else {
            Route::Ignore
        },
        _ => Route::Ignore,
    }
}

/// Whether `text` starts with `prefix`.
pub fn has_prefix(text: &str, prefix: &str) -> (found: bool)
    ensures
        found == starts_with(text@, prefix@),
{
    let n = prefix.unicode_len();
    if text.unicode_len() < n {
        return false;
    }
    let mut i: usize = 0;
    while i < n
        invariant
            i <= n,
            n == prefix@.len(),
            n <= text@.len(),
            text@.subrange(0, i as int) == prefix@.subrange(0, i as int),
        decreases n - i,
    {
        if text.get_char(i) != prefix.get_char(i) {
            assert(text@.subrange(0, n as int)[i as int] != prefix@[i as int]);
            return false;
        }
        assert(text@.subrange(0, i + 1) =~= text@.subrange(0, i as int).push(text@[i as int]));
        assert(prefix@.subrange(0, i + 1) =~= prefix@.subrange(0, i as int).push(prefix@[i as int]));
        i = i + 1;
    }
    assert(prefix@.subrange(0, n as int) =~= prefix@);
    true
}

/// Routes an interaction.
pub fn route_interaction(kind: InteractionKind, custom_id: &str) -> (route: Route)
    ensures
        route == route_of(kind, custom_id@),
{
    match kind {
        InteractionKind::Command => Route::Command,
        InteractionKind::Button => {
            if has_prefix(custom_id, "vote") {
                Route::Vote
            } else {
                Route::Ignore
            }
        },
        _ => Route::Ignore,
    }
}

/// A change of a user's voice state, as far as the player looks at it.
#[derive(Debug, Clone, Copy, PartialEq, Eq, Structural)]
pub struct VoiceStateChange {
    /// The guild it happened in, if it happened in one.
    pub guild: Option<u64>,
    /// The user it is about, if the platform names one.
    pub member: Option<u64>,
    /// The voice channel that user is in now, if any.
    pub channel: Option<u64>,
}

/// What a change of voice state asks of the player.
#[derive(Debug, Clone, Copy, PartialEq, Eq, Structural)]
pub struct VoiceStateActions {
    /// The guild whose session is to be taken away because the player was
    /// disconnected.
    pub remove_session: Option<u64>,
    /// The guild whose voice channel is to be left because nobody is in it
    /// any more. The session's text channel is told "No users in the voice
    /// channel, leaving".
    pub leave: Option<u64>,
}

/// Whether the change tells that the player itself, the user `bot`, was
/// put out of its voice channel.
pub open spec fn is_forced_disconnect(bot: u64, change: VoiceStateChange) -> bool {
    change.member == Some(bot) && change.channel is None
}

/// Whether nobody but the player is in its voice channel, where
/// `occupants` counts everyone in it, the player included, and is `None`
/// where the player is in no voice channel.
pub open spec fn is_alone(occupants: Option<usize>) -> bool {
    match occupants {
        Some(count) => count <= 1,
        None => false,
    }
}

/// What the change asks for. `occupants` counts the users in the player's
/// voice channel in that guild, and `session_exists` tells whether the
/// guild has a session.
///
/// A forced disconnect takes the guild's session away. Apart from that, a
/// change in a guild makes the player leave its voice channel there if
/// nobody else is in it and the guild has a session that is not being
/// taken away.
pub open spec fn actions_of(
    bot: u64,
    change: VoiceStateChange,
    occupants: Option<usize>,
    session_exists: bool,
) -> VoiceStateActions {
    match change.guild {
        None => VoiceStateActions { remove_session: None, leave: None },
        Some(guild) => if is_forced_disconnect(bot, change) {
            VoiceStateActions { remove_session: Some(guild), leave: None }
        } else if is_alone(occupants) && session_exists {
            VoiceStateActions { remove_session: None, leave: Some(guild) }
        } else {
            VoiceStateActions { remove_session: None, leave: None }
        },
    }
}

/// Decides what a change of voice state asks of the player.
pub fn voice_state_update(
    bot: u64,
    change: VoiceStateChange,
    occupants: Option<usize>,
    session_exists: bool,
) -> (actions: VoiceStateActions)
    ensures
        actions == actions_of(bot, change, occupants, session_exists),
{
    let guild = match change.guild {
        None => {
            return VoiceStateActions { remove_session: None, leave: None };
        },
        Some(guild) => guild,
    };
    let forced = match change.member {
        Some(member) => member == bot && change.channel.is_none(),
        None => false,
    };
    if forced {
        return VoiceStateActions { remove_session: Some(guild), leave: None };
    }
    let alone = match occupants {
        Some(count) => count <= 1,
        None => false,
    };
    if alone && session_exists {
        VoiceStateActions { remove_session: None, leave: Some(guild) }
    } else {
        VoiceStateActions { remove_session: None, leave: None }
    }
}

/// What the text channel is told when the player leaves an empty voice
/// channel.
pub fn empty_channel_text() -> (text: &'static str)
    ensures
        text@ == "No users in the voice channel, leaving"@,
{
    "No users in the voice channel, leaving"
}

} // verus!
