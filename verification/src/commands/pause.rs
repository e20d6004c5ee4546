//! `/pause`: holds playback.

use crate::commands::CommandDefinition;
use crate::session::VoiceSessionData;
use vstd::prelude::*;

verus! {

/// Pauses the session. A session that is paused already, or in which
/// nothing plays, stays as it is.
pub fn handle<M>(data: &mut VoiceSessionData<M>) -> (reply: String)
    ensures
        old(data).paused ==> reply@ == "Already paused"@ && *final(data) == *old(data),
        !old(data).paused && old(data).current_module is None ==> reply@
            == "No module is currently playing"@ && *final(data) == *old(data),
        !old(data).paused && old(data).current_module is Some ==> reply@ == "Playback paused"@
            && *final(data) == (VoiceSessionData { paused: true, ..*old(data) }),
        old(data).wf() ==> final(data).wf(),
{
    if data.paused {
        "Already paused".to_owned()
    } else if data.current_module.is_some() {
        data.paused = true;
        "Playback paused".to_owned()
    } else {
        "No module is currently playing".to_owned()
    }
}

/// Whether `definition` is this command as it is registered: its name, its
/// description and its options.
pub open spec fn is_registered(definition: CommandDefinition) -> bool {
    &&& definition.is("pause"@, "Pause playback"@, 0)
}

/// The command as it is registered: `pause`, without options.
pub fn register() -> (definition: CommandDefinition)
    ensures
        is_registered(definition),
{
    CommandDefinition::new("pause", "Pause playback")
}

} // verus!
