//! `/stop`: ends the module that plays.

use crate::commands::CommandDefinition;
use crate::session::{lemma_suffix_no_duplicates, slot_hashes, VoiceSessionData};
use vstd::prelude::*;

verus! {

/// Stops playback: the module that plays is let go and the pause is
/// lifted. The queue stays. Where nothing plays, nothing changes.
pub fn handle<M>(data: &mut VoiceSessionData<M>) -> (reply: String)
    ensures
        old(data).current_module is None ==> reply@ == "No module is currently playing"@
            && *final(data) == *old(data),
        old(data).current_module is Some ==> reply@ == "Playback stopped"@ && *final(data) == (
        VoiceSessionData { current_module: None, paused: false, ..*old(data) }),
        old(data).wf() ==> final(data).wf(),
{
    if data.current_module.is_some() {
        data.current_module = None;
        data.paused = false;
        proof {
            if old(data).wf() {
                assert(old(data).hashes() =~= slot_hashes(old(data).current_module) + data.hashes());
                lemma_suffix_no_duplicates(slot_hashes(old(data).current_module), data.hashes());
            }
        }
        "Playback stopped".to_owned()
    } else {
        "No module is currently playing".to_owned()
    }
}

/// Whether `definition` is this command as it is registered: its name, its
/// description and its options.
pub open spec fn is_registered(definition: CommandDefinition) -> bool {
    &&& definition.is("stop"@, "Stop playback"@, 0)
}

/// The command as it is registered: `stop`, without options.
pub fn register() -> (definition: CommandDefinition)
    ensures
        is_registered(definition),
{
    CommandDefinition::new("stop", "Stop playback")
}

} // verus!
