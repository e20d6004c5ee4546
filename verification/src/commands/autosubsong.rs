//! `/autosubsong`: whether all subsongs of a module play in turn.

use crate::commands::{CommandDefinition, CommandOption, CommandOptionType};
use crate::session::VoiceSessionData;
use vstd::prelude::*;

verus! {

/// The answer to `/autosubsong`.
pub open spec fn reply_text(enabled: bool) -> Seq<char> {
    if enabled {
        "The bot will now play all subsongs in a module"@
    } else {
        "The bot will no longer play all subsongs in a module"@
    }
}

/// Stores whether the session plays all subsongs of a module.
pub fn handle<M>(data: &mut VoiceSessionData<M>, enabled: bool) -> (reply: String)
    ensures
        reply@ == reply_text(enabled),
        *final(data) == (VoiceSessionData { autosubsong_enabled: enabled, ..*old(data) }),
        old(data).wf() ==> final(data).wf(),
{
    data.autosubsong_enabled = enabled;
    if enabled {
        "The bot will now play all subsongs in a module".to_owned()
    } else {
        "The bot will no longer play all subsongs in a module".to_owned()
    }
}

/// Whether `definition` is this command as it is registered: its name, its
/// description and its options.
pub open spec fn is_registered(definition: CommandDefinition) -> bool {
    &&& definition.is("autosubsong"@, "Whether to automatically play all subsongs in a module"@, 1)
    &&& definition.options@[0].is(
        CommandOptionType::Boolean,
        "enabled"@,
        "Should the bot play all subsongs?"@,
        true,
        0,
    )
}

/// The command as it is registered: `autosubsong`, with its switch.
pub fn register() -> (definition: CommandDefinition)
    ensures
        is_registered(definition),
{
    CommandDefinition::new(
        "autosubsong",
        "Whether to automatically play all subsongs in a module",
    ).add_option(
        CommandOption::required(CommandOptionType::Boolean, "enabled", "Should the bot play all subsongs?"),
    )
}

} // verus!
