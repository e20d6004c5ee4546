//! `/leave`: takes the player out of its voice channel.

use crate::commands::CommandDefinition;
use crate::misc::LeaveError;
use vstd::prelude::*;

verus! {

/// The answer to `/leave`, from how leaving went.
pub fn handle(left: Result<(), LeaveError>) -> (reply: String)
    ensures
        reply@ == match left {
            Ok(_) => "Left the voice channel"@,
            Err(error) => error.text_of(),
        },
{
    match left {
        Ok(_) => "Left the voice channel".to_owned(),
        Err(error) => error.text(),
    }
}

/// Whether `definition` is this command as it is registered: its name, its
/// description and its options.
pub open spec fn is_registered(definition: CommandDefinition) -> bool {
    &&& definition.is("leave"@, "Leave a voice channel"@, 0)
}

/// The command as it is registered: `leave`, without options.
pub fn register() -> (definition: CommandDefinition)
    ensures
        is_registered(definition),
{
    CommandDefinition::new("leave", "Leave a voice channel")
}

} // verus!
