//! `/readme`: tells what the player is for.

use crate::commands::CommandDefinition;
use vstd::prelude::*;

verus! {

/// The answer to `/readme`. It needs no session.
pub fn handle() -> (reply: &'static str)
    ensures
        reply@
            == "# Hi!\nThis is Modulo, a Discord music bot for playing back tracker music files (aka MOD music files or just tracker modules).\nIf you added this bot expecting it to play YouTube videos or MP3s, **this is not the bot for you**. This bot is mainly intended to be used in tracker or demoscene centric communities.\nOtherwise, enjoy the music!\n\nPlease note that the bot is in early stages of development. See the Help section below for more details.\n# Getting started\nStart by invoking the /play command, to which you should provide a URL of the module file you want to play. The bot will join whatever voice channel you are in (otherwise it will fail). Invoking /play again during a playing module will put the provided module into the queue.\n# Help\nPlease make an issue on the [GitHub issue tracker](https://github.com/polyzium/modulo/issues) or contact `polyzium` on Discord for any serious issues that may arise."@,
{
    "# Hi!\nThis is Modulo, a Discord music bot for playing back tracker music files (aka MOD music files or just tracker modules).\nIf you added this bot expecting it to play YouTube videos or MP3s, **this is not the bot for you**. This bot is mainly intended to be used in tracker or demoscene centric communities.\nOtherwise, enjoy the music!\n\nPlease note that the bot is in early stages of development. See the Help section below for more details.\n# Getting started\nStart by invoking the /play command, to which you should provide a URL of the module file you want to play. The bot will join whatever voice channel you are in (otherwise it will fail). Invoking /play again during a playing module will put the provided module into the queue.\n# Help\nPlease make an issue on the [GitHub issue tracker](https://github.com/polyzium/modulo/issues) or contact `polyzium` on Discord for any serious issues that may arise."
}

/// Whether `definition` is this command as it is registered: its name, its
/// description and its options.
pub open spec fn is_registered(definition: CommandDefinition) -> bool {
    &&& definition.is("readme"@, "If you're new, please run this!"@, 0)
}

/// The command as it is registered: `readme`, without options.
pub fn register() -> (definition: CommandDefinition)
    ensures
        is_registered(definition),
{
    CommandDefinition::new("readme", "If you're new, please run this!")
}

} // verus!
