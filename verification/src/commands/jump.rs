//! `/jump`: moves playback to an order or to a subsong of the module that
//! plays.

use crate::commands::{CommandDefinition, CommandOption, CommandOptionType, SubOption};
use crate::misc::{push_signed_decimal, signed_decimal};
use crate::session::VoiceSessionData;
use vstd::prelude::*;
use vstd::string::*;

verus! {

/// Where `/jump` goes.
#[derive(Debug, Clone, Copy, PartialEq, Eq, Structural)]
pub enum JumpTarget {
    Order,
    Subsong,
}

/// The target that the subcommand `name` chooses, if it names one.
pub open spec fn target_of(name: Seq<char>) -> Option<JumpTarget> {
    if name == "order"@ {
        Some(JumpTarget::Order)
    } else if name == "subsong"@ {
        Some(JumpTarget::Subsong)
    } else {
        None
    }
}

/// Tells the two subcommands apart. Any other name is answered with the
/// error text.
pub fn handle(name: &str) -> (target: Result<JumpTarget, String>)
    ensures
        match target {
            Ok(t) => target_of(name@) == Some(t),
            Err(reply) => target_of(name@) is None && reply@ == "Something has gone horribly wrong"@,
        },
{
    if *name == *"order" {
        Ok(JumpTarget::Order)
    } else if *name == *"subsong" {
        Ok(JumpTarget::Subsong)
    } else {
        Err("Something has gone horribly wrong".to_owned())
    }
}

/// The number to hand to the decoder for the number `value` that the user
/// gave: the same number where the decoder can take it, which counts in 32
/// bits, and none where it cannot.
pub fn decoder_index(value: i64) -> (index: Option<i32>)
    ensures
        match index {
            Some(i) => i == value,
            None => value < i32::MIN || value > i32::MAX,
        },
{
    if value < -2147483648 || value > 2147483647 {
        None
    } else {
        Some(value as i32)
    }
}

/// The answer to `/jump order`, where the user asked for `order` and
/// `landed` is the order that the decoder reports after it was told to go
/// there (`None` where it was not told, because nothing plays or the
/// number is not one it takes).
pub open spec fn order_text(loaded: bool, order: int, landed: Option<i32>) -> Seq<char> {
    if !loaded {
        "No module is currently playing"@
    } else {
        match landed {
            Some(at) => if at == order {
                "Jumped to order "@ + signed_decimal(order)
            } else {
                "The specified order number is out of range"@
            },
            None => "The specified order number is out of range"@,
        }
    }
}

/// The answer to `/jump subsong`, where the user asked for `subsong` and
/// `selected` tells whether the decoder took it.
pub open spec fn subsong_text(loaded: bool, subsong: int, selected: bool) -> Seq<char> {
    if !loaded {
        "No module is currently playing"@
    } else if selected {
        "Jumped to subsong "@ + signed_decimal(subsong)
    } else {
        "The specified subsong number is out of range"@
    }
}

/// Judges a jump to an order: it took place if the decoder stands at the
/// order that was asked for.
pub fn handle_order<M>(data: &VoiceSessionData<M>, order: i64, landed: Option<i32>) -> (reply: String)
    ensures
        reply@ == order_text(data.current_module is Some, order as int, landed),
{
    if data.current_module.is_none() {
        return "No module is currently playing".to_owned();
    }
    let arrived = match landed {
        Some(at) => at as i64 == order,
        None => false,
    };
    if arrived {
        let mut reply = "Jumped to order ".to_owned();
        push_signed_decimal(&mut reply, order);
        reply
    } else {
        "The specified order number is out of range".to_owned()
    }
}

/// Judges a jump to a subsong: it took place if the decoder took the
/// number.
pub fn handle_subsong<M>(data: &VoiceSessionData<M>, subsong: i64, selected: bool) -> (reply: String)
    ensures
        reply@ == subsong_text(data.current_module is Some, subsong as int, selected),
{
    if data.current_module.is_none() {
        "No module is currently playing".to_owned()
    } else if selected {
        let mut reply = "Jumped to subsong ".to_owned();
        push_signed_decimal(&mut reply, subsong);
        reply
    } else {
        "The specified subsong number is out of range".to_owned()
    }
}

/// Whether `definition` is this command as it is registered: its name, its
/// description and its options.
pub open spec fn is_registered(definition: CommandDefinition) -> bool {
    &&& definition.is("jump"@, "Jump to a specified order in currently playing module"@, 2)
    &&& definition.options@[0].is(CommandOptionType::SubCommand, "order"@, "Jump to a specified order"@, false, 1)
    &&& definition.options@[0].sub_options@[0].is(CommandOptionType::Integer, "order"@, "Order to jump to"@, true)
    &&& definition.options@[1].is(
        CommandOptionType::SubCommand,
        "subsong"@,
        "Jump to a specified subsong"@,
        false,
        1,
    )
    &&& definition.options@[1].sub_options@[0].is(
        CommandOptionType::Integer,
        "subsong"@,
        "Subsong to jump to"@,
        true,
    )
}

/// The command as it is registered: `jump`, with a subcommand for each
/// target, which takes the number to go to.
pub fn register() -> (definition: CommandDefinition)
    ensures
        is_registered(definition),
{
    let order = CommandOption::subcommand_with(
        "order",
        "Jump to a specified order",
        SubOption::required(CommandOptionType::Integer, "order", "Order to jump to"),
    );
    let subsong = CommandOption::subcommand_with(
        "subsong",
        "Jump to a specified subsong",
        SubOption::required(CommandOptionType::Integer, "subsong", "Subsong to jump to"),
    );
    CommandDefinition::new("jump", "Jump to a specified order in currently playing module").add_option(
        order,
    ).add_option(subsong)
}

} // verus!
