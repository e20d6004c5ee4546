//! `/message`: shows the text that the author of a module left in it.

use crate::commands::CommandDefinition;
use crate::misc::{escape_backticks, escape_backticks_text};
use crate::session::VoiceSessionData;
use vstd::prelude::*;
use vstd::string::*;

verus! {

/// A song message inside a code block, its backticks escaped so that it
/// cannot leave the block.
pub open spec fn message_text(message: Seq<char>) -> Seq<char> {
    "## Song message\n```"@ + escape_backticks_text(message) + "```"@
}

/// The answer to `/message`, where `message` is the text that the module
/// that plays carries. It is not looked at where nothing plays.
pub fn handle<M>(data: &VoiceSessionData<M>, message: &str) -> (reply: String)
    ensures
        reply@ == if data.current_module is Some {
            message_text(message@)
        } else {
            "No module is currently playing"@
        },
{
    if data.current_module.is_some() {
        let mut reply = "## Song message\n```".to_owned();
        let escaped = escape_backticks(message);
        reply.append(escaped.as_str());
        reply.append("```");
        reply
    } else {
        "No module is currently playing".to_owned()
    }
}

/// Why an answer could not be delivered.
#[derive(Debug, Clone, PartialEq, Eq)]
pub enum DeliveryError {
    /// The answer is longer than the platform takes.
    MessageTooLong,
    /// Another fault that the platform's data model names, with its words.
    Model(String),
    /// Anything else.
    Other,
}

impl DeliveryError {
    /// What to answer in place of an answer that could not be delivered.
    pub open spec fn notice_text(self) -> Option<Seq<char>> {
        match self {
            DeliveryError::MessageTooLong => Some("We've reached Discord's character limit. Sorry."@),
            DeliveryError::Model(words) => Some("Error: "@ + words@),
            DeliveryError::Other => None,
        }
    }

    /// The answer to send in place of the one that failed; `None` where
    /// the fault is only to be logged.
    pub fn notice(&self) -> (reply: Option<String>)
        ensures
            match reply {
                Some(r) => self.notice_text() == Some(r@),
                None => self.notice_text() is None,
            },
    {
        match self {
            DeliveryError::MessageTooLong => Some(
                "We've reached Discord's character limit. Sorry.".to_owned(),
            ),
            DeliveryError::Model(words) => {
                let mut reply = "Error: ".to_owned();
                reply.append(words.as_str());
                Some(reply)
            },
            DeliveryError::Other => None,
        }
    }
}

/// Whether `definition` is this command as it is registered: its name, its
/// description and its options.
pub open spec fn is_registered(definition: CommandDefinition) -> bool {
    &&& definition.is("message"@, "Print currently playing module's song message"@, 0)
}

/// The command as it is registered: `message`, without options.
pub fn register() -> (definition: CommandDefinition)
    ensures
        is_registered(definition),
{
    CommandDefinition::new("message", "Print currently playing module's song message")
}

} // verus!
