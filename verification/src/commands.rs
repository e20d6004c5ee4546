//! The commands of the player: what each one changes in a session and what
//! it answers.

pub mod amigaresampler;
pub mod autosubsong;
pub mod callvote;
pub mod info;
pub mod interpolation;
pub mod join;
pub mod jump;
pub mod leave;
pub mod message;
pub mod pause;
pub mod play;
pub mod queue;
pub mod readme;
pub mod resume;
pub mod stop;

use crate::session::DecoderControl;
use vstd::prelude::*;
use vstd::string::*;

verus! {

/// What a command that changes a render preference did: its answer, and
/// the settings to apply to the decoder of the module that plays (none
/// where nothing plays).
#[derive(Debug, Clone, PartialEq, Eq)]
pub struct CommandOutcome {
    pub reply: String,
    pub controls: Vec<DecoderControl>,
}

/// The kinds of value that an option of a command takes.
#[derive(Debug, Clone, Copy, PartialEq, Eq, Structural)]
pub enum CommandOptionType {
    SubCommand,
    Text,
    Integer,
    Boolean,
}

/// An option of a subcommand.
#[derive(Debug, Clone, PartialEq, Eq)]
pub struct SubOption {
    pub kind: CommandOptionType,
    pub name: &'static str,
    pub description: &'static str,
    pub required: bool,
}

/// An option of a command: a value, or a subcommand with options of its
/// own.
#[derive(Debug, Clone, PartialEq, Eq)]
pub struct CommandOption {
    pub kind: CommandOptionType,
    pub name: &'static str,
    pub description: &'static str,
    pub required: bool,
    pub sub_options: Vec<SubOption>,
}

/// A command as it is registered with the platform.
#[derive(Debug, Clone, PartialEq, Eq)]
pub struct CommandDefinition {
    pub name: &'static str,
    pub description: &'static str,
    pub options: Vec<CommandOption>,
}

impl SubOption {
    /// Whether this is the option of that kind, name and description.
    pub open spec fn is(self, kind: CommandOptionType, name: Seq<char>, description: Seq<char>, required: bool) -> bool {
        &&& self.kind == kind
        &&& self.name@ == name
        &&& self.description@ == description
        &&& self.required == required
    }

    /// A value that the user has to give.
    pub fn required(kind: CommandOptionType, name: &'static str, description: &'static str) -> (option: Self)
        ensures
            option.is(kind, name@, description@, true),
    {
        SubOption { kind, name, description, required: true }
    }
}

impl CommandOption {
    /// Whether this is the option of that kind, name and description,
    /// with `subs` options of its own.
    pub open spec fn is(
        self,
        kind: CommandOptionType,
        name: Seq<char>,
        description: Seq<char>,
        required: bool,
        subs: nat,
    ) -> bool {
        &&& self.kind == kind
        &&& self.name@ == name
        &&& self.description@ == description
        &&& self.required == required
        &&& self.sub_options@.len() == subs
    }

    /// A value that the user has to give.
    pub fn required(kind: CommandOptionType, name: &'static str, description: &'static str) -> (option: Self)
        ensures
            option.is(kind, name@, description@, true, 0),
    {
        CommandOption { kind, name, description, required: true, sub_options: Vec::new() }
    }

    /// A subcommand without options.
    pub fn subcommand(name: &'static str, description: &'static str) -> (option: Self)
        ensures
            option.is(CommandOptionType::SubCommand, name@, description@, false, 0),
    {
        CommandOption {
            kind: CommandOptionType::SubCommand,
            name,
            description,
            required: false,
            sub_options: Vec::new(),
        }
    }

    /// A subcommand with one option.
    pub fn subcommand_with(name: &'static str, description: &'static str, sub_option: SubOption) -> (option: Self)
        ensures
            option.is(CommandOptionType::SubCommand, name@, description@, false, 1),
            option.sub_options@[0] == sub_option,
    {
        let mut sub_options: Vec<SubOption> = Vec::new();
        sub_options.push(sub_option);
        CommandOption { kind: CommandOptionType::SubCommand, name, description, required: false, sub_options }
    }
}

impl CommandDefinition {
    /// Whether this is the command of that name and description, with
    /// `options` options.
    pub open spec fn is(self, name: Seq<char>, description: Seq<char>, options: nat) -> bool {
        &&& self.name@ == name
        &&& self.description@ == description
        &&& self.options@.len() == options
    }

    /// A command without options.
    pub fn new(name: &'static str, description: &'static str) -> (definition: Self)
        ensures
            definition.is(name@, description@, 0),
    {
        CommandDefinition { name, description, options: Vec::new() }
    }

    /// This command with one more option behind those it has.
    pub fn add_option(self, option: CommandOption) -> (definition: Self)
        ensures
            definition.name == self.name,
            definition.description == self.description,
            definition.options@ == self.options@.push(option),
    {
        let mut definition = self;
        definition.options.push(option);
        definition
    }
}

/// The commands of the player.
#[derive(Debug, Clone, Copy, PartialEq, Eq, Structural)]
pub enum CommandKind {
    Play,
    Join,
    Leave,
    Queue,
    Info,
    Jump,
    Message,
    Callvote,
    Pause,
    Resume,
    Stop,
    Interpolation,
    Amigaresampler,
    Readme,
    Autosubsong,
}

/// How many commands the player has.
pub const COMMAND_COUNT: usize = 15;

/// The guild that gets the commands registered for itself as well, where
/// a change shows at once.
pub const DEVELOPMENT_GUILD_ID: u64 = 1302224187024216175;

impl CommandKind {
    /// The name by which the command is given.
    pub open spec fn name_text(self) -> Seq<char> {
        match self {
            CommandKind::Play => "play"@,
            CommandKind::Join => "join"@,
            CommandKind::Leave => "leave"@,
            CommandKind::Queue => "queue"@,
            CommandKind::Info => "info"@,
            CommandKind::Jump => "jump"@,
            CommandKind::Message => "message"@,
            CommandKind::Callvote => "callvote"@,
            CommandKind::Pause => "pause"@,
            CommandKind::Resume => "resume"@,
            CommandKind::Stop => "stop"@,
            CommandKind::Interpolation => "interpolation"@,
            CommandKind::Amigaresampler => "amigaresampler"@,
            CommandKind::Readme => "readme"@,
            CommandKind::Autosubsong => "autosubsong"@,
        }
    }

    /// The command with the number `index` in the order of registration.
    pub open spec fn at(index: int) -> CommandKind {
        if index == 0 {
            CommandKind::Play
        } else if index == 1 {
            CommandKind::Join
        } else if index == 2 {
            CommandKind::Leave
        } else if index == 3 {
            CommandKind::Queue
        } else if index == 4 {
            CommandKind::Info
        } else if index == 5 {
            CommandKind::Jump
        } else if index == 6 {
            CommandKind::Message
        } else if index == 7 {
            CommandKind::Callvote
        } else if index == 8 {
            CommandKind::Pause
        } else if index == 9 {
            CommandKind::Resume
        } else if index == 10 {
            CommandKind::Stop
        } else if index == 11 {
            CommandKind::Interpolation
        } else if index == 12 {
            CommandKind::Amigaresampler
        } else if index == 13 {
            CommandKind::Readme
        } else {
            CommandKind::Autosubsong
        }
    }

    /// The command that `name` gives, if it names one.
    pub open spec fn of_name(name: Seq<char>) -> Option<CommandKind> {
        if name == "play"@ {
            Some(CommandKind::Play)
        } else if name == "join"@ {
            Some(CommandKind::Join)
        } else if name == "leave"@ {
            Some(CommandKind::Leave)
        } else if name == "queue"@ {
            Some(CommandKind::Queue)
        } else if name == "info"@ {
            Some(CommandKind::Info)
        } else if name == "jump"@ {
            Some(CommandKind::Jump)
        } else if name == "message"@ {
            Some(CommandKind::Message)
        } else if name == "callvote"@ {
            Some(CommandKind::Callvote)
        } else if name == "pause"@ {
            Some(CommandKind::Pause)
        } else if name == "resume"@ {
            Some(CommandKind::Resume)
        } else if name == "stop"@ {
            Some(CommandKind::Stop)
        } else if name == "interpolation"@ {
            Some(CommandKind::Interpolation)
        } else if name == "amigaresampler"@ {
            Some(CommandKind::Amigaresampler)
        } else if name == "readme"@ {
            Some(CommandKind::Readme)
        } else if name == "autosubsong"@ {
            Some(CommandKind::Autosubsong)
        } else {
            None
        }
    }

    /// Whether `definition` is this command as it is registered.
    pub open spec fn is_definition(self, definition: CommandDefinition) -> bool {
        match self {
            CommandKind::Play => play::is_registered(definition),
            CommandKind::Join => join::is_registered(definition),
            CommandKind::Leave => leave::is_registered(definition),
            CommandKind::Queue => queue::is_registered(definition),
            CommandKind::Info => info::is_registered(definition),
            CommandKind::Jump => jump::is_registered(definition),
            CommandKind::Message => message::is_registered(definition),
            CommandKind::Callvote => callvote::is_registered(definition),
            CommandKind::Pause => pause::is_registered(definition),
            CommandKind::Resume => resume::is_registered(definition),
            CommandKind::Stop => stop::is_registered(definition),
            CommandKind::Interpolation => interpolation::is_registered(definition),
            CommandKind::Amigaresampler => amigaresampler::is_registered(definition),
            CommandKind::Readme => readme::is_registered(definition),
            CommandKind::Autosubsong => autosubsong::is_registered(definition),
        }
    }

    /// The command as it is registered with the platform.
    pub fn definition(&self) -> (definition: CommandDefinition)
        ensures
            self.is_definition(definition),
            definition.name@ == self.name_text(),
    {
        match self {
            CommandKind::Play => play::register(),
            CommandKind::Join => join::register(),
            CommandKind::Leave => leave::register(),
            CommandKind::Queue => queue::register(),
            CommandKind::Info => info::register(),
            CommandKind::Jump => jump::register(),
            CommandKind::Message => message::register(),
            CommandKind::Callvote => callvote::register(),
            CommandKind::Pause => pause::register(),
            CommandKind::Resume => resume::register(),
            CommandKind::Stop => stop::register(),
            CommandKind::Interpolation => interpolation::register(),
            CommandKind::Amigaresampler => amigaresampler::register(),
            CommandKind::Readme => readme::register(),
            CommandKind::Autosubsong => autosubsong::register(),
        }
    }
}

/// The command that an interaction with the name `name` is for; `None`
/// for a name that no command has.
pub fn handle_commands(name: &str) -> (kind: Option<CommandKind>)
    ensures
        kind == CommandKind::of_name(name@),
{
    if *name == *"play" {
        Some(CommandKind::Play)
    } else if *name == *"join" {
        Some(CommandKind::Join)
    } else if *name == *"leave" {
        Some(CommandKind::Leave)
    } else if *name == *"queue" {
        Some(CommandKind::Queue)
    } else if *name == *"info" {
        Some(CommandKind::Info)
    } else if *name == *"jump" {
        Some(CommandKind::Jump)
    } else if *name == *"message" {
        Some(CommandKind::Message)
    } else if *name == *"callvote" {
        Some(CommandKind::Callvote)
    } else if *name == *"pause" {
        Some(CommandKind::Pause)
    } else if *name == *"resume" {
        Some(CommandKind::Resume)
    } else if *name == *"stop" {
        Some(CommandKind::Stop)
    } else if *name == *"interpolation" {
        Some(CommandKind::Interpolation)
    } else if *name == *"amigaresampler" {
        Some(CommandKind::Amigaresampler)
    } else if *name == *"readme" {
        Some(CommandKind::Readme)
    } else if *name == *"autosubsong" {
        Some(CommandKind::Autosubsong)
    } else {
        None
    }
}

/// The commands to register, in the order of registration: each command
/// of the player once, under its name.
pub fn register_commands() -> (definitions: Vec<CommandDefinition>)
    ensures
        definitions@.len() == COMMAND_COUNT,
        forall|i: int|
            0 <= i < definitions@.len() ==> CommandKind::at(i).is_definition(#[trigger] definitions@[i]),
        forall|i: int|
            0 <= i < definitions@.len() ==> (#[trigger] definitions@[i]).name@ == CommandKind::at(
                i,
            ).name_text(),
{
    let mut definitions: Vec<CommandDefinition> = Vec::new();
    definitions.push(play::register());
    definitions.push(join::register());
    definitions.push(leave::register());
    definitions.push(queue::register());
    definitions.push(info::register());
    definitions.push(jump::register());
    definitions.push(message::register());
    definitions.push(callvote::register());
    definitions.push(pause::register());
    definitions.push(resume::register());
    definitions.push(stop::register());
    definitions.push(interpolation::register());
    definitions.push(amigaresampler::register());
    definitions.push(readme::register());
    definitions.push(autosubsong::register());
    definitions
}

/// A command is found again by the name it is registered under, so every
/// registered command reaches its handler.
pub proof fn lemma_command_name_round_trip(kind: CommandKind)
    ensures
        CommandKind::of_name(kind.name_text()) == Some(kind),
{
    reveal_strlit("play");
    reveal_strlit("join");
    reveal_strlit("leave");
    reveal_strlit("queue");
    reveal_strlit("info");
    reveal_strlit("jump");
    reveal_strlit("message");
    reveal_strlit("callvote");
    reveal_strlit("pause");
    reveal_strlit("resume");
    reveal_strlit("stop");
    reveal_strlit("interpolation");
    reveal_strlit("amigaresampler");
    reveal_strlit("readme");
    reveal_strlit("autosubsong");
    assert("play"@.len() == 4 && "play"@[0] == 'p');
    assert("join"@.len() == 4 && "join"@[0] == 'j' && "join"@[1] == 'o');
    assert("leave"@.len() == 5 && "leave"@[0] == 'l');
    assert("queue"@.len() == 5 && "queue"@[0] == 'q');
    assert("info"@.len() == 4 && "info"@[0] == 'i');
    assert("jump"@.len() == 4 && "jump"@[0] == 'j' && "jump"@[1] == 'u');
    assert("message"@.len() == 7);
    assert("callvote"@.len() == 8);
    assert("pause"@.len() == 5 && "pause"@[0] == 'p');
    assert("resume"@.len() == 6 && "resume"@[2] == 's');
    assert("stop"@.len() == 4 && "stop"@[0] == 's');
    assert("interpolation"@.len() == 13);
    assert("amigaresampler"@.len() == 14);
    assert("readme"@.len() == 6 && "readme"@[2] == 'a');
    assert("autosubsong"@.len() == 11);
}

/// The answer of every command that needs a session, where the guild has
/// none.
pub fn session_required() -> (reply: String)
    ensures
        reply@ == "The bot must be in a voice channel"@,
{
    "The bot must be in a voice channel".to_owned()
}

} // verus!
