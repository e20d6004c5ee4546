//! `/interpolation`: the resampling filter of the session.

use crate::commands::{CommandDefinition, CommandOption, CommandOptionType, CommandOutcome};
use crate::session::{
    controls_view, DecoderControl, DecoderControlView, Interpolation, VoiceSessionData,
};
use vstd::prelude::*;
use vstd::string::*;

verus! {

/// The answer to a change of the filter to the mode called `name`.
pub open spec fn reply_text(name: Seq<char>) -> Seq<char> {
    "Interpolation changed to **"@ + name + "**"@
}

/// Sets the resampling filter of the session to the mode that `name`
/// chooses, and hands the filter length on to the decoder of the module
/// that plays, if one does. A name that chooses no mode changes nothing
/// and gives `None`.
pub fn handle<M>(data: &mut VoiceSessionData<M>, name: &str) -> (outcome: Option<CommandOutcome>)
    ensures
        old(data).wf() ==> final(data).wf(),
        match Interpolation::of_name(name@) {
            None => outcome is None && *final(data) == *old(data),
            Some(mode) => {
                &&& *final(data) == (VoiceSessionData { interpolation: mode, ..*old(data) })
                &&& outcome matches Some(done)
                &&& done.reply@ == reply_text(name@)
                &&& controls_view(done.controls@) == if old(data).current_module is Some {
                    seq![DecoderControlView::InterpolationFilterLength(mode.openmpt_value())]
                } else {
                    Seq::empty()
                }
            },
        },
{
    match Interpolation::from_name(name) {
        None => None,
        Some(mode) => {
            data.interpolation = mode;
            let mut controls: Vec<DecoderControl> = Vec::new();
            if data.current_module.is_some() {
                controls.push(DecoderControl::InterpolationFilterLength(mode.to_openmpt_value()));
            }
            let mut reply = "Interpolation changed to **".to_owned();
            reply.append(name);
            reply.append("**");
            proof {
                assert(controls_view(controls@) =~= if old(data).current_module is Some {
                    seq![DecoderControlView::InterpolationFilterLength(mode.openmpt_value())]
                } else {
                    Seq::empty()
                });
            }
            Some(CommandOutcome { reply, controls })
        },
    }
}

/// Whether `definition` is this command as it is registered: its name, its
/// description and its options.
pub open spec fn is_registered(definition: CommandDefinition) -> bool {
    &&& definition.is("interpolation"@, "Change interpolation for this session"@, 5)
    &&& definition.options@[0].is(
        CommandOptionType::SubCommand,
        "default"@,
        "Internal default of libopenmpt"@,
        false,
        0,
    )
    &&& definition.options@[1].is(CommandOptionType::SubCommand, "none"@, "No interpolation"@, false, 0)
    &&& definition.options@[2].is(CommandOptionType::SubCommand, "linear"@, "Linear interpolation"@, false, 0)
    &&& definition.options@[3].is(CommandOptionType::SubCommand, "cubic"@, "Cubic interpolation"@, false, 0)
    &&& definition.options@[4].is(
        CommandOptionType::SubCommand,
        "sinc8"@,
        "Windowed sinc with 8 taps interpolation"@,
        false,
        0,
    )
}

/// The command as it is registered: `interpolation`, with a subcommand
/// for each mode.
pub fn register() -> (definition: CommandDefinition)
    ensures
        is_registered(definition),
{
    CommandDefinition::new("interpolation", "Change interpolation for this session").add_option(
        CommandOption::subcommand("default", "Internal default of libopenmpt"),
    ).add_option(CommandOption::subcommand("none", "No interpolation")).add_option(
        CommandOption::subcommand("linear", "Linear interpolation"),
    ).add_option(CommandOption::subcommand("cubic", "Cubic interpolation")).add_option(
        CommandOption::subcommand("sinc8", "Windowed sinc with 8 taps interpolation"),
    )
}

} // verus!
