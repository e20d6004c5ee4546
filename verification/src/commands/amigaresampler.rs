//! `/amigaresampler`: emulation of the Amiga's sound hardware.

use crate::commands::{CommandDefinition, CommandOption, CommandOptionType, CommandOutcome};
use crate::session::{controls_view, DecoderControl, DecoderControlView, VoiceSessionData};
use vstd::prelude::*;
use vstd::string::*;

verus! {

/// Whether `mode` names a kind of emulation.
pub open spec fn is_amiga_type(mode: Seq<char>) -> bool {
    mode == "auto"@ || mode == "a500"@ || mode == "a1200"@ || mode == "unfiltered"@
}

/// The answer to a change of the emulation to the kind called `mode`.
pub open spec fn reply_text(mode: Seq<char>) -> Seq<char> {
    "Amiga resampler changed to **"@ + mode + "**"@
}

/// Whether `mode` is one of `auto`, `a500`, `a1200`, `unfiltered`.
pub fn is_mode(mode: &str) -> (known: bool)
    ensures
        known == is_amiga_type(mode@),
{
    *mode == *"auto" || *mode == *"a500" || *mode == *"a1200" || *mode == *"unfiltered"
}

/// Sets the Amiga emulation of the session. `none` switches it off and
/// leaves the stored kind alone; `auto`, `a500`, `a1200` and `unfiltered`
/// switch it on and store the kind. What changed is handed on to the
/// decoder of the module that plays, if one does. Any other word changes
/// nothing and gives `None`.
pub fn handle<M>(data: &mut VoiceSessionData<M>, mode: &str) -> (outcome: Option<CommandOutcome>)
    ensures
        old(data).wf() ==> final(data).wf(),
        mode@ != "none"@ && !is_amiga_type(mode@) ==> outcome is None && *final(data) == *old(data),
        mode@ == "none"@ ==> {
            &&& *final(data) == (VoiceSessionData { amiga_enabled: false, ..*old(data) })
            &&& outcome matches Some(done)
            &&& done.reply@ == "Amiga resampler disabled"@
            &&& controls_view(done.controls@) == if old(data).current_module is Some {
                seq![DecoderControlView::EmulateAmiga(false)]
            } else {
                Seq::empty()
            }
        },
        mode@ != "none"@ && is_amiga_type(mode@) ==> {
            &&& final(data).amiga_enabled
            &&& final(data).amiga_mode@ == mode@
            &&& final(data).current_module == old(data).current_module
            &&& final(data).module_queue == old(data).module_queue
            &&& final(data).paused == old(data).paused
            &&& final(data).interpolation == old(data).interpolation
            &&& final(data).autosubsong_enabled == old(data).autosubsong_enabled
            &&& final(data).text_channel_id == old(data).text_channel_id
            &&& final(data).current_vote == old(data).current_vote
            &&& outcome matches Some(done)
            &&& done.reply@ == reply_text(mode@)
            &&& controls_view(done.controls@) == if old(data).current_module is Some {
                seq![DecoderControlView::EmulateAmiga(true), DecoderControlView::EmulateAmigaType(mode@)]
            } else {
                Seq::empty()
            }
        },
{
    let mut controls: Vec<DecoderControl> = Vec::new();
    if *mode == *"none" {
        data.amiga_enabled = false;
        if data.current_module.is_some() {
            controls.push(DecoderControl::EmulateAmiga(false));
        }
        proof {
            assert(controls_view(controls@) =~= if old(data).current_module is Some {
                seq![DecoderControlView::EmulateAmiga(false)]
            } else {
                Seq::empty()
            });
        }
        Some(CommandOutcome { reply: "Amiga resampler disabled".to_owned(), controls })
    } else if is_mode(mode) {
        data.amiga_enabled = true;
        data.amiga_mode = mode.to_owned();
        if data.current_module.is_some() {
            controls.push(DecoderControl::EmulateAmiga(true));
            controls.push(DecoderControl::EmulateAmigaType(mode.to_owned()));
        }
        let mut reply = "Amiga resampler changed to **".to_owned();
        reply.append(mode);
        reply.append("**");
        proof {
            assert(controls_view(controls@) =~= if old(data).current_module is Some {
                seq![DecoderControlView::EmulateAmiga(true), DecoderControlView::EmulateAmigaType(mode@)]
            } else {
                Seq::empty()
            });
        }
        Some(CommandOutcome { reply, controls })
    } else {
        None
    }
}

/// Whether `definition` is this command as it is registered: its name, its
/// description and its options.
pub open spec fn is_registered(definition: CommandDefinition) -> bool {
    &&& definition.is("amigaresampler"@, "Change Amiga resampler mode for this session"@, 5)
    &&& definition.options@[0].is(CommandOptionType::SubCommand, "none"@, "Disable Amiga resampling"@, false, 0)
    &&& definition.options@[1].is(
        CommandOptionType::SubCommand,
        "auto"@,
        "Internal default of libopenmpt"@,
        false,
        0,
    )
    &&& definition.options@[2].is(CommandOptionType::SubCommand, "a500"@, "Amiga 500 filtering"@, false, 0)
    &&& definition.options@[3].is(CommandOptionType::SubCommand, "a1200"@, "Amiga 1200 filtering"@, false, 0)
    &&& definition.options@[4].is(
        CommandOptionType::SubCommand,
        "unfiltered"@,
        "BLEP synthesis without model-specific filters"@,
        false,
        0,
    )
}

/// The command as it is registered: `amigaresampler`, with a subcommand
/// for each choice.
pub fn register() -> (definition: CommandDefinition)
    ensures
        is_registered(definition),
{
    CommandDefinition::new("amigaresampler", "Change Amiga resampler mode for this session").add_option(
        CommandOption::subcommand("none", "Disable Amiga resampling"),
    ).add_option(CommandOption::subcommand("auto", "Internal default of libopenmpt")).add_option(
        CommandOption::subcommand("a500", "Amiga 500 filtering"),
    ).add_option(CommandOption::subcommand("a1200", "Amiga 1200 filtering")).add_option(
        CommandOption::subcommand("unfiltered", "BLEP synthesis without model-specific filters"),
    )
}

} // verus!
