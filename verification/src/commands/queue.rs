//! `/queue`: lists the module that plays and the pending ones.

use crate::commands::CommandDefinition;
use crate::misc::{decimal, duration_text, push_decimal, push_duration};
use crate::session::{PlaybackClock, VoiceSessionData, WrappedModule};
use std::collections::VecDeque;
use vstd::prelude::*;
use vstd::string::*;

verus! {

/// The line for the module that plays: its name, the position and the full
/// length, and a mark where playback is paused.
pub open spec fn current_text<M>(module: WrappedModule<M>, paused: bool, clock: PlaybackClock) -> Seq<char> {
    "Currently playing: **"@ + module.listed_title_text() + "** ("@ + duration_text(
        (clock.position_millis / 1000) as nat,
    ) + "/"@ + duration_text((clock.duration_millis / 1000) as nat) + ")"@ + if paused {
        " (paused)"@
    } else {
        Seq::empty()
    } + "\n"@
}

/// The line for the queued module with the number `number`.
pub open spec fn entry_line<M>(number: nat, module: WrappedModule<M>) -> Seq<char> {
    decimal(number) + ": **"@ + module.listed_title_text() + "** ("@ + duration_text(
        module.duration_seconds as nat,
    ) + ")\n"@
}

/// The lines for the first `count` modules of `queue`, numbered from one.
pub open spec fn entry_lines<M>(queue: Seq<WrappedModule<M>>, count: nat) -> Seq<char>
    decreases count,
{
    if count == 0 {
        Seq::empty()
    } else {
        entry_lines(queue, (count - 1) as nat) + entry_line(count, queue[count - 1])
    }
}

/// The part of the listing that is about the queue.
pub open spec fn queue_text<M>(queue: Seq<WrappedModule<M>>) -> Seq<char> {
    if queue.len() == 0 {
        "The queue is empty. Use /play to pick a song."@
    } else {
        "Current song queue:\n"@ + entry_lines(queue, queue.len())
    }
}

/// The whole listing: the module that plays, if one does, then the queue.
pub open spec fn listing_text<M>(data: VoiceSessionData<M>, clock: PlaybackClock) -> Seq<char> {
    match data.current_module {
        Some(module) => current_text(module, data.paused, clock) + queue_text(data.module_queue@),
        None => queue_text(data.module_queue@),
    }
}

fn push_current<M>(out: &mut String, module: &WrappedModule<M>, paused: bool, clock: &PlaybackClock)
    ensures
        final(out)@ == old(out)@ + current_text(*module, paused, *clock),
{
    let title = module.listed_title();
    out.append("Currently playing: **");
    out.append(title.as_str());
    out.append("** (");
    push_duration(out, clock.position_seconds());
    out.append("/");
    push_duration(out, clock.duration_seconds());
    out.append(")");
    if paused {
        out.append(" (paused)");
    }
    out.append("\n");
    assert(out@ =~= old(out)@ + current_text(*module, paused, *clock));
}

fn push_entry<M>(out: &mut String, number: u64, module: &WrappedModule<M>)
    ensures
        final(out)@ == old(out)@ + entry_line(number as nat, *module),
{
    let title = module.listed_title();
    push_decimal(out, number);
    out.append(": **");
    out.append(title.as_str());
    out.append("** (");
    push_duration(out, module.duration_seconds);
    out.append(")\n");
    assert(out@ =~= old(out)@ + entry_line(number as nat, *module));
}

fn push_queue<M>(out: &mut String, queue: &VecDeque<WrappedModule<M>>)
    ensures
        final(out)@ == old(out)@ + queue_text(queue@),
{
    if queue.len() == 0 {
        out.append("The queue is empty. Use /play to pick a song.");
    } else {
        out.append("Current song queue:\n");
        let ghost head = out@;
        let mut i: usize = 0;
        assert(out@ =~= head + entry_lines(queue@, 0));
        while i < queue.len()
            invariant
                i <= queue@.len(),
                out@ == head + entry_lines(queue@, i as nat),
            decreases queue@.len() - i,
        {
            push_entry(out, (i + 1) as u64, &queue[i]);
            assert(out@ =~= head + entry_lines(queue@, (i + 1) as nat));
            i = i + 1;
        }
        assert(out@ =~= old(out)@ + queue_text(queue@));
    }
}

/// The answer to `/queue`. `clock` tells where the module that plays
/// stands; it is not looked at where nothing plays. The session stays as
/// it is.
pub fn handle<M>(data: &VoiceSessionData<M>, clock: PlaybackClock) -> (reply: String)
    ensures
        reply@ == listing_text(*data, clock),
{
    let mut reply = String::new();
    match &data.current_module {
        Some(module) => {
            push_current(&mut reply, module, data.paused, &clock);
        },
        None => {},
    }
    push_queue(&mut reply, &data.module_queue);
    assert(reply@ =~= listing_text(*data, clock));
    reply
}

/// Whether `definition` is this command as it is registered: its name, its
/// description and its options.
pub open spec fn is_registered(definition: CommandDefinition) -> bool {
    &&& definition.is("queue"@, "View the current song queue"@, 0)
}

/// The command as it is registered: `queue`, without options.
pub fn register() -> (definition: CommandDefinition)
    ensures
        is_registered(definition),
{
    CommandDefinition::new("queue", "View the current song queue")
}

} // verus!
