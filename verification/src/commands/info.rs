//! `/info`: shows what the decoder tells of the module that plays.

use crate::commands::CommandDefinition;
use crate::misc::{duration_text, push_duration, push_signed_decimal, signed_decimal};
use crate::session::{PlaybackClock, VoiceSessionData};
use vstd::prelude::*;
use vstd::string::*;

verus! {

/// What the decoder tells of the module that plays.
#[derive(Debug, Clone, PartialEq, Eq)]
pub struct ModuleDetails {
    pub channels: i32,
    pub instruments: i32,
    pub orders: i32,
    pub patterns: i32,
    pub samples: i32,
    pub subsongs: i32,
    pub row: i32,
    pub order: i32,
    pub pattern: i32,
    pub speed: i32,
    /// The tempo, written out.
    pub tempo: String,
    pub clock: PlaybackClock,
    /// Metadata keys with their values, in the order to show them in.
    pub metadata: Vec<(String, String)>,
}

/// The number of metadata keys that `/info` asks the decoder for.
pub const METADATA_KEY_COUNT: usize = 11;

/// The metadata key with the number `index`, counted from zero.
pub open spec fn metadata_key_text(index: int) -> Seq<char> {
    if index == 0 {
        "type"@
    } else if index == 1 {
        "type_long"@
    } else if index == 2 {
        "originaltype"@
    } else if index == 3 {
        "originaltype_long"@
    } else if index == 4 {
        "container"@
    } else if index == 5 {
        "container_long"@
    } else if index == 6 {
        "tracker"@
    } else if index == 7 {
        "artist"@
    } else if index == 8 {
        "title"@
    } else if index == 9 {
        "date"@
    } else {
        "warnings"@
    }
}

/// The metadata keys that `/info` asks the decoder for, in order.
pub fn metadata_keys() -> (keys: Vec<&'static str>)
    ensures
        keys@.len() == METADATA_KEY_COUNT,
        forall|i: int| 0 <= i < keys@.len() ==> (#[trigger] keys@[i])@ == metadata_key_text(i),
{
    let mut keys: Vec<&'static str> = Vec::new();
    keys.push("type");
    keys.push("type_long");
    keys.push("originaltype");
    keys.push("originaltype_long");
    keys.push("container");
    keys.push("container_long");
    keys.push("tracker");
    keys.push("artist");
    keys.push("title");
    keys.push("date");
    keys.push("warnings");
    keys
}

/// The block of counts.
pub open spec fn details_text(d: ModuleDetails) -> Seq<char> {
    "## Module details\nChannels: "@ + signed_decimal(d.channels as int) + "\nInstruments: "@
        + signed_decimal(d.instruments as int) + "\nOrders: "@ + signed_decimal(d.orders as int)
        + "\nPatterns: "@ + signed_decimal(d.patterns as int) + "\nSamples: "@ + signed_decimal(
        d.samples as int,
    ) + "\nSubsongs: "@ + signed_decimal(d.subsongs as int)
}

/// The block that tells where playback stands.
pub open spec fn playback_text(d: ModuleDetails) -> Seq<char> {
    "## Playback details\nRow "@ + signed_decimal(d.row as int) + ", order "@ + signed_decimal(
        d.order as int,
    ) + " (pattern "@ + signed_decimal(d.pattern as int) + ")\nSpeed/tempo: "@ + signed_decimal(
        d.speed as int,
    ) + "/"@ + d.tempo@ + "\nPosition/duration: "@ + duration_text(
        (d.clock.position_millis / 1000) as nat,
    ) + "/"@ + duration_text((d.clock.duration_millis / 1000) as nat)
}

/// The line for one metadata key: nothing where its value is empty.
pub open spec fn metadata_line(entry: (String, String)) -> Seq<char> {
    if entry.1@.len() == 0 {
        Seq::empty()
    } else {
        entry.0@ + ": "@ + entry.1@ + "\n"@
    }
}

/// The lines for the first `count` entries of `metadata`.
pub open spec fn metadata_lines(metadata: Seq<(String, String)>, count: nat) -> Seq<char>
    decreases count,
{
    if count == 0 {
        Seq::empty()
    } else {
        metadata_lines(metadata, (count - 1) as nat) + metadata_line(metadata[count - 1])
    }
}

/// The block of metadata: a line for each key that has a value.
pub open spec fn metadata_text(metadata: Seq<(String, String)>) -> Seq<char> {
    "## Metadata\n"@ + metadata_lines(metadata, metadata.len())
}

/// The whole answer for a module that is shown as `title`.
pub open spec fn info_text(title: Seq<char>, d: ModuleDetails) -> Seq<char> {
    "# "@ + title + "\n"@ + details_text(d) + "\n"@ + playback_text(d) + "\n"@ + metadata_text(
        d.metadata@,
    )
}

fn push_details(out: &mut String, d: &ModuleDetails)
    ensures
        final(out)@ == old(out)@ + details_text(*d),
{
    out.append("## Module details\nChannels: ");
    push_signed_decimal(out, d.channels as i64);
    out.append("\nInstruments: ");
    push_signed_decimal(out, d.instruments as i64);
    out.append("\nOrders: ");
    push_signed_decimal(out, d.orders as i64);
    out.append("\nPatterns: ");
    push_signed_decimal(out, d.patterns as i64);
    out.append("\nSamples: ");
    push_signed_decimal(out, d.samples as i64);
    out.append("\nSubsongs: ");
    push_signed_decimal(out, d.subsongs as i64);
    assert(out@ =~= old(out)@ + details_text(*d));
}

fn push_playback(out: &mut String, d: &ModuleDetails)
    ensures
        final(out)@ == old(out)@ + playback_text(*d),
{
    out.append("## Playback details\nRow ");
    push_signed_decimal(out, d.row as i64);
    out.append(", order ");
    push_signed_decimal(out, d.order as i64);
    out.append(" (pattern ");
    push_signed_decimal(out, d.pattern as i64);
    out.append(")\nSpeed/tempo: ");
    push_signed_decimal(out, d.speed as i64);
    out.append("/");
    out.append(d.tempo.as_str());
    out.append("\nPosition/duration: ");
    push_duration(out, d.clock.position_seconds());
    out.append("/");
    push_duration(out, d.clock.duration_seconds());
    assert(out@ =~= old(out)@ + playback_text(*d));
}

fn push_metadata(out: &mut String, metadata: &Vec<(String, String)>)
    ensures
        final(out)@ == old(out)@ + metadata_text(metadata@),
{
    out.append("## Metadata\n");
    let ghost head = out@;
    let mut i: usize = 0;
    assert(out@ =~= head + metadata_lines(metadata@, 0));
    while i < metadata.len()
        invariant
            i <= metadata@.len(),
            out@ == head + metadata_lines(metadata@, i as nat),
        decreases metadata@.len() - i,
    {
        let entry = &metadata[i];
        if !entry.1.as_str().is_empty() {
            out.append(entry.0.as_str());
            out.append(": ");
            out.append(entry.1.as_str());
            out.append("\n");
        }
        assert(out@ =~= head + metadata_lines(metadata@, (i + 1) as nat));
        i = i + 1;
    }
    assert(out@ =~= old(out)@ + metadata_text(metadata@));
}

/// The answer to `/info`, where `details` is what the decoder tells of the
/// module that plays. It is not looked at where nothing plays.
pub fn handle<M>(data: &VoiceSessionData<M>, details: &ModuleDetails) -> (reply: String)
    ensures
        reply@ == match data.current_module {
            Some(module) => info_text(module.shown_title_text(), *details),
            None => "No module is currently playing"@,
        },
{
    match &data.current_module {
        None => "No module is currently playing".to_owned(),
        Some(module) => {
            let title = module.shown_title();
            let mut reply = "# ".to_owned();
            reply.append(title.as_str());
            reply.append("\n");
            push_details(&mut reply, details);
            reply.append("\n");
            push_playback(&mut reply, details);
            reply.append("\n");
            push_metadata(&mut reply, &details.metadata);
            assert(reply@ =~= info_text(module.shown_title_text(), *details));
            reply
        },
    }
}

/// Whether `definition` is this command as it is registered: its name, its
/// description and its options.
pub open spec fn is_registered(definition: CommandDefinition) -> bool {
    &&& definition.is("info"@, "Print info about currently playing module"@, 0)
}

/// The command as it is registered: `info`, without options.
pub fn register() -> (definition: CommandDefinition)
    ensures
        is_registered(definition),
{
    CommandDefinition::new("info", "Print info about currently playing module")
}

} // verus!
