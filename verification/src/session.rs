//! The playback session of one guild: the module that plays, the pending
//! queue, the render preferences and what the audio path decides when the
//! decoder runs out of data.

use crate::misc::{escape_markdown, escape_markdown_text, push_signed_decimal, signed_decimal};
use crate::vote::Vote;
use std::collections::VecDeque;
use vstd::prelude::*;
use vstd::string::*;

verus! {

/// Sample rate of the audio handed to the voice transport, in Hz.
pub const SAMPLE_RATE: i32 = 48000;

/// Interleaved channels of the audio handed to the voice transport.
pub const CHANNELS: usize = 2;

/// Size in bytes of one sample (a 32-bit float).
pub const BYTES_PER_SAMPLE: usize = 4;

/// Slots of the channel that carries notifications to the notifier task.
pub const NOTIFICATION_CAPACITY: usize = 64;

/// Slots of the channel that carries control messages to the audio path.
pub const CONTROL_CAPACITY: usize = 8;

/// Resampling filter of the decoder. The numbers are the decoder's own
/// filter lengths and are handed through unchanged.
#[derive(Debug, Clone, Copy, PartialEq, Eq, Structural)]
pub enum Interpolation {
    Default,
    /// No interpolation at all.
    NoInterpolation,
    Linear,
    Cubic,
    Sinc8,
}

impl Interpolation {
    /// The decoder's filter length for this mode.
    pub open spec fn openmpt_value(self) -> int {
        match self {
            Interpolation::Default => 0,
            Interpolation::NoInterpolation => 1,
            Interpolation::Linear => 2,
            Interpolation::Cubic => 4,
            Interpolation::Sinc8 => 8,
        }
    }

    /// Whether `value` is the filter length of a mode.
    pub open spec fn is_openmpt_value(value: int) -> bool {
        value == 0 || value == 1 || value == 2 || value == 4 || value == 8
    }

    /// The mode whose filter length is `value`.
    pub open spec fn of_openmpt_value(value: int) -> Interpolation {
        if value == 0 {
            Interpolation::Default
        } else if value == 1 {
            Interpolation::NoInterpolation
        } else if value == 2 {
            Interpolation::Linear
        } else if value == 4 {
            Interpolation::Cubic
        } else {
            Interpolation::Sinc8
        }
    }

    /// The name a mode is chosen by.
    pub open spec fn name_text(self) -> Seq<char> {
        match self {
            Interpolation::Default => "default"@,
            Interpolation::NoInterpolation => "none"@,
            Interpolation::Linear => "linear"@,
            Interpolation::Cubic => "cubic"@,
            Interpolation::Sinc8 => "sinc8"@,
        }
    }

    /// The mode chosen by `name`, if it names one.
    pub open spec fn of_name(name: Seq<char>) -> Option<Interpolation> {
        if name == "default"@ {
            Some(Interpolation::Default)
        } else if name == "none"@ {
            Some(Interpolation::NoInterpolation)
        } else if name == "linear"@ {
            Some(Interpolation::Linear)
        } else if name == "cubic"@ {
            Some(Interpolation::Cubic)
        } else if name == "sinc8"@ {
            Some(Interpolation::Sinc8)
        } else {
            None
        }
    }

    /// The filter length to hand to the decoder for this mode.
    pub fn to_openmpt_value(&self) -> (value: i32)
        ensures
            value == self.openmpt_value(),
            Self::is_openmpt_value(value as int),
    {
        match self {
            Interpolation::Default => 0,
            Interpolation::NoInterpolation => 1,
            Interpolation::Linear => 2,
            Interpolation::Cubic => 4,
            Interpolation::Sinc8 => 8,
        }
    }

    /// The mode of a filter length. Only 0, 1, 2, 4 and 8 are filter
    /// lengths of a mode.
    pub fn from_openmpt_value(value: i32) -> (mode: Self)
        requires
            Self::is_openmpt_value(value as int),
        ensures
            mode == Self::of_openmpt_value(value as int),
            mode.openmpt_value() == value,
    {
        if value == 0 {
            Interpolation::Default
        } else if value == 1 {
            Interpolation::NoInterpolation
        } else if value == 2 {
            Interpolation::Linear
        } else if value == 4 {
            Interpolation::Cubic
        } else {
            Interpolation::Sinc8
        }
    }

    /// The mode that the subcommand `name` chooses: one of `default`,
    /// `none`, `linear`, `cubic`, `sinc8`.
    pub fn from_name(name: &str) -> (mode: Option<Self>)
        ensures
            mode == Self::of_name(name@),
    {
        if *name == *"default" {
            Some(Interpolation::Default)
        } else if *name == *"none" {
            Some(Interpolation::NoInterpolation)
        } else if *name == *"linear" {
            Some(Interpolation::Linear)
        } else if *name == *"cubic" {
            Some(Interpolation::Cubic)
        } else if *name == *"sinc8" {
            Some(Interpolation::Sinc8)
        } else {
            None
        }
    }

    /// The name this mode is chosen by.
    pub fn name(&self) -> (name: &'static str)
        ensures
            name@ == self.name_text(),
    {
        match self {
            Interpolation::Default => "default",
            Interpolation::NoInterpolation => "none",
            Interpolation::Linear => "linear",
            Interpolation::Cubic => "cubic",
            Interpolation::Sinc8 => "sinc8",
        }
    }
}

/// A mode survives the way to its filter length and back, and so does each
/// of the five filter lengths.
pub proof fn lemma_interpolation_round_trip(mode: Interpolation, value: int)
    ensures
        Interpolation::is_openmpt_value(mode.openmpt_value()),
        Interpolation::of_openmpt_value(mode.openmpt_value()) == mode,
        Interpolation::is_openmpt_value(value) ==> Interpolation::of_openmpt_value(
            value,
        ).openmpt_value() == value,
{
}

/// The five modes have five different filter lengths.
pub proof fn lemma_interpolation_values_differ(a: Interpolation, b: Interpolation)
    ensures
        a.openmpt_value() == b.openmpt_value() <==> a == b,
{
}

/// A mode is found again by its name.
pub proof fn lemma_interpolation_name_round_trip(mode: Interpolation)
    ensures
        Interpolation::of_name(mode.name_text()) == Some(mode),
{
    reveal_strlit("default");
    reveal_strlit("none");
    reveal_strlit("linear");
    reveal_strlit("cubic");
    reveal_strlit("sinc8");
    assert("default"@.len() == 7);
    assert("none"@.len() == 4);
    assert("linear"@.len() == 6);
    assert("cubic"@.len() == 5);
    assert("sinc8"@.len() == 5);
    assert("cubic"@[0] == 'c');
    assert("sinc8"@[0] == 's');
}

/// What the audio path reports to the notifier task, which alone posts
/// messages for it.
#[derive(Debug, Clone, PartialEq, Eq)]
pub enum VoiceSessionNotificationMessage {
    EndOfQueue,
    PlayingNextInQueue(String),
    PlayingSubsong(i32),
    Leave,
}

impl VoiceSessionNotificationMessage {
    /// The message that the notifier posts for a notification. `Leave`
    /// posts nothing: it ends the notifier.
    pub open spec fn text_of(self) -> Option<Seq<char>> {
        match self {
            VoiceSessionNotificationMessage::EndOfQueue => Some(
                "End of queue reached, no more songs to play"@,
            ),
            VoiceSessionNotificationMessage::PlayingNextInQueue(title) => Some(
                "Now playing: **"@ + escape_markdown_text(title@) + "**"@,
            ),
            VoiceSessionNotificationMessage::PlayingSubsong(number) => Some(
                "Playing subsong "@ + signed_decimal(number as int),
            ),
            VoiceSessionNotificationMessage::Leave => None,
        }
    }

    /// The message to post for this notification, or `None` where the
    /// notifier has to stop.
    pub fn text(&self) -> (text: Option<String>)
        ensures
            text is Some <==> !(self is Leave),
            match text {
                Some(t) => self.text_of() == Some(t@),
                None => self.text_of() is None,
            },
    {
        match self {
            VoiceSessionNotificationMessage::EndOfQueue => Some(
                "End of queue reached, no more songs to play".to_owned(),
            ),
            VoiceSessionNotificationMessage::PlayingNextInQueue(title) => {
                let mut t = "Now playing: **".to_owned();
                let escaped = escape_markdown(title.as_str());
                t.append(escaped.as_str());
                t.append("**");
                Some(t)
            },
            VoiceSessionNotificationMessage::PlayingSubsong(number) => {
                let mut t = "Playing subsong ".to_owned();
                push_signed_decimal(&mut t, *number as i64);
                Some(t)
            },
            VoiceSessionNotificationMessage::Leave => None,
        }
    }
}

/// What is asked of the audio path from outside of it.
#[derive(Debug, Clone, Copy, PartialEq, Eq, Structural)]
pub enum VoiceSessionControlMessage {
    PlayNextInQueue,
}

/// A setting to apply to the decoder of the module that plays.
#[derive(Debug, Clone, PartialEq, Eq)]
pub enum DecoderControl {
    /// The render parameter for the interpolation filter length.
    InterpolationFilterLength(i32),
    /// The switch `render.resampler.emulate_amiga`.
    EmulateAmiga(bool),
    /// The text `render.resampler.emulate_amiga_type`.
    EmulateAmigaType(String),
}

/// A setting as plain values: which one it is, its number or switch, and
/// its text.
pub enum DecoderControlView {
    InterpolationFilterLength(int),
    EmulateAmiga(bool),
    EmulateAmigaType(Seq<char>),
}

impl View for DecoderControl {
    type V = DecoderControlView;

    open spec fn view(&self) -> DecoderControlView {
        match *self {
            DecoderControl::InterpolationFilterLength(n) => DecoderControlView::InterpolationFilterLength(
                n as int,
            ),
            DecoderControl::EmulateAmiga(on) => DecoderControlView::EmulateAmiga(on),
            DecoderControl::EmulateAmigaType(mode) => DecoderControlView::EmulateAmigaType(mode@),
        }
    }
}

/// The settings in `controls`, in order, as plain values.
pub open spec fn controls_view(controls: Seq<DecoderControl>) -> Seq<DecoderControlView> {
    controls.map_values(|c: DecoderControl| c@)
}

/// A module that was loaded: where it came from, the digest of its bytes,
/// what the decoder said of it when it was loaded, and the decoder itself.
///
/// The decoder `module` is moved with the value and never copied: a module
/// is in one place at a time.
#[derive(Debug)]
pub struct WrappedModule<M> {
    pub filename: String,
    pub filehash: String,
    /// The title from the module's metadata, empty where it has none.
    pub title: String,
    /// The rendered length in whole seconds.
    pub duration_seconds: u64,
    pub module: M,
}

/// `title`, or `fallback` where the title is empty.
pub open spec fn title_or(title: Seq<char>, fallback: Seq<char>) -> Seq<char> {
    if title.len() == 0 {
        fallback
    } else {
        title
    }
}

impl<M> WrappedModule<M> {
    /// The name to announce the module by: its title, or its file name
    /// where it has no title.
    pub open spec fn display_title_text(self) -> Seq<char> {
        title_or(self.title@, self.filename@)
    }

    /// The name to list the module by: its title escaped for chat markup,
    /// or its file name as it is where it has no title.
    pub open spec fn listed_title_text(self) -> Seq<char> {
        title_or(escape_markdown_text(self.title@), self.filename@)
    }

    /// The name to show where a module must have one: its title, or
    /// "[No title]".
    pub open spec fn shown_title_text(self) -> Seq<char> {
        title_or(self.title@, "[No title]"@)
    }

    /// A loaded module with what is known of it.
    pub fn new(
        filename: String,
        filehash: String,
        title: String,
        duration_seconds: u64,
        module: M,
    ) -> (wrapped: Self)
        ensures
            wrapped.filename == filename,
            wrapped.filehash == filehash,
            wrapped.title == title,
            wrapped.duration_seconds == duration_seconds,
            wrapped.module == module,
    {
        WrappedModule { filename, filehash, title, duration_seconds, module }
    }

    /// The name to announce the module by.
    pub fn display_title(&self) -> (name: String)
        ensures
            name@ == self.display_title_text(),
    {
        if self.title.as_str().is_empty() {
            self.filename.clone()
        } else {
            self.title.clone()
        }
    }

    /// The name to list the module by.
    pub fn listed_title(&self) -> (name: String)
        ensures
            name@ == self.listed_title_text(),
    {
        let escaped = escape_markdown(self.title.as_str());
        if escaped.as_str().is_empty() {
            self.filename.clone()
        } else {
            escaped
        }
    }

    /// The name to show where a module must have one.
    pub fn shown_title(&self) -> (name: String)
        ensures
            name@ == self.shown_title_text(),
    {
        if self.title.as_str().is_empty() {
            "[No title]".to_owned()
        } else {
            self.title.clone()
        }
    }
}

/// The digests of the modules in `queue`, in order.
pub open spec fn queue_hashes<M>(queue: Seq<WrappedModule<M>>) -> Seq<Seq<char>> {
    Seq::new(queue.len(), |i: int| queue[i].filehash@)
}

/// The digest of the module in `slot`, if there is one.
pub open spec fn slot_hashes<M>(slot: Option<WrappedModule<M>>) -> Seq<Seq<char>> {
    match slot {
        Some(m) => seq![m.filehash@],
        None => Seq::empty(),
    }
}

/// Where the module that plays stands, as the decoder tells it: the
/// position and the full length, in milliseconds.
#[derive(Debug, Clone, Copy, PartialEq, Eq, Structural)]
pub struct PlaybackClock {
    pub position_millis: u64,
    pub duration_millis: u64,
}

impl PlaybackClock {
    /// The time that is left to play, in milliseconds.
    pub open spec fn remaining_millis(self) -> int {
        self.duration_millis - self.position_millis
    }

    /// The position in whole seconds.
    pub fn position_seconds(&self) -> (seconds: u64)
        ensures
            seconds == self.position_millis / 1000,
    {
        self.position_millis / 1000
    }

    /// The full length in whole seconds.
    pub fn duration_seconds(&self) -> (seconds: u64)
        ensures
            seconds == self.duration_millis / 1000,
    {
        self.duration_millis / 1000
    }

    /// Whether at least `seconds` seconds are left to play.
    pub fn has_remaining(&self, seconds: u64) -> (enough: bool)
        ensures
            enough == (self.remaining_millis() >= seconds * 1000),
    {
        if self.duration_millis < self.position_millis {
            return false;
        }
        match seconds.checked_mul(1000) {
            Some(millis) => self.duration_millis - self.position_millis >= millis,
            None => false,
        }
    }
}

/// What the audio path does after it asked the decoder for audio.
#[derive(Debug, Clone, Copy, PartialEq, Eq, Structural)]
pub enum PullAction {
    /// The decoder filled the buffer: nothing to do.
    Continue,
    /// The module is over: ask for the next one in the queue.
    PlayNextInQueue,
    /// The subsong is over and another follows: select it and announce it.
    PlaySubsong(i32),
}

/// What "play next in queue" did.
#[derive(Debug)]
pub struct QueueAdvance {
    /// What to tell the notifier.
    pub notification: VoiceSessionNotificationMessage,
    /// The session's preferences, to apply to the decoder of the module that
    /// now plays; empty where none does.
    pub controls: Vec<DecoderControl>,
}

/// The last things to do for a session.
#[derive(Debug)]
pub struct Teardown {
    /// What to tell the notifier.
    pub notification: VoiceSessionNotificationMessage,
    /// Whether a countdown is to be told to stop.
    pub stop_vote_timer: bool,
}

/// The state of one guild's session. `M` is the decoder that a module
/// carries.
pub struct VoiceSessionData<M> {
    pub current_module: Option<WrappedModule<M>>,
    pub paused: bool,
    pub interpolation: Interpolation,
    pub amiga_enabled: bool,
    pub amiga_mode: String,
    pub autosubsong_enabled: bool,
    pub text_channel_id: u64,
    pub module_queue: VecDeque<WrappedModule<M>>,
    pub current_vote: Option<Vote>,
}

impl<M> VoiceSessionData<M> {
    /// The digests of all modules the session holds: that of the module
    /// that plays, if any, then those of the queue in order.
    pub open spec fn hashes(self) -> Seq<Seq<char>> {
        slot_hashes(self.current_module) + queue_hashes(self.module_queue@)
    }

    /// All modules the session holds: the one that plays, if any, then the
    /// queued ones in order.
    pub open spec fn modules(self) -> Seq<WrappedModule<M>> {
        match self.current_module {
            Some(current) => seq![current] + self.module_queue@,
            None => self.module_queue@,
        }
    }

    /// No module is held twice: the digests of the module that plays and of
    /// the queued ones all differ.
    pub open spec fn wf(self) -> bool {
        self.hashes().no_duplicates()
    }

    /// Whether audio is to be rendered: a module plays and is not paused.
    pub open spec fn renders(self) -> bool {
        self.current_module is Some && !self.paused
    }

    /// The three preferences that a decoder gets when its module starts.
    pub open spec fn controls_text(self) -> Seq<DecoderControlView> {
        seq![
            DecoderControlView::InterpolationFilterLength(self.interpolation.openmpt_value()),
            DecoderControlView::EmulateAmiga(self.amiga_enabled),
            DecoderControlView::EmulateAmigaType(self.amiga_mode@),
        ]
    }

    /// Everything but the module that plays and the queue is the same in
    /// `self` and `other`.
    pub open spec fn same_settings(self, other: Self) -> bool {
        &&& self.paused == other.paused
        &&& self.interpolation == other.interpolation
        &&& self.amiga_enabled == other.amiga_enabled
        &&& self.amiga_mode@ == other.amiga_mode@
        &&& self.autosubsong_enabled == other.autosubsong_enabled
        &&& self.text_channel_id == other.text_channel_id
        &&& self.current_vote == other.current_vote
    }

    /// A fresh session that posts to `text_channel_id`: nothing plays, the
    /// queue is empty, no vote runs, and the preferences are the defaults.
    pub fn new(text_channel_id: u64) -> (data: Self)
        ensures
            data.current_module is None,
            !data.paused,
            data.interpolation == Interpolation::Default,
            !data.amiga_enabled,
            data.amiga_mode@ == "auto"@,
            !data.autosubsong_enabled,
            data.text_channel_id == text_channel_id,
            data.module_queue@.len() == 0,
            data.current_vote is None,
            data.wf(),
    {
        VoiceSessionData {
            current_module: None,
            paused: false,
            interpolation: Interpolation::Default,
            amiga_enabled: false,
            amiga_mode: "auto".to_owned(),
            autosubsong_enabled: false,
            text_channel_id,
            module_queue: VecDeque::with_capacity(16),
            current_vote: None,
        }
    }

    /// The session's preferences as settings for a decoder.
    pub fn controls(&self) -> (controls: Vec<DecoderControl>)
        ensures
            controls_view(controls@) == self.controls_text(),
    {
        let mut controls: Vec<DecoderControl> = Vec::new();
        controls.push(DecoderControl::InterpolationFilterLength(self.interpolation.to_openmpt_value()));
        controls.push(DecoderControl::EmulateAmiga(self.amiga_enabled));
        controls.push(DecoderControl::EmulateAmigaType(self.amiga_mode.clone()));
        assert(controls_view(controls@) =~= self.controls_text());
        controls
    }

    /// Whether the audio path has to ask the decoder for audio; otherwise
    /// it hands out silence.
    pub fn should_render(&self) -> (render: bool)
        ensures
            render == self.renders(),
    {
        self.current_module.is_some() && !self.paused
    }

    /// What follows when the decoder handed out `rendered_frames` of the
    /// `requested_frames` asked for, with `selected_subsong` selected out
    /// of `subsong_count`.
    ///
    /// Fewer frames than asked for mean that the data is over. Then the
    /// next subsong follows if the session plays all subsongs and the
    /// selected one is not the last; else the next module in the queue.
    pub open spec fn pull_action(
        self,
        requested_frames: int,
        rendered_frames: int,
        selected_subsong: int,
        subsong_count: int,
    ) -> PullAction {
        if rendered_frames >= requested_frames {
            PullAction::Continue
        } else if !self.autosubsong_enabled || selected_subsong == subsong_count - 1 {
            PullAction::PlayNextInQueue
        } else {
            PullAction::PlaySubsong((selected_subsong + 1) as i32)
        }
    }

    /// Decides what the audio path does after a render.
    pub fn after_render(
        &self,
        requested_frames: usize,
        rendered_frames: usize,
        selected_subsong: i32,
        subsong_count: i32,
    ) -> (action: PullAction)
        requires
            selected_subsong < i32::MAX,
        ensures
            action == self.pull_action(
                requested_frames as int,
                rendered_frames as int,
                selected_subsong as int,
                subsong_count as int,
            ),
            action matches PullAction::PlaySubsong(next) ==> next == selected_subsong + 1,
    {
        if rendered_frames >= requested_frames {
            PullAction::Continue
        } else if !self.autosubsong_enabled || selected_subsong as i64 == subsong_count as i64 - 1 {
            PullAction::PlayNextInQueue
        } else {
            PullAction::PlaySubsong(selected_subsong + 1)
        }
    }

    /// Moves on in the queue. With an empty queue nothing plays any more
    /// and the end of the queue is announced. Otherwise the module at the
    /// front leaves the queue and plays, it gets the session's preferences,
    /// and it is announced by its title, or by its file name where it has
    /// no title. Pause, preferences and a running vote stay as they are.
    pub fn play_next_in_queue(&mut self) -> (advance: QueueAdvance)
        ensures
            final(self).same_settings(*old(self)),
            old(self).wf() ==> final(self).wf(),
            old(self).module_queue@.len() == 0 ==> {
                &&& final(self).current_module is None
                &&& final(self).module_queue@ == old(self).module_queue@
                &&& advance.notification is EndOfQueue
                &&& advance.controls@.len() == 0
            },
            old(self).module_queue@.len() > 0 ==> {
                &&& final(self).current_module == Some(old(self).module_queue@[0])
                &&& final(self).module_queue@ == old(self).module_queue@.drop_first()
                &&& advance.notification matches VoiceSessionNotificationMessage::PlayingNextInQueue(title)
                &&& title@ == old(self).module_queue@[0].display_title_text()
                &&& controls_view(advance.controls@) == old(self).controls_text()
            },
    {
        match self.module_queue.pop_front() {
            None => {
                self.current_module = None;
                proof {
                    assert(self.hashes() =~= queue_hashes(old(self).module_queue@));
                    if old(self).wf() {
                        assert(old(self).hashes() =~= slot_hashes(old(self).current_module)
                            + self.hashes());
                        lemma_suffix_no_duplicates(slot_hashes(old(self).current_module), self.hashes());
                    }
                }
                QueueAdvance { notification: VoiceSessionNotificationMessage::EndOfQueue, controls: Vec::new() }
            },
            Some(queued_module) => {
                let title = queued_module.display_title();
                self.current_module = Some(queued_module);
                let controls = self.controls();
                proof {
                    assert(self.module_queue@ =~= old(self).module_queue@.drop_first());
                    assert(self.hashes() =~= queue_hashes(old(self).module_queue@));
                    if old(self).wf() {
                        assert(old(self).hashes() =~= slot_hashes(old(self).current_module)
                            + self.hashes());
                        lemma_suffix_no_duplicates(slot_hashes(old(self).current_module), self.hashes());
                    }
                }
                QueueAdvance {
                    notification: VoiceSessionNotificationMessage::PlayingNextInQueue(title),
                    controls,
                }
            },
        }
    }

    /// What is left to do for a session that was taken away: the notifier
    /// is told to leave, and the countdown of a running vote is told to
    /// stop.
    pub fn teardown(&self) -> (last: Teardown)
        ensures
            last.notification is Leave,
            last.stop_vote_timer == (self.current_vote is Some),
    {
        Teardown {
            notification: VoiceSessionNotificationMessage::Leave,
            stop_vote_timer: self.current_vote.is_some(),
        }
    }

    /// Carries out a control message.
    pub fn handle_control(&mut self, message: VoiceSessionControlMessage) -> (advance: QueueAdvance)
        ensures
            final(self).same_settings(*old(self)),
            old(self).wf() ==> final(self).wf(),
            old(self).module_queue@.len() == 0 ==> {
                &&& final(self).current_module is None
                &&& final(self).module_queue@ == old(self).module_queue@
                &&& advance.notification is EndOfQueue
                &&& advance.controls@.len() == 0
            },
            old(self).module_queue@.len() > 0 ==> {
                &&& final(self).current_module == Some(old(self).module_queue@[0])
                &&& final(self).module_queue@ == old(self).module_queue@.drop_first()
                &&& advance.notification matches VoiceSessionNotificationMessage::PlayingNextInQueue(title)
                &&& title@ == old(self).module_queue@[0].display_title_text()
                &&& controls_view(advance.controls@) == old(self).controls_text()
            },
    {
        match message {
            VoiceSessionControlMessage::PlayNextInQueue => self.play_next_in_queue(),
        }
    }
}

/// The number of frames that fit a buffer of `buffer_bytes` bytes: a frame
/// is one 32-bit sample for each of the two channels.
pub fn frames_in_buffer(buffer_bytes: usize) -> (frames: usize)
    ensures
        frames == (buffer_bytes / 4) / 2,
{
    buffer_bytes / BYTES_PER_SAMPLE / CHANNELS
}

/// The queue is first in, first out: a module that joins the queue stands
/// behind all that were in it, those keep their places, and when the front
/// leaves, the newcomer is still the last.
pub proof fn lemma_queue_is_fifo<M>(queue: Seq<WrappedModule<M>>, module: WrappedModule<M>)
    ensures
        queue.push(module).len() == queue.len() + 1,
        queue.push(module).last() == module,
        forall|i: int| 0 <= i < queue.len() ==> queue.push(module)[i] == queue[i],
        queue.len() > 0 ==> queue.push(module).drop_first() == queue.drop_first().push(module),
        queue.len() == 0 ==> queue.push(module)[0] == module && queue.push(module).drop_first().len()
            == 0,
{
    if queue.len() > 0 {
        assert(queue.push(module).drop_first() =~= queue.drop_first().push(module));
    }
}

/// A module changes its place and is never copied: after "play next in
/// queue" the session holds the modules that were queued, each once and in
/// their order, and no other.
pub proof fn lemma_advance_moves_modules<M>(before: VoiceSessionData<M>, after: VoiceSessionData<M>)
    requires
        before.module_queue@.len() > 0,
        after.current_module == Some(before.module_queue@[0]),
        after.module_queue@ == before.module_queue@.drop_first(),
    ensures
        after.modules() == before.module_queue@,
{
    assert(after.modules() =~= before.module_queue@);
}

/// A session that took a module into its queue holds one module more: the
/// newcomer, behind all that it held.
pub proof fn lemma_enqueue_adds_module<M>(
    before: VoiceSessionData<M>,
    after: VoiceSessionData<M>,
    module: WrappedModule<M>,
)
    requires
        after.current_module == before.current_module,
        after.module_queue@ == before.module_queue@.push(module),
    ensures
        after.modules() == before.modules().push(module),
{
    assert(after.modules() =~= before.modules().push(module));
}

/// In a session that holds no module twice, the module that plays is not
/// in the queue as well, and no module is in the queue at two places.
pub proof fn lemma_module_is_held_once<M>(data: VoiceSessionData<M>)
    requires
        data.wf(),
    ensures
        data.current_module matches Some(current) ==> !queue_hashes(data.module_queue@).contains(
            current.filehash@,
        ),
        forall|i: int, j: int|
            0 <= i < j < data.module_queue@.len() ==> data.module_queue@[i].filehash@
                != data.module_queue@[j].filehash@,
{
    let head = slot_hashes(data.current_module);
    let tail = queue_hashes(data.module_queue@);
    let all = data.hashes();
    if data.current_module is Some {
        let current = data.current_module->0;
        if tail.contains(current.filehash@) {
            let k = choose|k: int| 0 <= k < tail.len() && tail[k] == current.filehash@;
            assert(all[0] == current.filehash@);
            assert(all[head.len() + k] == tail[k]);
        }
    }
    assert forall|i: int, j: int| 0 <= i < j < data.module_queue@.len() implies data.module_queue@[i].filehash@
        != data.module_queue@[j].filehash@ by {
        assert(all[head.len() + i] == tail[i]);
        assert(all[head.len() + j] == tail[j]);
    }
}

/// Taking one element out of a sequence without duplicates leaves none.
pub proof fn lemma_remove_no_duplicates<A>(s: Seq<A>, i: int)
    requires
        s.no_duplicates(),
        0 <= i < s.len(),
    ensures
        s.remove(i).no_duplicates(),
{
    let r = s.remove(i);
    assert forall|a: int, b: int| 0 <= a < r.len() && 0 <= b < r.len() && a != b implies r[a] != r[b] by {
        let sa = if a < i { a } else { a + 1 };
        let sb = if b < i { b } else { b + 1 };
        assert(r[a] == s[sa]);
        assert(r[b] == s[sb]);
    }
}

/// A sequence without duplicates has none behind any of its prefixes.
pub proof fn lemma_suffix_no_duplicates<A>(head: Seq<A>, tail: Seq<A>)
    requires
        (head + tail).no_duplicates(),
    ensures
        tail.no_duplicates(),
{
    assert forall|i: int, j: int| 0 <= i < tail.len() && 0 <= j < tail.len() && i != j implies tail[i]
        != tail[j] by {
        assert((head + tail)[head.len() + i] == tail[i]);
        assert((head + tail)[head.len() + j] == tail[j]);
    }
}

} // verus!
