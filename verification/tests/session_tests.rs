use modulo::session::{
    frames_in_buffer, DecoderControl, Interpolation, PlaybackClock, PullAction, VoiceSessionControlMessage,
    VoiceSessionData, VoiceSessionNotificationMessage, WrappedModule, CHANNELS, SAMPLE_RATE,
};

fn module(name: &str, title: &str, seconds: u64) -> WrappedModule<u32> {
    WrappedModule::new(format!("{name}.mod"), format!("hash-{name}"), title.to_string(), seconds, 0)
}

#[test]
fn interpolation_values() {
    assert_eq!(Interpolation::Default.to_openmpt_value(), 0);
    assert_eq!(Interpolation::NoInterpolation.to_openmpt_value(), 1);
    assert_eq!(Interpolation::Linear.to_openmpt_value(), 2);
    assert_eq!(Interpolation::Cubic.to_openmpt_value(), 4);
    assert_eq!(Interpolation::Sinc8.to_openmpt_value(), 8);
}

#[test]
fn interpolation_round_trip() {
    for value in [0, 1, 2, 4, 8] {
        assert_eq!(Interpolation::from_openmpt_value(value).to_openmpt_value(), value);
    }
    for mode in [
        Interpolation::Default,
        Interpolation::NoInterpolation,
        Interpolation::Linear,
        Interpolation::Cubic,
        Interpolation::Sinc8,
    ] {
        assert_eq!(Interpolation::from_openmpt_value(mode.to_openmpt_value()), mode);
    }
}

#[test]
fn interpolation_names() {
    assert_eq!(Interpolation::from_name("default"), Some(Interpolation::Default));
    assert_eq!(Interpolation::from_name("none"), Some(Interpolation::NoInterpolation));
    assert_eq!(Interpolation::from_name("linear"), Some(Interpolation::Linear));
    assert_eq!(Interpolation::from_name("cubic"), Some(Interpolation::Cubic));
    assert_eq!(Interpolation::from_name("sinc8"), Some(Interpolation::Sinc8));
    assert_eq!(Interpolation::from_name("sinc16"), None);
    assert_eq!(Interpolation::from_name(""), None);
    assert_eq!(Interpolation::from_name("Linear"), None);
    for mode in [
        Interpolation::Default,
        Interpolation::NoInterpolation,
        Interpolation::Linear,
        Interpolation::Cubic,
        Interpolation::Sinc8,
    ] {
        assert_eq!(Interpolation::from_name(mode.name()), Some(mode));
    }
}

#[test]
fn notification_texts() {
    assert_eq!(
        VoiceSessionNotificationMessage::EndOfQueue.text(),
        Some("End of queue reached, no more songs to play".to_string())
    );
    assert_eq!(
        VoiceSessionNotificationMessage::PlayingNextInQueue("a_b".to_string()).text(),
        Some("Now playing: **a\\_b**".to_string())
    );
    assert_eq!(
        VoiceSessionNotificationMessage::PlayingSubsong(3).text(),
        Some("Playing subsong 3".to_string())
    );
    assert_eq!(
        VoiceSessionNotificationMessage::PlayingSubsong(-1).text(),
        Some("Playing subsong -1".to_string())
    );
    assert_eq!(VoiceSessionNotificationMessage::Leave.text(), None);
}

#[test]
fn new_session_defaults() {
    let data: VoiceSessionData<u32> = VoiceSessionData::new(77);
    assert!(data.current_module.is_none());
    assert!(!data.paused);
    assert_eq!(data.interpolation, Interpolation::Default);
    assert!(!data.amiga_enabled);
    assert_eq!(data.amiga_mode, "auto");
    assert!(!data.autosubsong_enabled);
    assert_eq!(data.text_channel_id, 77);
    assert!(data.module_queue.is_empty());
    assert!(data.current_vote.is_none());
    assert!(!data.should_render());
}

#[test]
fn session_controls_follow_preferences() {
    let mut data: VoiceSessionData<u32> = VoiceSessionData::new(1);
    data.interpolation = Interpolation::Cubic;
    data.amiga_enabled = true;
    data.amiga_mode = "a1200".to_string();
    assert_eq!(
        data.controls(),
        vec![
            DecoderControl::InterpolationFilterLength(4),
            DecoderControl::EmulateAmiga(true),
            DecoderControl::EmulateAmigaType("a1200".to_string()),
        ]
    );
}

#[test]
fn should_render_needs_module_and_no_pause() {
    let mut data: VoiceSessionData<u32> = VoiceSessionData::new(1);
    assert!(!data.should_render());
    data.current_module = Some(module("a", "A", 10));
    assert!(data.should_render());
    data.paused = true;
    assert!(!data.should_render());
}

#[test]
fn play_next_in_queue_is_fifo() {
    let mut data: VoiceSessionData<u32> = VoiceSessionData::new(1);
    data.current_module = Some(module("first", "First", 10));
    data.module_queue.push_back(module("a", "A", 10));
    data.module_queue.push_back(module("b", "", 20));
    data.module_queue.push_back(module("c", "C*", 30));

    let advance = data.play_next_in_queue();
    assert_eq!(advance.notification, VoiceSessionNotificationMessage::PlayingNextInQueue("A".to_string()));
    assert_eq!(advance.controls.len(), 3);
    assert_eq!(data.current_module.as_ref().map(|m| m.filehash.as_str()), Some("hash-a"));
    assert_eq!(data.module_queue.len(), 2);

    let advance = data.play_next_in_queue();
    assert_eq!(advance.notification, VoiceSessionNotificationMessage::PlayingNextInQueue("b.mod".to_string()));
    assert_eq!(data.current_module.as_ref().map(|m| m.filehash.as_str()), Some("hash-b"));

    let advance = data.play_next_in_queue();
    assert_eq!(advance.notification, VoiceSessionNotificationMessage::PlayingNextInQueue("C*".to_string()));
    assert_eq!(data.current_module.as_ref().map(|m| m.filehash.as_str()), Some("hash-c"));
    assert!(data.module_queue.is_empty());

    let advance = data.play_next_in_queue();
    assert_eq!(advance.notification, VoiceSessionNotificationMessage::EndOfQueue);
    assert!(advance.controls.is_empty());
    assert!(data.current_module.is_none());
}

#[test]
fn play_next_in_queue_applies_preferences_and_keeps_pause() {
    let mut data: VoiceSessionData<u32> = VoiceSessionData::new(1);
    data.paused = true;
    data.interpolation = Interpolation::Sinc8;
    data.module_queue.push_back(module("a", "A", 10));
    let advance = data.handle_control(VoiceSessionControlMessage::PlayNextInQueue);
    assert_eq!(
        advance.controls,
        vec![
            DecoderControl::InterpolationFilterLength(8),
            DecoderControl::EmulateAmiga(false),
            DecoderControl::EmulateAmigaType("auto".to_string()),
        ]
    );
    assert!(data.paused);
    assert_eq!(data.interpolation, Interpolation::Sinc8);
}

#[test]
fn after_render_full_buffer_continues() {
    let data: VoiceSessionData<u32> = VoiceSessionData::new(1);
    assert_eq!(data.after_render(480, 480, 0, 3), PullAction::Continue);
    assert_eq!(data.after_render(0, 0, 0, 3), PullAction::Continue);
}

#[test]
fn after_render_without_autosubsong_plays_next() {
    let data: VoiceSessionData<u32> = VoiceSessionData::new(1);
    assert_eq!(data.after_render(480, 100, 0, 3), PullAction::PlayNextInQueue);
    assert_eq!(data.after_render(480, 0, 2, 3), PullAction::PlayNextInQueue);
}

#[test]
fn after_render_autosubsong_boundary() {
    let mut data: VoiceSessionData<u32> = VoiceSessionData::new(1);
    data.autosubsong_enabled = true;
    assert_eq!(data.after_render(480, 479, 2, 3), PullAction::PlayNextInQueue);
    assert_eq!(data.after_render(480, 479, 1, 3), PullAction::PlaySubsong(2));
    assert_eq!(data.after_render(480, 479, 0, 3), PullAction::PlaySubsong(1));
    assert_eq!(data.after_render(480, 479, 0, 1), PullAction::PlayNextInQueue);
    assert_eq!(data.after_render(480, 479, -1, 1), PullAction::PlaySubsong(0));
    assert_eq!(data.after_render(480, 479, 0, i32::MIN), PullAction::PlaySubsong(1));
}

#[test]
fn frames_in_buffer_counts_stereo_floats() {
    assert_eq!(frames_in_buffer(0), 0);
    assert_eq!(frames_in_buffer(8), 1);
    assert_eq!(frames_in_buffer(15), 1);
    assert_eq!(frames_in_buffer(3840), 480);
    assert_eq!(SAMPLE_RATE, 48000);
    assert_eq!(CHANNELS, 2);
}

#[test]
fn playback_clock_seconds() {
    let clock = PlaybackClock { position_millis: 61_999, duration_millis: 125_000 };
    assert_eq!(clock.position_seconds(), 61);
    assert_eq!(clock.duration_seconds(), 125);
    assert!(clock.has_remaining(63));
    assert!(!clock.has_remaining(64));
    let past = PlaybackClock { position_millis: 10, duration_millis: 5 };
    assert!(!past.has_remaining(0));
    assert!(!clock.has_remaining(u64::MAX));
    assert!(clock.has_remaining(0));
}

#[test]
fn module_titles() {
    let titled = module("a", "My *Song*", 1);
    assert_eq!(titled.display_title(), "My *Song*");
    assert_eq!(titled.listed_title(), "My \\*Song\\*");
    assert_eq!(titled.shown_title(), "My *Song*");
    let untitled = module("b_c", "", 1);
    assert_eq!(untitled.display_title(), "b_c.mod");
    assert_eq!(untitled.listed_title(), "b_c.mod");
    assert_eq!(untitled.shown_title(), "[No title]");
}

#[test]
fn teardown_stops_timer_only_with_vote() {
    let mut data: VoiceSessionData<u32> = VoiceSessionData::new(1);
    let last = data.teardown();
    assert_eq!(last.notification, VoiceSessionNotificationMessage::Leave);
    assert!(!last.stop_vote_timer);
    data.current_vote = Some(modulo::vote::Vote::new(5, 1, modulo::vote::VoteKind::Skip, 3));
    assert!(data.teardown().stop_vote_timer);
}
