use modulo::session::{VoiceSessionControlMessage, VoiceSessionData, WrappedModule};
use modulo::vote::{
    announce, countdown_tick, end_vote, handle_voting, reminder_text, resolve, session_required, TimerStep,
    Vote, VoteKind, VoteStatus, TIMER_SIGNAL_CAPACITY, VOTE_SECONDS,
};

fn song(name: &str) -> WrappedModule<u32> {
    WrappedModule::new(format!("{name}.xm"), format!("hash-{name}"), name.to_string(), 60, 0)
}

fn session_with_vote(kind: VoteKind, votes_needed: usize) -> VoiceSessionData<u32> {
    let mut data: VoiceSessionData<u32> = VoiceSessionData::new(9);
    data.current_module = Some(song("current"));
    data.module_queue.push_back(song("a"));
    data.module_queue.push_back(song("b"));
    data.module_queue.push_back(song("c"));
    data.current_vote = Some(Vote::new(100, 9, kind, votes_needed));
    data
}

#[test]
fn vote_kind_texts() {
    assert_eq!(VoteKind::Skip.action_end_vote(), "Skipping current song");
    assert_eq!(VoteKind::Skip.to_string(), "skip current song");
    let remove = VoteKind::RemoveSongFromQueue(2, "Elysium".to_string());
    assert_eq!(remove.action_end_vote(), "Removed Elysium from the queue");
    assert_eq!(remove.to_string(), "remove Elysium from the queue");
}

#[test]
fn resolve_not_enough_voters() {
    assert_eq!(resolve(2, 2, 0, 5), VoteStatus::FailedNotEnough);
    assert_eq!(resolve(0, 0, 0, 2), VoteStatus::FailedNotEnough);
    assert_eq!(resolve(1, 1, 0, 2), VoteStatus::FailedNotEnough);
}

#[test]
fn resolve_majority_no() {
    assert_eq!(resolve(3, 1, 2, 5), VoteStatus::FailedMostVotedNo);
    assert_eq!(resolve(4, 2, 2, 5), VoteStatus::FailedMostVotedNo);
}

#[test]
fn resolve_majority_yes() {
    assert_eq!(resolve(3, 2, 1, 5), VoteStatus::Passed);
    assert_eq!(resolve(2, 2, 0, 2), VoteStatus::Passed);
}

#[test]
fn resolve_trivial_quorum_always_passes() {
    assert_eq!(resolve(0, 0, 0, 0), VoteStatus::Passed);
    assert_eq!(resolve(0, 0, 0, 1), VoteStatus::Passed);
    assert_eq!(resolve(1, 0, 1, 1), VoteStatus::Passed);
}

#[test]
fn cast_records_each_user_once() {
    let mut vote = Vote::new(1, 2, VoteKind::Skip, 4);
    assert!(!vote.has_voted(1));
    assert!(vote.cast(1, true));
    assert!(vote.has_voted(1));
    assert!(!vote.cast(1, false));
    assert_eq!(vote.votes_cast.get(&1), Some(&true));
    assert!(vote.cast(2, false));
    assert!(vote.cast(3, false));
    assert_eq!(vote.total(), 3);
    assert_eq!(vote.count(true), 1);
    assert_eq!(vote.count(false), 2);
    assert_eq!(vote.count(true) + vote.count(false), vote.total());
    assert_eq!(vote.tally(), VoteStatus::FailedMostVotedNo);
}

#[test]
fn tally_of_empty_vote() {
    assert_eq!(Vote::new(1, 2, VoteKind::Skip, 4).tally(), VoteStatus::FailedNotEnough);
    assert_eq!(Vote::new(1, 2, VoteKind::Skip, 1).tally(), VoteStatus::Passed);
}

#[test]
fn announce_texts() {
    assert_eq!(
        announce(VoteStatus::FailedNotEnough, &VoteKind::Skip),
        "# :x: VOTE FAILED\nNot enough users voted."
    );
    assert_eq!(
        announce(VoteStatus::FailedMostVotedNo, &VoteKind::Skip),
        "# :x: VOTE FAILED\nThe majority of users voted NO."
    );
    assert_eq!(
        announce(VoteStatus::Passed, &VoteKind::Skip),
        "# :white_check_mark: VOTE PASSED\nSkipping current song"
    );
    assert_eq!(
        announce(VoteStatus::Passed, &VoteKind::RemoveSongFromQueue(0, "X".to_string())),
        "# :white_check_mark: VOTE PASSED\nRemoved X from the queue"
    );
}

#[test]
fn end_vote_without_vote_does_nothing() {
    let mut data: VoiceSessionData<u32> = VoiceSessionData::new(9);
    assert_eq!(end_vote(&mut data, false), None);
    assert!(data.current_vote.is_none());
}

#[test]
fn end_vote_with_closed_control_keeps_vote() {
    let mut data = session_with_vote(VoteKind::Skip, 1);
    assert_eq!(end_vote(&mut data, true), None);
    assert!(data.current_vote.is_some());
}

#[test]
fn end_vote_skip_passed_asks_for_next_song() {
    let mut data = session_with_vote(VoteKind::Skip, 3);
    let vote = data.current_vote.as_mut().unwrap();
    vote.cast(1, true);
    vote.cast(2, true);
    let end = end_vote(&mut data, false).unwrap();
    assert_eq!(end.status, VoteStatus::Passed);
    assert_eq!(end.text_channel_id, 9);
    assert_eq!(end.announcement, "# :white_check_mark: VOTE PASSED\nSkipping current song");
    assert_eq!(end.control, Some(VoiceSessionControlMessage::PlayNextInQueue));
    assert!(data.current_vote.is_none());
    assert_eq!(data.module_queue.len(), 3);
    assert!(data.current_module.is_some());
}

#[test]
fn end_vote_remove_passed_takes_song_out() {
    let mut data = session_with_vote(VoteKind::RemoveSongFromQueue(1, "b".to_string()), 3);
    let vote = data.current_vote.as_mut().unwrap();
    vote.cast(1, true);
    vote.cast(2, true);
    let end = end_vote(&mut data, false).unwrap();
    assert_eq!(end.status, VoteStatus::Passed);
    assert_eq!(end.announcement, "# :white_check_mark: VOTE PASSED\nRemoved b from the queue");
    assert_eq!(end.control, None);
    let left: Vec<&str> = data.module_queue.iter().map(|m| m.filehash.as_str()).collect();
    assert_eq!(left, vec!["hash-a", "hash-c"]);
}

#[test]
fn end_vote_remove_out_of_range_leaves_queue() {
    let mut data = session_with_vote(VoteKind::RemoveSongFromQueue(7, "gone".to_string()), 1);
    let end = end_vote(&mut data, false).unwrap();
    assert_eq!(end.status, VoteStatus::Passed);
    assert_eq!(data.module_queue.len(), 3);
    assert!(data.current_vote.is_none());
}

#[test]
fn end_vote_failed_changes_nothing_but_vote() {
    let mut data = session_with_vote(VoteKind::RemoveSongFromQueue(0, "a".to_string()), 5);
    let vote = data.current_vote.as_mut().unwrap();
    vote.cast(1, true);
    vote.cast(2, false);
    vote.cast(3, false);
    let end = end_vote(&mut data, false).unwrap();
    assert_eq!(end.status, VoteStatus::FailedMostVotedNo);
    assert_eq!(end.announcement, "# :x: VOTE FAILED\nThe majority of users voted NO.");
    assert_eq!(end.control, None);
    assert_eq!(data.module_queue.len(), 3);
    assert!(data.current_vote.is_none());

    let mut data = session_with_vote(VoteKind::Skip, 5);
    data.current_vote.as_mut().unwrap().cast(1, true);
    let end = end_vote(&mut data, false).unwrap();
    assert_eq!(end.status, VoteStatus::FailedNotEnough);
    assert_eq!(end.announcement, "# :x: VOTE FAILED\nNot enough users voted.");
    assert_eq!(end.control, None);
}

#[test]
fn voting_without_session_is_refused() {
    let response = session_required();
    assert_eq!(response.text, "The bot must be in a voice channel");
    assert!(response.ephemeral);
}

#[test]
fn voting_without_vote_is_refused() {
    let mut data: VoiceSessionData<u32> = VoiceSessionData::new(9);
    let outcome = handle_voting(&mut data, false, 5, "vote1");
    assert_eq!(outcome.response.text, "No vote in progress");
    assert!(outcome.response.ephemeral);
    assert!(outcome.ended.is_none());
}

#[test]
fn voting_twice_is_refused() {
    let mut data = session_with_vote(VoteKind::Skip, 5);
    let first = handle_voting(&mut data, false, 5, "vote0");
    assert_eq!(first.response.text, "<@5> voted NO");
    assert!(!first.response.ephemeral);
    let second = handle_voting(&mut data, false, 5, "vote1");
    assert_eq!(second.response.text, "You have already voted");
    assert!(second.response.ephemeral);
    assert_eq!(data.current_vote.as_ref().unwrap().votes_cast.get(&5), Some(&false));
    assert_eq!(data.current_vote.as_ref().unwrap().total(), 1);
}

#[test]
fn voting_mentions_the_voter() {
    let mut data = session_with_vote(VoteKind::Skip, 5);
    let outcome = handle_voting(&mut data, false, 175928847299117063, "vote1");
    assert_eq!(outcome.response.text, "<@175928847299117063> voted YES");
    let outcome = handle_voting(&mut data, false, 42, "something else");
    assert_eq!(outcome.response.text, "<@42> voted NO");
    assert!(outcome.ended.is_none());
    assert_eq!(data.current_vote.as_ref().unwrap().total(), 2);
}

#[test]
fn last_vote_ends_the_vote_at_once() {
    let mut data = session_with_vote(VoteKind::Skip, 2);
    let first = handle_voting(&mut data, false, 1, "vote1");
    assert!(first.ended.is_none());
    let second = handle_voting(&mut data, false, 2, "vote1");
    assert_eq!(second.response.text, "<@2> voted YES");
    let end = second.ended.unwrap();
    assert_eq!(end.status, VoteStatus::Passed);
    assert_eq!(end.control, Some(VoiceSessionControlMessage::PlayNextInQueue));
    assert!(data.current_vote.is_none());
}

#[test]
fn last_vote_with_closed_control_keeps_vote() {
    let mut data = session_with_vote(VoteKind::Skip, 1);
    let outcome = handle_voting(&mut data, true, 1, "vote1");
    assert_eq!(outcome.response.text, "<@1> voted YES");
    assert!(outcome.ended.is_none());
    assert_eq!(data.current_vote.as_ref().unwrap().total(), 1);
}

#[test]
fn countdown_reminds_and_ends() {
    let mut seconds = VOTE_SECONDS;
    let mut reminders = Vec::new();
    let mut ticks = 0;
    loop {
        let (left, step) = countdown_tick(seconds, None);
        ticks += 1;
        assert_eq!(left, seconds - 1);
        seconds = left;
        match step {
            TimerStep::Continue => {},
            TimerStep::Remind(n) => reminders.push(n),
            TimerStep::EndVote => break,
            TimerStep::Stop => panic!("nobody stopped the countdown"),
        }
    }
    assert_eq!(ticks, 30);
    assert_eq!(seconds, 0);
    assert_eq!(reminders, vec![15, 5]);
}

#[test]
fn countdown_stops_on_false_only() {
    assert_eq!(countdown_tick(30, Some(false)), (29, TimerStep::Stop));
    assert_eq!(countdown_tick(1, Some(false)), (0, TimerStep::Stop));
    assert_eq!(countdown_tick(16, Some(false)), (15, TimerStep::Stop));
    assert_eq!(countdown_tick(30, Some(true)), (29, TimerStep::Continue));
    assert_eq!(countdown_tick(16, Some(true)), (15, TimerStep::Remind(15)));
    assert_eq!(countdown_tick(6, None), (5, TimerStep::Remind(5)));
    assert_eq!(countdown_tick(1, Some(true)), (0, TimerStep::EndVote));
}

#[test]
fn reminder_texts() {
    assert_eq!(reminder_text(15), "15 seconds til the vote ends");
    assert_eq!(reminder_text(5), "5 seconds til the vote ends");
    assert_eq!(TIMER_SIGNAL_CAPACITY, 4);
}
