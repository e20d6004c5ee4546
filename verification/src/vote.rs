//! Votes on skipping the song that plays or on removing a queued one: who
//! voted what, how a vote is decided, and what its countdown does.

use crate::misc::{decimal, push_decimal, user_mention, user_mention_text, Response};
use crate::session::{
    lemma_remove_no_duplicates, slot_hashes, VoiceSessionControlMessage, VoiceSessionData,
    WrappedModule,
};
use std::collections::HashMap;
use vstd::prelude::*;
use vstd::std_specs::iter::IteratorSpec;
use vstd::string::*;

verus! {

/// Seconds that a vote stays open.
pub const VOTE_SECONDS: u32 = 30;

/// Seconds of a song that must be left for a vote on skipping it.
pub const SKIP_WINDOW_SECONDS: u64 = 30;

/// Slots of the channel that tells a countdown to stop.
pub const TIMER_SIGNAL_CAPACITY: usize = 4;

/// What a vote is about.
#[derive(Debug, Clone, PartialEq, Eq)]
pub enum VoteKind {
    Skip,
    /// Position in the queue, counted from zero, and title of the song.
    RemoveSongFromQueue(usize, String),
}

/// How a vote ended.
#[derive(Debug, Clone, Copy, PartialEq, Eq, Structural)]
pub enum VoteStatus {
    Passed,
    FailedNotEnough,
    FailedMostVotedNo,
}

impl VoteKind {
    /// What is announced when a vote of this kind has passed.
    pub open spec fn action_text(self) -> Seq<char> {
        match self {
            VoteKind::Skip => "Skipping current song"@,
            VoteKind::RemoveSongFromQueue(_, title) => "Removed "@ + title@ + " from the queue"@,
        }
    }

    /// What a vote of this kind asks for, as the prompt words it.
    pub open spec fn request_text(self) -> Seq<char> {
        match self {
            VoteKind::Skip => "skip current song"@,
            VoteKind::RemoveSongFromQueue(_, title) => "remove "@ + title@ + " from the queue"@,
        }
    }

    /// What is announced when a vote of this kind has passed.
    pub fn action_end_vote(&self) -> (text: String)
        ensures
            text@ == self.action_text(),
    {
        match self {
            VoteKind::Skip => "Skipping current song".to_owned(),
            VoteKind::RemoveSongFromQueue(_, title) => {
                let mut text = "Removed ".to_owned();
                text.append(title.as_str());
                text.append(" from the queue");
                text
            },
        }
    }

    /// What a vote of this kind asks for, as the prompt words it.
    pub fn to_string(&self) -> (text: String)
        ensures
            text@ == self.request_text(),
    {
        match self {
            VoteKind::Skip => "skip current song".to_owned(),
            VoteKind::RemoveSongFromQueue(_, title) => {
                let mut text = "remove ".to_owned();
                text.append(title.as_str());
                text.append(" from the queue");
                text
            },
        }
    }
}

/// The users in `votes` who voted `choice`.
pub open spec fn voters_of(votes: Map<u64, bool>, choice: bool) -> Set<u64> {
    votes.dom().filter(|user: u64| votes[user] == choice)
}

/// How many users in `votes` voted `choice`.
pub open spec fn votes_for(votes: Map<u64, bool>, choice: bool) -> nat {
    voters_of(votes, choice).len()
}

/// How a vote ends in which `total` users voted, `yes` of them yes and `no`
/// of them no, where `votes_needed` users were asked.
///
/// A vote that asks at most one user passes whatever was cast. Any other
/// fails for want of voters if at most half of those asked voted (the half
/// rounded down), fails if yes did not get more votes than no, and passes
/// otherwise.
pub open spec fn vote_status(total: int, yes: int, no: int, votes_needed: int) -> VoteStatus {
    if votes_needed <= 1 {
        VoteStatus::Passed
    } else if total <= votes_needed / 2 {
        VoteStatus::FailedNotEnough
    } else if no >= yes {
        VoteStatus::FailedMostVotedNo
    } else {
        VoteStatus::Passed
    }
}

/// Decides a vote from its counts.
pub fn resolve(total: usize, yes: usize, no: usize, votes_needed: usize) -> (status: VoteStatus)
    ensures
        status == vote_status(total as int, yes as int, no as int, votes_needed as int),
{
    let overridden = votes_needed <= 1;
    if total <= votes_needed / 2 && !overridden {
        VoteStatus::FailedNotEnough
    } else if no >= yes && !overridden {
        VoteStatus::FailedMostVotedNo
    } else {
        VoteStatus::Passed
    }
}

/// A vote that asks at most one user passes, whatever was cast.
pub proof fn lemma_trivial_quorum_passes(total: int, yes: int, no: int, votes_needed: int)
    requires
        votes_needed <= 1,
    ensures
        vote_status(total, yes, no, votes_needed) == VoteStatus::Passed,
{
}

/// A vote that asks two users or more passes exactly when more than half
/// of them voted (the half rounded down) and yes got more votes than no.
pub proof fn lemma_vote_passes_by_majority(total: int, yes: int, no: int, votes_needed: int)
    requires
        votes_needed >= 2,
    ensures
        vote_status(total, yes, no, votes_needed) == VoteStatus::Passed <==> (total > votes_needed
            / 2 && yes > no),
        vote_status(total, yes, no, votes_needed) == VoteStatus::FailedNotEnough <==> total
            <= votes_needed / 2,
        vote_status(total, yes, no, votes_needed) == VoteStatus::FailedMostVotedNo <==> (total
            > votes_needed / 2 && no >= yes),
{
}

/// Every user who voted voted yes or no: the two counts add up to the
/// number of voters.
pub proof fn lemma_votes_add_up(votes: Map<u64, bool>)
    requires
        votes.dom().finite(),
    ensures
        votes_for(votes, true) + votes_for(votes, false) == votes.dom().len(),
{
    let yes = voters_of(votes, true);
    let no = voters_of(votes, false);
    votes.dom().lemma_len_filter(|user: u64| votes[user] == true);
    votes.dom().lemma_len_filter(|user: u64| votes[user] == false);
    assert(yes.disjoint(no));
    assert(yes + no =~= votes.dom());
    vstd::set_lib::lemma_set_disjoint_lens(yes, no);
}

/// How many of `pairs` hold `choice`.
pub open spec fn count_pairs(pairs: Seq<(u64, bool)>, choice: bool) -> nat
    decreases pairs.len(),
{
    if pairs.len() == 0 {
        0
    } else {
        count_pairs(pairs.drop_last(), choice) + if pairs.last().1 == choice {
            1nat
        } else {
            0nat
        }
    }
}

/// Counting the entries of a map one by one, each once, gives the number
/// of users who voted `choice`.
proof fn lemma_count_pairs(pairs: Seq<(u64, bool)>, votes: Map<u64, bool>, choice: bool)
    requires
        pairs.no_duplicates(),
        pairs.to_set() == votes.kv_pairs(),
        votes.dom().finite(),
    ensures
        count_pairs(pairs, choice) == votes_for(votes, choice),
    decreases pairs.len(),
{
    if pairs.len() == 0 {
        assert forall|user: u64| !votes.dom().contains(user) by {
            if votes.dom().contains(user) {
                assert(votes.kv_pairs().contains((user, votes[user])));
                assert(pairs.to_set().contains((user, votes[user])));
            }
        }
        assert(voters_of(votes, choice) =~= Set::<u64>::empty());
    } else {
        let last = pairs.last();
        let rest = pairs.drop_last();
        let user = last.0;
        assert(pairs[pairs.len() - 1] == last);
        assert(pairs.to_set().contains(last));
        assert(votes.kv_pairs().contains(last));
        let fewer = votes.remove(user);
        assert(rest.to_set() =~= fewer.kv_pairs()) by {
            assert forall|pair: (u64, bool)| rest.to_set().contains(pair) implies fewer.kv_pairs().contains(
                pair,
            ) by {
                let i = choose|i: int| 0 <= i < rest.len() && rest[i] == pair;
                assert(pairs[i] == pair);
                assert(pairs.to_set().contains(pair));
                assert(votes.kv_pairs().contains(pair));
                if pair.0 == user {
                    assert(pair == last);
                    assert(pairs[i] == pairs[pairs.len() - 1]);
                }
            }
            assert forall|pair: (u64, bool)| fewer.kv_pairs().contains(pair) implies rest.to_set().contains(
                pair,
            ) by {
                assert(votes.kv_pairs().contains(pair));
                assert(pairs.to_set().contains(pair));
                let i = choose|i: int| 0 <= i < pairs.len() && pairs[i] == pair;
                assert(i != pairs.len() - 1);
                assert(rest[i] == pair);
            }
        }
        lemma_count_pairs(rest, fewer, choice);
        fewer.dom().lemma_len_filter(|u: u64| fewer[u] == choice);
        if last.1 == choice {
            assert(voters_of(votes, choice) =~= voters_of(fewer, choice).insert(user));
        } else {
            assert(voters_of(votes, choice) =~= voters_of(fewer, choice));
        }
    }
}

/// A vote in progress: who called it and where, what it is about, how many
/// users are asked, and what each user cast (`true` for yes).
#[derive(Debug, Clone)]
pub struct Vote {
    pub caller: u64,
    pub text_channel_id: u64,
    pub kind: VoteKind,
    pub votes_needed: usize,
    pub votes_cast: HashMap<u64, bool>,
}

/// A vote as plain values.
pub struct VoteView {
    pub caller: u64,
    pub text_channel_id: u64,
    pub kind: VoteKind,
    pub votes_needed: usize,
    pub votes_cast: Map<u64, bool>,
}

impl View for Vote {
    type V = VoteView;

    open spec fn view(&self) -> VoteView {
        VoteView {
            caller: self.caller,
            text_channel_id: self.text_channel_id,
            kind: self.kind,
            votes_needed: self.votes_needed,
            votes_cast: self.votes_cast@,
        }
    }
}

impl VoteView {
    /// How the vote ends as it stands.
    pub open spec fn status(self) -> VoteStatus {
        vote_status(
            self.votes_cast.dom().len() as int,
            votes_for(self.votes_cast, true) as int,
            votes_for(self.votes_cast, false) as int,
            self.votes_needed as int,
        )
    }

    /// The vote after `user` has cast `choice`.
    pub open spec fn with_vote(self, user: u64, choice: bool) -> VoteView {
        VoteView { votes_cast: self.votes_cast.insert(user, choice), ..self }
    }

    /// Whether everyone who was asked has voted.
    pub open spec fn is_complete(self) -> bool {
        self.votes_cast.dom().len() == self.votes_needed
    }

    /// What is posted when the vote ends as it stands.
    pub open spec fn announcement(self) -> Seq<char> {
        announcement_text(self.status(), self.kind)
    }

    /// What the audio path is asked to do when the vote ends as it stands:
    /// to move on in the queue, if a vote on skipping has passed.
    pub open spec fn control(self) -> Option<VoiceSessionControlMessage> {
        if self.status() == VoteStatus::Passed && self.kind is Skip {
            Some(VoiceSessionControlMessage::PlayNextInQueue)
        } else {
            None
        }
    }

    /// The queue after the vote has ended as it stands: without the song
    /// at the voted position, if a vote on removing it has passed and the
    /// queue still has that position.
    pub open spec fn queue_after<M>(self, queue: Seq<WrappedModule<M>>) -> Seq<WrappedModule<M>> {
        match self.kind {
            VoteKind::RemoveSongFromQueue(index, _) => if self.status() == VoteStatus::Passed && index
                < queue.len() {
                queue.remove(index as int)
            } else {
                queue
            },
            VoteKind::Skip => queue,
        }
    }

    /// Whether `end` reports the end of this vote as it stands.
    pub open spec fn ends_as(self, end: VoteEnd) -> bool {
        &&& end.status == self.status()
        &&& end.text_channel_id == self.text_channel_id
        &&& end.announcement@ == self.announcement()
        &&& end.control == self.control()
    }
}

/// What is posted when a vote on `kind` ends with `status`.
pub open spec fn announcement_text(status: VoteStatus, kind: VoteKind) -> Seq<char> {
    match status {
        VoteStatus::FailedNotEnough => "# :x: VOTE FAILED\nNot enough users voted."@,
        VoteStatus::FailedMostVotedNo => "# :x: VOTE FAILED\nThe majority of users voted NO."@,
        VoteStatus::Passed => "# :white_check_mark: VOTE PASSED\n"@ + kind.action_text(),
    }
}

/// The end of a vote: how it ended, what to post where, and what to ask of
/// the audio path. The countdown of the vote is to be stopped.
#[derive(Debug, Clone, PartialEq, Eq)]
pub struct VoteEnd {
    pub status: VoteStatus,
    pub text_channel_id: u64,
    pub announcement: String,
    pub control: Option<VoiceSessionControlMessage>,
}

/// What follows the press of a vote button.
#[derive(Debug, Clone, PartialEq, Eq)]
pub struct VotingOutcome {
    pub response: Response,
    /// The end of the vote, where the press ended it.
    pub ended: Option<VoteEnd>,
}

impl Vote {
    /// How this vote ends as it stands.
    pub open spec fn status(self) -> VoteStatus {
        self@.status()
    }

    /// A vote by `caller` in which nobody has voted yet.
    pub fn new(caller: u64, text_channel_id: u64, kind: VoteKind, votes_needed: usize) -> (vote: Self)
        ensures
            vote.caller == caller,
            vote.text_channel_id == text_channel_id,
            vote.kind == kind,
            vote.votes_needed == votes_needed,
            vote.votes_cast@ == Map::<u64, bool>::empty(),
    {
        Vote { caller, text_channel_id, kind, votes_needed, votes_cast: HashMap::new() }
    }

    /// Whether `user` has voted.
    pub fn has_voted(&self, user: u64) -> (voted: bool)
        ensures
            voted == self.votes_cast@.contains_key(user),
    {
        broadcast use vstd::std_specs::hash::group_hash_axioms;

        self.votes_cast.contains_key(&user)
    }

    /// Records the vote of `user`, unless that user has voted before.
    /// Returns whether it was recorded.
    pub fn cast(&mut self, user: u64, choice: bool) -> (recorded: bool)
        ensures
            recorded == !old(self).votes_cast@.contains_key(user),
            recorded ==> final(self).votes_cast@ == old(self).votes_cast@.insert(user, choice),
            !recorded ==> final(self).votes_cast@ == old(self).votes_cast@,
            final(self).caller == old(self).caller,
            final(self).text_channel_id == old(self).text_channel_id,
            final(self).kind == old(self).kind,
            final(self).votes_needed == old(self).votes_needed,
    {
        broadcast use vstd::std_specs::hash::group_hash_axioms;

        if self.votes_cast.contains_key(&user) {
            false
        } else {
            self.votes_cast.insert(user, choice);
            true
        }
    }

    /// The number of users who have voted.
    pub fn total(&self) -> (total: usize)
        ensures
            total == self.votes_cast@.dom().len(),
    {
        broadcast use vstd::std_specs::hash::group_hash_axioms;

        self.votes_cast.len()
    }

    /// The number of users who voted `choice`.
    pub fn count(&self, choice: bool) -> (count: usize)
        ensures
            count == votes_for(self.votes_cast@, choice),
    {
        broadcast use vstd::std_specs::hash::group_hash_axioms;

        let mut count: usize = 0;
        let entries = self.votes_cast.iter();
        let ghost pairs = entries.remaining().unref();
        proof {
            assert(pairs.no_duplicates()) by {
                assert forall|i: int, j: int| 0 <= i < pairs.len() && 0 <= j < pairs.len() && i != j implies pairs[i]
                    != pairs[j] by {
                    let a = entries.remaining()[i];
                    let b = entries.remaining()[j];
                    assert(a != b);
                    assert(pairs[i] == (*a.0, *a.1));
                    assert(pairs[j] == (*b.0, *b.1));
                }
            }
            assert(pairs.take(0) =~= Seq::<(u64, bool)>::empty());
            assert(pairs.len() == self.votes_cast.len());
        }
        for entry in it: entries
            invariant
                it.seq().unref() == pairs,
                pairs.len() == self.votes_cast@.dom().len(),
                pairs.len() <= usize::MAX,
                count == count_pairs(pairs.take(it.index() as int), choice),
                count <= it.index(),
        {
            let ghost before = pairs.take(it.index() as int);
            let ghost after = pairs.take(it.index() + 1);
            proof {
                assert(after.drop_last() =~= before);
                assert(after.last() == pairs[it.index() as int]);
                assert(pairs[it.index() as int] == (*entry.0, *entry.1));
            }
            if *entry.1 == choice {
                count = count + 1;
            }
        }
        proof {
            assert(pairs.take(pairs.len() as int) =~= pairs);
            lemma_count_pairs(pairs, self.votes_cast@, choice);
        }
        count
    }

    /// Decides this vote as it stands.
    pub fn tally(&self) -> (status: VoteStatus)
        ensures
            status == self.status(),
    {
        let total = self.total();
        let yes = self.count(true);
        let no = self.count(false);
        resolve(total, yes, no, self.votes_needed)
    }
}

/// The announcement for a vote on `kind` that ended with `status`.
pub fn announce(status: VoteStatus, kind: &VoteKind) -> (text: String)
    ensures
        text@ == announcement_text(status, *kind),
{
    match status {
        VoteStatus::FailedNotEnough => "# :x: VOTE FAILED\nNot enough users voted.".to_owned(),
        VoteStatus::FailedMostVotedNo => "# :x: VOTE FAILED\nThe majority of users voted NO.".to_owned(),
        VoteStatus::Passed => {
            let mut text = "# :white_check_mark: VOTE PASSED\n".to_owned();
            let action = kind.action_end_vote();
            text.append(action.as_str());
            text
        },
    }
}

/// Ends the vote of a session. Nothing happens where no vote runs, or
/// where the audio path of the session is gone (`control_closed`).
/// Otherwise the vote is decided as it stands and taken out of the
/// session; if a vote on removing a song passed, that song leaves the
/// queue, and if a vote on skipping passed, the audio path is to be asked
/// for the next song.
pub fn end_vote<M>(data: &mut VoiceSessionData<M>, control_closed: bool) -> (end: Option<VoteEnd>)
    ensures
        control_closed || old(data).current_vote is None ==> end is None && *final(data) == *old(data),
        !control_closed && old(data).current_vote is Some ==> {
            let vote = old(data).current_vote->0@;
            &&& end matches Some(e)
            &&& vote.ends_as(e)
            &&& final(data).current_vote is None
            &&& final(data).module_queue@ == vote.queue_after(old(data).module_queue@)
            &&& final(data).current_module == old(data).current_module
            &&& final(data).paused == old(data).paused
            &&& final(data).interpolation == old(data).interpolation
            &&& final(data).amiga_enabled == old(data).amiga_enabled
            &&& final(data).amiga_mode == old(data).amiga_mode
            &&& final(data).autosubsong_enabled == old(data).autosubsong_enabled
            &&& final(data).text_channel_id == old(data).text_channel_id
        },
        old(data).wf() ==> final(data).wf(),
{
    if control_closed {
        return None;
    }
    match data.current_vote.take() {
        None => None,
        Some(vote) => {
            let status = vote.tally();
            let announcement = announce(status, &vote.kind);
            let mut control: Option<VoiceSessionControlMessage> = None;
            if status == VoteStatus::Passed {
                match &vote.kind {
                    VoteKind::Skip => {
                        control = Some(VoiceSessionControlMessage::PlayNextInQueue);
                    },
                    VoteKind::RemoveSongFromQueue(index, _) => {
                        let removed = data.module_queue.remove(*index);
                        proof {
                            if old(data).wf() && removed is Some {
                                let head = slot_hashes(old(data).current_module);
                                assert(data.hashes() =~= old(data).hashes().remove(head.len() + *index));
                                lemma_remove_no_duplicates(old(data).hashes(), head.len() + *index);
                            }
                        }
                    },
                }
            }
            Some(VoteEnd { status, text_channel_id: vote.text_channel_id, announcement, control })
        },
    }
}

/// The answer to a vote button that was pressed in a guild without a
/// session.
pub fn session_required() -> (response: Response)
    ensures
        response.text@ == "The bot must be in a voice channel"@,
        response.ephemeral,
{
    Response::private("The bot must be in a voice channel".to_owned())
}

/// The answer to a user who voted `choice`.
pub open spec fn voted_text(user: u64, choice: bool) -> Seq<char> {
    user_mention_text(user as nat) + " voted "@ + if choice {
        "YES"@
    } else {
        "NO"@
    }
}

/// Takes the press of a vote button by `user`. The button `vote1` votes
/// yes, any other votes no.
///
/// Without a running vote, and for a user who has voted before, nothing
/// changes and the user alone is told so. Otherwise the vote is recorded
/// and everyone is told; if everyone who was asked has voted then, the
/// vote ends at once.
pub fn handle_voting<M>(
    data: &mut VoiceSessionData<M>,
    control_closed: bool,
    user: u64,
    custom_id: &str,
) -> (outcome: VotingOutcome)
    requires
        user != 0,
    ensures
        old(data).wf() ==> final(data).wf(),
        old(data).current_vote is None ==> {
            &&& outcome.response.text@ == "No vote in progress"@
            &&& outcome.response.ephemeral
            &&& outcome.ended is None
            &&& *final(data) == *old(data)
        },
        old(data).current_vote is Some && old(data).current_vote->0@.votes_cast.contains_key(user) ==> {
            &&& outcome.response.text@ == "You have already voted"@
            &&& outcome.response.ephemeral
            &&& outcome.ended is None
            &&& *final(data) == *old(data)
        },
        old(data).current_vote is Some && !old(data).current_vote->0@.votes_cast.contains_key(user) ==> {
            let choice = custom_id@ == "vote1"@;
            let vote = old(data).current_vote->0@.with_vote(user, choice);
            &&& outcome.response.text@ == voted_text(user, choice)
            &&& !outcome.response.ephemeral
            &&& final(data).current_module == old(data).current_module
            &&& final(data).paused == old(data).paused
            &&& final(data).interpolation == old(data).interpolation
            &&& final(data).amiga_enabled == old(data).amiga_enabled
            &&& final(data).amiga_mode == old(data).amiga_mode
            &&& final(data).autosubsong_enabled == old(data).autosubsong_enabled
            &&& final(data).text_channel_id == old(data).text_channel_id
            &&& if vote.is_complete() && !control_closed {
                &&& outcome.ended matches Some(e)
                &&& vote.ends_as(e)
                &&& final(data).current_vote is None
                &&& final(data).module_queue@ == vote.queue_after(old(data).module_queue@)
            } else {
                &&& outcome.ended is None
                &&& final(data).current_vote matches Some(v)
                &&& v@ == vote
                &&& final(data).module_queue@ == old(data).module_queue@
            }
        },
{
    let choice = *custom_id == *"vote1";
    let voted = match data.current_vote.as_ref() {
        None => {
            return VotingOutcome {
                response: Response::private("No vote in progress".to_owned()),
                ended: None,
            };
        },
        Some(vote) => vote.has_voted(user),
    };
    if voted {
        return VotingOutcome {
            response: Response::private("You have already voted".to_owned()),
            ended: None,
        };
    }
    let complete = match data.current_vote.as_mut() {
        None => false,
        Some(vote) => {
            vote.cast(user, choice);
            vote.total() == vote.votes_needed
        },
    };
    let ended = if complete {
        end_vote(data, control_closed)
    } else {
        None
    };
    let mut text = user_mention(user);
    text.append(" voted ");
    text.append(if choice { "YES" } else { "NO" });
    VotingOutcome { response: Response::public(text), ended }
}

/// What the countdown of a vote does after a second has passed.
#[derive(Debug, Clone, Copy, PartialEq, Eq, Structural)]
pub enum TimerStep {
    /// Wait another second.
    Continue,
    /// Post how many seconds are left, then wait another second.
    Remind(u32),
    /// The time is over: end the vote, then stop.
    EndVote,
    /// The vote was decided elsewhere: stop without a word.
    Stop,
}

/// What the countdown does after one more second, when `seconds_remaining`
/// were left before it and `signal` is what was waiting on its channel.
///
/// A waiting `false` stops it. Otherwise it reminds when 15 or 5 seconds
/// are left, ends the vote when none is left, and waits on in between.
pub open spec fn timer_step(seconds_remaining: int, signal: Option<bool>) -> TimerStep {
    if signal == Some(false) {
        TimerStep::Stop
    } else if seconds_remaining - 1 == 15 || seconds_remaining - 1 == 5 {
        TimerStep::Remind((seconds_remaining - 1) as u32)
    } else if seconds_remaining - 1 == 0 {
        TimerStep::EndVote
    } else {
        TimerStep::Continue
    }
}

/// One second of a countdown: the seconds that are left after it, and what
/// to do. A countdown starts with `VOTE_SECONDS` and is over once it has
/// ended the vote or stopped.
pub fn countdown_tick(seconds_remaining: u32, signal: Option<bool>) -> (next: (u32, TimerStep))
    requires
        seconds_remaining > 0,
    ensures
        next.0 == seconds_remaining - 1,
        next.1 == timer_step(seconds_remaining as int, signal),
{
    let left: u32 = seconds_remaining - 1;
    let step = match signal {
        Some(false) => TimerStep::Stop,
        _ => {
            if left == 15 || left == 5 {
                TimerStep::Remind(left)
            } else if left == 0 {
                TimerStep::EndVote
            } else {
                TimerStep::Continue
            }
        },
    };
    (left, step)
}

/// The reminder that the countdown posts when `seconds` are left.
pub fn reminder_text(seconds: u32) -> (text: String)
    ensures
        text@ == decimal(seconds as nat) + " seconds til the vote ends"@,
{
    let mut text = String::new();
    push_decimal(&mut text, seconds as u64);
    text.append(" seconds til the vote ends");
    text
}

/// A countdown that nobody stops ends the vote after exactly
/// `VOTE_SECONDS` seconds, and not before.
pub proof fn lemma_countdown_runs_full_time(seconds_remaining: int)
    requires
        0 < seconds_remaining <= VOTE_SECONDS,
    ensures
        timer_step(seconds_remaining, None) == TimerStep::EndVote <==> seconds_remaining == 1,
        timer_step(seconds_remaining, None) != TimerStep::Stop,
        timer_step(seconds_remaining, Some(true)) == timer_step(seconds_remaining, None),
        timer_step(seconds_remaining, Some(false)) == TimerStep::Stop,
{
}

} // verus!
