//! `/callvote`: starts a vote on skipping the song that plays or on
//! removing a queued one, or cancels the vote that runs.

use crate::commands::{CommandDefinition, CommandOption, CommandOptionType, SubOption};
use crate::misc::{user_mention, user_mention_text, Response};
use crate::session::{PlaybackClock, VoiceSessionControlMessage, VoiceSessionData};
use crate::vote::{end_vote, Vote, VoteEnd, VoteKind, VoteStatus, VoteView, SKIP_WINDOW_SECONDS};
use vstd::prelude::*;
use vstd::string::*;

verus! {

/// What the user asks of `/callvote`.
#[derive(Debug, Clone, Copy, PartialEq, Eq, Structural)]
pub enum VoteRequest {
    /// A vote on skipping the song that plays.
    Skip,
    /// A vote on removing the queued song with this number, counted from
    /// one.
    DeleteSong(i64),
    /// An end to the vote that runs.
    Cancel,
}

/// The request that the subcommand `name` makes, with its option `which`.
pub open spec fn request_of(name: Seq<char>, which: Option<i64>) -> Option<VoteRequest> {
    if name == "skip"@ {
        Some(VoteRequest::Skip)
    } else if name == "delsong"@ {
        match which {
            Some(number) => Some(VoteRequest::DeleteSong(number)),
            None => None,
        }
    } else if name == "cancel"@ {
        Some(VoteRequest::Cancel)
    } else {
        None
    }
}

/// Reads a subcommand of `/callvote`: `skip`, `delsong` with its number,
/// or `cancel`.
pub fn parse_request(name: &str, which: Option<i64>) -> (request: Option<VoteRequest>)
    ensures
        request == request_of(name@, which),
{
    if *name == *"skip" {
        Some(VoteRequest::Skip)
    } else if *name == *"delsong" {
        match which {
            Some(number) => Some(VoteRequest::DeleteSong(number)),
            None => None,
        }
    } else if *name == *"cancel" {
        Some(VoteRequest::Cancel)
    } else {
        None
    }
}

/// How many of the users in the voice channel can hear: those whose flag
/// in `deafened` is not set.
pub open spec fn listeners(deafened: Seq<bool>) -> nat
    decreases deafened.len(),
{
    if deafened.len() == 0 {
        0
    } else {
        listeners(deafened.drop_last()) + if deafened.last() {
            0nat
        } else {
            1nat
        }
    }
}

/// How many users a vote asks: everyone in the voice channel who can hear,
/// but for the player itself, which is one of them.
pub open spec fn votes_needed_of(deafened: Seq<bool>) -> nat {
    if listeners(deafened) == 0 {
        0
    } else {
        (listeners(deafened) - 1) as nat
    }
}

/// Counts the users that a vote asks, from the flags of everyone in the
/// voice channel.
pub fn votes_needed(deafened: &Vec<bool>) -> (needed: usize)
    ensures
        needed == votes_needed_of(deafened@),
{
    let mut hearing: usize = 0;
    let mut i: usize = 0;
    proof {
        assert(deafened@.take(0) =~= Seq::<bool>::empty());
    }
    while i < deafened.len()
        invariant
            i <= deafened@.len(),
            hearing <= i,
            hearing == listeners(deafened@.take(i as int)),
        decreases deafened@.len() - i,
    {
        proof {
            assert(deafened@.take(i + 1).drop_last() =~= deafened@.take(i as int));
            assert(deafened@.take(i + 1).last() == deafened@[i as int]);
        }
        if !deafened[i] {
            hearing = hearing + 1;
        }
        i = i + 1;
    }
    proof {
        assert(deafened@.take(deafened@.len() as int) =~= deafened@);
    }
    if hearing == 0 {
        0
    } else {
        hearing - 1
    }
}

/// Why a request is refused: the answer, and whether the user alone sees
/// it. `None` where the request is taken.
///
/// A cancel needs a running vote, called by the same user. The others need
/// that no vote runs and that a module plays. A vote on skipping needs 30
/// seconds left to play. A vote on removing needs a number from one up to
/// the length of the queue.
pub open spec fn refusal<M>(
    data: VoiceSessionData<M>,
    request: VoteRequest,
    caller: u64,
    clock: PlaybackClock,
) -> Option<(Seq<char>, bool)> {
    match request {
        VoteRequest::Cancel => match data.current_vote {
            None => Some(("No vote in progress"@, true)),
            Some(vote) => if vote.caller != caller {
                Some(("You are not allowed to cancel the current vote"@, true))
            } else {
                None
            },
        },
        VoteRequest::Skip => if data.current_vote is Some {
            Some(("There is already a vote in progress"@, false))
        } else if data.current_module is None {
            Some(("No module is playing, can't call a vote of this kind"@, false))
        } else if clock.remaining_millis() < SKIP_WINDOW_SECONDS * 1000 {
            Some(
                ("Less than 30 seconds of this module remaining, can't call a vote of this kind"@, false),
            )
        } else {
            None
        },
        VoteRequest::DeleteSong(which) => if data.current_vote is Some {
            Some(("There is already a vote in progress"@, false))
        } else if data.current_module is None {
            Some(("No module is playing, can't call a vote of this kind"@, false))
        } else if which <= 0 {
            Some(("Value cannot be zero or negative"@, false))
        } else if which > data.module_queue@.len() {
            Some(("Out of range"@, false))
        } else {
            None
        },
    }
}

/// Whether `kind` is what the request asks a vote on, in the session
/// `data`: a skip for a skip, and for a removal the place in the queue,
/// counted from zero, with the title of the song there.
pub open spec fn is_kind_of<M>(kind: VoteKind, data: VoiceSessionData<M>, request: VoteRequest) -> bool {
    match request {
        VoteRequest::Skip => kind is Skip,
        VoteRequest::DeleteSong(which) => {
            &&& kind matches VoteKind::RemoveSongFromQueue(index, title)
            &&& index == which - 1
            &&& title@ == voted_title(data, which as int)
        },
        VoteRequest::Cancel => false,
    }
}

/// The title by which a vote names the queued song with the number
/// `which`, counted from one.
pub open spec fn voted_title<M>(data: VoiceSessionData<M>, which: int) -> Seq<char> {
    data.module_queue@[which - 1].shown_title_text()
}

/// What a vote on the request asks for, as its prompt words it.
pub open spec fn asked_text<M>(data: VoiceSessionData<M>, request: VoteRequest) -> Seq<char> {
    match request {
        VoteRequest::DeleteSong(which) => "remove "@ + voted_title(data, which as int)
            + " from the queue"@,
        _ => "skip current song"@,
    }
}

/// What is announced when a vote on the request has passed.
pub open spec fn passed_text<M>(data: VoiceSessionData<M>, request: VoteRequest) -> Seq<char> {
    match request {
        VoteRequest::DeleteSong(which) => "Removed "@ + voted_title(data, which as int)
            + " from the queue"@,
        _ => "Skipping current song"@,
    }
}

/// The prompt of a vote that `caller` started, where `asked` words what
/// it asks for.
pub open spec fn prompt_text(caller: u64, asked: Seq<char>) -> Seq<char> {
    "# VOTE NOW\n"@ + user_mention_text(caller as nat) + " has started a vote to **"@ + asked
        + "**\n*You have 30 seconds to cast a vote*"@
}

/// The answer to a cancelled vote.
pub open spec fn cancelled_text(caller: u64) -> Seq<char> {
    "# Vote cancelled by "@ + user_mention_text(caller as nat)
}

/// What `/callvote` did.
#[derive(Debug, Clone, PartialEq, Eq)]
pub enum CallvoteOutcome {
    /// Nothing changed.
    Refused(Response),
    /// The vote that ran is gone; its countdown is to be stopped.
    Cancelled(Response),
    /// At most one user was to be asked: the vote was held to have passed
    /// on the spot. No countdown, no buttons. With it comes the end of the
    /// vote, unless the audio path of the session is gone.
    Assumed(Response, Option<VoteEnd>),
    /// A vote runs: the answer is its prompt and gets the buttons `vote1`
    /// (YES) and `vote0` (NO), and a countdown is to be started.
    Started(Response),
}

/// The answer to a vote that was held to have passed on the spot.
pub open spec fn assumed_text() -> Seq<char> {
    "Only one or no votes required; assuming vote passed."@
}

/// Takes a request of `caller`, made in the text channel
/// `text_channel_id`. `clock` tells where the module that plays stands,
/// and `deafened` holds, for each user in the player's voice channel, the
/// player included, whether that user has set themselves deaf.
pub fn handle<M>(
    data: &mut VoiceSessionData<M>,
    control_closed: bool,
    request: VoteRequest,
    caller: u64,
    text_channel_id: u64,
    clock: PlaybackClock,
    deafened: &Vec<bool>,
) -> (outcome: CallvoteOutcome)
    requires
        caller != 0,
    ensures
        old(data).wf() ==> final(data).wf(),
        match refusal(*old(data), request, caller, clock) {
            Some((text, ephemeral)) => {
                &&& outcome matches CallvoteOutcome::Refused(response)
                &&& response.text@ == text
                &&& response.ephemeral == ephemeral
                &&& *final(data) == *old(data)
            },
            None => if request is Cancel {
                &&& outcome matches CallvoteOutcome::Cancelled(response)
                &&& response.text@ == cancelled_text(caller)
                &&& !response.ephemeral
                &&& *final(data) == (VoiceSessionData { current_vote: None, ..*old(data) })
            } else {
                let needed = votes_needed_of(deafened@);
                &&& final(data).current_module == old(data).current_module
                &&& final(data).paused == old(data).paused
                &&& final(data).interpolation == old(data).interpolation
                &&& final(data).amiga_enabled == old(data).amiga_enabled
                &&& final(data).amiga_mode == old(data).amiga_mode
                &&& final(data).autosubsong_enabled == old(data).autosubsong_enabled
                &&& final(data).text_channel_id == old(data).text_channel_id
                &&& if needed <= 1 {
                    &&& outcome matches CallvoteOutcome::Assumed(response, ended)
                    &&& response.text@ == assumed_text()
                    &&& !response.ephemeral
                    &&& if control_closed {
                        &&& ended is None
                        &&& final(data).module_queue@ == old(data).module_queue@
                        &&& final(data).current_vote matches Some(vote)
                        &&& is_fresh_vote(vote@, *old(data), request, caller, text_channel_id, needed)
                        &&& vote@.votes_cast == Map::<u64, bool>::empty()
                    } else {
                        &&& final(data).current_vote is None
                        &&& ended matches Some(end)
                        &&& end.status == VoteStatus::Passed
                        &&& end.text_channel_id == text_channel_id
                        &&& end.announcement@ == "# :white_check_mark: VOTE PASSED\n"@ + passed_text(
                            *old(data),
                            request,
                        )
                        &&& end.control == if request is Skip {
                            Some(VoiceSessionControlMessage::PlayNextInQueue)
                        } else {
                            None
                        }
                        &&& final(data).module_queue@ == match request {
                            VoteRequest::DeleteSong(which) => old(data).module_queue@.remove(which - 1),
                            _ => old(data).module_queue@,
                        }
                    }
                } else {
                    &&& outcome matches CallvoteOutcome::Started(response)
                    &&& !response.ephemeral
                    &&& final(data).module_queue@ == old(data).module_queue@
                    &&& final(data).current_vote matches Some(vote)
                    &&& is_fresh_vote(vote@, *old(data), request, caller, text_channel_id, needed)
                    &&& vote@.votes_cast == Map::<u64, bool>::empty().insert(caller, true)
                    &&& response.text@ == prompt_text(caller, asked_text(*old(data), request))
                }
            },
        },
{
    match request {
        VoteRequest::Cancel => {
            let allowed = match &data.current_vote {
                None => {
                    return CallvoteOutcome::Refused(Response::private("No vote in progress".to_owned()));
                },
                Some(vote) => vote.caller == caller,
            };
            if !allowed {
                return CallvoteOutcome::Refused(
                    Response::private("You are not allowed to cancel the current vote".to_owned()),
                );
            }
            data.current_vote = None;
            let mut text = "# Vote cancelled by ".to_owned();
            let mention = user_mention(caller);
            text.append(mention.as_str());
            return CallvoteOutcome::Cancelled(Response::public(text));
        },
        _ => {},
    }
    if data.current_vote.is_some() {
        return CallvoteOutcome::Refused(
            Response::public("There is already a vote in progress".to_owned()),
        );
    }
    if data.current_module.is_none() {
        return CallvoteOutcome::Refused(
            Response::public("No module is playing, can't call a vote of this kind".to_owned()),
        );
    }
    let kind = match request {
        VoteRequest::DeleteSong(which) => {
            if which <= 0 {
                return CallvoteOutcome::Refused(
                    Response::public("Value cannot be zero or negative".to_owned()),
                );
            }
            let index: u64 = (which - 1) as u64;
            if index >= data.module_queue.len() as u64 {
                return CallvoteOutcome::Refused(Response::public("Out of range".to_owned()));
            }
            let place: usize = index as usize;
            VoteKind::RemoveSongFromQueue(place, data.module_queue[place].shown_title())
        },
        _ => {
            if !clock.has_remaining(SKIP_WINDOW_SECONDS) {
                return CallvoteOutcome::Refused(
                    Response::public(
                        "Less than 30 seconds of this module remaining, can't call a vote of this kind".to_owned(),
                    ),
                );
            }
            VoteKind::Skip
        },
    };
    let needed = votes_needed(deafened);
    let mut vote = Vote::new(caller, text_channel_id, kind, needed);
    if needed <= 1 {
        let ghost fresh = vote@;
        data.current_vote = Some(vote);
        let ended = end_vote(data, control_closed);
        proof {
            if !control_closed {
                assert(fresh.ends_as(ended->0));
            }
        }
        return CallvoteOutcome::Assumed(
            Response::public("Only one or no votes required; assuming vote passed.".to_owned()),
            ended,
        );
    }
    vote.cast(caller, true);
    let mut text = "# VOTE NOW\n".to_owned();
    let mention = user_mention(caller);
    text.append(mention.as_str());
    text.append(" has started a vote to **");
    let asked = vote.kind.to_string();
    text.append(asked.as_str());
    text.append("**\n*You have 30 seconds to cast a vote*");
    data.current_vote = Some(vote);
    CallvoteOutcome::Started(Response::public(text))
}

/// Whether `vote` is the vote that the request starts in the session
/// `data`, whatever was cast in it.
pub open spec fn is_fresh_vote<M>(
    vote: VoteView,
    data: VoiceSessionData<M>,
    request: VoteRequest,
    caller: u64,
    text_channel_id: u64,
    needed: nat,
) -> bool {
    &&& vote.caller == caller
    &&& vote.text_channel_id == text_channel_id
    &&& vote.votes_needed == needed
    &&& is_kind_of(vote.kind, data, request)
}

/// Whether `definition` is this command as it is registered: its name, its
/// description and its options.
pub open spec fn is_registered(definition: CommandDefinition) -> bool {
    &&& definition.is("callvote"@, "Call a vote"@, 3)
    &&& definition.options@[0].is(CommandOptionType::SubCommand, "skip"@, "Skip currently playing song"@, false, 0)
    &&& definition.options@[1].is(CommandOptionType::SubCommand, "delsong"@, "Remove song from a queue"@, false, 1)
    &&& definition.options@[1].sub_options@[0].is(
        CommandOptionType::Integer,
        "which"@,
        "Number/index of a song in the queue to be removed"@,
        true,
    )
    &&& definition.options@[2].is(
        CommandOptionType::SubCommand,
        "cancel"@,
        "Cancel currently ongoing vote"@,
        false,
        0,
    )
}

/// The command as it is registered: `callvote`, with a subcommand for
/// each request; the removal takes the number of the song.
pub fn register() -> (definition: CommandDefinition)
    ensures
        is_registered(definition),
{
    let delsong = CommandOption::subcommand_with(
        "delsong",
        "Remove song from a queue",
        SubOption::required(
            CommandOptionType::Integer,
            "which",
            "Number/index of a song in the queue to be removed",
        ),
    );
    CommandDefinition::new("callvote", "Call a vote").add_option(
        CommandOption::subcommand("skip", "Skip currently playing song"),
    ).add_option(delsong).add_option(CommandOption::subcommand("cancel", "Cancel currently ongoing vote"))
}

} // verus!
