//! `/play`: takes a module that was fetched and loaded, and plays it or
//! puts it at the end of the queue.

use crate::commands::{CommandDefinition, CommandOption, CommandOptionType};
use crate::misc::{duration_text, push_duration, sha256_digest, sha256_hex};
use crate::session::{queue_hashes, slot_hashes, VoiceSessionData, WrappedModule};
use std::collections::VecDeque;
use vstd::prelude::*;
use vstd::string::*;

verus! {

/// The parts of a URL that tell the name of the file behind it.
#[derive(Debug, Clone, PartialEq, Eq)]
pub struct UrlParts {
    pub host: Option<String>,
    pub fragment: Option<String>,
    /// The last segment of the path, for a URL that has path segments.
    pub last_segment: Option<String>,
}

/// The parts of a URL as plain values.
pub struct UrlPartsView {
    pub host: Option<Seq<char>>,
    pub fragment: Option<Seq<char>>,
    pub last_segment: Option<Seq<char>>,
}

/// `text` as plain characters, if there is one.
pub open spec fn text_view(text: Option<String>) -> Option<Seq<char>> {
    match text {
        Some(t) => Some(t@),
        None => None,
    }
}

impl View for UrlParts {
    type V = UrlPartsView;

    open spec fn view(&self) -> UrlPartsView {
        UrlPartsView {
            host: text_view(self.host),
            fragment: text_view(self.fragment),
            last_segment: text_view(self.last_segment),
        }
    }
}

/// What the `url` crate makes of the text `url`: nothing if it does not
/// parse as an absolute URL, else its host, its fragment and the last
/// segment of its path.
pub uninterp spec fn url_parts(url: Seq<char>) -> Option<UrlPartsView>;

/// Takes `url` apart with `reqwest::Url`: `Url::parse`, then `host_str`,
/// `fragment` and the last item of `path_segments`, each copied into a
/// string of its own. The contract says only that the same text always
/// gives the same parts.
#[verifier::external_body]
fn parse_url(url: &str) -> (parts: Option<UrlParts>)
    ensures
        match parts {
            Some(p) => url_parts(url@) == Some(p@),
            None => url_parts(url@) is None,
        },
{
    let parsed = reqwest::Url::parse(url).ok()?;
    Some(UrlParts {
        host: parsed.host_str().map(str::to_owned),
        fragment: parsed.fragment().map(str::to_owned),
        last_segment: parsed.path_segments().and_then(|segments| segments.last()).map(str::to_owned),
    })
}

/// The host whose download links carry the file name behind the `#`.
pub open spec fn modarchive_host() -> Seq<char> {
    "api.modarchive.org"@
}

/// The file name that a URL with these parts stands for. A link to the
/// ModArchive API names the file in its fragment; any other link names it
/// in the last segment of its path. A link without that part gives the
/// empty name, and a URL without a host gives none.
pub open spec fn filename_of(parts: UrlPartsView) -> Option<Seq<char>> {
    match parts.host {
        None => None,
        Some(host) => if host == modarchive_host() {
            Some(
                match parts.fragment {
                    Some(fragment) => fragment,
                    None => Seq::empty(),
                },
            )
        } else {
            Some(
                match parts.last_segment {
                    Some(segment) => segment,
                    None => Seq::empty(),
                },
            )
        },
    }
}

/// The file name that `url` stands for, where it parses and has a host.
pub open spec fn filename_of_url(url: Seq<char>) -> Option<Seq<char>> {
    match url_parts(url) {
        None => None,
        Some(parts) => filename_of(parts),
    }
}

/// The file name that a URL with these parts stands for.
pub fn filename_from_parts(parts: &UrlParts) -> (filename: Option<String>)
    ensures
        text_view(filename) == filename_of(parts@),
{
    match &parts.host {
        None => None,
        Some(host) => {
            if *host.as_str() == *"api.modarchive.org" {
                match &parts.fragment {
                    Some(fragment) => Some(fragment.clone()),
                    None => Some(String::new()),
                }
            } else {
                match &parts.last_segment {
                    Some(segment) => Some(segment.clone()),
                    None => Some(String::new()),
                }
            }
        },
    }
}

/// The file name that `url` stands for: `None` where the text is no
/// absolute URL or has no host.
pub fn detect_filename(url: &str) -> (filename: Option<String>)
    ensures
        text_view(filename) == filename_of_url(url@),
{
    match parse_url(url) {
        None => None,
        Some(parts) => filename_from_parts(&parts),
    }
}

/// The digest by which a module is told from others: the SHA-256 of its
/// bytes as hexadecimal text.
pub fn file_hash(bytes: &[u8]) -> (digest: String)
    ensures
        digest@ == sha256_hex(bytes@),
{
    sha256_digest(bytes)
}

/// The answer where the download could not be started.
pub fn request_error_text(error: &str) -> (reply: String)
    ensures
        reply@ == "HTTP request error: "@ + error@,
{
    let mut reply = "HTTP request error: ".to_owned();
    reply.append(error);
    reply
}

/// The answer where the server did not hand out the file.
pub fn fetch_error_text(error: &str) -> (reply: String)
    ensures
        reply@ == "Unable to fetch the module file: "@ + error@,
{
    let mut reply = "Unable to fetch the module file: ".to_owned();
    reply.append(error);
    reply
}

/// The answer where the decoder did not take the bytes.
pub fn decode_error_text() -> (reply: &'static str)
    ensures
        reply@
            == "Failed to initialize libopenmpt module.\nPlease make sure that the provided URL is a direct download link. For ModArchive modules, right click on \"Download\" and select \"Copy Link\" (on Firefox) or \"Copy link address\" (on Chrome)."@,
{
    "Failed to initialize libopenmpt module.\nPlease make sure that the provided URL is a direct download link. For ModArchive modules, right click on \"Download\" and select \"Copy Link\" (on Firefox) or \"Copy link address\" (on Chrome)."
}

/// What became of a module that was handed to the session.
#[derive(Debug, Clone, Copy, PartialEq, Eq, Structural)]
pub enum PlayStatus {
    /// Refused: the module that plays has the same digest.
    AlreadyPlaying,
    /// Refused: a queued module has the same digest.
    AlreadyQueued,
    /// Nothing played: the module plays now.
    NowPlaying,
    /// Something plays: the module waits at the end of the queue.
    Queued,
}

/// What `/play` did, and its answer.
#[derive(Debug, Clone, PartialEq, Eq)]
pub struct PlayOutcome {
    pub status: PlayStatus,
    pub reply: String,
}

/// What becomes of a module with the digest `hash` in the session `data`.
pub open spec fn play_status<M>(data: VoiceSessionData<M>, hash: Seq<char>) -> PlayStatus {
    if slot_hashes(data.current_module).contains(hash) {
        PlayStatus::AlreadyPlaying
    } else if queue_hashes(data.module_queue@).contains(hash) {
        PlayStatus::AlreadyQueued
    } else if data.current_module is None {
        PlayStatus::NowPlaying
    } else {
        PlayStatus::Queued
    }
}

/// The answer of `/play` for a module that ended as `status`.
pub open spec fn reply_text<M>(status: PlayStatus, module: WrappedModule<M>) -> Seq<char> {
    match status {
        PlayStatus::AlreadyPlaying => "This module is already being played"@,
        PlayStatus::AlreadyQueued => "This module already exists in the queue"@,
        PlayStatus::NowPlaying => "Now playing: **"@ + module.listed_title_text() + "**"@,
        PlayStatus::Queued => "Added **"@ + module.listed_title_text() + "** ("@ + duration_text(
            module.duration_seconds as nat,
        ) + ") to the queue"@,
    }
}

/// Whether a module in `queue` has the digest `hash`.
pub fn queue_holds<M>(queue: &VecDeque<WrappedModule<M>>, hash: &String) -> (held: bool)
    ensures
        held == queue_hashes(queue@).contains(hash@),
{
    let mut i: usize = 0;
    while i < queue.len()
        invariant
            i <= queue@.len(),
            forall|j: int| 0 <= j < i ==> queue_hashes(queue@)[j] != hash@,
        decreases queue@.len() - i,
    {
        if queue[i].filehash == *hash {
            assert(queue_hashes(queue@)[i as int] == hash@);
            return true;
        }
        i = i + 1;
    }
    false
}

/// Hands a loaded module to the session. A module whose digest the session
/// holds already, playing or queued, is refused and let go. Otherwise it
/// plays at once where nothing plays, and goes to the end of the queue
/// where something does.
pub fn handle<M>(data: &mut VoiceSessionData<M>, module: WrappedModule<M>) -> (outcome: PlayOutcome)
    ensures
        outcome.status == play_status(*old(data), module.filehash@),
        outcome.reply@ == reply_text(outcome.status, module),
        match outcome.status {
            PlayStatus::AlreadyPlaying | PlayStatus::AlreadyQueued => *final(data) == *old(data),
            PlayStatus::NowPlaying => *final(data) == (
            VoiceSessionData { current_module: Some(module), ..*old(data) }),
            PlayStatus::Queued => {
                &&& final(data).module_queue@ == old(data).module_queue@.push(module)
                &&& final(data).current_module == old(data).current_module
                &&& final(data).same_settings(*old(data))
            },
        },
        old(data).wf() ==> final(data).wf(),
{
    let playing = match &data.current_module {
        Some(current) => {
            let same = current.filehash == module.filehash;
            assert(slot_hashes(data.current_module)[0] == current.filehash@);
            same
        },
        None => false,
    };
    if playing {
        return PlayOutcome {
            status: PlayStatus::AlreadyPlaying,
            reply: "This module is already being played".to_owned(),
        };
    }
    if queue_holds(&data.module_queue, &module.filehash) {
        return PlayOutcome {
            status: PlayStatus::AlreadyQueued,
            reply: "This module already exists in the queue".to_owned(),
        };
    }
    let title = module.listed_title();
    if data.current_module.is_none() {
        let mut reply = "Now playing: **".to_owned();
        reply.append(title.as_str());
        reply.append("**");
        data.current_module = Some(module);
        proof {
            if old(data).wf() {
                lemma_no_duplicates_with(old(data).hashes(), module.filehash@, 0);
                assert(data.hashes() =~= old(data).hashes().insert(0, module.filehash@));
            }
        }
        PlayOutcome { status: PlayStatus::NowPlaying, reply }
    } else {
        let mut reply = "Added **".to_owned();
        reply.append(title.as_str());
        reply.append("** (");
        push_duration(&mut reply, module.duration_seconds);
        reply.append(") to the queue");
        data.module_queue.push_back(module);
        proof {
            if old(data).wf() {
                let hashes = old(data).hashes();
                assert(!hashes.contains(module.filehash@)) by {
                    if hashes.contains(module.filehash@) {
                        let i = choose|i: int| 0 <= i < hashes.len() && hashes[i] == module.filehash@;
                        if i < slot_hashes(old(data).current_module).len() {
                            assert(slot_hashes(old(data).current_module)[i] == module.filehash@);
                        } else {
                            let j = i - slot_hashes(old(data).current_module).len();
                            assert(queue_hashes(old(data).module_queue@)[j] == module.filehash@);
                        }
                    }
                }
                lemma_no_duplicates_with(hashes, module.filehash@, hashes.len() as int);
                assert(data.hashes() =~= hashes.insert(hashes.len() as int, module.filehash@));
            }
        }
        PlayOutcome { status: PlayStatus::Queued, reply }
    }
}

/// A sequence without duplicates has none after it took in, at any place,
/// an element that it did not hold.
pub proof fn lemma_no_duplicates_with<A>(s: Seq<A>, a: A, at: int)
    requires
        s.no_duplicates(),
        !s.contains(a),
        0 <= at <= s.len(),
    ensures
        s.insert(at, a).no_duplicates(),
{
    let r = s.insert(at, a);
    assert forall|i: int, j: int| 0 <= i < r.len() && 0 <= j < r.len() && i != j implies r[i] != r[j] by {
        let si = if i < at { i } else { i - 1 };
        let sj = if j < at { j } else { j - 1 };
        if i != at {
            assert(r[i] == s[si]);
            assert(s.contains(s[si]));
        }
        if j != at {
            assert(r[j] == s[sj]);
            assert(s.contains(s[sj]));
        }
    }
}

/// Whether `definition` is this command as it is registered: its name, its
/// description and its options.
pub open spec fn is_registered(definition: CommandDefinition) -> bool {
    &&& definition.is("play"@, "Play a module"@, 1)
    &&& definition.options@[0].is(CommandOptionType::Text, "url"@, "Tracker module file URL"@, true, 0)
}

/// The command as it is registered: `play`, with the address of the
/// module file.
pub fn register() -> (definition: CommandDefinition)
    ensures
        is_registered(definition),
{
    CommandDefinition::new("play", "Play a module").add_option(
        CommandOption::required(CommandOptionType::Text, "url", "Tracker module file URL"),
    )
}

} // verus!
