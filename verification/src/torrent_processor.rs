//! The filter that says which releases are wanted, the watch list behind
//! it, and the steps from a wanted release to a running download.

use vstd::prelude::*;
use vstd::string::*;
use crate::clients::{Failure, TorrentClientsEnum, failure_text};
use crate::config::Config;
use crate::pattern::{pattern_matches, search};
use crate::platforms::TorrentPlatformsEnum;
use crate::text::{decimal, texts, to_decimal};

verus! {

/// Whether one of the patterns matches the name. A pattern that does not
/// compile matches nothing.
pub open spec fn any_matches(patterns: Seq<Seq<char>>, name: Seq<char>) -> bool {
    exists|i: int| 0 <= i < patterns.len() && pattern_matches(#[trigger] patterns[i], name)
}

/// Whether a release is wanted: no reject pattern matches its name, and
/// an accept pattern does.
pub open spec fn wanted(rejects: Seq<Seq<char>>, accepts: Seq<Seq<char>>, name: Seq<char>) -> bool {
    !any_matches(rejects, name) && any_matches(accepts, name)
}

/// A release whose name matches a reject pattern is not wanted, whatever
/// the accept patterns are.
pub proof fn lemma_reject_precedence(
    rejects: Seq<Seq<char>>,
    accepts: Seq<Seq<char>>,
    name: Seq<char>,
    i: int,
)
    requires
        0 <= i < rejects.len(),
        pattern_matches(rejects[i], name),
    ensures
        !wanted(rejects, accepts, name),
{
}

/// A release is wanted exactly when no reject pattern matches its name and
/// some accept pattern does; without accept patterns nothing is wanted.
pub proof fn lemma_wanted_by_accept(
    rejects: Seq<Seq<char>>,
    accepts: Seq<Seq<char>>,
    name: Seq<char>,
    j: int,
)
    requires
        0 <= j < accepts.len(),
        pattern_matches(accepts[j], name),
        forall|i: int| 0 <= i < rejects.len() ==> !pattern_matches(#[trigger] rejects[i], name),
    ensures
        wanted(rejects, accepts, name),
        !wanted(rejects, Seq::<Seq<char>>::empty(), name),
{
}

/// Whether one of the patterns matches the name.
pub fn matches_any(patterns: &Vec<String>, name: &str) -> (r: bool)
    ensures
        r == any_matches(texts(patterns@), name@),
{
    let mut i: usize = 0;
    while i < patterns.len()
        invariant
            i <= patterns.len(),
            forall|j: int|
                0 <= j < i ==> !pattern_matches(
                    #[trigger] texts(patterns@)[j],
                    name@,
                ),
        decreases patterns.len() - i,
    {
        if search(patterns[i].as_str(), name) {
            assert(pattern_matches(texts(patterns@)[i as int], name@));
            return true;
        }
        i = i + 1;
    }
    false
}

/// What set a release on its way: an announcement, or an operator's command.
#[derive(Debug, Clone, Copy, PartialEq, Eq)]
pub enum Origin {
    Announcement,
    Command,
}

/// The next step on the way from a release to a running download.
#[derive(Debug, PartialEq, Eq)]
pub enum PipelineStep {
    /// The release is not wanted: nothing is fetched and nothing is said.
    Skip,
    /// Fetch the torrent file of the release from the platform.
    Fetch { name: String, id: String, origin: Origin },
    /// Hand the torrent file, in base64, to the download client and start it.
    Submit { file: String, name: String, origin: Origin },
    /// The way ends here with a confirmation or with the reason of a failure.
    Reply(Result<String, String>),
}

/// What a step holds.
pub enum StepView {
    Skip,
    Fetch { name: Seq<char>, id: Seq<char>, origin: Origin },
    Submit { file: Seq<char>, name: Seq<char>, origin: Origin },
    Reply(Result<Seq<char>, Seq<char>>),
}

impl View for PipelineStep {
    type V = StepView;

    open spec fn view(&self) -> StepView {
        match *self {
            PipelineStep::Skip => StepView::Skip,
            PipelineStep::Fetch { name, id, origin } => StepView::Fetch {
                name: name@,
                id: id@,
                origin,
            },
            PipelineStep::Submit { file, name, origin } => StepView::Submit {
                file: file@,
                name: name@,
                origin,
            },
            PipelineStep::Reply(r) => StepView::Reply(reply_text(r)),
        }
    }
}

/// The first step for an announced release: to fetch it if it is wanted.
pub open spec fn announced_step(is_wanted: bool, name: Seq<char>, id: Seq<char>) -> StepView {
    if is_wanted {
        StepView::Fetch { name, id, origin: Origin::Announcement }
    } else {
        StepView::Skip
    }
}

/// The first step for a release that an operator asks for: to fetch it if
/// it is wanted, and to say so if it is not.
pub open spec fn requested_step(is_wanted: bool, name: Seq<char>, id: Seq<char>) -> StepView {
    if is_wanted {
        StepView::Fetch { name, id, origin: Origin::Command }
    } else {
        StepView::Reply(Err(not_wanted_text(name)))
    }
}

/// The step after the fetch: to hand a fetched file over, or to say that
/// there is none. Nothing is handed over after a failed fetch.
pub open spec fn fetched_step(
    name: Seq<char>,
    origin: Origin,
    fetched: Result<Seq<char>, Seq<char>>,
) -> StepView {
    match fetched {
        Ok(file) => StepView::Submit { file, name, origin },
        Err(_) => StepView::Reply(Err(fetch_failed_text())),
    }
}

/// The last word on a release: the confirmation, or why the download
/// client did not take it.
pub open spec fn submitted_reply(
    name: Seq<char>,
    origin: Origin,
    submitted: Result<(), Failure>,
) -> Result<Seq<char>, Seq<char>> {
    match submitted {
        Ok(_) => Ok(added_text(origin, name)),
        Err(f) => Err(submit_failed_text(failure_text(f))),
    }
}

/// What is said when the download client has taken a release: after an
/// announcement a plain confirmation, after a command one that names the
/// release.
pub open spec fn added_text(origin: Origin, name: Seq<char>) -> Seq<char> {
    match origin {
        Origin::Announcement => "Torrent added to client."@,
        Origin::Command => "Torrent "@ + name + " added to rtorrent"@,
    }
}

/// What is said when the torrent file could not be fetched.
pub open spec fn fetch_failed_text() -> Seq<char> {
    "Can not download torrent file"@
}

/// What is said when the download client did not take the torrent file.
pub open spec fn submit_failed_text(why: Seq<char>) -> Seq<char> {
    "Could not add torrent to client. Error was: "@ + why
}

/// What is said when a release asked for by command is not wanted.
pub open spec fn not_wanted_text(name: Seq<char>) -> Seq<char> {
    "Torrent "@ + name + " is not wanted by the watch list"@
}

/// What is said when a pattern has joined the watch list.
pub open spec fn watch_added_text(pattern: Seq<char>) -> Seq<char> {
    "Torrent "@ + pattern + " added to watch list"@
}

/// What is said when the pattern at an index has left the watch list.
pub open spec fn watch_removed_text(index: nat) -> Seq<char> {
    "Torrent "@ + decimal(index) + " removed from watch list"@
}

/// What is said when there is no pattern at an index.
pub open spec fn out_of_range_text() -> Seq<char> {
    "Index out of range"@
}

/// The characters of a reply, on either side.
pub open spec fn reply_text(r: Result<String, String>) -> Result<Seq<char>, Seq<char>> {
    match r {
        Ok(s) => Ok(s@),
        Err(s) => Err(s@),
    }
}

/// The processor of releases: it knows the download client and the platform.
pub struct TorrentProcessor {
    torrent_client: TorrentClientsEnum,
    torrent_platform: TorrentPlatformsEnum,
}

impl TorrentProcessor {
    /// The download client.
    pub closed spec fn client(&self) -> TorrentClientsEnum {
        self.torrent_client
    }

    /// The platform.
    pub closed spec fn platform(&self) -> TorrentPlatformsEnum {
        self.torrent_platform
    }

    /// A processor for the given client and platform.
    pub fn new(torrent_client: TorrentClientsEnum, torrent_platform: TorrentPlatformsEnum) -> (r:
        TorrentProcessor)
        ensures
            r.client() == torrent_client,
            r.platform() == torrent_platform,
    {
        TorrentProcessor { torrent_client, torrent_platform }
    }

    /// The download client.
    pub fn get_client(&self) -> (r: &TorrentClientsEnum)
        ensures
            *r == self.client(),
    {
        &self.torrent_client
    }

    /// The platform.
    pub fn get_platform(&self) -> (r: &TorrentPlatformsEnum)
        ensures
            *r == self.platform(),
    {
        &self.torrent_platform
    }

    /// Whether a release is wanted: the reject patterns are looked at
    /// first, and one match there settles it.
    pub fn do_we_want_this_torrent(&self, config: &Config, name: &str) -> (r: bool)
        ensures
            r == wanted(config.reject_patterns(), config.accept_patterns(), name@),
    {
        if matches_any(config.get_reject_patterns(), name) {
            return false;
        }
        matches_any(config.get_dl_patterns(), name)
    }

    /// The first step for a release once the filter has spoken.
    pub fn first_step(is_wanted: bool, name: &str, id: &str) -> (r: PipelineStep)
        ensures
            r@ == announced_step(is_wanted, name@, id@),
    {
        if is_wanted {
            PipelineStep::Fetch {
                name: String::from_str(name),
                id: String::from_str(id),
                origin: Origin::Announcement,
            }
        } else {
            PipelineStep::Skip
        }
    }

    /// The first step for an announced release: to fetch its torrent file
    /// if the release is wanted, and nothing otherwise.
    pub fn process_torrent(&self, config: &Config, name: &str, id: &str) -> (r: PipelineStep)
        ensures
            r@ == announced_step(
                wanted(config.reject_patterns(), config.accept_patterns(), name@),
                name@,
                id@,
            ),
    {
        let is_wanted = self.do_we_want_this_torrent(config, name);
        TorrentProcessor::first_step(is_wanted, name, id)
    }

    /// The first step for a release that an operator asks for: to fetch its
    /// torrent file if the release is wanted; otherwise the operator is
    /// told that it is not.
    pub fn add_torrent(&self, config: &Config, name: &str, id: &str) -> (r: PipelineStep)
        ensures
            r@ == requested_step(
                wanted(config.reject_patterns(), config.accept_patterns(), name@),
                name@,
                id@,
            ),
    {
        if self.do_we_want_this_torrent(config, name) {
            PipelineStep::Fetch {
                name: String::from_str(name),
                id: String::from_str(id),
                origin: Origin::Command,
            }
        } else {
            PipelineStep::Reply(
                Err(String::from_str("Torrent ").concat(name).concat(" is not wanted by the watch list")),
            )
        }
    }

    /// The step after the fetch: to hand a fetched file to the download
    /// client, or to say that there is none.
    pub fn download_torrent(&self, name: &str, origin: Origin, fetched: Result<String, String>) -> (r:
        PipelineStep)
        ensures
            r@ == fetched_step(name@, origin, reply_text(fetched)),
    {
        match fetched {
            Ok(file) => PipelineStep::Submit { file, name: String::from_str(name), origin },
            Err(_) => PipelineStep::Reply(Err(String::from_str("Can not download torrent file"))),
        }
    }

    /// The end of the way: the confirmation when the download client has
    /// taken the file, or the reason why it has not.
    pub fn add_torrent_and_start(&self, name: &str, origin: Origin, submitted: Result<(), Failure>) -> (r:
        Result<String, String>)
        ensures
            reply_text(r) == submitted_reply(name@, origin, submitted),
    {
        match submitted {
            Ok(_) => match origin {
                Origin::Announcement => Ok(String::from_str("Torrent added to client.")),
                Origin::Command => Ok(
                    String::from_str("Torrent ").concat(name).concat(" added to rtorrent"),
                ),
            },
            Err(f) => Err(
                String::from_str("Could not add torrent to client. Error was: ").concat(
                    f.message().as_str(),
                ),
            ),
        }
    }

    /// Appends a pattern to the watch list as it is given, and confirms it.
    pub fn add_torrent_to_watchlist(&self, config: &mut Config, argument: String) -> (r: Result<
        String,
        String,
    >)
        ensures
            final(config).accept_patterns() == old(config).accept_patterns().push(argument@),
            final(config).same_but_accepts(old(config)),
            reply_text(r) == Ok::<Seq<char>, Seq<char>>(watch_added_text(argument@)),
    {
        let text = String::from_str("Torrent ").concat(argument.as_str()).concat(
            " added to watch list",
        );
        config.add_dl_regex(argument);
        Ok(text)
    }

    /// Takes the pattern at `index` out of the watch list and confirms it;
    /// where there is no such pattern, the list stays as it is and the
    /// answer says so.
    pub fn remove_torrent_from_watchlist(&self, config: &mut Config, index: usize) -> (r: Result<
        String,
        String,
    >)
        ensures
            index < old(config).accept_patterns().len() ==> {
                &&& final(config).accept_patterns() == old(config).accept_patterns().remove(
                    index as int,
                )
                &&& final(config).same_but_accepts(old(config))
                &&& reply_text(r) == Ok::<Seq<char>, Seq<char>>(watch_removed_text(index as nat))
            },
            index >= old(config).accept_patterns().len() ==> {
                &&& *final(config) == *old(config)
                &&& reply_text(r) == Err::<Seq<char>, Seq<char>>(out_of_range_text())
            },
    {
        if index < config.get_dl_patterns().len() {
            config.remove_dl_regex(index);
            Ok(
                String::from_str("Torrent ").concat(to_decimal(index).as_str()).concat(
                    " removed from watch list",
                ),
            )
        } else {
            Err(String::from_str("Index out of range"))
        }
    }
}

} // verus!
