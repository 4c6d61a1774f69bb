//! Operator commands: the grammar of a command line, and what each verb does.

use vstd::prelude::*;
use vstd::string::*;
use crate::config::{Config, SecurityMode};
use crate::pattern::{
    capture,
    compile,
    is_match,
    pattern_capture,
    regex_compiled,
    regex_is_match,
};
use crate::text::{opt_chars, same};
use crate::torrent_processor::{
    PipelineStep,
    StepView,
    TorrentProcessor,
    out_of_range_text,
    reply_text,
    requested_step,
    wanted,
    watch_added_text,
    watch_removed_text,
};

verus! {

/// The grammar of a command line: `cmd:` and a verb, then, if the verb
/// takes any, ` params:(` and the parameters up to the last `)`.
pub open spec fn command_pattern() -> Seq<char> {
    r"cmd:(?P<command>\w+)(?: params:\((?P<params>.*)\))?"@
}

/// The pattern that finds the shared secret in a command: `auth:[..]`.
pub open spec fn secret_pattern() -> Seq<char> {
    r"auth:\[(?P<password>.*)\]"@
}

/// Whether a line holds a command.
pub open spec fn is_command_line(line: Seq<char>) -> bool {
    match regex_compiled(command_pattern()) {
        Ok(re) => regex_is_match(re, line),
        Err(_) => false,
    }
}

/// The verb and the parameters of the command in a line; a command
/// without parameters has empty ones.
pub open spec fn parsed_command(line: Seq<char>) -> Option<(Seq<char>, Seq<char>)> {
    match pattern_capture(command_pattern(), line, "command"@) {
        Some(verb) => Some(
            (
                verb,
                match pattern_capture(command_pattern(), line, "params"@) {
                    Some(params) => params,
                    None => Seq::<char>::empty(),
                },
            ),
        ),
        None => None,
    }
}

/// The verbs of the command grammar.
#[derive(Debug, Clone, Copy, PartialEq, Eq)]
pub enum Verb {
    AddTorrent,
    AddToWatchlist,
    RemoveAndDeleteTorrent,
    RemoveTorrent,
    StopTorrent,
    RemoveWatch,
    TorrentList,
    WatchList,
}

/// The verb that a word names, if any.
pub open spec fn verb_of(word: Seq<char>) -> Option<Verb> {
    if word == "addtorrent"@ {
        Some(Verb::AddTorrent)
    } else if word == "addtowatchlist"@ {
        Some(Verb::AddToWatchlist)
    } else if word == "removeanddeletetorrent"@ {
        Some(Verb::RemoveAndDeleteTorrent)
    } else if word == "removetorrent"@ {
        Some(Verb::RemoveTorrent)
    } else if word == "stoptorrent"@ {
        Some(Verb::StopTorrent)
    } else if word == "removewatch"@ {
        Some(Verb::RemoveWatch)
    } else if word == "torrentlist"@ {
        Some(Verb::TorrentList)
    } else if word == "watchlist"@ {
        Some(Verb::WatchList)
    } else {
        None
    }
}

/// A command as its line gives it.
#[derive(Debug, PartialEq, Eq)]
pub struct Command {
    pub verb: String,
    pub args_raw: String,
}

/// The answer to every verb that does nothing yet, and to every line that
/// holds no known verb.
pub open spec fn not_implemented_text() -> Seq<char> {
    "Not implemented yet"@
}

/// The answer to `addtorrent` with parameters that are no announcement.
pub open spec fn usage_text() -> Seq<char> {
    "Wrong argument format. Use: addtorrent <torrent name> <torrent id>"@
}

/// What `addtorrent` comes to: its parameters are read as an announcement;
/// where they name a release and its number the release is asked for,
/// otherwise the answer says how to use the verb.
pub open spec fn add_torrent_step(
    name: Option<Seq<char>>,
    id: Option<Seq<char>>,
    rejects: Seq<Seq<char>>,
    accepts: Seq<Seq<char>>,
) -> StepView {
    match (name, id) {
        (Some(n), Some(i)) => requested_step(wanted(rejects, accepts, n), n, i),
        _ => StepView::Reply(Err(usage_text())),
    }
}

/// What a command comes to under a configuration.
pub open spec fn command_step(verb: Seq<char>, params: Seq<char>, config: &Config) -> StepView {
    match verb_of(verb) {
        Some(Verb::AddTorrent) => add_torrent_step(
            pattern_capture(config.announce_pattern(), params, "name"@),
            pattern_capture(config.announce_pattern(), params, "id"@),
            config.reject_patterns(),
            config.accept_patterns(),
        ),
        Some(Verb::AddToWatchlist) => StepView::Reply(Ok(watch_added_text(params))),
        _ => StepView::Reply(Err(not_implemented_text())),
    }
}

/// Whether a verb changes the watch list.
pub open spec fn changes_watchlist(verb: Seq<char>) -> bool {
    verb_of(verb) == Some(Verb::AddToWatchlist)
}

/// What a line comes to, from the command that it holds, if any: a line
/// without a command is answered as not implemented.
pub open spec fn line_step(parsed: Option<(Seq<char>, Seq<char>)>, config: &Config) -> StepView {
    match parsed {
        Some((verb, params)) => command_step(verb, params, config),
        None => StepView::Reply(Err(not_implemented_text())),
    }
}

/// Whether the command of a line, if any, changes the watch list.
pub open spec fn line_persists(parsed: Option<(Seq<char>, Seq<char>)>) -> bool {
    match parsed {
        Some((verb, _)) => changes_watchlist(verb),
        None => false,
    }
}

/// How the configuration after a line relates to the one before it: a
/// command that changes the watch list appends its parameters to the
/// accept patterns, and nothing else ever changes.
pub open spec fn line_effect(
    parsed: Option<(Seq<char>, Seq<char>)>,
    before: &Config,
    after: &Config,
) -> bool {
    match parsed {
        Some((verb, params)) => if changes_watchlist(verb) {
            after.accept_patterns() == before.accept_patterns().push(params)
                && after.same_but_accepts(before)
        } else {
            *after == *before
        },
        None => *after == *before,
    }
}

/// Whether a sender is the operator by name, or a line carries the secret.
pub open spec fn operator_check(mode: SecurityMode, user: Seq<char>, token: Option<Seq<char>>) -> bool {
    match mode {
        SecurityMode::IrcUserName(u) => user == u@,
        SecurityMode::Password(p) => token == Some(p@),
    }
}

/// What a command has come to.
#[derive(Debug, PartialEq, Eq)]
pub struct CommandOutcome {
    /// The answer, or the fetch that comes first.
    pub step: PipelineStep,
    /// Whether the configuration has changed and is to be written down.
    pub persist: bool,
}

impl Verb {
    /// The verb that a word names, if any.
    pub fn parse(word: &str) -> (r: Option<Verb>)
        ensures
            r == verb_of(word@),
    {
        if same(word, "addtorrent") {
            Some(Verb::AddTorrent)
        } else if same(word, "addtowatchlist") {
            Some(Verb::AddToWatchlist)
        } else if same(word, "removeanddeletetorrent") {
            Some(Verb::RemoveAndDeleteTorrent)
        } else if same(word, "removetorrent") {
            Some(Verb::RemoveTorrent)
        } else if same(word, "stoptorrent") {
            Some(Verb::StopTorrent)
        } else if same(word, "removewatch") {
            Some(Verb::RemoveWatch)
        } else if same(word, "torrentlist") {
            Some(Verb::TorrentList)
        } else if same(word, "watchlist") {
            Some(Verb::WatchList)
        } else {
            None
        }
    }
}

/// The command dispatcher. It holds the compiled grammar.
pub struct CommandProcessor {
    command_catching_regex: regex::Regex,
    pwd_regex: regex::Regex,
}

impl CommandProcessor {
    #[verifier::type_invariant]
    spec fn holds_grammar(self) -> bool {
        &&& regex_compiled(command_pattern()) == Ok::<regex::Regex, regex::Error>(
            self.command_catching_regex,
        )
        &&& regex_compiled(secret_pattern()) == Ok::<regex::Regex, regex::Error>(self.pwd_regex)
    }

    /// A dispatcher, unless one of its patterns does not compile.
    pub fn new() -> (r: Option<CommandProcessor>)
        ensures
            r is Some <==> regex_compiled(command_pattern()) is Ok && regex_compiled(
                secret_pattern(),
            ) is Ok,
    {
        match compile(r"cmd:(?P<command>\w+)(?: params:\((?P<params>.*)\))?") {
            Ok(command_catching_regex) => match compile(r"auth:\[(?P<password>.*)\]") {
                Ok(pwd_regex) => Some(CommandProcessor { command_catching_regex, pwd_regex }),
                Err(_) => None,
            },
            Err(_) => None,
        }
    }

    /// Whether the sender is the operator by name, or the line carries the
    /// secret, whichever the configuration asks for.
    pub fn authenticate(&self, config: &Config, user: &str, msg: &str) -> (r: bool)
        ensures
            r == operator_check(
                config.options().command_options.security_mode,
                user@,
                pattern_capture(secret_pattern(), msg@, "password"@),
            ),
    {
        proof {
            use_type_invariant(self);
        }
        match config.get_security_mode() {
            SecurityMode::IrcUserName(u) => same(user, u.as_str()),
            SecurityMode::Password(p) => {
                match capture(&self.pwd_regex, msg, "password") {
                    Some(password) => same(password.as_str(), p.as_str()),
                    None => false,
                }
            },
        }
    }

    /// Whether a line holds a command.
    pub fn is_command(&self, msg: &str) -> (r: bool)
        ensures
            r == is_command_line(msg@),
    {
        proof {
            use_type_invariant(self);
        }
        is_match(&self.command_catching_regex, msg)
    }

    /// The verb and the parameters of the command in a line. A line that
    /// holds no command gives none.
    pub fn parse(&self, line: &str) -> (r: Option<Command>)
        ensures
            match r {
                Some(c) => parsed_command(line@) == Some((c.verb@, c.args_raw@)),
                None => parsed_command(line@) is None,
            },
            !is_command_line(line@) ==> r is None,
    {
        proof {
            use_type_invariant(self);
        }
        match capture(&self.command_catching_regex, line, "command") {
            Some(verb) => {
                let args_raw = match capture(&self.command_catching_regex, line, "params") {
                    Some(params) => params,
                    None => String::new(),
                };
                Some(Command { verb, args_raw })
            },
            None => None,
        }
    }

    /// What `addtorrent` comes to, from what its parameters name.
    pub fn add_torrent(
        &self,
        tp: &TorrentProcessor,
        config: &Config,
        name: Option<String>,
        id: Option<String>,
    ) -> (r: PipelineStep)
        ensures
            r@ == add_torrent_step(
                opt_chars(name),
                opt_chars(id),
                config.reject_patterns(),
                config.accept_patterns(),
            ),
    {
        match (name, id) {
            (Some(n), Some(i)) => tp.add_torrent(config, n.as_str(), i.as_str()),
            _ => PipelineStep::Reply(
                Err(
                    String::from_str(
                        "Wrong argument format. Use: addtorrent <torrent name> <torrent id>",
                    ),
                ),
            ),
        }
    }

    /// Appends the parameters to the watch list as they stand.
    pub fn add_torrent_to_watchlist(
        &self,
        tp: &TorrentProcessor,
        config: &mut Config,
        argument: &str,
    ) -> (r: Result<String, String>)
        ensures
            final(config).accept_patterns() == old(config).accept_patterns().push(argument@),
            final(config).same_but_accepts(old(config)),
            reply_text(r) == Ok::<Seq<char>, Seq<char>>(watch_added_text(argument@)),
    {
        tp.add_torrent_to_watchlist(config, String::from_str(argument))
    }

    /// Takes the pattern at `idx` out of the watch list, if there is one.
    pub fn remove_watch(&self, tp: &TorrentProcessor, config: &mut Config, idx: usize) -> (r: Result<
        String,
        String,
    >)
        ensures
            idx < old(config).accept_patterns().len() ==> {
                &&& final(config).accept_patterns() == old(config).accept_patterns().remove(
                    idx as int,
                )
                &&& final(config).same_but_accepts(old(config))
                &&& reply_text(r) == Ok::<Seq<char>, Seq<char>>(watch_removed_text(idx as nat))
            },
            idx >= old(config).accept_patterns().len() ==> {
                &&& *final(config) == *old(config)
                &&& reply_text(r) == Err::<Seq<char>, Seq<char>>(
                    out_of_range_text(),
                )
            },
    {
        tp.remove_torrent_from_watchlist(config, idx)
    }

    /// What a verb with its parameters comes to: `addtorrent` asks for the
    /// release that the parameters announce, `addtowatchlist` appends them
    /// to the watch list, and every other word is answered as not
    /// implemented.
    pub fn dispatch(
        &self,
        tp: &TorrentProcessor,
        config: &mut Config,
        verb: &str,
        params: &str,
    ) -> (r: CommandOutcome)
        ensures
            r.step@ == command_step(verb@, params@, old(config)),
            r.persist == changes_watchlist(verb@),
            line_effect(Some((verb@, params@)), old(config), final(config)),
    {
        match Verb::parse(verb) {
            Some(Verb::AddTorrent) => {
                let (name, id) = match config.get_announce_regex() {
                    Some(re) => (capture(&re, params, "name"), capture(&re, params, "id")),
                    None => (None, None),
                };
                CommandOutcome { step: self.add_torrent(tp, config, name, id), persist: false }
            },
            Some(Verb::AddToWatchlist) => {
                let reply = self.add_torrent_to_watchlist(tp, config, params);
                CommandOutcome { step: PipelineStep::Reply(reply), persist: true }
            },
            _ => CommandOutcome {
                step: PipelineStep::Reply(Err(String::from_str("Not implemented yet"))),
                persist: false,
            },
        }
    }

    /// What a line comes to. A line that holds no command never reaches a
    /// verb: it is answered as not implemented and changes nothing.
    pub fn process_command(&self, tp: &TorrentProcessor, config: &mut Config, message: &str) -> (r:
        CommandOutcome)
        ensures
            r.step@ == line_step(parsed_command(message@), old(config)),
            r.persist == line_persists(parsed_command(message@)),
            line_effect(parsed_command(message@), old(config), final(config)),
            !is_command_line(message@) ==> {
                &&& parsed_command(message@) is None
                &&& r.step@ == StepView::Reply(Err(not_implemented_text()))
                &&& !r.persist
                &&& *final(config) == *old(config)
            },
    {
        match self.parse(message) {
            Some(command) => self.dispatch(
                tp,
                config,
                command.verb.as_str(),
                command.args_raw.as_str(),
            ),
            None => CommandOutcome {
                step: PipelineStep::Reply(Err(String::from_str("Not implemented yet"))),
                persist: false,
            },
        }
    }
}

} // verus!
