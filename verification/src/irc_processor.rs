//! The router of incoming lines, the record of who holds which session
//! status, and the supervisor of the connection.

use vstd::prelude::*;
use vstd::string::*;
use crate::auth::{
    AuthResult,
    Authorization,
    MessageTypes,
    decision,
    embedded_token,
    source_of,
};
use crate::command_processor::{
    Command,
    CommandProcessor,
    line_effect,
    line_persists,
    line_step,
    parsed_command,
};
use crate::config::{Config, SecurityMode};
use crate::pattern::{capture, compile, pattern_capture, regex_compiled};
use crate::text::{contains, occurs_in, opt_chars, same};
use crate::torrent_processor::{
    Origin,
    PipelineStep,
    StepView,
    TorrentProcessor,
    announced_step,
    wanted,
};

verus! {

/// The pattern of an answer of the session service to a status probe.
pub open spec fn status_pattern() -> Seq<char> {
    r"STATUS (?P<nick>\w+) (?P<status>\d{1})"@
}

/// The name under which the session service talks.
pub open spec fn session_service() -> Seq<char> {
    "NickServ"@
}

/// The number that a decimal digit stands for.
pub open spec fn digit_value(c: char) -> Option<u8> {
    if c == '0' {
        Some(0u8)
    } else if c == '1' {
        Some(1u8)
    } else if c == '2' {
        Some(2u8)
    } else if c == '3' {
        Some(3u8)
    } else if c == '4' {
        Some(4u8)
    } else if c == '5' {
        Some(5u8)
    } else if c == '6' {
        Some(6u8)
    } else if c == '7' {
        Some(7u8)
    } else if c == '8' {
        Some(8u8)
    } else if c == '9' {
        Some(9u8)
    } else {
        None
    }
}

/// The status code that a text of one decimal digit gives.
pub open spec fn status_code(text: Seq<char>) -> Option<u8> {
    if text.len() == 1 {
        digit_value(text[0])
    } else {
        None
    }
}

/// The nickname and the status code that the groups of a status answer give.
pub open spec fn status_of(nick: Option<Seq<char>>, status: Option<Seq<char>>) -> Option<
    (Seq<char>, u8),
> {
    match (nick, status) {
        (Some(n), Some(s)) => match status_code(s) {
            Some(code) => Some((n, code)),
            None => None,
        },
        _ => None,
    }
}

/// The nickname and the status code that a line reports, if it is an
/// answer to a status probe.
pub open spec fn status_report(line: Seq<char>) -> Option<(Seq<char>, u8)> {
    status_of(
        pattern_capture(status_pattern(), line, "nick"@),
        pattern_capture(status_pattern(), line, "status"@),
    )
}

/// What a line is.
#[derive(Debug, PartialEq, Eq)]
pub enum MessageKind {
    /// The announcement of a release.
    Announcement { release_name: String, release_id: String },
    /// An operator command.
    Command { verb: String, args_raw: String },
    /// The session service's word on somebody's status.
    SessionStatus { nick: String, code: u8 },
    /// Anything else.
    Other,
}

/// What a line is, over plain text.
pub enum KindView {
    Announcement { release_name: Seq<char>, release_id: Seq<char> },
    Command { verb: Seq<char>, args_raw: Seq<char> },
    SessionStatus { nick: Seq<char>, code: u8 },
    Other,
}

impl View for MessageKind {
    type V = KindView;

    open spec fn view(&self) -> KindView {
        match *self {
            MessageKind::Announcement { release_name, release_id } => KindView::Announcement {
                release_name: release_name@,
                release_id: release_id@,
            },
            MessageKind::Command { verb, args_raw } => KindView::Command {
                verb: verb@,
                args_raw: args_raw@,
            },
            MessageKind::SessionStatus { nick, code } => KindView::SessionStatus {
                nick: nick@,
                code,
            },
            MessageKind::Other => KindView::Other,
        }
    }
}

/// What a line is, from what the patterns found in it. The first of
/// these wins: an announcement that names a release and its number; a
/// command; a status answer that the session service sent.
pub open spec fn kind_from(
    name: Option<Seq<char>>,
    id: Option<Seq<char>>,
    command: Option<(Seq<char>, Seq<char>)>,
    on_service: bool,
    status: Option<(Seq<char>, u8)>,
) -> KindView {
    match (name, id) {
        (Some(n), Some(i)) => KindView::Announcement { release_name: n, release_id: i },
        _ => match command {
            Some((verb, args_raw)) => KindView::Command { verb, args_raw },
            None => match status {
                Some((nick, code)) => if on_service {
                    KindView::SessionStatus { nick, code }
                } else {
                    KindView::Other
                },
                None => KindView::Other,
            },
        },
    }
}

/// What a line that `nick` sent is under a configuration. Only the session
/// service itself answers status probes: a status line from anybody else
/// is no status answer, whomever it is addressed to.
pub open spec fn kind_of(line: Seq<char>, nick: Seq<char>, config: &Config) -> KindView {
    kind_from(
        pattern_capture(config.announce_pattern(), line, "name"@),
        pattern_capture(config.announce_pattern(), line, "id"@),
        parsed_command(line),
        nick == session_service() && occurs_in(line, "STATUS"@),
        status_report(line),
    )
}

/// Only the session service answers status probes: no line of anybody
/// else is a status answer, whatever it says and whomever it is addressed
/// to; and a line of the session service that reports a status, and is
/// neither an announcement nor a command, is one.
pub proof fn lemma_status_only_from_service(line: Seq<char>, nick: Seq<char>, config: &Config)
    ensures
        nick != session_service() ==> !(kind_of(line, nick, config) is SessionStatus),
        kind_of(line, nick, config) is SessionStatus ==> status_report(line) is Some,
        ({
            &&& nick == session_service()
            &&& occurs_in(line, "STATUS"@)
            &&& status_report(line) matches Some((about, code))
            &&& parsed_command(line) is None
            &&& pattern_capture(config.announce_pattern(), line, "name"@) is None
        }) ==> kind_of(line, nick, config) == (KindView::SessionStatus {
            nick: status_report(line)->Some_0.0,
            code: status_report(line)->Some_0.1,
        }),
{
}

/// What the router asks of whoever holds the connection.
#[derive(Debug, PartialEq, Eq)]
pub enum RouterAction {
    /// Nothing to do and nothing to say.
    Nothing,
    /// Fetch the torrent file of a release, then go on with the result.
    Fetch { name: String, id: String, origin: Origin, reply_to: String },
    /// Hand a torrent file to the download client, then go on with the result.
    Submit { file: String, name: String, origin: Origin, reply_to: String },
    /// Say `text` to `target`.
    Reply { target: String, text: String },
}

/// What the router asks, over plain text.
pub enum ActionView {
    Nothing,
    Fetch { name: Seq<char>, id: Seq<char>, origin: Origin, reply_to: Seq<char> },
    Submit { file: Seq<char>, name: Seq<char>, origin: Origin, reply_to: Seq<char> },
    Reply { target: Seq<char>, text: Seq<char> },
}

impl View for RouterAction {
    type V = ActionView;

    open spec fn view(&self) -> ActionView {
        match *self {
            RouterAction::Nothing => ActionView::Nothing,
            RouterAction::Fetch { name, id, origin, reply_to } => ActionView::Fetch {
                name: name@,
                id: id@,
                origin,
                reply_to: reply_to@,
            },
            RouterAction::Submit { file, name, origin, reply_to } => ActionView::Submit {
                file: file@,
                name: name@,
                origin,
                reply_to: reply_to@,
            },
            RouterAction::Reply { target, text } => ActionView::Reply {
                target: target@,
                text: text@,
            },
        }
    }
}

/// What a line has come to.
#[derive(Debug, PartialEq, Eq)]
pub struct Routed {
    /// What to do about it.
    pub action: RouterAction,
    /// Whether the configuration has changed and is to be written down.
    pub persist: bool,
}

/// What a step asks of whoever holds the connection; what is said goes to
/// the channel on which the line came.
pub open spec fn step_action(step: StepView, channel: Seq<char>) -> ActionView {
    match step {
        StepView::Skip => ActionView::Nothing,
        StepView::Fetch { name, id, origin } => ActionView::Fetch {
            name,
            id,
            origin,
            reply_to: channel,
        },
        StepView::Submit { file, name, origin } => ActionView::Submit {
            file,
            name,
            origin,
            reply_to: channel,
        },
        StepView::Reply(Ok(text)) => ActionView::Reply { target: channel, text },
        StepView::Reply(Err(text)) => ActionView::Reply { target: channel, text },
    }
}

/// What is said to whoever sends a command without the right to.
pub open spec fn denied_text() -> Seq<char> {
    "You are not authorized to use this bot."@
}

/// What an announcement comes to: nothing unless it is authorized and the
/// release is wanted, and then the fetch of the release.
pub open spec fn announcement_action(
    auth: AuthResult,
    is_wanted: bool,
    name: Seq<char>,
    id: Seq<char>,
    channel: Seq<char>,
) -> ActionView {
    if auth == AuthResult::SourceValidated {
        step_action(announced_step(is_wanted, name, id), channel)
    } else {
        ActionView::Nothing
    }
}

/// What a command line comes to: the denial unless it is authorized, and
/// then what the dispatcher makes of it.
pub open spec fn command_action(
    auth: AuthResult,
    parsed: Option<(Seq<char>, Seq<char>)>,
    config: &Config,
    channel: Seq<char>,
) -> ActionView {
    if auth == AuthResult::NotAuthorized {
        ActionView::Reply { target: channel, text: denied_text() }
    } else {
        step_action(line_step(parsed, config), channel)
    }
}

/// The decision on an announcement by `nick` on `channel`.
pub open spec fn announcement_auth(config: &Config, nick: Seq<char>, channel: Seq<char>) -> AuthResult {
    decision(
        MessageTypes::Announcement,
        config.options().command_options.commands_enabled,
        config.options().command_options.security_mode,
        source_of(config, nick, channel),
        embedded_token(Seq::<char>::empty()),
    )
}

/// The decision on a command line by `nick` on `channel`.
pub open spec fn command_auth(
    config: &Config,
    nick: Seq<char>,
    channel: Seq<char>,
    line: Seq<char>,
) -> AuthResult {
    decision(
        MessageTypes::Command,
        config.options().command_options.commands_enabled,
        config.options().command_options.security_mode,
        source_of(config, nick, channel),
        embedded_token(line),
    )
}

/// Whether `r` is what a line by `nick` on `channel` at the time `now`
/// comes to, and the configuration and the statuses after it are what it
/// leaves. An announcement and anything unknown change nothing; a command
/// changes at most the watch list; a status answer changes the statuses.
pub open spec fn routes(
    line: Seq<char>,
    nick: Seq<char>,
    channel: Seq<char>,
    now: u64,
    before: &Config,
    after: &Config,
    statuses_before: Map<Seq<char>, (u8, u64)>,
    statuses_after: Map<Seq<char>, (u8, u64)>,
    r: Routed,
) -> bool {
    match kind_of(line, nick, before) {
        KindView::Announcement { release_name, release_id } => {
            &&& r.action@ == announcement_action(
                announcement_auth(before, nick, channel),
                wanted(before.reject_patterns(), before.accept_patterns(), release_name),
                release_name,
                release_id,
                channel,
            )
            &&& !r.persist
            &&& *after == *before
            &&& statuses_after == statuses_before
        },
        KindView::Command { verb, args_raw } => {
            &&& r.action@ == command_action(
                command_auth(before, nick, channel, line),
                parsed_command(line),
                before,
                channel,
            )
            &&& command_auth(before, nick, channel, line) == AuthResult::NotAuthorized ==> !r.persist
                && *after == *before
            &&& command_auth(before, nick, channel, line) != AuthResult::NotAuthorized ==> r.persist
                == line_persists(parsed_command(line)) && line_effect(
                parsed_command(line),
                before,
                after,
            )
            &&& statuses_after == statuses_before
        },
        KindView::SessionStatus { nick: about, code } => {
            &&& r.action@ == ActionView::Nothing
            &&& !r.persist
            &&& *after == *before
            &&& statuses_after == statuses_before.insert(about, (code, now))
        },
        KindView::Other => {
            &&& r.action@ == ActionView::Nothing
            &&& !r.persist
            &&& *after == *before
            &&& statuses_after == statuses_before
        },
    }
}

/// The status that the session service last reported of somebody.
#[derive(Debug, PartialEq, Eq)]
pub struct UserStatus {
    pub nick: String,
    pub status: u8,
    pub time_of_check: u64,
}

/// The status code and the time of the report that a record holds.
pub open spec fn status_fact(u: UserStatus) -> (u8, u64) {
    (u.status, u.time_of_check)
}

/// The status code and the time of the last report, by nickname.
pub open spec fn status_facts(records: Map<Seq<char>, UserStatus>) -> Map<Seq<char>, (u8, u64)> {
    records.map_values(|u: UserStatus| status_fact(u))
}

/// The reader of status answers. It holds the compiled pattern.
pub struct StatusParser {
    status_response_regex: regex::Regex,
}

impl StatusParser {
    #[verifier::type_invariant]
    spec fn holds_pattern(self) -> bool {
        regex_compiled(status_pattern()) == Ok::<regex::Regex, regex::Error>(
            self.status_response_regex,
        )
    }

    /// A reader, unless the pattern does not compile.
    pub fn new() -> (r: Option<StatusParser>)
        ensures
            r is Some <==> regex_compiled(status_pattern()) is Ok,
    {
        match compile(r"STATUS (?P<nick>\w+) (?P<status>\d{1})") {
            Ok(re) => Some(StatusParser { status_response_regex: re }),
            Err(_) => None,
        }
    }

    /// The status code that a text of one decimal digit gives.
    pub fn code(text: &str) -> (r: Option<u8>)
        ensures
            r == status_code(text@),
    {
        if text.unicode_len() != 1 {
            return None;
        }
        let c = text.get_char(0);
        if c == '0' {
            Some(0)
        } else if c == '1' {
            Some(1)
        } else if c == '2' {
            Some(2)
        } else if c == '3' {
            Some(3)
        } else if c == '4' {
            Some(4)
        } else if c == '5' {
            Some(5)
        } else if c == '6' {
            Some(6)
        } else if c == '7' {
            Some(7)
        } else if c == '8' {
            Some(8)
        } else if c == '9' {
            Some(9)
        } else {
            None
        }
    }

    /// The nickname and the status code that the groups of a status answer give.
    pub fn status(nick: Option<String>, status: Option<String>) -> (r: Option<(String, u8)>)
        ensures
            match r {
                Some((n, code)) => status_of(opt_chars(nick), opt_chars(status)) == Some(
                    (n@, code),
                ),
                None => status_of(opt_chars(nick), opt_chars(status)) is None,
            },
    {
        match (nick, status) {
            (Some(n), Some(s)) => match StatusParser::code(s.as_str()) {
                Some(code) => Some((n, code)),
                None => None,
            },
            _ => None,
        }
    }

    /// The nickname and the status code that a line reports, if it is an
    /// answer to a status probe.
    pub fn parse(&self, line: &str) -> (r: Option<(String, u8)>)
        ensures
            match r {
                Some((n, code)) => status_report(line@) == Some((n@, code)),
                None => status_report(line@) is None,
            },
    {
        proof {
            use_type_invariant(self);
        }
        let nick = capture(&self.status_response_regex, line, "nick");
        let status = capture(&self.status_response_regex, line, "status");
        StatusParser::status(nick, status)
    }
}

/// A line to send.
#[derive(Debug, PartialEq, Eq)]
pub struct Outbound {
    pub target: String,
    pub text: String,
}

/// The text that asks the session service for somebody's status.
pub open spec fn probe_text(nick: Seq<char>) -> Seq<char> {
    "STATUS "@ + nick
}

/// The line to send at each tick of the status probe: the question about
/// the operator where the run knows its operator by nickname, and none
/// where it goes by a secret.
pub open spec fn periodic_probe(mode: SecurityMode) -> Option<(Seq<char>, Seq<char>)> {
    match mode {
        SecurityMode::IrcUserName(nick) => Some(
            (session_service(), probe_text(nick@)),
        ),
        SecurityMode::Password(_) => None,
    }
}

/// The target and the text of a line to send, if any.
pub open spec fn outbound_chars(line: Option<Outbound>) -> Option<(Seq<char>, Seq<char>)> {
    match line {
        Some(l) => Some((l.target@, l.text@)),
        None => None,
    }
}

/// The characters of a command that a line holds, if any.
pub open spec fn command_chars(c: Option<Command>) -> Option<
    (Seq<char>, Seq<char>),
> {
    match c {
        Some(c) => Some((c.verb@, c.args_raw@)),
        None => None,
    }
}

/// The characters of a status report, if any.
pub open spec fn report_chars(r: Option<(String, u8)>) -> Option<(Seq<char>, u8)> {
    match r {
        Some((n, code)) => Some((n@, code)),
        None => None,
    }
}

/// The router of incoming lines.
pub struct IrcProcessor {
    auth: Authorization,
    parser: StatusParser,
    user_status: vstd::hash_map::StringHashMap<UserStatus>,
}

impl IrcProcessor {
    /// The last reported status of each nickname.
    pub closed spec fn statuses(&self) -> Map<Seq<char>, (u8, u64)> {
        status_facts(self.user_status@)
    }

    /// A router that has heard of nobody's status, unless one of its
    /// patterns does not compile.
    pub fn new() -> (r: Option<IrcProcessor>)
        ensures
            r is Some <==> regex_compiled(crate::auth::token_pattern()) is Ok && regex_compiled(
                status_pattern(),
            ) is Ok,
            r is Some ==> r->Some_0.statuses() == Map::<Seq<char>, (u8, u64)>::empty(),
    {
        match Authorization::new() {
            Some(auth) => match StatusParser::new() {
                Some(parser) => Some(
                    IrcProcessor {
                        auth,
                        parser,
                        user_status: vstd::hash_map::StringHashMap::new(),
                    },
                ),
                None => None,
            },
            None => None,
        }
    }

    /// What a line is, from what the patterns found in it.
    pub fn kind(
        name: Option<String>,
        id: Option<String>,
        command: Option<Command>,
        on_service: bool,
        status: Option<(String, u8)>,
    ) -> (r: MessageKind)
        ensures
            r@ == kind_from(
                opt_chars(name),
                opt_chars(id),
                command_chars(command),
                on_service,
                report_chars(status),
            ),
    {
        match (name, id) {
            (Some(release_name), Some(release_id)) => MessageKind::Announcement {
                release_name,
                release_id,
            },
            _ => match command {
                Some(c) => MessageKind::Command { verb: c.verb, args_raw: c.args_raw },
                None => match status {
                    Some((nick, code)) => if on_service {
                        MessageKind::SessionStatus { nick, code }
                    } else {
                        MessageKind::Other
                    },
                    None => MessageKind::Other,
                },
            },
        }
    }

    /// What a line that `nick` sent is.
    pub fn classify(&self, cp: &CommandProcessor, config: &Config, line: &str, nick: &str) -> (r:
        MessageKind)
        ensures
            r@ == kind_of(line@, nick@, config),
    {
        let (name, id) = match config.get_announce_regex() {
            Some(re) => (capture(&re, line, "name"), capture(&re, line, "id")),
            None => (None, None),
        };
        let command = cp.parse(line);
        let on_service = same(nick, "NickServ") && contains(line, "STATUS");
        let status = self.parser.parse(line);
        IrcProcessor::kind(name, id, command, on_service, status)
    }

    /// What a step asks of whoever holds the connection.
    pub fn next_action(step: PipelineStep, channel: &str) -> (r: RouterAction)
        ensures
            r@ == step_action(step@, channel@),
    {
        match step {
            PipelineStep::Skip => RouterAction::Nothing,
            PipelineStep::Fetch { name, id, origin } => RouterAction::Fetch {
                name,
                id,
                origin,
                reply_to: String::from_str(channel),
            },
            PipelineStep::Submit { file, name, origin } => RouterAction::Submit {
                file,
                name,
                origin,
                reply_to: String::from_str(channel),
            },
            PipelineStep::Reply(Ok(text)) => RouterAction::Reply {
                target: String::from_str(channel),
                text,
            },
            PipelineStep::Reply(Err(text)) => RouterAction::Reply {
                target: String::from_str(channel),
                text,
            },
        }
    }

    /// What an announcement comes to, from the decision on it and from
    /// whether the release is wanted.
    pub fn announced(auth: AuthResult, is_wanted: bool, name: &str, id: &str, channel: &str) -> (r:
        RouterAction)
        ensures
            r@ == announcement_action(auth, is_wanted, name@, id@, channel@),
    {
        match auth {
            AuthResult::SourceValidated => IrcProcessor::next_action(
                TorrentProcessor::first_step(is_wanted, name, id),
                channel,
            ),
            _ => RouterAction::Nothing,
        }
    }

    /// What the announcement of a release comes to: where somebody other
    /// than the operator posts it in a feed channel and the release is
    /// wanted, the fetch of the release; otherwise nothing, and no word.
    pub fn torrent_msg_process(
        &self,
        tp: &TorrentProcessor,
        config: &Config,
        channel: &str,
        nick: &str,
        name: &str,
        id: &str,
    ) -> (r: RouterAction)
        ensures
            r@ == announcement_action(
                announcement_auth(config, nick@, channel@),
                wanted(config.reject_patterns(), config.accept_patterns(), name@),
                name@,
                id@,
                channel@,
            ),
    {
        let auth = self.auth.authenticate(config, nick, channel, "", MessageTypes::Announcement);
        let is_wanted = tp.do_we_want_this_torrent(config, name);
        IrcProcessor::announced(auth, is_wanted, name, id, channel)
    }

    /// What a command line comes to: the denial where the sender has no
    /// right to commands, and otherwise what the dispatcher makes of the
    /// line, said on the channel on which it came.
    pub fn command_msg_process(
        &self,
        cp: &CommandProcessor,
        tp: &TorrentProcessor,
        config: &mut Config,
        channel: &str,
        inner_message: &str,
        nick: &str,
    ) -> (r: Routed)
        ensures
            r.action@ == command_action(
                command_auth(old(config), nick@, channel@, inner_message@),
                parsed_command(inner_message@),
                old(config),
                channel@,
            ),
            command_auth(old(config), nick@, channel@, inner_message@)
                == AuthResult::NotAuthorized ==> !r.persist && *final(config) == *old(config),
            command_auth(old(config), nick@, channel@, inner_message@)
                != AuthResult::NotAuthorized ==> r.persist == line_persists(
                parsed_command(inner_message@),
            ) && line_effect(parsed_command(inner_message@), old(config), final(config)),
    {
        match self.auth.authenticate(config, nick, channel, inner_message, MessageTypes::Command) {
            AuthResult::NotAuthorized => Routed {
                action: RouterAction::Reply {
                    target: String::from_str(channel),
                    text: String::from_str("You are not authorized to use this bot."),
                },
                persist: false,
            },
            _ => {
                let outcome = cp.process_command(tp, config, inner_message);
                Routed {
                    action: IrcProcessor::next_action(outcome.step, channel),
                    persist: outcome.persist,
                }
            },
        }
    }

    /// Notes what the session service reports of somebody, at the time
    /// given in seconds since the epoch.
    pub fn user_status_report(&mut self, nick: &str, status: u8, time_of_check: u64)
        ensures
            final(self).statuses() == old(self).statuses().insert(nick@, (status, time_of_check)),
    {
        let user = UserStatus { nick: String::from_str(nick), status, time_of_check };
        self.user_status.insert(String::from_str(nick), user);
        assert(status_facts(self.user_status@) =~= status_facts(old(self).user_status@).insert(
            nick@,
            (status, time_of_check),
        ));
    }

    /// What was last reported of somebody: the status code and the time.
    pub fn user_status(&self, nick: &str) -> (r: Option<(u8, u64)>)
        ensures
            r is Some <==> self.statuses().dom().contains(nick@),
            r is Some ==> r->Some_0 == self.statuses()[nick@],
    {
        match self.user_status.get(nick) {
            Some(user) => Some((user.status, user.time_of_check)),
            None => None,
        }
    }

    /// The line that asks the session service for somebody's status.
    pub fn update_user_status(&self, nick: &str) -> (r: Outbound)
        ensures
            r.target@ == session_service(),
            r.text@ == probe_text(nick@),
    {
        Outbound {
            target: String::from_str("NickServ"),
            text: String::from_str("STATUS ").concat(nick),
        }
    }

    /// The line to send at a tick of the status probe, if any.
    pub fn periodic_check(&self, config: &Config) -> (r: Option<Outbound>)
        ensures
            outbound_chars(r) == periodic_probe(config.options().command_options.security_mode),
    {
        match config.get_security_mode() {
            SecurityMode::IrcUserName(nick) => Some(
                self.update_user_status(nick.as_str()),
            ),
            SecurityMode::Password(_) => None,
        }
    }

    /// The line that passes a message on to the session service.
    pub fn send_log(&self, message: &str) -> (r: Outbound)
        ensures
            r.target@ == session_service(),
            r.text@ == message@,
    {
        Outbound { target: String::from_str("NickServ"), text: String::from_str(message) }
    }

    /// The line that says something on a channel or to somebody.
    pub fn send_privmsg(&self, channel: &str, message: &str) -> (r: Outbound)
        ensures
            r.target@ == channel@,
            r.text@ == message@,
    {
        Outbound { target: String::from_str(channel), text: String::from_str(message) }
    }

    /// Routes one line that `nick` sent on `channel`, at the time `now` in
    /// seconds since the epoch. An announcement leads to a fetch or to
    /// nothing; a command to an answer or a fetch, and perhaps to a
    /// changed watch list; a status answer is noted; anything else is let
    /// pass.
    pub fn msg_process(
        &mut self,
        cp: &CommandProcessor,
        tp: &TorrentProcessor,
        config: &mut Config,
        inner_message: &str,
        nick: &str,
        channel: &str,
        now: u64,
    ) -> (r: Routed)
        ensures
            routes(
                inner_message@,
                nick@,
                channel@,
                now,
                old(config),
                final(config),
                old(self).statuses(),
                final(self).statuses(),
                r,
            ),
    {
        match self.classify(cp, config, inner_message, nick) {
            MessageKind::Announcement { release_name, release_id } => Routed {
                action: self.torrent_msg_process(
                    tp,
                    config,
                    channel,
                    nick,
                    release_name.as_str(),
                    release_id.as_str(),
                ),
                persist: false,
            },
            MessageKind::Command { verb: _, args_raw: _ } => self.command_msg_process(
                cp,
                tp,
                config,
                channel,
                inner_message,
                nick,
            ),
            MessageKind::SessionStatus { nick: about, code } => {
                self.user_status_report(about.as_str(), code, now);
                Routed { action: RouterAction::Nothing, persist: false }
            },
            MessageKind::Other => Routed { action: RouterAction::Nothing, persist: false },
        }
    }
}

/// How many failed handshakes end the listening.
pub const IRC_MAX_RETRY: u8 = 10;

/// How many seconds to wait after a failed handshake.
pub const RECONNECT_DELAY_SECS: u64 = 3;

/// Where the connection stands.
#[derive(Debug, Clone, Copy, PartialEq, Eq)]
pub enum LinkState {
    /// Nothing has been tried yet.
    Disconnected,
    /// A handshake is under way.
    Connecting,
    /// Lines are coming in.
    Streaming,
    /// The connection is given up for good.
    Stopped,
}

/// What the transport reports.
#[derive(Debug, Clone, Copy, PartialEq, Eq)]
pub enum TransportEvent {
    /// The handshake went through.
    Connected,
    /// The handshake failed.
    ConnectFailed,
    /// A line has come in.
    Message,
    /// The server has not answered in time.
    Timeout,
    /// Something else went wrong on the stream.
    Fault,
}

/// What the supervisor asks of whoever holds the transport.
#[derive(Debug, Clone, Copy, PartialEq, Eq)]
pub enum SupervisorAction {
    /// Make the handshake.
    Connect,
    /// Wait so many seconds, then make the handshake.
    RetryAfter(u64),
    /// Wait so many seconds, then leave the listening loop.
    GiveUpAfter(u64),
    /// Hand the line to the router, then read on.
    Route,
    /// Read on.
    Read,
    /// Leave the listening loop.
    Stop,
}

/// The state of the supervisor: where the connection stands, and how many
/// handshakes have failed since the start.
pub struct SupervisorState {
    pub link: LinkState,
    pub failures: nat,
}

/// What a state calls for when there is no news: the first handshake
/// where nothing has been tried, and otherwise to go on as before.
pub open spec fn resume(state: SupervisorState) -> (SupervisorState, SupervisorAction) {
    match state.link {
        LinkState::Disconnected => (
            SupervisorState { link: LinkState::Connecting, failures: state.failures },
            SupervisorAction::Connect,
        ),
        LinkState::Connecting => (state, SupervisorAction::Connect),
        LinkState::Streaming => (state, SupervisorAction::Read),
        LinkState::Stopped => (state, SupervisorAction::Stop),
    }
}

/// The step of the supervisor. A failed handshake is counted and waited
/// out, and the tenth ends the listening; the count is never reset. On the
/// stream a line goes to the router, a timeout leads to a new handshake,
/// and any other fault is let pass. News that does not fit the state
/// changes nothing.
pub open spec fn supervise(state: SupervisorState, event: TransportEvent) -> (
    SupervisorState,
    SupervisorAction,
) {
    match state.link {
        LinkState::Stopped => resume(state),
        LinkState::Disconnected => resume(state),
        LinkState::Connecting => match event {
            TransportEvent::Connected => (
                SupervisorState { link: LinkState::Streaming, failures: state.failures },
                SupervisorAction::Read,
            ),
            TransportEvent::ConnectFailed => if state.failures + 1 >= IRC_MAX_RETRY {
                (
                    SupervisorState { link: LinkState::Stopped, failures: state.failures + 1 },
                    SupervisorAction::GiveUpAfter(RECONNECT_DELAY_SECS),
                )
            } else {
                (
                    SupervisorState { link: LinkState::Connecting, failures: state.failures + 1 },
                    SupervisorAction::RetryAfter(RECONNECT_DELAY_SECS),
                )
            },
            _ => resume(state),
        },
        LinkState::Streaming => match event {
            TransportEvent::Message => (state, SupervisorAction::Route),
            TransportEvent::Timeout => (
                SupervisorState { link: LinkState::Connecting, failures: state.failures },
                SupervisorAction::Connect,
            ),
            _ => resume(state),
        },
    }
}

/// The state after `n` handshakes in a row have failed, from the state
/// in which the first of them was under way.
pub open spec fn after_failures(start: SupervisorState, n: nat) -> SupervisorState
    decreases n,
{
    if n == 0 {
        start
    } else {
        supervise(after_failures(start, (n - 1) as nat), TransportEvent::ConnectFailed).0
    }
}

/// What the supervisor asks after the `n`th failed handshake in a row.
pub open spec fn action_at_failure(start: SupervisorState, n: nat) -> SupervisorAction
    recommends
        n > 0,
{
    supervise(after_failures(start, (n - 1) as nat), TransportEvent::ConnectFailed).1
}

/// While handshakes keep failing from the start, each failure is waited
/// out for three seconds; the first nine are followed by a new handshake,
/// and the tenth ends the listening.
pub proof fn lemma_consecutive_failures(n: nat)
    requires
        0 < n <= IRC_MAX_RETRY,
    ensures
        after_failures(
            SupervisorState { link: LinkState::Connecting, failures: 0 },
            n,
        ).failures == n,
        n < IRC_MAX_RETRY ==> after_failures(
            SupervisorState { link: LinkState::Connecting, failures: 0 },
            n,
        ).link == LinkState::Connecting && action_at_failure(
            SupervisorState { link: LinkState::Connecting, failures: 0 },
            n,
        ) == SupervisorAction::RetryAfter(RECONNECT_DELAY_SECS),
        n == IRC_MAX_RETRY ==> after_failures(
            SupervisorState { link: LinkState::Connecting, failures: 0 },
            n,
        ).link == LinkState::Stopped && action_at_failure(
            SupervisorState { link: LinkState::Connecting, failures: 0 },
            n,
        ) == SupervisorAction::GiveUpAfter(RECONNECT_DELAY_SECS),
    decreases n,
{
    if n > 1 {
        lemma_consecutive_failures((n - 1) as nat);
    }
}

/// Once the listening has stopped, nothing starts it again.
pub proof fn lemma_stopped_is_final(state: SupervisorState, event: TransportEvent)
    requires
        state.link == LinkState::Stopped,
    ensures
        supervise(state, event) == (state, SupervisorAction::Stop),
{
}

/// The supervisor of the connection. Whoever holds the transport reports
/// each event here and does what the answer asks.
pub struct Supervisor {
    link: LinkState,
    failures: u8,
}

impl View for Supervisor {
    type V = SupervisorState;

    closed spec fn view(&self) -> SupervisorState {
        SupervisorState { link: self.link, failures: self.failures as nat }
    }
}

impl Supervisor {
    #[verifier::type_invariant]
    spec fn bounded(self) -> bool {
        &&& self.failures <= IRC_MAX_RETRY
        &&& self.failures == IRC_MAX_RETRY ==> self.link == LinkState::Stopped
    }

    /// A supervisor before the first handshake.
    pub fn new() -> (r: Supervisor)
        ensures
            r@ == (SupervisorState { link: LinkState::Disconnected, failures: 0 }),
    {
        Supervisor { link: LinkState::Disconnected, failures: 0 }
    }

    /// Where the connection stands.
    pub fn link(&self) -> (r: LinkState)
        ensures
            r == self@.link,
    {
        self.link
    }

    /// How many handshakes have failed since the start.
    pub fn failures(&self) -> (r: u8)
        ensures
            r == self@.failures,
            r <= IRC_MAX_RETRY,
    {
        proof {
            use_type_invariant(self);
        }
        self.failures
    }

    /// Begins the listening: the first thing to do is the handshake.
    pub fn start_listening(&mut self) -> (r: SupervisorAction)
        ensures
            (final(self)@, r) == resume(old(self)@),
    {
        proof {
            use_type_invariant(&*self);
        }
        match self.link {
            LinkState::Disconnected => {
                self.link = LinkState::Connecting;
                SupervisorAction::Connect
            },
            LinkState::Connecting => SupervisorAction::Connect,
            LinkState::Streaming => SupervisorAction::Read,
            LinkState::Stopped => SupervisorAction::Stop,
        }
    }

    /// Takes an event of the transport and says what to do next.
    pub fn on_event(&mut self, event: TransportEvent) -> (r: SupervisorAction)
        ensures
            (final(self)@, r) == supervise(old(self)@, event),
    {
        proof {
            use_type_invariant(&*self);
        }
        match self.link {
            LinkState::Stopped => SupervisorAction::Stop,
            LinkState::Disconnected => {
                self.link = LinkState::Connecting;
                SupervisorAction::Connect
            },
            LinkState::Connecting => match event {
                TransportEvent::Connected => {
                    self.link = LinkState::Streaming;
                    SupervisorAction::Read
                },
                TransportEvent::ConnectFailed => {
                    let failures: u8 = self.failures + 1;
                    if failures >= IRC_MAX_RETRY {
                        *self = Supervisor { link: LinkState::Stopped, failures };
                        SupervisorAction::GiveUpAfter(RECONNECT_DELAY_SECS)
                    } else {
                        *self = Supervisor { link: LinkState::Connecting, failures };
                        SupervisorAction::RetryAfter(RECONNECT_DELAY_SECS)
                    }
                },
                _ => SupervisorAction::Connect,
            },
            LinkState::Streaming => match event {
                TransportEvent::Message => SupervisorAction::Route,
                TransportEvent::Timeout => {
                    self.link = LinkState::Connecting;
                    SupervisorAction::Connect
                },
                _ => SupervisorAction::Read,
            },
        }
    }
}

} // verus!
