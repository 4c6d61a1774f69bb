//! Decision logic of a relay bot that watches a chat feed for release
//! announcements and operator commands and drives a download client.
//!
//! The library decides; whoever links it talks to the chat server, the
//! platform and the download client, reports what came back, and does what
//! the library asks next.

use vstd::prelude::*;

pub mod auth;
pub mod clients;
pub mod command_processor;
pub mod config;
pub mod irc_processor;
pub mod pattern;
pub mod platforms;
pub mod pub_sub;
pub mod text;
pub mod torrent_processor;

use crate::clients::TorrentClientsEnum;
use crate::clients::flood::Flood;
use crate::clients::rtorrent::rTorrent;
use crate::command_processor::CommandProcessor;
use crate::config::{Config, TorrentClientOption, TorrentPlatforms};
use crate::irc_processor::{
    IrcProcessor,
    Outbound,
    Routed,
    Supervisor,
    SupervisorAction,
    TransportEvent,
    outbound_chars,
    periodic_probe,
    resume,
    routes,
    supervise,
};
use crate::platforms::TorrentPlatformsEnum;
use crate::platforms::tl::TorrentLeech;
use crate::torrent_processor::TorrentProcessor;

verus! {

/// The file that holds the settings of the chat session.
pub const IRC_CONFIG_FILE: &'static str = "irc.toml";

/// The file that holds the options.
pub const OPTIONS_CONFIG_FILE: &'static str = "options.toml";

/// The seconds between two probes of the operator's session status.
pub const PERIODIC_CHECK_INTERVAL: u64 = 60;

/// How many times the download client is tried at start-up.
pub const CLIENT_MAX_RETRY: u8 = 10;

/// The seconds between two tries of the download client.
pub const CLIENT_RETRY_DELAY_SECS: u64 = 3;

/// What to do next to reach the download client at start-up.
#[derive(Debug, Clone, Copy, PartialEq, Eq)]
pub enum StartupAction {
    /// Try now.
    Connect,
    /// Wait so many seconds, then try.
    RetryAfter(u64),
    /// Every try has failed: the bot cannot start.
    GiveUp,
}

/// What to do when `attempts` tries have failed: the first try is made at
/// once, each later one after a wait, and none after the last.
pub open spec fn startup_action(attempts: nat) -> StartupAction {
    if attempts >= CLIENT_MAX_RETRY {
        StartupAction::GiveUp
    } else if attempts == 0 {
        StartupAction::Connect
    } else {
        StartupAction::RetryAfter(CLIENT_RETRY_DELAY_SECS)
    }
}

/// The tries made once the next step has been asked for.
pub open spec fn startup_attempts(attempts: nat) -> nat {
    if attempts >= CLIENT_MAX_RETRY {
        attempts
    } else {
        attempts + 1
    }
}

/// The count of the tries to reach the download client at start-up.
pub struct ClientStartup {
    attempts: u8,
}

impl ClientStartup {
    #[verifier::type_invariant]
    spec fn bounded(self) -> bool {
        self.attempts <= CLIENT_MAX_RETRY
    }

    /// The tries made so far.
    pub closed spec fn attempts(&self) -> nat {
        self.attempts as nat
    }

    /// A start-up in which nothing has been tried yet.
    pub fn new() -> (r: ClientStartup)
        ensures
            r.attempts() == 0,
    {
        ClientStartup { attempts: 0 }
    }

    /// What to do now: asked before the first try and after each failed one.
    pub fn next(&mut self) -> (r: StartupAction)
        ensures
            r == startup_action(old(self).attempts()),
            final(self).attempts() == startup_attempts(old(self).attempts()),
    {
        proof {
            use_type_invariant(&*self);
        }
        if self.attempts >= CLIENT_MAX_RETRY {
            StartupAction::GiveUp
        } else {
            let first = self.attempts == 0;
            self.attempts = self.attempts + 1;
            if first {
                StartupAction::Connect
            } else {
                StartupAction::RetryAfter(CLIENT_RETRY_DELAY_SECS)
            }
        }
    }
}

/// The download client that an option describes.
pub open spec fn client_matches(client: TorrentClientsEnum, option: TorrentClientOption) -> bool {
    match option {
        TorrentClientOption::rTorrent(o) => client matches TorrentClientsEnum::Rtorrent(c)
            && c.spec_url() == o.xmlrpc_url@,
        TorrentClientOption::Flood(o) => client matches TorrentClientsEnum::Flood(c) && {
            &&& c.spec_username() == o.username@
            &&& c.spec_password() == o.password@
            &&& c.spec_url() == o.url@
            &&& c.spec_dest() == o.destination@
            &&& c.spec_retry_limit() == crate::clients::RETRY_LIMIT
        },
    }
}

/// The platform that an option describes.
pub open spec fn platform_matches(platform: TorrentPlatformsEnum, option: TorrentPlatforms) -> bool {
    match option {
        TorrentPlatforms::TorrentLeech(o) => platform matches TorrentPlatformsEnum::TorrentLeech(p)
            && p.spec_rss_key() == o.rss_key@ && p.spec_torrent_dir() == o.torrent_dir@,
    }
}

/// The bot: the configuration and the engines that read it.
pub struct Irc2Torrent {
    config: Config,
    torrent_processor: TorrentProcessor,
    command_processor: CommandProcessor,
    irc_processor: IrcProcessor,
    supervisor: Supervisor,
}

impl Irc2Torrent {
    /// The configuration as it stands.
    pub closed spec fn config(&self) -> Config {
        self.config
    }

    /// The processor of releases.
    pub closed spec fn processor(&self) -> TorrentProcessor {
        self.torrent_processor
    }

    /// The last reported status of each nickname.
    pub closed spec fn statuses(&self) -> Map<Seq<char>, (u8, u64)> {
        self.irc_processor.statuses()
    }

    /// The state of the connection's supervisor.
    pub closed spec fn link(&self) -> crate::irc_processor::SupervisorState {
        self.supervisor@
    }

    /// The download client that an option describes, before anything is
    /// asked of it.
    pub fn get_torrent_client(option: &TorrentClientOption) -> (r: TorrentClientsEnum)
        ensures
            client_matches(r, *option),
    {
        match option {
            TorrentClientOption::rTorrent(c) => TorrentClientsEnum::Rtorrent(
                rTorrent::new(c.xmlrpc_url.clone()),
            ),
            TorrentClientOption::Flood(c) => TorrentClientsEnum::Flood(
                Flood::new(
                    c.username.clone(),
                    c.password.clone(),
                    c.url.clone(),
                    c.destination.clone(),
                ),
            ),
        }
    }

    /// The platform that an option describes.
    pub fn get_torrent_platform(option: &TorrentPlatforms) -> (r: TorrentPlatformsEnum)
        ensures
            platform_matches(r, *option),
    {
        match option {
            TorrentPlatforms::TorrentLeech(c) => TorrentPlatformsEnum::TorrentLeech(
                TorrentLeech::new(c.rss_key.clone(), c.torrent_dir.clone()),
            ),
        }
    }

    /// The bot under a configuration, with the download client that was
    /// reached, the platform of the configuration, nobody's status known
    /// and no connection yet; none where a pattern of the engines does not
    /// compile.
    pub fn new(config: Config, torrent_client: TorrentClientsEnum) -> (r: Option<Irc2Torrent>)
        ensures
            r matches Some(bot) ==> {
                &&& bot.config() == config
                &&& bot.processor().client() == torrent_client
                &&& platform_matches(bot.processor().platform(), config.options().platform)
                &&& bot.statuses() == Map::<Seq<char>, (u8, u64)>::empty()
                &&& bot.link() == (crate::irc_processor::SupervisorState {
                    link: crate::irc_processor::LinkState::Disconnected,
                    failures: 0,
                })
            },
            r is Some <==> {
                &&& crate::pattern::regex_compiled(crate::command_processor::command_pattern()) is Ok
                &&& crate::pattern::regex_compiled(crate::command_processor::secret_pattern()) is Ok
                &&& crate::pattern::regex_compiled(crate::auth::token_pattern()) is Ok
                &&& crate::pattern::regex_compiled(crate::irc_processor::status_pattern()) is Ok
            },
    {
        let torrent_platform = Irc2Torrent::get_torrent_platform(config.get_torrent_platform());
        let torrent_processor = TorrentProcessor::new(torrent_client, torrent_platform);
        match CommandProcessor::new() {
            Some(command_processor) => match IrcProcessor::new() {
                Some(irc_processor) => Some(
                    Irc2Torrent {
                        config,
                        torrent_processor,
                        command_processor,
                        irc_processor,
                        supervisor: Supervisor::new(),
                    },
                ),
                None => None,
            },
            None => None,
        }
    }

    /// The configuration as it stands.
    pub fn get_config(&self) -> (r: &Config)
        ensures
            *r == self.config(),
    {
        &self.config
    }

    /// The processor of releases.
    pub fn get_torrent_processor(&self) -> (r: &TorrentProcessor)
        ensures
            *r == self.processor(),
    {
        &self.torrent_processor
    }

    /// What was last reported of somebody: the status code and the time.
    pub fn user_status(&self, nick: &str) -> (r: Option<(u8, u64)>)
        ensures
            r is Some <==> self.statuses().dom().contains(nick@),
            r is Some ==> r->Some_0 == self.statuses()[nick@],
    {
        self.irc_processor.user_status(nick)
    }

    /// The line to send at a tick of the status probe, if any.
    pub fn periodic_check(&self) -> (r: Option<Outbound>)
        ensures
            outbound_chars(r) == periodic_probe(
                self.config().options().command_options.security_mode,
            ),
    {
        self.irc_processor.periodic_check(&self.config)
    }

    /// Begins the listening: the first thing to do is the handshake.
    pub fn start(&mut self) -> (r: SupervisorAction)
        ensures
            (final(self).link(), r) == resume(old(self).link()),
            final(self).config() == old(self).config(),
            final(self).processor() == old(self).processor(),
            final(self).statuses() == old(self).statuses(),
    {
        self.supervisor.start_listening()
    }

    /// Takes an event of the transport and says what to do next.
    pub fn on_event(&mut self, event: TransportEvent) -> (r: SupervisorAction)
        ensures
            (final(self).link(), r) == supervise(old(self).link(), event),
            final(self).config() == old(self).config(),
            final(self).processor() == old(self).processor(),
            final(self).statuses() == old(self).statuses(),
    {
        self.supervisor.on_event(event)
    }

    /// Routes one line that `nick` sent on `channel`, at the time `now` in
    /// seconds since the epoch.
    pub fn route(&mut self, line: &str, nick: &str, channel: &str, now: u64) -> (r: Routed)
        ensures
            routes(
                line@,
                nick@,
                channel@,
                now,
                &old(self).config(),
                &final(self).config(),
                old(self).statuses(),
                final(self).statuses(),
                r,
            ),
            final(self).processor() == old(self).processor(),
            final(self).link() == old(self).link(),
    {
        self.irc_processor.msg_process(
            &self.command_processor,
            &self.torrent_processor,
            &mut self.config,
            line,
            nick,
            channel,
            now,
        )
    }
}

} // verus!
