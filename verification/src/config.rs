//! The configuration that the engines read: trust mode, feed channels,
//! watch patterns, and the settings of the download client and the platform.

use vstd::prelude::*;
use vstd::string::*;
use crate::pattern::{compile_all, compile_opt, compiled, compiled_all};
use crate::text::{opt_chars, texts};

verus! {

/// How an operator proves to be one.
#[derive(Debug, PartialEq, Eq)]
pub enum SecurityMode {
    /// A command carries `auth:[..]` with this secret.
    Password(String),
    /// A command comes from this nickname.
    IrcUserName(String),
}

/// Settings of the command interface.
#[derive(Debug, PartialEq, Eq)]
pub struct CommandOptions {
    pub security_mode: SecurityMode,
    pub commands_enabled: bool,
}

/// Where an rTorrent instance answers XML-RPC calls.
#[allow(non_camel_case_types)]
#[derive(Debug, PartialEq, Eq)]
pub struct rTorrentOptions {
    pub xmlrpc_url: String,
}

/// Where a Flood instance answers, and the account to log in with.
#[derive(Debug, PartialEq, Eq)]
pub struct FloodOptions {
    pub url: String,
    pub username: String,
    pub password: String,
    pub destination: String,
}

/// The download client to drive.
#[allow(non_camel_case_types)]
#[derive(Debug, PartialEq, Eq)]
pub enum TorrentClientOption {
    rTorrent(rTorrentOptions),
    Flood(FloodOptions),
}

/// The account on the TorrentLeech feed and the directory for fetched files.
#[derive(Debug, PartialEq, Eq)]
pub struct TorrentLeechOptions {
    pub rss_key: String,
    pub torrent_dir: String,
}

/// The platform that announces releases.
#[derive(Debug, PartialEq, Eq)]
pub enum TorrentPlatforms {
    TorrentLeech(TorrentLeechOptions),
}

/// Everything in the options file.
#[derive(Debug, PartialEq, Eq)]
pub struct OptionData {
    pub platform: TorrentPlatforms,
    pub clients: Vec<TorrentClientOption>,
    pub command_options: CommandOptions,
    /// Patterns of the releases to fetch.
    pub regex_for_downloads_match: Vec<String>,
    /// Patterns of the releases never to fetch, whatever else matches.
    pub regex_for_downloads_reject: Vec<String>,
    /// The pattern that recognises an announcement; it names the groups `name` and `id`.
    pub regex_for_announce_match: String,
}

/// The settings of the chat session.
#[derive(Debug, PartialEq, Eq)]
pub struct IrcConfig {
    pub nickname: Option<String>,
    pub nick_password: Option<String>,
    pub alt_nicks: Vec<String>,
    pub username: Option<String>,
    pub realname: Option<String>,
    pub server: Option<String>,
    pub port: Option<u16>,
    /// The feed channels: whoever posts there is taken for the feed.
    pub channels: Vec<String>,
    pub user_info: Option<String>,
    pub source: Option<String>,
}

/// What the settings of the chat session hold.
pub struct IrcConfigView {
    pub nickname: Option<Seq<char>>,
    pub nick_password: Option<Seq<char>>,
    pub alt_nicks: Seq<Seq<char>>,
    pub username: Option<Seq<char>>,
    pub realname: Option<Seq<char>>,
    pub server: Option<Seq<char>>,
    pub port: Option<u16>,
    pub channels: Seq<Seq<char>>,
    pub user_info: Option<Seq<char>>,
    pub source: Option<Seq<char>>,
}

impl View for IrcConfig {
    type V = IrcConfigView;

    open spec fn view(&self) -> IrcConfigView {
        IrcConfigView {
            nickname: opt_chars(self.nickname),
            nick_password: opt_chars(self.nick_password),
            alt_nicks: texts(self.alt_nicks@),
            username: opt_chars(self.username),
            realname: opt_chars(self.realname),
            server: opt_chars(self.server),
            port: self.port,
            channels: texts(self.channels@),
            user_info: opt_chars(self.user_info),
            source: opt_chars(self.source),
        }
    }
}

/// Why a configuration is turned down.
#[derive(Debug, PartialEq, Eq, Clone, Copy)]
pub enum ConfigError {
    /// No download client is configured.
    NoClient,
}

/// A copy of a list of strings.
pub fn clone_strings(v: &Vec<String>) -> (r: Vec<String>)
    ensures
        r@ == v@,
{
    let mut r: Vec<String> = Vec::new();
    let mut i: usize = 0;
    while i < v.len()
        invariant
            i <= v.len(),
            r@ == v@.subrange(0, i as int),
        decreases v.len() - i,
    {
        r.push(v[i].clone());
        i = i + 1;
        assert(r@ =~= v@.subrange(0, i as int));
    }
    assert(v@.subrange(0, v.len() as int) =~= v@);
    r
}

/// A copy of an optional string.
pub fn clone_opt_string(s: &Option<String>) -> (r: Option<String>)
    ensures
        r == *s,
{
    match s {
        Some(t) => Some(t.clone()),
        None => None,
    }
}

impl Clone for SecurityMode {
    fn clone(&self) -> (r: Self)
        ensures
            r == *self,
    {
        match self {
            SecurityMode::Password(p) => SecurityMode::Password(p.clone()),
            SecurityMode::IrcUserName(u) => SecurityMode::IrcUserName(u.clone()),
        }
    }
}

impl Clone for CommandOptions {
    fn clone(&self) -> (r: Self)
        ensures
            r == *self,
    {
        CommandOptions {
            security_mode: self.security_mode.clone(),
            commands_enabled: self.commands_enabled,
        }
    }
}

impl Clone for rTorrentOptions {
    fn clone(&self) -> (r: Self)
        ensures
            r == *self,
    {
        rTorrentOptions { xmlrpc_url: self.xmlrpc_url.clone() }
    }
}

impl Clone for FloodOptions {
    fn clone(&self) -> (r: Self)
        ensures
            r == *self,
    {
        FloodOptions {
            url: self.url.clone(),
            username: self.username.clone(),
            password: self.password.clone(),
            destination: self.destination.clone(),
        }
    }
}

impl Clone for TorrentClientOption {
    fn clone(&self) -> (r: Self)
        ensures
            r == *self,
    {
        match self {
            TorrentClientOption::rTorrent(o) => TorrentClientOption::rTorrent(o.clone()),
            TorrentClientOption::Flood(o) => TorrentClientOption::Flood(o.clone()),
        }
    }
}

impl Clone for TorrentLeechOptions {
    fn clone(&self) -> (r: Self)
        ensures
            r == *self,
    {
        TorrentLeechOptions { rss_key: self.rss_key.clone(), torrent_dir: self.torrent_dir.clone() }
    }
}

impl Clone for TorrentPlatforms {
    fn clone(&self) -> (r: Self)
        ensures
            r == *self,
    {
        match self {
            TorrentPlatforms::TorrentLeech(o) => TorrentPlatforms::TorrentLeech(o.clone()),
        }
    }
}

impl Clone for IrcConfig {
    fn clone(&self) -> (r: Self)
        ensures
            r@ == self@,
    {
        IrcConfig {
            nickname: clone_opt_string(&self.nickname),
            nick_password: clone_opt_string(&self.nick_password),
            alt_nicks: clone_strings(&self.alt_nicks),
            username: clone_opt_string(&self.username),
            realname: clone_opt_string(&self.realname),
            server: clone_opt_string(&self.server),
            port: self.port,
            channels: clone_strings(&self.channels),
            user_info: clone_opt_string(&self.user_info),
            source: clone_opt_string(&self.source),
        }
    }
}

impl rTorrentOptions {
    /// Whether these are the settings that a fresh options file proposes.
    pub open spec fn is_default(&self) -> bool {
        self.xmlrpc_url@ == "unix://config/.local/share/rtorrent/rtorrent.sock"@
    }
}

impl Default for rTorrentOptions {
    fn default() -> (r: Self)
        ensures
            r.is_default(),
    {
        rTorrentOptions {
            xmlrpc_url: String::from_str("unix://config/.local/share/rtorrent/rtorrent.sock"),
        }
    }
}

impl FloodOptions {
    /// Whether these are the settings that a fresh options file proposes.
    pub open spec fn is_default(&self) -> bool {
        &&& self.url@ == "http://localhost:3000"@
        &&& self.username@ == "admin"@
        &&& self.password@ == "password"@
        &&& self.destination@ == "/downloads"@
    }
}

impl Default for FloodOptions {
    fn default() -> (r: Self)
        ensures
            r.is_default(),
    {
        FloodOptions {
            url: String::from_str("http://localhost:3000"),
            username: String::from_str("admin"),
            password: String::from_str("password"),
            destination: String::from_str("/downloads"),
        }
    }
}

impl TorrentLeechOptions {
    /// Whether these are the settings that a fresh options file proposes.
    pub open spec fn is_default(&self) -> bool {
        &&& self.rss_key@ == "XXXXXXXX"@
        &&& self.torrent_dir@ == "/tmp"@
    }
}

impl Default for TorrentLeechOptions {
    fn default() -> (r: Self)
        ensures
            r.is_default(),
    {
        TorrentLeechOptions {
            rss_key: String::from_str("XXXXXXXX"),
            torrent_dir: String::from_str("/tmp"),
        }
    }
}

impl CommandOptions {
    /// Whether these are the settings that a fresh options file proposes:
    /// commands are off, and the operator is known by nickname.
    pub open spec fn is_default(&self) -> bool {
        &&& !self.commands_enabled
        &&& self.security_mode matches SecurityMode::IrcUserName(u) && u@ == "irc2torrent"@
    }
}

impl Default for CommandOptions {
    fn default() -> (r: Self)
        ensures
            r.is_default(),
    {
        CommandOptions {
            security_mode: SecurityMode::IrcUserName(String::from_str("irc2torrent")),
            commands_enabled: false,
        }
    }
}

/// The pattern of a TorrentLeech announcement.
pub open spec fn default_announce_pattern() -> Seq<char> {
    r".*Name:'(?P<name>.*)' uploaded by.*https://www.torrentleech.org/torrent/(?P<id>\d+)"@
}

impl OptionData {
    /// Whether these are the options that a fresh options file proposes.
    pub open spec fn is_default(&self) -> bool {
        &&& self.platform matches TorrentPlatforms::TorrentLeech(o) && o.is_default()
        &&& self.clients@.len() == 2
        &&& self.clients@[0] matches TorrentClientOption::rTorrent(o) && o.is_default()
        &&& self.clients@[1] matches TorrentClientOption::Flood(o) && o.is_default()
        &&& self.command_options.is_default()
        &&& texts(self.regex_for_downloads_match@) == seq![
            "Some Regex to match.*1080p.*"@,
            "Another Release.*S02.*1080p.*WEB.*"@,
        ]
        &&& self.regex_for_downloads_reject@.len() == 0
        &&& self.regex_for_announce_match@ == default_announce_pattern()
    }
}

impl Default for OptionData {
    fn default() -> (r: Self)
        ensures
            r.is_default(),
    {
        let mut clients: Vec<TorrentClientOption> = Vec::new();
        clients.push(TorrentClientOption::rTorrent(rTorrentOptions::default()));
        clients.push(TorrentClientOption::Flood(FloodOptions::default()));
        let mut wanted: Vec<String> = Vec::new();
        wanted.push(String::from_str("Some Regex to match.*1080p.*"));
        wanted.push(String::from_str("Another Release.*S02.*1080p.*WEB.*"));
        let r = OptionData {
            platform: TorrentPlatforms::TorrentLeech(TorrentLeechOptions::default()),
            clients,
            command_options: CommandOptions::default(),
            regex_for_downloads_match: wanted,
            regex_for_downloads_reject: Vec::new(),
            regex_for_announce_match: String::from_str(
                r".*Name:'(?P<name>.*)' uploaded by.*https://www.torrentleech.org/torrent/(?P<id>\d+)",
            ),
        };
        assert(texts(r.regex_for_downloads_match@) =~= seq![
            "Some Regex to match.*1080p.*"@,
            "Another Release.*S02.*1080p.*WEB.*"@,
        ]);
        r
    }
}

impl IrcConfigView {
    /// Whether this is the session that a fresh configuration proposes.
    pub open spec fn is_default(&self) -> bool {
        &&& self.nickname == Some("irc2torrent"@)
        &&& self.nick_password == Some("password"@)
        &&& self.alt_nicks == seq![
            "irc2torrent_"@,
            "irc2torrent__"@,
            "irc2torrent___"@,
            "irc2torrent____"@,
            "irc2torrent_____"@,
            "irc2torrent______"@,
        ]
        &&& self.username == Some("irc2torrent"@)
        &&& self.realname == Some("irc2torrent"@)
        &&& self.server == Some("irc.torrentleech.org"@)
        &&& self.port == Some(7011u16)
        &&& self.channels == seq!["#tlannounces"@]
        &&& self.user_info == Some("I'm a bot user for the irc2torrent daemon."@)
        &&& self.source == Some("https://github.com/ebesirik/irc2torrent"@)
    }
}

/// The configuration of a run. It always names at least one download
/// client; the first one is the client that the run drives.
pub struct Config {
    option_data: OptionData,
    irc_data: IrcConfig,
}

impl Config {
    #[verifier::type_invariant]
    spec fn has_client(self) -> bool {
        self.option_data.clients@.len() > 0
    }

    /// The options that the configuration holds.
    pub closed spec fn options(&self) -> OptionData {
        self.option_data
    }

    /// The chat session that the configuration holds.
    pub closed spec fn irc(&self) -> IrcConfig {
        self.irc_data
    }

    /// The patterns of the releases to fetch, in order.
    pub open spec fn accept_patterns(&self) -> Seq<Seq<char>> {
        texts(self.options().regex_for_downloads_match@)
    }

    /// The patterns of the releases never to fetch, in order.
    pub open spec fn reject_patterns(&self) -> Seq<Seq<char>> {
        texts(self.options().regex_for_downloads_reject@)
    }

    /// The pattern that recognises an announcement.
    pub open spec fn announce_pattern(&self) -> Seq<char> {
        self.options().regex_for_announce_match@
    }

    /// The feed channels.
    pub open spec fn feed_channels(&self) -> Seq<Seq<char>> {
        texts(self.irc().channels@)
    }

    /// Whether two configurations differ in nothing but their accept patterns.
    pub open spec fn same_but_accepts(&self, other: &Config) -> bool {
        &&& self.irc() == other.irc()
        &&& self.options().platform == other.options().platform
        &&& self.options().clients == other.options().clients
        &&& self.options().command_options == other.options().command_options
        &&& self.options().regex_for_downloads_reject == other.options().regex_for_downloads_reject
        &&& self.options().regex_for_announce_match == other.options().regex_for_announce_match
    }

    /// Whether two configurations differ in nothing but their reject patterns.
    pub open spec fn same_but_rejects(&self, other: &Config) -> bool {
        &&& self.irc() == other.irc()
        &&& self.options().platform == other.options().platform
        &&& self.options().clients == other.options().clients
        &&& self.options().command_options == other.options().command_options
        &&& self.options().regex_for_downloads_match == other.options().regex_for_downloads_match
        &&& self.options().regex_for_announce_match == other.options().regex_for_announce_match
    }

    /// Puts options and session settings together; options without a
    /// download client are turned down.
    pub fn new(option_data: OptionData, irc_data: IrcConfig) -> (r: Result<Config, ConfigError>)
        ensures
            option_data.clients@.len() == 0 ==> r == Err::<Config, ConfigError>(
                ConfigError::NoClient,
            ),
            option_data.clients@.len() > 0 ==> r is Ok && r->Ok_0.options() == option_data
                && r->Ok_0.irc() == irc_data,
    {
        if option_data.clients.len() == 0 {
            Err(ConfigError::NoClient)
        } else {
            Ok(Config { option_data, irc_data })
        }
    }

    /// The session to open where no configuration says otherwise.
    pub fn get_irc_default_config() -> (r: IrcConfig)
        ensures
            r@.is_default(),
    {
        let mut alt_nicks: Vec<String> = Vec::new();
        alt_nicks.push(String::from_str("irc2torrent_"));
        alt_nicks.push(String::from_str("irc2torrent__"));
        alt_nicks.push(String::from_str("irc2torrent___"));
        alt_nicks.push(String::from_str("irc2torrent____"));
        alt_nicks.push(String::from_str("irc2torrent_____"));
        alt_nicks.push(String::from_str("irc2torrent______"));
        let mut channels: Vec<String> = Vec::new();
        channels.push(String::from_str("#tlannounces"));
        let r = IrcConfig {
            nickname: Some(String::from_str("irc2torrent")),
            nick_password: Some(String::from_str("password")),
            alt_nicks,
            username: Some(String::from_str("irc2torrent")),
            realname: Some(String::from_str("irc2torrent")),
            server: Some(String::from_str("irc.torrentleech.org")),
            port: Some(7011),
            channels,
            user_info: Some(String::from_str("I'm a bot user for the irc2torrent daemon.")),
            source: Some(String::from_str("https://github.com/ebesirik/irc2torrent")),
        };
        assert(r@.alt_nicks =~= seq![
            "irc2torrent_"@,
            "irc2torrent__"@,
            "irc2torrent___"@,
            "irc2torrent____"@,
            "irc2torrent_____"@,
            "irc2torrent______"@,
        ]);
        assert(r@.channels =~= seq!["#tlannounces"@]);
        r
    }

    /// Whether operator commands are acted on at all.
    pub fn is_commands_enabled(&self) -> (r: bool)
        ensures
            r == self.options().command_options.commands_enabled,
    {
        self.option_data.command_options.commands_enabled
    }

    /// The trust mode of the run.
    pub fn get_security_mode(&self) -> (r: &SecurityMode)
        ensures
            *r == self.options().command_options.security_mode,
    {
        &self.option_data.command_options.security_mode
    }

    /// The download client that the run drives: the first one configured.
    pub fn get_torrent_client(&mut self) -> (r: TorrentClientOption)
        ensures
            *final(self) == *old(self),
            old(self).options().clients@.len() > 0,
            r == old(self).options().clients@[0],
    {
        proof {
            use_type_invariant(&*self);
        }
        self.option_data.clients[0].clone()
    }

    /// The platform that announces releases.
    pub fn get_torrent_platform(&self) -> (r: &TorrentPlatforms)
        ensures
            *r == self.options().platform,
    {
        &self.option_data.platform
    }

    /// The announcement pattern, compiled; none where it does not compile.
    pub fn get_announce_regex(&self) -> (r: Option<regex::Regex>)
        ensures
            r == compiled(self.announce_pattern()),
    {
        compile_opt(self.option_data.regex_for_announce_match.as_str())
    }

    /// The accept patterns that compile, compiled, in order.
    pub fn get_dl_regexes(&self) -> (r: Vec<regex::Regex>)
        ensures
            r@ == compiled_all(self.accept_patterns()),
    {
        compile_all(&self.option_data.regex_for_downloads_match)
    }

    /// The reject patterns that compile, compiled, in order.
    pub fn get_reject_regexes(&self) -> (r: Vec<regex::Regex>)
        ensures
            r@ == compiled_all(self.reject_patterns()),
    {
        compile_all(&self.option_data.regex_for_downloads_reject)
    }

    /// The announcement pattern as text.
    pub fn get_announce_pattern(&self) -> (r: &str)
        ensures
            r@ == self.announce_pattern(),
    {
        self.option_data.regex_for_announce_match.as_str()
    }

    /// The accept patterns as text, in order.
    pub fn get_dl_patterns(&self) -> (r: &Vec<String>)
        ensures
            texts(r@) == self.accept_patterns(),
    {
        &self.option_data.regex_for_downloads_match
    }

    /// The reject patterns as text, in order.
    pub fn get_reject_patterns(&self) -> (r: &Vec<String>)
        ensures
            texts(r@) == self.reject_patterns(),
    {
        &self.option_data.regex_for_downloads_reject
    }

    /// Appends an accept pattern as it is given; whether it compiles is not looked at.
    pub fn add_dl_regex(&mut self, regex: String)
        ensures
            final(self).options().regex_for_downloads_match@ == old(
                self,
            ).options().regex_for_downloads_match@.push(regex),
            final(self).accept_patterns() == old(self).accept_patterns().push(regex@),
            final(self).same_but_accepts(old(self)),
    {
        proof {
            use_type_invariant(&*self);
        }
        let mut patterns = clone_strings(&self.option_data.regex_for_downloads_match);
        patterns.push(regex);
        self.option_data.regex_for_downloads_match = patterns;
        assert(texts(self.option_data.regex_for_downloads_match@) =~= texts(
            old(self).option_data.regex_for_downloads_match@,
        ).push(regex@));
    }

    /// Takes out the accept pattern at `index`; the others keep their order.
    pub fn remove_dl_regex(&mut self, index: usize)
        requires
            index < old(self).accept_patterns().len(),
        ensures
            final(self).accept_patterns() == old(self).accept_patterns().remove(index as int),
            final(self).same_but_accepts(old(self)),
    {
        proof {
            use_type_invariant(&*self);
        }
        let mut patterns = clone_strings(&self.option_data.regex_for_downloads_match);
        let _ = patterns.remove(index);
        self.option_data.regex_for_downloads_match = patterns;
        assert(texts(self.option_data.regex_for_downloads_match@) =~= texts(
            old(self).option_data.regex_for_downloads_match@,
        ).remove(index as int));
    }

    /// Appends a reject pattern as it is given.
    pub fn add_reject_regex(&mut self, regex: String)
        ensures
            final(self).reject_patterns() == old(self).reject_patterns().push(regex@),
            final(self).same_but_rejects(old(self)),
    {
        proof {
            use_type_invariant(&*self);
        }
        let mut patterns = clone_strings(&self.option_data.regex_for_downloads_reject);
        patterns.push(regex);
        self.option_data.regex_for_downloads_reject = patterns;
        assert(texts(self.option_data.regex_for_downloads_reject@) =~= texts(
            old(self).option_data.regex_for_downloads_reject@,
        ).push(regex@));
    }

    /// Takes out the reject pattern at `index`; the others keep their order.
    pub fn remove_reject_regex(&mut self, index: usize)
        requires
            index < old(self).reject_patterns().len(),
        ensures
            final(self).reject_patterns() == old(self).reject_patterns().remove(index as int),
            final(self).same_but_rejects(old(self)),
    {
        proof {
            use_type_invariant(&*self);
        }
        let mut patterns = clone_strings(&self.option_data.regex_for_downloads_reject);
        let _ = patterns.remove(index);
        self.option_data.regex_for_downloads_reject = patterns;
        assert(texts(self.option_data.regex_for_downloads_reject@) =~= texts(
            old(self).option_data.regex_for_downloads_reject@,
        ).remove(index as int));
    }

    /// The feed channels, in the order of the configuration.
    pub fn get_feed_channels(&self) -> (r: &Vec<String>)
        ensures
            texts(r@) == self.feed_channels(),
    {
        &self.irc_data.channels
    }

    /// A copy of the session settings.
    pub fn get_irc_config(&self) -> (r: IrcConfig)
        ensures
            r@ == self.irc()@,
    {
        self.irc_data.clone()
    }

    /// The options as they stand, for whoever writes them down.
    pub fn get_option_data(&self) -> (r: &OptionData)
        ensures
            *r == self.options(),
    {
        &self.option_data
    }
}

impl Default for Config {
    fn default() -> (r: Self)
        ensures
            r.options().is_default(),
            r.irc()@.is_default(),
    {
        Config { option_data: OptionData::default(), irc_data: Config::get_irc_default_config() }
    }
}

} // verus!
