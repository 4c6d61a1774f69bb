use irc2torrent::clients::rtorrent::rTorrent;
use irc2torrent::clients::TorrentClientsEnum;
use irc2torrent::command_processor::{Command, CommandOutcome, CommandProcessor, Verb};
use irc2torrent::config::{
    CommandOptions, Config, OptionData, SecurityMode, TorrentClientOption, TorrentLeechOptions,
    TorrentPlatforms, rTorrentOptions,
};
use irc2torrent::platforms::tl::TorrentLeech;
use irc2torrent::platforms::TorrentPlatformsEnum;
use irc2torrent::torrent_processor::{Origin, PipelineStep, TorrentProcessor};

const ANNOUNCEMENT: &str = "New Torrent Announcement: <TV :: Episodes>  Name:'Show.S01.1080p' uploaded by 'Anonymous' -  https://www.torrentleech.org/torrent/12345";

fn strings(items: &[&str]) -> Vec<String> {
    items.iter().map(|s| s.to_string()).collect()
}

fn config_with(mode: SecurityMode, accepts: &[&str], rejects: &[&str]) -> Config {
    let options = OptionData {
        platform: TorrentPlatforms::TorrentLeech(TorrentLeechOptions::default()),
        clients: vec![TorrentClientOption::rTorrent(rTorrentOptions::default())],
        command_options: CommandOptions { security_mode: mode, commands_enabled: true },
        regex_for_downloads_match: strings(accepts),
        regex_for_downloads_reject: strings(rejects),
        regex_for_announce_match: OptionData::default().regex_for_announce_match,
    };
    Config::new(options, Config::get_irc_default_config()).unwrap()
}

fn config() -> Config {
    config_with(SecurityMode::IrcUserName(String::from("boss")), &[".*1080p.*"], &[])
}

fn processor() -> TorrentProcessor {
    TorrentProcessor::new(
        TorrentClientsEnum::Rtorrent(rTorrent::new(String::from("unix://sock"))),
        TorrentPlatformsEnum::TorrentLeech(TorrentLeech::new(
            String::from("key"),
            String::from("/tmp"),
        )),
    )
}

fn not_implemented() -> CommandOutcome {
    CommandOutcome {
        step: PipelineStep::Reply(Err(String::from("Not implemented yet"))),
        persist: false,
    }
}

#[test]
fn is_command_finds_the_grammar_anywhere_in_the_line() {
    let cp = CommandProcessor::new().unwrap();
    assert!(cp.is_command("cmd:addtorrent"));
    assert!(cp.is_command("cmd:addtowatchlist params:(X.*)"));
    assert!(cp.is_command("please cmd:watchlist now"));
    assert!(cp.is_command("cmd:anything_at_all"));
    assert!(!cp.is_command("cmd:"));
    assert!(!cp.is_command("cmd: addtorrent"));
    assert!(!cp.is_command("command:addtorrent"));
    assert!(!cp.is_command(""));
    assert!(!cp.is_command(ANNOUNCEMENT));
}

#[test]
fn parse_gives_verb_and_raw_parameters() {
    let cp = CommandProcessor::new().unwrap();
    assert_eq!(
        cp.parse("cmd:addtowatchlist params:(Some.*Show)"),
        Some(Command { verb: String::from("addtowatchlist"), args_raw: String::from("Some.*Show") })
    );
    assert_eq!(
        cp.parse("cmd:addtorrent params:(a (b) c) trailing"),
        Some(Command { verb: String::from("addtorrent"), args_raw: String::from("a (b) c") })
    );
    assert_eq!(
        cp.parse("cmd:x params:()"),
        Some(Command { verb: String::from("x"), args_raw: String::new() })
    );
}

#[test]
fn parse_gives_empty_parameters_where_there_are_none() {
    let cp = CommandProcessor::new().unwrap();
    assert_eq!(
        cp.parse("cmd:watchlist"),
        Some(Command { verb: String::from("watchlist"), args_raw: String::new() })
    );
    assert_eq!(
        cp.parse("cmd:watchlist params:(unclosed"),
        Some(Command { verb: String::from("watchlist"), args_raw: String::new() })
    );
}

#[test]
fn parse_gives_nothing_for_a_line_without_command() {
    let cp = CommandProcessor::new().unwrap();
    assert_eq!(cp.parse("hello there"), None);
    assert_eq!(cp.parse("cmd:"), None);
    assert_eq!(cp.parse(""), None);
}

#[test]
fn verbs_are_the_fixed_set() {
    assert_eq!(Verb::parse("addtorrent"), Some(Verb::AddTorrent));
    assert_eq!(Verb::parse("addtowatchlist"), Some(Verb::AddToWatchlist));
    assert_eq!(Verb::parse("removeanddeletetorrent"), Some(Verb::RemoveAndDeleteTorrent));
    assert_eq!(Verb::parse("removetorrent"), Some(Verb::RemoveTorrent));
    assert_eq!(Verb::parse("stoptorrent"), Some(Verb::StopTorrent));
    assert_eq!(Verb::parse("removewatch"), Some(Verb::RemoveWatch));
    assert_eq!(Verb::parse("torrentlist"), Some(Verb::TorrentList));
    assert_eq!(Verb::parse("watchlist"), Some(Verb::WatchList));
    assert_eq!(Verb::parse("AddTorrent"), None);
    assert_eq!(Verb::parse("addtorrents"), None);
    assert_eq!(Verb::parse(""), None);
}

#[test]
fn a_line_without_command_never_reaches_a_verb() {
    let cp = CommandProcessor::new().unwrap();
    let tp = processor();
    let lines = [
        "",
        "hello",
        "addtowatchlist params:(X.*)",
        "cmd: addtowatchlist params:(X.*)",
        "cmd:",
        ANNOUNCEMENT,
    ];
    for line in lines {
        let mut config = config();
        assert!(!cp.is_command(line));
        assert_eq!(cp.process_command(&tp, &mut config, line), not_implemented());
        assert_eq!(config.get_dl_patterns(), &strings(&[".*1080p.*"]));
    }
}

#[test]
fn the_six_other_verbs_are_not_implemented() {
    let cp = CommandProcessor::new().unwrap();
    let tp = processor();
    let verbs = [
        "removeanddeletetorrent",
        "removetorrent",
        "stoptorrent",
        "removewatch",
        "torrentlist",
        "watchlist",
    ];
    for verb in verbs {
        let mut config = config();
        let bare = format!("cmd:{}", verb);
        let with_params = format!("cmd:{} params:(0)", verb);
        assert_eq!(cp.process_command(&tp, &mut config, &bare), not_implemented());
        assert_eq!(cp.process_command(&tp, &mut config, &with_params), not_implemented());
        assert_eq!(cp.dispatch(&tp, &mut config, verb, "0"), not_implemented());
        assert_eq!(config.get_dl_patterns(), &strings(&[".*1080p.*"]));
    }
}

#[test]
fn an_unknown_verb_is_not_implemented() {
    let cp = CommandProcessor::new().unwrap();
    let tp = processor();
    let mut config = config();
    assert_eq!(cp.process_command(&tp, &mut config, "cmd:selfdestruct"), not_implemented());
    assert_eq!(cp.process_command(&tp, &mut config, "cmd:ADDTORRENT"), not_implemented());
}

#[test]
fn addtorrent_with_garbage_gives_the_usage_error() {
    let cp = CommandProcessor::new().unwrap();
    let tp = processor();
    let mut config = config();
    let expected = CommandOutcome {
        step: PipelineStep::Reply(Err(String::from(
            "Wrong argument format. Use: addtorrent <torrent name> <torrent id>",
        ))),
        persist: false,
    };
    assert_eq!(cp.process_command(&tp, &mut config, "cmd:addtorrent params:(garbage)"), expected);
    assert_eq!(cp.process_command(&tp, &mut config, "cmd:addtorrent"), expected);
    assert_eq!(config.get_dl_patterns(), &strings(&[".*1080p.*"]));
}

#[test]
fn addtorrent_with_an_announcement_asks_for_the_release() {
    let cp = CommandProcessor::new().unwrap();
    let tp = processor();
    let mut config = config();
    let line = format!("cmd:addtorrent params:({})", ANNOUNCEMENT);
    assert_eq!(
        cp.process_command(&tp, &mut config, &line),
        CommandOutcome {
            step: PipelineStep::Fetch {
                name: String::from("Show.S01.1080p"),
                id: String::from("12345"),
                origin: Origin::Command,
            },
            persist: false,
        }
    );
}

#[test]
fn addtorrent_of_an_unwanted_release_says_so() {
    let cp = CommandProcessor::new().unwrap();
    let tp = processor();
    let mut config =
        config_with(SecurityMode::IrcUserName(String::from("boss")), &[".*"], &["1080p"]);
    let line = format!("cmd:addtorrent params:({})", ANNOUNCEMENT);
    assert_eq!(
        cp.process_command(&tp, &mut config, &line),
        CommandOutcome {
            step: PipelineStep::Reply(Err(String::from(
                "Torrent Show.S01.1080p is not wanted by the watch list"
            ))),
            persist: false,
        }
    );
}

#[test]
fn addtowatchlist_appends_and_asks_to_persist() {
    let cp = CommandProcessor::new().unwrap();
    let tp = processor();
    let mut config = config();
    assert_eq!(
        cp.process_command(&tp, &mut config, "cmd:addtowatchlist params:(X.*)"),
        CommandOutcome {
            step: PipelineStep::Reply(Ok(String::from("Torrent X.* added to watch list"))),
            persist: true,
        }
    );
    assert_eq!(config.get_dl_patterns(), &strings(&[".*1080p.*", "X.*"]));
    assert_eq!(
        cp.process_command(&tp, &mut config, "cmd:addtowatchlist"),
        CommandOutcome {
            step: PipelineStep::Reply(Ok(String::from("Torrent  added to watch list"))),
            persist: true,
        }
    );
    assert_eq!(config.get_dl_patterns(), &strings(&[".*1080p.*", "X.*", ""]));
}

#[test]
fn remove_watch_checks_the_index() {
    let cp = CommandProcessor::new().unwrap();
    let tp = processor();
    let mut config = config();
    assert_eq!(cp.remove_watch(&tp, &mut config, 1), Err(String::from("Index out of range")));
    assert_eq!(config.get_dl_patterns(), &strings(&[".*1080p.*"]));
    assert_eq!(
        cp.remove_watch(&tp, &mut config, 0),
        Ok(String::from("Torrent 0 removed from watch list"))
    );
    assert!(config.get_dl_patterns().is_empty());
}

#[test]
fn authenticate_by_name_or_by_secret() {
    let cp = CommandProcessor::new().unwrap();
    let named = config();
    assert!(cp.authenticate(&named, "boss", "cmd:watchlist"));
    assert!(!cp.authenticate(&named, "Boss", "cmd:watchlist"));
    assert!(!cp.authenticate(&named, "other", "cmd:watchlist auth:[boss]"));
    let secret = config_with(SecurityMode::Password(String::from("s3cret")), &[], &[]);
    assert!(cp.authenticate(&secret, "anyone", "cmd:watchlist auth:[s3cret]"));
    assert!(!cp.authenticate(&secret, "anyone", "cmd:watchlist auth:[s3cre]"));
    assert!(!cp.authenticate(&secret, "s3cret", "cmd:watchlist"));
    let empty = config_with(SecurityMode::Password(String::new()), &[], &[]);
    assert!(cp.authenticate(&empty, "anyone", "auth:[]"));
    assert!(!cp.authenticate(&empty, "anyone", "cmd:watchlist"));
}

#[test]
fn add_torrent_needs_both_name_and_number() {
    let cp = CommandProcessor::new().unwrap();
    let tp = processor();
    let config = config();
    let usage = PipelineStep::Reply(Err(String::from(
        "Wrong argument format. Use: addtorrent <torrent name> <torrent id>",
    )));
    assert_eq!(cp.add_torrent(&tp, &config, None, None), usage);
    assert_eq!(cp.add_torrent(&tp, &config, Some(String::from("A.1080p")), None), usage);
    assert_eq!(cp.add_torrent(&tp, &config, None, Some(String::from("1"))), usage);
    assert_eq!(
        cp.add_torrent(&tp, &config, Some(String::from("A.1080p")), Some(String::from("1"))),
        PipelineStep::Fetch {
            name: String::from("A.1080p"),
            id: String::from("1"),
            origin: Origin::Command,
        }
    );
}
