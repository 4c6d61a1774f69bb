use irc2torrent::clients::flood::Flood;
use irc2torrent::clients::rtorrent::rTorrent;
use irc2torrent::clients::TorrentClientsEnum;
use irc2torrent::config::{
    clone_opt_string, clone_strings, CommandOptions, Config, ConfigError, FloodOptions,
    OptionData, SecurityMode, TorrentClientOption, TorrentLeechOptions, TorrentPlatforms,
    rTorrentOptions,
};
use irc2torrent::platforms::tl::TorrentLeech;
use irc2torrent::platforms::{TorrentPlatform, TorrentPlatformsEnum};
use irc2torrent::text::{same, to_decimal};
use irc2torrent::{
    Irc2Torrent, CLIENT_RETRY_DELAY_SECS, IRC_CONFIG_FILE, OPTIONS_CONFIG_FILE,
    PERIODIC_CHECK_INTERVAL,
};

#[test]
fn default_options() {
    let options = OptionData::default();
    assert_eq!(
        options.platform,
        TorrentPlatforms::TorrentLeech(TorrentLeechOptions {
            rss_key: String::from("XXXXXXXX"),
            torrent_dir: String::from("/tmp"),
        })
    );
    assert_eq!(
        options.clients,
        vec![
            TorrentClientOption::rTorrent(rTorrentOptions {
                xmlrpc_url: String::from("unix://config/.local/share/rtorrent/rtorrent.sock"),
            }),
            TorrentClientOption::Flood(FloodOptions {
                url: String::from("http://localhost:3000"),
                username: String::from("admin"),
                password: String::from("password"),
                destination: String::from("/downloads"),
            }),
        ]
    );
    assert_eq!(
        options.command_options,
        CommandOptions {
            security_mode: SecurityMode::IrcUserName(String::from("irc2torrent")),
            commands_enabled: false,
        }
    );
    assert_eq!(
        options.regex_for_downloads_match,
        vec![
            String::from("Some Regex to match.*1080p.*"),
            String::from("Another Release.*S02.*1080p.*WEB.*"),
        ]
    );
    assert!(options.regex_for_downloads_reject.is_empty());
    assert_eq!(
        options.regex_for_announce_match,
        r".*Name:'(?P<name>.*)' uploaded by.*https://www.torrentleech.org/torrent/(?P<id>\d+)"
    );
}

#[test]
fn default_session() {
    let irc = Config::get_irc_default_config();
    assert_eq!(irc.nickname, Some(String::from("irc2torrent")));
    assert_eq!(irc.nick_password, Some(String::from("password")));
    assert_eq!(
        irc.alt_nicks,
        vec![
            String::from("irc2torrent_"),
            String::from("irc2torrent__"),
            String::from("irc2torrent___"),
            String::from("irc2torrent____"),
            String::from("irc2torrent_____"),
            String::from("irc2torrent______"),
        ]
    );
    assert_eq!(irc.username, Some(String::from("irc2torrent")));
    assert_eq!(irc.realname, Some(String::from("irc2torrent")));
    assert_eq!(irc.server, Some(String::from("irc.torrentleech.org")));
    assert_eq!(irc.port, Some(7011));
    assert_eq!(irc.channels, vec![String::from("#tlannounces")]);
    assert_eq!(irc.user_info, Some(String::from("I'm a bot user for the irc2torrent daemon.")));
    assert_eq!(irc.source, Some(String::from("https://github.com/ebesirik/irc2torrent")));
}

#[test]
fn default_configuration_getters() {
    let mut config = Config::default();
    assert!(!config.is_commands_enabled());
    assert_eq!(
        config.get_security_mode(),
        &SecurityMode::IrcUserName(String::from("irc2torrent"))
    );
    assert_eq!(
        config.get_torrent_client(),
        TorrentClientOption::rTorrent(rTorrentOptions::default())
    );
    assert_eq!(
        config.get_torrent_platform(),
        &TorrentPlatforms::TorrentLeech(TorrentLeechOptions::default())
    );
    assert_eq!(config.get_irc_config(), Config::get_irc_default_config());
    assert_eq!(config.get_feed_channels(), &vec![String::from("#tlannounces")]);
    assert_eq!(config.get_announce_pattern(), OptionData::default().regex_for_announce_match);
    assert_eq!(config.get_option_data(), &OptionData::default());
}

#[test]
fn configuration_needs_a_client() {
    let mut options = OptionData::default();
    options.clients.clear();
    assert_eq!(
        Config::new(options, Config::get_irc_default_config()).err(),
        Some(ConfigError::NoClient)
    );
}

#[test]
fn the_first_client_is_the_one() {
    let mut options = OptionData::default();
    options.clients.reverse();
    let mut config = Config::new(options, Config::get_irc_default_config()).unwrap();
    assert_eq!(
        config.get_torrent_client(),
        TorrentClientOption::Flood(FloodOptions::default())
    );
    assert_eq!(config.get_option_data().clients.len(), 2);
}

#[test]
fn pattern_lists_grow_and_shrink_in_order() {
    let mut config = Config::default();
    config.add_dl_regex(String::from("X.*"));
    assert_eq!(config.get_dl_patterns().len(), 3);
    assert_eq!(config.get_dl_patterns()[2], "X.*");
    config.remove_dl_regex(0);
    assert_eq!(
        config.get_dl_patterns(),
        &vec![String::from("Another Release.*S02.*1080p.*WEB.*"), String::from("X.*")]
    );
    config.add_reject_regex(String::from("CAM"));
    config.add_reject_regex(String::from("x265"));
    assert_eq!(config.get_reject_patterns(), &vec![String::from("CAM"), String::from("x265")]);
    config.remove_reject_regex(0);
    assert_eq!(config.get_reject_patterns(), &vec![String::from("x265")]);
    assert_eq!(config.get_dl_patterns().len(), 2);
}

#[test]
fn copies_are_equal() {
    let list = vec![String::from("a"), String::new(), String::from("c")];
    assert_eq!(clone_strings(&list), list);
    assert_eq!(clone_strings(&vec![]), Vec::<String>::new());
    assert_eq!(clone_opt_string(&Some(String::from("x"))), Some(String::from("x")));
    assert_eq!(clone_opt_string(&None), None);
    let mode = SecurityMode::Password(String::from("p"));
    assert_eq!(mode.clone(), mode);
    let options = CommandOptions::default();
    assert_eq!(options.clone(), options);
    let platform = TorrentPlatforms::TorrentLeech(TorrentLeechOptions::default());
    assert_eq!(platform.clone(), platform);
}

#[test]
fn constants() {
    assert_eq!(IRC_CONFIG_FILE, "irc.toml");
    assert_eq!(OPTIONS_CONFIG_FILE, "options.toml");
    assert_eq!(PERIODIC_CHECK_INTERVAL, 60);
    assert_eq!(CLIENT_RETRY_DELAY_SECS, 3);
}

#[test]
fn clients_and_platforms_are_built_from_their_options() {
    let flood = Irc2Torrent::get_torrent_client(&TorrentClientOption::Flood(FloodOptions {
        url: String::from("http://f:3000"),
        username: String::from("u"),
        password: String::from("p"),
        destination: String::from("/d"),
    }));
    assert!(matches!(
        &flood,
        TorrentClientsEnum::Flood(c) if *c == Flood::new(
            String::from("u"),
            String::from("p"),
            String::from("http://f:3000"),
            String::from("/d"),
        )
    ));
    let rtorrent = Irc2Torrent::get_torrent_client(&TorrentClientOption::rTorrent(
        rTorrentOptions { xmlrpc_url: String::from("unix://s") },
    ));
    assert!(matches!(
        &rtorrent,
        TorrentClientsEnum::Rtorrent(c) if *c == rTorrent::new(String::from("unix://s"))
    ));
    let platform = Irc2Torrent::get_torrent_platform(&TorrentPlatforms::TorrentLeech(
        TorrentLeechOptions { rss_key: String::from("k"), torrent_dir: String::from("/t") },
    ));
    match platform {
        TorrentPlatformsEnum::TorrentLeech(tl) => {
            assert_eq!(tl.get_torrent_files_dir(), "/t");
            assert_eq!(
                tl.download_address("A B", "9"),
                "https://www.torrentleech.org/rss/download/9/k/A.B.torrent"
            );
        }
    }
}

#[test]
fn torrent_file_names_have_dots_for_spaces() {
    assert_eq!(TorrentLeech::torrent_file("Some Show S01 1080p"), "Some.Show.S01.1080p.torrent");
    assert_eq!(TorrentLeech::torrent_file("NoSpaces"), "NoSpaces.torrent");
    assert_eq!(TorrentLeech::torrent_file(" a  b "), ".a..b..torrent");
    assert_eq!(TorrentLeech::torrent_file(""), ".torrent");
}

#[test]
fn download_address_names_number_key_and_file() {
    let tl = TorrentLeech::new(String::from("abcdef"), String::from("/tmp"));
    assert_eq!(
        tl.download_address(
            "Diners Drive-Ins and Dives S48E04 1080p WEB h264-FREQUENCY",
            "241240312"
        ),
        "https://www.torrentleech.org/rss/download/241240312/abcdef/Diners.Drive-Ins.and.Dives.S48E04.1080p.WEB.h264-FREQUENCY.torrent"
    );
    assert_eq!(tl.get_torrent_files_dir(), "/tmp");
}

#[test]
fn payload_is_encoded_in_base64_without_padding() {
    assert_eq!(TorrentLeech::encode_payload(b""), "");
    assert_eq!(TorrentLeech::encode_payload(b"d"), "ZA");
    assert_eq!(TorrentLeech::encode_payload(b"d8"), "ZDg");
    assert_eq!(TorrentLeech::encode_payload(b"d8:"), "ZDg6");
    assert_eq!(TorrentLeech::encode_payload(b"d8:announce"), "ZDg6YW5ub3VuY2U");
    assert_eq!(TorrentLeech::encode_payload(&[0xfb, 0xff, 0xfe]), "+//+");
}

#[test]
fn decimal_numerals() {
    assert_eq!(to_decimal(0), "0");
    assert_eq!(to_decimal(7), "7");
    assert_eq!(to_decimal(10), "10");
    assert_eq!(to_decimal(109), "109");
    assert_eq!(to_decimal(1_234_567_890), "1234567890");
    assert_eq!(to_decimal(usize::MAX), usize::MAX.to_string());
}

#[test]
fn same_compares_characters() {
    assert!(same("", ""));
    assert!(same("abc", "abc"));
    assert!(!same("abc", "abd"));
    assert!(!same("abc", "ab"));
    assert!(!same("a", "A"));
}
