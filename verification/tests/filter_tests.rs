use irc2torrent::clients::rtorrent::rTorrent;
use irc2torrent::clients::{Failure, Operation, TorrentClientsEnum};
use irc2torrent::config::{
    CommandOptions, Config, OptionData, TorrentClientOption, TorrentLeechOptions,
    TorrentPlatforms, rTorrentOptions,
};
use irc2torrent::pattern::search;
use irc2torrent::platforms::tl::TorrentLeech;
use irc2torrent::platforms::TorrentPlatformsEnum;
use irc2torrent::torrent_processor::{Origin, PipelineStep, TorrentProcessor, matches_any};

fn strings(items: &[&str]) -> Vec<String> {
    items.iter().map(|s| s.to_string()).collect()
}

fn config_with(accepts: &[&str], rejects: &[&str]) -> Config {
    let options = OptionData {
        platform: TorrentPlatforms::TorrentLeech(TorrentLeechOptions::default()),
        clients: vec![TorrentClientOption::rTorrent(rTorrentOptions::default())],
        command_options: CommandOptions::default(),
        regex_for_downloads_match: strings(accepts),
        regex_for_downloads_reject: strings(rejects),
        regex_for_announce_match: OptionData::default().regex_for_announce_match,
    };
    Config::new(options, Config::get_irc_default_config()).unwrap()
}

fn processor() -> TorrentProcessor {
    TorrentProcessor::new(
        TorrentClientsEnum::Rtorrent(rTorrent::new(String::from("unix://sock"))),
        TorrentPlatformsEnum::TorrentLeech(TorrentLeech::new(
            String::from("key"),
            String::from("/tmp"),
        )),
    )
}

#[test]
fn search_runs_the_pattern_over_the_text() {
    assert!(search(".*1080p.*", "Show.S01.1080p"));
    assert!(search("1080p", "Show.S01.1080p"));
    assert!(!search("^1080p", "Show.S01.1080p"));
    assert!(!search("720p", "Show.S01.1080p"));
    assert!(search(r"S\d\dE\d\d", "Show.S01E02.720p"));
    assert!(!search(r"S\d\dE\d\d", "S01E02".to_lowercase().as_str()));
    // a pattern is no literal: handing the text back as the answer would not do
    assert!(!search("a.c", "a.c".replace('.', "").as_str()));
    assert!(search("a.c", "abc"));
}

#[test]
fn a_pattern_that_does_not_compile_matches_nothing() {
    assert!(!search("(", "("));
    assert!(!search("[a-", "a"));
    assert!(!search(r"\w{1000000}", "a"));
}

#[test]
fn matches_any_is_false_on_an_empty_list() {
    assert!(!matches_any(&vec![], "anything"));
    assert!(matches_any(&strings(&["nope", "any"]), "anything"));
    assert!(!matches_any(&strings(&["nope", "(", "never"]), "anything"));
}

#[test]
fn wanted_when_an_accept_pattern_matches() {
    let tp = processor();
    let config = config_with(&["Some Show.*1080p.*", "Other.*"], &[]);
    assert!(tp.do_we_want_this_torrent(&config, "Some Show S01E01 1080p WEB"));
    assert!(tp.do_we_want_this_torrent(&config, "Other thing"));
    assert!(!tp.do_we_want_this_torrent(&config, "Some Show S01E01 720p WEB"));
}

#[test]
fn patterns_are_case_sensitive() {
    let tp = processor();
    let config = config_with(&["Show"], &[]);
    assert!(tp.do_we_want_this_torrent(&config, "Show.S01"));
    assert!(!tp.do_we_want_this_torrent(&config, "show.s01"));
}

#[test]
fn nothing_is_wanted_without_accept_patterns() {
    let tp = processor();
    let config = config_with(&[], &[]);
    assert!(!tp.do_we_want_this_torrent(&config, "Show.S01.1080p"));
    assert!(!tp.do_we_want_this_torrent(&config, ""));
}

#[test]
fn reject_takes_precedence_over_accept() {
    let tp = processor();
    let names = ["Show.S01.1080p", "Show.S01.720p", "Other.1080p.x265", "x"];
    let accept_sets: [&[&str]; 4] = [&[".*"], &[".*1080p.*"], &["Show", "Other"], &[]];
    let reject_sets: [&[&str]; 4] = [&[".*1080p.*"], &["x265", "720p"], &["^Show"], &[".*"]];
    for accepts in accept_sets {
        for rejects in reject_sets {
            let config = config_with(accepts, rejects);
            for name in names {
                let rejected = rejects.iter().any(|p| search(p, name));
                let accepted = accepts.iter().any(|p| search(p, name));
                let got = tp.do_we_want_this_torrent(&config, name);
                if rejected {
                    assert!(!got);
                }
                assert_eq!(got, !rejected && accepted);
            }
        }
    }
}

#[test]
fn an_invalid_watch_pattern_is_inert() {
    let tp = processor();
    let config = config_with(&["(", "Show"], &["["]);
    assert!(tp.do_we_want_this_torrent(&config, "Show.S01"));
    assert!(!tp.do_we_want_this_torrent(&config, "("));
}

#[test]
fn process_torrent_fetches_what_is_wanted() {
    let tp = processor();
    let config = config_with(&[".*1080p.*"], &[]);
    assert_eq!(
        tp.process_torrent(&config, "Show.S01.1080p", "12345"),
        PipelineStep::Fetch {
            name: String::from("Show.S01.1080p"),
            id: String::from("12345"),
            origin: Origin::Announcement,
        }
    );
    assert_eq!(tp.process_torrent(&config, "Show.S01.720p", "12346"), PipelineStep::Skip);
}

#[test]
fn add_torrent_says_when_a_release_is_not_wanted() {
    let tp = processor();
    let config = config_with(&[".*1080p.*"], &["Show"]);
    assert_eq!(
        tp.add_torrent(&config, "Film.1080p", "7"),
        PipelineStep::Fetch {
            name: String::from("Film.1080p"),
            id: String::from("7"),
            origin: Origin::Command,
        }
    );
    assert_eq!(
        tp.add_torrent(&config, "Show.1080p", "8"),
        PipelineStep::Reply(Err(String::from(
            "Torrent Show.1080p is not wanted by the watch list"
        )))
    );
}

#[test]
fn first_step_is_fetch_or_skip() {
    assert_eq!(
        TorrentProcessor::first_step(true, "n", "1"),
        PipelineStep::Fetch {
            name: String::from("n"),
            id: String::from("1"),
            origin: Origin::Announcement,
        }
    );
    assert_eq!(TorrentProcessor::first_step(false, "n", "1"), PipelineStep::Skip);
}

#[test]
fn a_fetched_file_is_handed_over() {
    let tp = processor();
    for origin in [Origin::Announcement, Origin::Command] {
        assert_eq!(
            tp.download_torrent("Show", origin, Ok(String::from("ZDg6"))),
            PipelineStep::Submit { file: String::from("ZDg6"), name: String::from("Show"), origin }
        );
    }
}

#[test]
fn a_failed_fetch_is_reported_and_nothing_is_handed_over() {
    let tp = processor();
    for origin in [Origin::Announcement, Origin::Command] {
        for why in ["Failed to download file", "", "timed out"] {
            assert_eq!(
                tp.download_torrent("Show", origin, Err(String::from(why))),
                PipelineStep::Reply(Err(String::from("Can not download torrent file")))
            );
        }
    }
}

#[test]
fn the_last_word_confirms_or_gives_the_reason() {
    let tp = processor();
    assert_eq!(
        tp.add_torrent_and_start("Show.S01", Origin::Announcement, Ok(())),
        Ok(String::from("Torrent added to client."))
    );
    assert_eq!(
        tp.add_torrent_and_start("Show.S01", Origin::Command, Ok(())),
        Ok(String::from("Torrent Show.S01 added to rtorrent"))
    );
    for origin in [Origin::Announcement, Origin::Command] {
        assert_eq!(
            tp.add_torrent_and_start("Show.S01", origin, Err(Failure::CannotAuthorize)),
            Err(String::from("Could not add torrent to client. Error was: Can not authorize"))
        );
        assert_eq!(
            tp.add_torrent_and_start(
                "Show.S01",
                origin,
                Err(Failure::Refused(Operation::SubmitAndStart))
            ),
            Err(String::from("Could not add torrent to client. Error was: Can not add torrent"))
        );
        assert_eq!(
            tp.add_torrent_and_start(
                "Show.S01",
                origin,
                Err(Failure::Transport(String::from("connection reset")))
            ),
            Err(String::from("Could not add torrent to client. Error was: connection reset"))
        );
    }
}

#[test]
fn fetch_and_submit_failures_read_differently() {
    let tp = processor();
    let fetch = match tp.download_torrent("Show", Origin::Command, Err(String::from("boom"))) {
        PipelineStep::Reply(Err(text)) => text,
        other => panic!("unexpected step {:?}", other),
    };
    let submit = tp
        .add_torrent_and_start("Show", Origin::Command, Err(Failure::Transport(String::from("boom"))))
        .unwrap_err();
    assert_ne!(fetch, submit);
}

#[test]
fn watchlist_add_appends_at_the_end() {
    let tp = processor();
    let mut config = config_with(&["A", "B"], &["R"]);
    let reply = tp.add_torrent_to_watchlist(&mut config, String::from("X.*"));
    assert_eq!(reply, Ok(String::from("Torrent X.* added to watch list")));
    assert_eq!(config.get_dl_patterns(), &strings(&["A", "B", "X.*"]));
    assert_eq!(config.get_reject_patterns(), &strings(&["R"]));
}

#[test]
fn watchlist_add_takes_an_invalid_pattern_as_it_is() {
    let tp = processor();
    let mut config = config_with(&[], &[]);
    let reply = tp.add_torrent_to_watchlist(&mut config, String::from("(("));
    assert_eq!(reply, Ok(String::from("Torrent (( added to watch list")));
    assert_eq!(config.get_dl_patterns(), &strings(&["(("]));
    assert!(!tp.do_we_want_this_torrent(&config, "(("));
}

#[test]
fn watchlist_remove_out_of_range_changes_nothing() {
    let tp = processor();
    let mut config = config_with(&["A", "B", "C"], &[]);
    for index in [3usize, 4, usize::MAX] {
        let reply = tp.remove_torrent_from_watchlist(&mut config, index);
        assert_eq!(reply, Err(String::from("Index out of range")));
        assert_eq!(config.get_dl_patterns(), &strings(&["A", "B", "C"]));
    }
    let mut empty = config_with(&[], &[]);
    assert_eq!(
        tp.remove_torrent_from_watchlist(&mut empty, 0),
        Err(String::from("Index out of range"))
    );
}

#[test]
fn watchlist_remove_takes_exactly_one_and_keeps_the_order() {
    let tp = processor();
    let mut config = config_with(&["A", "B", "C", "D"], &[]);
    assert_eq!(
        tp.remove_torrent_from_watchlist(&mut config, 1),
        Ok(String::from("Torrent 1 removed from watch list"))
    );
    assert_eq!(config.get_dl_patterns(), &strings(&["A", "C", "D"]));
    assert_eq!(
        tp.remove_torrent_from_watchlist(&mut config, 2),
        Ok(String::from("Torrent 2 removed from watch list"))
    );
    assert_eq!(config.get_dl_patterns(), &strings(&["A", "C"]));
    assert_eq!(
        tp.remove_torrent_from_watchlist(&mut config, 0),
        Ok(String::from("Torrent 0 removed from watch list"))
    );
    assert_eq!(config.get_dl_patterns(), &strings(&["C"]));
}

#[test]
fn watchlist_round_trip() {
    let tp = processor();
    let mut config = config_with(&["A"], &[]);
    tp.add_torrent_to_watchlist(&mut config, String::from("X.*")).unwrap();
    assert_eq!(config.get_dl_patterns()[1], "X.*");
    assert!(tp.do_we_want_this_torrent(&config, "Xenon"));
    tp.remove_torrent_from_watchlist(&mut config, 1).unwrap();
    assert_eq!(config.get_dl_patterns(), &strings(&["A"]));
    assert!(!tp.do_we_want_this_torrent(&config, "Xenon"));
}

#[test]
fn processor_keeps_its_client_and_platform() {
    let tp = processor();
    assert!(matches!(tp.get_client(), TorrentClientsEnum::Rtorrent(c) if c.get_url() == "unix://sock"));
    assert!(matches!(tp.get_platform(), TorrentPlatformsEnum::TorrentLeech(_)));
}
