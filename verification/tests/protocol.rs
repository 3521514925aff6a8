use mmtc::config::SearchFields;
use mmtc::mpd::{
    check_greeting, is_final, is_ok, parse_idle, parse_queue, parse_status, search_text,
    track_string, Changes, PlayerState, ProtocolError, Request, Song, Status, Track,
};
use mmtc::strings::{
    chars_of, format_time, lower_lay_string, parse_number, parse_seconds, push_decimal, same,
    starts_with,
};

fn lines(xs: &[&str]) -> Vec<String> {
    xs.iter().map(|x| x.to_string()).collect()
}

fn all_fields() -> SearchFields {
    SearchFields { file: true, title: true, artist: true, album: true }
}

#[test]
fn greeting_is_accepted() {
    assert_eq!(check_greeting(b"OK MPD "), Ok(()));
}

#[test]
fn other_greetings_are_refused() {
    assert_eq!(check_greeting(b"OK MPD"), Err(ProtocolError::BadGreeting));
    assert_eq!(check_greeting(b"ok mpd "), Err(ProtocolError::BadGreeting));
    assert_eq!(check_greeting(b"OK MPD 0"), Err(ProtocolError::BadGreeting));
    assert_eq!(check_greeting(b""), Err(ProtocolError::BadGreeting));
    assert_eq!(check_greeting(&[0; 7]), Err(ProtocolError::BadGreeting));
}

#[test]
fn idle_reports_queue_and_status() {
    let changes = parse_idle(&lines(&["changed: playlist", "changed: player", "OK"]));
    assert_eq!(changes, Changes { queue: true, status: true });
}

#[test]
fn idle_tells_the_two_kinds_apart() {
    assert_eq!(
        parse_idle(&lines(&["changed: playlist", "OK"])),
        Changes { queue: true, status: false }
    );
    assert_eq!(
        parse_idle(&lines(&["changed: options", "OK"])),
        Changes { queue: false, status: true }
    );
    assert_eq!(
        parse_idle(&lines(&["changed: player", "OK"])),
        Changes { queue: false, status: true }
    );
}

#[test]
fn idle_ignores_what_it_does_not_know() {
    assert_eq!(
        parse_idle(&lines(&["changed: mixer", "changed: database", "OK"])),
        Changes { queue: false, status: false }
    );
    assert_eq!(parse_idle(&lines(&[])), Changes { queue: false, status: false });
}

#[test]
fn idle_stops_at_ok() {
    assert_eq!(
        parse_idle(&lines(&["changed: player", "OK", "changed: playlist"])),
        Changes { queue: false, status: true }
    );
}

#[test]
fn status_is_decoded() {
    let status = parse_status(&lines(&[
        "volume: 100",
        "repeat: 1",
        "random: 0",
        "single: 0",
        "consume: 1",
        "playlist: 2",
        "playlistlength: 17",
        "state: play",
        "song: 3",
        "songid: 4",
        "time: 65:125",
        "elapsed: 65.432",
        "bitrate: 320",
        "OK",
    ]));
    assert_eq!(
        status,
        Ok(Status {
            repeat: true,
            random: false,
            single: Some(false),
            consume: true,
            queue_len: 17,
            state: PlayerState::Play,
            song: Some(Song { pos: 3, elapsed: 65 }),
        })
    );
}

#[test]
fn status_without_song_is_stopped() {
    let status = parse_status(&lines(&[
        "repeat: 0",
        "random: 1",
        "single: oneshot",
        "consume: 0",
        "playlistlength: 0",
        "state: stop",
        "OK",
    ]));
    assert_eq!(
        status,
        Ok(Status {
            repeat: false,
            random: true,
            single: None,
            consume: false,
            queue_len: 0,
            state: PlayerState::Stop,
            song: None,
        })
    );
}

#[test]
fn status_tells_single_on_from_oneshot() {
    let base = ["repeat: 0", "random: 0", "consume: 0", "playlistlength: 1"];
    let with = |single: &str| {
        let mut all: Vec<&str> = base.to_vec();
        all.push(single);
        all.push("OK");
        parse_status(&lines(&all)).map(|s| s.single)
    };
    assert_eq!(with("single: 0"), Ok(Some(false)));
    assert_eq!(with("single: 1"), Ok(Some(true)));
    assert_eq!(with("single: oneshot"), Ok(None));
}

#[test]
fn status_paused_with_song() {
    let status = parse_status(&lines(&[
        "repeat: 0",
        "random: 0",
        "single: 1",
        "consume: 0",
        "playlistlength: 2",
        "state: pause",
        "song: 1",
        "elapsed: 0.500",
        "OK",
    ]))
    .unwrap();
    assert_eq!(status.state, PlayerState::Pause);
    assert_eq!(status.song, Some(Song { pos: 1, elapsed: 1 }));
}

#[test]
fn status_needs_its_five_fields() {
    let full = ["repeat: 0", "random: 0", "single: 0", "consume: 0", "playlistlength: 1"];
    for missing in 0..full.len() {
        let mut some: Vec<&str> = full.to_vec();
        some.remove(missing);
        some.push("OK");
        assert_eq!(parse_status(&lines(&some)), Err(ProtocolError::IncompleteResponse));
    }
    assert_eq!(parse_status(&lines(&["OK"])), Err(ProtocolError::IncompleteResponse));
    assert_eq!(parse_status(&lines(&[])), Err(ProtocolError::IncompleteResponse));
}

#[test]
fn status_song_goes_by_the_position() {
    let with = |extra: &[&str]| {
        let mut all = vec![
            "repeat: 0",
            "random: 0",
            "single: 0",
            "consume: 0",
            "playlistlength: 3",
            "state: stop",
        ];
        all.extend_from_slice(extra);
        all.push("OK");
        parse_status(&lines(&all)).unwrap()
    };
    let stopped = with(&["song: 2"]);
    assert_eq!(stopped.state, PlayerState::Stop);
    assert_eq!(stopped.song, Some(Song { pos: 2, elapsed: 0 }));
    assert_eq!(with(&["song: 2", "elapsed: 7.2"]).song, Some(Song { pos: 2, elapsed: 7 }));
    assert_eq!(with(&["elapsed: 7.2", "song: 2"]).song, Some(Song { pos: 2, elapsed: 7 }));
    assert_eq!(with(&["elapsed: 7.2"]).song, None);
    assert_eq!(with(&[]).song, None);
}

#[test]
fn status_refuses_bad_numbers() {
    let with = |line: &str| {
        parse_status(&lines(&[
            "repeat: 0",
            "random: 0",
            "single: 0",
            "consume: 0",
            "playlistlength: 1",
            line,
            "OK",
        ]))
    };
    assert_eq!(with("song: x"), Err(ProtocolError::InvalidNumber));
    assert_eq!(with("song: "), Err(ProtocolError::InvalidNumber));
    assert_eq!(with("song: -1"), Err(ProtocolError::InvalidNumber));
    assert_eq!(with("playlistlength: 1.5"), Err(ProtocolError::InvalidNumber));
    assert_eq!(with("elapsed: abc"), Err(ProtocolError::InvalidNumber));
    assert_eq!(with("elapsed: 1.2.3"), Err(ProtocolError::InvalidNumber));
    assert_eq!(
        with("song: 99999999999999999999999999999999"),
        Err(ProtocolError::InvalidNumber)
    );
}

#[test]
fn status_stops_at_ok() {
    let status = parse_status(&lines(&[
        "repeat: 0",
        "random: 0",
        "single: 0",
        "consume: 0",
        "playlistlength: 1",
        "OK",
        "song: x",
        "repeat: 1",
    ]))
    .unwrap();
    assert!(!status.repeat);
}

#[test]
fn status_keeps_the_last_value() {
    let status = parse_status(&lines(&[
        "repeat: 0",
        "repeat: 1",
        "random: 0",
        "single: 0",
        "consume: 0",
        "playlistlength: 1",
        "playlistlength: 7",
    ]))
    .unwrap();
    assert!(status.repeat);
    assert_eq!(status.queue_len, 7);
}

#[test]
fn queue_is_decoded() {
    let (tracks, index) = parse_queue(
        &lines(&[
            "file: a.mp3",
            "Last-Modified: 2020-01-01T00:00:00Z",
            "Artist: Some Band",
            "Title: Song A",
            "Album: First",
            "Time: 125",
            "duration: 125.3",
            "Pos: 0",
            "Id: 1",
            "file: dir/b.flac",
            "Time: 61",
            "OK",
        ]),
        &all_fields(),
    )
    .unwrap();
    assert_eq!(
        tracks,
        vec![
            Track {
                file: "a.mp3".to_string(),
                artist: Some("Some Band".to_string()),
                album: Some("First".to_string()),
                title: Some("Song A".to_string()),
                time: 125,
            },
            Track {
                file: "dir/b.flac".to_string(),
                artist: None,
                album: None,
                title: None,
                time: 61,
            },
        ]
    );
    assert_eq!(index, vec!["a.mp3\nsong a\nsome band\nfirst".to_string(), "dir/b.flac\n".to_string()]);
}

#[test]
fn queue_index_is_as_long_as_the_queue() {
    let mut all = Vec::new();
    for i in 0..50 {
        all.push(format!("file: {}.mp3", i));
        all.push(format!("Title: T{}", i));
        all.push(format!("Time: {}", i));
    }
    all.push("OK".to_string());
    let (tracks, index) = parse_queue(&all, &all_fields()).unwrap();
    assert_eq!(tracks.len(), 50);
    assert_eq!(index.len(), 50);
    assert_eq!(tracks[49].time, 49);
    assert_eq!(index[49], "49.mp3\nt49\n");
}

#[test]
fn empty_queue_is_decoded() {
    let (tracks, index) = parse_queue(&lines(&["OK"]), &all_fields()).unwrap();
    assert!(tracks.is_empty());
    assert!(index.is_empty());
    let (tracks, index) = parse_queue(&lines(&[]), &all_fields()).unwrap();
    assert!(tracks.is_empty());
    assert!(index.is_empty());
}

#[test]
fn queue_track_needs_its_duration() {
    assert_eq!(
        parse_queue(&lines(&["file: a.mp3", "Title: A", "file: b.mp3", "Time: 3", "OK"]), &all_fields()),
        Err(ProtocolError::IncompleteResponse)
    );
    assert_eq!(
        parse_queue(&lines(&["file: a.mp3", "Time: 3", "file: b.mp3", "Title: B", "OK"]), &all_fields()),
        Err(ProtocolError::IncompleteResponse)
    );
    assert_eq!(
        parse_queue(&lines(&["file: a.mp3"]), &all_fields()),
        Err(ProtocolError::IncompleteResponse)
    );
}

#[test]
fn queue_refuses_bad_durations() {
    assert_eq!(
        parse_queue(&lines(&["file: a.mp3", "Time: soon", "OK"]), &all_fields()),
        Err(ProtocolError::InvalidNumber)
    );
    assert_eq!(
        parse_queue(&lines(&["file: a.mp3", "Time: 65536", "OK"]), &all_fields()),
        Err(ProtocolError::InvalidNumber)
    );
    assert_eq!(
        parse_queue(&lines(&["file: a.mp3", "Time: 65535", "OK"]), &all_fields()).map(|q| q.0[0].time),
        Ok(65535)
    );
}

#[test]
fn queue_fields_before_the_first_file_are_dropped() {
    let (tracks, _) = parse_queue(
        &lines(&["Artist: Nobody", "Time: 9", "file: a.mp3", "Time: 1", "OK"]),
        &all_fields(),
    )
    .unwrap();
    assert_eq!(tracks.len(), 1);
    assert_eq!(tracks[0].artist, None);
    assert_eq!(tracks[0].time, 1);
}

#[test]
fn queue_stops_at_ok() {
    let (tracks, _) = parse_queue(
        &lines(&["file: a.mp3", "Time: 1", "OK", "file: b.mp3"]),
        &all_fields(),
    )
    .unwrap();
    assert_eq!(tracks.len(), 1);
}

#[test]
fn track_string_joins_the_searched_fields() {
    let track = Track {
        file: "Dir/File.MP3".to_string(),
        artist: Some("The ARTIST".to_string()),
        album: Some("An Album".to_string()),
        title: Some("A Title".to_string()),
        time: 1,
    };
    assert_eq!(track_string(&track, &all_fields()), "dir/file.mp3\na title\nthe artist\nan album");
    assert_eq!(
        track_string(&track, &SearchFields { file: false, title: true, artist: true, album: true }),
        "a title\nthe artist\nan album"
    );
    assert_eq!(
        track_string(&track, &SearchFields { file: true, title: false, artist: false, album: false }),
        "dir/file.mp3\n"
    );
    assert_eq!(
        track_string(&track, &SearchFields { file: false, title: false, artist: false, album: false }),
        ""
    );
}

#[test]
fn track_string_skips_absent_fields() {
    let track = Track {
        file: "f".to_string(),
        artist: None,
        album: Some("B".to_string()),
        title: None,
        time: 1,
    };
    assert_eq!(track_string(&track, &all_fields()), "f\nb");
}

#[test]
fn search_text_puts_newlines_after_all_but_the_album() {
    assert_eq!(search_text(Some("f"), Some("t"), Some("a"), Some("b")), "f\nt\na\nb");
    assert_eq!(search_text(None, Some("t"), None, None), "t\n");
    assert_eq!(search_text(None, None, None, Some("b")), "b");
    assert_eq!(search_text(None, None, None, None), "");
}

#[test]
fn ends_of_responses() {
    assert!(is_ok("OK"));
    assert!(!is_ok("OK "));
    assert!(!is_ok("ok"));
    assert!(!is_ok("ACK [5@0] {} unknown command"));
    assert!(is_final("OK"));
    assert!(is_final("ACK [5@0] {} unknown command"));
    assert!(!is_final("ACK"));
    assert!(!is_final("file: OK"));
}

#[test]
fn request_lines() {
    assert_eq!(Request::Repeat(true).line("5"), "repeat 1");
    assert_eq!(Request::Repeat(false).line("5"), "repeat 0");
    assert_eq!(Request::Random(true).line("5"), "random 1");
    assert_eq!(Request::Random(false).line("5"), "random 0");
    assert_eq!(Request::Single(Some(true)).line("5"), "single 1");
    assert_eq!(Request::Single(Some(false)).line("5"), "single 0");
    assert_eq!(Request::Single(None).line("5"), "single oneshot");
    assert_eq!(Request::Consume(true).line("5"), "consume 1");
    assert_eq!(Request::Consume(false).line("5"), "consume 0");
    assert_eq!(Request::Pause.line("5"), "pause");
    assert_eq!(Request::Resume.line("5"), "play");
    assert_eq!(Request::Stop.line("5"), "stop");
    assert_eq!(Request::SeekBackwards.line("5"), "seekcur -5");
    assert_eq!(Request::SeekForwards.line("2.5"), "seekcur +2.5");
    assert_eq!(Request::Previous.line("5"), "previous");
    assert_eq!(Request::Next.line("5"), "next");
    assert_eq!(Request::Play(0).line("5"), "play 0");
    assert_eq!(Request::Play(1234).line("5"), "play 1234");
}

#[test]
fn numbers_are_read() {
    assert_eq!(parse_number("0", 10), Some(0));
    assert_eq!(parse_number("10", 10), Some(10));
    assert_eq!(parse_number("11", 10), None);
    assert_eq!(parse_number("+7", 10), Some(7));
    assert_eq!(parse_number("007", 10), Some(7));
    assert_eq!(parse_number("", 10), None);
    assert_eq!(parse_number("+", 10), None);
    assert_eq!(parse_number("-1", 10), None);
    assert_eq!(parse_number("1 ", 10), None);
    assert_eq!(parse_number(" 1", 10), None);
    assert_eq!(parse_number("1_0", 10), None);
    assert_eq!(parse_number("\u{0661}", 10), None);
    assert_eq!(parse_number("18446744073709551615", u64::MAX), Some(u64::MAX));
    assert_eq!(parse_number("18446744073709551616", u64::MAX), None);
    assert_eq!(parse_number("99999999999999999999999999999999999999999999", u64::MAX), None);
}

#[test]
fn numbers_are_read_as_std_reads_them() {
    for text in ["0", "1", "65535", "65536", "+12", "-12", "", "+", "12a", "0012", "١٢"] {
        assert_eq!(parse_number(text, u16::MAX as u64), text.parse::<u16>().ok().map(u64::from));
    }
}

#[test]
fn seconds_are_rounded() {
    assert_eq!(parse_seconds("65"), Some(65));
    assert_eq!(parse_seconds("65.432"), Some(65));
    assert_eq!(parse_seconds("65.5"), Some(66));
    assert_eq!(parse_seconds("65.499"), Some(65));
    assert_eq!(parse_seconds("65."), Some(65));
    assert_eq!(parse_seconds("0.999"), Some(1));
    assert_eq!(parse_seconds("0.000"), Some(0));
    assert_eq!(parse_seconds("65535.9"), Some(65535));
    assert_eq!(parse_seconds("70000.1"), Some(65535));
    assert_eq!(parse_seconds("99999999999999999999999.5"), Some(65535));
}

#[test]
fn seconds_must_be_decimal() {
    assert_eq!(parse_seconds(""), None);
    assert_eq!(parse_seconds("."), None);
    assert_eq!(parse_seconds(".5"), None);
    assert_eq!(parse_seconds("1.2.3"), None);
    assert_eq!(parse_seconds("1,5"), None);
    assert_eq!(parse_seconds("-1.5"), None);
    assert_eq!(parse_seconds("1e3"), None);
    assert_eq!(parse_seconds("1.5s"), None);
}

#[test]
fn times_are_formatted() {
    assert_eq!(format_time(0), "0:00");
    assert_eq!(format_time(5), "0:05");
    assert_eq!(format_time(59), "0:59");
    assert_eq!(format_time(60), "1:00");
    assert_eq!(format_time(65), "1:05");
    assert_eq!(format_time(125), "2:05");
    assert_eq!(format_time(3600), "60:00");
    assert_eq!(format_time(65535), "1092:15");
}

#[test]
fn decimals_are_appended() {
    let mut text = "n=".to_string();
    push_decimal(&mut text, 0);
    assert_eq!(text, "n=0");
    push_decimal(&mut text, 907);
    assert_eq!(text, "n=0907");
    let mut text = String::new();
    push_decimal(&mut text, u64::MAX);
    assert_eq!(text, "18446744073709551615");
}

#[test]
fn texts_are_compared() {
    assert!(same("", ""));
    assert!(same("abc", "abc"));
    assert!(!same("abc", "ab"));
    assert!(!same("ab", "abc"));
    assert!(!same("abc", "abd"));
    assert!(starts_with("abc", ""));
    assert!(starts_with("abc", "ab"));
    assert!(starts_with("abc", "abc"));
    assert!(!starts_with("abc", "abcd"));
    assert!(!starts_with("abc", "b"));
}

#[test]
fn characters_are_listed() {
    assert_eq!(chars_of(""), Vec::<char>::new());
    assert_eq!(chars_of("a\u{e9}\u{25c6}"), vec!['a', '\u{e9}', '\u{25c6}']);
}

#[test]
fn lay_strings_are_lower_case_without_diacritics() {
    assert_eq!(lower_lay_string("Song A"), "song a");
    assert_eq!(lower_lay_string("\u{c9}t\u{e9}"), "ete");
    assert_eq!(lower_lay_string(""), "");
    assert_eq!(lower_lay_string("\u{25c6}"), "\u{25c6}");
}
