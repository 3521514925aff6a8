use mmtc::app::{ListState, State};
use mmtc::config::{yes, AddStyle, Column, Condition, Constrained, SearchFields, Size, Texts, Widget};
use mmtc::defaults;
use mmtc::geometry::{constraints, partition, ratios_fit, Constraint, Direction, Rect};
use mmtc::layout::{eval_cond, flatten, flatten_into, render, Alignment, Scene, Scope, Span};
use mmtc::mpd::{PlayerState, Song, Status, Track};
use mmtc::style::{patch_style, Attribute, Color, Modifier, Style};

fn status() -> Status {
    Status {
        repeat: false,
        random: false,
        single: Some(false),
        consume: false,
        queue_len: 0,
        state: PlayerState::Stop,
        song: None,
    }
}

fn track(file: &str, title: Option<&str>, time: u16) -> Track {
    Track {
        file: file.to_string(),
        artist: None,
        album: None,
        title: title.map(|t| t.to_string()),
        time,
    }
}

fn scope<'a>(status: &'a Status, current: Option<&'a Track>, query: &'a String) -> Scope<'a> {
    Scope {
        status,
        current_track: current,
        queue_track: None,
        queue_current: false,
        selected: false,
        searching: false,
        query,
    }
}

fn state(queue: Vec<Track>) -> State {
    State {
        status: status(),
        queue,
        selected: 0,
        liststate: ListState { offset: 0, selected: Some(0) },
        searching: false,
        query: String::new(),
        filtered: Vec::new(),
    }
}

fn text(s: &str) -> Texts {
    Texts::Text(s.to_string())
}

fn span(content: &str, style: Style) -> Span {
    Span { content: content.to_string(), style }
}

fn bold() -> Style {
    patch_style(Style::new(), &[AddStyle::Bold])
}

fn lengths(chunks: &[Rect], direction: Direction) -> Vec<u16> {
    chunks.iter().map(|c| c.length(direction)).collect()
}

#[test]
fn ratios_share_the_length_by_weight() {
    let area = Rect { x: 0, y: 0, width: 40, height: 3 };
    let chunks = partition(area, Direction::Horizontal, &[Size::Ratio(1), Size::Ratio(1), Size::Ratio(2)]);
    assert_eq!(lengths(&chunks, Direction::Horizontal), vec![10, 10, 20]);
    assert_eq!(
        chunks,
        vec![
            Rect { x: 0, y: 0, width: 10, height: 3 },
            Rect { x: 10, y: 0, width: 10, height: 3 },
            Rect { x: 20, y: 0, width: 20, height: 3 },
        ]
    );
}

#[test]
fn parts_fill_the_length() {
    let lists: Vec<Vec<Size>> = vec![
        vec![Size::Fixed(1), Size::Min(0), Size::Fixed(1)],
        vec![Size::Ratio(12), Size::Ratio(10), Size::Ratio(10), Size::Ratio(1)],
        vec![Size::Min(0), Size::Fixed(7)],
        vec![Size::Fixed(3), Size::Ratio(1), Size::Ratio(3)],
        vec![Size::Max(5), Size::Min(2), Size::Ratio(1)],
        vec![Size::Ratio(1)],
    ];
    for sizes in &lists {
        for length in [20u16, 24, 33, 80, 100] {
            let area = Rect { x: 2, y: 5, width: 9, height: length };
            let chunks = partition(area, Direction::Vertical, sizes);
            assert_eq!(chunks.len(), sizes.len());
            let total: u32 = chunks.iter().map(|c| u32::from(c.height)).sum();
            assert_eq!(total, u32::from(length));
            let mut next = area.y;
            for chunk in &chunks {
                assert_eq!(chunk.y, next);
                assert_eq!(chunk.x, area.x);
                assert_eq!(chunk.width, area.width);
                next = chunk.y + chunk.height;
            }
        }
    }
}

#[test]
fn fixed_parts_get_their_length() {
    for length in [10u16, 24, 50] {
        let area = Rect { x: 0, y: 0, width: 80, height: length };
        let chunks = partition(area, Direction::Vertical, &[Size::Fixed(1), Size::Min(0), Size::Fixed(1)]);
        assert_eq!(lengths(&chunks, Direction::Vertical), vec![1, length - 2, 1]);
    }
    let area = Rect { x: 0, y: 0, width: 60, height: 1 };
    let chunks = partition(area, Direction::Horizontal, &[Size::Fixed(7), Size::Ratio(1), Size::Ratio(2)]);
    assert_eq!(chunks[0].width, 7);
    let chunks = partition(area, Direction::Horizontal, &[Size::Min(0), Size::Fixed(7)]);
    assert_eq!(lengths(&chunks, Direction::Horizontal), vec![53, 7]);
}

#[test]
fn partition_keeps_the_other_axis() {
    let area = Rect { x: 3, y: 4, width: 30, height: 12 };
    for chunk in partition(area, Direction::Horizontal, &[Size::Ratio(1), Size::Ratio(1)]) {
        assert_eq!((chunk.y, chunk.height), (4, 12));
    }
    for chunk in partition(area, Direction::Vertical, &[Size::Ratio(1), Size::Ratio(1)]) {
        assert_eq!((chunk.x, chunk.width), (3, 30));
    }
    assert!(partition(area, Direction::Vertical, &[]).is_empty());
}

#[test]
fn sizes_become_constraints() {
    assert_eq!(
        constraints(&[Size::Fixed(3), Size::Ratio(1), Size::Max(4), Size::Ratio(2), Size::Min(5)]),
        vec![
            Constraint::Length(3),
            Constraint::Ratio(1, 3),
            Constraint::Max(4),
            Constraint::Ratio(2, 3),
            Constraint::Min(5),
        ]
    );
    assert_eq!(constraints(&[Size::Fixed(3)]), vec![Constraint::Length(3)]);
    assert_eq!(constraints(&[Size::Ratio(0)]), vec![Constraint::Ratio(0, 0)]);
    assert_eq!(constraints(&[]), Vec::<Constraint>::new());
}

#[test]
fn ratio_sums_are_checked() {
    assert!(ratios_fit(&[]));
    assert!(ratios_fit(&[Size::Ratio(u32::MAX), Size::Fixed(9), Size::Ratio(0)]));
    assert!(!ratios_fit(&[Size::Ratio(u32::MAX), Size::Ratio(1)]));
    assert!(!ratios_fit(&[Size::Ratio(u32::MAX); 5]));
    assert!(ratios_fit(&[Size::Max(u16::MAX), Size::Min(u16::MAX)]));
}

#[test]
fn widgets_are_checked() {
    assert!(defaults::layout().check());
    assert!(Widget::Textbox(text("x")).check());
    let heavy = || Constrained::Ratio(u32::MAX, Widget::Textbox(text("x")));
    assert!(Widget::Rows(vec![heavy()]).check());
    assert!(!Widget::Rows(vec![heavy(), heavy()]).check());
    assert!(!Widget::Columns(vec![heavy(), heavy()]).check());
    assert!(!Widget::Rows(vec![Constrained::Fixed(1, Widget::Columns(vec![heavy(), heavy()]))]).check());
    let column = || Column {
        item: Constrained::Ratio(u32::MAX, Texts::QueueTitle),
        style: vec![],
        selected_style: vec![],
    };
    assert!(Widget::Queue(vec![column()]).check());
    assert!(!Widget::Queue(vec![column(), column()]).check());
}

#[test]
fn constrained_gives_size_and_item() {
    assert_eq!(Constrained::Max(3, 'a').get_size(), Size::Max(3));
    assert_eq!(Constrained::Min(4, 'b').get_size(), Size::Min(4));
    assert_eq!(Constrained::Fixed(5, 'c').get_size(), Size::Fixed(5));
    assert_eq!(Constrained::Ratio(6, 'd').get_size(), Size::Ratio(6));
    assert_eq!(*Constrained::Max(3, 'a').get_item(), 'a');
    assert_eq!(*Constrained::Ratio(6, 'd').get_item(), 'd');
}

#[test]
fn styles_are_patched_in_order() {
    let style = patch_style(
        Style::new(),
        &[
            AddStyle::Fg(Color::Red),
            AddStyle::Bold,
            AddStyle::Bg(Color::Indexed(7)),
            AddStyle::Fg(Color::Rgb(1, 2, 3)),
            AddStyle::NoBold,
            AddStyle::Italic,
        ],
    );
    assert_eq!(style.fg, Some(Color::Rgb(1, 2, 3)));
    assert_eq!(style.bg, Some(Color::Indexed(7)));
    assert!(!style.add_modifier.contains(Attribute::Bold));
    assert!(style.sub_modifier.contains(Attribute::Bold));
    assert!(style.add_modifier.contains(Attribute::Italic));
    assert!(!style.sub_modifier.contains(Attribute::Italic));
    assert!(!style.add_modifier.contains(Attribute::Dim));
    assert!(!style.sub_modifier.contains(Attribute::Dim));
}

#[test]
fn every_modifier_switches_its_attribute() {
    let pairs = [
        (AddStyle::Bold, AddStyle::NoBold, Attribute::Bold),
        (AddStyle::Dim, AddStyle::NoDim, Attribute::Dim),
        (AddStyle::Italic, AddStyle::NoItalic, Attribute::Italic),
        (AddStyle::Underlined, AddStyle::NoUnderlined, Attribute::Underlined),
        (AddStyle::SlowBlink, AddStyle::NoSlowBlink, Attribute::SlowBlink),
        (AddStyle::RapidBlink, AddStyle::NoRapidBlink, Attribute::RapidBlink),
        (AddStyle::Reversed, AddStyle::NoReversed, Attribute::Reversed),
        (AddStyle::Hidden, AddStyle::NoHidden, Attribute::Hidden),
        (AddStyle::CrossedOut, AddStyle::NoCrossedOut, Attribute::CrossedOut),
    ];
    for (on, off, attribute) in pairs {
        assert_eq!(on.toggle(), Some((attribute, true)));
        assert_eq!(off.toggle(), Some((attribute, false)));
        assert_eq!(AddStyle::Fg(Color::Red).toggle(), None);
        assert_eq!(AddStyle::Bg(Color::Red).toggle(), None);
        let added = patch_style(Style::new(), &[on]);
        let mut expected = Modifier::empty();
        expected.set(attribute, true);
        assert_eq!(added.add_modifier, expected);
        assert_eq!(added.sub_modifier, Modifier::empty());
        let removed = patch_style(added, &[off]);
        assert_eq!(removed.add_modifier, Modifier::empty());
        assert_eq!(removed.sub_modifier, expected);
        let again = patch_style(removed, &[on]);
        assert_eq!(again, added);
    }
}

#[test]
fn patching_with_nothing_changes_nothing() {
    assert_eq!(patch_style(Style::new(), &[]), Style::new());
    assert_eq!(patch_style(bold(), &[]), bold());
    assert_eq!(
        Style::new(),
        Style { fg: None, bg: None, add_modifier: Modifier::empty(), sub_modifier: Modifier::empty() }
    );
}

#[test]
fn single_and_oneshot_are_told_apart() {
    let query = String::new();
    let mut st = status();
    st.single = Some(true);
    assert!(eval_cond(&Condition::Single, &scope(&st, None, &query)));
    assert!(!eval_cond(&Condition::Oneshot, &scope(&st, None, &query)));
    st.single = None;
    assert!(!eval_cond(&Condition::Single, &scope(&st, None, &query)));
    assert!(eval_cond(&Condition::Oneshot, &scope(&st, None, &query)));
    st.single = Some(false);
    assert!(!eval_cond(&Condition::Single, &scope(&st, None, &query)));
    assert!(!eval_cond(&Condition::Oneshot, &scope(&st, None, &query)));
}

#[test]
fn player_state_conditions() {
    let query = String::new();
    let mut st = status();
    for (state, expected) in [
        (PlayerState::Play, [true, false, false]),
        (PlayerState::Pause, [false, true, false]),
        (PlayerState::Stop, [false, false, true]),
    ] {
        st.state = state;
        let s = scope(&st, None, &query);
        assert_eq!(
            [
                eval_cond(&Condition::Playing, &s),
                eval_cond(&Condition::Paused, &s),
                eval_cond(&Condition::Stopped, &s),
            ],
            expected
        );
    }
}

#[test]
fn option_conditions() {
    let query = String::new();
    let mut st = status();
    let s = scope(&st, None, &query);
    assert!(!eval_cond(&Condition::Repeat, &s));
    assert!(!eval_cond(&Condition::Random, &s));
    assert!(!eval_cond(&Condition::Consume, &s));
    st.repeat = true;
    st.random = true;
    st.consume = true;
    let s = scope(&st, None, &query);
    assert!(eval_cond(&Condition::Repeat, &s));
    assert!(eval_cond(&Condition::Random, &s));
    assert!(eval_cond(&Condition::Consume, &s));
}

#[test]
fn field_conditions() {
    let query = String::new();
    let st = status();
    let full = Track {
        file: "f".to_string(),
        artist: Some("a".to_string()),
        album: Some("b".to_string()),
        title: Some("t".to_string()),
        time: 1,
    };
    let bare = track("f", None, 1);
    let mut s = scope(&st, Some(&full), &query);
    assert!(eval_cond(&Condition::TitleExist, &s));
    assert!(eval_cond(&Condition::ArtistExist, &s));
    assert!(eval_cond(&Condition::AlbumExist, &s));
    assert!(!eval_cond(&Condition::QueueTitleExist, &s));
    s.queue_track = Some(&full);
    assert!(eval_cond(&Condition::QueueTitleExist, &s));
    s.queue_track = Some(&bare);
    assert!(!eval_cond(&Condition::QueueTitleExist, &s));
    let s = scope(&st, Some(&bare), &query);
    assert!(!eval_cond(&Condition::TitleExist, &s));
    assert!(!eval_cond(&Condition::ArtistExist, &s));
    assert!(!eval_cond(&Condition::AlbumExist, &s));
    let s = scope(&st, None, &query);
    assert!(!eval_cond(&Condition::TitleExist, &s));
}

#[test]
fn row_and_search_conditions() {
    let st = status();
    let empty = String::new();
    let typed = "x".to_string();
    let mut s = scope(&st, None, &empty);
    assert!(!eval_cond(&Condition::QueueCurrent, &s));
    assert!(!eval_cond(&Condition::Selected, &s));
    assert!(!eval_cond(&Condition::Searching, &s));
    assert!(!eval_cond(&Condition::Filtered, &s));
    s.queue_current = true;
    s.selected = true;
    s.searching = true;
    s.query = &typed;
    assert!(eval_cond(&Condition::QueueCurrent, &s));
    assert!(eval_cond(&Condition::Selected, &s));
    assert!(eval_cond(&Condition::Searching, &s));
    assert!(eval_cond(&Condition::Filtered, &s));
}

#[test]
fn combined_conditions() {
    let query = String::new();
    let mut st = status();
    st.repeat = true;
    let s = scope(&st, None, &query);
    let yes = || Box::new(Condition::Repeat);
    let no = || Box::new(Condition::Random);
    assert!(!eval_cond(&Condition::Not(yes()), &s));
    assert!(eval_cond(&Condition::Not(no()), &s));
    assert!(eval_cond(&Condition::And(yes(), yes()), &s));
    assert!(!eval_cond(&Condition::And(yes(), no()), &s));
    assert!(!eval_cond(&Condition::And(no(), yes()), &s));
    assert!(eval_cond(&Condition::Or(yes(), no()), &s));
    assert!(eval_cond(&Condition::Or(no(), yes()), &s));
    assert!(!eval_cond(&Condition::Or(no(), no()), &s));
    assert!(eval_cond(&Condition::Xor(yes(), no()), &s));
    assert!(eval_cond(&Condition::Xor(no(), yes()), &s));
    assert!(!eval_cond(&Condition::Xor(yes(), yes()), &s));
    assert!(!eval_cond(&Condition::Xor(no(), no()), &s));
}

#[test]
fn elapsed_is_minutes_and_seconds() {
    let query = String::new();
    let mut st = status();
    st.song = Some(Song { pos: 0, elapsed: 65 });
    assert_eq!(
        flatten(&Texts::CurrentElapsed, &scope(&st, None, &query)),
        vec![span("1:05", Style::new())]
    );
    st.song = None;
    assert_eq!(flatten(&Texts::CurrentElapsed, &scope(&st, None, &query)), vec![]);
}

#[test]
fn missing_title_gives_no_span() {
    let query = String::new();
    let st = status();
    let bare = track("a.mp3", None, 125);
    assert_eq!(flatten(&Texts::CurrentTitle, &scope(&st, Some(&bare), &query)), vec![]);
    assert_eq!(flatten(&Texts::CurrentArtist, &scope(&st, Some(&bare), &query)), vec![]);
    assert_eq!(flatten(&Texts::CurrentAlbum, &scope(&st, Some(&bare), &query)), vec![]);
    assert_eq!(flatten(&Texts::CurrentTitle, &scope(&st, None, &query)), vec![]);
    assert_eq!(flatten(&Texts::QueueTitle, &scope(&st, Some(&bare), &query)), vec![]);
}

#[test]
fn empty_title_gives_an_empty_span() {
    let query = String::new();
    let st = status();
    let blank = track("a.mp3", Some(""), 125);
    assert_eq!(
        flatten(&Texts::CurrentTitle, &scope(&st, Some(&blank), &query)),
        vec![span("", Style::new())]
    );
}

#[test]
fn fields_of_the_current_track() {
    let query = "find me".to_string();
    let st = status();
    let full = Track {
        file: "dir/a.mp3".to_string(),
        artist: Some("Artist".to_string()),
        album: Some("Album".to_string()),
        title: Some("Title".to_string()),
        time: 125,
    };
    let s = scope(&st, Some(&full), &query);
    let one = |xs: Texts| flatten(&xs, &s);
    assert_eq!(one(Texts::CurrentFile), vec![span("dir/a.mp3", Style::new())]);
    assert_eq!(one(Texts::CurrentTitle), vec![span("Title", Style::new())]);
    assert_eq!(one(Texts::CurrentArtist), vec![span("Artist", Style::new())]);
    assert_eq!(one(Texts::CurrentAlbum), vec![span("Album", Style::new())]);
    assert_eq!(one(Texts::CurrentDuration), vec![span("2:05", Style::new())]);
    assert_eq!(one(Texts::Query), vec![span("find me", Style::new())]);
    assert_eq!(one(Texts::QueueFile), vec![]);
    assert_eq!(one(Texts::QueueDuration), vec![]);
}

#[test]
fn fields_of_the_row() {
    let query = String::new();
    let st = status();
    let full = Track {
        file: "dir/a.mp3".to_string(),
        artist: Some("Artist".to_string()),
        album: Some("Album".to_string()),
        title: Some("Title".to_string()),
        time: 59,
    };
    let mut s = scope(&st, None, &query);
    s.queue_track = Some(&full);
    let one = |xs: Texts| flatten(&xs, &s);
    assert_eq!(one(Texts::QueueFile), vec![span("dir/a.mp3", Style::new())]);
    assert_eq!(one(Texts::QueueTitle), vec![span("Title", Style::new())]);
    assert_eq!(one(Texts::QueueArtist), vec![span("Artist", Style::new())]);
    assert_eq!(one(Texts::QueueAlbum), vec![span("Album", Style::new())]);
    assert_eq!(one(Texts::QueueDuration), vec![span("0:59", Style::new())]);
    assert_eq!(one(Texts::CurrentFile), vec![]);
    assert_eq!(one(Texts::Query), vec![span("", Style::new())]);
}

#[test]
fn style_ends_with_its_scope() {
    let query = String::new();
    let st = status();
    let xs = Texts::Styled(
        vec![AddStyle::Bold],
        Box::new(Texts::Parts(vec![
            text("a"),
            Texts::Styled(vec![AddStyle::NoBold], Box::new(text("b"))),
            text("c"),
        ])),
    );
    let spans = flatten(&xs, &scope(&st, None, &query));
    let not_bold = patch_style(bold(), &[AddStyle::NoBold]);
    assert_eq!(spans, vec![span("a", bold()), span("b", not_bold), span("c", bold())]);
    assert!(spans[0].style.add_modifier.contains(Attribute::Bold));
    assert!(!spans[1].style.add_modifier.contains(Attribute::Bold));
    assert!(spans[2].style.add_modifier.contains(Attribute::Bold));
}

#[test]
fn flatten_twice_gives_the_same() {
    let query = "q".to_string();
    let mut st = status();
    st.state = PlayerState::Play;
    st.song = Some(Song { pos: 0, elapsed: 7 });
    let current = track("a.mp3", Some("Song A"), 125);
    let s = scope(&st, Some(&current), &query);
    let layout = defaults::layout();
    let xs = match &layout {
        Widget::Rows(rows) => match rows[2].get_item() {
            Widget::Columns(foot) => match foot[0].get_item() {
                Widget::Textbox(xs) => xs,
                _ => unreachable!(),
            },
            _ => unreachable!(),
        },
        _ => unreachable!(),
    };
    let first = flatten(xs, &s);
    let second = flatten(xs, &s);
    assert_eq!(first, second);
    let contents: Vec<&str> = first.iter().map(|s| s.content.as_str()).collect();
    assert_eq!(contents, vec!["[playing: ", "0:07", "/", "2:05", "] ", "Song A"]);
}

#[test]
fn conditionals_take_one_branch() {
    let query = String::new();
    let mut st = status();
    let both = Texts::If(Condition::Repeat, Box::new(text("on")), Some(Box::new(text("off"))));
    let one = Texts::If(Condition::Repeat, Box::new(text("on")), None);
    assert_eq!(flatten(&both, &scope(&st, None, &query)), vec![span("off", Style::new())]);
    assert_eq!(flatten(&one, &scope(&st, None, &query)), vec![]);
    st.repeat = true;
    assert_eq!(flatten(&both, &scope(&st, None, &query)), vec![span("on", Style::new())]);
    assert_eq!(flatten(&one, &scope(&st, None, &query)), vec![span("on", Style::new())]);
}

#[test]
fn parts_follow_one_another() {
    let query = String::new();
    let st = status();
    let xs = Texts::Parts(vec![text("a"), Texts::Parts(vec![]), Texts::CurrentTitle, text(""), text("b")]);
    assert_eq!(
        flatten(&xs, &scope(&st, None, &query)),
        vec![span("a", Style::new()), span("", Style::new()), span("b", Style::new())]
    );
    assert_eq!(flatten(&Texts::Parts(vec![]), &scope(&st, None, &query)), vec![]);
}

#[test]
fn flatten_into_appends_under_the_style() {
    let query = String::new();
    let st = status();
    let mut out = vec![span("kept", Style::new())];
    flatten_into(&mut out, &text("new"), &scope(&st, None, &query), bold());
    assert_eq!(out, vec![span("kept", Style::new()), span("new", bold())]);
}

#[test]
fn queue_row_shows_the_title() {
    let s = state(vec![track("a.mp3", Some("Song A"), 125)]);
    let widget = Widget::Queue(vec![Column {
        item: Constrained::Ratio(1, Texts::QueueTitle),
        style: vec![],
        selected_style: vec![],
    }]);
    let area = Rect { x: 0, y: 0, width: 20, height: 5 };
    match render(&widget, area, &s) {
        Scene::Table { area: shown, columns, cursor } => {
            assert_eq!(shown, area);
            assert_eq!(cursor, s.liststate);
            assert_eq!(columns.len(), 1);
            assert_eq!(columns[0].area, area);
            assert_eq!(columns[0].rows, vec![vec![span("Song A", Style::new())]]);
            assert_eq!(columns[0].style, Style::new());
            assert_eq!(columns[0].selected_style, Style::new());
        }
        other => panic!("{:?}", other),
    }
}

#[test]
fn empty_queue_shows_no_column() {
    let s = state(vec![]);
    let widget = Widget::Queue(vec![Column {
        item: Constrained::Ratio(1, Texts::QueueTitle),
        style: vec![AddStyle::Bold],
        selected_style: vec![],
    }]);
    let area = Rect { x: 0, y: 0, width: 20, height: 5 };
    assert_eq!(
        render(&widget, area, &s),
        Scene::Table { area, columns: vec![], cursor: s.liststate }
    );
    assert_eq!(
        render(&Widget::Queue(vec![]), area, &state(vec![track("a", None, 1)])),
        Scene::Table { area, columns: vec![], cursor: ListState { offset: 0, selected: Some(0) } }
    );
}

#[test]
fn queue_rows_know_the_cursor_and_the_current_song() {
    let mut s = state(vec![
        track("a", Some("A"), 1),
        track("b", Some("B"), 2),
        track("c", Some("C"), 3),
    ]);
    s.status.song = Some(Song { pos: 2, elapsed: 0 });
    s.selected = 1;
    s.liststate.selected = Some(1);
    let mark = Texts::Parts(vec![
        Texts::If(Condition::Selected, Box::new(text(">")), Some(Box::new(text(" ")))),
        Texts::If(Condition::QueueCurrent, Box::new(text("*")), Some(Box::new(text(" ")))),
        Texts::QueueTitle,
        Texts::CurrentTitle,
    ]);
    let widget = Widget::Queue(vec![Column {
        item: Constrained::Min(0, mark),
        style: vec![AddStyle::Fg(Color::Blue)],
        selected_style: vec![AddStyle::Bg(Color::Blue), AddStyle::Bold],
    }]);
    let scene = render(&widget, Rect { x: 0, y: 0, width: 9, height: 9 }, &s);
    let columns = match scene {
        Scene::Table { columns, .. } => columns,
        other => panic!("{:?}", other),
    };
    let rows: Vec<String> = columns[0]
        .rows
        .iter()
        .map(|row| row.iter().map(|s| s.content.as_str()).collect())
        .collect();
    assert_eq!(rows, vec!["  AC", "> BC", " *CC"]);
    assert_eq!(columns[0].style, patch_style(Style::new(), &[AddStyle::Fg(Color::Blue)]));
    assert_eq!(
        columns[0].selected_style,
        patch_style(Style::new(), &[AddStyle::Bg(Color::Blue), AddStyle::Bold])
    );
}

#[test]
fn filtered_queue_shows_the_matches() {
    let mut s = state(vec![
        track("a", Some("A"), 1),
        track("b", Some("B"), 2),
        track("c", Some("C"), 3),
    ]);
    s.status.song = Some(Song { pos: 2, elapsed: 0 });
    s.query = "x".to_string();
    s.filtered = vec![0, 2, 7];
    s.selected = 1;
    s.liststate.selected = Some(1);
    let mark = Texts::Parts(vec![
        Texts::If(Condition::Selected, Box::new(text(">")), Some(Box::new(text(" ")))),
        Texts::If(Condition::QueueCurrent, Box::new(text("*")), Some(Box::new(text(" ")))),
        Texts::QueueTitle,
    ]);
    let widget = Widget::Queue(vec![Column {
        item: Constrained::Min(0, mark),
        style: vec![],
        selected_style: vec![],
    }]);
    let scene = render(&widget, Rect { x: 0, y: 0, width: 9, height: 9 }, &s);
    let columns = match scene {
        Scene::Table { columns, .. } => columns,
        other => panic!("{:?}", other),
    };
    let rows: Vec<String> = columns[0]
        .rows
        .iter()
        .map(|row| row.iter().map(|s| s.content.as_str()).collect())
        .collect();
    assert_eq!(rows, vec!["  A", ">*C", "  "]);
}

#[test]
fn text_boxes_are_aligned() {
    let mut s = state(vec![track("a.mp3", Some("Song A"), 125)]);
    s.status.song = Some(Song { pos: 0, elapsed: 65 });
    let area = Rect { x: 1, y: 2, width: 30, height: 1 };
    let xs = || Texts::Parts(vec![Texts::CurrentTitle, text(" "), Texts::CurrentElapsed, Texts::QueueTitle]);
    let line = || vec![span("Song A", Style::new()), span(" ", Style::new()), span("1:05", Style::new())];
    assert_eq!(
        render(&Widget::Textbox(xs()), area, &s),
        Scene::Line { area, spans: line(), alignment: Alignment::Left }
    );
    assert_eq!(
        render(&Widget::TextboxC(xs()), area, &s),
        Scene::Line { area, spans: line(), alignment: Alignment::Center }
    );
    assert_eq!(
        render(&Widget::TextboxR(xs()), area, &s),
        Scene::Line { area, spans: line(), alignment: Alignment::Right }
    );
}

#[test]
fn current_song_beyond_the_queue_is_no_track() {
    let mut s = state(vec![track("a.mp3", Some("Song A"), 125)]);
    s.status.song = Some(Song { pos: 5, elapsed: 65 });
    assert!(s.playing().is_none());
    let area = Rect { x: 0, y: 0, width: 30, height: 1 };
    assert_eq!(
        render(&Widget::Textbox(Texts::CurrentTitle), area, &s),
        Scene::Line { area, spans: vec![], alignment: Alignment::Left }
    );
    s.status.song = Some(Song { pos: 0, elapsed: 65 });
    assert_eq!(s.playing().map(|t| t.file.as_str()), Some("a.mp3"));
}

#[test]
fn rows_and_columns_split_their_area() {
    let s = state(vec![]);
    let widget = Widget::Rows(vec![
        Constrained::Fixed(1, Widget::Textbox(text("top"))),
        Constrained::Min(
            0,
            Widget::Columns(vec![
                Constrained::Ratio(1, Widget::Textbox(text("left"))),
                Constrained::Ratio(1, Widget::TextboxR(text("right"))),
            ]),
        ),
    ]);
    let area = Rect { x: 0, y: 0, width: 40, height: 10 };
    let scene = render(&widget, area, &s);
    assert_eq!(
        scene,
        Scene::Split {
            area,
            parts: vec![
                Scene::Line {
                    area: Rect { x: 0, y: 0, width: 40, height: 1 },
                    spans: vec![span("top", Style::new())],
                    alignment: Alignment::Left,
                },
                Scene::Split {
                    area: Rect { x: 0, y: 1, width: 40, height: 9 },
                    parts: vec![
                        Scene::Line {
                            area: Rect { x: 0, y: 1, width: 20, height: 9 },
                            spans: vec![span("left", Style::new())],
                            alignment: Alignment::Left,
                        },
                        Scene::Line {
                            area: Rect { x: 20, y: 1, width: 20, height: 9 },
                            spans: vec![span("right", Style::new())],
                            alignment: Alignment::Right,
                        },
                    ],
                },
            ],
        }
    );
}

#[test]
fn default_layout_is_rendered() {
    let mut s = state(vec![track("a.mp3", Some("Song A"), 125), track("b.mp3", None, 61)]);
    s.status.state = PlayerState::Play;
    s.status.song = Some(Song { pos: 0, elapsed: 65 });
    s.status.repeat = true;
    s.status.single = None;
    let area = Rect { x: 0, y: 0, width: 66, height: 24 };
    let scene = render(&defaults::layout(), area, &s);
    let parts = match scene {
        Scene::Split { area: shown, parts } => {
            assert_eq!(shown, area);
            parts
        }
        other => panic!("{:?}", other),
    };
    assert_eq!(parts.len(), 3);
    match &parts[0] {
        Scene::Split { area, parts } => {
            assert_eq!(*area, Rect { x: 0, y: 0, width: 66, height: 1 });
            let widths: Vec<u16> = parts
                .iter()
                .map(|p| match p {
                    Scene::Line { area, .. } => area.width,
                    other => panic!("{:?}", other),
                })
                .collect();
            assert_eq!(widths, vec![24, 20, 20, 2]);
            match &parts[0] {
                Scene::Line { spans, alignment, .. } => {
                    assert_eq!(*alignment, Alignment::Left);
                    assert_eq!(
                        *spans,
                        vec![span(
                            "Title",
                            patch_style(Style::new(), &[AddStyle::Fg(Color::Indexed(122)), AddStyle::Bold])
                        )]
                    );
                }
                other => panic!("{:?}", other),
            }
        }
        other => panic!("{:?}", other),
    }
    match &parts[1] {
        Scene::Table { area, columns, cursor } => {
            assert_eq!(*area, Rect { x: 0, y: 1, width: 66, height: 22 });
            assert_eq!(*cursor, ListState { offset: 0, selected: Some(0) });
            assert_eq!(columns.len(), 4);
            let widths: Vec<u16> = columns.iter().map(|c| c.area.width).collect();
            assert_eq!(widths, vec![24, 20, 20, 2]);
            let italic = patch_style(Style::new(), &[AddStyle::Italic]);
            assert_eq!(columns[0].rows, vec![vec![span("Song A", italic)], vec![]]);
            assert_eq!(
                columns[3].rows,
                vec![vec![span("2:05", italic)], vec![span("1:01", Style::new())]]
            );
            assert_eq!(columns[0].style, patch_style(Style::new(), &[AddStyle::Fg(Color::Indexed(75))]));
            assert_eq!(
                columns[0].selected_style,
                patch_style(
                    Style::new(),
                    &[AddStyle::Fg(Color::Black), AddStyle::Bg(Color::Indexed(75)), AddStyle::Bold]
                )
            );
        }
        other => panic!("{:?}", other),
    }
    match &parts[2] {
        Scene::Split { area, parts } => {
            assert_eq!(*area, Rect { x: 0, y: 23, width: 66, height: 1 });
            match &parts[0] {
                Scene::Line { area, spans, .. } => {
                    assert_eq!(*area, Rect { x: 0, y: 23, width: 59, height: 1 });
                    let contents: Vec<&str> = spans.iter().map(|s| s.content.as_str()).collect();
                    assert_eq!(contents, vec!["[playing: ", "1:05", "/", "2:05", "] ", "Song A"]);
                    assert!(spans.iter().all(|s| s.style.add_modifier.contains(Attribute::Bold)));
                }
                other => panic!("{:?}", other),
            }
            match &parts[1] {
                Scene::Line { area, spans, alignment } => {
                    assert_eq!(*area, Rect { x: 59, y: 23, width: 7, height: 1 });
                    assert_eq!(*alignment, Alignment::Right);
                    let contents: Vec<&str> = spans.iter().map(|s| s.content.as_str()).collect();
                    assert_eq!(contents, vec!["[", "@", "!", "]"]);
                }
                other => panic!("{:?}", other),
            }
        }
        other => panic!("{:?}", other),
    }
}

#[test]
fn default_values() {
    assert_eq!(defaults::address(), "127.0.0.1:6600");
    assert_eq!(defaults::jump_lines(), 24);
    assert_eq!(
        defaults::search_fields(),
        SearchFields { file: false, title: true, artist: true, album: true }
    );
    assert!(yes());
}

#[test]
fn default_layout_has_its_shape() {
    let rows = match defaults::layout() {
        Widget::Rows(rows) => rows,
        other => panic!("{:?}", other),
    };
    let sizes: Vec<Size> = rows.iter().map(|r| r.get_size()).collect();
    assert_eq!(sizes, vec![Size::Fixed(1), Size::Min(0), Size::Fixed(1)]);
    let ratios = vec![Size::Ratio(12), Size::Ratio(10), Size::Ratio(10), Size::Ratio(1)];
    match rows[0].get_item() {
        Widget::Columns(head) => {
            assert_eq!(head.iter().map(|c| c.get_size()).collect::<Vec<_>>(), ratios);
            assert_eq!(
                *head[3].get_item(),
                Widget::Textbox(Texts::Styled(
                    vec![AddStyle::Fg(Color::Indexed(230)), AddStyle::Bold],
                    Box::new(text("Time")),
                ))
            );
        }
        other => panic!("{:?}", other),
    }
    match rows[1].get_item() {
        Widget::Queue(columns) => {
            assert_eq!(columns.iter().map(|c| c.item.get_size()).collect::<Vec<_>>(), ratios);
            assert_eq!(
                columns[1],
                Column {
                    item: Constrained::Ratio(
                        10,
                        Texts::If(
                            Condition::QueueCurrent,
                            Box::new(Texts::Styled(vec![AddStyle::Italic], Box::new(Texts::QueueArtist))),
                            Some(Box::new(Texts::QueueArtist)),
                        ),
                    ),
                    style: vec![AddStyle::Fg(Color::Indexed(111))],
                    selected_style: vec![
                        AddStyle::Fg(Color::Black),
                        AddStyle::Bg(Color::Indexed(111)),
                        AddStyle::Bold,
                    ],
                }
            );
        }
        other => panic!("{:?}", other),
    }
    match rows[2].get_item() {
        Widget::Columns(foot) => {
            assert_eq!(
                foot.iter().map(|c| c.get_size()).collect::<Vec<_>>(),
                vec![Size::Min(0), Size::Fixed(7)]
            );
            assert_eq!(
                *foot[1].get_item(),
                Widget::TextboxR(Texts::Styled(
                    vec![AddStyle::Fg(Color::Indexed(81))],
                    Box::new(Texts::Parts(vec![
                        text("["),
                        Texts::If(Condition::Repeat, Box::new(text("@")), None),
                        Texts::If(Condition::Random, Box::new(text("#")), None),
                        Texts::If(
                            Condition::Single,
                            Box::new(text("^")),
                            Some(Box::new(Texts::If(Condition::Oneshot, Box::new(text("!")), None))),
                        ),
                        Texts::If(Condition::Consume, Box::new(text("*")), None),
                        text("]"),
                    ])),
                ))
            );
        }
        other => panic!("{:?}", other),
    }
}

#[test]
fn default_status_line_while_searching() {
    let mut s = state(vec![track("a.mp3", Some("Song A"), 125)]);
    s.searching = true;
    s.query = "so".to_string();
    s.filtered = vec![0];
    let area = Rect { x: 0, y: 0, width: 66, height: 24 };
    let parts = match render(&defaults::layout(), area, &s) {
        Scene::Split { parts, .. } => parts,
        other => panic!("{:?}", other),
    };
    match &parts[2] {
        Scene::Split { parts, .. } => match &parts[0] {
            Scene::Line { spans, .. } => {
                let contents: Vec<&str> = spans.iter().map(|s| s.content.as_str()).collect();
                assert_eq!(contents, vec!["Searching: ", "so", "\u{23b8}"]);
            }
            other => panic!("{:?}", other),
        },
        other => panic!("{:?}", other),
    }
}

#[test]
fn default_status_line_without_title() {
    let mut s = state(vec![track("a.mp3", None, 125)]);
    s.status.state = PlayerState::Pause;
    s.status.song = Some(Song { pos: 0, elapsed: 3 });
    let area = Rect { x: 0, y: 0, width: 66, height: 24 };
    let parts = match render(&defaults::layout(), area, &s) {
        Scene::Split { parts, .. } => parts,
        other => panic!("{:?}", other),
    };
    match &parts[2] {
        Scene::Split { parts, .. } => match &parts[0] {
            Scene::Line { spans, .. } => {
                let contents: Vec<&str> = spans.iter().map(|s| s.content.as_str()).collect();
                assert_eq!(contents, vec!["[paused:  ", "0:03", "/", "2:05", "] ", "a.mp3"]);
            }
            other => panic!("{:?}", other),
        },
        other => panic!("{:?}", other),
    }
}
