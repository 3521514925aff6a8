//! What holds where the configuration says nothing.

use crate::config::{AddStyle, Column, Condition, Constrained, SearchFields, Size, Texts, Widget};
use crate::geometry::ratio_total;
use crate::layout::{
    column_sizes, field_of, fit_together, holds, in_a_row, parts_come_in_a_row, sizes_of, spans,
    Scope, SpanView,
};
use crate::mpd::PlayerState;
use crate::style::{Color, Style};
use vstd::prelude::*;
use vstd::string::StringExecFns;

verus! {

/// The address of the daemon.
pub fn address() -> (address: String)
    ensures
        address@ == "127.0.0.1:6600"@,
{
    String::from_str("127.0.0.1:6600")
}

/// The number of rows of a jump.
pub fn jump_lines() -> (rows: usize)
    ensures
        rows == 24,
{
    24
}

/// The fields that a search looks through: all but the file.
pub fn search_fields() -> (fields: SearchFields)
    ensures
        fields == (SearchFields { file: false, title: true, artist: true, album: true }),
{
    SearchFields { file: false, title: true, artist: true, album: true }
}

fn fg(index: u8) -> (m: AddStyle)
    ensures
        m == AddStyle::Fg(Color::Indexed(index)),
{
    AddStyle::Fg(Color::Indexed(index))
}

/// A literal.
fn text(literal: &str) -> (r: Texts)
    ensures
        r matches Texts::Text(content) && content@ == literal@,
        forall|s: Scope, style: Style| #[trigger] spans(r, s, style) == one(literal@, style),
{
    Texts::Text(String::from_str(literal))
}

/// `inner` in the colour of the palette with the given index.
fn colored(index: u8, inner: Texts) -> (r: Texts)
    ensures
        r matches Texts::Styled(mods, wrapped) && mods@ == seq![AddStyle::Fg(Color::Indexed(index))]
            && *wrapped == inner,
        forall|s: Scope, style: Style| #[trigger]
            spans(r, s, style) == spans(inner, s, tint(style, index)),
{
    let mods = vec![fg(index)];
    assert(mods@ =~= seq![AddStyle::Fg(Color::Indexed(index))]);
    Texts::Styled(mods, Box::new(inner))
}

/// `yes` where the condition holds, and nothing where it does not.
fn when(cond: Condition, yes: Texts) -> (r: Texts)
    ensures
        r == Texts::If(cond, Box::new(yes), None),
        forall|s: Scope, style: Style| #[trigger]
            spans(r, s, style) == if holds(cond, s) {
                spans(yes, s, style)
            } else {
                Seq::<SpanView>::empty()
            },
{
    Texts::If(cond, Box::new(yes), None)
}

/// `yes` where the condition holds, and `no` where it does not.
fn either(cond: Condition, yes: Texts, no: Texts) -> (r: Texts)
    ensures
        r == Texts::If(cond, Box::new(yes), Some(Box::new(no))),
        forall|s: Scope, style: Style| #[trigger]
            spans(r, s, style) == if holds(cond, s) {
                spans(yes, s, style)
            } else {
                spans(no, s, style)
            },
{
    Texts::If(cond, Box::new(yes), Some(Box::new(no)))
}

/// A heading of the queue: its title in bold, in the colour given.
fn heading(weight: u32, color: u8, title: &str) -> (c: Constrained<Widget>)
    ensures
        c.size() == Size::Ratio(weight),
        c.item().fits(),
{
    Constrained::Ratio(
        weight,
        Widget::Textbox(Texts::Styled(vec![fg(color), AddStyle::Bold], Box::new(text(title)))),
    )
}

/// A column of the queue: a field of the row's track, in italics on the row
/// of the current song; the cursor's row in black on the column's colour.
fn column(weight: u32, color: u8, field: Texts, field_again: Texts) -> (c: Column)
    ensures
        c.item.size() == Size::Ratio(weight),
{
    Column {
        item: Constrained::Ratio(
            weight,
            either(
                Condition::QueueCurrent,
                Texts::Styled(vec![AddStyle::Italic], Box::new(field)),
                field_again,
            ),
        ),
        style: vec![fg(color)],
        selected_style: vec![
            AddStyle::Fg(Color::Black),
            AddStyle::Bg(Color::Indexed(color)),
            AddStyle::Bold,
        ],
    }
}

/// The current song: its title, artist and album where they are known, and
/// its file where the title is not.
fn song_line() -> (r: Texts)
    ensures
        forall|s: Scope, style: Style| #[trigger] spans(r, s, style) == song_shown(s, style),
{
    let album_parts = vec![colored(216, text(" \u{25c6} ")), colored(221, Texts::CurrentAlbum)];
    let ghost album_list = album_parts;
    let album = Texts::Parts(album_parts);
    proof {
        assert forall|s: Scope, style: Style| #[trigger]
            spans(album, s, style) == in_a_row(
                seq![
                    one(" \u{25c6} "@, tint(style, 216)),
                    perhaps(field_of(Texts::CurrentAlbum, s), tint(style, 221)),
                ],
            ) by {
            parts_come_in_a_row(
                album_list,
                seq![
                    one(" \u{25c6} "@, tint(style, 216)),
                    perhaps(field_of(Texts::CurrentAlbum, s), tint(style, 221)),
                ],
                2,
                s,
                style,
            );
        }
    }
    let artist_parts = vec![
        colored(216, text(" \u{25c6} ")),
        colored(185, Texts::CurrentArtist),
        when(Condition::AlbumExist, album),
    ];
    let ghost artist_list = artist_parts;
    let artist = Texts::Parts(artist_parts);
    proof {
        assert forall|s: Scope, style: Style| #[trigger]
            spans(artist, s, style) == in_a_row(
                seq![
                    one(" \u{25c6} "@, tint(style, 216)),
                    perhaps(field_of(Texts::CurrentArtist, s), tint(style, 185)),
                    album_shown(s, style),
                ],
            ) by {
            assert(holds(Condition::AlbumExist, s) == (s.current_track matches Some(t)
                && t.album is Some));
            parts_come_in_a_row(
                artist_list,
                seq![
                    one(" \u{25c6} "@, tint(style, 216)),
                    perhaps(field_of(Texts::CurrentArtist, s), tint(style, 185)),
                    album_shown(s, style),
                ],
                3,
                s,
                style,
            );
        }
    }
    let title_parts = vec![
        colored(149, Texts::CurrentTitle),
        when(Condition::ArtistExist, artist),
    ];
    let ghost title_list = title_parts;
    let title = Texts::Parts(title_parts);
    proof {
        assert forall|s: Scope, style: Style| #[trigger]
            spans(title, s, style) == in_a_row(
                seq![
                    perhaps(field_of(Texts::CurrentTitle, s), tint(style, 149)),
                    artist_shown(s, style),
                ],
            ) by {
            assert(holds(Condition::ArtistExist, s) == (s.current_track matches Some(t)
                && t.artist is Some));
            parts_come_in_a_row(
                title_list,
                seq![
                    perhaps(field_of(Texts::CurrentTitle, s), tint(style, 149)),
                    artist_shown(s, style),
                ],
                2,
                s,
                style,
            );
        }
    }
    let r = either(Condition::TitleExist, title, colored(185, Texts::CurrentFile));
    proof {
        assert forall|s: Scope, style: Style| #[trigger]
            spans(r, s, style) == song_shown(s, style) by {
            assert(spans(Texts::CurrentFile, s, tint(style, 185)) == perhaps(
                field_of(Texts::CurrentFile, s),
                tint(style, 185),
            ));
            assert(holds(Condition::TitleExist, s) == (s.current_track matches Some(t)
                && t.title is Some));
        }
    }
    r
}

/// The left of the bottom line: the query while it is typed, and else the
/// player's state, the times and the current song unless it is stopped.
fn status_line() -> (r: Texts)
    ensures
        forall|s: Scope, style: Style| #[trigger] spans(r, s, style) == status_shown(s, style),
{
    let query_parts = vec![
        colored(113, text("Searching: ")),
        colored(185, Texts::Query),
        colored(185, text("\u{23b8}")),
    ];
    let ghost query_list = query_parts;
    let query = Texts::Parts(query_parts);
    proof {
        assert forall|s: Scope, style: Style| #[trigger]
            spans(query, s, style) == query_shown(s, style) by {
            assert(spans(Texts::Query, s, tint(style, 185)) == one(s.query@, tint(style, 185)));
            parts_come_in_a_row(
                query_list,
                seq![
                    one("Searching: "@, tint(style, 113)),
                    one(s.query@, tint(style, 185)),
                    one("\u{23b8}"@, tint(style, 185)),
                ],
                3,
                s,
                style,
            );
        }
    }
    let time_parts = vec![
        either(Condition::Playing, text("[playing: "), text("[paused:  ")),
        Texts::CurrentElapsed,
        text("/"),
        Texts::CurrentDuration,
        text("] "),
    ];
    let ghost time_list = time_parts;
    let times = Texts::Parts(time_parts);
    proof {
        assert forall|s: Scope, style: Style| #[trigger]
            spans(times, s, style) == times_shown(s, style) by {
            assert(holds(Condition::Playing, s) == (s.status.state == PlayerState::Play));
            parts_come_in_a_row(
                time_list,
                seq![
                    one(
                        if s.status.state == PlayerState::Play {
                            "[playing: "@
                        } else {
                            "[paused:  "@
                        },
                        style,
                    ),
                    perhaps(field_of(Texts::CurrentElapsed, s), style),
                    one("/"@, style),
                    perhaps(field_of(Texts::CurrentDuration, s), style),
                    one("] "@, style),
                ],
                5,
                s,
                style,
            );
        }
    }
    let player_parts = vec![colored(113, times), song_line()];
    let ghost player_list = player_parts;
    let player = Texts::Parts(player_parts);
    proof {
        assert forall|s: Scope, style: Style| #[trigger]
            spans(player, s, style) == in_a_row(
                seq![times_shown(s, tint(style, 113)), song_shown(s, style)],
            ) by {
            parts_come_in_a_row(
                player_list,
                seq![times_shown(s, tint(style, 113)), song_shown(s, style)],
                2,
                s,
                style,
            );
        }
    }
    let inner = either(
        Condition::Searching,
        query,
        when(Condition::Not(Box::new(Condition::Stopped)), player),
    );
    let ghost whole = inner;
    let mods = vec![AddStyle::Bold];
    assert(mods@ =~= seq![AddStyle::Bold]);
    let r = Texts::Styled(mods, Box::new(inner));
    proof {
        assert forall|s: Scope, style: Style| #[trigger]
            spans(r, s, style) == status_shown(s, style) by {
            let bold = style.patched(seq![AddStyle::Bold]);
            assert(spans(r, s, style) == spans(whole, s, bold));
            assert(holds(Condition::Searching, s) == s.searching);
            assert(holds(Condition::Stopped, s) == (s.status.state == PlayerState::Stop));
            assert(holds(Condition::Not(Box::new(Condition::Stopped)), s) == !holds(
                Condition::Stopped,
                s,
            ));
        }
    }
    r
}

/// The right of the bottom line: a mark for each option that is on.
fn option_marks() -> (r: Texts)
    ensures
        forall|s: Scope, style: Style| #[trigger] spans(r, s, style) == marks_shown(s, style),
{
    let parts = vec![
        text("["),
        when(Condition::Repeat, text("@")),
        when(Condition::Random, text("#")),
        either(Condition::Single, text("^"), when(Condition::Oneshot, text("!"))),
        when(Condition::Consume, text("*")),
        text("]"),
    ];
    let ghost list = parts;
    let r = colored(81, Texts::Parts(parts));
    proof {
        assert forall|s: Scope, style: Style| #[trigger]
            spans(r, s, style) == marks_shown(s, style) by {
            let tinted = tint(style, 81);
            assert(holds(Condition::Repeat, s) == s.status.repeat);
            assert(holds(Condition::Random, s) == s.status.random);
            assert(holds(Condition::Single, s) == (s.status.single == Some(true)));
            assert(holds(Condition::Oneshot, s) == (s.status.single is None));
            assert(holds(Condition::Consume, s) == s.status.consume);
            assert(spans(list[3], s, tinted) == single_shown(s, tinted));
            parts_come_in_a_row(
                list,
                seq![
                    one("["@, tinted),
                    mark(s.status.repeat, "@"@, tinted),
                    mark(s.status.random, "#"@, tinted),
                    single_shown(s, tinted),
                    mark(s.status.consume, "*"@, tinted),
                    one("]"@, tinted),
                ],
                6,
                s,
                tinted,
            );
        }
    }
    r
}

/// One span.
pub open spec fn one(content: Seq<char>, style: Style) -> Seq<SpanView> {
    seq![SpanView { content, style }]
}

/// One span of a text that is present, none of one that is absent.
pub open spec fn perhaps(content: Option<Seq<char>>, style: Style) -> Seq<SpanView> {
    match content {
        Some(text) => one(text, style),
        None => Seq::empty(),
    }
}

/// One span where the switch is on, none where it is off.
pub open spec fn mark(on: bool, content: Seq<char>, style: Style) -> Seq<SpanView> {
    if on {
        one(content, style)
    } else {
        Seq::empty()
    }
}

/// A style with the foreground in the colour of the palette with the given
/// index.
pub open spec fn tint(style: Style, index: u8) -> Style {
    style.patched(seq![AddStyle::Fg(Color::Indexed(index))])
}

/// What the default layout shows of the album of the current song: a
/// separator and the album, where the album is known.
pub open spec fn album_shown(s: Scope, style: Style) -> Seq<SpanView> {
    match s.current_track {
        Some(track) if track.album is Some => in_a_row(
            seq![one(" \u{25c6} "@, tint(style, 216)), one(track.album->0@, tint(style, 221))],
        ),
        _ => Seq::empty(),
    }
}

/// What the default layout shows of the artist of the current song: a
/// separator, the artist and then the album, where the artist is known.
pub open spec fn artist_shown(s: Scope, style: Style) -> Seq<SpanView> {
    match s.current_track {
        Some(track) if track.artist is Some => in_a_row(
            seq![
                one(" \u{25c6} "@, tint(style, 216)),
                one(track.artist->0@, tint(style, 185)),
                album_shown(s, style),
            ],
        ),
        _ => Seq::empty(),
    }
}

/// What the default layout shows of the current song: its title, then its
/// artist and album, where the title is known; its file where it is not;
/// nothing where there is no current song.
pub open spec fn song_shown(s: Scope, style: Style) -> Seq<SpanView> {
    match s.current_track {
        Some(track) => match track.title {
            Some(title) => in_a_row(seq![one(title@, tint(style, 149)), artist_shown(s, style)]),
            None => one(track.file@, tint(style, 185)),
        },
        None => Seq::empty(),
    }
}

/// What the default layout shows while the query is typed: a label, the
/// query and a cursor.
pub open spec fn query_shown(s: Scope, style: Style) -> Seq<SpanView> {
    in_a_row(
        seq![
            one("Searching: "@, tint(style, 113)),
            one(s.query@, tint(style, 185)),
            one("\u{23b8}"@, tint(style, 185)),
        ],
    )
}

/// What the default layout shows of the player: whether it plays or is
/// paused, then the time played and the duration of the current song, each
/// where it is known, with a slash between them.
pub open spec fn times_shown(s: Scope, style: Style) -> Seq<SpanView> {
    in_a_row(
        seq![
            one(
                if s.status.state == PlayerState::Play {
                    "[playing: "@
                } else {
                    "[paused:  "@
                },
                style,
            ),
            perhaps(field_of(Texts::CurrentElapsed, s), style),
            one("/"@, style),
            perhaps(field_of(Texts::CurrentDuration, s), style),
            one("] "@, style),
        ],
    )
}

/// What the left of the bottom line shows, all of it in bold: the query
/// while it is typed; else the player and the current song, unless the
/// player is stopped; else nothing.
pub open spec fn status_shown(s: Scope, style: Style) -> Seq<SpanView> {
    let bold = style.patched(seq![AddStyle::Bold]);
    if s.searching {
        query_shown(s, bold)
    } else if s.status.state != PlayerState::Stop {
        in_a_row(seq![times_shown(s, tint(bold, 113)), song_shown(s, bold)])
    } else {
        Seq::empty()
    }
}

/// The mark of the setting `single`: `^` where it is on, `!` where it is
/// oneshot, and none where it is off.
pub open spec fn single_shown(s: Scope, style: Style) -> Seq<SpanView> {
    if s.status.single == Some(true) {
        one("^"@, style)
    } else if s.status.single is None {
        one("!"@, style)
    } else {
        Seq::empty()
    }
}

/// What the right of the bottom line shows: between brackets a mark for
/// each option that is on, and for single `^` where it is on and `!` where
/// it is oneshot.
pub open spec fn marks_shown(s: Scope, style: Style) -> Seq<SpanView> {
    let style = tint(style, 81);
    in_a_row(
        seq![
            one("["@, style),
            mark(s.status.repeat, "@"@, style),
            mark(s.status.random, "#"@, style),
            single_shown(s, style),
            mark(s.status.consume, "*"@, style),
            one("]"@, style),
        ],
    )
}

/// The weights of a list with one more entry.
proof fn one_more(sizes: Seq<Size>, last: Size)
    ensures
        ratio_total(sizes.push(last)) == ratio_total(sizes) + match last {
            Size::Ratio(weight) => weight as nat,
            _ => 0,
        },
{
    assert(sizes.push(last).drop_last() =~= sizes);
}

/// The weights of the four columns of the queue and of its headings.
proof fn four_columns(sizes: Seq<Size>)
    requires
        sizes == seq![Size::Ratio(12), Size::Ratio(10), Size::Ratio(10), Size::Ratio(1)],
    ensures
        ratio_total(sizes) == 33,
{
    let none = Seq::<Size>::empty();
    one_more(none, Size::Ratio(12));
    one_more(none.push(Size::Ratio(12)), Size::Ratio(10));
    one_more(none.push(Size::Ratio(12)).push(Size::Ratio(10)), Size::Ratio(10));
    one_more(
        none.push(Size::Ratio(12)).push(Size::Ratio(10)).push(Size::Ratio(10)),
        Size::Ratio(1),
    );
    assert(sizes =~= none.push(Size::Ratio(12)).push(Size::Ratio(10)).push(Size::Ratio(10)).push(
        Size::Ratio(1),
    ));
}

/// The layout: a line of headings, the queue in four columns below it, and
/// at the bottom a line with the current song or the query on the left and
/// the options on the right.
pub fn layout() -> (w: Widget)
    ensures
        w.fits(),
        w matches Widget::Rows(rows) && {
            &&& sizes_of(rows@) == seq![Size::Fixed(1), Size::Min(0), Size::Fixed(1)]
            &&& rows[0].item() matches Widget::Columns(head) && sizes_of(head@) == seq![
                Size::Ratio(12),
                Size::Ratio(10),
                Size::Ratio(10),
                Size::Ratio(1),
            ]
            &&& rows[1].item() matches Widget::Queue(columns) && column_sizes(columns@) == seq![
                Size::Ratio(12),
                Size::Ratio(10),
                Size::Ratio(10),
                Size::Ratio(1),
            ]
            &&& rows[2].item() matches Widget::Columns(foot) && sizes_of(foot@) == seq![
                Size::Min(0),
                Size::Fixed(7),
            ]
        },
{
    let head = vec![
        heading(12, 122, "Title"),
        heading(10, 158, "Artist"),
        heading(10, 194, "Album"),
        heading(1, 230, "Time"),
    ];
    let columns = vec![
        column(12, 75, Texts::QueueTitle, Texts::QueueTitle),
        column(10, 111, Texts::QueueArtist, Texts::QueueArtist),
        column(10, 147, Texts::QueueAlbum, Texts::QueueAlbum),
        column(1, 183, Texts::QueueDuration, Texts::QueueDuration),
    ];
    let foot = vec![
        Constrained::Min(0, Widget::Textbox(status_line())),
        Constrained::Fixed(7, Widget::TextboxR(option_marks())),
    ];
    proof {
        assert(sizes_of(head@) =~= seq![
            Size::Ratio(12),
            Size::Ratio(10),
            Size::Ratio(10),
            Size::Ratio(1),
        ]);
        assert(column_sizes(columns@) =~= seq![
            Size::Ratio(12),
            Size::Ratio(10),
            Size::Ratio(10),
            Size::Ratio(1),
        ]);
        assert(sizes_of(foot@) =~= seq![Size::Min(0), Size::Fixed(7)]);
        four_columns(sizes_of(head@));
        four_columns(column_sizes(columns@));
        let none = Seq::<Size>::empty();
        one_more(none, Size::Min(0));
        one_more(none.push(Size::Min(0)), Size::Fixed(7));
        assert(sizes_of(foot@) =~= none.push(Size::Min(0)).push(Size::Fixed(7)));
        fit_together(head, 4);
        fit_together(foot, 2);
    }
    let top = Widget::Columns(head);
    let middle = Widget::Queue(columns);
    let bottom = Widget::Columns(foot);
    let rows = vec![
        Constrained::Fixed(1, top),
        Constrained::Min(0, middle),
        Constrained::Fixed(1, bottom),
    ];
    proof {
        assert(sizes_of(rows@) =~= seq![Size::Fixed(1), Size::Min(0), Size::Fixed(1)]);
        let none = Seq::<Size>::empty();
        one_more(none, Size::Fixed(1));
        one_more(none.push(Size::Fixed(1)), Size::Min(0));
        one_more(none.push(Size::Fixed(1)).push(Size::Min(0)), Size::Fixed(1));
        assert(sizes_of(rows@) =~= none.push(Size::Fixed(1)).push(Size::Min(0)).push(
            Size::Fixed(1),
        ));
        fit_together(rows, 3);
    }
    Widget::Rows(rows)
}

} // verus!
