//! The template engine: evaluates the template document against the session
//! and lays it out in an area of the screen.

use crate::app::{ListState, State};
use crate::config::{AddStyle, Column, Condition, Constrained, Size, Texts, Widget};
use crate::geometry::{
    divides, partition, parts_fill_the_length, parts_lie_inside, ratio_total, ratios_fit,
    total_extent, Direction, Rect,
};
use crate::mpd::{text_of, PlayerState, Status, Track, TrackView};
use crate::strings::{format_time, time_text};
use crate::style::{patch_style, Style};
use vstd::prelude::*;

verus! {

/// What a piece of the template is evaluated against: the player, the
/// search, and, inside the queue, the row being drawn.
pub struct Scope<'a> {
    pub status: &'a Status,
    /// The track that is playing or paused.
    pub current_track: Option<&'a Track>,
    /// The track of the row being drawn; `None` outside the queue.
    pub queue_track: Option<&'a Track>,
    /// The row being drawn holds the current song; false outside the queue.
    pub queue_current: bool,
    /// The cursor is on the row being drawn; false outside the queue.
    pub selected: bool,
    /// The query is being typed.
    pub searching: bool,
    /// The text searched for.
    pub query: &'a String,
}

/// Whether a condition holds.
pub open spec fn holds(cond: Condition, s: Scope) -> bool
    decreases cond,
{
    match cond {
        Condition::Repeat => s.status.repeat,
        Condition::Random => s.status.random,
        Condition::Single => s.status.single == Some(true),
        Condition::Oneshot => s.status.single is None,
        Condition::Consume => s.status.consume,
        Condition::Playing => s.status.state == PlayerState::Play,
        Condition::Paused => s.status.state == PlayerState::Pause,
        Condition::Stopped => s.status.state == PlayerState::Stop,
        Condition::TitleExist => s.current_track matches Some(t) && t.title is Some,
        Condition::ArtistExist => s.current_track matches Some(t) && t.artist is Some,
        Condition::AlbumExist => s.current_track matches Some(t) && t.album is Some,
        Condition::QueueTitleExist => s.queue_track matches Some(t) && t.title is Some,
        Condition::QueueCurrent => s.queue_current,
        Condition::Selected => s.selected,
        Condition::Searching => s.searching,
        Condition::Filtered => s.query@.len() > 0,
        Condition::Not(x) => !holds(*x, s),
        Condition::And(x, y) => holds(*x, s) && holds(*y, s),
        Condition::Or(x, y) => holds(*x, s) || holds(*y, s),
        Condition::Xor(x, y) => holds(*x, s) != holds(*y, s),
    }
}

/// Evaluates a condition.
pub fn eval_cond(cond: &Condition, s: &Scope) -> (r: bool)
    ensures
        r == holds(*cond, *s),
    decreases cond,
{
    match cond {
        Condition::Repeat => s.status.repeat,
        Condition::Random => s.status.random,
        Condition::Single => match s.status.single {
            Some(on) => on,
            None => false,
        },
        Condition::Oneshot => s.status.single.is_none(),
        Condition::Consume => s.status.consume,
        Condition::Playing => s.status.state == PlayerState::Play,
        Condition::Paused => s.status.state == PlayerState::Pause,
        Condition::Stopped => s.status.state == PlayerState::Stop,
        Condition::TitleExist => match s.current_track {
            Some(t) => t.title.is_some(),
            None => false,
        },
        Condition::ArtistExist => match s.current_track {
            Some(t) => t.artist.is_some(),
            None => false,
        },
        Condition::AlbumExist => match s.current_track {
            Some(t) => t.album.is_some(),
            None => false,
        },
        Condition::QueueTitleExist => match s.queue_track {
            Some(t) => t.title.is_some(),
            None => false,
        },
        Condition::QueueCurrent => s.queue_current,
        Condition::Selected => s.selected,
        Condition::Searching => s.searching,
        Condition::Filtered => !s.query.as_str().is_empty(),
        Condition::Not(x) => !eval_cond(x, s),
        Condition::And(x, y) => {
            let a = eval_cond(x, s);
            let b = eval_cond(y, s);
            a && b
        },
        Condition::Or(x, y) => {
            let a = eval_cond(x, s);
            let b = eval_cond(y, s);
            a || b
        },
        Condition::Xor(x, y) => {
            let a = eval_cond(x, s);
            let b = eval_cond(y, s);
            a != b
        },
    }
}

/// A run of text in one style.
#[derive(Debug, Clone, PartialEq, Eq)]
pub struct Span {
    pub content: String,
    pub style: Style,
}

/// A span as plain values.
pub struct SpanView {
    pub content: Seq<char>,
    pub style: Style,
}

impl View for Span {
    type V = SpanView;

    open spec fn view(&self) -> SpanView {
        SpanView { content: self.content@, style: self.style }
    }
}

/// The spans of a line as plain values.
pub open spec fn span_views(spans: Seq<Span>) -> Seq<SpanView> {
    spans.map_values(|span: Span| span@)
}

/// The text of a field selector, where the field is present. `None` for
/// what is no field selector.
pub open spec fn field_of(xs: Texts, s: Scope) -> Option<Seq<char>> {
    match xs {
        Texts::CurrentElapsed => match s.status.song {
            Some(song) => Some(time_text(song.elapsed as nat)),
            None => None,
        },
        Texts::CurrentDuration => match s.current_track {
            Some(t) => Some(time_text(t.time as nat)),
            None => None,
        },
        Texts::CurrentFile => match s.current_track {
            Some(t) => Some(t.file@),
            None => None,
        },
        Texts::CurrentTitle => match s.current_track {
            Some(t) => text_of(t.title),
            None => None,
        },
        Texts::CurrentArtist => match s.current_track {
            Some(t) => text_of(t.artist),
            None => None,
        },
        Texts::CurrentAlbum => match s.current_track {
            Some(t) => text_of(t.album),
            None => None,
        },
        Texts::QueueDuration => match s.queue_track {
            Some(t) => Some(time_text(t.time as nat)),
            None => None,
        },
        Texts::QueueFile => match s.queue_track {
            Some(t) => Some(t.file@),
            None => None,
        },
        Texts::QueueTitle => match s.queue_track {
            Some(t) => text_of(t.title),
            None => None,
        },
        Texts::QueueArtist => match s.queue_track {
            Some(t) => text_of(t.artist),
            None => None,
        },
        Texts::QueueAlbum => match s.queue_track {
            Some(t) => text_of(t.album),
            None => None,
        },
        Texts::Query => Some(s.query@),
        _ => None,
    }
}

/// The spans that a piece of inline content comes to under an ambient
/// style. A literal is one span; a field selector is one span where its
/// field is present and none where it is not; modifiers change the style of
/// what they enclose and of nothing else; parts follow one another; of a
/// conditional exactly one branch counts, and a missing branch is empty.
pub open spec fn spans(xs: Texts, s: Scope, style: Style) -> Seq<SpanView>
    decreases xs,
{
    match xs {
        Texts::Text(text) => seq![SpanView { content: text@, style }],
        Texts::Styled(mods, inner) => spans(*inner, s, style.patched(mods@)),
        Texts::Parts(parts) => spans_of_parts(parts, parts.len() as nat, s, style),
        Texts::If(cond, yes, no) => if holds(cond, s) {
            spans(*yes, s, style)
        } else {
            match no {
                Some(other) => spans(*other, s, style),
                None => Seq::empty(),
            }
        },
        _ => match field_of(xs, s) {
            Some(text) => seq![SpanView { content: text, style }],
            None => Seq::empty(),
        },
    }
}

/// The spans of the first `n` parts, one after the other.
pub open spec fn spans_of_parts(parts: Vec<Texts>, n: nat, s: Scope, style: Style) -> Seq<SpanView>
    decreases parts, n,
{
    if n == 0 || n > parts.len() {
        Seq::empty()
    } else {
        spans_of_parts(parts, (n - 1) as nat, s, style) + spans(parts[n - 1], s, style)
    }
}

fn copy_of(field: &Option<String>) -> (r: Option<String>)
    ensures
        text_of(r) == text_of(*field),
{
    match field {
        Some(text) => Some(text.clone()),
        None => None,
    }
}

/// The text of a field selector, where the field is present.
fn field_text(xs: &Texts, s: &Scope) -> (r: Option<String>)
    ensures
        text_of(r) == field_of(*xs, *s),
{
    match xs {
        Texts::CurrentElapsed => match s.status.song {
            Some(song) => Some(format_time(song.elapsed)),
            None => None,
        },
        Texts::CurrentDuration => match s.current_track {
            Some(t) => Some(format_time(t.time)),
            None => None,
        },
        Texts::CurrentFile => match s.current_track {
            Some(t) => Some(t.file.clone()),
            None => None,
        },
        Texts::CurrentTitle => match s.current_track {
            Some(t) => copy_of(&t.title),
            None => None,
        },
        Texts::CurrentArtist => match s.current_track {
            Some(t) => copy_of(&t.artist),
            None => None,
        },
        Texts::CurrentAlbum => match s.current_track {
            Some(t) => copy_of(&t.album),
            None => None,
        },
        Texts::QueueDuration => match s.queue_track {
            Some(t) => Some(format_time(t.time)),
            None => None,
        },
        Texts::QueueFile => match s.queue_track {
            Some(t) => Some(t.file.clone()),
            None => None,
        },
        Texts::QueueTitle => match s.queue_track {
            Some(t) => copy_of(&t.title),
            None => None,
        },
        Texts::QueueArtist => match s.queue_track {
            Some(t) => copy_of(&t.artist),
            None => None,
        },
        Texts::QueueAlbum => match s.queue_track {
            Some(t) => copy_of(&t.album),
            None => None,
        },
        Texts::Query => Some(s.query.clone()),
        _ => None,
    }
}

/// Appends to `out` the spans that `xs` comes to under the ambient `style`.
pub fn flatten_into(out: &mut Vec<Span>, xs: &Texts, s: &Scope, style: Style)
    ensures
        span_views(final(out)@) == span_views(old(out)@) + spans(*xs, *s, style),
    decreases xs,
{
    let ghost before = out@;
    match xs {
        Texts::Text(text) => {
            let span = Span { content: text.clone(), style };
            out.push(span);
            assert(span_views(out@) =~= span_views(before) + spans(*xs, *s, style));
        },
        Texts::Styled(mods, inner) => {
            flatten_into(out, inner, s, patch_style(style, mods.as_slice()));
        },
        Texts::Parts(parts) => {
            let mut i: usize = 0;
            assert(span_views(out@) =~= span_views(before) + spans_of_parts(*parts, 0, *s, style));
            while i < parts.len()
                invariant
                    i <= parts.len(),
                    xs->Parts_0 == *parts,
                    *xs is Parts,
                    span_views(out@) == span_views(before) + spans_of_parts(
                        *parts,
                        i as nat,
                        *s,
                        style,
                    ),
                decreases parts.len() - i,
            {
                let ghost so_far = out@;
                assert(decreases_to!(*xs => xs->Parts_0));
                flatten_into(out, &parts[i], s, style);
                assert(span_views(out@) =~= span_views(before) + spans_of_parts(
                    *parts,
                    (i + 1) as nat,
                    *s,
                    style,
                ));
                i = i + 1;
            }
        },
        Texts::If(cond, yes, no) => {
            if eval_cond(cond, s) {
                flatten_into(out, yes, s, style);
            } else {
                match no {
                    Some(other) => {
                        flatten_into(out, other, s, style);
                    },
                    None => {
                        assert(span_views(out@) =~= span_views(before) + spans(*xs, *s, style));
                    },
                }
            }
        },
        _ => {
            match field_text(xs, s) {
                Some(content) => {
                    let span = Span { content, style };
                    out.push(span);
                    assert(span_views(out@) =~= span_views(before) + spans(*xs, *s, style));
                },
                None => {
                    assert(span_views(out@) =~= span_views(before) + spans(*xs, *s, style));
                },
            }
        },
    }
}

/// The spans that `xs` comes to, starting from the plain style. The result
/// is a function of the template and the scope alone: evaluating twice
/// against an unchanged scope gives the same spans.
pub fn flatten(xs: &Texts, s: &Scope) -> (line: Vec<Span>)
    ensures
        span_views(line@) == spans(*xs, *s, Style::plain()),
{
    let mut line: Vec<Span> = Vec::new();
    assert(span_views(line@) =~= Seq::empty());
    flatten_into(&mut line, xs, s, Style::new());
    assert(Seq::<SpanView>::empty() + spans(*xs, *s, Style::plain()) =~= spans(
        *xs,
        *s,
        Style::plain(),
    ));
    line
}

/// A track that may be absent, as plain values.
pub open spec fn content_of(track: Option<&Track>) -> Option<TrackView> {
    match track {
        Some(t) => Some(t@),
        None => None,
    }
}

/// Two scopes hold the same content: the same status and flags, and tracks
/// and queries of the same characters.
pub open spec fn alike(a: Scope, b: Scope) -> bool {
    &&& *a.status == *b.status
    &&& content_of(a.current_track) == content_of(b.current_track)
    &&& content_of(a.queue_track) == content_of(b.queue_track)
    &&& a.queue_current == b.queue_current
    &&& a.selected == b.selected
    &&& a.searching == b.searching
    &&& a.query@ == b.query@
}

/// A condition depends on the content of the scope alone.
pub proof fn condition_is_a_function(cond: Condition, a: Scope, b: Scope)
    requires
        alike(a, b),
    ensures
        holds(cond, a) == holds(cond, b),
    decreases cond,
{
    match cond {
        Condition::Not(x) => {
            condition_is_a_function(*x, a, b);
        },
        Condition::And(x, y) => {
            condition_is_a_function(*x, a, b);
            condition_is_a_function(*y, a, b);
        },
        Condition::Or(x, y) => {
            condition_is_a_function(*x, a, b);
            condition_is_a_function(*y, a, b);
        },
        Condition::Xor(x, y) => {
            condition_is_a_function(*x, a, b);
            condition_is_a_function(*y, a, b);
        },
        _ => {},
    }
}

/// The spans of a template depend on the template, the ambient style and
/// the content of the scope alone: there is no hidden state. Evaluating
/// twice against an unchanged scope gives the same spans.
pub proof fn spans_are_a_function(xs: Texts, a: Scope, b: Scope, style: Style)
    requires
        alike(a, b),
    ensures
        spans(xs, a, style) == spans(xs, b, style),
    decreases xs,
{
    match xs {
        Texts::Styled(mods, inner) => {
            spans_are_a_function(*inner, a, b, style.patched(mods@));
        },
        Texts::Parts(parts) => {
            parts_are_a_function(parts, parts.len() as nat, a, b, style);
        },
        Texts::If(cond, yes, no) => {
            condition_is_a_function(cond, a, b);
            spans_are_a_function(*yes, a, b, style);
            if let Some(other) = no {
                spans_are_a_function(*other, a, b, style);
            }
        },
        _ => {},
    }
}

/// The spans of the first `n` parts depend on the content of the scope
/// alone.
pub proof fn parts_are_a_function(parts: Vec<Texts>, n: nat, a: Scope, b: Scope, style: Style)
    requires
        alike(a, b),
    ensures
        spans_of_parts(parts, n, a, style) == spans_of_parts(parts, n, b, style),
    decreases parts, n,
{
    if n > 0 && n <= parts.len() {
        parts_are_a_function(parts, (n - 1) as nat, a, b, style);
        spans_are_a_function(parts[n - 1], a, b, style);
    }
}

/// The first `n` of some runs of spans, one after the other.
pub open spec fn in_a_row_upto(pieces: Seq<Seq<SpanView>>, n: nat) -> Seq<SpanView>
    decreases n,
{
    if n == 0 || n > pieces.len() {
        Seq::empty()
    } else {
        in_a_row_upto(pieces, (n - 1) as nat) + pieces[n - 1]
    }
}

/// Runs of spans, one after the other.
pub open spec fn in_a_row(pieces: Seq<Seq<SpanView>>) -> Seq<SpanView> {
    in_a_row_upto(pieces, pieces.len())
}

/// Parts follow one another: where each of the first `n` parts comes to
/// the run of spans at its place in `pieces`, the `n` parts together come
/// to those runs in a row.
pub proof fn parts_come_in_a_row(
    parts: Vec<Texts>,
    pieces: Seq<Seq<SpanView>>,
    n: nat,
    s: Scope,
    style: Style,
)
    requires
        n <= parts.len() == pieces.len(),
        forall|i: int| 0 <= i < n ==> spans(#[trigger] parts[i], s, style) == pieces[i],
    ensures
        spans_of_parts(parts, n, s, style) == in_a_row_upto(pieces, n),
        n == parts.len() ==> spans(Texts::Parts(parts), s, style) == in_a_row(pieces),
    decreases n,
{
    if n > 0 {
        parts_come_in_a_row(parts, pieces, (n - 1) as nat, s, style);
    }
}

/// Whether a piece of inline content is a field selector.
pub open spec fn is_selector(xs: Texts) -> bool {
    !(xs is Text) && !(xs is Styled) && !(xs is Parts) && !(xs is If)
}

/// A field selector gives one span with the field's text in the ambient
/// style where the field is present, and no span at all, not an empty one,
/// where it is absent.
pub proof fn selector_gives_the_field_or_nothing(xs: Texts, s: Scope, style: Style)
    requires
        is_selector(xs),
    ensures
        spans(xs, s, style) == match field_of(xs, s) {
            Some(text) => seq![SpanView { content: text, style }],
            None => Seq::<SpanView>::empty(),
        },
{
}

/// The title of the current track gives no span where the track has no
/// title.
pub proof fn missing_title_gives_no_span(s: Scope, style: Style)
    requires
        s.current_track matches Some(t) && t.title is None,
    ensures
        spans(Texts::CurrentTitle, s, style).len() == 0,
{
}

/// Modifiers reach what they enclose and nothing beside it: of three parts
/// of which the middle one is styled, the first and the last come out in
/// the ambient style, and only the middle one in the changed style.
pub proof fn style_is_scoped(
    parts: Vec<Texts>,
    before: Texts,
    mods: Vec<AddStyle>,
    inner: Texts,
    after: Texts,
    s: Scope,
    style: Style,
)
    requires
        parts@ == seq![before, Texts::Styled(mods, Box::new(inner)), after],
    ensures
        spans(Texts::Parts(parts), s, style) == spans(before, s, style) + spans(
            inner,
            s,
            style.patched(mods@),
        ) + spans(after, s, style),
{
    assert(parts.len() == 3);
    assert(parts[0] == before);
    assert(parts[1] == Texts::Styled(mods, Box::new(inner)));
    assert(parts[2] == after);
    let first = spans(before, s, style);
    let second = spans(inner, s, style.patched(mods@));
    assert(spans(parts[1], s, style) == second);
    assert(spans_of_parts(parts, 0, s, style) =~= Seq::<SpanView>::empty());
    assert(spans_of_parts(parts, 1, s, style) =~= first);
    assert(spans_of_parts(parts, 2, s, style) =~= first + second);
    assert(spans_of_parts(parts, 3, s, style) =~= first + second + spans(after, s, style));
}

/// The setting `single` has three values, and the two conditions on it
/// tell them apart: on, `Single` alone holds; oneshot, `Oneshot` alone; off,
/// neither.
pub proof fn single_has_three_values(s: Scope)
    ensures
        s.status.single == Some(true) ==> holds(Condition::Single, s) && !holds(
            Condition::Oneshot,
            s,
        ),
        s.status.single is None ==> !holds(Condition::Single, s) && holds(Condition::Oneshot, s),
        s.status.single == Some(false) ==> !holds(Condition::Single, s) && !holds(
            Condition::Oneshot,
            s,
        ),
{
}

/// Of the three conditions on the player's state exactly one holds.
pub proof fn player_is_in_one_state(s: Scope)
    ensures
        holds(Condition::Playing, s) || holds(Condition::Paused, s) || holds(
            Condition::Stopped,
            s,
        ),
        !(holds(Condition::Playing, s) && holds(Condition::Paused, s)),
        !(holds(Condition::Playing, s) && holds(Condition::Stopped, s)),
        !(holds(Condition::Paused, s) && holds(Condition::Stopped, s)),
{
}

/// Outside the queue no row is current and none is selected.
pub proof fn text_box_has_no_row(s: State)
    ensures
        !holds(Condition::QueueCurrent, s.scope()),
        !holds(Condition::Selected, s.scope()),
        !holds(Condition::QueueTitleExist, s.scope()),
{
}

/// How a line of text is placed in its area.
#[derive(Debug, Clone, Copy, PartialEq, Eq, Structural)]
pub enum Alignment {
    Left,
    Center,
    Right,
}

/// One column of the queue on screen.
#[derive(Debug, PartialEq, Eq)]
pub struct ListColumn {
    /// Where it is drawn.
    pub area: Rect,
    /// The visible rows, each a line of spans.
    pub rows: Vec<Vec<Span>>,
    /// The style under every row.
    pub style: Style,
    /// The style laid over the row that the cursor is on.
    pub selected_style: Style,
}

/// A widget laid out in an area and filled in: what is to be drawn, and
/// where.
#[derive(Debug, PartialEq, Eq)]
pub enum Scene {
    /// Rows or columns: the parts, in the order of the template.
    Split { area: Rect, parts: Vec<Scene> },
    /// A text box: one line of spans.
    Line { area: Rect, spans: Vec<Span>, alignment: Alignment },
    /// The queue: its columns, side by side, all drawn against one cursor,
    /// which says which row is highlighted and which is the first shown.
    Table { area: Rect, columns: Vec<ListColumn>, cursor: ListState },
}

/// The sizing policies of a list of constrained items.
pub open spec fn sizes_of<T>(items: Seq<Constrained<T>>) -> Seq<Size> {
    items.map_values(|item: Constrained<T>| item.size())
}

/// The sizing policies of the columns of a queue.
pub open spec fn column_sizes(columns: Seq<Column>) -> Seq<Size> {
    columns.map_values(|column: Column| column.item.size())
}

impl Widget {
    /// The weights of the ratio entries of every list in the widget sum to
    /// a number that fits in 32 bits.
    pub open spec fn fits(self) -> bool
        decreases self,
    {
        match self {
            Widget::Rows(xs) => ratio_total(sizes_of(xs@)) <= u32::MAX && all_fit(
                xs,
                xs.len() as nat,
            ),
            Widget::Columns(xs) => ratio_total(sizes_of(xs@)) <= u32::MAX && all_fit(
                xs,
                xs.len() as nat,
            ),
            Widget::Queue(columns) => ratio_total(column_sizes(columns@)) <= u32::MAX,
            _ => true,
        }
    }
}

/// The first `n` of the items fit.
pub open spec fn all_fit(xs: Vec<Constrained<Widget>>, n: nat) -> bool
    decreases xs, n,
{
    if n == 0 || n > xs.len() {
        true
    } else {
        all_fit(xs, (n - 1) as nat) && match xs[n - 1] {
            Constrained::Max(_, w) => w.fits(),
            Constrained::Min(_, w) => w.fits(),
            Constrained::Fixed(_, w) => w.fits(),
            Constrained::Ratio(_, w) => w.fits(),
        }
    }
}

impl State {
    /// The track that is playing or paused, if the queue holds it.
    pub open spec fn current_track(&self) -> Option<&Track> {
        match self.status.song {
            Some(song) if song.pos < self.queue.len() => Some(&self.queue[song.pos as int]),
            _ => None,
        }
    }

    /// The queue position that a visible row shows.
    pub open spec fn position(&self, row: int) -> usize {
        if self.is_filtered() {
            self.filtered[row]
        } else {
            row as usize
        }
    }

    /// What a text box is evaluated against: no row of the queue.
    pub open spec fn scope(&self) -> Scope<'_> {
        Scope {
            status: &self.status,
            current_track: self.current_track(),
            queue_track: None,
            queue_current: false,
            selected: false,
            searching: self.searching,
            query: &self.query,
        }
    }

    /// What a cell of a visible row of the queue is evaluated against: the
    /// track at the row's queue position, whether that position is the
    /// current song's, and whether the cursor is on the row.
    pub open spec fn row_scope(&self, row: int) -> Scope<'_> {
        let pos = self.position(row);
        Scope {
            status: &self.status,
            current_track: self.current_track(),
            queue_track: if pos < self.queue.len() {
                Some(&self.queue[pos as int])
            } else {
                None
            },
            queue_current: self.status.song matches Some(song) && song.pos == pos,
            selected: self.selected == row,
            searching: self.searching,
            query: &self.query,
        }
    }
}

/// The areas of the parts of rows or columns.
pub open spec fn areas_of(parts: Seq<Scene>) -> Seq<Rect> {
    parts.map_values(|part: Scene| part.area())
}

/// The areas of the columns of a queue on screen.
pub open spec fn column_areas(columns: Seq<ListColumn>) -> Seq<Rect> {
    columns.map_values(|column: ListColumn| column.area)
}

impl ListColumn {
    /// The column shows `column` of the template: a row for each visible
    /// row of the queue, and the two styles of the template laid over the
    /// plain one.
    pub open spec fn depicts(self, column: Column, s: State) -> bool {
        &&& self.style == Style::plain().patched(column.style@)
        &&& self.selected_style == Style::plain().patched(column.selected_style@)
        &&& self.rows.len() == s.visible_len()
        &&& forall|row: int|
            0 <= row < self.rows.len() ==> span_views((#[trigger] self.rows[row])@) == spans(
                column.item.item(),
                s.row_scope(row),
                Style::plain(),
            )
    }
}

impl Scene {
    /// The area that the scene is drawn in.
    pub open spec fn area(self) -> Rect {
        match self {
            Scene::Split { area, .. } => area,
            Scene::Line { area, .. } => area,
            Scene::Table { area, .. } => area,
        }
    }

    /// The scene shows `widget` in `area` for the session `s`.
    ///
    /// Rows and columns have one part for each item of the template, in
    /// order; the parts' areas divide the area, rows from the top down and
    /// columns from the left, without gap or overlap, and each part shows
    /// its item in its own area. A text box is its line of spans, aligned as
    /// the widget says. The queue has no column while the queue is empty,
    /// and else one for each column of the template, whose areas divide the
    /// area from the left; its cursor is the session's.
    pub open spec fn depicts(self, widget: Widget, area: Rect, s: State) -> bool
        decreases self,
    {
        match self {
            Scene::Split { area: a, parts } => {
                &&& a == area
                &&& match widget {
                    Widget::Rows(xs) => {
                        &&& divides(areas_of(parts@), area, Direction::Vertical, xs.len() as nat)
                        &&& forall|i: int|
                            0 <= i < parts.len() ==> (#[trigger] parts[i]).depicts(
                                xs[i].item(),
                                parts[i].area(),
                                s,
                            )
                    },
                    Widget::Columns(xs) => {
                        &&& divides(
                            areas_of(parts@),
                            area,
                            Direction::Horizontal,
                            xs.len() as nat,
                        )
                        &&& forall|i: int|
                            0 <= i < parts.len() ==> (#[trigger] parts[i]).depicts(
                                xs[i].item(),
                                parts[i].area(),
                                s,
                            )
                    },
                    _ => false,
                }
            },
            Scene::Line { area: a, spans: line, alignment } => {
                &&& a == area
                &&& match widget {
                    Widget::Textbox(xs) => alignment == Alignment::Left && span_views(line@)
                        == spans(xs, s.scope(), Style::plain()),
                    Widget::TextboxC(xs) => alignment == Alignment::Center && span_views(line@)
                        == spans(xs, s.scope(), Style::plain()),
                    Widget::TextboxR(xs) => alignment == Alignment::Right && span_views(line@)
                        == spans(xs, s.scope(), Style::plain()),
                    _ => false,
                }
            },
            Scene::Table { area: a, columns, cursor } => {
                &&& a == area
                &&& cursor == s.liststate
                &&& match widget {
                    Widget::Queue(xs) => if s.queue.len() == 0 {
                        columns.len() == 0
                    } else {
                        &&& divides(
                            column_areas(columns@),
                            area,
                            Direction::Horizontal,
                            xs.len() as nat,
                        )
                        &&& forall|j: int|
                            0 <= j < columns.len() ==> (#[trigger] columns[j]).depicts(xs[j], s)
                    },
                    _ => false,
                }
            },
        }
    }
}

impl Scene {
    /// Everything in the scene lies inside `outer`: its own area, and the
    /// areas of all its parts and columns, however deep.
    pub open spec fn inside(self, outer: Rect) -> bool
        decreases self,
    {
        &&& self.area().inside(outer)
        &&& match self {
            Scene::Split { parts, .. } => forall|i: int|
                0 <= i < parts.len() ==> (#[trigger] parts[i]).inside(outer),
            Scene::Line { .. } => true,
            Scene::Table { columns, .. } => forall|j: int|
                0 <= j < columns.len() ==> (#[trigger] columns[j]).area.inside(outer),
        }
    }
}

/// What lies inside a rectangle lies inside every rectangle around it.
pub proof fn inside_widens(scene: Scene, inner: Rect, outer: Rect)
    requires
        scene.inside(inner),
        inner.inside(outer),
    ensures
        scene.inside(outer),
    decreases scene,
{
    match scene {
        Scene::Split { parts, .. } => {
            assert forall|i: int| 0 <= i < parts.len() implies (#[trigger] parts[i]).inside(
                outer,
            ) by {
                inside_widens(parts[i], inner, outer);
            }
        },
        Scene::Line { .. } => {},
        Scene::Table { columns, .. } => {
            assert forall|j: int| 0 <= j < columns.len() implies (#[trigger] columns[j]).area.inside(
                outer,
            ) by {
                assert(columns[j].area.inside(inner));
            }
        },
    }
}

/// Nothing is laid out beyond the area given: a scene that shows a widget
/// in an area lies inside that area, with all its parts.
pub proof fn scene_stays_inside(scene: Scene, widget: Widget, area: Rect, s: State)
    requires
        scene.depicts(widget, area, s),
    ensures
        scene.inside(area),
    decreases scene,
{
    match scene {
        Scene::Split { parts, .. } => {
            let direction = if widget is Rows {
                Direction::Vertical
            } else {
                Direction::Horizontal
            };
            let items = if widget is Rows {
                widget->Rows_0
            } else {
                widget->Columns_0
            };
            assert forall|i: int| 0 <= i < parts.len() implies (#[trigger] parts[i]).inside(
                area,
            ) by {
                scene_stays_inside(parts[i], items[i].item(), parts[i].area(), s);
                parts_lie_inside(areas_of(parts@), area, direction, i);
                assert(areas_of(parts@)[i] == parts[i].area());
                inside_widens(parts[i], parts[i].area(), area);
            }
        },
        Scene::Line { .. } => {},
        Scene::Table { columns, .. } => {
            assert forall|j: int| 0 <= j < columns.len() implies (#[trigger] columns[j]).area.inside(
                area,
            ) by {
                parts_lie_inside(column_areas(columns@), area, Direction::Horizontal, j);
                assert(column_areas(columns@)[j] == columns[j].area);
            }
        },
    }
}

/// Rows fill the height of their area and columns its width, without gap
/// or overflow: the lengths of the parts along the axis sum to the length of
/// the area, where there is a part at all and the area ends within the
/// screen's 16 bits.
pub proof fn parts_fill_the_area(scene: Scene, widget: Widget, area: Rect, s: State)
    requires
        scene.depicts(widget, area, s),
        scene matches Scene::Split { parts, .. } && parts.len() > 0,
        area.x + area.width <= u16::MAX,
        area.y + area.height <= u16::MAX,
    ensures
        scene matches Scene::Split { parts, .. } && (widget is Rows ==> total_extent(
            areas_of(parts@),
            Direction::Vertical,
            parts.len() as nat,
        ) == area.height) && (widget is Columns ==> total_extent(
            areas_of(parts@),
            Direction::Horizontal,
            parts.len() as nat,
        ) == area.width),
{
    if let Scene::Split { parts, .. } = scene {
        if widget is Rows {
            parts_fill_the_length(areas_of(parts@), area, Direction::Vertical);
        } else {
            parts_fill_the_length(areas_of(parts@), area, Direction::Horizontal);
        }
    }
}

impl Widget {
    /// Whether the widget fits, as `render` needs it.
    pub fn check(&self) -> (fit: bool)
        ensures
            fit == self.fits(),
        decreases self, 1nat,
    {
        match self {
            Widget::Rows(xs) => check_parts(self, xs),
            Widget::Columns(xs) => check_parts(self, xs),
            Widget::Queue(columns) => {
                let mut sizes: Vec<Size> = Vec::new();
                let mut i: usize = 0;
                while i < columns.len()
                    invariant
                        i <= columns.len(),
                        sizes@ == column_sizes(columns@).take(i as int),
                    decreases columns.len() - i,
                {
                    sizes.push(columns[i].item.get_size());
                    assert(sizes@ =~= column_sizes(columns@).take(i + 1));
                    i = i + 1;
                }
                assert(sizes@ =~= column_sizes(columns@));
                ratios_fit(sizes.as_slice())
            },
            _ => true,
        }
    }
}

/// Whether rows or columns fit: their own weights and each of their items.
fn check_parts(widget: &Widget, xs: &Vec<Constrained<Widget>>) -> (fit: bool)
    requires
        *widget == Widget::Rows(*xs) || *widget == Widget::Columns(*xs),
    ensures
        fit == widget.fits(),
    decreases widget, 0nat,
{
    let mut sizes: Vec<Size> = Vec::new();
    let mut i: usize = 0;
    while i < xs.len()
        invariant
            i <= xs.len(),
            sizes@ == sizes_of(xs@).take(i as int),
        decreases xs.len() - i,
    {
        sizes.push(xs[i].get_size());
        assert(sizes@ =~= sizes_of(xs@).take(i + 1));
        i = i + 1;
    }
    assert(sizes@ =~= sizes_of(xs@));
    if !ratios_fit(sizes.as_slice()) {
        return false;
    }
    let mut j: usize = 0;
    while j < xs.len()
        invariant
            j <= xs.len(),
            *widget == Widget::Rows(*xs) || *widget == Widget::Columns(*xs),
            all_fit(*xs, j as nat),
        decreases xs.len() - j,
    {
        proof {
            item_is_part(xs[j as int]);
            if *widget is Rows {
                assert(decreases_to!(*widget => widget->Rows_0));
            } else {
                assert(decreases_to!(*widget => widget->Columns_0));
            }
        }
        if !xs[j].get_item().check() {
            proof {
                if all_fit(*xs, xs.len() as nat) {
                    each_fits(*xs, xs.len() as nat, j as int);
                }
            }
            return false;
        }
        j = j + 1;
    }
    true
}

/// The item of a constrained entry is a part of it.
proof fn item_is_part<T>(c: Constrained<T>)
    ensures
        decreases_to!(c => c.item()),
{
    match c {
        Constrained::Max(_, _) => {
            assert(decreases_to!(c => c->Max_1));
        },
        Constrained::Min(_, _) => {
            assert(decreases_to!(c => c->Min_1));
        },
        Constrained::Fixed(_, _) => {
            assert(decreases_to!(c => c->Fixed_1));
        },
        Constrained::Ratio(_, _) => {
            assert(decreases_to!(c => c->Ratio_1));
        },
    }
}

/// Where the first `n` items fit, each of them does.
proof fn each_fits(xs: Vec<Constrained<Widget>>, n: nat, i: int)
    requires
        all_fit(xs, n),
        0 <= i < n <= xs.len(),
    ensures
        xs[i].item().fits(),
    decreases n,
{
    if i < n - 1 {
        each_fits(xs, (n - 1) as nat, i);
    }
}

/// Where each of the first `n` items fits, they fit together.
pub proof fn fit_together(xs: Vec<Constrained<Widget>>, n: nat)
    requires
        n <= xs.len(),
        forall|i: int| 0 <= i < n ==> (#[trigger] xs[i]).item().fits(),
    ensures
        all_fit(xs, n),
    decreases n,
{
    if n > 0 {
        fit_together(xs, (n - 1) as nat);
        assert(xs[n - 1].item().fits());
    }
}

impl State {
    /// The track that is playing or paused, if the queue holds it.
    pub fn playing(&self) -> (track: Option<&Track>)
        ensures
            track == self.current_track(),
    {
        match self.status.song {
            Some(song) => if song.pos < self.queue.len() {
                Some(&self.queue[song.pos])
            } else {
                None
            },
            None => None,
        }
    }
}

/// The line of a text box.
fn textbox(xs: &Texts, s: &State) -> (line: Vec<Span>)
    ensures
        span_views(line@) == spans(*xs, s.scope(), Style::plain()),
{
    let scope = Scope {
        status: &s.status,
        current_track: s.playing(),
        queue_track: None,
        queue_current: false,
        selected: false,
        searching: s.searching,
        query: &s.query,
    };
    flatten(xs, &scope)
}

/// The cells of one column of the queue, a line for each visible row.
fn column_rows(xs: &Texts, s: &State) -> (rows: Vec<Vec<Span>>)
    ensures
        rows.len() == s.visible_len(),
        forall|row: int|
            0 <= row < rows.len() ==> span_views((#[trigger] rows[row])@) == spans(
                *xs,
                s.row_scope(row),
                Style::plain(),
            ),
{
    let n = s.len();
    let filtered = !s.query.as_str().is_empty();
    let mut rows: Vec<Vec<Span>> = Vec::new();
    let mut row: usize = 0;
    while row < n
        invariant
            row <= n,
            n == s.visible_len(),
            filtered == s.is_filtered(),
            rows.len() == row,
            forall|r: int|
                0 <= r < rows.len() ==> span_views((#[trigger] rows[r])@) == spans(
                    *xs,
                    s.row_scope(r),
                    Style::plain(),
                ),
        decreases n - row,
    {
        let pos = if filtered {
            s.filtered[row]
        } else {
            row
        };
        let scope = Scope {
            status: &s.status,
            current_track: s.playing(),
            queue_track: if pos < s.queue.len() {
                Some(&s.queue[pos])
            } else {
                None
            },
            queue_current: match s.status.song {
                Some(song) => song.pos == pos,
                None => false,
            },
            selected: s.selected == row,
            searching: s.searching,
            query: &s.query,
        };
        assert(scope == s.row_scope(row as int));
        rows.push(flatten(xs, &scope));
        row = row + 1;
    }
    rows
}

/// The columns of the queue, laid out side by side in `area`.
fn table(columns: &Vec<Column>, area: Rect, s: &State) -> (shown: Vec<ListColumn>)
    requires
        ratio_total(column_sizes(columns@)) <= u32::MAX,
    ensures
        divides(column_areas(shown@), area, Direction::Horizontal, columns@.len()),
        forall|j: int| 0 <= j < shown.len() ==> (#[trigger] shown[j]).depicts(columns[j], *s),
{
    let mut sizes: Vec<Size> = Vec::new();
    let mut i: usize = 0;
    while i < columns.len()
        invariant
            i <= columns.len(),
            sizes@ == column_sizes(columns@).take(i as int),
        decreases columns.len() - i,
    {
        sizes.push(columns[i].item.get_size());
        assert(sizes@ =~= column_sizes(columns@).take(i + 1));
        i = i + 1;
    }
    assert(sizes@ =~= column_sizes(columns@));
    let chunks = partition(area, Direction::Horizontal, sizes.as_slice());
    let mut shown: Vec<ListColumn> = Vec::new();
    let mut j: usize = 0;
    assert(column_areas(shown@) =~= chunks@.take(0));
    while j < columns.len()
        invariant
            j <= columns.len(),
            chunks.len() == columns.len(),
            divides(chunks@, area, Direction::Horizontal, columns@.len()),
            shown.len() == j,
            column_areas(shown@) == chunks@.take(j as int),
            forall|k: int| 0 <= k < shown.len() ==> (#[trigger] shown[k]).depicts(columns[k], *s),
        decreases columns.len() - j,
    {
        let column = &columns[j];
        let shown_column = ListColumn {
            area: chunks[j],
            rows: column_rows(column.item.get_item(), s),
            style: patch_style(Style::new(), column.style.as_slice()),
            selected_style: patch_style(Style::new(), column.selected_style.as_slice()),
        };
        assert(shown_column.depicts(columns[j as int], *s));
        shown.push(shown_column);
        assert(column_areas(shown@) =~= chunks@.take(j + 1));
        j = j + 1;
    }
    assert(chunks@.take(j as int) =~= chunks@);
    shown
}

/// The parts of rows or columns, laid out along `direction` in `area`.
fn render_parts(
    widget: &Widget,
    xs: &Vec<Constrained<Widget>>,
    direction: Direction,
    area: Rect,
    s: &State,
) -> (parts: Vec<Scene>)
    requires
        widget.fits(),
        *widget == Widget::Rows(*xs) || *widget == Widget::Columns(*xs),
    ensures
        divides(areas_of(parts@), area, direction, xs@.len()),
        forall|i: int|
            0 <= i < parts.len() ==> (#[trigger] parts[i]).depicts(
                xs[i].item(),
                parts[i].area(),
                *s,
            ),
    decreases widget, 0nat,
{
    let mut sizes: Vec<Size> = Vec::new();
    let mut i: usize = 0;
    while i < xs.len()
        invariant
            i <= xs.len(),
            sizes@ == sizes_of(xs@).take(i as int),
        decreases xs.len() - i,
    {
        sizes.push(xs[i].get_size());
        assert(sizes@ =~= sizes_of(xs@).take(i + 1));
        i = i + 1;
    }
    assert(sizes@ =~= sizes_of(xs@));
    let chunks = partition(area, direction, sizes.as_slice());
    let mut parts: Vec<Scene> = Vec::new();
    let mut j: usize = 0;
    assert(areas_of(parts@) =~= chunks@.take(0));
    while j < xs.len()
        invariant
            j <= xs.len(),
            widget.fits(),
            *widget == Widget::Rows(*xs) || *widget == Widget::Columns(*xs),
            chunks.len() == xs.len(),
            divides(chunks@, area, direction, xs@.len()),
            parts.len() == j,
            areas_of(parts@) == chunks@.take(j as int),
            forall|k: int|
                0 <= k < parts.len() ==> (#[trigger] parts[k]).depicts(
                    xs[k].item(),
                    parts[k].area(),
                    *s,
                ),
        decreases xs.len() - j,
    {
        proof {
            each_fits(*xs, xs.len() as nat, j as int);
            item_is_part(xs[j as int]);
            if *widget is Rows {
                assert(decreases_to!(*widget => widget->Rows_0));
            } else {
                assert(decreases_to!(*widget => widget->Columns_0));
            }
        }
        let part = render(xs[j].get_item(), chunks[j], s);
        parts.push(part);
        assert(areas_of(parts@) =~= chunks@.take(j + 1));
        j = j + 1;
    }
    assert(chunks@.take(j as int) =~= chunks@);
    parts
}

/// Lays `widget` out in `area` and fills it in from the session.
///
/// The widget must fit, which `Widget::check` tells. The parts of rows and
/// columns divide their area without gap or overlap; how the length is
/// shared among them is the solver's choice, and all else of the scene is as
/// `Scene::depicts` says.
pub fn render(widget: &Widget, area: Rect, s: &State) -> (scene: Scene)
    requires
        widget.fits(),
    ensures
        scene.depicts(*widget, area, *s),
        scene.area() == area,
    decreases widget, 1nat,
{
    match widget {
        Widget::Rows(xs) => Scene::Split {
            area,
            parts: render_parts(widget, xs, Direction::Vertical, area, s),
        },
        Widget::Columns(xs) => Scene::Split {
            area,
            parts: render_parts(widget, xs, Direction::Horizontal, area, s),
        },
        Widget::Textbox(xs) => Scene::Line {
            area,
            spans: textbox(xs, s),
            alignment: Alignment::Left,
        },
        Widget::TextboxC(xs) => Scene::Line {
            area,
            spans: textbox(xs, s),
            alignment: Alignment::Center,
        },
        Widget::TextboxR(xs) => Scene::Line {
            area,
            spans: textbox(xs, s),
            alignment: Alignment::Right,
        },
        Widget::Queue(xs) => Scene::Table {
            area,
            cursor: s.liststate,
            columns: if s.queue.len() == 0 {
                Vec::new()
            } else {
                table(xs, area, s)
            },
        },
    }
}

} // verus!
