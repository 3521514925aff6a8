//! The session: what the client shows of the player, where its cursor is and
//! what is being searched for, and how the user's commands change that.

use crate::mpd::{line_views, Changes, PlayerState, Request, Status, Track};
use crate::strings::{
    contains, lower_lay, lower_lay_string, occurs_at, occurs_in, pop_char, push_char,
};
use vstd::arithmetic::div_mod::{
    lemma_fundamental_div_mod, lemma_mod_bound, lemma_mod_multiples_vanish, lemma_small_mod,
};
use vstd::prelude::*;

verus! {

/// The cursor of a list on screen: the row that is highlighted and the first
/// row that is shown.
#[derive(Debug, Clone, Copy, PartialEq, Eq, Structural)]
pub struct ListState {
    /// The first row shown.
    pub offset: usize,
    /// The highlighted row.
    pub selected: Option<usize>,
}

impl ListState {
    /// The cursor after `select`: the row is highlighted; with no row the
    /// list also scrolls back to its top.
    pub open spec fn selecting(self, index: Option<usize>) -> ListState {
        ListState {
            offset: if index is None {
                0
            } else {
                self.offset
            },
            selected: index,
        }
    }

    /// A cursor at the top with no row highlighted.
    pub fn new() -> (s: ListState)
        ensures
            s == (ListState { offset: 0, selected: None }),
    {
        ListState { offset: 0, selected: None }
    }

    /// The highlighted row.
    pub fn selected(&self) -> (r: Option<usize>)
        ensures
            r == self.selected,
    {
        self.selected
    }

    /// Highlights a row, or none; with none the list scrolls back to its
    /// top.
    pub fn select(&mut self, index: Option<usize>)
        ensures
            *final(self) == old(self).selecting(index),
    {
        self.selected = index;
        if index.is_none() {
            self.offset = 0;
        }
    }
}

/// The session.
pub struct State {
    /// The player as last reported.
    pub status: Status,
    /// The queue as last reported.
    pub queue: Vec<Track>,
    /// The cursor: a row of what is visible.
    pub selected: usize,
    /// The cursor as the list on screen holds it.
    pub liststate: ListState,
    /// Whether the query is being typed.
    pub searching: bool,
    /// The text searched for; empty where nothing is.
    pub query: String,
    /// The queue positions that match the query, in order.
    pub filtered: Vec<usize>,
}

impl State {
    /// The queue position of the current song, or 0 where there is none.
    pub open spec fn current(self) -> usize {
        match self.status.song {
            Some(song) => song.pos,
            None => 0,
        }
    }

    /// Whether a query narrows what is visible.
    pub open spec fn is_filtered(self) -> bool {
        self.query@.len() > 0
    }

    /// The number of visible rows: the matches where a query narrows the
    /// view, the whole queue where none does.
    pub open spec fn visible_len(self) -> nat {
        if self.is_filtered() {
            self.filtered@.len()
        } else {
            self.queue@.len()
        }
    }

    /// The number of visible rows.
    pub fn len(&self) -> (n: usize)
        ensures
            n == self.visible_len(),
    {
        if self.query.as_str().is_empty() {
            self.queue.len()
        } else {
            self.filtered.len()
        }
    }

    /// Moves the cursor to row `x`.
    pub fn select(&mut self, x: usize)
        ensures
            final(self).selected == x,
            final(self).liststate == old(self).liststate.selecting(Some(x)),
            final(self).status == old(self).status,
            final(self).queue == old(self).queue,
            final(self).searching == old(self).searching,
            final(self).query == old(self).query,
            final(self).filtered == old(self).filtered,
    {
        self.selected = x;
        self.liststate.select(Some(x));
    }

    /// Moves the cursor to the current song, or to the top where there is
    /// none.
    pub fn reselect(&mut self)
        ensures
            final(self).selected == old(self).current(),
            final(self).liststate == old(self).liststate.selecting(Some(old(self).current())),
            final(self).status == old(self).status,
            final(self).queue == old(self).queue,
            final(self).searching == old(self).searching,
            final(self).query == old(self).query,
            final(self).filtered == old(self).filtered,
    {
        let pos = match self.status.song {
            Some(song) => song.pos,
            None => 0,
        };
        self.select(pos);
    }
}

/// The positions among the first `n` texts of a search index in which
/// `needle` occurs, in rising order.
pub open spec fn matches_upto(index: Seq<Seq<char>>, needle: Seq<char>, n: nat) -> Seq<usize>
    decreases n,
{
    if n == 0 || n > index.len() {
        Seq::empty()
    } else {
        let before = matches_upto(index, needle, (n - 1) as nat);
        if occurs_in(needle, index[n - 1]) {
            before.push((n - 1) as usize)
        } else {
            before
        }
    }
}

/// The queue positions that match a query: those whose text in the search
/// index holds the query, in lower case and without diacritics, as a
/// substring.
pub open spec fn filtered_by(index: Seq<Seq<char>>, query: Seq<char>) -> Seq<usize> {
    matches_upto(index, lower_lay(query), index.len())
}

/// A position is among the matches exactly if it lies in range and the
/// needle occurs in its text.
pub proof fn matches_are_the_hits(index: Seq<Seq<char>>, needle: Seq<char>, n: nat, at: usize)
    requires
        n <= index.len() <= usize::MAX,
    ensures
        matches_upto(index, needle, n).contains(at) <==> at < n && occurs_in(needle, index[at as int]),
    decreases n,
{
    if n > 0 {
        let before = matches_upto(index, needle, (n - 1) as nat);
        matches_are_the_hits(index, needle, (n - 1) as nat, at);
        if occurs_in(needle, index[n - 1]) {
            let all = before.push((n - 1) as usize);
            assert(all[before.len() as int] == (n - 1) as usize);
            if before.contains(at) {
                let i = choose|i: int| 0 <= i < before.len() && before[i] == at;
                assert(all[i] == at);
            }
            if all.contains(at) {
                let i = choose|i: int| 0 <= i < all.len() && all[i] == at;
                if i < before.len() {
                    assert(before[i] == at);
                }
            }
        }
    }
}

/// A text that holds a needle holds every prefix of the needle.
pub proof fn prefix_occurs_too(shorter: Seq<char>, longer: Seq<char>, hay: Seq<char>)
    requires
        shorter.is_prefix_of(longer),
        occurs_in(longer, hay),
    ensures
        occurs_in(shorter, hay),
{
    let at = choose|at: int| occurs_at(longer, hay, at);
    assert(hay.subrange(at, at + shorter.len()) =~= hay.subrange(at, at + longer.len()).subrange(
        0,
        shorter.len() as int,
    ));
    assert(occurs_at(shorter, hay, at));
}

/// Lengthening a query narrows the filter: where `shorter` is a prefix of
/// `longer`, every position that matches `longer` matches `shorter`.
pub proof fn longer_query_narrows(index: Seq<Seq<char>>, shorter: Seq<char>, longer: Seq<char>)
    requires
        shorter.is_prefix_of(longer),
        index.len() <= usize::MAX,
    ensures
        forall|at: usize|
            filtered_by(index, longer).contains(at) ==> #[trigger] filtered_by(
                index,
                shorter,
            ).contains(at),
{
    assert(lower_lay(shorter) =~= lower_lay(longer).subrange(0, shorter.len() as int));
    assert forall|at: usize| filtered_by(index, longer).contains(at) implies #[trigger] filtered_by(
        index,
        shorter,
    ).contains(at) by {
        matches_are_the_hits(index, lower_lay(longer), index.len(), at);
        matches_are_the_hits(index, lower_lay(shorter), index.len(), at);
        prefix_occurs_too(lower_lay(shorter), lower_lay(longer), index[at as int]);
    }
}

/// The test whether `needle` occurs in the text of a position of the index.
pub open spec fn holding(index: Seq<Seq<char>>, needle: Seq<char>) -> spec_fn(usize) -> bool {
    |at: usize| occurs_in(needle, index[at as int])
}

/// Narrowing the matches of a query to those of a longer one gives what
/// filtering anew gives: where `shorter` is a prefix of `longer`, the
/// matches of `longer` are the matches of `shorter` in whose text `longer`
/// occurs.
pub proof fn narrowing_is_filtering_anew(
    index: Seq<Seq<char>>,
    shorter: Seq<char>,
    longer: Seq<char>,
    n: nat,
)
    requires
        shorter.is_prefix_of(longer),
        n <= index.len() <= usize::MAX,
    ensures
        matches_upto(index, longer, n) == matches_upto(index, shorter, n).filter(
            holding(index, longer),
        ),
    decreases n,
{
    reveal(Seq::filter);
    if n > 0 {
        narrowing_is_filtering_anew(index, shorter, longer, (n - 1) as nat);
        let before = matches_upto(index, shorter, (n - 1) as nat);
        let last = (n - 1) as usize;
        if occurs_in(shorter, index[n - 1]) {
            assert(before.push(last).drop_last() =~= before);
            assert(before.push(last).last() == last);
            assert(holding(index, longer)(last) == occurs_in(longer, index[n - 1]));
        } else if occurs_in(longer, index[n - 1]) {
            prefix_occurs_too(shorter, longer, index[n - 1]);
        }
    }
}

/// The positions of a search index whose text holds `needle`, in rising
/// order.
pub fn find_matches(queue_strings: &[String], needle: &str) -> (found: Vec<usize>)
    ensures
        found@ == matches_upto(line_views(queue_strings@), needle@, queue_strings@.len()),
{
    let ghost index = line_views(queue_strings@);
    let mut found: Vec<usize> = Vec::new();
    let mut i: usize = 0;
    while i < queue_strings.len()
        invariant
            i <= queue_strings.len(),
            index == line_views(queue_strings@),
            found@ == matches_upto(index, needle@, i as nat),
        decreases queue_strings.len() - i,
    {
        if contains(queue_strings[i].as_str(), needle) {
            found.push(i);
        }
        i = i + 1;
    }
    found
}

/// The matches lie in the index and rise: each is a position of the index,
/// and each is greater than the one before it.
pub proof fn matches_rise(index: Seq<Seq<char>>, needle: Seq<char>, n: nat)
    requires
        n <= index.len() <= usize::MAX,
    ensures
        forall|i: int|
            0 <= i < matches_upto(index, needle, n).len() ==> (#[trigger] matches_upto(
                index,
                needle,
                n,
            )[i]) < n,
        forall|i: int, j: int|
            0 <= i < j < matches_upto(index, needle, n).len() ==> matches_upto(index, needle, n)[i]
                < matches_upto(index, needle, n)[j],
    decreases n,
{
    if n > 0 {
        let before = matches_upto(index, needle, (n - 1) as nat);
        let all = matches_upto(index, needle, n);
        matches_rise(index, needle, (n - 1) as nat);
        assert forall|i: int| 0 <= i < all.len() implies (#[trigger] all[i]) < n by {
            if i < before.len() {
                assert(all[i] == before[i]);
            }
        }
        assert forall|i: int, j: int| 0 <= i < j < all.len() implies all[i] < all[j] by {
            assert(all[i] == before[i]);
            if j < before.len() {
                assert(all[j] == before[j]);
            }
        }
    }
}

impl State {
    /// Filters the queue by the query anew and puts the cursor on the first
    /// match.
    pub fn update_search(&mut self, queue_strings: &[String])
        ensures
            final(self).filtered@ == filtered_by(line_views(queue_strings@), old(self).query@),
            final(self).selected == 0,
            final(self).liststate == old(self).liststate.selecting(None).selecting(Some(0)),
            final(self).status == old(self).status,
            final(self).queue == old(self).queue,
            final(self).searching == old(self).searching,
            final(self).query == old(self).query,
    {
        self.refilter(queue_strings);
        self.liststate.select(None);
        self.select(0);
    }

    /// Filters the queue by the query anew and leaves the cursor where it
    /// is.
    pub fn refilter(&mut self, queue_strings: &[String])
        ensures
            final(self).filtered@ == filtered_by(line_views(queue_strings@), old(self).query@),
            final(self).selected == old(self).selected,
            final(self).liststate == old(self).liststate,
            final(self).status == old(self).status,
            final(self).queue == old(self).queue,
            final(self).searching == old(self).searching,
            final(self).query == old(self).query,
    {
        let query = lower_lay_string(self.query.as_str());
        self.filtered = find_matches(queue_strings, query.as_str());
    }

    /// Brings the cursor back onto the last visible row, where it lies
    /// beyond the visible rows and there is a row at all.
    pub fn clamp(&mut self)
        ensures
            final(self).session() == old(self).session().clamped(old(self).visible_len()),
            final(self).status == old(self).status,
            final(self).queue == old(self).queue,
            final(self).query == old(self).query,
            final(self).filtered == old(self).filtered,
    {
        let len = self.len();
        if len > 0 && self.selected >= len {
            self.select(len - 1);
        }
    }

    /// Leaves the search: the query is no longer typed, and if there was
    /// one it is dropped and the cursor goes back to the current song.
    pub fn quit_search(&mut self)
        ensures
            final(self).searching == false,
            final(self).query@ == Seq::<char>::empty(),
            old(self).is_filtered() ==> {
                &&& final(self).selected == old(self).current()
                &&& final(self).liststate == old(self).liststate.selecting(
                    Some(old(self).current()),
                )
            },
            !old(self).is_filtered() ==> {
                &&& final(self).selected == old(self).selected
                &&& final(self).liststate == old(self).liststate
            },
            final(self).status == old(self).status,
            final(self).queue == old(self).queue,
            final(self).filtered == old(self).filtered,
    {
        self.searching = false;
        self.clear_search();
    }

    /// Drops the query, if there is one, and puts the cursor back on the
    /// current song.
    pub fn clear_search(&mut self)
        ensures
            final(self).query@ == Seq::<char>::empty(),
            old(self).is_filtered() ==> {
                &&& final(self).selected == old(self).current()
                &&& final(self).liststate == old(self).liststate.selecting(
                    Some(old(self).current()),
                )
            },
            !old(self).is_filtered() ==> {
                &&& final(self).selected == old(self).selected
                &&& final(self).liststate == old(self).liststate
            },
            final(self).status == old(self).status,
            final(self).queue == old(self).queue,
            final(self).searching == old(self).searching,
            final(self).filtered == old(self).filtered,
    {
        if !self.query.as_str().is_empty() {
            self.query = String::new();
            self.reselect();
        }
    }
}

/// What the user can ask for.
#[derive(Debug, Clone, Copy, PartialEq, Eq, Structural)]
pub enum Command {
    Quit,
    ToggleRepeat,
    ToggleRandom,
    ToggleSingle,
    ToggleOneshot,
    ToggleConsume,
    TogglePause,
    Stop,
    SeekBackwards,
    SeekForwards,
    Previous,
    Next,
    Play,
    Reselect,
    Down,
    Up,
    JumpDown,
    JumpUp,
    GotoTop,
    GotoBottom,
    InputSearch(char),
    BackspaceSearch,
    ClearSearch,
    QuitSearch,
    Searching(bool),
}

/// How the cursor moves and what playing a song does to the search.
#[derive(Debug, Clone, Copy, PartialEq, Eq, Structural)]
pub struct Settings {
    /// Playing a song leaves the search.
    pub clear_query_on_play: bool,
    /// The cursor wraps round at the ends.
    pub cycle: bool,
    /// The number of rows of a jump.
    pub jump_lines: usize,
}

/// What is to be brought up to date.
#[derive(Debug, Clone, Copy, PartialEq, Eq, Structural)]
pub struct Updates {
    /// Ask the daemon for its status.
    pub status: bool,
    /// Ask the daemon for its queue.
    pub queue: bool,
    /// Draw the screen.
    pub frame: bool,
}

/// What follows a command.
#[derive(Debug, Clone, Copy, PartialEq, Eq, Structural)]
pub enum Step {
    /// Leave the program.
    Quit,
    /// Nothing: the command does not apply.
    Skip,
    /// Send the request, if there is one, then bring up to date what
    /// `updates` names.
    Proceed { request: Option<Request>, updates: Updates },
}

/// The part of the session that commands change.
#[verifier::ext_equal]
pub struct Session {
    pub selected: usize,
    pub liststate: ListState,
    pub searching: bool,
    pub query: Seq<char>,
    pub filtered: Seq<usize>,
}

impl Session {
    /// The list on screen highlights the row that the cursor is on.
    pub open spec fn agrees(self) -> bool {
        self.liststate.selected == Some(self.selected)
    }

    /// The session with the cursor on row `x`.
    pub open spec fn at(self, x: usize) -> Session {
        Session { selected: x, liststate: self.liststate.selecting(Some(x)), ..self }
    }

    /// The session with the cursor brought back onto the last of `len`
    /// visible rows, where it lies beyond them and there is a row at all.
    pub open spec fn clamped(self, len: nat) -> Session {
        if len > 0 && self.selected >= len {
            self.at((len - 1) as usize)
        } else {
            self
        }
    }

    /// The session with the cursor on the first row of a list scrolled back
    /// to its top.
    pub open spec fn at_top(self) -> Session {
        Session {
            selected: 0,
            liststate: self.liststate.selecting(None).selecting(Some(0)),
            ..self
        }
    }
}

/// Draw the screen, and nothing else.
pub open spec fn redraw() -> Step {
    Step::Proceed { request: None, updates: Updates { status: false, queue: false, frame: true } }
}

/// Send a request, then ask for the status and draw the screen.
pub open spec fn send(request: Request) -> Step {
    Step::Proceed {
        request: Some(request),
        updates: Updates { status: true, queue: false, frame: true },
    }
}

/// Where a movement takes the cursor from row `from` of `len` visible rows.
/// A step goes one row and a jump `jump_lines` rows; at the ends the cursor
/// stops, or wraps round where `cycle` is set.
pub open spec fn moved(from: int, len: int, cmd: Command, settings: Settings) -> int {
    match cmd {
        Command::Down => if from + 1 < len {
            from + 1
        } else if settings.cycle {
            0
        } else {
            from
        },
        Command::Up => if from > 0 {
            from - 1
        } else if settings.cycle {
            len - 1
        } else {
            0
        },
        Command::JumpDown => if settings.cycle {
            (from + settings.jump_lines) % len
        } else if from + settings.jump_lines < len {
            from + settings.jump_lines
        } else {
            len - 1
        },
        Command::JumpUp => if settings.cycle {
            (from - settings.jump_lines) % len
        } else if from >= settings.jump_lines {
            from - settings.jump_lines
        } else {
            0
        },
        _ => from,
    }
}

impl State {
    /// The part of the session that commands change.
    pub open spec fn session(self) -> Session {
        Session {
            selected: self.selected,
            liststate: self.liststate,
            searching: self.searching,
            query: self.query@,
            filtered: self.filtered@,
        }
    }

    /// The queue position of the row that the cursor is on, if it is on a
    /// visible row.
    pub open spec fn play_target(self) -> Option<usize> {
        if self.selected < self.visible_len() {
            Some(
                if self.is_filtered() {
                    self.filtered[self.selected as int]
                } else {
                    self.selected
                },
            )
        } else {
            None
        }
    }

    /// Where a movement starts: at the cursor, or at the current song where
    /// the cursor is beyond the last visible row.
    pub open spec fn start(self) -> usize {
        if self.selected < self.visible_len() {
            self.selected
        } else {
            self.current()
        }
    }

    /// Where a movement ends. It starts at `start`; from a visible row the
    /// cursor moves as `moved` says, and from beyond them it stays.
    pub open spec fn destination(self, cmd: Command, settings: Settings) -> usize {
        if self.start() < self.visible_len() {
            moved(self.start() as int, self.visible_len() as int, cmd, settings) as usize
        } else {
            self.start()
        }
    }

    /// What follows a command.
    pub open spec fn outcome(self, cmd: Command, settings: Settings) -> Step {
        match cmd {
            Command::Quit => Step::Quit,
            Command::ToggleRepeat => send(Request::Repeat(!self.status.repeat)),
            Command::ToggleRandom => send(Request::Random(!self.status.random)),
            Command::ToggleSingle => send(
                Request::Single(Some(self.status.single != Some(true))),
            ),
            Command::ToggleOneshot => send(
                Request::Single(
                    if self.status.single is None {
                        Some(false)
                    } else {
                        None
                    },
                ),
            ),
            Command::ToggleConsume => send(Request::Consume(!self.status.consume)),
            Command::TogglePause => match self.status.state {
                PlayerState::Play => send(Request::Pause),
                PlayerState::Pause => send(Request::Resume),
                PlayerState::Stop => Step::Skip,
            },
            Command::Stop => send(Request::Stop),
            Command::SeekBackwards => send(Request::SeekBackwards),
            Command::SeekForwards => send(Request::SeekForwards),
            Command::Previous => send(Request::Previous),
            Command::Next => send(Request::Next),
            Command::Play => match self.play_target() {
                Some(pos) => send(Request::Play(pos)),
                None => Step::Skip,
            },
            Command::GotoBottom => if self.visible_len() == 0 {
                Step::Skip
            } else {
                redraw()
            },
            _ => redraw(),
        }
    }

    /// The session after a command, given the search index of the queue.
    ///
    /// Requests to the daemon leave the session as it is, but that playing
    /// a song leaves the search where the settings say so. Typing a
    /// character filters anew; the first character puts the cursor on the
    /// first match, and a later one brings it back onto the last match where
    /// fewer matches are left than the cursor's row. Deleting one filters
    /// anew while a query is left, and puts the cursor back on the current
    /// song when none is.
    pub open spec fn after(self, cmd: Command, settings: Settings, index: Seq<Seq<char>>) -> Session {
        let now = self.session();
        let cleared = if self.is_filtered() {
            Session { query: Seq::empty(), ..now.at(self.current()) }
        } else {
            now
        };
        match cmd {
            Command::Play => if self.play_target() is Some && settings.clear_query_on_play {
                Session { searching: false, ..cleared }
            } else {
                now
            },
            Command::Reselect => now.at(self.current()),
            Command::Down | Command::Up | Command::JumpDown | Command::JumpUp => now.at(
                self.destination(cmd, settings),
            ),
            Command::GotoTop => now.at(0),
            Command::GotoBottom => if self.visible_len() == 0 {
                now
            } else {
                now.at((self.visible_len() - 1) as usize)
            },
            Command::InputSearch(c) => {
                let query = self.query@.push(c);
                let found = Session { query, filtered: filtered_by(index, query), ..now };
                if self.is_filtered() {
                    found.clamped(found.filtered.len())
                } else {
                    found.at_top()
                }
            },
            Command::BackspaceSearch => if self.is_filtered() {
                let query = self.query@.drop_last();
                if query.len() > 0 {
                    Session { query, filtered: filtered_by(index, query), ..now }.at_top()
                } else {
                    Session { query, ..now.at(self.current()) }
                }
            } else {
                now
            },
            Command::ClearSearch => cleared,
            Command::QuitSearch => Session { searching: false, ..cleared },
            Command::Searching(on) => Session { searching: on, ..now },
            _ => now,
        }
    }

    /// The queue position of the row that the cursor is on, if it is on a
    /// visible row.
    pub fn target(&self) -> (pos: Option<usize>)
        ensures
            pos == self.play_target(),
    {
        if self.query.as_str().is_empty() {
            if self.selected < self.queue.len() {
                Some(self.selected)
            } else {
                None
            }
        } else if self.selected < self.filtered.len() {
            Some(self.filtered[self.selected])
        } else {
            None
        }
    }

    /// Moves the cursor as a movement command says.
    fn travel(&mut self, cmd: Command, settings: &Settings)
        requires
            cmd is Down || cmd is Up || cmd is JumpDown || cmd is JumpUp,
        ensures
            final(self).session() == old(self).session().at(old(self).destination(cmd, *settings)),
            final(self).status == old(self).status,
            final(self).queue == old(self).queue,
    {
        let len = self.len();
        let from = if self.selected < len {
            self.selected
        } else {
            match self.status.song {
                Some(song) => song.pos,
                None => 0,
            }
        };
        if from >= len {
            self.select(from);
            return ;
        }
        let jump = settings.jump_lines;
        let to = match cmd {
            Command::Down => if from < len - 1 {
                from + 1
            } else if settings.cycle {
                0
            } else {
                from
            },
            Command::Up => if from > 0 {
                from - 1
            } else if settings.cycle {
                len - 1
            } else {
                0
            },
            Command::JumpDown => if settings.cycle {
                let rest = jump % len;
                proof {
                    wrap_down(from as int, jump as int, len as int);
                }
                if from >= len - rest {
                    from - (len - rest)
                } else {
                    from + rest
                }
            } else if jump < len - from {
                from + jump
            } else {
                len - 1
            },
            _ => if settings.cycle {
                let rest = jump % len;
                proof {
                    wrap_up(from as int, jump as int, len as int);
                }
                if from >= rest {
                    from - rest
                } else {
                    len - rest + from
                }
            } else if from >= jump {
                from - jump
            } else {
                0
            },
        };
        self.select(to);
    }

    /// Carries out a command on the session and says what is to follow.
    ///
    /// `queue_strings` is the search index of the queue.
    pub fn apply(&mut self, cmd: Command, settings: &Settings, queue_strings: &[String]) -> (step:
        Step)
        ensures
            step == old(self).outcome(cmd, *settings),
            final(self).session() == old(self).after(cmd, *settings, line_views(queue_strings@)),
            final(self).status == old(self).status,
            final(self).queue == old(self).queue,
    {
        let proceed = Step::Proceed {
            request: None,
            updates: Updates { status: false, queue: false, frame: true },
        };
        let updates = Updates { status: true, queue: false, frame: true };
        match cmd {
            Command::Quit => Step::Quit,
            Command::ToggleRepeat => Step::Proceed {
                request: Some(Request::Repeat(!self.status.repeat)),
                updates,
            },
            Command::ToggleRandom => Step::Proceed {
                request: Some(Request::Random(!self.status.random)),
                updates,
            },
            Command::ToggleSingle => {
                let on = match self.status.single {
                    Some(on) => on,
                    None => false,
                };
                Step::Proceed { request: Some(Request::Single(Some(!on))), updates }
            },
            Command::ToggleOneshot => {
                let mode = if self.status.single.is_none() {
                    Some(false)
                } else {
                    None
                };
                Step::Proceed { request: Some(Request::Single(mode)), updates }
            },
            Command::ToggleConsume => Step::Proceed {
                request: Some(Request::Consume(!self.status.consume)),
                updates,
            },
            Command::TogglePause => match self.status.state {
                PlayerState::Play => Step::Proceed { request: Some(Request::Pause), updates },
                PlayerState::Pause => Step::Proceed { request: Some(Request::Resume), updates },
                PlayerState::Stop => Step::Skip,
            },
            Command::Stop => Step::Proceed { request: Some(Request::Stop), updates },
            Command::SeekBackwards => Step::Proceed {
                request: Some(Request::SeekBackwards),
                updates,
            },
            Command::SeekForwards => Step::Proceed {
                request: Some(Request::SeekForwards),
                updates,
            },
            Command::Previous => Step::Proceed { request: Some(Request::Previous), updates },
            Command::Next => Step::Proceed { request: Some(Request::Next), updates },
            Command::Play => match self.target() {
                Some(pos) => {
                    if settings.clear_query_on_play {
                        self.quit_search();
                    }
                    assert(!old(self).is_filtered() ==> old(self).query@ =~= Seq::<char>::empty());
                    assert(self.session() =~= old(self).after(
                        cmd,
                        *settings,
                        line_views(queue_strings@),
                    ));
                    Step::Proceed { request: Some(Request::Play(pos)), updates }
                },
                None => Step::Skip,
            },
            Command::Reselect => {
                self.reselect();
                proceed
            },
            Command::Down | Command::Up | Command::JumpDown | Command::JumpUp => {
                self.travel(cmd, settings);
                proceed
            },
            Command::GotoTop => {
                self.select(0);
                proceed
            },
            Command::GotoBottom => {
                let len = self.len();
                if len == 0 {
                    Step::Skip
                } else {
                    self.select(len - 1);
                    proceed
                }
            },
            Command::InputSearch(c) => {
                let first = self.query.as_str().is_empty();
                push_char(&mut self.query, c);
                if first {
                    self.update_search(queue_strings);
                } else {
                    self.refilter(queue_strings);
                    self.clamp();
                }
                assert(self.session() =~= old(self).after(
                    cmd,
                    *settings,
                    line_views(queue_strings@),
                ));
                proceed
            },
            Command::BackspaceSearch => {
                let last = pop_char(&mut self.query);
                if !self.query.as_str().is_empty() {
                    self.update_search(queue_strings);
                } else if last.is_some() {
                    self.reselect();
                }
                assert(self.session() =~= old(self).after(
                    cmd,
                    *settings,
                    line_views(queue_strings@),
                ));
                proceed
            },
            Command::ClearSearch => {
                self.clear_search();
                assert(!old(self).is_filtered() ==> old(self).query@ =~= Seq::<char>::empty());
                assert(self.session() =~= old(self).after(
                    cmd,
                    *settings,
                    line_views(queue_strings@),
                ));
                proceed
            },
            Command::QuitSearch => {
                self.quit_search();
                assert(!old(self).is_filtered() ==> old(self).query@ =~= Seq::<char>::empty());
                assert(self.session() =~= old(self).after(
                    cmd,
                    *settings,
                    line_views(queue_strings@),
                ));
                proceed
            },
            Command::Searching(on) => {
                self.searching = on;
                proceed
            },
        }
    }

    /// Takes a new status into the session.
    pub fn set_status(&mut self, status: Status)
        ensures
            final(self).status == status,
            final(self).queue == old(self).queue,
            final(self).session() == old(self).session(),
    {
        self.status = status;
    }

    /// Takes a new queue, with its search index, into the session: the
    /// list scrolls back to its top, and the cursor goes to the current
    /// song, or to the last row where the new queue ends before it; where a
    /// query narrows the view, the queue is filtered anew and the cursor goes
    /// to the first match.
    pub fn set_queue(&mut self, queue: Vec<Track>, queue_strings: &[String])
        ensures
            final(self).queue == queue,
            final(self).status == old(self).status,
            final(self).searching == old(self).searching,
            final(self).query == old(self).query,
            old(self).is_filtered() ==> {
                &&& final(self).filtered@ == filtered_by(
                    line_views(queue_strings@),
                    old(self).query@,
                )
                &&& final(self).selected == 0
                &&& final(self).liststate == (ListState { offset: 0, selected: Some(0) })
            },
            !old(self).is_filtered() ==> {
                &&& final(self).filtered == old(self).filtered
                &&& final(self).selected == if queue.len() > 0 && old(self).current()
                    >= queue.len() {
                    (queue.len() - 1) as usize
                } else {
                    old(self).current()
                }
                &&& final(self).liststate == (ListState {
                    offset: 0,
                    selected: Some(final(self).selected),
                })
            },
    {
        self.queue = queue;
        self.liststate.select(None);
        self.reselect();
        if !self.query.as_str().is_empty() {
            self.update_search(queue_strings);
        } else {
            self.clamp();
        }
    }
}

/// A jump down that wraps round: `from + jump` modulo `len`, from the rest
/// of `jump` modulo `len`.
proof fn wrap_down(from: int, jump: int, len: int)
    requires
        0 <= from < len,
        0 <= jump,
    ensures
        0 <= jump % len < len,
        (from + jump) % len == if from >= len - jump % len {
            from - (len - jump % len)
        } else {
            from + jump % len
        },
{
    let rest = jump % len;
    lemma_mod_bound(jump, len);
    lemma_fundamental_div_mod(jump, len);
    let q = jump / len;
    assert(from + jump == len * q + (from + rest));
    lemma_mod_multiples_vanish(q, from + rest, len);
    if from + rest >= len {
        assert(from + rest == len * 1 + (from + rest - len));
        lemma_mod_multiples_vanish(1, from + rest - len, len);
        lemma_small_mod((from + rest - len) as nat, len as nat);
    } else {
        lemma_small_mod((from + rest) as nat, len as nat);
    }
}

/// A jump up that wraps round: `from - jump` modulo `len`, from the rest of
/// `jump` modulo `len`.
proof fn wrap_up(from: int, jump: int, len: int)
    requires
        0 <= from < len,
        0 <= jump,
    ensures
        0 <= jump % len < len,
        (from - jump) % len == if from >= jump % len {
            from - jump % len
        } else {
            len - jump % len + from
        },
{
    let rest = jump % len;
    lemma_mod_bound(jump, len);
    lemma_fundamental_div_mod(jump, len);
    let q = jump / len;
    assert(from - jump == len * (-q) + (from - rest)) by (nonlinear_arith)
        requires
            jump == len * q + rest,
    ;
    lemma_mod_multiples_vanish(-q, from - rest, len);
    if from >= rest {
        lemma_small_mod((from - rest) as nat, len as nat);
    } else {
        assert(from - rest == len * (-1) + (len - rest + from));
        lemma_mod_multiples_vanish(-1, len - rest + from, len);
        lemma_small_mod((len - rest + from) as nat, len as nat);
    }
}

impl Updates {
    /// The updates as three bits: 4 for the status, 2 for the queue, 1 for
    /// the screen.
    pub open spec fn as_bits(self) -> u8 {
        let status: u8 = if self.status {
            4
        } else {
            0
        };
        let queue: u8 = if self.queue {
            2
        } else {
            0
        };
        let frame: u8 = if self.frame {
            1
        } else {
            0
        };
        (status + queue + frame) as u8
    }

    /// The updates that three bits stand for; higher bits count for
    /// nothing.
    pub open spec fn of_bits(bits: u8) -> Updates {
        Updates { status: bits & 4 != 0, queue: bits & 2 != 0, frame: bits & 1 != 0 }
    }

    /// Both sets of updates together.
    pub open spec fn joined(self, other: Updates) -> Updates {
        Updates {
            status: self.status || other.status,
            queue: self.queue || other.queue,
            frame: self.frame || other.frame,
        }
    }

    /// The updates as three bits.
    pub fn bits(&self) -> (bits: u8)
        ensures
            bits == self.as_bits(),
            Updates::of_bits(bits) == *self,
    {
        let s: u8 = if self.status {
            4
        } else {
            0
        };
        let q: u8 = if self.queue {
            2
        } else {
            0
        };
        let f: u8 = if self.frame {
            1
        } else {
            0
        };
        let bits: u8 = s + q + f;
        assert(bits & 4 != 0 <==> s == 4) by (bit_vector)
            requires
                bits == s + q + f,
                s == 4 || s == 0,
                q == 2 || q == 0,
                f == 1 || f == 0,
        ;
        assert(bits & 2 != 0 <==> q == 2) by (bit_vector)
            requires
                bits == s + q + f,
                s == 4 || s == 0,
                q == 2 || q == 0,
                f == 1 || f == 0,
        ;
        assert(bits & 1 != 0 <==> f == 1) by (bit_vector)
            requires
                bits == s + q + f,
                s == 4 || s == 0,
                q == 2 || q == 0,
                f == 1 || f == 0,
        ;
        bits
    }

    /// The updates that three bits stand for.
    pub fn from_bits(bits: u8) -> (updates: Updates)
        ensures
            updates == Updates::of_bits(bits),
    {
        Updates { status: bits & 4 != 0, queue: bits & 2 != 0, frame: bits & 1 != 0 }
    }

    /// Both sets of updates together.
    pub fn merge(&self, other: &Updates) -> (both: Updates)
        ensures
            both == self.joined(*other),
    {
        Updates {
            status: self.status || other.status,
            queue: self.queue || other.queue,
            frame: self.frame || other.frame,
        }
    }

    /// What the clock asks for at each tick: the status and the screen.
    pub fn tick() -> (updates: Updates)
        ensures
            updates == (Updates { status: true, queue: false, frame: true }),
    {
        Updates { status: true, queue: false, frame: true }
    }

    /// What the daemon's notice of changes asks for: the status or the
    /// queue, as it says, and the screen; `None` where it names neither and
    /// the wait goes on.
    pub fn from_changes(changes: &Changes) -> (updates: Option<Updates>)
        ensures
            updates == if changes.queue || changes.status {
                Some(Updates { status: changes.status, queue: changes.queue, frame: true })
            } else {
                None
            },
    {
        if changes.queue || changes.status {
            Some(Updates { status: changes.status, queue: changes.queue, frame: true })
        } else {
            None
        }
    }
}

/// Joining updates is the bitwise or of their bits.
pub proof fn joined_is_bitwise_or(a: u8, b: u8)
    ensures
        Updates::of_bits(a | b) == Updates::of_bits(a).joined(Updates::of_bits(b)),
{
    assert(((a | b) & 4 != 0) == ((a & 4 != 0) || (b & 4 != 0))) by (bit_vector);
    assert(((a | b) & 2 != 0) == ((a & 2 != 0) || (b & 2 != 0))) by (bit_vector);
    assert(((a | b) & 1 != 0) == ((a & 1 != 0) || (b & 1 != 0))) by (bit_vector);
}

impl Settings {
    /// A switch that the command line can set or unset and the
    /// configuration can set: the command line decides where it speaks.
    pub fn switch(set: bool, unset: bool, configured: bool) -> (on: bool)
        ensures
            on == (set || (!unset && configured)),
    {
        set || (!unset && configured)
    }
}

/// A key of the keyboard.
#[derive(Debug, Clone, Copy, PartialEq, Eq, Structural)]
pub enum Key {
    Char(char),
    Left,
    Right,
    Down,
    Up,
    PageDown,
    PageUp,
    Enter,
    Backspace,
    Esc,
    Other,
}

/// What the terminal reports.
#[derive(Debug, Clone, Copy, PartialEq, Eq, Structural)]
pub enum Input {
    /// A key, with or without the control key held.
    Key { key: Key, ctrl: bool },
    ScrollUp,
    ScrollDown,
    Resize,
    Other,
}

/// What an input means.
#[derive(Debug, Clone, Copy, PartialEq, Eq, Structural)]
pub enum Binding {
    /// A command.
    Run(Command),
    /// Draw the screen.
    Redraw,
    /// Nothing.
    Ignore,
}

/// The command of a character typed outside the search.
pub open spec fn letter(c: char, ctrl: bool) -> Binding {
    if c == 'q' {
        Binding::Run(Command::Quit)
    } else if c == 'r' {
        Binding::Run(Command::ToggleRepeat)
    } else if c == 'R' {
        Binding::Run(Command::ToggleRandom)
    } else if c == 's' {
        Binding::Run(Command::ToggleSingle)
    } else if c == 'S' {
        Binding::Run(Command::ToggleOneshot)
    } else if c == 'c' {
        Binding::Run(Command::ToggleConsume)
    } else if c == 'p' {
        Binding::Run(Command::TogglePause)
    } else if c == ';' {
        Binding::Run(Command::Stop)
    } else if c == 'h' {
        Binding::Run(Command::SeekBackwards)
    } else if c == 'l' {
        Binding::Run(Command::SeekForwards)
    } else if c == 'H' {
        Binding::Run(Command::Previous)
    } else if c == 'L' {
        Binding::Run(Command::Next)
    } else if c == ' ' {
        Binding::Run(Command::Reselect)
    } else if c == 'j' {
        Binding::Run(Command::Down)
    } else if c == 'k' {
        Binding::Run(Command::Up)
    } else if c == 'J' || (c == 'd' && ctrl) {
        Binding::Run(Command::JumpDown)
    } else if c == 'K' {
        Binding::Run(Command::JumpUp)
    } else if c == 'g' {
        Binding::Run(Command::GotoTop)
    } else if c == 'G' {
        Binding::Run(Command::GotoBottom)
    } else if c == '/' {
        Binding::Run(Command::Searching(true))
    } else {
        Binding::Ignore
    }
}

/// What an input means, given whether a query is being typed. While one
/// is, characters go into the query, but for control-q and control-u.
pub open spec fn meaning(input: Input, typing: bool) -> Binding {
    match input {
        Input::ScrollUp => Binding::Run(Command::Up),
        Input::ScrollDown => Binding::Run(Command::Down),
        Input::Resize => Binding::Redraw,
        Input::Other => Binding::Ignore,
        Input::Key { key, ctrl } => match key {
            Key::Char(c) => if c == 'q' && ctrl {
                Binding::Run(Command::Quit)
            } else if c == 'u' && ctrl {
                Binding::Run(
                    if typing {
                        Command::ClearSearch
                    } else {
                        Command::JumpUp
                    },
                )
            } else if typing {
                Binding::Run(Command::InputSearch(c))
            } else {
                letter(c, ctrl)
            },
            Key::Left => Binding::Run(Command::SeekBackwards),
            Key::Right => Binding::Run(Command::SeekForwards),
            Key::Down => Binding::Run(Command::Down),
            Key::Up => Binding::Run(Command::Up),
            Key::PageDown => Binding::Run(Command::JumpDown),
            Key::PageUp => Binding::Run(Command::JumpUp),
            Key::Enter => Binding::Run(
                if typing {
                    Command::Searching(false)
                } else {
                    Command::Play
                },
            ),
            Key::Backspace => if typing {
                Binding::Run(Command::BackspaceSearch)
            } else {
                Binding::Ignore
            },
            Key::Esc => Binding::Run(Command::QuitSearch),
            Key::Other => Binding::Ignore,
        },
    }
}

/// Whether a query is being typed after an input: typing starts with the
/// command that opens the search and ends with those that close or leave
/// it.
pub open spec fn typing_after(input: Input, typing: bool) -> bool {
    match meaning(input, typing) {
        Binding::Run(Command::Searching(on)) => on,
        Binding::Run(Command::QuitSearch) => false,
        _ => typing,
    }
}

/// Says what an input means and keeps track of whether a query is being
/// typed.
pub fn bind(input: Input, typing: &mut bool) -> (binding: Binding)
    ensures
        binding == meaning(input, *old(typing)),
        *final(typing) == typing_after(input, *old(typing)),
{
    let binding = match input {
        Input::ScrollUp => Binding::Run(Command::Up),
        Input::ScrollDown => Binding::Run(Command::Down),
        Input::Resize => Binding::Redraw,
        Input::Other => Binding::Ignore,
        Input::Key { key, ctrl } => match key {
            Key::Char(c) => if c == 'q' && ctrl {
                Binding::Run(Command::Quit)
            } else if c == 'u' && ctrl {
                if *typing {
                    Binding::Run(Command::ClearSearch)
                } else {
                    Binding::Run(Command::JumpUp)
                }
            } else if *typing {
                Binding::Run(Command::InputSearch(c))
            } else {
                bind_letter(c, ctrl)
            },
            Key::Left => Binding::Run(Command::SeekBackwards),
            Key::Right => Binding::Run(Command::SeekForwards),
            Key::Down => Binding::Run(Command::Down),
            Key::Up => Binding::Run(Command::Up),
            Key::PageDown => Binding::Run(Command::JumpDown),
            Key::PageUp => Binding::Run(Command::JumpUp),
            Key::Enter => if *typing {
                Binding::Run(Command::Searching(false))
            } else {
                Binding::Run(Command::Play)
            },
            Key::Backspace => if *typing {
                Binding::Run(Command::BackspaceSearch)
            } else {
                Binding::Ignore
            },
            Key::Esc => Binding::Run(Command::QuitSearch),
            Key::Other => Binding::Ignore,
        },
    };
    match binding {
        Binding::Run(Command::Searching(on)) => {
            *typing = on;
        },
        Binding::Run(Command::QuitSearch) => {
            *typing = false;
        },
        _ => {},
    }
    binding
}

fn bind_letter(c: char, ctrl: bool) -> (binding: Binding)
    ensures
        binding == letter(c, ctrl),
{
    if c == 'q' {
        Binding::Run(Command::Quit)
    } else if c == 'r' {
        Binding::Run(Command::ToggleRepeat)
    } else if c == 'R' {
        Binding::Run(Command::ToggleRandom)
    } else if c == 's' {
        Binding::Run(Command::ToggleSingle)
    } else if c == 'S' {
        Binding::Run(Command::ToggleOneshot)
    } else if c == 'c' {
        Binding::Run(Command::ToggleConsume)
    } else if c == 'p' {
        Binding::Run(Command::TogglePause)
    } else if c == ';' {
        Binding::Run(Command::Stop)
    } else if c == 'h' {
        Binding::Run(Command::SeekBackwards)
    } else if c == 'l' {
        Binding::Run(Command::SeekForwards)
    } else if c == 'H' {
        Binding::Run(Command::Previous)
    } else if c == 'L' {
        Binding::Run(Command::Next)
    } else if c == ' ' {
        Binding::Run(Command::Reselect)
    } else if c == 'j' {
        Binding::Run(Command::Down)
    } else if c == 'k' {
        Binding::Run(Command::Up)
    } else if c == 'J' || (c == 'd' && ctrl) {
        Binding::Run(Command::JumpDown)
    } else if c == 'K' {
        Binding::Run(Command::JumpUp)
    } else if c == 'g' {
        Binding::Run(Command::GotoTop)
    } else if c == 'G' {
        Binding::Run(Command::GotoBottom)
    } else if c == '/' {
        Binding::Run(Command::Searching(true))
    } else {
        Binding::Ignore
    }
}

/// Commands keep the two cursors together: where the list on screen
/// highlights the cursor's row before a command, it does so after it.
pub proof fn cursors_stay_together(
    s: State,
    cmd: Command,
    settings: Settings,
    index: Seq<Seq<char>>,
)
    requires
        s.session().agrees(),
    ensures
        s.after(cmd, settings, index).agrees(),
{
}

/// Typing keeps the cursor on the visible rows: after a character is added
/// to the query the cursor is on a match, wherever there is a match.
pub proof fn typing_keeps_the_cursor_visible(
    s: State,
    c: char,
    settings: Settings,
    index: Seq<Seq<char>>,
)
    ensures
        ({
            let next = s.after(Command::InputSearch(c), settings, index);
            next.filtered.len() > 0 ==> next.selected < next.filtered.len()
        }),
{
}

/// Requests to the daemon leave the cursor and the search alone, but that
/// playing a song may leave the search.
pub proof fn requests_keep_the_session(
    s: State,
    cmd: Command,
    settings: Settings,
    index: Seq<Seq<char>>,
)
    requires
        s.outcome(cmd, settings) matches Step::Proceed { request: Some(_), .. },
        !(cmd is Play),
    ensures
        s.after(cmd, settings, index) == s.session(),
{
}

/// Every command that changes the session asks for the screen to be drawn.
pub proof fn changes_are_drawn(s: State, cmd: Command, settings: Settings, index: Seq<Seq<char>>)
    requires
        s.after(cmd, settings, index) != s.session(),
    ensures
        s.outcome(cmd, settings) matches Step::Proceed { updates, .. } && updates.frame,
{
}

/// A movement from a visible row ends on a visible row.
pub proof fn movement_stays_visible(from: int, len: int, cmd: Command, settings: Settings)
    requires
        0 <= from < len,
    ensures
        0 <= moved(from, len, cmd, settings) < len,
{
    lemma_mod_bound(from + settings.jump_lines, len);
    lemma_mod_bound(from - settings.jump_lines, len);
}

/// A jump up without wrapping never passes the first row: from a row
/// nearer to the top than the jump is long it ends on the first.
pub proof fn jump_up_stops_at_the_top(from: int, len: int, settings: Settings)
    requires
        0 <= from < len,
        !settings.cycle,
        from < settings.jump_lines,
    ensures
        moved(from, len, Command::JumpUp, settings) == 0,
{
}

} // verus!
