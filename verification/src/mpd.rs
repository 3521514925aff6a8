//! The daemon's line protocol: the records it reports and the decoding of
//! its responses.
//!
//! A response is a sequence of lines. It is read from the left up to the
//! first line `OK`, or to its end where there is none; what follows is
//! ignored.

use crate::config::SearchFields;
use crate::strings::{
    decimal, lowercase, parse_number, parse_seconds, push_char, push_decimal, same, seconds,
    starts_with, strip_prefix, to_lowercase, capped, decimal_text,
};
use vstd::prelude::*;
use vstd::string::StringExecFns;

verus! {

/// What the player is doing.
#[derive(Debug, Clone, Copy, PartialEq, Eq, Structural)]
pub enum PlayerState {
    Play,
    Pause,
    Stop,
}

/// The current song: the one that is playing or paused, or that a stopped
/// player stands at.
#[derive(Debug, Clone, Copy, PartialEq, Eq, Structural)]
pub struct Song {
    /// Its position in the queue.
    pub pos: usize,
    /// Seconds played so far; 0 where the daemon reports none.
    pub elapsed: u16,
}

/// A snapshot of the player.
#[derive(Debug, Clone, Copy, PartialEq, Eq)]
pub struct Status {
    pub repeat: bool,
    pub random: bool,
    /// `Some(false)`: off; `Some(true)`: on; `None`: oneshot.
    pub single: Option<bool>,
    pub consume: bool,
    pub queue_len: usize,
    pub state: PlayerState,
    pub song: Option<Song>,
}

/// One entry of the queue.
#[derive(Debug, Clone, PartialEq, Eq)]
pub struct Track {
    pub file: String,
    pub artist: Option<String>,
    pub album: Option<String>,
    pub title: Option<String>,
    /// Its duration in seconds.
    pub time: u16,
}

/// A track as plain values.
pub struct TrackView {
    pub file: Seq<char>,
    pub artist: Option<Seq<char>>,
    pub album: Option<Seq<char>>,
    pub title: Option<Seq<char>>,
    pub time: u16,
}

/// The characters of an optional text.
pub open spec fn text_of(field: Option<String>) -> Option<Seq<char>> {
    match field {
        Some(s) => Some(s@),
        None => None,
    }
}

impl View for Track {
    type V = TrackView;

    open spec fn view(&self) -> TrackView {
        TrackView {
            file: self.file@,
            artist: text_of(self.artist),
            album: text_of(self.album),
            title: text_of(self.title),
            time: self.time,
        }
    }
}

/// The tracks of a queue as plain values.
pub open spec fn track_views(tracks: Seq<Track>) -> Seq<TrackView> {
    tracks.map_values(|t: Track| t@)
}

/// The characters of each line.
pub open spec fn line_views(lines: Seq<String>) -> Seq<Seq<char>> {
    lines.map_values(|l: String| l@)
}

/// How a response can be malformed.
#[derive(Debug, Clone, Copy, PartialEq, Eq, Structural)]
pub enum ProtocolError {
    /// The daemon did not open with its greeting.
    BadGreeting,
    /// The response ended before it was complete.
    IncompleteResponse,
    /// A numeric field does not hold a number that fits.
    InvalidNumber,
}

/// The bytes every greeting starts with: `OK MPD `.
pub open spec fn greeting() -> Seq<u8> {
    seq![79u8, 75u8, 32u8, 77u8, 80u8, 68u8, 32u8]
}

/// Accepts the first seven bytes that the daemon sent if they are its
/// greeting.
pub fn check_greeting(bytes: &[u8]) -> (r: Result<(), ProtocolError>)
    ensures
        r == if bytes@ == greeting() {
            Ok::<(), ProtocolError>(())
        } else {
            Err(ProtocolError::BadGreeting)
        },
{
    if bytes.len() == 7 && bytes[0] == 79 && bytes[1] == 75 && bytes[2] == 32 && bytes[3] == 77
        && bytes[4] == 80 && bytes[5] == 68 && bytes[6] == 32 {
        assert(bytes@ =~= greeting());
        Ok(())
    } else {
        assert(greeting().len() == 7);
        assert(bytes@ != greeting()) by {
            if bytes@ == greeting() {
                assert(bytes@[0] == 79 && bytes@[1] == 75 && bytes@[2] == 32 && bytes@[3] == 77
                    && bytes@[4] == 80 && bytes@[5] == 68 && bytes@[6] == 32);
            }
        }
        Err(ProtocolError::BadGreeting)
    }
}

/// The line that ends a successful response.
pub open spec fn is_end(line: Seq<char>) -> bool {
    line == "OK"@
}

/// The line that ends a response: `OK`, or the daemon's refusal, which
/// starts with `ACK `.
pub open spec fn is_last(line: Seq<char>) -> bool {
    is_end(line) || "ACK "@.is_prefix_of(line)
}

/// Whether `line` ends a successful response.
pub fn is_ok(line: &str) -> (r: bool)
    ensures
        r == is_end(line@),
{
    same(line, "OK")
}

/// Whether `line` ends the response to a command, accepted or refused.
pub fn is_final(line: &str) -> (r: bool)
    ensures
        r == is_last(line@),
{
    same(line, "OK") || starts_with(line, "ACK ")
}

/// What follows `prefix` in `line`.
pub open spec fn after(line: Seq<char>, prefix: Seq<char>) -> Seq<char> {
    line.skip(prefix.len() as int)
}

/// The number that a text denotes, if it is one and at most `max`.
pub open spec fn number(s: Seq<char>, max: nat) -> Option<nat> {
    match decimal(s) {
        Some(n) if n <= max => Some(n),
        _ => None,
    }
}

/// The value of a field: what follows `prefix` in `line`, where `line`
/// starts with it.
fn field<'a>(line: &'a str, prefix: &str) -> (rest: Option<&'a str>)
    ensures
        match rest {
            Some(r) => prefix@.is_prefix_of(line@) && r@ == after(line@, prefix@),
            None => !prefix@.is_prefix_of(line@),
        },
{
    let rest = strip_prefix(line, prefix);
    proof {
        if let Some(r) = rest {
            assert((prefix@ + r@).subrange(0, prefix@.len() as int) =~= prefix@);
            assert((prefix@ + r@).skip(prefix@.len() as int) =~= r@);
        }
    }
    rest
}

/// Reads a position or a count.
fn index_field(s: &str) -> (r: Result<usize, ProtocolError>)
    ensures
        r == match number(s@, usize::MAX as nat) {
            Some(n) => Ok::<usize, ProtocolError>(n as usize),
            None => Err(ProtocolError::InvalidNumber),
        },
{
    match parse_number(s, usize::MAX as u64) {
        Some(n) => Ok(n as usize),
        None => Err(ProtocolError::InvalidNumber),
    }
}

/// A field on a line of its own, or nothing where the field is absent.
pub open spec fn line_of(field: Option<Seq<char>>) -> Seq<char> {
    match field {
        Some(text) => text.push('\n'),
        None => Seq::empty(),
    }
}

/// The fields that are present, each but the album followed by a newline.
pub open spec fn joined(
    file: Option<Seq<char>>,
    title: Option<Seq<char>>,
    artist: Option<Seq<char>>,
    album: Option<Seq<char>>,
) -> Seq<char> {
    line_of(file) + line_of(title) + line_of(artist) + match album {
        Some(text) => text,
        None => Seq::empty(),
    }
}

/// The characters of an optional text.
pub open spec fn str_of(field: Option<&str>) -> Option<Seq<char>> {
    match field {
        Some(s) => Some(s@),
        None => None,
    }
}

/// Joins the fields of a track into the text that a search looks through.
pub fn search_text(
    file: Option<&str>,
    title: Option<&str>,
    artist: Option<&str>,
    album: Option<&str>,
) -> (text: String)
    ensures
        text@ == joined(str_of(file), str_of(title), str_of(artist), str_of(album)),
{
    let mut text = String::new();
    if let Some(s) = file {
        text.append(s);
        push_char(&mut text, '\n');
    }
    assert(text@ =~= line_of(str_of(file)));
    if let Some(s) = title {
        text.append(s);
        push_char(&mut text, '\n');
    }
    assert(text@ =~= line_of(str_of(file)) + line_of(str_of(title)));
    if let Some(s) = artist {
        text.append(s);
        push_char(&mut text, '\n');
    }
    assert(text@ =~= line_of(str_of(file)) + line_of(str_of(title)) + line_of(str_of(artist)));
    if let Some(s) = album {
        text.append(s);
    }
    assert(text@ =~= joined(str_of(file), str_of(title), str_of(artist), str_of(album)));
    text
}

/// A field in lower case, where it is present and searched.
pub open spec fn searched(field: Option<Seq<char>>, wanted: bool) -> Option<Seq<char>> {
    match field {
        Some(text) if wanted => Some(lowercase(text)),
        _ => None,
    }
}

/// The text that a search looks through for one track: its searched fields
/// in lower case.
pub open spec fn track_text(track: TrackView, fields: SearchFields) -> Seq<char> {
    joined(
        searched(Some(track.file), fields.file),
        searched(track.title, fields.title),
        searched(track.artist, fields.artist),
        searched(track.album, fields.album),
    )
}

fn lower_field(field: &Option<String>, wanted: bool) -> (lower: Option<String>)
    ensures
        text_of(lower) == searched(text_of(*field), wanted),
{
    match field {
        Some(text) => if wanted {
            Some(to_lowercase(text.as_str()))
        } else {
            None
        },
        None => None,
    }
}

fn borrowed(field: &Option<String>) -> (r: Option<&str>)
    ensures
        str_of(r) == text_of(*field),
{
    match field {
        Some(text) => Some(text.as_str()),
        None => None,
    }
}

/// The text that a search looks through for `track`.
pub fn track_string(track: &Track, search_fields: &SearchFields) -> (text: String)
    ensures
        text@ == track_text(track@, *search_fields),
{
    let file = if search_fields.file {
        Some(to_lowercase(track.file.as_str()))
    } else {
        None
    };
    let title = lower_field(&track.title, search_fields.title);
    let artist = lower_field(&track.artist, search_fields.artist);
    let album = lower_field(&track.album, search_fields.album);
    search_text(borrowed(&file), borrowed(&title), borrowed(&artist), borrowed(&album))
}

/// What changed while the client waited.
#[derive(Debug, Clone, Copy, PartialEq, Eq, Structural)]
pub struct Changes {
    /// The queue changed.
    pub queue: bool,
    /// The player or its options changed.
    pub status: bool,
}

/// What a response to `idle` reports: the queue changed if a line says that
/// the playlist did, the status if one says that the player or the options
/// did. Other lines count for nothing.
pub open spec fn idle_changes(lines: Seq<Seq<char>>) -> Changes
    decreases lines.len(),
{
    if lines.len() == 0 || is_end(lines[0]) {
        Changes { queue: false, status: false }
    } else {
        let rest = idle_changes(lines.drop_first());
        Changes {
            queue: rest.queue || lines[0] == "changed: playlist"@,
            status: rest.status || lines[0] == "changed: options"@ || lines[0]
                == "changed: player"@,
        }
    }
}

/// Decodes the response to `idle`.
pub fn parse_idle(lines: &[String]) -> (changes: Changes)
    ensures
        changes == idle_changes(line_views(lines@)),
{
    let ghost all = line_views(lines@);
    let mut changes = Changes { queue: false, status: false };
    let mut i: usize = 0;
    assert(all.skip(0) =~= all);
    while i < lines.len()
        invariant
            i <= lines.len(),
            all == line_views(lines@),
            idle_changes(all) == (Changes {
                queue: changes.queue || idle_changes(all.skip(i as int)).queue,
                status: changes.status || idle_changes(all.skip(i as int)).status,
            }),
        decreases lines.len() - i,
    {
        let line = lines[i].as_str();
        assert(all.skip(i as int)[0] == line@);
        assert(all.skip(i as int).drop_first() =~= all.skip(i + 1));
        if same(line, "OK") {
            return changes;
        }
        if same(line, "changed: playlist") {
            changes.queue = true;
        }
        if same(line, "changed: options") || same(line, "changed: player") {
            changes.status = true;
        }
        i = i + 1;
    }
    changes
}

/// The fields of a status that a response has given so far.
#[derive(Debug, Clone, Copy, PartialEq, Eq)]
pub struct StatusDraft {
    pub repeat: Option<bool>,
    pub random: Option<bool>,
    pub single: Option<Option<bool>>,
    pub consume: Option<bool>,
    pub queue_len: Option<usize>,
    pub state: PlayerState,
    pub pos: Option<usize>,
    pub elapsed: Option<u16>,
}

/// A draft before the first line: nothing is known, and the player counts
/// as stopped until a line says otherwise.
pub open spec fn blank_status() -> StatusDraft {
    StatusDraft {
        repeat: None,
        random: None,
        single: None,
        consume: None,
        queue_len: None,
        state: PlayerState::Stop,
        pos: None,
        elapsed: None,
    }
}

/// The draft after one more line. A line that is none of those below
/// changes nothing; a numeric field that holds no number is an error. The
/// time played is read as `seconds` reads it: digits with an optional
/// fraction, and no other way of writing a number.
pub open spec fn status_line(d: StatusDraft, line: Seq<char>) -> Result<
    StatusDraft,
    ProtocolError,
> {
    if line == "repeat: 0"@ {
        Ok(StatusDraft { repeat: Some(false), ..d })
    } else if line == "repeat: 1"@ {
        Ok(StatusDraft { repeat: Some(true), ..d })
    } else if line == "random: 0"@ {
        Ok(StatusDraft { random: Some(false), ..d })
    } else if line == "random: 1"@ {
        Ok(StatusDraft { random: Some(true), ..d })
    } else if line == "single: 0"@ {
        Ok(StatusDraft { single: Some(Some(false)), ..d })
    } else if line == "single: 1"@ {
        Ok(StatusDraft { single: Some(Some(true)), ..d })
    } else if line == "single: oneshot"@ {
        Ok(StatusDraft { single: Some(None), ..d })
    } else if line == "consume: 0"@ {
        Ok(StatusDraft { consume: Some(false), ..d })
    } else if line == "consume: 1"@ {
        Ok(StatusDraft { consume: Some(true), ..d })
    } else if "playlistlength: "@.is_prefix_of(line) {
        match number(after(line, "playlistlength: "@), usize::MAX as nat) {
            Some(n) => Ok(StatusDraft { queue_len: Some(n as usize), ..d }),
            None => Err(ProtocolError::InvalidNumber),
        }
    } else if line == "state: play"@ {
        Ok(StatusDraft { state: PlayerState::Play, ..d })
    } else if line == "state: pause"@ {
        Ok(StatusDraft { state: PlayerState::Pause, ..d })
    } else if "song: "@.is_prefix_of(line) {
        match number(after(line, "song: "@), usize::MAX as nat) {
            Some(n) => Ok(StatusDraft { pos: Some(n as usize), ..d }),
            None => Err(ProtocolError::InvalidNumber),
        }
    } else if "elapsed: "@.is_prefix_of(line) {
        match seconds(after(line, "elapsed: "@)) {
            Some(n) => Ok(StatusDraft { elapsed: Some(capped(n, u16::MAX as nat) as u16), ..d }),
            None => Err(ProtocolError::InvalidNumber),
        }
    } else {
        Ok(d)
    }
}

/// The draft after the lines of a response, or the first error in them.
pub open spec fn status_scan(d: StatusDraft, lines: Seq<Seq<char>>) -> Result<
    StatusDraft,
    ProtocolError,
>
    decreases lines.len(),
{
    if lines.len() == 0 || is_end(lines[0]) {
        Ok(d)
    } else {
        match status_line(d, lines[0]) {
            Ok(next) => status_scan(next, lines.drop_first()),
            Err(e) => Err(e),
        }
    }
}

/// The status that a draft amounts to. The five options and counts are
/// owed. The song is there exactly where its queue position was reported;
/// its time is the one reported, and 0 where none was.
pub open spec fn status_of(d: StatusDraft) -> Result<Status, ProtocolError> {
    if d.repeat is Some && d.random is Some && d.single is Some && d.consume is Some
        && d.queue_len is Some {
        Ok(
            Status {
                repeat: d.repeat->0,
                random: d.random->0,
                single: d.single->0,
                consume: d.consume->0,
                queue_len: d.queue_len->0,
                state: d.state,
                song: match d.pos {
                    Some(pos) => Some(
                        Song {
                            pos,
                            elapsed: match d.elapsed {
                                Some(elapsed) => elapsed,
                                None => 0,
                            },
                        },
                    ),
                    None => None,
                },
            },
        )
    } else {
        Err(ProtocolError::IncompleteResponse)
    }
}

/// The song is there exactly where the daemon reported its queue
/// position, whether or not it reported a time played.
pub proof fn song_goes_by_the_position(d: StatusDraft)
    ensures
        status_of(d) matches Ok(status) ==> (status.song is Some <==> d.pos is Some),
        status_of(d) matches Ok(status) ==> (status.song matches Some(song) ==> Some(song.pos)
            == d.pos),
{
}

/// The status that a response reports.
pub open spec fn status_response(lines: Seq<Seq<char>>) -> Result<Status, ProtocolError> {
    match status_scan(blank_status(), lines) {
        Ok(d) => status_of(d),
        Err(e) => Err(e),
    }
}

fn read_status_line(d: StatusDraft, line: &str) -> (r: Result<StatusDraft, ProtocolError>)
    ensures
        r == status_line(d, line@),
{
    let mut d = d;
    if same(line, "repeat: 0") {
        d.repeat = Some(false);
    } else if same(line, "repeat: 1") {
        d.repeat = Some(true);
    } else if same(line, "random: 0") {
        d.random = Some(false);
    } else if same(line, "random: 1") {
        d.random = Some(true);
    } else if same(line, "single: 0") {
        d.single = Some(Some(false));
    } else if same(line, "single: 1") {
        d.single = Some(Some(true));
    } else if same(line, "single: oneshot") {
        d.single = Some(None);
    } else if same(line, "consume: 0") {
        d.consume = Some(false);
    } else if same(line, "consume: 1") {
        d.consume = Some(true);
    } else if let Some(rest) = field(line, "playlistlength: ") {
        d.queue_len = Some(index_field(rest)?);
    } else if same(line, "state: play") {
        d.state = PlayerState::Play;
    } else if same(line, "state: pause") {
        d.state = PlayerState::Pause;
    } else if let Some(rest) = field(line, "song: ") {
        d.pos = Some(index_field(rest)?);
    } else if let Some(rest) = field(line, "elapsed: ") {
        match parse_seconds(rest) {
            Some(n) => {
                d.elapsed = Some(n);
            },
            None => {
                return Err(ProtocolError::InvalidNumber);
            },
        }
    }
    Ok(d)
}

/// Decodes the response to `status`.
pub fn parse_status(lines: &[String]) -> (r: Result<Status, ProtocolError>)
    ensures
        r == status_response(line_views(lines@)),
{
    let ghost all = line_views(lines@);
    let mut d = StatusDraft {
        repeat: None,
        random: None,
        single: None,
        consume: None,
        queue_len: None,
        state: PlayerState::Stop,
        pos: None,
        elapsed: None,
    };
    let mut i: usize = 0;
    assert(all.skip(0) =~= all);
    while i < lines.len()
        invariant
            i <= lines.len(),
            all == line_views(lines@),
            status_scan(blank_status(), all) == status_scan(d, all.skip(i as int)),
        ensures
            status_scan(blank_status(), all) == Ok::<StatusDraft, ProtocolError>(d),
        decreases lines.len() - i,
    {
        let line = lines[i].as_str();
        assert(all.skip(i as int)[0] == line@);
        assert(all.skip(i as int).drop_first() =~= all.skip(i + 1));
        if same(line, "OK") {
            break ;
        }
        match read_status_line(d, line) {
            Ok(next) => {
                d = next;
            },
            Err(e) => {
                return Err(e);
            },
        }
        i = i + 1;
    }
    match (d.repeat, d.random, d.single, d.consume, d.queue_len) {
        (Some(repeat), Some(random), Some(single), Some(consume), Some(queue_len)) => Ok(
            Status {
                repeat,
                random,
                single,
                consume,
                queue_len,
                state: d.state,
                song: match d.pos {
                    Some(pos) => Some(
                        Song {
                            pos,
                            elapsed: match d.elapsed {
                                Some(elapsed) => elapsed,
                                None => 0,
                            },
                        },
                    ),
                    None => None,
                },
            },
        ),
        _ => Err(ProtocolError::IncompleteResponse),
    }
}

/// The fields of a track that a response has given since the last `file`
/// line.
pub struct Pending {
    pub file: Option<Seq<char>>,
    pub artist: Option<Seq<char>>,
    pub album: Option<Seq<char>>,
    pub title: Option<Seq<char>>,
    pub time: Option<u16>,
}

/// No track has begun.
pub open spec fn no_track() -> Pending {
    Pending { file: None, artist: None, album: None, title: None, time: None }
}

/// Closes the track that has begun, if one has: it joins the finished ones
/// if its duration was given, and is an error if not.
pub open spec fn flush(done: Seq<TrackView>, p: Pending) -> Result<Seq<TrackView>, ProtocolError> {
    match p.file {
        None => Ok(done),
        Some(file) => match p.time {
            Some(time) => Ok(
                done.push(
                    TrackView { file, artist: p.artist, album: p.album, title: p.title, time },
                ),
            ),
            None => Err(ProtocolError::IncompleteResponse),
        },
    }
}

/// The finished tracks and the one begun after one more line. A `file`
/// line closes the track before it and begins the next; a line that is none
/// of those below changes nothing.
pub open spec fn queue_line(done: Seq<TrackView>, p: Pending, line: Seq<char>) -> Result<
    (Seq<TrackView>, Pending),
    ProtocolError,
> {
    if "file: "@.is_prefix_of(line) {
        match flush(done, p) {
            Ok(tracks) => Ok(
                (
                    tracks,
                    Pending {
                        file: Some(after(line, "file: "@)),
                        artist: None,
                        album: None,
                        title: None,
                        time: None,
                    },
                ),
            ),
            Err(e) => Err(e),
        }
    } else if "Artist: "@.is_prefix_of(line) {
        Ok((done, Pending { artist: Some(after(line, "Artist: "@)), ..p }))
    } else if "Album: "@.is_prefix_of(line) {
        Ok((done, Pending { album: Some(after(line, "Album: "@)), ..p }))
    } else if "Title: "@.is_prefix_of(line) {
        Ok((done, Pending { title: Some(after(line, "Title: "@)), ..p }))
    } else if "Time: "@.is_prefix_of(line) {
        match number(after(line, "Time: "@), u16::MAX as nat) {
            Some(n) => Ok((done, Pending { time: Some(n as u16), ..p })),
            None => Err(ProtocolError::InvalidNumber),
        }
    } else {
        Ok((done, p))
    }
}

/// The tracks that the lines of a response amount to, or the first error
/// in them.
pub open spec fn queue_scan(done: Seq<TrackView>, p: Pending, lines: Seq<Seq<char>>) -> Result<
    Seq<TrackView>,
    ProtocolError,
>
    decreases lines.len(),
{
    if lines.len() == 0 || is_end(lines[0]) {
        flush(done, p)
    } else {
        match queue_line(done, p, lines[0]) {
            Ok((tracks, next)) => queue_scan(tracks, next, lines.drop_first()),
            Err(e) => Err(e),
        }
    }
}

/// The queue that a response reports.
pub open spec fn queue_response(lines: Seq<Seq<char>>) -> Result<Seq<TrackView>, ProtocolError> {
    queue_scan(Seq::empty(), no_track(), lines)
}

/// The text that a search looks through, for each track of a queue.
pub open spec fn search_index(tracks: Seq<TrackView>, fields: SearchFields) -> Seq<Seq<char>> {
    tracks.map_values(|t: TrackView| track_text(t, fields))
}

struct TrackDraft {
    file: Option<String>,
    artist: Option<String>,
    album: Option<String>,
    title: Option<String>,
    time: Option<u16>,
}

impl View for TrackDraft {
    type V = Pending;

    closed spec fn view(&self) -> Pending {
        Pending {
            file: text_of(self.file),
            artist: text_of(self.artist),
            album: text_of(self.album),
            title: text_of(self.title),
            time: self.time,
        }
    }
}

/// Closes the track that has begun and enters it in the queue and in the
/// search index.
fn close_track(
    tracks: &mut Vec<Track>,
    index: &mut Vec<String>,
    draft: TrackDraft,
    fields: &SearchFields,
) -> (r: Result<(), ProtocolError>)
    requires
        line_views(old(index)@) == search_index(track_views(old(tracks)@), *fields),
    ensures
        match r {
            Ok(()) => flush(track_views(old(tracks)@), draft@) == Ok::<
                Seq<TrackView>,
                ProtocolError,
            >(track_views(final(tracks)@)),
            Err(e) => flush(track_views(old(tracks)@), draft@) == Err::<
                Seq<TrackView>,
                ProtocolError,
            >(e) && final(tracks)@ == old(tracks)@ && final(index)@ == old(index)@,
        },
        line_views(final(index)@) == search_index(track_views(final(tracks)@), *fields),
{
    match draft.file {
        None => Ok(()),
        Some(file) => match draft.time {
            Some(time) => {
                let track = Track {
                    file,
                    artist: draft.artist,
                    album: draft.album,
                    title: draft.title,
                    time,
                };
                let text = track_string(&track, fields);
                proof {
                    assert(track_views(tracks@.push(track)) =~= track_views(tracks@).push(track@));
                    assert(line_views(index@.push(text)) =~= line_views(index@).push(text@));
                    assert(search_index(track_views(tracks@).push(track@), *fields)
                        =~= search_index(track_views(tracks@), *fields).push(
                        track_text(track@, *fields),
                    ));
                }
                index.push(text);
                tracks.push(track);
                Ok(())
            },
            None => Err(ProtocolError::IncompleteResponse),
        },
    }
}

/// Decodes the response to `playlistinfo`: the queue, and beside it the text
/// that a search looks through for each of its tracks.
pub fn parse_queue(lines: &[String], search_fields: &SearchFields) -> (r: Result<
    (Vec<Track>, Vec<String>),
    ProtocolError,
>)
    ensures
        match r {
            Ok((tracks, index)) => {
                &&& queue_response(line_views(lines@)) == Ok::<Seq<TrackView>, ProtocolError>(
                    track_views(tracks@),
                )
                &&& line_views(index@) == search_index(track_views(tracks@), *search_fields)
            },
            Err(e) => queue_response(line_views(lines@)) == Err::<Seq<TrackView>, ProtocolError>(e),
        },
{
    let ghost all = line_views(lines@);
    let mut tracks: Vec<Track> = Vec::new();
    let mut index: Vec<String> = Vec::new();
    let mut draft = TrackDraft { file: None, artist: None, album: None, title: None, time: None };
    let mut i: usize = 0;
    assert(all.skip(0) =~= all);
    assert(track_views(tracks@) =~= Seq::empty());
    assert(line_views(index@) =~= search_index(track_views(tracks@), *search_fields));
    while i < lines.len()
        invariant
            i <= lines.len(),
            all == line_views(lines@),
            queue_response(all) == queue_scan(track_views(tracks@), draft@, all.skip(i as int)),
            line_views(index@) == search_index(track_views(tracks@), *search_fields),
        ensures
            queue_response(all) == flush(track_views(tracks@), draft@),
            line_views(index@) == search_index(track_views(tracks@), *search_fields),
        decreases lines.len() - i,
    {
        let line = lines[i].as_str();
        assert(all.skip(i as int)[0] == line@);
        assert(all.skip(i as int).drop_first() =~= all.skip(i + 1));
        if same(line, "OK") {
            break ;
        }
        if let Some(rest) = field(line, "file: ") {
            let closed = draft;
            draft =
            TrackDraft {
                file: Some(String::from_str(rest)),
                artist: None,
                album: None,
                title: None,
                time: None,
            };
            match close_track(&mut tracks, &mut index, closed, search_fields) {
                Ok(()) => {},
                Err(e) => {
                    return Err(e);
                },
            }
        } else if let Some(rest) = field(line, "Artist: ") {
            draft.artist = Some(String::from_str(rest));
        } else if let Some(rest) = field(line, "Album: ") {
            draft.album = Some(String::from_str(rest));
        } else if let Some(rest) = field(line, "Title: ") {
            draft.title = Some(String::from_str(rest));
        } else if let Some(rest) = field(line, "Time: ") {
            match parse_number(rest, u16::MAX as u64) {
                Some(n) => {
                    draft.time = Some(n as u16);
                },
                None => {
                    return Err(ProtocolError::InvalidNumber);
                },
            }
        }
        i = i + 1;
    }
    match close_track(&mut tracks, &mut index, draft, search_fields) {
        Ok(()) => Ok((tracks, index)),
        Err(e) => Err(e),
    }
}

/// A request to the daemon.
#[derive(Debug, Clone, Copy, PartialEq, Eq, Structural)]
pub enum Request {
    Repeat(bool),
    Random(bool),
    /// `Some(false)`: off; `Some(true)`: on; `None`: oneshot.
    Single(Option<bool>),
    Consume(bool),
    Pause,
    Resume,
    Stop,
    SeekBackwards,
    SeekForwards,
    Previous,
    Next,
    /// Play the song at this queue position.
    Play(usize),
}

impl Request {
    /// The line that asks the daemon for this, without its newline. `seek`
    /// is the number of seconds of a seek, as text.
    pub open spec fn text(self, seek: Seq<char>) -> Seq<char> {
        match self {
            Request::Repeat(on) => if on {
                "repeat 1"@
            } else {
                "repeat 0"@
            },
            Request::Random(on) => if on {
                "random 1"@
            } else {
                "random 0"@
            },
            Request::Single(mode) => match mode {
                Some(on) => if on {
                    "single 1"@
                } else {
                    "single 0"@
                },
                None => "single oneshot"@,
            },
            Request::Consume(on) => if on {
                "consume 1"@
            } else {
                "consume 0"@
            },
            Request::Pause => "pause"@,
            Request::Resume => "play"@,
            Request::Stop => "stop"@,
            Request::SeekBackwards => "seekcur -"@ + seek,
            Request::SeekForwards => "seekcur +"@ + seek,
            Request::Previous => "previous"@,
            Request::Next => "next"@,
            Request::Play(pos) => "play "@ + decimal_text(pos as nat),
        }
    }

    /// The line that asks the daemon for this, without its newline.
    pub fn line(&self, seek: &str) -> (line: String)
        ensures
            line@ == self.text(seek@),
    {
        match self {
            Request::Repeat(on) => String::from_str(
                if *on {
                    "repeat 1"
                } else {
                    "repeat 0"
                },
            ),
            Request::Random(on) => String::from_str(
                if *on {
                    "random 1"
                } else {
                    "random 0"
                },
            ),
            Request::Single(mode) => String::from_str(
                match mode {
                    Some(on) => if *on {
                        "single 1"
                    } else {
                        "single 0"
                    },
                    None => "single oneshot",
                },
            ),
            Request::Consume(on) => String::from_str(
                if *on {
                    "consume 1"
                } else {
                    "consume 0"
                },
            ),
            Request::Pause => String::from_str("pause"),
            Request::Resume => String::from_str("play"),
            Request::Stop => String::from_str("stop"),
            Request::SeekBackwards => {
                let mut line = String::from_str("seekcur -");
                line.append(seek);
                line
            },
            Request::SeekForwards => {
                let mut line = String::from_str("seekcur +");
                line.append(seek);
                line
            },
            Request::Previous => String::from_str("previous"),
            Request::Next => String::from_str("next"),
            Request::Play(pos) => {
                let mut line = String::from_str("play ");
                push_decimal(&mut line, *pos as u64);
                line
            },
        }
    }
}

} // verus!
