//! The template document: the declarative description of a screen.

use crate::style::Color;
use vstd::prelude::*;

verus! {

/// Which fields of a track are searched.
#[derive(Debug, Clone, Copy, PartialEq, Eq, Structural)]
pub struct SearchFields {
    pub file: bool,
    pub title: bool,
    pub artist: bool,
    pub album: bool,
}

/// The value of a switch that is on where nothing says otherwise.
pub fn yes() -> (on: bool)
    ensures
        on,
{
    true
}

/// One change to a style.
#[derive(Debug, Clone, Copy, PartialEq, Eq, Structural)]
pub enum AddStyle {
    Fg(Color),
    Bg(Color),
    Bold,
    NoBold,
    Dim,
    NoDim,
    Italic,
    NoItalic,
    Underlined,
    NoUnderlined,
    SlowBlink,
    NoSlowBlink,
    RapidBlink,
    NoRapidBlink,
    Reversed,
    NoReversed,
    Hidden,
    NoHidden,
    CrossedOut,
    NoCrossedOut,
}

/// A predicate on the player, the session and the row being drawn.
#[derive(Debug, PartialEq, Eq)]
pub enum Condition {
    Repeat,
    Random,
    Single,
    Oneshot,
    Consume,
    Playing,
    Paused,
    Stopped,
    TitleExist,
    ArtistExist,
    AlbumExist,
    QueueTitleExist,
    QueueCurrent,
    Selected,
    Searching,
    Filtered,
    Not(Box<Condition>),
    And(Box<Condition>, Box<Condition>),
    Or(Box<Condition>, Box<Condition>),
    Xor(Box<Condition>, Box<Condition>),
}

/// Inline content: literals, fields of the player state, and their
/// combinations.
#[derive(Debug, PartialEq, Eq)]
pub enum Texts {
    Text(String),
    CurrentElapsed,
    CurrentDuration,
    CurrentFile,
    CurrentTitle,
    CurrentArtist,
    CurrentAlbum,
    QueueDuration,
    QueueFile,
    QueueTitle,
    QueueArtist,
    QueueAlbum,
    Query,
    Styled(Vec<AddStyle>, Box<Texts>),
    Parts(Vec<Texts>),
    If(Condition, Box<Texts>, Option<Box<Texts>>),
}

/// A sizing policy attached to an item laid out along one axis.
#[derive(Debug, PartialEq, Eq)]
pub enum Constrained<T> {
    /// At most this many cells.
    Max(u16, T),
    /// At least this many cells.
    Min(u16, T),
    /// Exactly this many cells.
    Fixed(u16, T),
    /// A share of the space, by weight among the ratio entries beside it.
    Ratio(u32, T),
}

/// A sizing policy by itself.
#[derive(Debug, Clone, Copy, PartialEq, Eq, Structural)]
pub enum Size {
    Max(u16),
    Min(u16),
    Fixed(u16),
    Ratio(u32),
}

impl<T> Constrained<T> {
    /// The sizing policy.
    pub open spec fn size(self) -> Size {
        match self {
            Constrained::Max(n, _) => Size::Max(n),
            Constrained::Min(n, _) => Size::Min(n),
            Constrained::Fixed(n, _) => Size::Fixed(n),
            Constrained::Ratio(n, _) => Size::Ratio(n),
        }
    }

    /// The item that the policy is attached to.
    pub open spec fn item(self) -> T {
        match self {
            Constrained::Max(_, item) => item,
            Constrained::Min(_, item) => item,
            Constrained::Fixed(_, item) => item,
            Constrained::Ratio(_, item) => item,
        }
    }

    /// The sizing policy.
    pub fn get_size(&self) -> (size: Size)
        ensures
            size == self.size(),
    {
        match self {
            Constrained::Max(n, _) => Size::Max(*n),
            Constrained::Min(n, _) => Size::Min(*n),
            Constrained::Fixed(n, _) => Size::Fixed(*n),
            Constrained::Ratio(n, _) => Size::Ratio(*n),
        }
    }

    /// The item that the policy is attached to.
    pub fn get_item(&self) -> (item: &T)
        ensures
            *item == self.item(),
    {
        match self {
            Constrained::Max(_, item) => item,
            Constrained::Min(_, item) => item,
            Constrained::Fixed(_, item) => item,
            Constrained::Ratio(_, item) => item,
        }
    }
}

/// One column of the queue.
#[derive(Debug, PartialEq, Eq)]
pub struct Column {
    pub item: Constrained<Texts>,
    pub style: Vec<AddStyle>,
    pub selected_style: Vec<AddStyle>,
}

/// A panel of the screen.
#[derive(Debug, PartialEq, Eq)]
pub enum Widget {
    Rows(Vec<Constrained<Widget>>),
    Columns(Vec<Constrained<Widget>>),
    Textbox(Texts),
    TextboxC(Texts),
    TextboxR(Texts),
    Queue(Vec<Column>),
}

} // verus!
