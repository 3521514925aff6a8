//! Styles of text: colours and attributes, and how modifiers change them.
//!
//! A style is a partial record. It says which colours to set, which
//! attributes to switch on and which to switch off; what it leaves open is
//! decided by whatever it is laid over.

use crate::config::AddStyle;
use vstd::prelude::*;

verus! {

/// A colour of the terminal palette.
#[derive(Debug, Clone, Copy, PartialEq, Eq, Structural)]
pub enum Color {
    Reset,
    Black,
    Red,
    Green,
    Yellow,
    Blue,
    Magenta,
    Cyan,
    Gray,
    DarkGray,
    LightRed,
    LightGreen,
    LightYellow,
    LightBlue,
    LightMagenta,
    LightCyan,
    White,
    Rgb(u8, u8, u8),
    Indexed(u8),
}

/// An attribute of text.
#[derive(Debug, Clone, Copy, PartialEq, Eq, Structural)]
pub enum Attribute {
    Bold,
    Dim,
    Italic,
    Underlined,
    SlowBlink,
    RapidBlink,
    Reversed,
    Hidden,
    CrossedOut,
}

/// A set of attributes.
#[derive(Debug, Clone, Copy, PartialEq, Eq, Structural)]
pub struct Modifier {
    pub bold: bool,
    pub dim: bool,
    pub italic: bool,
    pub underlined: bool,
    pub slow_blink: bool,
    pub rapid_blink: bool,
    pub reversed: bool,
    pub hidden: bool,
    pub crossed_out: bool,
}

impl Modifier {
    /// The set without any attribute.
    pub open spec fn none() -> Modifier {
        Modifier {
            bold: false,
            dim: false,
            italic: false,
            underlined: false,
            slow_blink: false,
            rapid_blink: false,
            reversed: false,
            hidden: false,
            crossed_out: false,
        }
    }

    /// Whether `a` is in the set.
    pub open spec fn has(self, a: Attribute) -> bool {
        match a {
            Attribute::Bold => self.bold,
            Attribute::Dim => self.dim,
            Attribute::Italic => self.italic,
            Attribute::Underlined => self.underlined,
            Attribute::SlowBlink => self.slow_blink,
            Attribute::RapidBlink => self.rapid_blink,
            Attribute::Reversed => self.reversed,
            Attribute::Hidden => self.hidden,
            Attribute::CrossedOut => self.crossed_out,
        }
    }

    /// The set with `a` put in (`on`) or taken out.
    pub open spec fn with(self, a: Attribute, on: bool) -> Modifier {
        match a {
            Attribute::Bold => Modifier { bold: on, ..self },
            Attribute::Dim => Modifier { dim: on, ..self },
            Attribute::Italic => Modifier { italic: on, ..self },
            Attribute::Underlined => Modifier { underlined: on, ..self },
            Attribute::SlowBlink => Modifier { slow_blink: on, ..self },
            Attribute::RapidBlink => Modifier { rapid_blink: on, ..self },
            Attribute::Reversed => Modifier { reversed: on, ..self },
            Attribute::Hidden => Modifier { hidden: on, ..self },
            Attribute::CrossedOut => Modifier { crossed_out: on, ..self },
        }
    }

    /// The set without any attribute.
    pub fn empty() -> (m: Modifier)
        ensures
            m == Modifier::none(),
    {
        Modifier {
            bold: false,
            dim: false,
            italic: false,
            underlined: false,
            slow_blink: false,
            rapid_blink: false,
            reversed: false,
            hidden: false,
            crossed_out: false,
        }
    }

    /// Whether `a` is in the set.
    pub fn contains(&self, a: Attribute) -> (r: bool)
        ensures
            r == self.has(a),
    {
        match a {
            Attribute::Bold => self.bold,
            Attribute::Dim => self.dim,
            Attribute::Italic => self.italic,
            Attribute::Underlined => self.underlined,
            Attribute::SlowBlink => self.slow_blink,
            Attribute::RapidBlink => self.rapid_blink,
            Attribute::Reversed => self.reversed,
            Attribute::Hidden => self.hidden,
            Attribute::CrossedOut => self.crossed_out,
        }
    }

    /// Puts `a` into the set (`on`) or takes it out.
    pub fn set(&mut self, a: Attribute, on: bool)
        ensures
            *final(self) == old(self).with(a, on),
    {
        match a {
            Attribute::Bold => self.bold = on,
            Attribute::Dim => self.dim = on,
            Attribute::Italic => self.italic = on,
            Attribute::Underlined => self.underlined = on,
            Attribute::SlowBlink => self.slow_blink = on,
            Attribute::RapidBlink => self.rapid_blink = on,
            Attribute::Reversed => self.reversed = on,
            Attribute::Hidden => self.hidden = on,
            Attribute::CrossedOut => self.crossed_out = on,
        }
    }
}

/// What to change in the look of text.
#[derive(Debug, Clone, Copy, PartialEq, Eq, Structural)]
pub struct Style {
    /// The foreground colour to set, if any.
    pub fg: Option<Color>,
    /// The background colour to set, if any.
    pub bg: Option<Color>,
    /// The attributes to switch on.
    pub add_modifier: Modifier,
    /// The attributes to switch off.
    pub sub_modifier: Modifier,
}

impl Style {
    /// The style that changes nothing.
    pub open spec fn plain() -> Style {
        Style { fg: None, bg: None, add_modifier: Modifier::none(), sub_modifier: Modifier::none() }
    }

    /// The style that also switches `a` on (`on`) or off, whatever it did
    /// with `a` before.
    pub open spec fn toggled(self, a: Attribute, on: bool) -> Style {
        Style {
            add_modifier: self.add_modifier.with(a, on),
            sub_modifier: self.sub_modifier.with(a, !on),
            ..self
        }
    }

    /// The style after one modifier.
    pub open spec fn applied(self, m: AddStyle) -> Style {
        match m {
            AddStyle::Fg(color) => Style { fg: Some(color), ..self },
            AddStyle::Bg(color) => Style { bg: Some(color), ..self },
            _ => match m.toggles() {
                Some((a, on)) => self.toggled(a, on),
                None => self,
            },
        }
    }

    /// The style after a list of modifiers, applied from the first to the
    /// last.
    pub open spec fn patched(self, mods: Seq<AddStyle>) -> Style
        decreases mods.len(),
    {
        if mods.len() == 0 {
            self
        } else {
            self.patched(mods.drop_last()).applied(mods.last())
        }
    }

    /// Whether the style switches `a` on.
    pub open spec fn adds(self, a: Attribute) -> bool {
        self.add_modifier.has(a)
    }

    /// Whether the style switches `a` off.
    pub open spec fn removes(self, a: Attribute) -> bool {
        self.sub_modifier.has(a)
    }

    /// The style that changes nothing.
    pub fn new() -> (s: Style)
        ensures
            s == Style::plain(),
    {
        Style { fg: None, bg: None, add_modifier: Modifier::empty(), sub_modifier: Modifier::empty() }
    }

    /// Applies one modifier.
    pub fn apply(&mut self, m: &AddStyle)
        ensures
            *final(self) == old(self).applied(*m),
    {
        match m {
            AddStyle::Fg(color) => {
                self.fg = Some(*color);
            },
            AddStyle::Bg(color) => {
                self.bg = Some(*color);
            },
            _ => {
                if let Some((a, on)) = m.toggle() {
                    self.add_modifier.set(a, on);
                    self.sub_modifier.set(a, !on);
                }
            },
        }
    }
}

impl AddStyle {
    /// The attribute that the modifier switches, and whether it switches it
    /// on. `None` for the two that set a colour.
    pub open spec fn toggles(self) -> Option<(Attribute, bool)> {
        match self {
            AddStyle::Fg(_) => None,
            AddStyle::Bg(_) => None,
            AddStyle::Bold => Some((Attribute::Bold, true)),
            AddStyle::NoBold => Some((Attribute::Bold, false)),
            AddStyle::Dim => Some((Attribute::Dim, true)),
            AddStyle::NoDim => Some((Attribute::Dim, false)),
            AddStyle::Italic => Some((Attribute::Italic, true)),
            AddStyle::NoItalic => Some((Attribute::Italic, false)),
            AddStyle::Underlined => Some((Attribute::Underlined, true)),
            AddStyle::NoUnderlined => Some((Attribute::Underlined, false)),
            AddStyle::SlowBlink => Some((Attribute::SlowBlink, true)),
            AddStyle::NoSlowBlink => Some((Attribute::SlowBlink, false)),
            AddStyle::RapidBlink => Some((Attribute::RapidBlink, true)),
            AddStyle::NoRapidBlink => Some((Attribute::RapidBlink, false)),
            AddStyle::Reversed => Some((Attribute::Reversed, true)),
            AddStyle::NoReversed => Some((Attribute::Reversed, false)),
            AddStyle::Hidden => Some((Attribute::Hidden, true)),
            AddStyle::NoHidden => Some((Attribute::Hidden, false)),
            AddStyle::CrossedOut => Some((Attribute::CrossedOut, true)),
            AddStyle::NoCrossedOut => Some((Attribute::CrossedOut, false)),
        }
    }

    /// The attribute that the modifier switches, and whether it switches it
    /// on. `None` for the two that set a colour.
    pub fn toggle(&self) -> (r: Option<(Attribute, bool)>)
        ensures
            r == self.toggles(),
    {
        match self {
            AddStyle::Fg(_) => None,
            AddStyle::Bg(_) => None,
            AddStyle::Bold => Some((Attribute::Bold, true)),
            AddStyle::NoBold => Some((Attribute::Bold, false)),
            AddStyle::Dim => Some((Attribute::Dim, true)),
            AddStyle::NoDim => Some((Attribute::Dim, false)),
            AddStyle::Italic => Some((Attribute::Italic, true)),
            AddStyle::NoItalic => Some((Attribute::Italic, false)),
            AddStyle::Underlined => Some((Attribute::Underlined, true)),
            AddStyle::NoUnderlined => Some((Attribute::Underlined, false)),
            AddStyle::SlowBlink => Some((Attribute::SlowBlink, true)),
            AddStyle::NoSlowBlink => Some((Attribute::SlowBlink, false)),
            AddStyle::RapidBlink => Some((Attribute::RapidBlink, true)),
            AddStyle::NoRapidBlink => Some((Attribute::RapidBlink, false)),
            AddStyle::Reversed => Some((Attribute::Reversed, true)),
            AddStyle::NoReversed => Some((Attribute::Reversed, false)),
            AddStyle::Hidden => Some((Attribute::Hidden, true)),
            AddStyle::NoHidden => Some((Attribute::Hidden, false)),
            AddStyle::CrossedOut => Some((Attribute::CrossedOut, true)),
            AddStyle::NoCrossedOut => Some((Attribute::CrossedOut, false)),
        }
    }
}

/// Lays a list of modifiers over a style, from the first to the last.
pub fn patch_style(style: Style, styles: &[AddStyle]) -> (patched: Style)
    ensures
        patched == style.patched(styles@),
{
    let mut patched = style;
    let mut i: usize = 0;
    while i < styles.len()
        invariant
            i <= styles.len(),
            patched == style.patched(styles@.take(i as int)),
        decreases styles.len() - i,
    {
        assert(styles@.take(i + 1).drop_last() =~= styles@.take(i as int));
        patched.apply(&styles[i]);
        i = i + 1;
    }
    assert(styles@.take(i as int) =~= styles@);
    patched
}

/// Putting an attribute into a set or taking it out changes whether that
/// attribute is in the set, and nothing else.
pub proof fn with_changes_one(m: Modifier, a: Attribute, on: bool, b: Attribute)
    ensures
        m.with(a, on).has(b) == (if a == b {
            on
        } else {
            m.has(b)
        }),
{
}

/// The last modifier of a list decides what it speaks of: a colour that it
/// sets is the colour of the result; an attribute that it switches is on or
/// off in the result as it says, whatever the style and the modifiers before
/// it said.
pub proof fn last_modifier_wins(style: Style, mods: Seq<AddStyle>, last: AddStyle)
    ensures
        ({
            let r = style.patched(mods.push(last));
            match last {
                AddStyle::Fg(color) => r.fg == Some(color),
                AddStyle::Bg(color) => r.bg == Some(color),
                _ => last.toggles() matches Some((a, on)) && r.adds(a) == on && r.removes(a) == !on,
            }
        }),
{
    assert(mods.push(last).drop_last() =~= mods);
    let before = style.patched(mods);
    assert(style.patched(mods.push(last)) == before.applied(last));
    if let Some((a, on)) = last.toggles() {
        with_changes_one(before.add_modifier, a, on, a);
        with_changes_one(before.sub_modifier, a, !on, a);
    }
}

/// A modifier changes nothing but what it speaks of: the other colour and
/// the other attributes stay as they were.
pub proof fn modifier_keeps_the_rest(style: Style, m: AddStyle, other: Attribute)
    ensures
        !(m is Fg) ==> style.applied(m).fg == style.fg,
        !(m is Bg) ==> style.applied(m).bg == style.bg,
        !(m.toggles() matches Some((a, _)) && a == other) ==> {
            &&& style.applied(m).adds(other) == style.adds(other)
            &&& style.applied(m).removes(other) == style.removes(other)
        },
{
    if let Some((a, on)) = m.toggles() {
        with_changes_one(style.add_modifier, a, on, other);
        with_changes_one(style.sub_modifier, a, !on, other);
        assert(style.applied(m) == style.toggled(a, on));
    }
}

/// An attribute is never switched both on and off: a style made from the
/// plain one by modifiers alone adds and removes disjoint sets.
pub proof fn patched_is_consistent(mods: Seq<AddStyle>, a: Attribute)
    ensures
        !(Style::plain().patched(mods).adds(a) && Style::plain().patched(mods).removes(a)),
    decreases mods.len(),
{
    if mods.len() > 0 {
        patched_is_consistent(mods.drop_last(), a);
        let before = Style::plain().patched(mods.drop_last());
        if let Some((b, on)) = mods.last().toggles() {
            with_changes_one(before.add_modifier, b, on, a);
            with_changes_one(before.sub_modifier, b, !on, a);
            assert(before.applied(mods.last()) == before.toggled(b, on));
        }
    }
}

} // verus!
