//! Rectangles of terminal cells and their division along one axis.

use crate::config::Size;
use ratatui::layout::Constraint::{Length, Max, Min, Ratio};
use ratatui::layout::Direction::{Horizontal, Vertical};
use ratatui::layout::{Layout, Rect as Area};
use vstd::prelude::*;

verus! {

/// A rectangle of terminal cells.
#[derive(Debug, Clone, Copy, PartialEq, Eq, Structural)]
pub struct Rect {
    pub x: u16,
    pub y: u16,
    pub width: u16,
    pub height: u16,
}

/// The axis along which an area is divided.
#[derive(Debug, Clone, Copy, PartialEq, Eq, Structural)]
pub enum Direction {
    /// Side by side.
    Horizontal,
    /// One below the other.
    Vertical,
}

/// What is asked of the length of one part of a divided area.
#[derive(Debug, Clone, Copy, PartialEq, Eq, Structural)]
pub enum Constraint {
    /// This share of the whole: numerator, denominator.
    Ratio(u32, u32),
    /// Exactly this many cells.
    Length(u16),
    /// At most this many cells.
    Max(u16),
    /// At least this many cells.
    Min(u16),
}

impl Rect {
    /// The length of the rectangle along an axis.
    pub open spec fn extent(self, direction: Direction) -> nat {
        match direction {
            Direction::Horizontal => self.width as nat,
            Direction::Vertical => self.height as nat,
        }
    }

    /// The rectangle spans `area` across the axis: it has the height and
    /// the top of `area` where the parts lie side by side, the width and the
    /// left edge where they lie one below the other.
    pub open spec fn spans_across(self, area: Rect, direction: Direction) -> bool {
        match direction {
            Direction::Horizontal => self.y == area.y && self.height == area.height,
            Direction::Vertical => self.x == area.x && self.width == area.width,
        }
    }

    /// Where the rectangle starts along an axis: its left edge or its top.
    pub open spec fn start(self, direction: Direction) -> int {
        match direction {
            Direction::Horizontal => self.x as int,
            Direction::Vertical => self.y as int,
        }
    }

    /// Where the rectangle ends along an axis: its start and its length.
    pub open spec fn end(self, direction: Direction) -> int {
        self.start(direction) + self.extent(direction)
    }

    /// How far along an axis the rectangle reaches on a screen whose
    /// coordinates are 16 bits wide: to its end, or to `u16::MAX` where the
    /// end lies beyond.
    pub open spec fn reach(self, direction: Direction) -> int {
        if self.end(direction) <= u16::MAX {
            self.end(direction)
        } else {
            u16::MAX as int
        }
    }

    /// The rectangle lies inside `outer`.
    pub open spec fn inside(self, outer: Rect) -> bool {
        &&& outer.x <= self.x
        &&& self.x + self.width <= outer.x + outer.width
        &&& outer.y <= self.y
        &&& self.y + self.height <= outer.y + outer.height
    }

    /// The length of the rectangle along an axis.
    pub fn length(&self, direction: Direction) -> (n: u16)
        ensures
            n == self.extent(direction),
    {
        match direction {
            Direction::Horizontal => self.width,
            Direction::Vertical => self.height,
        }
    }
}

/// The sum of the weights of the ratio entries among `sizes`.
pub open spec fn ratio_total(sizes: Seq<Size>) -> nat
    decreases sizes.len(),
{
    if sizes.len() == 0 {
        0
    } else {
        ratio_total(sizes.drop_last()) + match sizes.last() {
            Size::Ratio(weight) => weight as nat,
            _ => 0,
        }
    }
}

/// What a sizing policy asks of a part, given the sum of the weights of all
/// ratio entries beside it.
pub open spec fn constraint_of(size: Size, total: u32) -> Constraint {
    match size {
        Size::Fixed(n) => Constraint::Length(n),
        Size::Max(n) => Constraint::Max(n),
        Size::Min(n) => Constraint::Min(n),
        Size::Ratio(weight) => Constraint::Ratio(weight, total),
    }
}

/// The constraints that a list of sizing policies amounts to: each ratio
/// entry asks for its weight's share of the sum of all weights.
pub open spec fn constraints_of(sizes: Seq<Size>) -> Seq<Constraint> {
    sizes.map_values(|size: Size| constraint_of(size, ratio_total(sizes) as u32))
}

/// `chunks` lie along the axis one behind the other and fill `area`: the
/// first starts where the area starts, each next one starts where the one
/// before it ends, and the last ends where the area does (at `u16::MAX` where
/// the area reaches beyond).
pub open spec fn tiles(chunks: Seq<Rect>, area: Rect, direction: Direction) -> bool {
    chunks.len() > 0 ==> {
        &&& chunks[0].start(direction) == area.start(direction)
        &&& forall|i: int|
            0 <= i < chunks.len() - 1 ==> (#[trigger] chunks[i]).end(direction) == chunks[i
                + 1].start(direction)
        &&& chunks[chunks.len() - 1].end(direction) == area.reach(direction)
    }
}

/// `chunks` divide `area` for `parts` parts: there is one for each part, each
/// spans the area across the axis, and along the axis they fill the area
/// one behind the other.
pub open spec fn divides(chunks: Seq<Rect>, area: Rect, direction: Direction, parts: nat) -> bool {
    &&& chunks.len() == parts
    &&& forall|i: int| 0 <= i < chunks.len() ==> (#[trigger] chunks[i]).spans_across(area, direction)
    &&& tiles(chunks, area, direction)
}

/// The lengths of the first `n` chunks along the axis, summed.
pub open spec fn total_extent(chunks: Seq<Rect>, direction: Direction, n: nat) -> nat
    decreases n,
{
    if n == 0 || n > chunks.len() {
        0
    } else {
        total_extent(chunks, direction, (n - 1) as nat) + chunks[n - 1].extent(direction)
    }
}

/// `ratatui`'s `Layout::split`, for a layout without margin made of
/// `direction` and `constraints`.
///
/// The lengths along the axis come from a constraint solver and may differ
/// from run to run. What is claimed of every outcome is what the solver is
/// given as required and what the conversion of its result shows: there is
/// one rectangle for each constraint; each has the position and length of
/// `area` across the axis; the first starts at the area's start, each next
/// one where the one before it ends, and the last ends at the area's end.
/// How the length is shared among them is not claimed: the length, the
/// bounds and the ratios asked for are preferences of the solver, which it
/// may miss.
#[verifier::external_body]
fn split(area: Rect, direction: Direction, constraints: &Vec<Constraint>) -> (chunks: Vec<Rect>)
    ensures
        divides(chunks@, area, direction, constraints@.len()),
{
    let asked: Vec<_> = constraints.iter().map(|c| match *c {
        Constraint::Ratio(n, d) => Ratio(n, d),
        Constraint::Length(n) => Length(n),
        Constraint::Max(n) => Max(n),
        Constraint::Min(n) => Min(n),
    }).collect();
    let axis = match direction {
        Direction::Horizontal => Horizontal,
        Direction::Vertical => Vertical,
    };
    let whole = Area { x: area.x, y: area.y, width: area.width, height: area.height };
    let chunks = Layout::default().direction(axis).constraints(asked).split(whole);
    chunks.iter().map(|r| Rect { x: r.x, y: r.y, width: r.width, height: r.height }).collect()
}

/// Chunks that fill an area one behind the other reach, after the first
/// `n` of them, as far from the area's start as their lengths sum to, and
/// not beyond the area's end.
pub proof fn tiles_add_up(chunks: Seq<Rect>, area: Rect, direction: Direction, n: nat)
    requires
        tiles(chunks, area, direction),
        0 < n <= chunks.len(),
    ensures
        chunks[n - 1].end(direction) == area.start(direction) + total_extent(chunks, direction, n),
        chunks[n - 1].end(direction) <= area.reach(direction),
    decreases chunks.len() - n,
{
    tiles_start_behind(chunks, area, direction, n);
    if n < chunks.len() {
        tiles_add_up(chunks, area, direction, n + 1);
        assert(chunks[n - 1].end(direction) == chunks[n as int].start(direction));
    }
}

/// After the first `n` chunks the next one starts as far from the area's
/// start as their lengths sum to.
proof fn tiles_start_behind(chunks: Seq<Rect>, area: Rect, direction: Direction, n: nat)
    requires
        tiles(chunks, area, direction),
        0 < n <= chunks.len(),
    ensures
        chunks[n - 1].end(direction) == area.start(direction) + total_extent(chunks, direction, n),
    decreases n,
{
    assert(total_extent(chunks, direction, 0) == 0);
    assert(total_extent(chunks, direction, n) == total_extent(chunks, direction, (n - 1) as nat)
        + chunks[n - 1].extent(direction));
    if n > 1 {
        tiles_start_behind(chunks, area, direction, (n - 1) as nat);
        assert(chunks[n - 2].end(direction) == chunks[n - 2 + 1].start(direction));
    }
}

/// No gap and no overflow: the lengths of chunks that divide an area sum to
/// the length of the area, where there is a chunk at all and the area ends
/// within the screen's 16 bits.
pub proof fn parts_fill_the_length(chunks: Seq<Rect>, area: Rect, direction: Direction)
    requires
        divides(chunks, area, direction, chunks.len()),
        chunks.len() > 0,
        area.end(direction) <= u16::MAX,
    ensures
        total_extent(chunks, direction, chunks.len()) == area.extent(direction),
{
    tiles_add_up(chunks, area, direction, chunks.len());
}

/// Every chunk of a divided area lies inside the area.
pub proof fn parts_lie_inside(chunks: Seq<Rect>, area: Rect, direction: Direction, i: int)
    requires
        divides(chunks, area, direction, chunks.len()),
        0 <= i < chunks.len(),
    ensures
        chunks[i].inside(area),
{
    tiles_add_up(chunks, area, direction, (i + 1) as nat);
    if i > 0 {
        tiles_add_up(chunks, area, direction, i as nat);
        assert(chunks[i - 1].end(direction) == chunks[i].start(direction));
    }
    assert(chunks[i].spans_across(area, direction));
}

/// Turns sizing policies into constraints.
pub fn constraints(sizes: &[Size]) -> (r: Vec<Constraint>)
    requires
        ratio_total(sizes@) <= u32::MAX,
    ensures
        r@ == constraints_of(sizes@),
{
    let mut total: u32 = 0;
    let mut i: usize = 0;
    while i < sizes.len()
        invariant
            i <= sizes.len(),
            total == ratio_total(sizes@.take(i as int)),
            ratio_total(sizes@) <= u32::MAX,
        decreases sizes.len() - i,
    {
        proof {
            assert(sizes@.take(i + 1).drop_last() =~= sizes@.take(i as int));
            ratio_total_grows(sizes@, i + 1);
        }
        if let Size::Ratio(weight) = sizes[i] {
            total = total + weight;
        }
        i = i + 1;
    }
    assert(sizes@.take(i as int) =~= sizes@);
    let mut r: Vec<Constraint> = Vec::new();
    let mut j: usize = 0;
    while j < sizes.len()
        invariant
            j <= sizes.len(),
            total == ratio_total(sizes@),
            r@ == constraints_of(sizes@).take(j as int),
        decreases sizes.len() - j,
    {
        let c = match sizes[j] {
            Size::Fixed(n) => Constraint::Length(n),
            Size::Max(n) => Constraint::Max(n),
            Size::Min(n) => Constraint::Min(n),
            Size::Ratio(weight) => Constraint::Ratio(weight, total),
        };
        r.push(c);
        assert(r@ =~= constraints_of(sizes@).take(j + 1));
        j = j + 1;
    }
    assert(constraints_of(sizes@).take(j as int) =~= constraints_of(sizes@));
    r
}

/// The weights of the first `n` entries sum to no more than those of all.
pub proof fn ratio_total_grows(sizes: Seq<Size>, n: int)
    requires
        0 <= n <= sizes.len(),
    ensures
        ratio_total(sizes.take(n)) <= ratio_total(sizes),
    decreases sizes.len() - n,
{
    if n < sizes.len() {
        assert(sizes.take(n + 1).drop_last() =~= sizes.take(n));
        ratio_total_grows(sizes, n + 1);
    } else {
        assert(sizes.take(n) =~= sizes);
    }
}

/// A fixed entry asks for exactly its length, a minimum or maximum for its
/// bound, whatever the entries beside it are.
pub proof fn bounds_ask_for_themselves(sizes: Seq<Size>, i: int)
    requires
        0 <= i < sizes.len(),
    ensures
        sizes[i] matches Size::Fixed(n) ==> constraints_of(sizes)[i] == Constraint::Length(n),
        sizes[i] matches Size::Max(n) ==> constraints_of(sizes)[i] == Constraint::Max(n),
        sizes[i] matches Size::Min(n) ==> constraints_of(sizes)[i] == Constraint::Min(n),
{
}

/// A ratio entry asks for its weight's share of the weights of all ratio
/// entries, and its weight is no more than their sum.
pub proof fn ratios_ask_for_their_share(sizes: Seq<Size>, i: int)
    requires
        0 <= i < sizes.len(),
        ratio_total(sizes) <= u32::MAX,
    ensures
        sizes[i] matches Size::Ratio(weight) ==> constraints_of(sizes)[i] == Constraint::Ratio(
            weight,
            ratio_total(sizes) as u32,
        ) && weight <= ratio_total(sizes),
    decreases sizes.len(),
{
    if i < sizes.len() - 1 {
        ratios_ask_for_their_share(sizes.drop_last(), i);
    }
}

/// Without ratio entries the sum of their weights is zero.
pub proof fn no_ratio_no_weight(sizes: Seq<Size>)
    requires
        forall|i: int| 0 <= i < sizes.len() ==> !((#[trigger] sizes[i]) is Ratio),
    ensures
        ratio_total(sizes) == 0,
    decreases sizes.len(),
{
    if sizes.len() > 0 {
        no_ratio_no_weight(sizes.drop_last());
    }
}

/// Divides `area` along `direction` among parts with the given sizing
/// policies. There is a rectangle for each part, in order; each spans the
/// area across the axis, and along it they fill the area one behind the
/// other, without gap or overlap.
///
/// How long each part is comes from the solver. It treats the length of a
/// fixed entry, the bounds and the shares of ratio entries as preferences,
/// not as requirements: a fixed entry gets its length and a ratio entry its
/// share where the area and the other entries leave room for it, and no
/// contract here says that they do.
pub fn partition(area: Rect, direction: Direction, sizes: &[Size]) -> (chunks: Vec<Rect>)
    requires
        ratio_total(sizes@) <= u32::MAX,
    ensures
        divides(chunks@, area, direction, sizes@.len()),
{
    let constraints = constraints(sizes);
    split(area, direction, &constraints)
}

/// Whether the weights of the ratio entries sum to a number that fits in
/// 32 bits, as `constraints` and `partition` need it.
pub fn ratios_fit(sizes: &[Size]) -> (fit: bool)
    ensures
        fit == (ratio_total(sizes@) <= u32::MAX),
{
    let limit: u64 = u32::MAX as u64 + 1;
    let mut total: u64 = 0;
    let mut i: usize = 0;
    while i < sizes.len()
        invariant
            i <= sizes.len(),
            limit == u32::MAX + 1,
            total == if ratio_total(sizes@.take(i as int)) <= limit {
                ratio_total(sizes@.take(i as int))
            } else {
                limit as nat
            },
        decreases sizes.len() - i,
    {
        assert(sizes@.take(i + 1).drop_last() =~= sizes@.take(i as int));
        if let Size::Ratio(weight) = sizes[i] {
            total = total + weight as u64;
            if total > limit {
                total = limit;
            }
        }
        i = i + 1;
    }
    assert(sizes@.take(i as int) =~= sizes@);
    total < limit
}

} // verus!
