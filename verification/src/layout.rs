//! Areas of the screen, and how they are divided.

use ratatui::layout::{Constraint as RatatuiConstraint, Direction as RatatuiDirection, Layout, Rect};
use vstd::prelude::*;

verus! {

/// A rectangle of character cells.
#[derive(Clone, Copy, Debug, PartialEq, Eq, Structural)]
pub struct Area {
    pub x: u16,
    pub y: u16,
    pub width: u16,
    pub height: u16,
}

/// The direction in which the parts of a divided area follow each other.
#[derive(Clone, Copy, Debug, PartialEq, Eq, Structural)]
pub enum Direction {
    Horizontal,
    Vertical,
}

/// How much of an area a part of it gets.
#[derive(Clone, Copy, Debug, PartialEq, Eq, Structural)]
pub enum Constraint {
    /// At least so many cells.
    Min(u16),
    /// At most so many cells.
    Max(u16),
    /// What the others leave, shared in this proportion.
    Fill(u16),
}

/// `part` lies across `area` in full: a row of it, or a column.
pub open spec fn spans(direction: Direction, part: Area, area: Area) -> bool {
    match direction {
        Direction::Vertical => part.x == area.x && part.width == area.width,
        Direction::Horizontal => part.y == area.y && part.height == area.height,
    }
}

/// `parts` divide `area`: so many rows or columns of it, each across the whole of it.
pub open spec fn divides(
    direction: Direction,
    count: nat,
    parts: Seq<Area>,
    area: Area,
) -> bool {
    &&& parts.len() == count
    &&& forall|i: int| 0 <= i < count ==> spans(direction, #[trigger] parts[i], area)
}

/// `parts` can come back from `ratatui::layout::Layout::split` for a layout of these
/// constraints in this direction, applied to `area`.
pub uninterp spec fn can_split_into(
    direction: Direction,
    constraints: Seq<Constraint>,
    area: Area,
    parts: Seq<Area>,
) -> bool;

/// `ratatui::layout::Layout::split`, on a layout made by `Layout::new`: one part for each
/// constraint, in their order, and each part across the whole area. Where a part begins
/// along the direction, and how long it is, comes from a numeric solver that walks hash
/// maps: of that it is only said that it came back for these arguments.
#[verifier::external_body]
pub(crate) fn split(direction: Direction, constraints: &[Constraint], area: Area) -> (res: Vec<Area>)
    ensures
        divides(direction, constraints@.len(), res@, area),
        can_split_into(direction, constraints@, area, res@),
{
    let direction = match direction {
        Direction::Horizontal => RatatuiDirection::Horizontal,
        Direction::Vertical => RatatuiDirection::Vertical,
    };
    let constraints = constraints.iter().map(|c| match *c {
        Constraint::Min(n) => RatatuiConstraint::Min(n),
        Constraint::Max(n) => RatatuiConstraint::Max(n),
        Constraint::Fill(n) => RatatuiConstraint::Fill(n),
    });
    let Area { x, y, width, height } = area;
    let parts = Layout::new(direction, constraints).split(Rect { x, y, width, height });
    parts.iter().map(|r| Area { x: r.x, y: r.y, width: r.width, height: r.height }).collect()
}

/// The smaller of two lengths.
pub open spec fn at_most(length: u16, limit: u16) -> u16 {
    if length <= limit {
        length
    } else {
        limit
    }
}

/// Where a length centred in the range of `outer` cells from `start` begins.
pub open spec fn centered_start(start: u16, outer: u16, length: u16) -> int {
    let at = start + (outer - length) / 2;
    if at <= u16::MAX {
        at
    } else {
        u16::MAX as int
    }
}

/// The area of the given size in the middle of `area`, cut to fit into it.
pub open spec fn centered(width: u16, height: u16, area: Area) -> Area {
    let w = at_most(width, area.width);
    let h = at_most(height, area.height);
    Area {
        x: centered_start(area.x, area.width, w) as u16,
        y: centered_start(area.y, area.height, h) as u16,
        width: w,
        height: h,
    }
}

/// The area of the given size in the middle of `area`, cut to fit into it.
pub fn centered_rect_fixed(width: u16, height: u16, area: Area) -> (res: Area)
    ensures
        res == centered(width, height, area),
{
    let w: u16 = if width <= area.width { width } else { area.width };
    let h: u16 = if height <= area.height { height } else { area.height };
    Area {
        x: area.x.saturating_add((area.width - w) / 2),
        y: area.y.saturating_add((area.height - h) / 2),
        width: w,
        height: h,
    }
}

} // verus!
