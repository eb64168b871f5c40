//! Rectangles on the screen, and how an area is divided among the parts
//! of a component.

use vstd::prelude::*;

verus! {

/// A cell of the screen.
#[derive(Debug, Clone, Copy, PartialEq, Eq, Structural)]
pub struct Position {
    pub x: u16,
    pub y: u16,
}

/// The size of the screen.
#[derive(Debug, Clone, Copy, PartialEq, Eq, Structural)]
pub struct Size {
    pub width: u16,
    pub height: u16,
}

/// A rectangular area of the screen.
#[derive(Debug, Clone, Copy, PartialEq, Eq, Structural)]
pub struct Rect {
    pub x: u16,
    pub y: u16,
    pub width: u16,
    pub height: u16,
}

/// The direction in which an area is divided.
#[derive(Debug, Clone, Copy, PartialEq, Eq, Structural)]
pub enum Direction {
    Horizontal,
    Vertical,
}

/// What is asked of one part when an area is divided.
#[derive(Debug, Clone, Copy, PartialEq, Eq, Structural)]
pub enum Constraint {
    /// A fixed number of cells.
    Length(u16),
    /// A share of what the other parts leave, by weight.
    Fill(u16),
}

impl Rect {
    /// The first column to the right of the area, held to the largest
    /// column there is.
    pub open spec fn spec_right(self) -> int {
        if self.x + self.width > u16::MAX {
            u16::MAX as int
        } else {
            self.x + self.width
        }
    }

    /// The first row below the area, held to the largest row there is.
    pub open spec fn spec_bottom(self) -> int {
        if self.y + self.height > u16::MAX {
            u16::MAX as int
        } else {
            self.y + self.height
        }
    }

    /// Tells whether the cell lies inside the area.
    pub open spec fn spec_contains(self, position: Position) -> bool {
        self.x <= position.x && position.x < self.spec_right() && self.y <= position.y
            && position.y < self.spec_bottom()
    }

    /// Tells whether the part has the extent of the area across the
    /// direction of the division.
    pub open spec fn spec_spans(self, direction: Direction, area: Rect) -> bool {
        match direction {
            Direction::Horizontal => self.y == area.y && self.height == area.height,
            Direction::Vertical => self.x == area.x && self.width == area.width,
        }
    }

    /// The area without a margin of `horizontal` columns on each side and
    /// `vertical` rows above and below. An area too small for the margin
    /// gives the empty area at the origin.
    pub open spec fn spec_inner(self, horizontal: u16, vertical: u16) -> Rect {
        let across = spec_saturate(2 * horizontal);
        let down = spec_saturate(2 * vertical);
        if self.width < across || self.height < down {
            Rect { x: 0, y: 0, width: 0, height: 0 }
        } else {
            Rect {
                x: spec_saturate(self.x + horizontal),
                y: spec_saturate(self.y + vertical),
                width: (self.width - across) as u16,
                height: (self.height - down) as u16,
            }
        }
    }

    /// The area without a margin on each side.
    pub fn inner(&self, horizontal: u16, vertical: u16) -> (r: Rect)
        ensures
            r == self.spec_inner(horizontal, vertical),
    {
        area_inner(*self, horizontal, vertical)
    }

    /// The area inside the borders of a block: each border takes one line
    /// or column from its side, as far as there is one to take, and the
    /// corner moves in past a left or a top border, though not past the
    /// far edge. The borders are a set of bits.
    pub open spec fn spec_within_borders(self, borders: u8) -> Rect {
        let left = borders & BORDER_LEFT != 0;
        let top = borders & BORDER_TOP != 0;
        let right = borders & BORDER_RIGHT != 0;
        let bottom = borders & BORDER_BOTTOM != 0;
        let width = if left {
            spec_less_one(self.width)
        } else {
            self.width
        };
        let height = if top {
            spec_less_one(self.height)
        } else {
            self.height
        };
        Rect {
            x: if left {
                spec_step_in(self.x, self.spec_right())
            } else {
                self.x
            },
            y: if top {
                spec_step_in(self.y, self.spec_bottom())
            } else {
                self.y
            },
            width: if right {
                spec_less_one(width)
            } else {
                width
            },
            height: if bottom {
                spec_less_one(height)
            } else {
                height
            },
        }
    }

    /// The area inside the borders of a block.
    pub fn within_borders(&self, borders: u8) -> (r: Rect)
        ensures
            r == self.spec_within_borders(borders),
    {
        area_within_borders(*self, borders)
    }

    /// Tells whether the cell lies inside the area.
    pub fn contains(&self, position: Position) -> (r: bool)
        ensures
            r == self.spec_contains(position),
    {
        area_contains(*self, position)
    }

    /// How far the area reaches along the direction, from its corner to its
    /// far edge.
    pub open spec fn spec_extent(self, direction: Direction) -> int {
        match direction {
            Direction::Horizontal => self.spec_right() - self.x,
            Direction::Vertical => self.spec_bottom() - self.y,
        }
    }

    /// Tells whether the constraints are all fixed lengths that fit into
    /// the area one after the other.
    pub open spec fn spec_lengths_fit(self, direction: Direction, constraints: Seq<Constraint>) -> bool {
        &&& forall|i: int| 0 <= i < constraints.len() ==> (#[trigger] constraints[i]) is Length
        &&& spec_lengths_upto(constraints, constraints.len()) <= self.spec_extent(direction)
    }

    /// The part of the area that constraint `i` gets where the constraints
    /// are fixed lengths that fit: it starts where the lengths before it
    /// end, and is as long as its own length.
    pub open spec fn spec_length_part(
        self,
        direction: Direction,
        constraints: Seq<Constraint>,
        i: int,
    ) -> Rect {
        let before = spec_lengths_upto(constraints, i as nat);
        let length = spec_length(constraints[i]);
        match direction {
            Direction::Horizontal => Rect {
                x: (self.x + before) as u16,
                y: self.y,
                width: length as u16,
                height: self.height,
            },
            Direction::Vertical => Rect {
                x: self.x,
                y: (self.y + before) as u16,
                width: self.width,
                height: length as u16,
            },
        }
    }

    /// Divides the area in the given direction, one part for each constraint,
    /// in their order. Across the direction each part has the extent of the
    /// area. Fixed lengths that fit into the area are laid out from its
    /// start, one after the other; how long the parts are under any other
    /// constraints is left to the layout engine.
    pub fn split(&self, direction: Direction, constraints: &Vec<Constraint>) -> (r: Vec<Rect>)
        ensures
            r.len() == constraints.len(),
            forall|i: int| 0 <= i < r.len() ==> (#[trigger] r[i]).spec_spans(direction, *self),
            self.spec_lengths_fit(direction, constraints@) ==> forall|i: int|
                0 <= i < r.len() ==> #[trigger] r[i] == self.spec_length_part(
                    direction,
                    constraints@,
                    i,
                ),
    {
        split_area(direction, constraints, *self)
    }
}

/// The length that a constraint fixes; zero for a constraint that fixes none.
pub open spec fn spec_length(constraint: Constraint) -> int {
    match constraint {
        Constraint::Length(n) => n as int,
        _ => 0,
    }
}

/// The sum of the lengths that the first `n` constraints fix.
pub open spec fn spec_lengths_upto(constraints: Seq<Constraint>, n: nat) -> int
    decreases n,
{
    if n == 0 {
        0
    } else {
        spec_lengths_upto(constraints, (n - 1) as nat) + spec_length(constraints[n - 1])
    }
}

/// The bit of the border along the top of a block.
pub const BORDER_TOP: u8 = 1;

/// The bit of the border along the right side of a block.
pub const BORDER_RIGHT: u8 = 2;

/// The bit of the border along the bottom of a block.
pub const BORDER_BOTTOM: u8 = 4;

/// The bit of the border along the left side of a block.
pub const BORDER_LEFT: u8 = 8;

/// One less than the number, but not less than zero.
pub open spec fn spec_less_one(n: u16) -> u16 {
    if n >= 1 {
        (n - 1) as u16
    } else {
        0
    }
}

/// The coordinate one step further in, but not past the far edge.
pub open spec fn spec_step_in(from: u16, edge: int) -> u16 {
    if from + 1 > edge {
        edge as u16
    } else {
        (from + 1) as u16
    }
}

/// A number held to the largest value of sixteen bits.
pub open spec fn spec_saturate(n: int) -> u16 {
    if n > u16::MAX {
        u16::MAX
    } else {
        n as u16
    }
}

/// `ratatui::layout::Rect::inner`: the margin, doubled and saturating, is
/// taken from the width and the height, and the corner moves in by the
/// margin, saturating; an area smaller than the doubled margin gives the
/// empty area at the origin.
#[verifier::external_body]
fn area_inner(area: Rect, horizontal: u16, vertical: u16) -> (r: Rect)
    ensures
        r == area.spec_inner(horizontal, vertical),
{
    let outer = ratatui::layout::Rect { x: area.x, y: area.y, width: area.width, height: area.height };
    let p = outer.inner(ratatui::layout::Margin { horizontal, vertical });
    Rect { x: p.x, y: p.y, width: p.width, height: p.height }
}

/// `ratatui::widgets::Block::inner` of a block without title or padding
/// whose borders are the given bits (`Borders::from_bits_truncate`): past a
/// left border the area starts one column further in, though not past its
/// right edge, and is one column less wide; past a top border likewise for
/// rows; a right border takes one more column and a bottom border one more
/// row; nothing goes below zero.
#[verifier::external_body]
fn area_within_borders(area: Rect, borders: u8) -> (r: Rect)
    ensures
        r == area.spec_within_borders(borders),
{
    let outer = ratatui::layout::Rect { x: area.x, y: area.y, width: area.width, height: area.height };
    let sides = ratatui::widgets::Borders::from_bits_truncate(borders);
    let p = ratatui::widgets::Block::new().borders(sides).inner(outer);
    Rect { x: p.x, y: p.y, width: p.width, height: p.height }
}

/// `ratatui::layout::Rect::contains`: the cell is inside when its column is
/// at least `x` and below the right edge, and its row is at least `y` and
/// below the bottom edge, both edges saturating at the largest value.
#[verifier::external_body]
fn area_contains(area: Rect, position: Position) -> (r: bool)
    ensures
        r == area.spec_contains(position),
{
    let outer = ratatui::layout::Rect { x: area.x, y: area.y, width: area.width, height: area.height };
    outer.contains(ratatui::layout::Position { x: position.x, y: position.y })
}

/// `ratatui::layout::Layout::split` on a layout made by `Layout::new` from
/// the direction and the constraints, without margin or spacing and with
/// the default alignment to the start: it gives one part for each
/// constraint, and each part keeps the area's extent across the direction.
/// A `Length` sets the size of its part to the given amount, and the parts
/// are aligned to the start, so lengths that fit into the area lie one
/// after the other from its start. Nothing is claimed of the sizes that
/// the solver picks under any other constraints.
#[verifier::external_body]
fn split_area(direction: Direction, constraints: &Vec<Constraint>, area: Rect) -> (r: Vec<Rect>)
    ensures
        r.len() == constraints.len(),
        forall|i: int| 0 <= i < r.len() ==> (#[trigger] r[i]).spec_spans(direction, area),
        area.spec_lengths_fit(direction, constraints@) ==> forall|i: int|
            0 <= i < r.len() ==> #[trigger] r[i] == area.spec_length_part(
                direction,
                constraints@,
                i,
            ),
{
    let parts = constraints.iter().map(|c| match *c {
        Constraint::Length(n) => ratatui::layout::Constraint::Length(n),
        Constraint::Fill(n) => ratatui::layout::Constraint::Fill(n),
    });
    let way = match direction {
        Direction::Horizontal => ratatui::layout::Direction::Horizontal,
        Direction::Vertical => ratatui::layout::Direction::Vertical,
    };
    let outer = ratatui::layout::Rect { x: area.x, y: area.y, width: area.width, height: area.height };
    let split = ratatui::layout::Layout::new(way, parts).split(outer);
    split.iter().map(|p| Rect { x: p.x, y: p.y, width: p.width, height: p.height }).collect()
}

} // verus!
