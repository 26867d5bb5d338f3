use vstd::prelude::*;

verus! {

/// The last index of a run of `extent` cells. An empty run is treated as
/// if it had the single index zero, so that every entity always has a
/// place to stand.
pub open spec fn last_index(extent: int) -> int {
    if extent > 0 {
        extent - 1
    } else {
        0
    }
}

/// A cell of the playing field. Columns count from the left edge and rows
/// from the top edge, both starting at zero.
#[derive(Clone, Copy, Debug, PartialEq, Eq, Structural)]
pub struct Position {
    pub x: u16,
    pub y: u16,
}

impl Position {
    pub fn new(x: u16, y: u16) -> (position: Position)
        ensures
            position.x == x,
            position.y == y,
    {
        Position { x, y }
    }

    pub fn x(&self) -> (x: u16)
        ensures
            x == self.x,
    {
        self.x
    }

    pub fn y(&self) -> (y: u16)
        ensures
            y == self.y,
    {
        self.y
    }
}

/// The ball's direction of travel: one cell per step along each axis.
/// A positive `dx` points right and a positive `dy` points down.
#[derive(Clone, Copy, Debug, PartialEq, Eq, Structural)]
pub struct Velocity {
    pub dx: i8,
    pub dy: i8,
}

impl Velocity {
    /// Both components are `-1` or `+1`: the ball only moves diagonally.
    pub open spec fn is_unit(self) -> bool {
        &&& (self.dx == 1 || self.dx == -1)
        &&& (self.dy == 1 || self.dy == -1)
    }

    /// The diagonal with the signs of `dx` and `dy`, a zero counting as
    /// positive.
    pub open spec fn spec_diagonal(dx: i8, dy: i8) -> Velocity {
        Velocity { dx: if dx < 0 { -1i8 } else { 1i8 }, dy: if dy < 0 { -1i8 } else { 1i8 } }
    }

    /// Builds the unit diagonal that points the way `dx` and `dy` do.
    pub fn diagonal(dx: i8, dy: i8) -> (velocity: Velocity)
        ensures
            velocity == Self::spec_diagonal(dx, dy),
            velocity.is_unit(),
    {
        Velocity { dx: if dx < 0 { -1 } else { 1 }, dy: if dy < 0 { -1 } else { 1 } }
    }

    pub fn dx(&self) -> (dx: i8)
        ensures
            dx == self.dx,
    {
        self.dx
    }

    pub fn dy(&self) -> (dy: i8)
        ensures
            dy == self.dy,
    {
        self.dy
    }
}

} // verus!
