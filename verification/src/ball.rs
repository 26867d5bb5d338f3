use crate::geometry::{last_index, Position, Velocity};
use vstd::prelude::*;

verus! {

/// What a ball is, as numbers: its cell, its direction and the number of
/// unit steps it takes per tick.
pub struct BallView {
    pub x: int,
    pub y: int,
    pub dx: int,
    pub dy: int,
    pub power: int,
}

impl BallView {
    /// Both components of the direction are `-1` or `+1`.
    pub open spec fn is_unit(self) -> bool {
        &&& (self.dx == 1 || self.dx == -1)
        &&& (self.dy == 1 || self.dy == -1)
    }

    /// Whether the ball stands inside a field of the given size.
    pub open spec fn inside(self, field_width: int, field_height: int) -> bool {
        &&& 0 <= self.x <= last_index(field_width)
        &&& 0 <= self.y <= last_index(field_height)
    }

    /// Whether the next unit step would take the ball below the bottom row.
    pub open spec fn falls(self, field_height: int) -> bool {
        self.y + self.dy >= field_height
    }

    /// The ball one unit step later, as far as the edges decide: a step
    /// past the left or right edge stops at that edge and turns `dx`
    /// around; a step above the top row stays in the top row and turns
    /// `dy` downward.
    pub open spec fn advanced(self, field_width: int) -> BallView {
        let next_x = self.x + self.dx;
        let next_y = self.y + self.dy;
        let right = last_index(field_width);
        BallView {
            x: if next_x < 0 {
                0
            } else if next_x > right {
                right
            } else {
                next_x
            },
            dx: if next_x < 0 {
                1
            } else if next_x > right {
                -1
            } else {
                self.dx
            },
            y: if next_y < 0 {
                0
            } else {
                next_y
            },
            dy: if next_y < 0 {
                1
            } else {
                self.dy
            },
            power: self.power,
        }
    }

    /// The ball pulled back into a field of a new size.
    pub open spec fn clamped(self, field_width: int, field_height: int) -> BallView {
        BallView {
            x: if self.x <= last_index(field_width) {
                self.x
            } else {
                last_index(field_width)
            },
            y: if self.y <= last_index(field_height) {
                self.y
            } else {
                last_index(field_height)
            },
            ..self
        }
    }
}

/// The ball: a point that travels diagonally, `power` unit steps per tick.
#[derive(Clone, Copy, Debug, PartialEq, Eq, Structural)]
pub struct Ball {
    pub position: Position,
    pub velocity: Velocity,
    pub power: u16,
}

impl View for Ball {
    type V = BallView;

    open spec fn view(&self) -> BallView {
        BallView {
            x: self.position.x as int,
            y: self.position.y as int,
            dx: self.velocity.dx as int,
            dy: self.velocity.dy as int,
            power: self.power as int,
        }
    }
}

impl Ball {
    pub fn new(position: Position, velocity: Velocity, power: u16) -> (ball: Ball)
        ensures
            ball == (Ball { position, velocity, power }),
    {
        Ball { position, velocity, power }
    }

    pub fn x(&self) -> (x: u16)
        ensures
            x == self@.x,
    {
        self.position.x
    }

    pub fn y(&self) -> (y: u16)
        ensures
            y == self@.y,
    {
        self.position.y
    }

    pub fn dx(&self) -> (dx: i8)
        ensures
            dx == self@.dx,
    {
        self.velocity.dx
    }

    pub fn dy(&self) -> (dy: i8)
        ensures
            dy == self@.dy,
    {
        self.velocity.dy
    }

    pub fn power(&self) -> (power: u16)
        ensures
            power == self@.power,
    {
        self.power
    }

    /// Whether the next unit step would take the ball below the bottom row
    /// of a field `field_height` rows high.
    pub fn falls(&self, field_height: u16) -> (falls: bool)
        ensures
            falls == self@.falls(field_height as int),
    {
        self.position.y as i32 + self.velocity.dy as i32 >= field_height as i32
    }

    /// Takes one unit step in a field of the given size, bouncing off the
    /// left, right and top edges, and says that it did. A ball that would
    /// leave the field at the bottom stays where it is instead.
    pub fn advance(&mut self, field_width: u16, field_height: u16) -> (moved: bool)
        ensures
            moved == !old(self)@.falls(field_height as int),
            final(self)@ == if moved {
                old(self)@.advanced(field_width as int)
            } else {
                old(self)@
            },
    {
        let next_x: i32 = self.position.x as i32 + self.velocity.dx as i32;
        let next_y: i32 = self.position.y as i32 + self.velocity.dy as i32;
        if next_y >= field_height as i32 {
            return false;
        }
        let right: i32 = if field_width > 0 {
            field_width as i32 - 1
        } else {
            0
        };
        if next_x < 0 {
            self.position.x = 0;
            self.velocity.dx = 1;
        } else if next_x > right {
            self.position.x = right as u16;
            self.velocity.dx = -1;
        } else {
            self.position.x = next_x as u16;
        }
        if next_y < 0 {
            self.position.y = 0;
            self.velocity.dy = 1;
        } else {
            self.position.y = next_y as u16;
        }
        true
    }

    /// Pulls the ball back into a field of a new size.
    pub fn update_dimensions(&mut self, field_width: u16, field_height: u16)
        ensures
            final(self)@ == old(self)@.clamped(field_width as int, field_height as int),
    {
        let right = if field_width > 0 {
            field_width - 1
        } else {
            0
        };
        let bottom = if field_height > 0 {
            field_height - 1
        } else {
            0
        };
        if self.position.x > right {
            self.position.x = right;
        }
        if self.position.y > bottom {
            self.position.y = bottom;
        }
    }
}

} // verus!
