use crate::geometry::last_index;
use vstd::prelude::*;

verus! {

/// What a bar is, as numbers: its leftmost column, its row, its width and
/// the width of the field it lives in.
pub struct BarView {
    pub x: int,
    pub y: int,
    pub width: int,
    pub field_width: int,
}

impl BarView {
    /// The rightmost column the bar's left end may stand in. A bar wider
    /// than the field is pinned to column zero.
    pub open spec fn max_x(self) -> int {
        if self.field_width >= self.width {
            self.field_width - self.width
        } else {
            0
        }
    }

    pub open spec fn inv(self) -> bool {
        &&& 0 <= self.x <= self.max_x()
        &&& 0 <= self.y <= u16::MAX
        &&& 0 <= self.width <= u16::MAX
        &&& 0 <= self.field_width <= u16::MAX
    }

    /// A bar in the middle of the bottom row of a field.
    pub open spec fn centered(width: int, field_width: int, field_height: int) -> BarView {
        BarView {
            x: if field_width >= width {
                (field_width - width) / 2
            } else {
                0
            },
            y: last_index(field_height),
            width,
            field_width,
        }
    }

    pub open spec fn moved_left(self) -> BarView {
        BarView { x: if self.x > 0 { self.x - 1 } else { self.x }, ..self }
    }

    pub open spec fn moved_right(self) -> BarView {
        BarView { x: if self.x < self.max_x() { self.x + 1 } else { self.x }, ..self }
    }

    /// The bar after the field has changed its size: on the new bottom
    /// row, and pushed left as far as the new width demands.
    pub open spec fn resized(self, field_width: int, field_height: int) -> BarView {
        let fitted = BarView { y: last_index(field_height), field_width, ..self };
        BarView { x: if self.x <= fitted.max_x() { self.x } else { fitted.max_x() }, ..fitted }
    }

    /// Whether the cell `(x, y)` lies on the bar.
    pub open spec fn covers(self, x: int, y: int) -> bool {
        y == self.y && self.x <= x < self.x + self.width
    }
}

/// The paddle: a horizontal run of cells that moves along its row and
/// never leaves the field.
#[derive(Clone, Copy, Debug)]
pub struct Bar {
    x: u16,
    y: u16,
    width: u16,
    field_width: u16,
}

impl View for Bar {
    type V = BarView;

    closed spec fn view(&self) -> BarView {
        BarView {
            x: self.x as int,
            y: self.y as int,
            width: self.width as int,
            field_width: self.field_width as int,
        }
    }
}

impl Bar {
    /// Holds of every value of this type.
    #[verifier::type_invariant]
    pub open spec fn well_formed(self) -> bool {
        self@.inv()
    }

    /// A bar of the given width in the middle of the bottom row.
    pub fn centered(width: u16, field_width: u16, field_height: u16) -> (bar: Bar)
        ensures
            bar@ == BarView::centered(width as int, field_width as int, field_height as int),
            bar@.inv(),
    {
        Bar {
            x: if field_width >= width {
                (field_width - width) / 2
            } else {
                0
            },
            y: if field_height > 0 {
                field_height - 1
            } else {
                0
            },
            width,
            field_width,
        }
    }

    /// A bar whose left end stands in column `x` of the bottom row, if it
    /// fits there.
    pub fn placed(x: u16, width: u16, field_width: u16, field_height: u16) -> (bar: Option<Bar>)
        ensures
            ({
                let asked = BarView {
                    x: x as int,
                    y: last_index(field_height as int),
                    width: width as int,
                    field_width: field_width as int,
                };
                match bar {
                    Some(bar) => asked.inv() && bar@ == asked,
                    None => !asked.inv(),
                }
            }),
    {
        let max_x = if field_width >= width {
            field_width - width
        } else {
            0
        };
        if x <= max_x {
            Some(
                Bar {
                    x,
                    y: if field_height > 0 {
                        field_height - 1
                    } else {
                        0
                    },
                    width,
                    field_width,
                },
            )
        } else {
            None
        }
    }

    /// The column of the bar's left end.
    pub fn x(&self) -> (x: u16)
        ensures
            x == self@.x,
            self@.inv(),
    {
        proof {
            use_type_invariant(self);
        }
        self.x
    }

    /// The bar's row.
    pub fn y(&self) -> (y: u16)
        ensures
            y == self@.y,
            self@.inv(),
    {
        proof {
            use_type_invariant(self);
        }
        self.y
    }

    /// The number of cells the bar spans.
    pub fn width(&self) -> (width: u16)
        ensures
            width == self@.width,
            self@.inv(),
    {
        proof {
            use_type_invariant(self);
        }
        self.width
    }

    /// The width of the field that bounds the bar.
    pub fn field_width(&self) -> (field_width: u16)
        ensures
            field_width == self@.field_width,
            self@.inv(),
    {
        proof {
            use_type_invariant(self);
        }
        self.field_width
    }

    /// Whether the cell `(x, y)` lies on the bar.
    pub fn covers(&self, x: u16, y: u16) -> (covered: bool)
        ensures
            covered == self@.covers(x as int, y as int),
    {
        y == self.y && self.x <= x && x - self.x < self.width
    }

    /// Moves the bar one column to the left, unless it already touches
    /// the left edge.
    pub fn move_left(&mut self)
        ensures
            final(self)@ == old(self)@.moved_left(),
            final(self)@.inv(),
    {
        proof {
            use_type_invariant(&*self);
        }
        if self.x > 0 {
            self.x = self.x - 1;
        }
    }

    /// Moves the bar one column to the right, unless its right end already
    /// touches the right edge.
    pub fn move_right(&mut self)
        ensures
            final(self)@ == old(self)@.moved_right(),
            final(self)@.inv(),
    {
        proof {
            use_type_invariant(&*self);
        }
        if self.width <= self.field_width && self.x < self.field_width - self.width {
            self.x = self.x + 1;
        }
    }

    /// Fits the bar into a field of a new size: it drops to the new bottom
    /// row and is pushed left if it would stick out on the right.
    pub fn update_dimensions(&mut self, field_width: u16, field_height: u16)
        ensures
            final(self)@ == old(self)@.resized(field_width as int, field_height as int),
            final(self)@.inv(),
    {
        proof {
            use_type_invariant(&*self);
        }
        let max_x = if field_width >= self.width {
            field_width - self.width
        } else {
            0
        };
        *self = Bar {
            x: if self.x <= max_x {
                self.x
            } else {
                max_x
            },
            y: if field_height > 0 {
                field_height - 1
            } else {
                0
            },
            width: self.width,
            field_width,
        };
    }
}

} // verus!
