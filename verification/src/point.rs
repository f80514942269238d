use vstd::prelude::*;
use crate::colchar::ColChar;
use crate::vec2d::Vec2D;

verus! {

/// A positioned cell: an integer coordinate paired with the styled
/// character drawn there. The atomic renderable unit.
#[derive(Clone, Copy, Debug, PartialEq, Eq, Structural)]
pub struct Point {
    pub pos: Vec2D,
    pub fill_char: ColChar,
}

impl Point {
    /// Build a point from a position and a styled character.
    pub fn new(pos: Vec2D, fill_char: ColChar) -> (r: Self)
        ensures
            r == (Point { pos, fill_char }),
    {
        Point { pos, fill_char }
    }
}

impl From<(Vec2D, ColChar)> for Point {
    fn from(value: (Vec2D, ColChar)) -> (r: Self) {
        Point { pos: value.0, fill_char: value.1 }
    }
}

impl vstd::std_specs::convert::FromSpecImpl<(Vec2D, ColChar)> for Point {
    open spec fn obeys_from_spec() -> bool {
        true
    }

    open spec fn from_spec(value: (Vec2D, ColChar)) -> Self {
        Point { pos: value.0, fill_char: value.1 }
    }
}

} // verus!
