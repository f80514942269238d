use vstd::prelude::*;

verus! {

/// An integer 2D coordinate: the position of a rendered cell.
#[derive(Clone, Copy, Debug, PartialEq, Eq, Structural, Hash)]
pub struct Vec2D {
    pub x: i64,
    pub y: i64,
}

impl Vec2D {
    /// The origin.
    pub fn zero() -> (r: Self)
        ensures
            r == (Vec2D { x: 0, y: 0 }),
    {
        Vec2D { x: 0, y: 0 }
    }

    /// Build a coordinate from its two components.
    pub fn new(x: i64, y: i64) -> (r: Self)
        ensures
            r == (Vec2D { x, y }),
    {
        Vec2D { x, y }
    }

    /// The coordinate moved by `offset`.
    pub fn shifted(self, offset: Vec2D) -> (r: Self)
        requires
            i64::MIN <= self.x + offset.x <= i64::MAX,
            i64::MIN <= self.y + offset.y <= i64::MAX,
        ensures
            r.x == self.x + offset.x,
            r.y == self.y + offset.y,
    {
        Vec2D { x: self.x + offset.x, y: self.y + offset.y }
    }
}

} // verus!
