use vstd::prelude::*;
use crate::point::Point;

verus! {

/// The drawable capability: anything producing an ordered sequence of
/// currently active points. Containers compose drawables recursively;
/// a top-level query flattens the tree into one ordered point sequence
/// for the external renderer.
pub trait ViewElement {
    /// The ordered point sequence this element currently stands for: a
    /// pure function of the element's current state.
    spec fn pixels_spec(&self) -> Seq<Point>;

    /// Produce the currently active points, in order.
    fn active_pixels(&self) -> (r: Vec<Point>)
        ensures
            r@ == self.pixels_spec(),
    ;
}

} // verus!
