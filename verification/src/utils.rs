use vstd::prelude::*;
use crate::colchar::ColChar;
use crate::point::Point;
use crate::vec2d::Vec2D;

verus! {

/// Pair every position with one shared style, keeping the order.
pub fn points_to_pixels(points: Vec<Vec2D>, fill_char: ColChar) -> (r: Vec<Point>)
    ensures
        r@ == points@.map_values(|p: Vec2D| (Point { pos: p, fill_char })),
{
    let mut r: Vec<Point> = Vec::new();
    let mut i: usize = 0;
    while i < points.len()
        invariant
            i <= points@.len(),
            r@.len() == i,
            forall|k: int| 0 <= k < i ==> r@[k] == (Point { pos: points@[k], fill_char }),
        decreases points@.len() - i,
    {
        r.push(Point::new(points[i], fill_char));
        i += 1;
    }
    assert(r@ =~= points@.map_values(|p: Vec2D| (Point { pos: p, fill_char })));
    r
}

/// Strip the styles, keeping the positions in order.
pub fn pixels_to_points(pixels: Vec<Point>) -> (r: Vec<Vec2D>)
    ensures
        r@ == pixels@.map_values(|p: Point| p.pos),
{
    let mut r: Vec<Vec2D> = Vec::new();
    let mut i: usize = 0;
    while i < pixels.len()
        invariant
            i <= pixels@.len(),
            r@.len() == i,
            forall|k: int| 0 <= k < i ==> r@[k] == pixels@[k].pos,
        decreases pixels@.len() - i,
    {
        r.push(pixels[i].pos);
        i += 1;
    }
    assert(r@ =~= pixels@.map_values(|p: Point| p.pos));
    r
}

/// Whether `points` holds `target`, by position equality.
pub fn contains_pos(points: &Vec<Vec2D>, target: Vec2D) -> (r: bool)
    ensures
        r == points@.contains(target),
{
    let mut i: usize = 0;
    while i < points.len()
        invariant
            i <= points@.len(),
            forall|k: int| 0 <= k < i ==> points@[k] != target,
        decreases points@.len() - i,
    {
        if points[i] == target {
            assert(points@.contains(target));
            return true;
        }
        i += 1;
    }
    assert(!points@.contains(target));
    false
}

} // verus!
