use vstd::prelude::*;
use crate::colchar::ColChar;
use crate::element::ViewElement;
use crate::point::Point;
use crate::utils;
use crate::vec2d::Vec2D;

verus! {

/// A container for one element with a `visible` flag: when the flag is
/// false the element contributes nothing; the flag is read fresh on
/// every query, never cached.
pub struct VisibilityToggle<T: ViewElement> {
    pub element: T,
    pub visible: bool,
}

impl<T: ViewElement> VisibilityToggle<T> {
    /// Wrap an element together with its visibility flag.
    pub fn new(element: T, visible: bool) -> (r: Self)
        ensures
            r.element == element,
            r.visible == visible,
    {
        VisibilityToggle { element, visible }
    }
}

impl<T: ViewElement> ViewElement for VisibilityToggle<T> {
    open spec fn pixels_spec(&self) -> Seq<Point> {
        if self.visible {
            self.element.pixels_spec()
        } else {
            Seq::empty()
        }
    }

    fn active_pixels(&self) -> (r: Vec<Point>) {
        if self.visible {
            self.element.active_pixels()
        } else {
            Vec::new()
        }
    }
}

/// Visibility gating round-trips: with the flag lowered the toggle is
/// empty, and raising it again restores the wrapped element's output
/// exactly.
pub proof fn lemma_toggle_round_trip<T: ViewElement>(
    t: VisibilityToggle<T>,
    hidden: VisibilityToggle<T>,
    shown: VisibilityToggle<T>,
)
    requires
        hidden == (VisibilityToggle { visible: false, ..t }),
        shown == (VisibilityToggle { visible: true, ..hidden }),
    ensures
        hidden.pixels_spec() == Seq::<Point>::empty(),
        shown.pixels_spec() == t.element.pixels_spec(),
        t.visible ==> shown.pixels_spec() == t.pixels_spec(),
{
}

/// An explicit, mutable, ordered list of points, returned directly on
/// every query. Insertion order is preserved: it is what drives the
/// escape-code elision of whatever consumes the output.
#[derive(Debug, Clone)]
pub struct PixelContainer {
    pub pixels: Vec<Point>,
}

impl PixelContainer {
    /// A new, empty container.
    pub fn new() -> (r: Self)
        ensures
            r.pixels@ == Seq::<Point>::empty(),
    {
        PixelContainer { pixels: Vec::new() }
    }

    /// Add a single pixel at the end.
    pub fn push(&mut self, pixel: Point)
        ensures
            final(self).pixels@ == old(self).pixels@.push(pixel),
    {
        self.pixels.push(pixel);
    }

    /// Move all the given pixels in, in order, leaving the source
    /// empty.
    pub fn append(&mut self, pixels: &mut Vec<Point>)
        ensures
            final(self).pixels@ == old(self).pixels@ + old(pixels)@,
            final(pixels)@ == Seq::<Point>::empty(),
    {
        self.pixels.append(pixels);
    }

    /// Append one point per position, all sharing one style.
    pub fn append_points(&mut self, points: Vec<Vec2D>, fill_char: ColChar)
        ensures
            final(self).pixels@ == old(self).pixels@ + points@.map_values(
                |p: Vec2D| (Point { pos: p, fill_char }),
            ),
    {
        let mut pixels = utils::points_to_pixels(points, fill_char);
        self.append(&mut pixels);
    }

    /// Construct a point from a position and a style and append it.
    pub fn plot(&mut self, pos: Vec2D, c: ColChar)
        ensures
            final(self).pixels@ == old(self).pixels@.push(Point { pos, fill_char: c }),
    {
        self.push(Point::new(pos, c));
    }

    /// Query the given element's active points and append them all,
    /// flattening any nesting below it.
    pub fn blit<E: ViewElement>(&mut self, element: &E)
        ensures
            final(self).pixels@ == old(self).pixels@ + element.pixels_spec(),
    {
        let mut active_pixels = element.active_pixels();
        self.append(&mut active_pixels);
    }

    /// Build a container from (position, style) pairs, each pair
    /// supplying its own style individually.
    pub fn from_pairs(pixels: Vec<(Vec2D, ColChar)>) -> (r: Self)
        ensures
            r.pixels@ == pixels@.map_values(
                |pair: (Vec2D, ColChar)| (Point { pos: pair.0, fill_char: pair.1 }),
            ),
    {
        let mut out: Vec<Point> = Vec::new();
        let mut i: usize = 0;
        while i < pixels.len()
            invariant
                i <= pixels@.len(),
                out@.len() == i,
                forall|k: int|
                    0 <= k < i ==> out@[k] == (Point {
                        pos: pixels@[k].0,
                        fill_char: pixels@[k].1,
                    }),
            decreases pixels@.len() - i,
        {
            out.push(Point::from(pixels[i]));
            i += 1;
        }
        assert(out@ =~= pixels@.map_values(
            |pair: (Vec2D, ColChar)| (Point { pos: pair.0, fill_char: pair.1 }),
        ));
        PixelContainer { pixels: out }
    }
}

impl From<Vec<Point>> for PixelContainer {
    fn from(pixels: Vec<Point>) -> (r: Self) {
        PixelContainer { pixels }
    }
}

impl vstd::std_specs::convert::FromSpecImpl<Vec<Point>> for PixelContainer {
    open spec fn obeys_from_spec() -> bool {
        true
    }

    open spec fn from_spec(pixels: Vec<Point>) -> Self {
        PixelContainer { pixels }
    }
}

impl ViewElement for PixelContainer {
    open spec fn pixels_spec(&self) -> Seq<Point> {
        self.pixels@
    }

    fn active_pixels(&self) -> (r: Vec<Point>) {
        let mut r: Vec<Point> = Vec::new();
        let mut i: usize = 0;
        while i < self.pixels.len()
            invariant
                i <= self.pixels@.len(),
                r@.len() == i,
                forall|k: int| 0 <= k < i ==> r@[k] == self.pixels@[k],
            decreases self.pixels@.len() - i,
        {
            r.push(self.pixels[i]);
            i += 1;
        }
        assert(r@ =~= self.pixels@);
        r
    }
}

/// The points a run of blits leaves behind: each part appended, in
/// part order, to what was there before.
pub open spec fn after_blits(init: Seq<Point>, parts: Seq<Seq<Point>>) -> Seq<Point>
    decreases parts.len(),
{
    if parts.len() == 0 {
        init
    } else {
        after_blits(init, parts.drop_last()) + parts.last()
    }
}

/// The parts concatenated in order, each part's internal order kept.
pub open spec fn concat_parts(parts: Seq<Seq<Point>>) -> Seq<Point>
    decreases parts.len(),
{
    if parts.len() == 0 {
        Seq::empty()
    } else {
        concat_parts(parts.drop_last()) + parts.last()
    }
}

/// The sum of the parts' lengths.
pub open spec fn total_len(parts: Seq<Seq<Point>>) -> nat
    decreases parts.len(),
{
    if parts.len() == 0 {
        0
    } else {
        total_len(parts.drop_last()) + parts.last().len()
    }
}

/// Concatenation law: a container built by blitting children in order
/// holds exactly the children's sequences concatenated after its
/// original content, and its point count is the sum of the children's
/// counts.
pub proof fn lemma_blit_concatenation(init: Seq<Point>, parts: Seq<Seq<Point>>)
    ensures
        after_blits(init, parts) == init + concat_parts(parts),
        concat_parts(parts).len() == total_len(parts),
    decreases parts.len(),
{
    if parts.len() == 0 {
        assert(after_blits(init, parts) =~= init + concat_parts(parts));
    } else {
        lemma_blit_concatenation(init, parts.drop_last());
        assert(after_blits(init, parts) =~= init + concat_parts(parts));
    }
}

/// Whether every candidate position stays within the machine range
/// once shifted by `offset`.
pub open spec fn shift_fits(cand: Seq<Point>, offset: Vec2D) -> bool {
    forall|i: int|
        0 <= i < cand.len() ==> i64::MIN <= (#[trigger] cand[i]).pos.x + offset.x <= i64::MAX
            && i64::MIN <= cand[i].pos.y + offset.y <= i64::MAX
}

/// Whether the candidate's point at index `i`, shifted by `offset`,
/// lands on some position present in `cont` (styles ignored).
pub open spec fn hits(cont: Seq<Point>, cand: Seq<Point>, offset: Vec2D, i: int) -> bool {
    exists|j: int|
        0 <= j < cont.len() && cont[j].pos.x == cand[i].pos.x + offset.x && cont[j].pos.y == cand[
            i
        ].pos.y + offset.y
}

/// Whether any candidate position, shifted by `offset`, equals any
/// position in `cont`: set-intersection non-emptiness, styles ignored.
pub open spec fn overlaps_at(cont: Seq<Point>, cand: Seq<Point>, offset: Vec2D) -> bool {
    exists|i: int| 0 <= i < cand.len() && hits(cont, cand, offset, i)
}

/// Holds non-owning references to arbitrary elements for overlap
/// queries; never mutates its referents, which are owned elsewhere and
/// must outlive the container.
pub struct CollisionContainer<'a, E: ViewElement> {
    pub elements: Vec<&'a E>,
}

impl<'a, E: ViewElement> CollisionContainer<'a, E> {
    /// A new, empty collision container.
    pub fn new() -> (r: Self)
        ensures
            r.elements@ == Seq::<&'a E>::empty(),
    {
        CollisionContainer { elements: Vec::new() }
    }

    /// Add an element reference to the container.
    pub fn push(&mut self, element: &'a E)
        ensures
            final(self).elements@ == old(self).elements@.push(element),
    {
        self.elements.push(element);
    }

    /// Whether the given element overlaps the container: true iff some
    /// active position of it equals some active position already here.
    pub fn overlaps_element<F: ViewElement>(&self, element: &F) -> (r: bool)
        ensures
            r == overlaps_at(self.pixels_spec(), element.pixels_spec(), Vec2D { x: 0, y: 0 }),
    {
        self.will_overlap_element(element, Vec2D::zero())
    }

    /// Whether the element would overlap the container once every one
    /// of its positions is shifted by `offset`: the test for a
    /// hypothetical move before committing it.
    pub fn will_overlap_element<F: ViewElement>(&self, element: &F, offset: Vec2D) -> (r: bool)
        requires
            shift_fits(element.pixels_spec(), offset),
        ensures
            r == overlaps_at(self.pixels_spec(), element.pixels_spec(), offset),
    {
        let collision_pixels = utils::pixels_to_points(self.active_pixels());
        let element_pixels = element.active_pixels();
        let mut i: usize = 0;
        while i < element_pixels.len()
            invariant
                i <= element_pixels@.len(),
                element_pixels@ == element.pixels_spec(),
                collision_pixels@ == self.pixels_spec().map_values(|p: Point| p.pos),
                shift_fits(element.pixels_spec(), offset),
                forall|k: int|
                    0 <= k < i ==> !hits(self.pixels_spec(), element.pixels_spec(), offset, k),
            decreases element_pixels@.len() - i,
        {
            let shifted = element_pixels[i].pos.shifted(offset);
            if utils::contains_pos(&collision_pixels, shifted) {
                proof {
                    let j = choose|j: int| 0 <= j < collision_pixels@.len() && collision_pixels@[j]
                        == shifted;
                    assert(self.pixels_spec()[j].pos == shifted);
                    assert(hits(self.pixels_spec(), element.pixels_spec(), offset, i as int));
                }
                return true;
            }
            proof {
                assert forall|j: int|
                    0 <= j < self.pixels_spec().len() implies !(self.pixels_spec()[j].pos.x
                    == element.pixels_spec()[i as int].pos.x + offset.x && self.pixels_spec()[
                    j
                ].pos.y == element.pixels_spec()[i as int].pos.y + offset.y) by {
                    assert(collision_pixels@[j] == self.pixels_spec()[j].pos);
                    assert(collision_pixels@[j] != shifted);
                }
            }
            i += 1;
        }
        false
    }
}

impl<'a, E: ViewElement> From<Vec<&'a E>> for CollisionContainer<'a, E> {
    fn from(elements: Vec<&'a E>) -> (r: Self) {
        CollisionContainer { elements }
    }
}

impl<'a, E: ViewElement> vstd::std_specs::convert::FromSpecImpl<Vec<&'a E>> for CollisionContainer<'a, E> {
    open spec fn obeys_from_spec() -> bool {
        true
    }

    open spec fn from_spec(elements: Vec<&'a E>) -> Self {
        CollisionContainer { elements }
    }
}

/// The elements' point sequences concatenated in element order.
pub open spec fn flatten_elements<E: ViewElement>(elems: Seq<&E>) -> Seq<Point>
    decreases elems.len(),
{
    if elems.len() == 0 {
        Seq::empty()
    } else {
        flatten_elements(elems.drop_last()) + elems.last().pixels_spec()
    }
}

impl<'a, E: ViewElement> ViewElement for CollisionContainer<'a, E> {
    open spec fn pixels_spec(&self) -> Seq<Point> {
        flatten_elements(self.elements@)
    }

    fn active_pixels(&self) -> (r: Vec<Point>) {
        let mut r: Vec<Point> = Vec::new();
        let mut i: usize = 0;
        while i < self.elements.len()
            invariant
                i <= self.elements@.len(),
                r@ == flatten_elements(self.elements@.take(i as int)),
            decreases self.elements@.len() - i,
        {
            let mut pixels = self.elements[i].active_pixels();
            r.append(&mut pixels);
            proof {
                assert(self.elements@.take(i as int + 1).drop_last() =~= self.elements@.take(
                    i as int,
                ));
            }
            i += 1;
        }
        proof {
            assert(self.elements@.take(self.elements@.len() as int) =~= self.elements@);
        }
        r
    }
}

} // verus!
