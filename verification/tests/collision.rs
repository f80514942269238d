use glyphgrid::{ColChar, CollisionContainer, PixelContainer, Point, Vec2D, ViewElement};

#[test]
fn overlap_ignores_styles() {
    let mut walls = PixelContainer::new();
    walls.plot(Vec2D::new(0, 0), ColChar::solid());
    walls.plot(Vec2D::new(1, 0), ColChar::background());
    let mut cc: CollisionContainer<PixelContainer> = CollisionContainer::new();
    cc.push(&walls);

    let mut candidate = PixelContainer::new();
    candidate.plot(Vec2D::new(1, 0), ColChar::new('x', glyphgrid::Modifier::from_rgb(1, 2, 3)));

    assert!(cc.overlaps_element(&candidate));
    assert!(!cc.will_overlap_element(&candidate, Vec2D::new(5, 5)));
}

#[test]
fn will_overlap_applies_offset_before_testing() {
    let mut walls = PixelContainer::new();
    walls.plot(Vec2D::new(6, 5), ColChar::solid());
    let mut cc: CollisionContainer<PixelContainer> = CollisionContainer::new();
    cc.push(&walls);

    let mut candidate = PixelContainer::new();
    candidate.plot(Vec2D::new(1, 0), ColChar::solid());

    assert!(!cc.overlaps_element(&candidate));
    assert!(cc.will_overlap_element(&candidate, Vec2D::new(5, 5)));
}

#[test]
fn empty_collision_container_never_overlaps() {
    let cc: CollisionContainer<PixelContainer> = CollisionContainer::new();
    let mut candidate = PixelContainer::new();
    candidate.plot(Vec2D::new(0, 0), ColChar::solid());
    assert!(!cc.overlaps_element(&candidate));
    assert!(!cc.will_overlap_element(&candidate, Vec2D::new(0, 0)));
}

#[test]
fn empty_candidate_never_overlaps() {
    let mut walls = PixelContainer::new();
    walls.plot(Vec2D::new(0, 0), ColChar::solid());
    let mut cc: CollisionContainer<PixelContainer> = CollisionContainer::new();
    cc.push(&walls);
    let candidate = PixelContainer::new();
    assert!(!cc.overlaps_element(&candidate));
}

#[test]
fn negative_offsets_are_applied() {
    let mut walls = PixelContainer::new();
    walls.plot(Vec2D::new(-3, -4), ColChar::solid());
    let mut cc: CollisionContainer<PixelContainer> = CollisionContainer::new();
    cc.push(&walls);
    let mut candidate = PixelContainer::new();
    candidate.plot(Vec2D::new(0, 0), ColChar::solid());
    assert!(cc.will_overlap_element(&candidate, Vec2D::new(-3, -4)));
    assert!(!cc.will_overlap_element(&candidate, Vec2D::new(-3, -5)));
}

#[test]
fn collision_container_flattens_referents_in_order() {
    let mut a = PixelContainer::new();
    a.plot(Vec2D::new(0, 0), ColChar::solid());
    let mut b = PixelContainer::new();
    b.plot(Vec2D::new(1, 1), ColChar::background());
    b.plot(Vec2D::new(2, 2), ColChar::background());

    let cc = CollisionContainer::from(vec![&a, &b]);
    let flat = cc.active_pixels();
    assert_eq!(
        flat,
        vec![
            Point::new(Vec2D::new(0, 0), ColChar::solid()),
            Point::new(Vec2D::new(1, 1), ColChar::background()),
            Point::new(Vec2D::new(2, 2), ColChar::background()),
        ]
    );
}

#[test]
fn overlap_against_several_referents() {
    let mut a = PixelContainer::new();
    a.plot(Vec2D::new(10, 10), ColChar::solid());
    let mut b = PixelContainer::new();
    b.plot(Vec2D::new(20, 20), ColChar::solid());
    let mut cc: CollisionContainer<PixelContainer> = CollisionContainer::new();
    cc.push(&a);
    cc.push(&b);

    let mut candidate = PixelContainer::new();
    candidate.plot(Vec2D::new(20, 20), ColChar::empty());
    assert!(cc.overlaps_element(&candidate));

    let mut miss = PixelContainer::new();
    miss.plot(Vec2D::new(15, 15), ColChar::empty());
    assert!(!cc.overlaps_element(&miss));
}
