use glyphgrid::{ColChar, PixelContainer, Point, Vec2D, ViewElement, VisibilityToggle};

fn pt(x: i64, y: i64) -> Point {
    Point::new(Vec2D::new(x, y), ColChar::solid())
}

#[test]
fn new_container_is_empty() {
    let pc = PixelContainer::new();
    assert!(pc.active_pixels().is_empty());
}

#[test]
fn push_and_plot_append_in_order() {
    let mut pc = PixelContainer::new();
    pc.push(pt(1, 2));
    pc.plot(Vec2D::new(3, 4), ColChar::background());
    assert_eq!(
        pc.active_pixels(),
        vec![pt(1, 2), Point::new(Vec2D::new(3, 4), ColChar::background())]
    );
}

#[test]
fn append_drains_source_and_concatenates() {
    let mut dest = PixelContainer::new();
    dest.push(pt(0, 0));
    let mut source = vec![pt(1, 1), pt(2, 2)];
    let dest_len = dest.pixels.len();
    let source_len = source.len();
    dest.append(&mut source);
    assert!(source.is_empty());
    assert_eq!(dest.pixels.len(), dest_len + source_len);
    assert_eq!(dest.pixels, vec![pt(0, 0), pt(1, 1), pt(2, 2)]);
}

#[test]
fn append_points_shares_one_style() {
    let mut pc = PixelContainer::new();
    let style = ColChar::new('#', glyphgrid::Modifier::from_rgb(9, 8, 7));
    pc.append_points(vec![Vec2D::new(5, 5), Vec2D::new(6, 5)], style);
    assert_eq!(
        pc.pixels,
        vec![
            Point::new(Vec2D::new(5, 5), style),
            Point::new(Vec2D::new(6, 5), style)
        ]
    );
}

#[test]
fn blit_concatenates_children_in_order() {
    let mut c1 = PixelContainer::new();
    c1.push(pt(0, 0));
    c1.push(pt(1, 0));
    let mut c2 = PixelContainer::new();
    c2.push(pt(2, 0));
    let mut c3 = PixelContainer::new();
    c3.push(pt(3, 0));
    c3.push(pt(4, 0));
    c3.push(pt(5, 0));

    let mut parent = PixelContainer::new();
    parent.blit(&c1);
    parent.blit(&c2);
    parent.blit(&c3);

    let flat = parent.active_pixels();
    assert_eq!(
        flat.len(),
        c1.active_pixels().len() + c2.active_pixels().len() + c3.active_pixels().len()
    );
    let mut expected = c1.active_pixels();
    expected.extend(c2.active_pixels());
    expected.extend(c3.active_pixels());
    assert_eq!(flat, expected);
}

#[test]
fn blit_flattens_nested_containers() {
    let mut inner = PixelContainer::new();
    inner.push(pt(7, 7));
    let mut middle = PixelContainer::new();
    middle.blit(&inner);
    middle.push(pt(8, 8));
    let mut outer = PixelContainer::new();
    outer.blit(&middle);
    assert_eq!(outer.active_pixels(), vec![pt(7, 7), pt(8, 8)]);
}

#[test]
fn invisible_toggle_is_empty() {
    let mut pc = PixelContainer::new();
    pc.push(pt(1, 1));
    let toggle = VisibilityToggle::new(pc, false);
    assert!(toggle.active_pixels().is_empty());
}

#[test]
fn toggle_round_trips_to_delegate_output() {
    let mut pc = PixelContainer::new();
    pc.push(pt(1, 1));
    pc.push(pt(2, 1));
    let delegate_output = pc.active_pixels();
    let mut toggle = VisibilityToggle::new(pc, true);
    assert_eq!(toggle.active_pixels(), delegate_output);
    toggle.visible = false;
    assert!(toggle.active_pixels().is_empty());
    toggle.visible = true;
    assert_eq!(toggle.active_pixels(), delegate_output);
}

#[test]
fn toggle_reads_flag_fresh_on_every_query() {
    let mut pc = PixelContainer::new();
    pc.push(pt(0, 9));
    let mut toggle = VisibilityToggle::new(pc, true);
    assert_eq!(toggle.active_pixels().len(), 1);
    toggle.visible = false;
    assert_eq!(toggle.active_pixels().len(), 0);
}

#[test]
fn container_from_points() {
    let pc = PixelContainer::from(vec![pt(1, 2), pt(3, 4)]);
    assert_eq!(pc.pixels, vec![pt(1, 2), pt(3, 4)]);
}

#[test]
fn container_from_pairs_keeps_each_style() {
    let a = ColChar::solid();
    let b = ColChar::background();
    let pc = PixelContainer::from_pairs(vec![(Vec2D::new(1, 0), a), (Vec2D::new(2, 0), b)]);
    assert_eq!(
        pc.pixels,
        vec![Point::new(Vec2D::new(1, 0), a), Point::new(Vec2D::new(2, 0), b)]
    );
}

#[test]
fn point_from_pair() {
    let p = Point::from((Vec2D::new(4, 5), ColChar::empty()));
    assert_eq!(p, Point::new(Vec2D::new(4, 5), ColChar::empty()));
}
