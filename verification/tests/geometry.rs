use canvas_layout::canvas::{Canvas, Gid, LayoutError};
use canvas_layout::geometry::{Point, Rectangle};

fn rect(x0: i16, y0: i16, x1: i16, y1: i16) -> Rectangle {
    Rectangle::new_coords(x0, y0, x1, y1)
}

#[test]
fn new_coords_keeps_the_corners_as_given() {
    let r = rect(3, 4, 10, 20);
    assert_eq!(r.tl, Point::new(3, 4));
    assert_eq!(r.br, Point::new(10, 20));
    assert_eq!(r, Rectangle::new(Point::new(3, 4), Point::new(10, 20)));
}

#[test]
fn stack_above_touches_the_top_edge() {
    let reference = rect(0, 514, 336, 536);
    let stacked = Rectangle::new_v_stack(reference, -22);
    assert_eq!(stacked, rect(0, 492, 336, 514));
}

#[test]
fn stack_below_touches_the_bottom_edge() {
    let reference = rect(5, 10, 50, 30);
    let stacked = Rectangle::new_v_stack(reference, 12);
    assert_eq!(stacked, rect(5, 30, 50, 42));
}

#[test]
fn stack_of_no_height_is_an_empty_strip_below() {
    let reference = rect(5, 10, 50, 30);
    let stacked = Rectangle::new_v_stack(reference, 0);
    assert_eq!(stacked, rect(5, 30, 50, 30));
    assert!(!stacked.proper());
}

#[test]
fn span_fills_the_gap() {
    let above = rect(0, 0, 336, 30);
    let below = rect(0, 492, 336, 514);
    assert_eq!(Rectangle::new_v_span(above, below), rect(0, 30, 336, 492));
}

#[test]
fn span_takes_left_from_above_and_right_from_below() {
    let above = rect(7, 0, 100, 30);
    let below = rect(0, 200, 300, 250);
    assert_eq!(Rectangle::new_v_span(above, below), rect(7, 30, 300, 200));
}

#[test]
fn proper_needs_width_and_height() {
    assert!(rect(0, 0, 1, 1).proper());
    assert!(!rect(0, 0, 0, 5).proper());
    assert!(!rect(0, 0, 5, 0).proper());
    assert!(!rect(5, 0, 0, 5).proper());
    assert!(!rect(0, 5, 5, 0).proper());
}

#[test]
fn canvas_starts_clipped_to_its_rectangle() {
    let id = Gid::new([1, 2, 3, 4]);
    let c = Canvas::new(id, rect(0, 0, 10, 10), 200).unwrap();
    assert_eq!(c.gid(), id);
    assert_eq!(c.gid().gid(), [1, 2, 3, 4]);
    assert_eq!(c.rect(), rect(0, 0, 10, 10));
    assert_eq!(c.clip_rect(), rect(0, 0, 10, 10));
    assert_eq!(c.trust_level(), 200);
}

#[test]
fn canvas_refuses_a_rectangle_without_pixels() {
    let id = Gid::new([1, 2, 3, 4]);
    assert_eq!(Canvas::new(id, rect(0, 0, 0, 10), 1), Err(LayoutError::DegenerateGeometry));
    assert_eq!(Canvas::new(id, rect(0, 0, 10, 0), 1), Err(LayoutError::DegenerateGeometry));
    assert_eq!(Canvas::new(id, rect(10, 10, 0, 0), 1), Err(LayoutError::DegenerateGeometry));
}

#[test]
fn set_clip_moves_the_clip_only() {
    let id = Gid::new([9, 9, 9, 9]);
    let mut c = Canvas::new(id, rect(0, 0, 10, 10), 7).unwrap();
    c.set_clip(rect(2, 2, 4, 4));
    assert_eq!(c.clip_rect(), rect(2, 2, 4, 4));
    assert_eq!(c.rect(), rect(0, 0, 10, 10));
    assert_eq!(c.trust_level(), 7);
    assert_eq!(c.gid(), id);
}

#[test]
fn identifiers_are_the_same_when_all_four_words_are() {
    let a = Gid::new([1, 2, 3, 4]);
    assert!(a.same(&Gid::new([1, 2, 3, 4])));
    assert!(!a.same(&Gid::new([0, 2, 3, 4])));
    assert!(!a.same(&Gid::new([1, 0, 3, 4])));
    assert!(!a.same(&Gid::new([1, 2, 0, 4])));
    assert!(!a.same(&Gid::new([1, 2, 3, 0])));
}
