use sprite_marker::geom::{point_within, Point, Rect, Size, UvRect};

fn inside(r: &Rect, x: i64, y: i64) -> bool {
    point_within(&Point::new(x, y), r)
}

#[test]
fn contains_strict_interior_at_origin() {
    let r = Rect::new(0, 0, 10, 10);
    assert!(inside(&r, 0, 0));
    assert!(inside(&r, 4, 4));
    assert!(inside(&r, -4, -4));
    assert!(inside(&r, 4, -4));
}

#[test]
fn contains_rejects_every_edge_at_origin() {
    let r = Rect::new(0, 0, 10, 10);
    assert!(!inside(&r, 5, 0));
    assert!(!inside(&r, -5, 0));
    assert!(!inside(&r, 0, 5));
    assert!(!inside(&r, 0, -5));
    assert!(!inside(&r, 5, 5));
    assert!(!inside(&r, -5, -5));
}

#[test]
fn contains_rejects_outside_at_origin() {
    let r = Rect::new(0, 0, 10, 10);
    assert!(!inside(&r, 6, 0));
    assert!(!inside(&r, -6, 0));
    assert!(!inside(&r, 0, 6));
    assert!(!inside(&r, 0, -6));
    assert!(!inside(&r, 100, 100));
}

#[test]
fn contains_with_positive_origin() {
    let r = Rect::new(100, 50, 20, 10);
    assert!(inside(&r, 100, 50));
    assert!(inside(&r, 91, 46));
    assert!(inside(&r, 109, 54));
    assert!(!inside(&r, 90, 50));
    assert!(!inside(&r, 110, 50));
    assert!(!inside(&r, 100, 45));
    assert!(!inside(&r, 100, 55));
    assert!(!inside(&r, 89, 50));
    assert!(!inside(&r, 100, 56));
}

#[test]
fn contains_with_negative_origin() {
    let r = Rect::new(-100, -50, 20, 10);
    assert!(inside(&r, -100, -50));
    assert!(inside(&r, -109, -54));
    assert!(inside(&r, -91, -46));
    assert!(!inside(&r, -110, -50));
    assert!(!inside(&r, -90, -50));
    assert!(!inside(&r, -100, -55));
    assert!(!inside(&r, -100, -45));
    assert!(!inside(&r, -111, -50));
    assert!(!inside(&r, 100, 50));
}

#[test]
fn contains_with_edges_on_half_units() {
    let r = Rect::new(0, 0, 115, 45);
    assert!(inside(&r, 57, 22));
    assert!(inside(&r, -57, -22));
    assert!(!inside(&r, 58, 0));
    assert!(!inside(&r, 0, 23));
    assert!(!inside(&r, -58, 0));
    assert!(!inside(&r, 0, -23));
}

#[test]
fn empty_and_negative_rects_contain_nothing() {
    assert!(!inside(&Rect::new(0, 0, 0, 0), 0, 0));
    assert!(!inside(&Rect::new(3, 3, 0, 10), 3, 3));
    assert!(!inside(&Rect::new(3, 3, 10, 0), 3, 3));
    assert!(!inside(&Rect::new(3, 3, -10, -10), 3, 3));
}

#[test]
fn contains_at_the_ends_of_the_coordinate_range() {
    let r = Rect::new(i64::MAX, i64::MIN, i64::MAX, i64::MAX);
    assert!(inside(&r, i64::MAX, i64::MIN));
    assert!(!inside(&r, 0, 0));
}

#[test]
fn offset_translates_and_keeps_the_extent() {
    let r = Rect::new(10, 20, 30, 40).offset(&Point::new(-15, 5));
    assert_eq!(r, Rect { x: -5, y: 25, w: 30, h: 40 });
}

#[test]
fn center_is_the_midpoint() {
    assert_eq!(Rect::new(10, -20, 31, 41).center(), Point { x: 10, y: -20 });
    assert_eq!(Point::zero(), Point { x: 0, y: 0 });
}

#[test]
fn uv_rect_keeps_frame_and_sheet() {
    let uv = UvRect { rect: Rect::new(1, 2, 3, 4), sheet: Size { w: 10, h: 20 } };
    assert_eq!(uv.rect.w, 3);
    assert_eq!(uv.sheet.h, 20);
}

#[test]
fn tame_rects_stay_within_the_coordinate_limit() {
    assert!(Rect::new(0, 0, 5, 5).is_tame());
    assert!(Rect::new(0x2000_0000_0000_0000, -0x2000_0000_0000_0000, 1, 1).is_tame());
    assert!(!Rect::new(0x2000_0000_0000_0001, 0, 1, 1).is_tame());
    assert!(!Rect::new(0, i64::MIN, 1, 1).is_tame());
}
