use ep_start::geometry::{Rect, UiRect, logical_rect, scale, unscale};

#[test]
fn rectangle_measures() {
    let r = UiRect::new(10, 20, 110, 70);
    assert_eq!(r.width(), 100);
    assert_eq!(r.height(), 50);
    assert_eq!(r.center_x(), 60);
    assert_eq!(r.center_y(), 45);
    assert_eq!(UiRect::from_size(10, 20, 100, 50), r);
}

#[test]
fn contains_includes_the_edges() {
    let r = UiRect::new(0, 0, 10, 10);
    assert!(r.contains(0, 0));
    assert!(r.contains(10, 10));
    assert!(!r.contains(11, 5));
    assert!(!r.contains(5, -1));
}

#[test]
fn offset_keeps_the_size_and_moves_points() {
    let r = UiRect::new(1, 2, 5, 9);
    let moved = r.offset(10, -2);
    assert_eq!(moved, UiRect::new(11, 0, 15, 7));
    assert_eq!(moved.width(), r.width());
    assert_eq!(moved.height(), r.height());
    assert!(r.contains(3, 4) && moved.contains(13, 2));
}

#[test]
fn inset_shrinks_on_each_side() {
    assert_eq!(UiRect::new(0, 0, 20, 10).inset(2, 1), UiRect::new(2, 1, 18, 9));
}

#[test]
fn conversion_to_platform_rectangles_round_trips() {
    let r = UiRect::new(-3, 4, 7, 8);
    let platform: Rect = r.to_rect();
    assert_eq!(platform, Rect { left: -3, top: 4, right: 7, bottom: 8 });
    assert_eq!(UiRect::from(platform), r);
    assert_eq!(Rect::from(r), platform);
}

#[test]
fn scaling_follows_the_dpi() {
    assert_eq!(scale(100, 96), 100);
    assert_eq!(scale(100, 144), 150);
    assert_eq!(scale(-7, 144), -10);
    assert_eq!(unscale(150, 144), 100);
    assert_eq!(unscale(10, 0), 960);
    assert_eq!(logical_rect(10, 20, 30, 40, 192), UiRect::new(20, 40, 60, 80));
}
