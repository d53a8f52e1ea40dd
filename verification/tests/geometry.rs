use xcap::Ratio;
use xcap::Rect;

#[test]
fn translate_round_trip_is_exact() {
    let mut r = Rect::new(-7, 11, 303, 205);
    r.translate(13, -42);
    assert_eq!((r.left, r.top, r.right, r.bottom), (6, -31, 316, 163));
    r.translate(-13, 42);
    assert_eq!((r.left, r.top, r.right, r.bottom), (-7, 11, 303, 205));
}

#[test]
fn extend_moves_each_edge_independently() {
    // Positive offsets shrink each edge; negative offsets enlarge it.
    let mut r = Rect::new(10, 20, 30, 40);
    r.extend(1, 2, 3, 4);
    assert_eq!((r.left, r.top, r.right, r.bottom), (11, 22, 27, 36));
    r.extend(-1, -2, -3, -4);
    assert_eq!((r.left, r.top, r.right, r.bottom), (10, 20, 30, 40));
}

#[test]
fn width_and_height_are_edge_differences() {
    let r = Rect::new(100, 100, 400, 300);
    assert_eq!(r.width(), 300);
    assert_eq!(r.height(), 200);
    let degenerate = Rect::new(5, 5, 5, 5);
    assert_eq!(degenerate.width(), 0);
    assert_eq!(degenerate.height(), 0);
}

#[test]
fn scale_doubles_from_the_top_left_anchor() {
    let mut r = Rect::new(0, 0, 100, 100);
    r.scale(Ratio::new(2, 1), Ratio::new(2, 1));
    assert_eq!((r.left, r.top, r.right, r.bottom), (0, 0, 200, 200));
}

#[test]
fn scale_rounds_to_nearest_ties_away_from_zero() {
    // A factor of one half on a width of five: the growth is -2.5,
    // which rounds away from zero to -3.
    let mut r = Rect::new(0, 0, 5, 5);
    r.scale(Ratio::new(1, 2), Ratio::new(1, 1));
    assert_eq!((r.left, r.top, r.right, r.bottom), (0, 0, 2, 5));
}

#[test]
fn scale_keeps_offset_anchor() {
    let mut r = Rect::new(50, 60, 150, 260);
    r.scale(Ratio::new(3, 2), Ratio::new(5, 4));
    // Width 100 grows by 100 * 1/2 = 50; height 200 grows by 200 * 1/4 = 50.
    assert_eq!((r.left, r.top, r.right, r.bottom), (50, 60, 200, 310));
}

#[test]
fn scale_round_trip_is_within_one_pixel() {
    // Scaling up and back with inverse factors need not be exact, but
    // stays within one pixel on each moved edge.
    let mut r = Rect::new(0, 0, 7, 9);
    r.scale(Ratio::new(3, 2), Ratio::new(3, 2));
    // 7 + round(7/2) = 11, 9 + round(9/2) = 14 (ties away from zero).
    assert_eq!((r.right, r.bottom), (11, 14));
    r.scale(Ratio::new(2, 3), Ratio::new(2, 3));
    assert!((r.right - 7).abs() <= 1);
    assert!((r.bottom - 9).abs() <= 1);
    assert_eq!(r.left, 0);
    assert_eq!(r.top, 0);
}
