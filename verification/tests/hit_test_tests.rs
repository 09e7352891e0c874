use borderless::hit_test::{edges_at, hit_test, zone_for, Edges, HitZone, Rect, BORDER_WIDTH};

const R: Rect = Rect { left: 100, top: 100, right: 500, bottom: 400 };

#[test]
fn border_width_is_eight_pixels() {
    assert_eq!(BORDER_WIDTH, 8);
}

#[test]
fn corners() {
    assert_eq!(hit_test(100, 100, &R), HitZone::TopLeft);
    assert_eq!(hit_test(107, 107, &R), HitZone::TopLeft);
    assert_eq!(hit_test(499, 100, &R), HitZone::TopRight);
    assert_eq!(hit_test(492, 107, &R), HitZone::TopRight);
    assert_eq!(hit_test(100, 399, &R), HitZone::BottomLeft);
    assert_eq!(hit_test(107, 392, &R), HitZone::BottomLeft);
    assert_eq!(hit_test(499, 399, &R), HitZone::BottomRight);
    assert_eq!(hit_test(492, 392, &R), HitZone::BottomRight);
}

#[test]
fn sides() {
    assert_eq!(hit_test(300, 100, &R), HitZone::Top);
    assert_eq!(hit_test(300, 107, &R), HitZone::Top);
    assert_eq!(hit_test(300, 392, &R), HitZone::Bottom);
    assert_eq!(hit_test(300, 399, &R), HitZone::Bottom);
    assert_eq!(hit_test(100, 250, &R), HitZone::Left);
    assert_eq!(hit_test(107, 250, &R), HitZone::Left);
    assert_eq!(hit_test(492, 250, &R), HitZone::Right);
    assert_eq!(hit_test(499, 250, &R), HitZone::Right);
}

#[test]
fn band_boundaries_are_eight_pixels_wide() {
    assert_eq!(hit_test(108, 250, &R), HitZone::Client);
    assert_eq!(hit_test(491, 250, &R), HitZone::Client);
    assert_eq!(hit_test(300, 108, &R), HitZone::Client);
    assert_eq!(hit_test(300, 391, &R), HitZone::Client);
    assert_eq!(hit_test(108, 108, &R), HitZone::Client);
}

#[test]
fn interior_is_client() {
    for x in 108..492 {
        assert_eq!(hit_test(x, 250, &R), HitZone::Client);
    }
    for y in 108..392 {
        assert_eq!(hit_test(300, y, &R), HitZone::Client);
    }
}

#[test]
fn points_outside_the_rectangle_count_as_the_nearest_band() {
    assert_eq!(hit_test(50, 50, &R), HitZone::TopLeft);
    assert_eq!(hit_test(600, 250, &R), HitZone::Right);
    assert_eq!(hit_test(300, 900, &R), HitZone::Bottom);
}

#[test]
fn top_and_left_win_on_a_tiny_window() {
    let tiny = Rect { left: 0, top: 0, right: 10, bottom: 10 };
    assert_eq!(hit_test(5, 5, &tiny), HitZone::TopLeft);
    let e = edges_at(5, 5, &tiny);
    assert_eq!(e, Edges { left: true, right: true, top: true, bottom: true });
}

#[test]
fn bottom_right_needs_the_top_and_left_bands_clear() {
    let e = Edges { left: false, right: true, top: false, bottom: true };
    assert_eq!(zone_for(&e), HitZone::BottomRight);
    let e = Edges { left: true, right: true, top: false, bottom: true };
    assert_eq!(zone_for(&e), HitZone::BottomLeft);
    let e = Edges { left: false, right: true, top: true, bottom: true };
    assert_eq!(zone_for(&e), HitZone::TopRight);
}

#[test]
fn every_band_combination_has_one_zone() {
    for bits in 0u8..16 {
        let e = Edges { left: bits & 1 != 0, right: bits & 2 != 0, top: bits & 4 != 0, bottom: bits & 8 != 0 };
        let z = zone_for(&e);
        let expected = if e.top && e.left {
            HitZone::TopLeft
        } else if e.top && e.right {
            HitZone::TopRight
        } else if e.bottom && e.left {
            HitZone::BottomLeft
        } else if e.bottom && e.right {
            HitZone::BottomRight
        } else if e.top {
            HitZone::Top
        } else if e.bottom {
            HitZone::Bottom
        } else if e.left {
            HitZone::Left
        } else if e.right {
            HitZone::Right
        } else {
            HitZone::Client
        };
        assert_eq!(z, expected);
        assert_eq!(z == HitZone::Client, !e.left && !e.right && !e.top && !e.bottom);
    }
}

#[test]
fn zone_does_not_change_when_window_and_point_move_together() {
    let moved = Rect { left: R.left - 700, top: R.top + 30, right: R.right - 700, bottom: R.bottom + 30 };
    for &(x, y) in &[(100, 100), (300, 250), (499, 399), (492, 250), (300, 107)] {
        assert_eq!(hit_test(x - 700, y + 30, &moved), hit_test(x, y, &R));
    }
}

#[test]
fn edges_at_reports_each_band() {
    assert_eq!(edges_at(100, 250, &R), Edges { left: true, right: false, top: false, bottom: false });
    assert_eq!(edges_at(492, 392, &R), Edges { left: false, right: true, top: false, bottom: true });
}
