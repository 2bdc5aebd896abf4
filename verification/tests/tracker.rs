use flamewatch::geometry::{Point, Rect};
use flamewatch::region::{largest_region, Brightness, CandidateRegion, Moments};
use flamewatch::tracker::{FireTracker, TrackerConfig};

/// A region of the given doubled area whose centroid is `(cx, cy)`.
fn region_at(area2: u64, cx: i64, cy: i64) -> CandidateRegion {
    let mass = 3 * area2;
    CandidateRegion {
        area2,
        moments: Moments { m00: mass, m10: cx * mass as i64, m01: cy * mass as i64 },
        bounds: Rect { x: 0, y: 0, width: 10, height: 10 },
        brightness: Brightness { sum: 2000, pixels: 10 },
    }
}

fn flat_region(area2: u64) -> CandidateRegion {
    CandidateRegion {
        area2,
        moments: Moments { m00: 0, m10: 0, m01: 0 },
        bounds: Rect { x: 0, y: 0, width: 10, height: 1 },
        brightness: Brightness { sum: 0, pixels: 10 },
    }
}

#[test]
fn new_tracker_has_seen_nothing() {
    let t = FireTracker::new();
    assert_eq!(t.last_position, None);
    assert_eq!(t.stable_frame_count, 0);
    assert_eq!(t.config, TrackerConfig { max_jump_sq: 50, min_stable_frames: 3 });
    assert_eq!(TrackerConfig::default(), t.config);
}

#[test]
fn with_config_keeps_the_config() {
    let cfg = TrackerConfig { max_jump_sq: 4, min_stable_frames: 1 };
    let t = FireTracker::with_config(cfg);
    assert_eq!(t.config, cfg);
    assert_eq!(t.last_position, None);
    assert_eq!(t.stable_frame_count, 0);
}

#[test]
fn empty_list_returns_false_and_resets_count() {
    let mut t = FireTracker::new();
    t.stable_frame_count = 7;
    t.last_position = Some(Point { x: 3, y: 4 });
    assert!(!t.update(&vec![]));
    assert_eq!(t.stable_frame_count, 0);
    assert_eq!(t.last_position, Some(Point { x: 3, y: 4 }));
}

#[test]
fn empty_list_on_fresh_tracker() {
    let mut t = FireTracker::new();
    assert!(!t.update(&Vec::new()));
    assert_eq!(t.stable_frame_count, 0);
    assert_eq!(t.last_position, None);
}

#[test]
fn four_identical_frames_confirm_on_the_fourth() {
    let mut t = FireTracker::new();
    let frame = vec![region_at(1000, 50, 50)];
    assert!(!t.update(&frame));
    assert_eq!(t.stable_frame_count, 0);
    assert!(!t.update(&frame));
    assert_eq!(t.stable_frame_count, 1);
    assert!(!t.update(&frame));
    assert_eq!(t.stable_frame_count, 2);
    assert!(t.update(&frame));
    assert_eq!(t.stable_frame_count, 3);
    assert_eq!(t.last_position, Some(Point { x: 50, y: 50 }));
}

#[test]
fn first_frame_sets_the_anchor_without_counting() {
    let mut t = FireTracker::new();
    assert!(!t.update(&vec![region_at(600, 12, 34)]));
    assert_eq!(t.last_position, Some(Point { x: 12, y: 34 }));
    assert_eq!(t.stable_frame_count, 0);
}

#[test]
fn jump_of_fifty_resets_whatever_the_count() {
    let mut t = FireTracker::new();
    t.last_position = Some(Point { x: 10, y: 10 });
    t.stable_frame_count = 9;
    // (15, 15) lies at squared distance 25 + 25 = 50 from (10, 10).
    assert!(!t.update(&vec![region_at(1000, 15, 15)]));
    assert_eq!(t.stable_frame_count, 0);
    assert_eq!(t.last_position, Some(Point { x: 15, y: 15 }));
}

#[test]
fn step_of_forty_nine_counts() {
    let mut t = FireTracker::new();
    t.last_position = Some(Point { x: 10, y: 10 });
    t.stable_frame_count = 2;
    // (17, 10) lies at squared distance 49 from (10, 10).
    assert!(t.update(&vec![region_at(1000, 17, 10)]));
    assert_eq!(t.stable_frame_count, 3);
    assert_eq!(t.last_position, Some(Point { x: 17, y: 10 }));
}

#[test]
fn far_jump_resets_after_confirmation() {
    let mut t = FireTracker::new();
    let here = vec![region_at(1000, 50, 50)];
    for _ in 0..4 {
        t.update(&here);
    }
    assert_eq!(t.stable_frame_count, 3);
    assert!(!t.update(&vec![region_at(1000, 200, 50)]));
    assert_eq!(t.stable_frame_count, 0);
    assert_eq!(t.last_position, Some(Point { x: 200, y: 50 }));
}

#[test]
fn degenerate_largest_region_resets_and_keeps_position() {
    let mut t = FireTracker::new();
    t.last_position = Some(Point { x: 1, y: 2 });
    t.stable_frame_count = 5;
    let frame = vec![region_at(10, 1, 2), flat_region(20)];
    assert!(!t.update(&frame));
    assert_eq!(t.stable_frame_count, 0);
    assert_eq!(t.last_position, Some(Point { x: 1, y: 2 }));
}

#[test]
fn largest_region_is_followed() {
    let mut t = FireTracker::new();
    let frame = vec![region_at(10, 1, 1), region_at(30, 7, 8), region_at(20, 5, 5)];
    t.update(&frame);
    assert_eq!(t.last_position, Some(Point { x: 7, y: 8 }));
}

#[test]
fn tie_goes_to_the_first_region() {
    let frame = vec![region_at(10, 1, 1), region_at(30, 7, 8), region_at(30, 5, 5)];
    assert_eq!(largest_region(&frame), Some(1));
    let mut t = FireTracker::new();
    t.update(&frame);
    assert_eq!(t.last_position, Some(Point { x: 7, y: 8 }));
}

#[test]
fn largest_region_of_nothing_is_none() {
    assert_eq!(largest_region(&vec![]), None);
}

#[test]
fn largest_region_of_one() {
    assert_eq!(largest_region(&vec![region_at(0, 0, 0)]), Some(0));
}

#[test]
fn largest_region_at_the_end() {
    let frame = vec![region_at(5, 0, 0), region_at(5, 0, 0), region_at(6, 0, 0)];
    assert_eq!(largest_region(&frame), Some(2));
}

#[test]
fn half_pixel_of_area_decides_the_largest() {
    // Areas 10 and 10.5: the second is larger.
    let frame = vec![region_at(20, 1, 1), region_at(21, 9, 9)];
    assert_eq!(largest_region(&frame), Some(1));
}

#[test]
fn count_stops_at_its_ceiling() {
    let mut t = FireTracker::new();
    t.last_position = Some(Point { x: 0, y: 0 });
    t.stable_frame_count = u64::MAX;
    assert!(t.update(&vec![region_at(10, 0, 0)]));
    assert_eq!(t.stable_frame_count, u64::MAX);
}

#[test]
fn custom_threshold_and_count() {
    let mut t = FireTracker::with_config(TrackerConfig { max_jump_sq: 1, min_stable_frames: 1 });
    assert!(!t.update(&vec![region_at(10, 4, 4)]));
    assert!(t.update(&vec![region_at(10, 4, 4)]));
    // Squared distance 1 is not below 1.
    assert!(!t.update(&vec![region_at(10, 5, 4)]));
    assert_eq!(t.stable_frame_count, 0);
}

#[test]
fn centroid_rounds_toward_zero() {
    assert_eq!(
        Moments { m00: 5046, m10: 249777, m01: 249777 }.centroid(),
        Some(Point { x: 49, y: 49 })
    );
    assert_eq!(Moments { m00: 2, m10: -7, m01: 7 }.centroid(), Some(Point { x: -3, y: 3 }));
    assert_eq!(Moments { m00: 6, m10: 0, m01: -5 }.centroid(), Some(Point { x: 0, y: 0 }));
}

#[test]
fn centroid_of_degenerate_moments_is_none() {
    assert_eq!(Moments { m00: 0, m10: 12, m01: -4 }.centroid(), None);
}

#[test]
fn centroid_stays_within_i32() {
    assert_eq!(
        Moments { m00: 1, m10: i64::MAX, m01: i64::MIN }.centroid(),
        Some(Point { x: i32::MAX, y: i32::MIN })
    );
}

#[test]
fn squared_distance_values() {
    let a = Point::new(3, 4);
    assert_eq!(a.squared_distance(&Point::new(0, 0)), 25);
    assert_eq!(a.squared_distance(&a), 0);
    assert_eq!(Point::new(-1, -1).squared_distance(&Point::new(1, 2)), 13);
    let lo = Point::new(i32::MIN, i32::MIN);
    let hi = Point::new(i32::MAX, i32::MAX);
    let side: u128 = (1u128 << 32) - 1;
    assert_eq!(lo.squared_distance(&hi), 2 * side * side);
}
