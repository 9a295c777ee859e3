use gallery::gesture::GestureDetector;
use gallery::gesture::GestureDetectorTypes;
use gallery::gesture::GestureEvent;
use gallery::gesture::RawInputEvent;
use gallery::gesture::is_farther_than;

fn down(id: i64, x: i32, y: i32, t: u64) -> RawInputEvent {
    RawInputEvent::FingerDown { id, x, y, t }
}

fn up(id: i64, x: i32, y: i32, t: u64) -> RawInputEvent {
    RawInputEvent::FingerUp { id, x, y, t }
}

fn motion(id: i64, x: i32, y: i32, dx: i32, dy: i32, t: u64) -> RawInputEvent {
    RawInputEvent::FingerMotion { id, x, y, dx, dy, t }
}

#[test]
fn down_then_up_is_one_tap() {
    let mut d = GestureDetector::with_all_kinds();
    d.feed(&down(1, 500_000, 400_000, 1_000));
    assert_eq!(d.poll(), vec![]);
    d.feed(&up(1, 500_000, 400_000, 1_050));
    assert_eq!(d.poll(), vec![GestureEvent::Tap(500_000, 400_000)]);
    assert_eq!(d.poll(), vec![]);
    assert_eq!(d.active_fingers(), 0);
}

#[test]
fn two_quick_taps_are_tap_then_double_tap() {
    let mut d = GestureDetector::with_all_kinds();
    d.feed(&down(1, 500_000, 400_000, 1_000));
    d.feed(&up(1, 500_000, 400_000, 1_050));
    d.feed(&down(2, 510_000, 405_000, 1_150));
    d.feed(&up(2, 510_000, 405_000, 1_200));
    assert_eq!(
        d.poll(),
        vec![GestureEvent::Tap(500_000, 400_000), GestureEvent::DoubleTap(510_000, 405_000)]
    );
}

#[test]
fn third_tap_after_double_tap_is_a_tap_again() {
    let mut d = GestureDetector::with_all_kinds();
    d.feed(&down(1, 0, 0, 0));
    d.feed(&up(1, 0, 0, 10));
    d.feed(&down(1, 0, 0, 20));
    d.feed(&up(1, 0, 0, 30));
    d.feed(&down(1, 0, 0, 40));
    d.feed(&up(1, 0, 0, 50));
    assert_eq!(
        d.poll(),
        vec![GestureEvent::Tap(0, 0), GestureEvent::DoubleTap(0, 0), GestureEvent::Tap(0, 0)]
    );
}

#[test]
fn slow_second_tap_is_a_tap() {
    let mut d = GestureDetector::with_all_kinds();
    d.feed(&down(1, 0, 0, 0));
    d.feed(&up(1, 0, 0, 10));
    d.feed(&down(1, 0, 0, 300));
    d.feed(&up(1, 0, 0, 311));
    assert_eq!(d.poll(), vec![GestureEvent::Tap(0, 0), GestureEvent::Tap(0, 0)]);
}

#[test]
fn second_tap_at_the_edge_of_the_window_is_a_double_tap() {
    let mut d = GestureDetector::with_all_kinds();
    d.feed(&down(1, 0, 0, 0));
    d.feed(&up(1, 0, 0, 10));
    d.feed(&down(1, 30_000, 40_000, 300));
    d.feed(&up(1, 30_000, 40_000, 310));
    assert_eq!(d.poll(), vec![GestureEvent::Tap(0, 0), GestureEvent::DoubleTap(30_000, 40_000)]);
}

#[test]
fn distant_second_tap_is_a_tap() {
    let mut d = GestureDetector::with_all_kinds();
    d.feed(&down(1, 0, 0, 0));
    d.feed(&up(1, 0, 0, 10));
    d.feed(&down(1, 30_000, 40_001, 100));
    d.feed(&up(1, 30_000, 40_001, 110));
    assert_eq!(d.poll(), vec![GestureEvent::Tap(0, 0), GestureEvent::Tap(30_000, 40_001)]);
}

#[test]
fn long_press_is_no_tap() {
    let mut d = GestureDetector::with_all_kinds();
    d.feed(&down(1, 0, 0, 0));
    d.feed(&up(1, 0, 0, 300));
    assert_eq!(d.poll(), vec![]);
    d.feed(&down(1, 0, 0, 1_000));
    d.feed(&up(1, 0, 0, 1_299));
    assert_eq!(d.poll(), vec![GestureEvent::Tap(0, 0)]);
}

#[test]
fn drag_is_pan_start_pans_pan_end_and_no_tap() {
    let mut d = GestureDetector::with_all_kinds();
    d.feed(&down(7, 500_000, 500_000, 0));
    d.feed(&motion(7, 505_000, 500_000, 5_000, 0, 10));
    assert_eq!(d.poll(), vec![]);
    d.feed(&motion(7, 512_000, 500_000, 7_000, 0, 20));
    d.feed(&motion(7, 520_000, 501_000, 8_000, 1_000, 30));
    d.feed(&up(7, 520_000, 501_000, 40));
    assert_eq!(
        d.poll(),
        vec![
            GestureEvent::PanStart { x: 512_000, y: 500_000 },
            GestureEvent::Pan { x: 512_000, y: 500_000, dx: 7_000, dy: 0 },
            GestureEvent::Pan { x: 520_000, y: 501_000, dx: 8_000, dy: 1_000 },
            GestureEvent::PanEnd { x: 520_000, y: 501_000 },
        ]
    );
}

#[test]
fn displacement_of_exactly_the_threshold_is_still_a_tap() {
    let mut d = GestureDetector::with_all_kinds();
    d.feed(&down(1, 0, 0, 0));
    d.feed(&motion(1, 6_000, 8_000, 6_000, 8_000, 10));
    d.feed(&up(1, 6_000, 8_000, 20));
    assert_eq!(d.poll(), vec![GestureEvent::Tap(6_000, 8_000)]);
}

#[test]
fn pan_that_returns_to_its_start_still_ends_as_pan() {
    let mut d = GestureDetector::with_all_kinds();
    d.feed(&down(1, 0, 0, 0));
    d.feed(&motion(1, 20_000, 0, 20_000, 0, 10));
    d.feed(&motion(1, 0, 0, -20_000, 0, 20));
    d.feed(&up(1, 0, 0, 30));
    assert_eq!(
        d.poll(),
        vec![
            GestureEvent::PanStart { x: 20_000, y: 0 },
            GestureEvent::Pan { x: 20_000, y: 0, dx: 20_000, dy: 0 },
            GestureEvent::Pan { x: 0, y: 0, dx: -20_000, dy: 0 },
            GestureEvent::PanEnd { x: 0, y: 0 },
        ]
    );
}

#[test]
fn stray_up_and_motion_are_ignored() {
    let mut d = GestureDetector::with_all_kinds();
    d.feed(&up(9, 0, 0, 0));
    d.feed(&motion(9, 0, 0, 500_000, 0, 1));
    assert_eq!(d.poll(), vec![]);
    assert_eq!(d.active_fingers(), 0);
}

#[test]
fn multi_gesture_with_two_fingers_is_a_pinch() {
    let mut d = GestureDetector::with_all_kinds();
    d.feed(&RawInputEvent::MultiGesture {
        center_x: 500_000,
        center_y: 400_000,
        d_distance: 20_000,
        d_theta: 0,
        num_fingers: 2,
    });
    d.feed(&RawInputEvent::MultiGesture {
        center_x: 500_000,
        center_y: 400_000,
        d_distance: 20_000,
        d_theta: 0,
        num_fingers: 1,
    });
    assert_eq!(
        d.poll(),
        vec![GestureEvent::PinchUpdate { center_x: 500_000, center_y: 400_000, d_scale: 20_000 }]
    );
}

#[test]
fn two_fingers_down_suppress_taps_and_pans() {
    let mut d = GestureDetector::with_all_kinds();
    d.feed(&down(1, 0, 0, 0));
    d.feed(&down(2, 100_000, 0, 5));
    assert_eq!(d.active_fingers(), 2);
    d.feed(&motion(1, 50_000, 0, 50_000, 0, 10));
    d.feed(&up(2, 100_000, 0, 20));
    assert_eq!(d.poll(), vec![]);
    // the first finger is alone again, and has moved too far to tap
    d.feed(&up(1, 50_000, 0, 30));
    assert_eq!(d.poll(), vec![]);
    assert_eq!(d.active_fingers(), 0);
}

#[test]
fn disabled_kinds_are_dropped_but_still_detected() {
    let mut d = GestureDetector::new(vec![GestureDetectorTypes::Tap]);
    assert!(d.is_enabled(GestureDetectorTypes::Tap));
    assert!(!d.is_enabled(GestureDetectorTypes::DoubleTap));
    assert!(!d.is_enabled(GestureDetectorTypes::Pan));
    assert!(!d.is_enabled(GestureDetectorTypes::Pinch));
    d.feed(&down(1, 0, 0, 0));
    d.feed(&up(1, 0, 0, 10));
    d.feed(&down(1, 0, 0, 20));
    d.feed(&up(1, 0, 0, 30));
    // the second tap is a double tap, which is not reported; it is not a tap
    assert_eq!(d.poll(), vec![GestureEvent::Tap(0, 0)]);
    d.feed(&down(1, 0, 0, 1_000));
    d.feed(&motion(1, 500_000, 0, 500_000, 0, 1_010));
    d.feed(&up(1, 500_000, 0, 1_020));
    assert_eq!(d.poll(), vec![]);
}

#[test]
fn reset_forgets_fingers_but_not_kinds() {
    let mut d = GestureDetector::new(vec![GestureDetectorTypes::Pan, GestureDetectorTypes::Pan]);
    d.feed(&down(1, 0, 0, 0));
    d.feed(&down(2, 0, 0, 0));
    assert_eq!(d.active_fingers(), 2);
    d.reset();
    assert_eq!(d.active_fingers(), 0);
    assert!(d.is_enabled(GestureDetectorTypes::Pan));
    assert!(!d.is_enabled(GestureDetectorTypes::Tap));
    d.feed(&up(1, 0, 0, 10));
    assert_eq!(d.poll(), vec![]);
}

#[test]
fn second_down_of_same_finger_starts_over() {
    let mut d = GestureDetector::with_all_kinds();
    d.feed(&down(1, 0, 0, 0));
    d.feed(&down(1, 10, 10, 1_000));
    assert_eq!(d.active_fingers(), 1);
    d.feed(&up(1, 10, 10, 1_100));
    assert_eq!(d.poll(), vec![GestureEvent::Tap(10, 10)]);
}

#[test]
fn farther_than_is_strict_and_exact() {
    assert!(!is_farther_than(6_000, 8_000, 10_000));
    assert!(is_farther_than(6_000, 8_001, 10_000));
    assert!(!is_farther_than(0, 0, 0));
    assert!(is_farther_than(i64::MIN, i64::MIN, i64::MAX));
    assert!(!is_farther_than(i64::MAX, 0, i64::MAX));
}
