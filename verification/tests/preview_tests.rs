use gallery::gesture::GestureEvent;
use gallery::gesture::RawInputEvent;
use gallery::loader::loaded;
use gallery::loader::LoadRegister;
use gallery::model::Gallery;
use gallery::model::Picture;
use gallery::rect::Rect;
use gallery::view::Preview;

const ONE: i64 = 1_000_000;

fn gallery_of(n: usize) -> Gallery {
    let mut pics = Vec::new();
    for i in 0..n {
        pics.push(Picture { preview: format!("thumb{}", i), url: format!("pic{}", i) });
    }
    Gallery { pics }
}

fn carousel(n: usize, at: usize) -> (Preview, LoadRegister) {
    let mut reg = LoadRegister::new();
    for i in 0..n {
        let key = format!("pic{}", i);
        loaded(&mut reg, &key, Some((1280, 500)));
    }
    let mut p = Preview::new(640, 500, gallery_of(n), &reg);
    p.set_curr_image(at, &reg);
    (p, reg)
}

fn pan_start() -> GestureEvent {
    GestureEvent::PanStart { x: 500_000, y: 500_000 }
}

fn pan(dx: i32, dy: i32) -> GestureEvent {
    GestureEvent::Pan { x: 500_000, y: 500_000, dx, dy }
}

fn pan_end() -> GestureEvent {
    GestureEvent::PanEnd { x: 500_000, y: 500_000 }
}

#[test]
fn new_carousel_shows_the_first_picture() {
    let (p, _) = carousel(5, 0);
    assert_eq!(p.img_idx(), 0);
    assert_eq!(p.translate_x(), 0);
    assert!(!p.is_dragging());
    assert!(p.transition().is_none());
    assert_eq!(p.prev().get_content().get_src(), "");
    assert_eq!(p.curr().get_content().get_src(), "pic0");
    assert_eq!(p.next().get_content().get_src(), "pic1");
    assert!(p.is_interactive());
}

#[test]
fn set_curr_image_loads_the_neighbours() {
    let (mut p, reg) = carousel(5, 2);
    assert_eq!(p.prev().get_content().get_src(), "pic1");
    assert_eq!(p.curr().get_content().get_src(), "pic2");
    assert_eq!(p.next().get_content().get_src(), "pic3");
    p.set_curr_image(4, &reg);
    assert_eq!(p.prev().get_content().get_src(), "pic3");
    assert_eq!(p.curr().get_content().get_src(), "pic4");
    assert_eq!(p.next().get_content().get_src(), "");
    p.set_curr_image(9, &reg);
    assert_eq!(p.img_idx(), 9);
    assert_eq!(p.prev().get_content().get_src(), "");
    assert_eq!(p.curr().get_content().get_src(), "");
    assert_eq!(p.next().get_content().get_src(), "");
    p.set_curr_image(5, &reg);
    assert_eq!(p.prev().get_content().get_src(), "pic4");
    p.set_curr_image(usize::MAX, &reg);
    assert_eq!(p.next().get_content().get_src(), "");
}

#[test]
fn leftward_pan_beyond_threshold_turns_to_the_next_picture() {
    let (mut p, reg) = carousel(5, 2);
    p.handle_gesture(&pan_start(), 1_000, &reg);
    assert!(p.is_dragging());
    p.handle_gesture(&pan(-300_000, 0), 1_010, &reg);
    assert_eq!(p.translate_x(), -192);
    p.handle_gesture(&pan_end(), 1_020, &reg);
    assert!(!p.is_dragging());
    let t = p.transition().unwrap();
    assert_eq!(t.step(1_020), -192);
    assert_eq!(t.target_val(), -670);
    assert_eq!(p.img_idx(), 2);
    p.update(1_170, &reg);
    assert_eq!(p.translate_x(), -431);
    assert_eq!(p.img_idx(), 2);
    assert!(p.transition().is_some());
    p.update(1_320, &reg);
    assert_eq!(p.img_idx(), 3);
    assert_eq!(p.translate_x(), 0);
    assert!(p.transition().is_none());
    assert_eq!(p.prev().get_content().get_src(), "pic2");
    assert_eq!(p.curr().get_content().get_src(), "pic3");
    assert_eq!(p.next().get_content().get_src(), "pic4");
    assert_eq!(p.prev().offset(), (0, 0));
    assert_eq!(p.curr().offset(), (0, 0));
    assert_eq!(p.next().offset(), (0, 0));
    assert_eq!(p.prev().scale(), 1_000_000);
    assert_eq!(p.curr().scale(), 1_000_000);
    assert_eq!(p.next().scale(), 1_000_000);
    // nothing is left to do
    p.update(1_400, &reg);
    assert_eq!(p.img_idx(), 3);
    assert_eq!(p.translate_x(), 0);
}

#[test]
fn rightward_pan_at_the_first_picture_snaps_back() {
    let (mut p, reg) = carousel(5, 0);
    p.handle_gesture(&pan_start(), 0, &reg);
    p.handle_gesture(&pan(300_000, 0), 10, &reg);
    assert_eq!(p.translate_x(), 192);
    p.handle_gesture(&pan_end(), 20, &reg);
    let t = p.transition().unwrap();
    assert_eq!(t.target_val(), 0);
    p.update(320, &reg);
    assert_eq!(p.img_idx(), 0);
    assert_eq!(p.translate_x(), 0);
    assert!(p.transition().is_none());
}

#[test]
fn leftward_pan_at_the_last_picture_snaps_back() {
    let (mut p, reg) = carousel(5, 4);
    p.handle_gesture(&pan_start(), 0, &reg);
    p.handle_gesture(&pan(-300_000, 0), 10, &reg);
    p.handle_gesture(&pan_end(), 20, &reg);
    assert_eq!(p.transition().unwrap().target_val(), 0);
    p.update(400, &reg);
    assert_eq!(p.img_idx(), 4);
    assert_eq!(p.translate_x(), 0);
}

#[test]
fn rightward_pan_turns_to_the_previous_picture() {
    let (mut p, reg) = carousel(5, 2);
    p.handle_gesture(&pan_start(), 0, &reg);
    p.handle_gesture(&pan(100_000, 0), 10, &reg);
    assert_eq!(p.translate_x(), 64);
    p.handle_gesture(&pan_end(), 20, &reg);
    assert_eq!(p.transition().unwrap().target_val(), 670);
    p.update(320, &reg);
    assert_eq!(p.img_idx(), 1);
    assert_eq!(p.translate_x(), 0);
}

#[test]
fn short_pan_snaps_back() {
    let (mut p, reg) = carousel(5, 2);
    p.handle_gesture(&pan_start(), 0, &reg);
    // 50 pixels is not more than the threshold
    p.handle_gesture(&pan(-78_125, 0), 10, &reg);
    assert_eq!(p.translate_x(), -50);
    p.handle_gesture(&pan_end(), 20, &reg);
    assert_eq!(p.transition().unwrap().target_val(), 0);
    p.update(320, &reg);
    assert_eq!(p.img_idx(), 2);
    assert_eq!(p.translate_x(), 0);
}

#[test]
fn empty_gallery_never_turns() {
    let (mut p, reg) = carousel(0, 0);
    p.handle_gesture(&pan_start(), 0, &reg);
    p.handle_gesture(&pan(-300_000, 0), 10, &reg);
    p.handle_gesture(&pan_end(), 20, &reg);
    assert_eq!(p.transition().unwrap().target_val(), 0);
    p.update(320, &reg);
    assert_eq!(p.img_idx(), 0);
}

#[test]
fn pan_start_cancels_a_running_transition() {
    let (mut p, reg) = carousel(5, 2);
    p.handle_gesture(&pan_start(), 0, &reg);
    p.handle_gesture(&pan(-300_000, 0), 10, &reg);
    p.handle_gesture(&pan_end(), 20, &reg);
    p.update(170, &reg);
    let mid = p.translate_x();
    assert_eq!(mid, -431);
    p.handle_gesture(&pan_start(), 180, &reg);
    assert!(p.transition().is_none());
    assert!(p.is_dragging());
    p.update(1_000, &reg);
    assert_eq!(p.translate_x(), mid);
    assert_eq!(p.img_idx(), 2);
}

#[test]
fn double_tap_toggles_zoom_of_the_current_view() {
    let (mut p, reg) = carousel(5, 2);
    p.handle_gesture(&GestureEvent::DoubleTap(0, 0), 0, &reg);
    assert!(p.curr().zoom_mode());
    assert_eq!(p.curr().scale(), 2_000_000);
    assert!(!p.prev().zoom_mode());
    p.handle_gesture(&GestureEvent::DoubleTap(0, 0), 10, &reg);
    assert!(!p.curr().zoom_mode());
    assert_eq!(p.curr().scale(), 1_000_000);
}

#[test]
fn double_tap_and_pinch_are_ignored_during_a_transition() {
    let (mut p, reg) = carousel(5, 2);
    p.handle_gesture(&pan_start(), 0, &reg);
    p.handle_gesture(&pan_end(), 10, &reg);
    assert!(p.transition().is_some());
    p.handle_gesture(&GestureEvent::DoubleTap(0, 0), 20, &reg);
    assert!(!p.curr().zoom_mode());
    p.handle_gesture(
        &GestureEvent::PinchUpdate { center_x: 0, center_y: 0, d_scale: 100_000 },
        30,
        &reg,
    );
    assert_eq!(p.curr().scale(), 1_000_000);
}

#[test]
fn pinch_scales_by_five_times_the_distance() {
    let (mut p, reg) = carousel(5, 2);
    p.handle_gesture(
        &GestureEvent::PinchUpdate { center_x: 500_000, center_y: 500_000, d_scale: 100_000 },
        0,
        &reg,
    );
    assert_eq!(p.curr().scale(), 1_500_000);
    assert!(p.curr().zoom_mode());
    p.handle_gesture(
        &GestureEvent::PinchUpdate { center_x: 500_000, center_y: 500_000, d_scale: i32::MIN },
        0,
        &reg,
    );
    assert_eq!(p.curr().scale(), 100_000);
}

#[test]
fn zoomed_view_takes_the_pan_and_hands_on_the_rest() {
    let (mut p, reg) = carousel(5, 2);
    p.handle_gesture(&GestureEvent::DoubleTap(0, 0), 0, &reg);
    assert_eq!(p.curr().offset_limit(), (320 * ONE, 0));
    p.handle_gesture(&pan_start(), 10, &reg);
    // 192 pixels to the left: all of it moves the zoomed picture
    p.handle_gesture(&pan(-300_000, 0), 20, &reg);
    assert_eq!(p.curr().offset(), (-192 * ONE, 0));
    assert_eq!(p.translate_x(), 0);
    // another 192: 128 reach the limit, 64 move the carousel
    p.handle_gesture(&pan(-300_000, 0), 30, &reg);
    assert_eq!(p.curr().offset(), (-320 * ONE, 0));
    assert_eq!(p.translate_x(), -64);
    // back to the right by 100: first the carousel settles, the rest moves the picture
    p.handle_gesture(&pan(156_250, 0), 40, &reg);
    assert_eq!(p.translate_x(), 0);
    assert_eq!(p.curr().offset(), (-284 * ONE, 0));
}

#[test]
fn opposing_pan_smaller_than_the_overscroll_only_settles() {
    let (mut p, reg) = carousel(5, 2);
    p.handle_gesture(&pan_start(), 0, &reg);
    p.handle_gesture(&pan(-100_000, 0), 10, &reg);
    assert_eq!(p.translate_x(), -64);
    // 2.56 pixels to the right: the whole pixels settle, the fraction is dropped
    p.handle_gesture(&pan(4_000, 0), 20, &reg);
    assert_eq!(p.translate_x(), -62);
}

#[test]
fn momentum_runs_only_while_zoomed_and_not_dragged() {
    let (mut p, reg) = carousel(5, 2);
    p.handle_gesture(&GestureEvent::DoubleTap(0, 0), 0, &reg);
    p.handle_gesture(&pan_start(), 10, &reg);
    p.handle_gesture(&pan(-15_625, 0), 20, &reg);
    assert_eq!(p.curr().offset(), (-10 * ONE, 0));
    assert_eq!(p.curr().velocity(), (-10 * ONE, 0));
    p.update(30, &reg);
    assert_eq!(p.curr().offset(), (-10 * ONE, 0));
    p.handle_gesture(&pan_end(), 40, &reg);
    p.update(50, &reg);
    assert_eq!(p.curr().offset(), (-20 * ONE, 0));
    assert_eq!(p.curr().velocity(), (-3 * ONE, 0));
}

#[test]
fn raw_events_drive_the_carousel() {
    let (mut p, reg) = carousel(5, 2);
    let down = RawInputEvent::FingerDown { id: 1, x: 800_000, y: 500_000, t: 0 };
    let moved = RawInputEvent::FingerMotion {
        id: 1,
        x: 500_000,
        y: 500_000,
        dx: -300_000,
        dy: 0,
        t: 10,
    };
    let up = RawInputEvent::FingerUp { id: 1, x: 500_000, y: 500_000, t: 20 };
    assert_eq!(p.handle_events(&down, 0, &reg), None);
    assert_eq!(p.handle_events(&moved, 10, &reg), None);
    assert!(p.is_dragging());
    assert_eq!(p.translate_x(), -192);
    assert_eq!(p.handle_events(&up, 20, &reg), None);
    assert!(!p.is_dragging());
    assert_eq!(p.img_idx(), 2);
    p.update(320, &reg);
    assert_eq!(p.img_idx(), 3);
}

#[test]
fn raw_double_tap_zooms() {
    let (mut p, reg) = carousel(5, 2);
    let taps = [
        RawInputEvent::FingerDown { id: 1, x: 500_000, y: 500_000, t: 0 },
        RawInputEvent::FingerUp { id: 1, x: 500_000, y: 500_000, t: 50 },
        RawInputEvent::FingerDown { id: 1, x: 500_000, y: 500_000, t: 150 },
        RawInputEvent::FingerUp { id: 1, x: 500_000, y: 500_000, t: 200 },
    ];
    for e in taps.iter() {
        p.handle_events(e, 0, &reg);
    }
    assert!(p.curr().zoom_mode());
}

#[test]
fn layout_shows_the_neighbour_that_slides_in() {
    let (mut p, reg) = carousel(5, 2);
    let frame = Rect::new(0, 0, 640, 500);
    let l = p.layout(frame);
    assert_eq!(l.prev, None);
    assert_eq!(l.curr, frame);
    assert_eq!(l.next, None);
    p.handle_gesture(&pan_start(), 0, &reg);
    p.handle_gesture(&pan(-100_000, 0), 10, &reg);
    let l = p.layout(frame);
    assert_eq!(l.prev, None);
    assert_eq!(l.curr, Rect::new(-64, 0, 640, 500));
    assert_eq!(l.next, Some(Rect::new(606, 0, 640, 500)));
    p.handle_gesture(&pan(200_000, 0), 20, &reg);
    assert_eq!(p.translate_x(), 64);
    let l = p.layout(frame);
    assert_eq!(l.prev, Some(Rect::new(-606, 0, 640, 500)));
    assert_eq!(l.curr, Rect::new(64, 0, 640, 500));
    assert_eq!(l.next, None);
}

#[test]
fn raw_pinch_scales_the_current_view() {
    let (mut p, reg) = carousel(5, 2);
    let pinch = RawInputEvent::MultiGesture {
        center_x: 500_000,
        center_y: 500_000,
        d_distance: 40_000,
        d_theta: 0,
        num_fingers: 2,
    };
    assert_eq!(p.handle_events(&pinch, 0, &reg), None);
    assert_eq!(p.curr().scale(), 1_200_000);
    assert_eq!(p.curr().offset_limit(), (64 * ONE, 0));
    let lone = RawInputEvent::MultiGesture {
        center_x: 500_000,
        center_y: 500_000,
        d_distance: 40_000,
        d_theta: 0,
        num_fingers: 1,
    };
    p.handle_events(&lone, 10, &reg);
    assert_eq!(p.curr().scale(), 1_200_000);
}

#[test]
fn tap_leaves_the_carousel_as_it_is() {
    let (mut p, reg) = carousel(5, 2);
    p.handle_gesture(&GestureEvent::Tap(500_000, 500_000), 0, &reg);
    assert_eq!(p.img_idx(), 2);
    assert_eq!(p.translate_x(), 0);
    assert!(!p.is_dragging());
    assert!(p.transition().is_none());
    assert_eq!(p.curr().scale(), 1_000_000);
}

#[test]
fn update_of_an_idle_carousel_changes_nothing() {
    let (mut p, reg) = carousel(5, 2);
    for now in 0..10u64 {
        p.update(now * 16, &reg);
    }
    assert_eq!(p.img_idx(), 2);
    assert_eq!(p.translate_x(), 0);
    assert_eq!(p.curr().offset(), (0, 0));
    assert_eq!(p.curr().velocity(), (0, 0));
}
