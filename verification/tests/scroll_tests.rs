use gallery::display::Image;
use gallery::loader::loaded;
use gallery::loader::LoadRegister;
use gallery::rect::Rect;
use gallery::view::ScrollView;

const ONE: i64 = 1_000_000;

/// A view of 640 by 500 pixels whose content, 1280 by 500 pixels, is loaded.
fn wide_view() -> (ScrollView, LoadRegister) {
    let mut reg = LoadRegister::new();
    loaded(&mut reg, "wide", Some((1280, 500)));
    let mut v = ScrollView::new(Image::new_with_dimension("wide".to_string(), 640, 500));
    v.set_rect(0, 0, 640, 500);
    v.reset(&reg);
    (v, reg)
}

#[test]
fn fresh_view_is_centred_and_fitted() {
    let (v, _) = wide_view();
    assert_eq!(v.scale(), 1_000_000);
    assert_eq!(v.offset(), (0, 0));
    assert_eq!(v.offset_limit(), (0, 0));
    assert_eq!(v.velocity(), (0, 0));
    assert!(!v.zoom_mode());
}

#[test]
fn set_scale_computes_limits_from_the_fitted_content() {
    let (mut v, reg) = wide_view();
    // fitted content is 640 by 250; at a factor of 2 it is 1280 by 500
    v.set_scale(2_000_000, &reg);
    assert_eq!(v.scale(), 2_000_000);
    assert!(v.zoom_mode());
    assert_eq!(v.offset_limit(), (320 * ONE, 0));
    v.set_scale(3_000_000, &reg);
    assert_eq!(v.offset_limit(), (640 * ONE, 125 * ONE));
}

#[test]
fn set_scale_has_a_floor() {
    let (mut v, reg) = wide_view();
    v.set_scale(0, &reg);
    assert_eq!(v.scale(), 100_000);
    assert!(!v.zoom_mode());
    v.set_scale(99_999, &reg);
    assert_eq!(v.scale(), 100_000);
    v.set_scale(1_000_000, &reg);
    assert!(!v.zoom_mode());
    v.set_scale(1_000_001, &reg);
    assert!(v.zoom_mode());
}

#[test]
fn set_scale_twice_is_set_scale_once() {
    let (mut v, reg) = wide_view();
    v.set_scale(2_500_000, &reg);
    v.move_by(10_000 * ONE, 10_000 * ONE);
    v.set_scale(1_500_000, &reg);
    let once = (v.scale(), v.offset(), v.offset_limit(), v.zoom_mode());
    v.set_scale(1_500_000, &reg);
    assert_eq!((v.scale(), v.offset(), v.offset_limit(), v.zoom_mode()), once);
}

#[test]
fn set_scale_limits_the_offset_anew() {
    let (mut v, reg) = wide_view();
    v.set_scale(3_000_000, &reg);
    v.move_by(600 * ONE, 100 * ONE);
    assert_eq!(v.offset(), (600 * ONE, 100 * ONE));
    v.set_scale(2_000_000, &reg);
    assert_eq!(v.offset(), (320 * ONE, 0));
}

#[test]
fn set_scale_keeps_limits_while_content_is_not_loaded() {
    let reg = LoadRegister::new();
    let mut v = ScrollView::new(Image::new_with_dimension("missing".to_string(), 640, 500));
    v.set_rect(0, 0, 640, 500);
    v.set_scale(4_000_000, &reg);
    assert_eq!(v.offset_limit(), (0, 0));
    assert!(v.zoom_mode());
}

#[test]
fn move_by_hands_back_what_the_limit_keeps() {
    let (mut v, reg) = wide_view();
    v.set_scale(2_000_000, &reg);
    assert_eq!(v.move_by(100 * ONE, 7 * ONE), (0, 7 * ONE));
    assert_eq!(v.offset(), (100 * ONE, 0));
    assert_eq!(v.move_by(300 * ONE, 0), (80 * ONE, 0));
    assert_eq!(v.offset(), (320 * ONE, 0));
    assert_eq!(v.move_by(-700 * ONE, -1), (-60 * ONE, -1));
    assert_eq!(v.offset(), (-320 * ONE, 0));
}

#[test]
fn move_by_never_leaves_the_limits() {
    let (mut v, reg) = wide_view();
    v.set_scale(3_000_000, &reg);
    let deltas: [i64; 9] =
        [i64::MAX, i64::MIN, 1, -1, 640 * ONE, -1_280 * ONE, 17, i64::MAX, i64::MIN];
    for &dx in deltas.iter() {
        for &dy in deltas.iter() {
            let before = v.offset();
            let rest = v.move_by(dx, dy);
            let (ox, oy) = v.offset();
            let (lx, ly) = v.offset_limit();
            assert!(-lx <= ox && ox <= lx);
            assert!(-ly <= oy && oy <= ly);
            assert_eq!((ox - before.0) as i128 + rest.0 as i128, dx as i128);
            assert_eq!((oy - before.1) as i128 + rest.1 as i128, dy as i128);
        }
    }
}

#[test]
fn move_by_seeds_velocity_with_the_mean_of_the_last_three_deltas() {
    let (mut v, reg) = wide_view();
    v.set_scale(3_000_000, &reg);
    v.move_by(3 * ONE, 0);
    assert_eq!(v.velocity(), (3 * ONE, 0));
    v.move_by(6 * ONE, 0);
    assert_eq!(v.velocity().0, 4_500_000);
    v.move_by(9 * ONE, 3 * ONE);
    assert_eq!(v.velocity(), (6 * ONE, ONE));
    v.move_by(12 * ONE, 0);
    assert_eq!(v.velocity(), (9 * ONE, ONE));
}

#[test]
fn move_by_stops_momentum_at_the_limit() {
    let (mut v, reg) = wide_view();
    v.set_scale(2_000_000, &reg);
    v.move_by(400 * ONE, 5 * ONE);
    // pinned at both limits: 320 across, 0 down
    assert_eq!(v.offset(), (320 * ONE, 0));
    assert_eq!(v.velocity(), (0, 0));
}

#[test]
fn update_applies_velocity_then_friction() {
    let (mut v, reg) = wide_view();
    v.set_scale(3_000_000, &reg);
    v.move_by(10 * ONE, -10 * ONE);
    assert_eq!(v.velocity(), (10 * ONE, -10 * ONE));
    v.update();
    assert_eq!(v.offset(), (20 * ONE, -20 * ONE));
    assert_eq!(v.velocity(), (3 * ONE, -3 * ONE));
    v.update();
    assert_eq!(v.offset(), (23 * ONE, -23 * ONE));
    assert_eq!(v.velocity(), (900_000, -900_000));
    v.update();
    assert_eq!(v.velocity(), (270_000, -270_000));
}

#[test]
fn momentum_decays_geometrically_and_comes_to_rest() {
    let (mut v, reg) = wide_view();
    v.set_scale(3_000_000, &reg);
    v.move_by(100 * ONE, 0);
    let v0: i128 = 100 * ONE as i128;
    let mut pow3: i128 = 1;
    let mut pow10: i128 = 1;
    let mut n = 0;
    while v.velocity().0 >= 10 {
        // exact velocity is v0 * 0.3^n; the stored one is short by less than 2
        let stored = v.velocity().0 as i128;
        assert!(stored * pow10 <= v0 * pow3);
        assert!(v0 * pow3 < (stored + 2) * pow10);
        v.update();
        pow3 *= 3;
        pow10 *= 10;
        n += 1;
        assert!(n < 100);
    }
    // 100 px * 0.3^14 is about 4.8 units and below epsilon; 0.3^13 is about 15.9
    assert_eq!(n, 14);
    let resting = v.offset();
    v.update();
    assert_eq!(v.velocity(), (0, 0));
    assert_eq!(v.offset(), resting);
    v.update();
    assert_eq!(v.velocity(), (0, 0));
    assert_eq!(v.offset(), resting);
}

#[test]
fn update_of_a_view_at_rest_changes_nothing() {
    let (mut v, reg) = wide_view();
    v.set_scale(2_000_000, &reg);
    v.set_pos(50 * ONE, 0);
    v.update();
    assert_eq!(v.offset(), (50 * ONE, 0));
    assert_eq!(v.velocity(), (0, 0));
    assert_eq!(v.scale(), 2_000_000);
}

#[test]
fn enter_zoom_covers_the_frame() {
    let (mut v, reg) = wide_view();
    v.enter_zoom(&reg);
    // covering width 1280 over fitted width 640
    assert_eq!(v.scale(), 2_000_000);
    assert!(v.zoom_mode());
    assert_eq!(v.offset_limit(), (320 * ONE, 0));
    v.move_by(100 * ONE, 0);
    v.exit_zoom(&reg);
    assert_eq!(v.scale(), 1_000_000);
    assert!(!v.zoom_mode());
    assert_eq!(v.offset(), (0, 0));
    assert_eq!(v.offset_limit(), (0, 0));
}

#[test]
fn enter_zoom_of_content_that_fills_the_frame_is_zoom_mode_at_factor_one() {
    let mut reg = LoadRegister::new();
    loaded(&mut reg, "same", Some((1280, 1000)));
    let mut v = ScrollView::new(Image::new_with_dimension("same".to_string(), 640, 500));
    v.set_rect(0, 0, 640, 500);
    v.enter_zoom(&reg);
    assert_eq!(v.scale(), 1_000_000);
    assert!(v.zoom_mode());
}

#[test]
fn enter_zoom_without_content_uses_the_default_factor() {
    let reg = LoadRegister::new();
    let mut v = ScrollView::new(Image::new_with_dimension("missing".to_string(), 640, 500));
    v.set_rect(0, 0, 640, 500);
    v.enter_zoom(&reg);
    assert_eq!(v.scale(), 2_000_000);
    assert!(v.zoom_mode());
}

#[test]
fn scale_by_adds_and_saturates() {
    let (mut v, reg) = wide_view();
    v.scale_by(0, 0, 500_000, &reg);
    assert_eq!(v.scale(), 1_500_000);
    v.scale_by(0, 0, -5_000_000, &reg);
    assert_eq!(v.scale(), 100_000);
    v.scale_by(0, 0, i64::MAX, &reg);
    assert_eq!(v.scale(), u32::MAX);
    v.scale_by(0, 0, i64::MIN, &reg);
    assert_eq!(v.scale(), 100_000);
}

#[test]
fn set_pos_limits_each_component() {
    let (mut v, reg) = wide_view();
    v.set_scale(3_000_000, &reg);
    v.set_pos(i64::MAX, i64::MIN);
    assert_eq!(v.offset(), (640 * ONE, -125 * ONE));
    v.set_pos(-5, 6);
    assert_eq!(v.offset(), (-5, 6));
}

#[test]
fn content_rect_is_scaled_and_shifted() {
    let (mut v, reg) = wide_view();
    let frame = Rect::new(0, 0, 640, 500);
    assert_eq!(v.content_rect(frame), Rect::new(0, 0, 640, 500));
    v.set_scale(2_000_000, &reg);
    assert_eq!(v.content_rect(frame), Rect::new(-320, -250, 1280, 1000));
    v.move_by(100 * ONE + 999_999, 0);
    assert_eq!(v.content_rect(frame), Rect::new(-220, -250, 1280, 1000));
    v.move_by(-201 * ONE, 0);
    assert_eq!(v.offset().0, -100 * ONE - 1);
    assert_eq!(v.content_rect(frame), Rect::new(-420, -250, 1280, 1000));
}
