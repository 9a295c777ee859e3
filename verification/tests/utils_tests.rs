use gallery::fixed::saturate_i32;
use gallery::fixed::to_pixels;
use gallery::fixed::whole_pixels;
use gallery::utils::convert;
use gallery::utils::get_window_dimensiton;
use gallery::utils::get_window_dimention;

#[test]
fn window_dimension_defaults() {
    assert_eq!(get_window_dimention(), (640, 500));
    assert_eq!(get_window_dimensiton(), (640, 500));
}

#[test]
fn convert_scales_ratio_to_pixels() {
    assert_eq!(convert(640, 500_000), 320);
    assert_eq!(convert(640, -300_000), -192);
    assert_eq!(convert(500, 1_000_000), 500);
    assert_eq!(convert(3, 500_000), 1);
    assert_eq!(convert(3, -500_000), -1);
    assert_eq!(convert(0, 777), 0);
    assert_eq!(convert(u32::MAX, i32::MAX), i32::MAX);
    assert_eq!(convert(u32::MAX, i32::MIN), i32::MIN);
}

#[test]
fn fixed_point_helpers_are_exact() {
    assert_eq!(to_pixels(-300_000, 640), -192_000_000);
    assert_eq!(to_pixels(i32::MIN, u32::MAX), -9_223_372_034_707_292_160);
    assert_eq!(whole_pixels(1_999_999), 1);
    assert_eq!(whole_pixels(-1_999_999), -1);
    assert_eq!(saturate_i32(i64::MAX), i32::MAX);
    assert_eq!(saturate_i32(i64::MIN), i32::MIN);
    assert_eq!(saturate_i32(-5), -5);
}
