use project_evolution::util::clamp_to_range;
use project_evolution::util::half_i64;
use project_evolution::util::hsv_to_rgb;
use project_evolution::util::isqrt;

#[test]
fn it_compiles() {
    assert!(true);
}

#[test]
pub fn hsv_to_rgb_test() {
    assert_eq!(hsv_to_rgb(0, 100, 100), (255, 0, 0));
    assert_eq!(hsv_to_rgb(0, 50, 100), (255, 127, 127));
    assert_eq!(hsv_to_rgb(67, 65, 34), (80, 86, 30));
    assert_eq!(hsv_to_rgb(236, 66, 63), (54, 61, 160));
}

#[test]
fn hsv_to_rgb_grey_when_unsaturated() {
    assert_eq!(hsv_to_rgb(123, 0, 100), (255, 255, 255));
    assert_eq!(hsv_to_rgb(0, 0, 0), (0, 0, 0));
    assert_eq!(hsv_to_rgb(300, 0, 50), (127, 127, 127));
}

#[test]
fn hsv_to_rgb_wraps_hue() {
    assert_eq!(hsv_to_rgb(360, 100, 100), hsv_to_rgb(0, 100, 100));
    assert_eq!(hsv_to_rgb(427, 65, 34), hsv_to_rgb(67, 65, 34));
}

#[test]
fn clamp_to_range_test() {
    assert_eq!(clamp_to_range(5, 1, 3), 3);
    assert_eq!(clamp_to_range(0, 1, 3), 1);
    assert_eq!(clamp_to_range(2, 1, 3), 2);
    assert_eq!(clamp_to_range(-10, -3, -1), -3);
    assert_eq!(clamp_to_range(7, 7, 7), 7);
}

#[test]
fn isqrt_test() {
    assert_eq!(isqrt(0), 0);
    assert_eq!(isqrt(1), 1);
    assert_eq!(isqrt(2), 1);
    assert_eq!(isqrt(3), 1);
    assert_eq!(isqrt(4), 2);
    assert_eq!(isqrt(8_000_000), 2828);
    assert_eq!(isqrt(25_000_000), 5000);
    assert_eq!(isqrt(u64::MAX), 4_294_967_295);
}

#[test]
fn half_rounds_toward_zero() {
    assert_eq!(half_i64(7), 3);
    assert_eq!(half_i64(-7), -3);
    assert_eq!(half_i64(8), 4);
    assert_eq!(half_i64(0), 0);
}
