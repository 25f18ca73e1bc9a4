use mandelbrot_view::fixed::FIX_ONE;
use mandelbrot_view::fractal::escape_index;
use mandelbrot_view::fractal::pixel_color;
use mandelbrot_view::fractal::pixel_to_c;
use mandelbrot_view::fractal::Rgba;

#[test]
fn quad_center_never_escapes_and_is_white() {
    // Under zoom 1 and offset (0, 0) the quad center maps to c = (0, 0),
    // where z stays at the origin forever.
    assert_eq!(escape_index(0, 0, 1000), None);
    let c: Rgba = pixel_color(0, 0, 1000);
    assert_eq!(c, Rgba { red: 1, green: 1, blue: 1, alpha: 1 });
}

#[test]
fn corner_point_escapes_early() {
    // c = (2, 2): after one step z = (2, 2) is still inside the radius,
    // after two z = (2, 10) is far outside, so the escape index is 1 and
    // the integer-divided shade is 0.
    let two: i64 = 2 * FIX_ONE;
    assert_eq!(escape_index(two, two, 1000), Some(1));
    let c: Rgba = pixel_color(two, two, 1000);
    assert_eq!(c, Rgba { red: 0, green: 0, blue: 0, alpha: 1 });
}

#[test]
fn far_point_escapes_at_index_zero() {
    let five: i64 = 5 * FIX_ONE;
    assert_eq!(escape_index(five, 0, 1000), Some(0));
    let c: Rgba = pixel_color(five, 0, 1000);
    assert_eq!(c, Rgba { red: 0, green: 0, blue: 0, alpha: 1 });
}

#[test]
fn radius_is_left_only_strictly_beyond_four() {
    // c = (4, 0) sits exactly on the escape radius: not out at step 0,
    // but the next step lands at (20, 0).
    let four: i64 = 4 * FIX_ONE;
    assert_eq!(escape_index(four, 0, 1000), Some(1));
}

#[test]
fn escape_at_the_limit_shades_full() {
    // With limit 1, c = (2, 2) escapes at index 1 and 1 / 1 == 1: the one
    // escape index that shades a full channel.
    let two: i64 = 2 * FIX_ONE;
    assert_eq!(escape_index(two, two, 1), Some(1));
    let c: Rgba = pixel_color(two, two, 1);
    assert_eq!(c, Rgba { red: 1, green: 1, blue: 1, alpha: 1 });
}

#[test]
fn never_escaping_within_a_tiny_limit_is_white() {
    // c = (0.25, 0) stays bounded; with any limit the pixel stays white.
    let quarter: i64 = FIX_ONE / 4;
    assert_eq!(escape_index(quarter, 0, 3), None);
    let c: Rgba = pixel_color(quarter, 0, 3);
    assert_eq!(c, Rgba { red: 1, green: 1, blue: 1, alpha: 1 });
}

#[test]
fn quad_corner_maps_through_zoom_and_offset() {
    // Quad corner (1, 1) under zoom 2 and offset (0, 0) is c = (2, 2).
    let (cx, cy): (i64, i64) = pixel_to_c(FIX_ONE, FIX_ONE, 2 * FIX_ONE, 0, 0);
    assert_eq!(cx, 2 * FIX_ONE);
    assert_eq!(cy, 2 * FIX_ONE);
    assert_eq!(escape_index(cx, cy, 1000), Some(1));
}

#[test]
fn quad_center_maps_to_the_offset() {
    let (cx, cy): (i64, i64) = pixel_to_c(0, 0, 7 * FIX_ONE, 1234, -99);
    assert_eq!(cx, 1234);
    assert_eq!(cy, -99);
}
