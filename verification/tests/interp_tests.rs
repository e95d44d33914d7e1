use gridwalk::Coord;
use gridwalk::color::Rgb;
use gridwalk::color::Rgba;
use gridwalk::color::generate_random_color;
use gridwalk::color::with_alpha;
use gridwalk::interp::interpolate;

fn c(x: i32, y: i32) -> Coord {
    Coord { x, y }
}

#[test]
fn at_zero_the_point_is_the_committed_position() {
    let p = interpolate(c(1, 3), c(2, 2), 0);
    assert_eq!(p.x, 1_000_000);
    assert_eq!(p.y, 3_000_000);
}

#[test]
fn at_the_halfway_point_the_point_is_the_exact_midpoint() {
    let p = interpolate(c(1, 3), c(2, 2), 500);
    assert_eq!(p.x, 1_500_000);
    assert_eq!(p.y, 2_500_000);
}

#[test]
fn at_the_end_the_point_is_the_planned_position() {
    let p = interpolate(c(1, 3), c(2, 2), 1000);
    assert_eq!(p.x, 2_000_000);
    assert_eq!(p.y, 2_000_000);
}

#[test]
fn easing_accelerates_then_decelerates() {
    // Below halfway: f(1/4) = 2 (1/4)^2 = 1/8 of the way.
    let early = interpolate(c(1, 1), c(2, 1), 250);
    assert_eq!(early.x, 1_125_000);
    // Beyond halfway: f(3/4) = -1 + (4 - 3/2) (3/4) = 7/8 of the way.
    let late = interpolate(c(1, 1), c(2, 1), 750);
    assert_eq!(late.x, 1_875_000);
}

#[test]
fn interpolation_is_pure() {
    let a = interpolate(c(2, 5), c(3, 4), 333);
    let b = interpolate(c(2, 5), c(3, 4), 333);
    assert_eq!(a, b);
}

#[test]
fn with_alpha_keeps_the_channels() {
    let rgba = with_alpha(Rgb { r: 235, g: 65, b: 55 }, 15);
    assert_eq!(rgba, Rgba { r: 235, g: 65, b: 55, a: 15 });
}

#[test]
fn random_color_comes_with_its_faint_trail_variant() {
    for _ in 0..20 {
        let (color, trail) = generate_random_color();
        assert_eq!(trail, Rgba { r: color.r, g: color.g, b: color.b, a: 15 });
    }
}
