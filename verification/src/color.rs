//! Colors: opaque RGB marker colors, their faint trail variants, and random
//! color assignment.

use vstd::prelude::*;

use crate::rng::random_in_range;

verus! {

/// The fixed low alpha of every permanent trail mark.
pub const TRAIL_ALPHA: u8 = 15;

/// An opaque RGB color, used for the moving token marker itself.
#[derive(Clone, Copy, PartialEq, Eq, Structural, Debug)]
pub struct Rgb {
    pub r: u8,
    pub g: u8,
    pub b: u8,
}

/// An RGBA color: either the constant background or a faint trail mark.
#[derive(Clone, Copy, PartialEq, Eq, Structural, Debug)]
pub struct Rgba {
    pub r: u8,
    pub g: u8,
    pub b: u8,
    pub a: u8,
}

/// The constant background color every cell starts from and is reset to.
pub open spec fn background() -> Rgba {
    Rgba { r: 47, g: 47, b: 47, a: 255 }
}

/// The trail variant of a marker color: the same RGB at the fixed low alpha.
pub open spec fn trail_variant(c: Rgb) -> Rgba {
    Rgba { r: c.r, g: c.g, b: c.b, a: TRAIL_ALPHA }
}

/// The background color as a value.
pub fn background_color() -> (c: Rgba)
    ensures
        c == background(),
{
    Rgba { r: 47, g: 47, b: 47, a: 255 }
}

/// The given RGB color with the given alpha.
pub fn with_alpha(c: Rgb, alpha: u8) -> (r: Rgba)
    ensures
        r == (Rgba { r: c.r, g: c.g, b: c.b, a: alpha }),
{
    Rgba { r: c.r, g: c.g, b: c.b, a: alpha }
}

/// A random byte, one uniform draw per channel.
fn random_byte() -> (b: u8)
{
    let v = random_in_range(0, 255);
    v as u8
}

/// A random opaque marker color together with its faint trail variant: three
/// independent uniform channel bytes, and the same RGB at the trail alpha.
pub fn generate_random_color() -> (pair: (Rgb, Rgba))
    ensures
        pair.1 == trail_variant(pair.0),
{
    let color = Rgb { r: random_byte(), g: random_byte(), b: random_byte() };
    let color_a = with_alpha(color, TRAIL_ALPHA);
    (color, color_a)
}

/// The two tokens' initial colors: two independent random marker colors,
/// each with its faint trail variant.
pub fn initial_colors() -> (pair: ((Rgb, Rgba), (Rgb, Rgba)))
    ensures
        pair.0.1 == trail_variant(pair.0.0),
        pair.1.1 == trail_variant(pair.1.0),
{
    (generate_random_color(), generate_random_color())
}

} // verus!
