//! The fixed parameters of the playground.

use vstd::prelude::*;
use crate::color::Rgb;

verus! {

/// Number of tile columns of the grid.
pub const TILE_COUNT_X: u16 = 15;

/// Number of tile rows of the grid.
pub const TILE_COUNT_Y: u16 = 9;

/// The longest tail that may still grow. The `i`-th tail segment lies at
/// most `i + 1` cells outside the grid, so up to this length the
/// coordinates of a new segment fit `i32`.
pub const MAX_TAIL_LEN: usize = 0x7fff_0000;

/// The colour of the snake's head.
pub open spec fn spec_snake_head_color() -> Rgb {
    Rgb { r: 5, g: 185, b: 190 }
}

/// The colour of the snake's tail segments.
pub open spec fn spec_snake_tail_color() -> Rgb {
    Rgb { r: 25, g: 200, b: 50 }
}

/// The colour of the apples.
pub open spec fn spec_apple_color() -> Rgb {
    Rgb { r: 250, g: 40, b: 25 }
}

/// The colour of the snake's head.
#[verifier::when_used_as_spec(spec_snake_head_color)]
pub fn snake_head_color() -> (color: Rgb)
    ensures
        color == spec_snake_head_color(),
{
    Rgb::new(5, 185, 190)
}

/// The colour of the snake's tail segments.
#[verifier::when_used_as_spec(spec_snake_tail_color)]
pub fn snake_tail_color() -> (color: Rgb)
    ensures
        color == spec_snake_tail_color(),
{
    Rgb::new(25, 200, 50)
}

/// The colour of the apples.
#[verifier::when_used_as_spec(spec_apple_color)]
pub fn apple_color() -> (color: Rgb)
    ensures
        color == spec_apple_color(),
{
    Rgb::new(250, 40, 25)
}

} // verus!
