//! Fixed configuration values, read through functions so that an external
//! configuration source can replace them later.

use vstd::prelude::*;

verus! {

/// The frame rate cap.
pub fn max_fps() -> (r: u32)
    ensures
        r == 30,
{
    30
}

/// The screen width, in character cells.
pub fn screen_width_char() -> (r: u32)
    ensures
        r == 80,
{
    80
}

/// The screen height, in character cells.
pub fn screen_height_char() -> (r: u32)
    ensures
        r == 50,
{
    50
}

/// The window title.
pub fn window_title() -> (r: &'static str)
    ensures
        r@ == "z-buffer-game"@,
{
    "z-buffer-game"
}

} // verus!
