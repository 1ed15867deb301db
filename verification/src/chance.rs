//! The one source of randomness: macroquad's global generator.

use vstd::prelude::*;

verus! {

/// Draws a number from macroquad's global pseudo-random generator through
/// `macroquad::rand::gen_range`. The generator maps a 32-bit draw to a
/// fraction in `[0, 1)`, scales it to the width of the range, adds `low` and
/// rounds towards zero, so the result is at least `low` and below `high`.
/// Which number comes out depends on the generator's state, of which nothing
/// is claimed.
#[verifier::external_body]
pub(crate) fn draw_between(low: u8, high: u8) -> (drawn: u8)
    requires
        low < high,
    ensures
        low <= drawn < high,
{
    macroquad::rand::gen_range(low, high)
}

} // verus!
