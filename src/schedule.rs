//! Frame pacing and the startup size check, as decisions on plain values.
use vstd::prelude::*;
use crate::grid::{WINDOW_HEIGHT, WINDOW_WIDTH};

verus! {

/// Target length of one frame, in milliseconds.
pub const FRAME_DURATION_MS: u128 = 220;

/// How long to sleep after a frame whose work took `elapsed_ms`: the rest of
/// the frame, or nothing once the frame is used up.
pub fn wait_for_next_frame(elapsed_ms: u128) -> (r: u64)
    ensures
        r == (if elapsed_ms < FRAME_DURATION_MS {
            FRAME_DURATION_MS - elapsed_ms
        } else {
            0
        }),
{
    if elapsed_ms < FRAME_DURATION_MS {
        (FRAME_DURATION_MS - elapsed_ms) as u64
    } else {
        0
    }
}

/// Whether a terminal of `width` columns and `height` rows can show the grid.
pub fn check_terminal_size(width: u16, height: u16) -> (r: bool)
    ensures
        r == (width >= WINDOW_WIDTH && height >= WINDOW_HEIGHT),
{
    width >= WINDOW_WIDTH && height >= WINDOW_HEIGHT
}

} // verus!
