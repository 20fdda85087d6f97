use vstd::prelude::*;

pub mod special_case_introducer;
pub mod special_characters;

verus! {

/// The number of frames that the front end aims to draw in a second.
pub const TARGET_FRAMERATE: usize = 60;

/// The milliseconds of each frame that are kept back for drawing.
pub const RENDER_ALLOWANCE_MS: i32 = 3;

/// The longest that one read waits for bytes from the shell, in milliseconds:
/// the length of a frame less the allowance for drawing.
pub const FD_POLL_TIMEOUT_MS: i32 = 13;

/// The most bytes that one read takes from the shell.
pub const FD_BUFFER_SIZE_BYTES: usize = 4096;

/// The poll timeout is a frame's length in whole milliseconds less the allowance.
pub proof fn lemma_poll_timeout()
    ensures
        FD_POLL_TIMEOUT_MS == 1000int / (TARGET_FRAMERATE as int) - RENDER_ALLOWANCE_MS,
        FD_POLL_TIMEOUT_MS == 13,
{
}

} // verus!
