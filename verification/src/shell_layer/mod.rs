use crate::constants::FD_BUFFER_SIZE_BYTES;
use vstd::prelude::*;

pub mod frame_reader;
pub mod launch;

verus! {

/// The way bytes get to the shell program and back, whatever the platform.
pub trait ShellLayer {
    /// Called once a frame. Puts the bytes that the shell has sent into `buffer`
    /// and their number into `written`; the number is 0 where none came in time.
    fn read(&mut self, buffer: &mut [u8; FD_BUFFER_SIZE_BYTES], written: &mut usize);

    /// Sends what the user typed to the shell.
    fn write(&mut self, data: &[u8]);

    /// Called when the window is resized, with the numbers of rows and columns
    /// that fit into it now.
    fn resized(&mut self, new_rows: usize, new_cols: usize);
}

} // verus!
