use crate::constants::{FD_BUFFER_SIZE_BYTES, FD_POLL_TIMEOUT_MS};
use vstd::prelude::*;

verus! {

/// What happened to the descriptor of the shell since the reader last said what
/// to do.
#[derive(Clone, Copy, Debug, PartialEq, Eq, Structural)]
pub enum ReadEvent {
    /// The terminal asks for the bytes of this frame.
    Begin,
    /// The poll returned this number.
    Polled(i32),
    /// The read returned this many bytes.
    ReadBytes(usize),
}

/// What is to be done with the descriptor of the shell next.
#[derive(Clone, Copy, Debug, PartialEq, Eq, Structural)]
pub enum ReadAction {
    /// Wait until the descriptor is readable, this many milliseconds at most.
    Poll { timeout_ms: i32 },
    /// Read once, this many bytes at most.
    Read { capacity: usize },
    /// The read of this frame is over and brought this many bytes.
    Report { written: usize },
    /// The poll failed: nothing can go on.
    Fail,
}

/// Decides, for each frame, how the bytes of the shell are fetched, so that
/// drawing never waits longer than a frame: while the shell has nothing more to
/// say, a read is preceded by a poll that gives up in time; while it filled the
/// buffer the last time, the next read follows at once.
#[derive(Clone, Copy, Debug, PartialEq, Eq, Structural)]
pub struct FrameReader {
    /// Whether the last read took everything that the shell had to give.
    pub fd_drained: bool,
}

impl FrameReader {
    /// What an event makes of the reader, and what is to be done next.
    pub open spec fn next(self, event: ReadEvent) -> (FrameReader, ReadAction) {
        match event {
            ReadEvent::Begin => if self.fd_drained {
                (self, ReadAction::Poll { timeout_ms: FD_POLL_TIMEOUT_MS })
            } else {
                (self, ReadAction::Read { capacity: FD_BUFFER_SIZE_BYTES })
            },
            ReadEvent::Polled(result) => if result == 0 {
                (self, ReadAction::Report { written: 0 })
            } else if result < 0 {
                (self, ReadAction::Fail)
            } else {
                (self, ReadAction::Read { capacity: FD_BUFFER_SIZE_BYTES })
            },
            ReadEvent::ReadBytes(count) => (
                FrameReader { fd_drained: count < FD_BUFFER_SIZE_BYTES },
                ReadAction::Report { written: count },
            ),
        }
    }

    /// A reader before the first read: the shell is taken to have nothing to say
    /// yet, so the first read polls.
    pub fn new() -> (reader: FrameReader)
        ensures
            reader.fd_drained,
    {
        FrameReader { fd_drained: true }
    }

    /// Takes an event and says what is to be done next. At the beginning of a
    /// frame: poll where the last read drained the descriptor, else read. After a
    /// poll: report no bytes where it timed out, fail where it failed, else read.
    /// After a read: report its bytes, and remember whether it filled the buffer.
    pub fn step(&mut self, event: ReadEvent) -> (action: ReadAction)
        ensures
            (*final(self), action) == old(self).next(event),
    {
        match event {
            ReadEvent::Begin => {
                if self.fd_drained {
                    ReadAction::Poll { timeout_ms: FD_POLL_TIMEOUT_MS }
                } else {
                    ReadAction::Read { capacity: FD_BUFFER_SIZE_BYTES }
                }
            },
            ReadEvent::Polled(result) => {
                if result == 0 {
                    ReadAction::Report { written: 0 }
                } else if result < 0 {
                    ReadAction::Fail
                } else {
                    ReadAction::Read { capacity: FD_BUFFER_SIZE_BYTES }
                }
            },
            ReadEvent::ReadBytes(count) => {
                self.fd_drained = count < FD_BUFFER_SIZE_BYTES;
                ReadAction::Report { written: count }
            },
        }
    }
}

/// A frame's read ends after at most a poll and a read: whatever the poll and the
/// read return, the third action is a report or a failure, never a further wait.
pub proof fn lemma_frame_is_bounded(reader: FrameReader, polled: i32, count: usize)
    ensures
        ({
            let (first, action) = reader.next(ReadEvent::Begin);
            match action {
                ReadAction::Poll { .. } => {
                    let (second, after_poll) = first.next(ReadEvent::Polled(polled));
                    match after_poll {
                        ReadAction::Read { .. } => second.next(ReadEvent::ReadBytes(count)).1
                            == (ReadAction::Report { written: count }),
                        ReadAction::Report { written } => written == 0 && polled == 0,
                        ReadAction::Fail => polled < 0,
                        ReadAction::Poll { .. } => false,
                    }
                },
                ReadAction::Read { .. } => first.next(ReadEvent::ReadBytes(count)).1 == (
                ReadAction::Report { written: count }),
                _ => false,
            }
        }),
{
}

} // verus!
