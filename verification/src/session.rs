use vstd::prelude::*;

verus! {

/// What one read of the frame source gave.
#[derive(Clone, Copy, Debug, PartialEq, Eq, Structural)]
pub enum Capture {
    /// The source can give no frames any more.
    Failed,
    /// The read went through and brought no data.
    Empty,
    /// A frame is in memory.
    Frame,
}

/// Why a session ends.
#[derive(Clone, Copy, Debug, PartialEq, Eq, Structural)]
pub enum StopReason {
    SourceFailed,
    TooManyEmptyFrames,
}

/// What the capture loop does after a read.
#[derive(Clone, Copy, Debug, PartialEq, Eq, Structural)]
pub enum Next {
    /// End the session.
    Stop(StopReason),
    /// Leave this cycle out, wait and read again.
    Skip,
    /// Run the detector on the frame.
    Process,
}

/// Counts empty reads in a row, so that a source that has gone silent ends
/// the session instead of keeping it waiting for ever.
#[derive(Clone, Copy, Debug, PartialEq, Eq, Structural)]
pub struct CaptureLoop {
    /// Empty reads since the last frame.
    pub empty_in_a_row: u64,
    /// The session ends once more than this many reads in a row were empty.
    pub max_empty_frames: u64,
}

impl CaptureLoop {
    /// A loop that has read nothing yet.
    pub open spec fn fresh(max_empty_frames: u64) -> CaptureLoop {
        CaptureLoop { empty_in_a_row: 0, max_empty_frames }
    }

    /// The number of empty reads in a row after one more read. The count
    /// stays at its ceiling once it has reached it.
    pub open spec fn count_after(self, read: Capture) -> u64 {
        match read {
            Capture::Failed => self.empty_in_a_row,
            Capture::Empty => if self.empty_in_a_row < u64::MAX {
                (self.empty_in_a_row + 1) as u64
            } else {
                self.empty_in_a_row
            },
            Capture::Frame => 0,
        }
    }

    /// What to do after a read.
    pub open spec fn decision(self, read: Capture) -> Next {
        match read {
            Capture::Failed => Next::Stop(StopReason::SourceFailed),
            Capture::Empty => if self.count_after(read) > self.max_empty_frames {
                Next::Stop(StopReason::TooManyEmptyFrames)
            } else {
                Next::Skip
            },
            Capture::Frame => Next::Process,
        }
    }

    pub fn new() -> (l: CaptureLoop)
        ensures
            l == CaptureLoop::fresh(10),
    {
        CaptureLoop { empty_in_a_row: 0, max_empty_frames: 10 }
    }

    pub fn with_limit(max_empty_frames: u64) -> (l: CaptureLoop)
        ensures
            l == CaptureLoop::fresh(max_empty_frames),
    {
        CaptureLoop { empty_in_a_row: 0, max_empty_frames }
    }

    /// Takes in the outcome of one read and says how the loop goes on.
    pub fn on_capture(&mut self, read: Capture) -> (next: Next)
        ensures
            next == old(self).decision(read),
            final(self).empty_in_a_row == old(self).count_after(read),
            final(self).max_empty_frames == old(self).max_empty_frames,
    {
        match read {
            Capture::Failed => Next::Stop(StopReason::SourceFailed),
            Capture::Empty => {
                if self.empty_in_a_row < u64::MAX {
                    self.empty_in_a_row = self.empty_in_a_row + 1;
                }
                if self.empty_in_a_row > self.max_empty_frames {
                    Next::Stop(StopReason::TooManyEmptyFrames)
                } else {
                    Next::Skip
                }
            },
            Capture::Frame => {
                self.empty_in_a_row = 0;
                Next::Process
            },
        }
    }
}

/// The key code that ends a session: the letter q.
pub const QUIT_KEY: i32 = 113;

/// Whether the key that was pressed after a frame asks to end the session.
pub fn quit_requested(key: i32) -> (quit: bool)
    ensures
        quit == (key == QUIT_KEY),
{
    key == QUIT_KEY
}

/// The loop after `n` empty reads in a row.
pub open spec fn after_empties(start: CaptureLoop, n: nat) -> CaptureLoop
    decreases n,
{
    if n == 0 {
        start
    } else {
        let before = after_empties(start, (n - 1) as nat);
        CaptureLoop {
            empty_in_a_row: before.count_after(Capture::Empty),
            max_empty_frames: before.max_empty_frames,
        }
    }
}

/// As long as no frame comes in between, the loop skips the first
/// `max_empty_frames` empty reads and stops at the next.
pub proof fn lemma_empty_budget(start: CaptureLoop, n: nat)
    requires
        start.empty_in_a_row == 0,
        start.max_empty_frames < u64::MAX,
    ensures
        after_empties(start, n).empty_in_a_row == if n <= u64::MAX {
            n as int
        } else {
            u64::MAX as int
        },
        after_empties(start, n).max_empty_frames == start.max_empty_frames,
        after_empties(start, n).decision(Capture::Empty) == if n < start.max_empty_frames {
            Next::Skip
        } else {
            Next::Stop(StopReason::TooManyEmptyFrames)
        },
    decreases n,
{
    if n > 0 {
        lemma_empty_budget(start, (n - 1) as nat);
    }
}

} // verus!
