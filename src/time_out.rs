//! How long a wait may block.

use vstd::prelude::*;

verus! {

/// Wait forever, return immediately, or wait up to a number of milliseconds.
#[derive(Debug, Clone, Copy, PartialEq, Eq, Hash, Structural)]
pub enum EPollTimeOut {
    /// Block until an event is ready or the wait is interrupted.
    Infinite,
    /// Return at once, even if no event is ready.
    Immediate,
    /// Block for at most this many milliseconds.
    Milliseconds(u16),
}

impl EPollTimeOut {
    /// Wait up to `milliseconds`; zero means return immediately.
    pub fn in_n_milliseconds(milliseconds: u16) -> (r: Self)
        ensures
            r == (if milliseconds == 0 { EPollTimeOut::Immediate } else { EPollTimeOut::Milliseconds(milliseconds) }),
    {
        if milliseconds == 0 {
            EPollTimeOut::Immediate
        } else {
            EPollTimeOut::Milliseconds(milliseconds)
        }
    }

    /// The value the kernel expects: `-1` for forever, `0` for immediately, otherwise
    /// the number of milliseconds.
    pub open spec fn spec_as_kernel_value(self) -> int {
        match self {
            EPollTimeOut::Infinite => -1,
            EPollTimeOut::Immediate => 0,
            EPollTimeOut::Milliseconds(n) => n as int,
        }
    }

    /// The value the kernel expects as a time out.
    pub fn as_kernel_value(&self) -> (r: i32)
        ensures
            r as int == self.spec_as_kernel_value(),
    {
        match self {
            EPollTimeOut::Infinite => -1,
            EPollTimeOut::Immediate => 0,
            EPollTimeOut::Milliseconds(n) => *n as i32,
        }
    }
}

} // verus!
