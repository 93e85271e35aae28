//! The capabilities that handlers see: the epoll operations they may call, and the
//! contract of a handler itself.

use vstd::prelude::*;
use crate::errors::{EPollAddError, EPollDeleteError, EPollModifyError};
use crate::flags::{EPollAddFlags, EPollEventFlags, EPollModifyFlags};

verus! {

/// A ready event: the token its registration carries, and the conditions that are ready.
#[derive(Debug, Clone, Copy, PartialEq, Eq, Hash, Structural)]
pub struct ReadyEvent {
    pub token: u64,
    pub flags: EPollEventFlags,
}

/// Abstracts behaviour that a `Reactor` should be able to access on an Event Poll (epoll) instance.
pub trait EventPoll {
    /// Adds a file descriptor to an Event Poll (epoll) instance.
    fn add(&self, fd: i32, flags: EPollAddFlags, token: u64) -> Result<(), EPollAddError>;

    /// Modifies a file descriptor in an Event Poll (epoll) instance.
    fn modify(&self, fd: i32, flags: EPollModifyFlags, token: u64) -> Result<(), EPollModifyError>;

    /// Deletes a file descriptor in an Event Poll (epoll) instance.
    fn delete(&self, fd: i32) -> Result<(), EPollDeleteError>;
}

/// A reactor 'reacts' to events becoming ready from an epoll instance.
pub trait Reactor {
    /// React to events becoming ready.
    ///
    /// If an error is returned then all activity is cut short; any dequeued events not
    /// yet 'reacted' to are discarded. A reactor registered edge-triggered must drain
    /// its resource before it returns.
    fn react<P: EventPoll>(&mut self, event_poll: &P, token: u64, flags: EPollEventFlags) -> Result<(), ()>;
}

} // verus!
