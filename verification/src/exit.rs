//! How the process ends.
use vstd::prelude::*;

verus! {

/// Why the process ends.
#[derive(Clone, Copy, Debug, PartialEq, Eq, Structural)]
pub enum Exit {
    /// The acceptor was asked to stop, or its listening socket was closed.
    Graceful,
    /// A required argument was missing from the command line.
    MissingArguments,
    /// The listening socket could not be bound.
    BindFailed,
}

impl Exit {
    /// The status that the process reports: zero after a graceful shutdown,
    /// one after a fatal error.
    pub open spec fn status(self) -> i32 {
        match self {
            Exit::Graceful => 0,
            Exit::MissingArguments | Exit::BindFailed => 1,
        }
    }

    /// The exit status for this ending.
    pub fn code(self) -> (code: i32)
        ensures
            code == self.status(),
            code == 0 <==> self == Exit::Graceful,
    {
        match self {
            Exit::Graceful => 0,
            Exit::MissingArguments => 1,
            Exit::BindFailed => 1,
        }
    }
}

} // verus!
