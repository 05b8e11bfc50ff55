//! What a worker does when a handler reports an error.

use vstd::prelude::*;

verus! {

/// How a worker reacts to a processing error.
#[derive(Debug, Clone, Copy, PartialEq, Eq, Structural)]
pub enum ErrorStrategy {
    /// Stop the worker and report the error.
    Stop,
    /// Keep going; the error is only reported.
    Log,
}

impl ErrorStrategy {
    /// Whether this strategy stops the worker on an error.
    pub open spec fn stops(self) -> bool {
        self is Stop
    }

    /// `Stop` hands the error back, `Log` swallows it.
    pub fn process_error(&self, e: anyhow::Error) -> (r: Result<(), anyhow::Error>)
        ensures
            self.stops() ==> r == Err::<(), anyhow::Error>(e),
            !self.stops() ==> r == Ok::<(), anyhow::Error>(()),
    {
        match self {
            ErrorStrategy::Stop => Err(e),
            ErrorStrategy::Log => Ok(()),
        }
    }
}

impl Default for ErrorStrategy {
    fn default() -> (r: Self)
        ensures
            r == ErrorStrategy::Log,
    {
        ErrorStrategy::Log
    }
}

} // verus!
