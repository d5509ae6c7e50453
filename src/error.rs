//! Errors of a streaming session.
use vstd::prelude::*;

verus! {

/// Why a stream could not be started, or did not end cleanly.
#[derive(Debug, Clone, Copy, PartialEq, Eq, Structural)]
pub enum StreamError {
    /// A session is already active on this device.
    AlreadyStreaming,
    /// The consumer handed to `start` cannot be invoked.
    NotCallable,
    /// Fewer than two buffers: the filler would overwrite the frame being read.
    TooFewBuffers,
    /// A worker of the session ended abnormally.
    WorkerFailed,
}

} // verus!
