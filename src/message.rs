//! The events that flow from the command runner to the batch dispatcher.
use vstd::prelude::*;

verus! {

/// One event on the channel from the output readers to the dispatcher.
#[derive(Clone, Debug)]
pub enum StreamMessage {
    /// One line of captured output, without its terminator.
    Line(String),
    /// Deliver what has been batched so far, and keep going.
    Flush,
    /// The command has exited and both readers have drained; always last.
    CommandFinished,
}

} // verus!
