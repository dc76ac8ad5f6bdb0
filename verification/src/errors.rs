use vstd::prelude::*;

verus! {

/// The failures that can cross the channel boundary.
///
/// Transient conditions (a full queue on the send path, an empty queue on
/// the receive path) are control-flow signals inside the retry loops and
/// never appear here.
#[derive(Clone, Copy, Debug, PartialEq, Eq, Structural)]
pub enum Error {
    /// A send failed for a reason other than disconnection.
    Send,
    /// The opposite end of the channel is permanently gone; terminal,
    /// never retried.
    Disconnected,
    /// The timer collaborator failed while a retry delay was pending.
    /// The policy is to surface this as an error, paired with the unsent
    /// message on the send path, rather than to abort the task.
    TokioTimer,
    /// A clone was requested while the retry state was not settled.
    Clone,
}

} // verus!
