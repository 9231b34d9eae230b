//! Errors reported by the store, the carriers and the scheduler.

use vstd::prelude::*;

verus! {

/// Every failure that the simulation core reports to its callers.
#[derive(Debug, Clone, Copy, PartialEq, Eq, Structural)]
pub enum SimError {
    /// Check-in to a slot that does not exist or is already occupied.
    InvalidCheckin,
    /// An audit found a slot whose item is checked out.
    IncompleteAudit,
    /// A carrier already carries an identifier.
    AlreadyAssigned,
    /// A carrier carries no identifier yet.
    Unassigned,
    /// No carrier is stored under the given identifier.
    NotFound,
    /// A phase result did not arrive within the phase timeout.
    PhaseTimeout,
    /// The result channel closed while results were still expected.
    ChannelDisconnected,
    /// The store was found in a state that the scheduler never leaves it in.
    InvariantViolation,
}

} // verus!
