//! Error kinds for one item's processing cycle.

use vstd::prelude::*;

verus! {

/// Why processing an item was aborted for the current cycle.
#[derive(Clone, Copy, Debug, PartialEq, Eq, Structural)]
pub enum CycleError {
    /// A remote call failed; the item is abandoned for this cycle only and
    /// revisited on the next poll.
    TransientRemote,
    /// An internal invariant was violated, such as bumping the attempt
    /// counter in its terminal state. Never tolerated silently.
    ContractViolation,
    /// A fetched item lacked an expected field; the item is skipped for this
    /// cycle rather than crashing the whole poll.
    MissingField,
}

} // verus!
