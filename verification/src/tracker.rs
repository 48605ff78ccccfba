//! Attempt tracker: terminal-versus-retry decision over the marker pair.
//!
//! Before any generation call, the tracker decodes the item's marker pair.
//! An exhausted pair means every attempt is consumed: the item is skipped,
//! guaranteeing at most three attempts however often the process restarts.
//! Otherwise the tracker bumps the counter, handing back the marker
//! operations to issue against the platform before generation is tried. If
//! the cycle later fails, the bumped markers simply stand, and the next poll
//! observes the advanced state.

use vstd::prelude::*;

use crate::markers::MarkerOp;
use crate::markers::MarkerPair;
use crate::markers::MarkerState;
use crate::markers::apply_ops;
use crate::markers::bump;
use crate::markers::bump_ops_spec;
use crate::markers::lemma_bump_advances;
use crate::markers::observation_of;
use crate::markers::pair_state;

verus! {

/// The tracker's verdict on an item for this cycle.
#[derive(Clone, Debug)]
pub enum AttemptDecision {
    /// Attempt the item: issue these marker operations, then generate.
    Proceed(Vec<MarkerOp>),
    /// Attempts are exhausted: skip the item without touching its markers.
    Skip,
}

/// Decide whether to attempt an item, from its current marker pair. Skips
/// exactly on the terminal state, before any marker or generation call;
/// otherwise bumps the counter and returns the marker operations to issue.
pub fn evaluate(pair: &MarkerPair) -> (decision: AttemptDecision)
    ensures
        decision is Skip <==> pair_state(*pair) == MarkerState::Exhausted,
        decision matches AttemptDecision::Proceed(ops) ==> ops@ == bump_ops_spec(*pair),
{
    if pair.primary.is_some() && pair.secondary.is_some() {
        return AttemptDecision::Skip;
    }
    match bump(pair) {
        Ok(ops) => AttemptDecision::Proceed(ops),
        Err(_) => {
            proof {
                assert(false);
            }
            AttemptDecision::Skip
        },
    }
}

/// Attempts are bounded: three cycles that each bump the counter but fail
/// before a successful publish walk the marker state from fresh through
/// once and twice to exhausted. A fourth cycle observes the exhausted pair,
/// and the tracker then skips without any further marker or generation
/// call.
pub proof fn lemma_retries_bounded(
    first: MarkerPair,
    second: MarkerPair,
    third: MarkerPair,
    fourth: MarkerPair,
)
    requires
        pair_state(first) == MarkerState::Fresh,
        observation_of(second) == apply_ops(observation_of(first), bump_ops_spec(first)),
        observation_of(third) == apply_ops(observation_of(second), bump_ops_spec(second)),
        observation_of(fourth) == apply_ops(observation_of(third), bump_ops_spec(third)),
    ensures
        pair_state(second) == MarkerState::Once,
        pair_state(third) == MarkerState::Twice,
        pair_state(fourth) == MarkerState::Exhausted,
{
    lemma_bump_advances(first);
    lemma_bump_advances(second);
    lemma_bump_advances(third);
}

} // verus!
