//! Marker state codec: the per-item retry counter, persisted remotely.
//!
//! An item carries up to two independent boolean markers, `primary` and
//! `secondary`. Their presence or absence encodes one of four attempt
//! states. Bumping the counter walks the states in a fixed order by creating
//! and deleting markers; both markers present is the terminal state, meaning
//! all attempts are exhausted.

use vstd::prelude::*;

use crate::errors::CycleError;

verus! {

/// The four attempt states an item can be in, decoded from which of the two
/// markers are present.
#[derive(Clone, Copy, Debug, PartialEq, Eq, Structural)]
pub enum MarkerState {
    /// No marker present: no attempt consumed yet.
    Fresh,
    /// Primary marker only: one attempt consumed.
    Once,
    /// Secondary marker only: two attempts consumed.
    Twice,
    /// Both markers present: attempts exhausted, terminal.
    Exhausted,
}

/// What the codec reads of a marker pair: whether the primary and the
/// secondary marker are present.
pub open spec fn decode_spec(primary: bool, secondary: bool) -> MarkerState {
    if primary && secondary {
        MarkerState::Exhausted
    } else if primary {
        MarkerState::Once
    } else if secondary {
        MarkerState::Twice
    } else {
        MarkerState::Fresh
    }
}

/// The marker presence pair that a state denotes: `(primary, secondary)`.
pub open spec fn encode_spec(state: MarkerState) -> (bool, bool) {
    match state {
        MarkerState::Fresh => (false, false),
        MarkerState::Once => (true, false),
        MarkerState::Twice => (false, true),
        MarkerState::Exhausted => (true, true),
    }
}

/// Decode the attempt state from the presence of the two markers.
pub fn decode(primary: bool, secondary: bool) -> (state: MarkerState)
    ensures
        state == decode_spec(primary, secondary),
{
    if primary && secondary {
        MarkerState::Exhausted
    } else if primary {
        MarkerState::Once
    } else if secondary {
        MarkerState::Twice
    } else {
        MarkerState::Fresh
    }
}

/// Encode an attempt state as the presence pair `(primary, secondary)`.
pub fn encode(state: MarkerState) -> (observation: (bool, bool))
    ensures
        observation == encode_spec(state),
{
    match state {
        MarkerState::Fresh => (false, false),
        MarkerState::Once => (true, false),
        MarkerState::Twice => (false, true),
        MarkerState::Exhausted => (true, true),
    }
}

/// The codec is a bijection: decoding an encoded state gives the state back,
/// and encoding a decoded observation gives the observation back. Every
/// marker observation therefore denotes exactly one attempt state.
pub proof fn lemma_codec_round_trip(state: MarkerState, primary: bool, secondary: bool)
    ensures
        decode_spec(encode_spec(state).0, encode_spec(state).1) == state,
        encode_spec(decode_spec(primary, secondary)) == (primary, secondary),
{
}

/// The markers currently attached to an item, as the bot sees them: for each
/// of the two marker kinds, the platform identifier of the marker if it is
/// present, needed later to delete it.
#[derive(Clone, Copy, Debug)]
pub struct MarkerPair {
    /// Identifier of the primary marker, if present.
    pub primary: Option<u64>,
    /// Identifier of the secondary marker, if present.
    pub secondary: Option<u64>,
}

/// The presence observation a pair gives rise to: `(primary, secondary)`.
pub open spec fn observation_of(pair: MarkerPair) -> (bool, bool) {
    (pair.primary is Some, pair.secondary is Some)
}

/// The attempt state a marker pair denotes.
pub open spec fn pair_state(pair: MarkerPair) -> MarkerState {
    decode_spec(pair.primary is Some, pair.secondary is Some)
}

/// One create or delete call against the platform's marker interface. A
/// delete carries the platform identifier of the marker to remove.
#[derive(Clone, Copy, Debug, PartialEq, Eq, Structural)]
pub enum MarkerOp {
    /// Create a primary marker on the item.
    CreatePrimary,
    /// Create a secondary marker on the item.
    CreateSecondary,
    /// Delete the primary marker with this identifier.
    DeletePrimary(u64),
    /// Delete the secondary marker with this identifier.
    DeleteSecondary(u64),
}

/// The presence observation after one marker operation lands.
pub open spec fn apply_op(obs: (bool, bool), op: MarkerOp) -> (bool, bool) {
    match op {
        MarkerOp::CreatePrimary => (true, obs.1),
        MarkerOp::CreateSecondary => (obs.0, true),
        MarkerOp::DeletePrimary(_) => (false, obs.1),
        MarkerOp::DeleteSecondary(_) => (obs.0, false),
    }
}

/// The presence observation after a sequence of marker operations lands, in
/// order.
pub open spec fn apply_ops(obs: (bool, bool), ops: Seq<MarkerOp>) -> (bool, bool)
    decreases ops.len(),
{
    if ops.len() == 0 {
        obs
    } else {
        apply_ops(apply_op(obs, ops[0]), ops.subrange(1, ops.len() as int))
    }
}

/// The state that one more consumed attempt moves a non-terminal state to.
pub open spec fn next_state(state: MarkerState) -> MarkerState
    recommends
        state != MarkerState::Exhausted,
{
    match state {
        MarkerState::Fresh => MarkerState::Once,
        MarkerState::Once => MarkerState::Twice,
        MarkerState::Twice => MarkerState::Exhausted,
        MarkerState::Exhausted => MarkerState::Exhausted,
    }
}

/// The marker operations that bumping a non-terminal pair issues: create the
/// primary from fresh, swap primary for secondary after one attempt, and
/// re-create the primary beside the standing secondary after two.
pub open spec fn bump_ops_spec(pair: MarkerPair) -> Seq<MarkerOp> {
    match pair_state(pair) {
        MarkerState::Fresh => seq![MarkerOp::CreatePrimary],
        MarkerState::Once => seq![
            MarkerOp::DeletePrimary(pair.primary->0),
            MarkerOp::CreateSecondary,
        ],
        MarkerState::Twice => seq![MarkerOp::CreatePrimary],
        MarkerState::Exhausted => seq![],
    }
}

/// Advance the attempt counter by one: return the marker operations to issue
/// against the platform. Calling this on an exhausted pair is a contract
/// violation and returns an error without any operation; the caller must
/// have treated the terminal state as a skip already.
pub fn bump(pair: &MarkerPair) -> (r: Result<Vec<MarkerOp>, CycleError>)
    ensures
        r is Err <==> pair_state(*pair) == MarkerState::Exhausted,
        r matches Err(e) ==> e == CycleError::ContractViolation,
        r matches Ok(ops) ==> ops@ == bump_ops_spec(*pair),
{
    match (pair.primary, pair.secondary) {
        (None, None) => Ok(vec![MarkerOp::CreatePrimary]),
        (Some(id), None) => Ok(vec![MarkerOp::DeletePrimary(id), MarkerOp::CreateSecondary]),
        (None, Some(_)) => Ok(vec![MarkerOp::CreatePrimary]),
        (Some(_), Some(_)) => Err(CycleError::ContractViolation),
    }
}

/// Bumping a non-terminal pair moves the observation to the encoding of the
/// next attempt state: the three usable attempts walk fresh, once, twice,
/// and the third bump lands on the terminal state.
pub proof fn lemma_bump_advances(pair: MarkerPair)
    requires
        pair_state(pair) != MarkerState::Exhausted,
    ensures
        apply_ops(observation_of(pair), bump_ops_spec(pair)) == encode_spec(
            next_state(pair_state(pair)),
        ),
{
    reveal_with_fuel(apply_ops, 4);
    let obs = observation_of(pair);
    let ops = bump_ops_spec(pair);
    if pair_state(pair) == MarkerState::Once {
        assert(ops.subrange(1, 2).subrange(1, 1) =~= Seq::<MarkerOp>::empty());
        assert(ops.subrange(1, 2)[0] == MarkerOp::CreateSecondary);
    } else {
        assert(ops.subrange(1, 1) =~= Seq::<MarkerOp>::empty());
    }
}

/// The marker operations that clear an item back to the fresh state: delete
/// whichever of the two markers is present.
pub open spec fn clear_ops_spec(pair: MarkerPair) -> Seq<MarkerOp> {
    (match pair.primary {
        Some(id) => seq![MarkerOp::DeletePrimary(id)],
        None => seq![],
    }) + (match pair.secondary {
        Some(id) => seq![MarkerOp::DeleteSecondary(id)],
        None => seq![],
    })
}

/// Return the marker operations that delete whichever markers are present,
/// returning the item to the fresh state after a successful cycle.
pub fn clear_ops(pair: &MarkerPair) -> (ops: Vec<MarkerOp>)
    ensures
        ops@ == clear_ops_spec(*pair),
        apply_ops(observation_of(*pair), ops@) == (false, false),
{
    let mut ops: Vec<MarkerOp> = Vec::new();
    if let Some(id) = pair.primary {
        ops.push(MarkerOp::DeletePrimary(id));
    }
    if let Some(id) = pair.secondary {
        ops.push(MarkerOp::DeleteSecondary(id));
    }
    proof {
        assert(ops@ =~= clear_ops_spec(*pair));
        lemma_clear_resets(*pair);
    }
    ops
}

/// Clearing a pair always lands on the all-absent observation, whatever was
/// present before.
pub proof fn lemma_clear_resets(pair: MarkerPair)
    ensures
        apply_ops(observation_of(pair), clear_ops_spec(pair)) == (false, false),
{
    reveal_with_fuel(apply_ops, 4);
    let ops = clear_ops_spec(pair);
    if pair.primary is Some && pair.secondary is Some {
        assert(ops.subrange(1, 2).subrange(1, 1) =~= Seq::<MarkerOp>::empty());
        assert(ops.subrange(1, 2)[0] == MarkerOp::DeleteSecondary(pair.secondary->0));
    } else if pair.primary is Some || pair.secondary is Some {
        assert(ops.subrange(1, 1) =~= Seq::<MarkerOp>::empty());
    } else {
        assert(ops =~= Seq::<MarkerOp>::empty());
    }
}

} // verus!
