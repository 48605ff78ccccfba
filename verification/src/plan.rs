//! Per-item planning: one cycle's decision for one item.
//!
//! The orchestrator fetches an item and its marker pair, then asks this
//! module what to do: skip with a named reason, or proceed — in which case
//! the plan carries the marker operations to issue before generation, the
//! prompt to hand to the generation service, and the advisory text to
//! prepend to the published comment. The surrounding process performs the
//! remote calls the plan decides on.

use vstd::prelude::*;

use crate::compose::compose_prompt;
use crate::compose::prompt_spec;
use crate::filter::SkipReason;
use crate::filter::eligibility;
use crate::filter::filter_spec;
use crate::item::Item;
use crate::markers::MarkerOp;
use crate::markers::MarkerPair;
use crate::markers::MarkerState;
use crate::markers::bump_ops_spec;
use crate::markers::pair_state;
use crate::precheck::PrecheckPolicy;
use crate::precheck::precheck;
use crate::precheck::precheck_spec;
use crate::tracker::AttemptDecision;
use crate::tracker::evaluate;

verus! {

/// What one cycle does with one item.
#[derive(Clone, Debug)]
pub enum ItemAction {
    /// Leave the item alone this cycle, for this reason; no marker or
    /// generation call is made.
    Skip(SkipReason),
    /// Attempt the item: issue these marker operations, send this prompt to
    /// the generation service, and prepend this advisory text to the
    /// published comment.
    Generate { ops: Vec<MarkerOp>, prompt: String, advisory: String },
}

/// Decide one cycle's action for one item: the eligibility filter's verdict
/// first, then the attempt tracker's; an item that passes both is attempted,
/// with the bump operations, the generation prompt, and the precheck
/// advisory text.
pub fn plan_item(item: &Item, pair: &MarkerPair, policy: &PrecheckPolicy) -> (action: ItemAction)
    ensures
        filter_spec(*item) matches Some(reason) ==> action == ItemAction::Skip(reason),
        filter_spec(*item) is None && pair_state(*pair) == MarkerState::Exhausted ==> action
            == ItemAction::Skip(SkipReason::Exhausted),
        filter_spec(*item) is None && pair_state(*pair) != MarkerState::Exhausted ==> {
            &&& action matches ItemAction::Generate { ops, prompt, advisory }
            &&& ops@ == bump_ops_spec(*pair)
            &&& prompt@ == prompt_spec(item.body@)
            &&& advisory@ == precheck_spec(item.records@, *policy)
        },
{
    match eligibility(item) {
        Some(reason) => ItemAction::Skip(reason),
        None => match evaluate(pair) {
            AttemptDecision::Skip => ItemAction::Skip(SkipReason::Exhausted),
            AttemptDecision::Proceed(ops) => {
                let advisory = precheck(&item.records, policy);
                let prompt = compose_prompt(item.body.as_str());
                ItemAction::Generate { ops, prompt, advisory }
            },
        },
    }
}

} // verus!
