//! Eligibility filter: which fetched items qualify for processing.
//!
//! A pure predicate chain, evaluated in a fixed order and short-circuiting
//! on the first failure with a named skip reason: the item must be open, it
//! must carry no comment yet, its size must be classified, and the size
//! class must not be the excluded smallest one. The no-comment rule is the
//! durable idempotency check: a published review is itself a comment, so an
//! item the bot has handled is excluded forever after.

use vstd::prelude::*;

use crate::item::Item;
use crate::item::Lifecycle;

verus! {

/// Why an item was skipped this cycle without an attempt.
#[derive(Clone, Copy, Debug, PartialEq, Eq, Structural)]
pub enum SkipReason {
    /// The item's lifecycle state is not open.
    NotOpen,
    /// The item already carries comments.
    HasComments,
    /// The item has no label, so its size is unknown.
    UnknownSize,
    /// The item's size label is the excluded smallest class.
    ExcludedSize,
    /// The attempt markers are in the terminal state: attempts exhausted.
    Exhausted,
}

/// The size label that excludes an item from processing.
pub open spec fn excluded_label() -> Seq<char> {
    "Size: XS"@
}

/// Whether any label of the item is the excluded size label.
pub open spec fn has_excluded_label(labels: Seq<String>) -> bool {
    exists|i: int| 0 <= i < labels.len() && #[trigger] labels[i]@ == excluded_label()
}

/// The filter's verdict on an item: the first failing rule's skip reason, or
/// nothing if the item is eligible.
pub open spec fn filter_spec(item: Item) -> Option<SkipReason> {
    if item.state != Lifecycle::Open {
        Some(SkipReason::NotOpen)
    } else if item.comments != 0 {
        Some(SkipReason::HasComments)
    } else if item.labels@.len() == 0 {
        Some(SkipReason::UnknownSize)
    } else if has_excluded_label(item.labels@) {
        Some(SkipReason::ExcludedSize)
    } else {
        None
    }
}

/// Apply the eligibility rules to an item, in order, returning the first
/// failing rule's skip reason, or nothing if the item qualifies. Reads the
/// item only; never mutates it.
pub fn eligibility(item: &Item) -> (r: Option<SkipReason>)
    ensures
        r == filter_spec(*item),
{
    if !matches!(item.state, Lifecycle::Open) {
        return Some(SkipReason::NotOpen);
    }
    if item.comments > 0 {
        return Some(SkipReason::HasComments);
    }
    if item.labels.len() == 0 {
        return Some(SkipReason::UnknownSize);
    }
    let excluded = String::from_str("Size: XS");
    let mut i: usize = 0;
    while i < item.labels.len()
        invariant
            0 <= i <= item.labels@.len(),
            item.state == Lifecycle::Open,
            item.comments == 0,
            item.labels@.len() > 0,
            excluded@ == excluded_label(),
            forall|j: int| 0 <= j < i ==> #[trigger] item.labels@[j]@ != excluded_label(),
        decreases item.labels@.len() - i,
    {
        if item.labels[i] == excluded {
            assert(has_excluded_label(item.labels@));
            return Some(SkipReason::ExcludedSize);
        }
        i += 1;
    }
    None
}

/// No double publish: an item that already carries a comment is never
/// eligible, whatever its other fields, so the bot publishes at most one
/// comment per item.
pub proof fn lemma_no_double_publish(item: Item)
    requires
        item.comments != 0,
    ensures
        filter_spec(item) is Some,
        filter_spec(item) != Some(SkipReason::ExcludedSize),
        filter_spec(item) != Some(SkipReason::UnknownSize),
{
}

} // verus!
