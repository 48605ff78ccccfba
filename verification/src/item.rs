//! The review item as the core reads it, and validation of a fetched item.
//!
//! The remote platform owns the item; the core reads it once per cycle via a
//! point-in-time fetch. A fetched item may lack fields the core needs; such
//! an item is rejected with a missing-field error and skipped for the cycle
//! rather than crashing the poll.

use vstd::prelude::*;

use crate::errors::CycleError;

verus! {

/// Lifecycle state of a review item on the platform.
#[derive(Clone, Copy, Debug, PartialEq, Eq, Structural)]
pub enum Lifecycle {
    /// The item is open for review.
    Open,
    /// The item has been closed.
    Closed,
    /// Any other lifecycle state the platform may report.
    Other,
}

/// One record of the item's change history, carrying its message. A
/// well-formed message separates a short title from a body.
#[derive(Clone, Debug)]
pub struct ChangeRecord {
    /// The change message.
    pub message: String,
}

/// A review item with every field the core needs present.
#[derive(Clone, Debug)]
pub struct Item {
    /// Platform identifier of the item.
    pub id: u64,
    /// Lifecycle state of the item.
    pub state: Lifecycle,
    /// How many comments the item already carries.
    pub comments: u64,
    /// The item's labels; the size classification is one of them.
    pub labels: Vec<String>,
    /// Free-text body of the item; empty if the author gave none.
    pub body: String,
    /// The item's change records, in history order.
    pub records: Vec<ChangeRecord>,
}

/// A review item as fetched, before validation: fields the platform may omit
/// are optional.
#[derive(Clone, Debug)]
pub struct RawItem {
    /// Platform identifier of the item.
    pub id: u64,
    /// Lifecycle state, if the platform reported one.
    pub state: Option<Lifecycle>,
    /// Comment count, if the platform reported one.
    pub comments: Option<u64>,
    /// Labels, if the platform reported them.
    pub labels: Option<Vec<String>>,
    /// Body text; an absent body stands for an empty one.
    pub body: Option<String>,
    /// The item's change records, in history order.
    pub records: Vec<ChangeRecord>,
}

/// Whether a fetched item carries every field the core insists on. An
/// absent body is tolerated and read as empty.
pub open spec fn raw_complete(raw: RawItem) -> bool {
    raw.state is Some && raw.comments is Some && raw.labels is Some
}

/// Validate a fetched item: succeeds exactly when lifecycle state, comment
/// count and labels are present, carrying the fields over unchanged and
/// reading an absent body as empty; otherwise reports a missing field.
pub fn validate_item(raw: RawItem) -> (r: Result<Item, CycleError>)
    ensures
        r is Ok <==> raw_complete(raw),
        r matches Ok(item) ==> {
            &&& item.id == raw.id
            &&& item.state == raw.state->0
            &&& item.comments == raw.comments->0
            &&& item.labels == raw.labels->0
            &&& (raw.body matches Some(b) ==> item.body == b)
            &&& (raw.body is None ==> item.body@ == Seq::<char>::empty())
            &&& item.records == raw.records
        },
        r matches Err(e) ==> e == CycleError::MissingField,
{
    let RawItem { id, state, comments, labels, body, records } = raw;
    match (state, comments, labels) {
        (Some(state), Some(comments), Some(labels)) => {
            let body = match body {
                Some(b) => b,
                None => String::new(),
            };
            Ok(Item { id, state, comments, labels, body, records })
        },
        _ => Err(CycleError::MissingField),
    }
}

} // verus!
