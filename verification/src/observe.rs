//! Reading the bot's marker pair out of the platform's marker listing.
//!
//! The platform returns every marker attached to an item, whoever created
//! it. The bot only trusts markers whose owner matches its own identity;
//! among those, the last listed marker of each kind is the one whose
//! identifier is kept for a later delete.

use vstd::prelude::*;

use crate::markers::MarkerPair;

verus! {

/// The semantic tag a listed marker carries for the bot.
#[derive(Clone, Copy, Debug, PartialEq, Eq, Structural)]
pub enum MarkerKind {
    /// The bot's primary attempt marker.
    Primary,
    /// The bot's secondary attempt marker.
    Secondary,
    /// Any marker the bot does not use as attempt state.
    Other,
}

/// One marker as the platform lists it: its kind, the account that created
/// it, and its platform identifier.
#[derive(Clone, Debug)]
pub struct MarkerRecord {
    /// The semantic tag of the marker.
    pub kind: MarkerKind,
    /// Login of the account that created the marker.
    pub owner: String,
    /// Platform identifier of the marker, needed to delete it.
    pub marker_id: u64,
}

/// The identifier of the last listed marker of the given kind owned by the
/// given identity, if any.
pub open spec fn found_marker(
    records: Seq<MarkerRecord>,
    identity: Seq<char>,
    kind: MarkerKind,
) -> Option<u64>
    decreases records.len(),
{
    if records.len() == 0 {
        None
    } else if records.last().owner@ == identity && records.last().kind == kind {
        Some(records.last().marker_id)
    } else {
        found_marker(records.drop_last(), identity, kind)
    }
}

/// Extract the bot's marker pair from a platform marker listing: for each of
/// the two kinds, the identifier of the last listed marker of that kind that
/// the given identity owns. Markers of other owners or kinds are ignored.
pub fn observe_markers(records: &Vec<MarkerRecord>, identity: &String) -> (pair: MarkerPair)
    ensures
        pair.primary == found_marker(records@, identity@, MarkerKind::Primary),
        pair.secondary == found_marker(records@, identity@, MarkerKind::Secondary),
{
    let mut primary: Option<u64> = None;
    let mut secondary: Option<u64> = None;
    let mut i: usize = 0;
    proof {
        assert(records@.subrange(0, 0) =~= Seq::<MarkerRecord>::empty());
    }
    while i < records.len()
        invariant
            0 <= i <= records@.len(),
            primary == found_marker(records@.subrange(0, i as int), identity@, MarkerKind::Primary),
            secondary == found_marker(
                records@.subrange(0, i as int),
                identity@,
                MarkerKind::Secondary,
            ),
        decreases records@.len() - i,
    {
        let record = &records[i];
        if record.owner == *identity {
            match record.kind {
                MarkerKind::Primary => {
                    primary = Some(record.marker_id);
                },
                MarkerKind::Secondary => {
                    secondary = Some(record.marker_id);
                },
                MarkerKind::Other => {},
            }
        }
        proof {
            let pre = records@.subrange(0, i as int);
            let post = records@.subrange(0, i as int + 1);
            assert(post.drop_last() =~= pre);
            assert(post.last() == records@[i as int]);
        }
        i += 1;
    }
    proof {
        assert(records@.subrange(0, records@.len() as int) =~= records@);
    }
    MarkerPair { primary, secondary }
}

} // verus!
