//! Precheck analyzer: advisory text derived from an item's change history.
//!
//! A pure function over the item's change records. It produces at most two
//! advisories, concatenated in a fixed order: one if the item carries more
//! than one change record (gated by a policy switch that may be globally
//! off), then one if any record's message lacks the separator between title
//! and body. The advisories are prepended to the published comment.

use vstd::prelude::*;

use crate::item::ChangeRecord;

verus! {

/// Advisory text asking for the item's changes to be squashed into one.
pub const SQUASH_ADVISORY: &'static str = "__Squash The Commits:__ This PR contains Multiple Commits. Please Squash the Multiple Commits into a Single Commit.\n\n";

/// Advisory text asking for an empty change message to be filled in.
pub const FILL_MESSAGE_ADVISORY: &'static str = "__Fill In The Commit Message:__ This PR contains a Commit with an Empty Commit Message. Please fill in the Commit Message with the PR Summary.\n\n";

/// Policy switches of the precheck analyzer.
#[derive(Clone, Copy, Debug, PartialEq, Eq, Structural)]
pub struct PrecheckPolicy {
    /// Whether the multiple-records advisory is produced at all.
    pub flag_multiple: bool,
}

/// Whether a change message is well formed: it contains the newline
/// separator between a short title and a body.
pub open spec fn has_separator(message: Seq<char>) -> bool {
    message.contains('\n')
}

/// Whether any record in the history lacks the title/body separator.
pub open spec fn any_missing_separator(records: Seq<ChangeRecord>) -> bool {
    exists|i: int| 0 <= i < records.len() && !has_separator(#[trigger] records[i].message@)
}

/// The advisory text the precheck produces: the squash advisory if policy
/// allows it and more than one record exists, then the fill-message advisory
/// if any record's message lacks the separator.
pub open spec fn precheck_spec(records: Seq<ChangeRecord>, policy: PrecheckPolicy) -> Seq<char> {
    (if policy.flag_multiple && records.len() > 1 {
        SQUASH_ADVISORY@
    } else {
        Seq::<char>::empty()
    }) + (if any_missing_separator(records) {
        FILL_MESSAGE_ADVISORY@
    } else {
        Seq::<char>::empty()
    })
}

/// Whether the text contains a newline character.
fn contains_newline(text: &str) -> (found: bool)
    ensures
        found == has_separator(text@),
{
    let len = text.unicode_len();
    let mut i: usize = 0;
    while i < len
        invariant
            0 <= i <= len,
            len == text@.len(),
            forall|j: int| 0 <= j < i ==> text@[j] != '\n',
        decreases len - i,
    {
        if text.get_char(i) == '\n' {
            assert(text@[i as int] == '\n');
            return true;
        }
        i += 1;
    }
    false
}

/// Run the precheck over the item's change records, producing the advisory
/// text to prepend to the published comment.
pub fn precheck(records: &Vec<ChangeRecord>, policy: &PrecheckPolicy) -> (advisory: String)
    ensures
        advisory@ == precheck_spec(records@, *policy),
{
    let mut advisory = String::new();
    if policy.flag_multiple && records.len() > 1 {
        advisory.append(SQUASH_ADVISORY);
    }
    let mut missing = false;
    let mut i: usize = 0;
    while i < records.len()
        invariant
            0 <= i <= records@.len(),
            missing == exists|j: int|
                0 <= j < i && !has_separator(#[trigger] records@[j].message@),
        decreases records@.len() - i,
    {
        let separated = contains_newline(records[i].message.as_str());
        if !separated {
            assert(!has_separator(records@[i as int].message@));
            missing = true;
        }
        i += 1;
    }
    if missing {
        advisory.append(FILL_MESSAGE_ADVISORY);
    }
    proof {
        assert(missing == any_missing_separator(records@));
        assert(advisory@ =~= precheck_spec(records@, *policy));
    }
    advisory
}

} // verus!
