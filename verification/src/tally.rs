//! Counting the lease registry.
//!
//! The global aggregate is only trustworthy if every mutation path keeps it in
//! step with the registry it summarises. These spec functions say what the
//! counters ought to be — a recount of the lease records — and the lemmas
//! here track how a recount moves when the registry grows by one record or
//! has one record rewritten.

use vstd::prelude::*;

use crate::records::LeaseStatus;

verus! {

/// Number of records in `s` whose `is_active` flag is set.
pub open spec fn count_active(s: Seq<LeaseStatus>) -> int
    decreases s.len(),
{
    if s.len() == 0 {
        0
    } else {
        count_active(s.drop_last()) + if s.last().is_active {
            1int
        } else {
            0int
        }
    }
}

/// Number of records in `s` whose `is_overdue` flag is set.
pub open spec fn count_overdue(s: Seq<LeaseStatus>) -> int
    decreases s.len(),
{
    if s.len() == 0 {
        0
    } else {
        count_overdue(s.drop_last()) + if s.last().is_overdue {
            1int
        } else {
            0int
        }
    }
}

/// An active-lease recount never leaves `[0, len]`.
pub proof fn lemma_count_active_le_len(s: Seq<LeaseStatus>)
    ensures
        0 <= count_active(s) <= s.len(),
    decreases s.len(),
{
    if s.len() > 0 {
        lemma_count_active_le_len(s.drop_last());
    }
}

/// An overdue-lease recount never leaves `[0, len]`.
pub proof fn lemma_count_overdue_le_len(s: Seq<LeaseStatus>)
    ensures
        0 <= count_overdue(s) <= s.len(),
    decreases s.len(),
{
    if s.len() > 0 {
        lemma_count_overdue_le_len(s.drop_last());
    }
}

/// Appending a record moves the active recount by that record's contribution.
pub proof fn lemma_count_active_push(s: Seq<LeaseStatus>, l: LeaseStatus)
    ensures
        count_active(s.push(l)) == count_active(s) + if l.is_active {
            1int
        } else {
            0int
        },
{
    assert(s.push(l).drop_last() =~= s);
    assert(s.push(l).last() == l);
}

/// Appending a record moves the overdue recount by that record's contribution.
pub proof fn lemma_count_overdue_push(s: Seq<LeaseStatus>, l: LeaseStatus)
    ensures
        count_overdue(s.push(l)) == count_overdue(s) + if l.is_overdue {
            1int
        } else {
            0int
        },
{
    assert(s.push(l).drop_last() =~= s);
    assert(s.push(l).last() == l);
}

/// Rewriting one record moves the active recount by the difference of the
/// two records' contributions.
pub proof fn lemma_count_active_update(s: Seq<LeaseStatus>, j: int, l: LeaseStatus)
    requires
        0 <= j < s.len(),
    ensures
        count_active(s.update(j, l)) == count_active(s) - (if s[j].is_active {
            1int
        } else {
            0int
        }) + (if l.is_active {
            1int
        } else {
            0int
        }),
    decreases s.len(),
{
    let t = s.update(j, l);
    if j == s.len() - 1 {
        assert(t.drop_last() =~= s.drop_last());
        assert(t.last() == l);
    } else {
        assert(t.drop_last() =~= s.drop_last().update(j, l));
        assert(t.last() == s.last());
        assert(s.drop_last()[j] == s[j]);
        lemma_count_active_update(s.drop_last(), j, l);
    }
}

/// Rewriting one record moves the overdue recount by the difference of the
/// two records' contributions.
pub proof fn lemma_count_overdue_update(s: Seq<LeaseStatus>, j: int, l: LeaseStatus)
    requires
        0 <= j < s.len(),
    ensures
        count_overdue(s.update(j, l)) == count_overdue(s) - (if s[j].is_overdue {
            1int
        } else {
            0int
        }) + (if l.is_overdue {
            1int
        } else {
            0int
        }),
    decreases s.len(),
{
    let t = s.update(j, l);
    if j == s.len() - 1 {
        assert(t.drop_last() =~= s.drop_last());
        assert(t.last() == l);
    } else {
        assert(t.drop_last() =~= s.drop_last().update(j, l));
        assert(t.last() == s.last());
        assert(s.drop_last()[j] == s[j]);
        lemma_count_overdue_update(s.drop_last(), j, l);
    }
}

/// A registry holding an active record recounts to at least one.
pub proof fn lemma_count_active_at_least_one(s: Seq<LeaseStatus>, j: int)
    requires
        0 <= j < s.len(),
        s[j].is_active,
    ensures
        count_active(s) >= 1,
    decreases s.len(),
{
    lemma_count_active_le_len(s.drop_last());
    if j < s.len() - 1 {
        assert(s.drop_last()[j] == s[j]);
        lemma_count_active_at_least_one(s.drop_last(), j);
    }
}

/// A registry holding an overdue record recounts to at least one.
pub proof fn lemma_count_overdue_at_least_one(s: Seq<LeaseStatus>, j: int)
    requires
        0 <= j < s.len(),
        s[j].is_overdue,
    ensures
        count_overdue(s) >= 1,
    decreases s.len(),
{
    lemma_count_overdue_le_len(s.drop_last());
    if j < s.len() - 1 {
        assert(s.drop_last()[j] == s[j]);
        lemma_count_overdue_at_least_one(s.drop_last(), j);
    }
}

/// A registry holding a record that is not overdue recounts overdue records
/// to strictly less than its length.
pub proof fn lemma_count_overdue_missing_one(s: Seq<LeaseStatus>, j: int)
    requires
        0 <= j < s.len(),
        !s[j].is_overdue,
    ensures
        count_overdue(s) <= s.len() - 1,
    decreases s.len(),
{
    lemma_count_overdue_le_len(s.drop_last());
    if j < s.len() - 1 {
        assert(s.drop_last()[j] == s[j]);
        lemma_count_overdue_missing_one(s.drop_last(), j);
    }
}

/// When every overdue record is also active, the overdue recount cannot
/// exceed the active recount.
pub proof fn lemma_count_overdue_le_active(s: Seq<LeaseStatus>)
    requires
        forall|j: int| 0 <= j < s.len() && (#[trigger] s[j]).is_overdue ==> s[j].is_active,
    ensures
        count_overdue(s) <= count_active(s),
    decreases s.len(),
{
    if s.len() > 0 {
        assert forall|j: int|
            0 <= j < s.drop_last().len() && (#[trigger] s.drop_last()[j]).is_overdue implies s
            .drop_last()[j].is_active by {
            assert(s.drop_last()[j] == s[j]);
        }
        lemma_count_overdue_le_active(s.drop_last());
        assert(s[s.len() - 1] == s.last());
    }
}

} // verus!
