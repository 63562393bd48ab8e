//! The size evaluator: classifies staged entries against the per-file
//! tolerance, sums every entry's size against the aggregate tolerance, and
//! reports which of the two limits was breached.

use vstd::prelude::*;

use crate::entries::{EntryView, StagedEntry, Thresholds};

verus! {

/// The summed byte count of a sequence of staged entries.
pub open spec fn sum_sizes(s: Seq<EntryView>) -> int
    decreases s.len(),
{
    if s.len() == 0 {
        0
    } else {
        sum_sizes(s.drop_last()) + s.last().size
    }
}

/// The subsequence of entries whose size lies strictly above the per-file
/// tolerance, in the order the staging area handed them out.
pub open spec fn oversized_entries(s: Seq<EntryView>, file_tolerance: u64) -> Seq<EntryView>
    decreases s.len(),
{
    if s.len() == 0 {
        Seq::empty()
    } else {
        let rest = oversized_entries(s.drop_last(), file_tolerance);
        if s.last().size > file_tolerance {
            rest.push(s.last())
        } else {
            rest
        }
    }
}

/// The verdict of one evaluation: the entries above the per-file tolerance,
/// the aggregate size of everything staged, and which of the two independent
/// limits was breached.
pub struct EvaluationResult {
    pub oversized: Vec<StagedEntry>,
    pub total: u128,
    pub file_breach: bool,
    pub aggregate_breach: bool,
}

/// What a correct evaluation of the entry sequence `s` under the thresholds
/// `t` must report.
pub open spec fn result_matches(r: EvaluationResult, s: Seq<EntryView>, t: Thresholds) -> bool {
    &&& r.total as int == sum_sizes(s)
    &&& r.oversized.deep_view() == oversized_entries(s, t.file_tolerance)
    &&& r.file_breach == (oversized_entries(s, t.file_tolerance).len() > 0)
    &&& r.aggregate_breach == (sum_sizes(s) > t.staged_tolerance as int)
}

/// Every sum of entry sizes is non-negative and no larger than one maximal
/// size per entry.
proof fn lemma_sum_sizes_bounds(s: Seq<EntryView>)
    ensures
        0 <= sum_sizes(s) <= s.len() * (u64::MAX as int),
    decreases s.len(),
{
    if s.len() > 0 {
        lemma_sum_sizes_bounds(s.drop_last());
    }
}

/// Extending a prefix by one entry adds that entry's size to the prefix sum.
proof fn lemma_sum_prefix_step(s: Seq<EntryView>, i: int)
    requires
        0 <= i < s.len(),
    ensures
        sum_sizes(s.take(i + 1)) == sum_sizes(s.take(i)) + s[i].size,
{
    assert(s.take(i + 1).drop_last() =~= s.take(i));
    assert(s.take(i + 1).last() == s[i]);
}

/// Extending a prefix by one entry appends the entry to the prefix's
/// oversized list exactly when its size lies strictly above the tolerance.
proof fn lemma_oversized_prefix_step(s: Seq<EntryView>, i: int, file_tolerance: u64)
    requires
        0 <= i < s.len(),
    ensures
        oversized_entries(s.take(i + 1), file_tolerance) == (if s[i].size > file_tolerance {
            oversized_entries(s.take(i), file_tolerance).push(s[i])
        } else {
            oversized_entries(s.take(i), file_tolerance)
        }),
{
    assert(s.take(i + 1).drop_last() =~= s.take(i));
    assert(s.take(i + 1).last() == s[i]);
}

/// Law: an entry stands among the oversized entries exactly when it stands
/// among the staged entries with a size strictly greater than the per-file
/// tolerance. In particular, an entry whose size is exactly the tolerance is
/// never listed.
pub proof fn lemma_oversized_membership(s: Seq<EntryView>, file_tolerance: u64, e: EntryView)
    ensures
        oversized_entries(s, file_tolerance).contains(e) <==> (s.contains(e) && e.size
            > file_tolerance),
    decreases s.len(),
{
    if s.len() == 0 {
        assert(!s.contains(e));
        assert(!oversized_entries(s, file_tolerance).contains(e));
    } else {
        let rest = s.drop_last();
        lemma_oversized_membership(rest, file_tolerance, e);
        let over_rest = oversized_entries(rest, file_tolerance);
        let over = oversized_entries(s, file_tolerance);
        assert(s.contains(e) <==> (rest.contains(e) || s.last() == e)) by {
            if s.contains(e) {
                let k = choose|k: int| 0 <= k < s.len() && s[k] == e;
                if k < s.len() - 1 {
                    assert(rest[k] == e);
                    assert(rest.contains(e));
                }
            }
            if rest.contains(e) {
                let k = choose|k: int| 0 <= k < rest.len() && rest[k] == e;
                assert(s[k] == e);
                assert(s.contains(e));
            }
            if s.last() == e {
                assert(s[s.len() - 1] == e);
                assert(s.contains(e));
            }
        }
        if s.last().size > file_tolerance {
            assert(over.contains(e) <==> (over_rest.contains(e) || s.last() == e)) by {
                if over.contains(e) {
                    let k = choose|k: int| 0 <= k < over.len() && over[k] == e;
                    if k < over.len() - 1 {
                        assert(over_rest[k] == e);
                        assert(over_rest.contains(e));
                    }
                }
                if over_rest.contains(e) {
                    let k = choose|k: int| 0 <= k < over_rest.len() && over_rest[k] == e;
                    assert(over[k] == e);
                    assert(over.contains(e));
                }
                if s.last() == e {
                    assert(over[over.len() - 1] == e);
                    assert(over.contains(e));
                }
            }
        }
    }
}

/// Law: an empty staging area evaluates to an empty oversized list, a total
/// of zero bytes, and no breach of either tolerance.
pub proof fn lemma_empty_staging(r: EvaluationResult, t: Thresholds)
    requires
        result_matches(r, Seq::<EntryView>::empty(), t),
    ensures
        r.total == 0,
        r.oversized.deep_view() == Seq::<EntryView>::empty(),
        r.oversized@.len() == 0,
        !r.file_breach,
        !r.aggregate_breach,
{
}

/// Law: evaluation is deterministic. Two verdicts over the same entry
/// sequence and the same thresholds agree on every observable part.
pub proof fn lemma_evaluation_deterministic(
    s: Seq<EntryView>,
    t: Thresholds,
    r1: EvaluationResult,
    r2: EvaluationResult,
)
    requires
        result_matches(r1, s, t),
        result_matches(r2, s, t),
    ensures
        r1.total == r2.total,
        r1.oversized.deep_view() == r2.oversized.deep_view(),
        r1.file_breach == r2.file_breach,
        r1.aggregate_breach == r2.aggregate_breach,
{
}

/// Law: every oversized entry is also counted in the aggregate total: the
/// summed size of the oversized entries never exceeds the summed size of all
/// entries.
pub proof fn lemma_oversized_sum_within_total(s: Seq<EntryView>, file_tolerance: u64)
    ensures
        0 <= sum_sizes(oversized_entries(s, file_tolerance)) <= sum_sizes(s),
    decreases s.len(),
{
    lemma_sum_sizes_bounds(s);
    if s.len() > 0 {
        let rest = s.drop_last();
        lemma_oversized_sum_within_total(rest, file_tolerance);
        if s.last().size > file_tolerance {
            let over_rest = oversized_entries(rest, file_tolerance);
            assert(over_rest.push(s.last()).drop_last() =~= over_rest);
        }
    }
}

/// Evaluates the staged entries against the thresholds. Every entry counts
/// toward the aggregate total; an entry is listed as oversized exactly when
/// its size is strictly greater than `t.file_tolerance`; the aggregate limit
/// is breached exactly when the total is strictly greater than
/// `t.staged_tolerance`.
pub fn evaluate(entries: &Vec<StagedEntry>, t: &Thresholds) -> (r: EvaluationResult)
    ensures
        result_matches(r, entries.deep_view(), *t),
{
    let ghost s = entries.deep_view();
    let mut oversized: Vec<StagedEntry> = Vec::new();
    let mut total: u128 = 0;
    let n: usize = entries.len();
    let mut i: usize = 0;
    while i < n
        invariant
            i <= n,
            n == entries@.len(),
            s == entries.deep_view(),
            total as int == sum_sizes(s.take(i as int)),
            total as int <= (i as int) * (u64::MAX as int),
            oversized.deep_view() == oversized_entries(s.take(i as int), t.file_tolerance),
        decreases n - i,
    {
        proof {
            lemma_sum_prefix_step(s, i as int);
            lemma_oversized_prefix_step(s, i as int, t.file_tolerance);
        }
        let ghost prior = oversized.deep_view();
        let e = &entries[i];
        if e.size > t.file_tolerance {
            oversized.push(e.clone());
            proof {
                assert(oversized.deep_view() =~= prior.push(s[i as int]));
            }
        }
        total = total + e.size as u128;
        i = i + 1;
    }
    proof {
        assert(s.take(n as int) =~= s);
    }
    let file_breach = oversized.len() > 0;
    let aggregate_breach = total > t.staged_tolerance as u128;
    EvaluationResult { oversized, total, file_breach, aggregate_breach }
}

impl EvaluationResult {
    /// The decision: the run passes exactly when neither the per-file
    /// tolerance nor the aggregate tolerance was breached.
    pub fn passes(&self) -> (r: bool)
        ensures
            r == (!self.file_breach && !self.aggregate_breach),
    {
        !self.file_breach && !self.aggregate_breach
    }

    /// The summed size of the oversized entries alone, for callers that
    /// report how much the staged total would shrink without them.
    pub fn oversized_total(&self) -> (r: u128)
        ensures
            r as int == sum_sizes(self.oversized.deep_view()),
    {
        let ghost s = self.oversized.deep_view();
        let mut total: u128 = 0;
        let n: usize = self.oversized.len();
        let mut i: usize = 0;
        while i < n
            invariant
                i <= n,
                n == self.oversized@.len(),
                s == self.oversized.deep_view(),
                total as int == sum_sizes(s.take(i as int)),
                total as int <= (i as int) * (u64::MAX as int),
            decreases n - i,
        {
            proof {
                lemma_sum_prefix_step(s, i as int);
            }
            total = total + self.oversized[i].size as u128;
            i = i + 1;
        }
        proof {
            assert(s.take(n as int) =~= s);
        }
        total
    }
}

} // verus!

