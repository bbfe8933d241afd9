//! Shared progress aggregation across the transfers of one task.
//!
//! One tracker holds, per file, the bytes transferred so far and the
//! expected total.  Transfers overwrite their own entry; anyone may ask
//! for the aggregate.  The host shares one tracker among its concurrent
//! transfers behind a single exclusive lock, held only for the duration
//! of one update or one read.

use vstd::prelude::*;

verus! {

/// One file's progress: bytes transferred so far, and the expected
/// total fixed at initialization.
#[derive(Clone, Copy, PartialEq, Eq, Structural, Debug)]
pub struct ProgressEntry {
    pub transferred: u64,
    pub total: u64,
}

/// The sum of the transferred counts.
pub open spec fn sum_transferred(s: Seq<ProgressEntry>) -> int
    decreases s.len(),
{
    if s.len() == 0 {
        0
    } else {
        sum_transferred(s.drop_last()) + s.last().transferred
    }
}

/// The sum of the expected totals.
pub open spec fn sum_total(s: Seq<ProgressEntry>) -> int
    decreases s.len(),
{
    if s.len() == 0 {
        0
    } else {
        sum_total(s.drop_last()) + s.last().total
    }
}

/// The sum of a size list.
pub open spec fn sum_sizes(s: Seq<u64>) -> int
    decreases s.len(),
{
    if s.len() == 0 {
        0
    } else {
        sum_sizes(s.drop_last()) + s.last()
    }
}

proof fn lemma_sum_take_succ(s: Seq<ProgressEntry>, i: int)
    requires
        0 <= i < s.len(),
    ensures
        sum_transferred(s.take(i + 1)) == sum_transferred(s.take(i)) + s[i].transferred,
        sum_total(s.take(i + 1)) == sum_total(s.take(i)) + s[i].total,
{
    assert(s.take(i + 1).drop_last() =~= s.take(i));
    assert(s.take(i + 1).last() == s[i]);
}

proof fn lemma_sum_total_prefix_le(s: Seq<ProgressEntry>, i: int)
    requires
        0 <= i <= s.len(),
    ensures
        sum_total(s.take(i)) <= sum_total(s),
    decreases s.len() - i,
{
    if i == s.len() {
        assert(s.take(i) =~= s);
    } else {
        lemma_sum_take_succ(s, i);
        lemma_sum_total_prefix_le(s, i + 1);
    }
}

proof fn lemma_sum_total_update(s: Seq<ProgressEntry>, i: int, e: ProgressEntry)
    requires
        0 <= i < s.len(),
        e.total == s[i].total,
    ensures
        sum_total(s.update(i, e)) == sum_total(s),
    decreases s.len(),
{
    if i == s.len() - 1 {
        assert(s.update(i, e).drop_last() =~= s.drop_last());
        assert(s.update(i, e).last() == e);
    } else {
        assert(s.update(i, e).drop_last() =~= s.drop_last().update(i, e));
        assert(s.update(i, e).last() == s.last());
        lemma_sum_total_update(s.drop_last(), i, e);
    }
}

/// The per-task aggregator, keyed by each item's index within the task.
pub struct ProgressTracker {
    entries: Vec<ProgressEntry>,
}

impl View for ProgressTracker {
    type V = Seq<ProgressEntry>;

    closed spec fn view(&self) -> Seq<ProgressEntry> {
        self.entries@
    }
}

impl ProgressTracker {
    /// The aggregate total fits in the counter: fixed at
    /// initialization, preserved by every update.
    pub open spec fn wf(self) -> bool {
        sum_total(self@) <= u64::MAX
    }

    /// Seeds one entry per item with (0, its expected size).
    pub fn new(sizes: &Vec<u64>) -> (r: ProgressTracker)
        requires
            sum_sizes(sizes@) <= u64::MAX,
        ensures
            r@.len() == sizes@.len(),
            forall|i: int|
                0 <= i < sizes@.len() ==> r@[i] == (ProgressEntry {
                    transferred: 0,
                    total: sizes@[i],
                }),
            r.wf(),
    {
        let mut entries: Vec<ProgressEntry> = Vec::new();
        let mut i: usize = 0;
        while i < sizes.len()
            invariant
                0 <= i <= sizes@.len(),
                entries@.len() == i,
                forall|j: int|
                    0 <= j < i ==> entries@[j] == (ProgressEntry {
                        transferred: 0,
                        total: sizes@[j],
                    }),
            decreases sizes@.len() - i,
        {
            entries.push(ProgressEntry { transferred: 0, total: sizes[i] });
            i = i + 1;
        }
        proof {
            lemma_sum_total_matches_sizes(entries@, sizes@);
        }
        ProgressTracker { entries }
    }

    /// How many entries the tracker holds.
    pub fn len(&self) -> (n: usize)
        ensures
            n == self@.len(),
    {
        self.entries.len()
    }

    /// Overwrites the transferred count of one file.  The expected
    /// total never changes after initialization.
    pub fn update(&mut self, index: usize, transferred: u64)
        requires
            index < old(self)@.len(),
            old(self).wf(),
        ensures
            final(self)@ == old(self)@.update(
                index as int,
                ProgressEntry { transferred, total: old(self)@[index as int].total },
            ),
            final(self).wf(),
    {
        let total = self.entries[index].total;
        self.entries[index] = ProgressEntry { transferred, total };
        proof {
            lemma_sum_total_update(
                old(self)@,
                index as int,
                ProgressEntry { transferred, total },
            );
        }
    }

    /// The aggregate progress at the time of the call: the sum of all
    /// transferred counts (saturated at the counter's maximum) and the
    /// sum of all expected totals.
    pub fn total_progress(&self) -> (r: (u64, u64))
        requires
            self.wf(),
        ensures
            r.0 as int == if sum_transferred(self@) > u64::MAX {
                u64::MAX as int
            } else {
                sum_transferred(self@)
            },
            r.1 == sum_total(self@),
    {
        let mut transferred: u64 = 0;
        let mut total: u64 = 0;
        let mut i: usize = 0;
        while i < self.entries.len()
            invariant
                0 <= i <= self@.len(),
                self.wf(),
                transferred as int == if sum_transferred(self@.take(i as int)) > u64::MAX {
                    u64::MAX as int
                } else {
                    sum_transferred(self@.take(i as int))
                },
                total == sum_total(self@.take(i as int)),
            decreases self@.len() - i,
        {
            proof {
                lemma_sum_take_succ(self@, i as int);
                lemma_sum_total_prefix_le(self@, i as int + 1);
            }
            transferred = transferred.saturating_add(self.entries[i].transferred);
            total = total + self.entries[i].total;
            i = i + 1;
        }
        proof {
            assert(self@.take(self@.len() as int) =~= self@);
        }
        (transferred, total)
    }
}

proof fn lemma_sum_total_matches_sizes(entries: Seq<ProgressEntry>, sizes: Seq<u64>)
    requires
        entries.len() == sizes.len(),
        forall|i: int| 0 <= i < entries.len() ==> entries[i].total == sizes[i],
    ensures
        sum_total(entries) == sum_sizes(sizes),
    decreases entries.len(),
{
    if entries.len() > 0 {
        lemma_sum_total_matches_sizes(entries.drop_last(), sizes.drop_last());
    }
}

/// Law: in a fully transferred task — every file's transferred count
/// equal to its expected total, which is each file's final size — the
/// aggregate transferred equals the aggregate total.
pub proof fn lemma_complete_aggregate(s: Seq<ProgressEntry>)
    requires
        forall|i: int| 0 <= i < s.len() ==> s[i].transferred == s[i].total,
    ensures
        sum_transferred(s) == sum_total(s),
    decreases s.len(),
{
    if s.len() > 0 {
        lemma_complete_aggregate(s.drop_last());
    }
}

} // verus!
