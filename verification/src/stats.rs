//! The statistics of a batch run.
//!
//! Every file gives one outcome: its statistics, or its failure. The
//! statistics of the run are the sums over the outcomes. Sums and counts do
//! not depend on the order in which the outcomes arrive; the list of
//! failures keeps the order of arrival.

use vstd::prelude::*;
use crate::error::{Failure, ImageToolError};
use crate::processor::ProcessingStats;

verus! {

/// What became of one file.
#[derive(Debug)]
pub struct FileOutcome {
    /// The path of the source file.
    pub path: String,
    /// The statistics of the file, or why it failed.
    pub result: Result<ProcessingStats, ImageToolError>,
}

/// What became of one file, as contracts speak of it.
pub struct Outcome {
    /// The path of the source file.
    pub path: Seq<char>,
    /// The statistics of the file, or why it failed.
    pub result: Result<ProcessingStats, Failure>,
}

impl View for FileOutcome {
    type V = Outcome;

    open spec fn view(&self) -> Outcome {
        Outcome {
            path: self.path@,
            result: match self.result {
                Ok(stats) => Ok(stats),
                Err(e) => Err(e@),
            },
        }
    }
}

/// The statistics of a run.
#[derive(Debug)]
pub struct BatchStats {
    /// Number of files that were processed with success.
    pub processed_count: usize,
    /// Sum of the sizes of their sources, in bytes.
    pub total_size_before: u64,
    /// Sum of the sizes of their results, in bytes.
    pub total_size_after: u64,
    /// The failures, each with the path of its file, in order of arrival.
    pub errors: Vec<(String, ImageToolError)>,
}

/// The number of outcomes that are a success.
pub open spec fn succeeded(outcomes: Seq<Outcome>) -> nat
    decreases outcomes.len(),
{
    if outcomes.len() == 0 {
        0
    } else {
        succeeded(outcomes.drop_last()) + if outcomes.last().result is Ok {
            1nat
        } else {
            0nat
        }
    }
}

/// The sum of the source sizes of the successes.
pub open spec fn bytes_before(outcomes: Seq<Outcome>) -> nat
    decreases outcomes.len(),
{
    if outcomes.len() == 0 {
        0
    } else {
        bytes_before(outcomes.drop_last()) + match outcomes.last().result {
            Ok(stats) => stats.input_size as nat,
            Err(_) => 0nat,
        }
    }
}

/// The sum of the result sizes of the successes.
pub open spec fn bytes_after(outcomes: Seq<Outcome>) -> nat
    decreases outcomes.len(),
{
    if outcomes.len() == 0 {
        0
    } else {
        bytes_after(outcomes.drop_last()) + match outcomes.last().result {
            Ok(stats) => stats.output_size as nat,
            Err(_) => 0nat,
        }
    }
}

/// The failures among the outcomes, each with its path, in order.
pub open spec fn failures(outcomes: Seq<Outcome>) -> Seq<(Seq<char>, Failure)>
    decreases outcomes.len(),
{
    if outcomes.len() == 0 {
        Seq::empty()
    } else {
        match outcomes.last().result {
            Ok(_) => failures(outcomes.drop_last()),
            Err(e) => failures(outcomes.drop_last()).push((outcomes.last().path, e)),
        }
    }
}

/// A sum as it is held in 64 bits: the sum, or the largest number if the
/// sum is beyond it.
pub open spec fn capped(n: nat) -> u64 {
    if n > u64::MAX {
        u64::MAX
    } else {
        n as u64
    }
}

/// A count as it is held: the count, or the largest number if the count is
/// beyond it.
pub open spec fn capped_count(n: nat) -> usize {
    if n > usize::MAX {
        usize::MAX
    } else {
        n as usize
    }
}

/// Every outcome is a success or a failure, and is counted once.
pub proof fn lemma_outcomes_partition(outcomes: Seq<Outcome>)
    ensures
        succeeded(outcomes) + failures(outcomes).len() == outcomes.len(),
    decreases outcomes.len(),
{
    if outcomes.len() > 0 {
        lemma_outcomes_partition(outcomes.drop_last());
    }
}

/// Every failure on the list is the failure of one of the files, under that
/// file's path; a file that succeeded is on the list under no index.
pub proof fn lemma_failures_come_from_outcomes(outcomes: Seq<Outcome>, i: int)
    requires
        0 <= i < failures(outcomes).len(),
    ensures
        exists|k: int|
            0 <= k < outcomes.len() && (#[trigger] outcomes[k]).result is Err && failures(
                outcomes,
            )[i] == (outcomes[k].path, outcomes[k].result->Err_0),
    decreases outcomes.len(),
{
    let rest = outcomes.drop_last();
    let last = outcomes.last();
    if last.result is Err && i == failures(rest).len() {
        assert(outcomes[outcomes.len() - 1] == last);
    } else {
        lemma_failures_come_from_outcomes(rest, i);
        let k = choose|k: int|
            0 <= k < rest.len() && (#[trigger] rest[k]).result is Err && failures(rest)[i] == (
                rest[k].path,
                rest[k].result->Err_0,
            );
        assert(outcomes[k] == rest[k]);
    }
}

/// The totals of two runs, one after the other, are the sums of their
/// totals, and the failures of the first come before those of the second.
pub proof fn lemma_totals_of_concat(a: Seq<Outcome>, b: Seq<Outcome>)
    ensures
        succeeded(a + b) == succeeded(a) + succeeded(b),
        bytes_before(a + b) == bytes_before(a) + bytes_before(b),
        bytes_after(a + b) == bytes_after(a) + bytes_after(b),
        failures(a + b) == failures(a) + failures(b),
    decreases b.len(),
{
    if b.len() == 0 {
        assert(a + b =~= a);
        assert(failures(a) + failures(b) =~= failures(a));
    } else {
        lemma_totals_of_concat(a, b.drop_last());
        assert((a + b).drop_last() =~= a + b.drop_last());
        assert((a + b).last() == b.last());
        assert(failures(a + b) =~= failures(a) + failures(b));
    }
}

/// Counts and sums do not depend on which of two runs comes first, and the
/// same failures are reported either way.
pub proof fn lemma_totals_commute(a: Seq<Outcome>, b: Seq<Outcome>)
    ensures
        succeeded(a + b) == succeeded(b + a),
        bytes_before(a + b) == bytes_before(b + a),
        bytes_after(a + b) == bytes_after(b + a),
        failures(a + b).to_multiset() == failures(b + a).to_multiset(),
{
    lemma_totals_of_concat(a, b);
    lemma_totals_of_concat(b, a);
    vstd::seq_lib::lemma_multiset_commutative(failures(a), failures(b));
    vstd::seq_lib::lemma_multiset_commutative(failures(b), failures(a));
}

/// One failure among successes: every other file is counted, the list of
/// failures holds that file alone, and the sums are those of the others.
pub proof fn lemma_single_failure(outcomes: Seq<Outcome>, k: int)
    requires
        0 <= k < outcomes.len(),
        outcomes[k].result is Err,
        forall|i: int| 0 <= i < outcomes.len() && i != k ==> (#[trigger] outcomes[i]).result is Ok,
    ensures
        succeeded(outcomes) == outcomes.len() - 1,
        failures(outcomes) == seq![(outcomes[k].path, outcomes[k].result->Err_0)],
        bytes_before(outcomes) == bytes_before(outcomes.remove(k)),
        bytes_after(outcomes) == bytes_after(outcomes.remove(k)),
{
    let head = outcomes.take(k);
    let tail = outcomes.skip(k + 1);
    let one = seq![outcomes[k]];
    assert(outcomes =~= head + one + tail);
    assert(outcomes.remove(k) =~= head + tail);
    lemma_totals_of_concat(head, one);
    lemma_totals_of_concat(head + one, tail);
    lemma_totals_of_concat(head, tail);
    lemma_all_succeeded(head);
    lemma_all_succeeded(tail);
    let none = Seq::<Outcome>::empty();
    assert(one.drop_last() =~= none);
    assert(succeeded(none) == 0 && bytes_before(none) == 0 && bytes_after(none) == 0);
    assert(failures(none) =~= Seq::empty());
    assert(succeeded(one) == 0);
    assert(bytes_before(one) == 0);
    assert(bytes_after(one) == 0);
    assert(failures(one) =~= seq![(outcomes[k].path, outcomes[k].result->Err_0)]);
    assert(failures(outcomes) =~= failures(one));
}

/// Where every file succeeds, every file is counted and nothing is reported.
pub proof fn lemma_all_succeeded(outcomes: Seq<Outcome>)
    requires
        forall|i: int| 0 <= i < outcomes.len() ==> (#[trigger] outcomes[i]).result is Ok,
    ensures
        succeeded(outcomes) == outcomes.len(),
        failures(outcomes) == Seq::<(Seq<char>, Failure)>::empty(),
    decreases outcomes.len(),
{
    if outcomes.len() > 0 {
        lemma_all_succeeded(outcomes.drop_last());
    }
}

/// A list of outcomes as contracts speak of it.
pub open spec fn outcome_views(outcomes: Seq<FileOutcome>) -> Seq<Outcome> {
    outcomes.map_values(|outcome: FileOutcome| outcome@)
}

/// A list of failures as contracts speak of it: each path with the class and
/// the message of its failure.
pub open spec fn error_views(errors: Seq<(String, ImageToolError)>) -> Seq<(Seq<char>, Failure)> {
    errors.map_values(|entry: (String, ImageToolError)| (entry.0@, entry.1@))
}

impl BatchStats {
    /// Whether these are the statistics of the given outcomes.
    pub open spec fn summarizes(&self, outcomes: Seq<Outcome>) -> bool {
        &&& self.processed_count == capped_count(succeeded(outcomes))
        &&& self.total_size_before == capped(bytes_before(outcomes))
        &&& self.total_size_after == capped(bytes_after(outcomes))
        &&& error_views(self.errors@) == failures(outcomes)
    }

    /// The statistics of a run in which nothing has happened yet.
    pub fn new() -> (stats: BatchStats)
        ensures
            stats.processed_count == 0,
            stats.total_size_before == 0,
            stats.total_size_after == 0,
            stats.errors@.len() == 0,
            stats.summarizes(Seq::empty()),
    {
        let stats = BatchStats {
            processed_count: 0,
            total_size_before: 0,
            total_size_after: 0,
            errors: Vec::new(),
        };
        assert(error_views(stats.errors@) =~= failures(Seq::empty()));
        stats
    }

    /// Takes one more outcome into the statistics. A success is counted and
    /// its sizes are added; a failure is put at the end of the list, under
    /// the path of its file, and changes neither count nor sums.
    pub fn record(&mut self, outcome: FileOutcome)
        ensures
            match outcome.result {
                Ok(stats) => {
                    &&& final(self).processed_count == capped_count(
                        (old(self).processed_count + 1) as nat,
                    )
                    &&& final(self).total_size_before == capped(
                        (old(self).total_size_before + stats.input_size) as nat,
                    )
                    &&& final(self).total_size_after == capped(
                        (old(self).total_size_after + stats.output_size) as nat,
                    )
                    &&& final(self).errors@ == old(self).errors@
                },
                Err(e) => {
                    &&& final(self).processed_count == old(self).processed_count
                    &&& final(self).total_size_before == old(self).total_size_before
                    &&& final(self).total_size_after == old(self).total_size_after
                    &&& final(self).errors@ == old(self).errors@.push((outcome.path, e))
                },
            },
            forall|so_far: Seq<Outcome>| #[trigger]
                old(self).summarizes(so_far) ==> final(self).summarizes(so_far.push(outcome@)),
    {
        assert forall|so_far: Seq<Outcome>| so_far.push(outcome@).drop_last() == so_far by {
            assert(so_far.push(outcome@).drop_last() =~= so_far);
        }
        let ghost errors_before = self.errors@;
        match outcome.result {
            Ok(stats) => {
                self.processed_count = self.processed_count.saturating_add(1);
                self.total_size_before = self.total_size_before.saturating_add(stats.input_size);
                self.total_size_after = self.total_size_after.saturating_add(stats.output_size);
            },
            Err(e) => {
                self.errors.push((outcome.path, e));
                assert(error_views(self.errors@) =~= error_views(errors_before).push(
                    (outcome.path@, e@),
                ));
            },
        }
    }

    /// The statistics of two runs taken together. Counts and sums are
    /// added; the failures of `other` follow those of `self`.
    pub fn merge(self, other: BatchStats) -> (merged: BatchStats)
        ensures
            merged.processed_count == capped_count(
                (self.processed_count + other.processed_count) as nat,
            ),
            merged.total_size_before == capped(
                (self.total_size_before + other.total_size_before) as nat,
            ),
            merged.total_size_after == capped(
                (self.total_size_after + other.total_size_after) as nat,
            ),
            merged.errors@ == self.errors@ + other.errors@,
            forall|a: Seq<Outcome>, b: Seq<Outcome>|
                self.summarizes(a) && other.summarizes(b) ==> #[trigger] merged.summarizes(a + b),
    {
        let mut errors = self.errors;
        let mut more = other.errors;
        errors.append(&mut more);
        let merged = BatchStats {
            processed_count: self.processed_count.saturating_add(other.processed_count),
            total_size_before: self.total_size_before.saturating_add(other.total_size_before),
            total_size_after: self.total_size_after.saturating_add(other.total_size_after),
            errors,
        };
        assert forall|a: Seq<Outcome>, b: Seq<Outcome>|
            self.summarizes(a) && other.summarizes(b) implies #[trigger] merged.summarizes(
            a + b,
        ) by {
            lemma_totals_of_concat(a, b);
            assert(error_views(merged.errors@) =~= error_views(self.errors@) + error_views(
                other.errors@,
            ));
        }
        merged
    }

    /// The statistics of a list of outcomes.
    pub fn aggregate(outcomes: Vec<FileOutcome>) -> (stats: BatchStats)
        ensures
            stats.summarizes(outcome_views(outcomes@)),
    {
        let mut stats = BatchStats::new();
        let ghost all = outcomes@;
        for item in it: outcomes
            invariant
                it.seq() == all,
                stats.summarizes(outcome_views(all.take(it.index() as int))),
        {
            assert(outcome_views(all.take(it.index() + 1)) =~= outcome_views(
                all.take(it.index() as int),
            ).push(item@));
            stats.record(item);
        }
        assert(all.take(all.len() as int) =~= all);
        stats
    }
}

} // verus!
