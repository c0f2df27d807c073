//! Aggregation of per-worker outcomes into one throughput report.
//!
//! The report carries the raw aggregate figures: elapsed wall-clock time in
//! microseconds and the totals of successful and attempted calls. The
//! derived floating-point metrics — requests per second and average latency
//! per successful call — are a presentation concern of the surrounding
//! application; with the elapsed time and the two totals the report
//! determines them completely.

use vstd::prelude::*;
use crate::dispatch::{sum_counts, WorkAssignment};
use crate::worker::WorkerResult;

verus! {

/// The aggregate outcome of one benchmark run.
#[derive(Clone, Copy, PartialEq, Eq, Structural, Debug)]
pub struct BenchmarkReport {
    /// Wall-clock time from just before the first worker was spawned to
    /// just after the last one finished, in microseconds.
    pub elapsed_micros: u64,
    /// Calls that returned successfully, over all workers.
    pub total_successful: u64,
    /// Calls attempted, over all workers.
    pub total_attempted: u64,
}

/// Sum of the successful counts of a sequence of worker results.
pub open spec fn sum_successful(results: Seq<WorkerResult>) -> int
    decreases results.len(),
{
    if results.len() == 0 {
        0
    } else {
        sum_successful(results.drop_last()) + results.last().successful_count
    }
}

/// Sum of the attempted counts of a sequence of worker results.
pub open spec fn sum_attempted(results: Seq<WorkerResult>) -> int
    decreases results.len(),
{
    if results.len() == 0 {
        0
    } else {
        sum_attempted(results.drop_last()) + results.last().attempted_count
    }
}

/// Folds all worker results into the final report: the totals are exactly
/// the sums of the per-worker counters, and the elapsed time is passed
/// through unchanged.
pub fn aggregate(results: &Vec<WorkerResult>, elapsed_micros: u64) -> (r: BenchmarkReport)
    requires
        results@.len() <= u32::MAX,
    ensures
        r.elapsed_micros == elapsed_micros,
        r.total_successful == sum_successful(results@),
        r.total_attempted == sum_attempted(results@),
{
    let mut total_successful: u64 = 0;
    let mut total_attempted: u64 = 0;
    let mut i: usize = 0;
    while i < results.len()
        invariant
            i <= results@.len() <= u32::MAX,
            total_successful == sum_successful(results@.take(i as int)),
            total_attempted == sum_attempted(results@.take(i as int)),
            total_successful <= i * (u32::MAX as int),
            total_attempted <= i * (u32::MAX as int),
        decreases results@.len() - i,
    {
        proof {
            let prefix = results@.take(i as int + 1);
            assert(prefix.drop_last() =~= results@.take(i as int));
            assert(prefix.last() == results@[i as int]);
            assert((i as int + 1) * (u32::MAX as int) == i as int * (u32::MAX as int) + (
            u32::MAX as int)) by {
                vstd::arithmetic::mul::lemma_mul_is_distributive_sub(
                    u32::MAX as int,
                    i as int + 1,
                    1int,
                );
                vstd::arithmetic::mul::lemma_mul_is_commutative(i as int + 1, u32::MAX as int);
                vstd::arithmetic::mul::lemma_mul_is_commutative(i as int, u32::MAX as int);
            }
            assert((i as int + 1) * (u32::MAX as int) <= (u32::MAX as int) * (u32::MAX as int)) by {
                vstd::arithmetic::mul::lemma_mul_inequality(
                    i as int + 1,
                    u32::MAX as int,
                    u32::MAX as int,
                );
            }
        }
        let result = &results[i];
        total_successful = total_successful + result.successful_count as u64;
        total_attempted = total_attempted + result.attempted_count as u64;
        i = i + 1;
    }
    proof {
        assert(results@.take(results@.len() as int) =~= results@);
    }
    BenchmarkReport { elapsed_micros, total_successful, total_attempted }
}

/// The all-success law: when every connection and every call succeeds, each
/// worker reports successes and attempts equal to its full assigned count,
/// and the aggregate totals agree — total successful calls, total attempted
/// calls, and the sum of the assigned counts are all one number.
pub proof fn lemma_all_success_totals(results: Seq<WorkerResult>, a: Seq<WorkAssignment>)
    requires
        results.len() == a.len(),
        forall|i: int| 0 <= i < results.len() ==> #[trigger] results[i] == (WorkerResult {
            worker_id: a[i].worker_id,
            successful_count: a[i].count,
            attempted_count: a[i].count,
        }),
    ensures
        sum_successful(results) == sum_counts(a),
        sum_attempted(results) == sum_counts(a),
    decreases results.len(),
{
    if results.len() > 0 {
        assert(results.drop_last().len() == a.drop_last().len());
        assert(forall|i: int| 0 <= i < results.drop_last().len() ==> #[trigger] results.drop_last()[i]
            == results[i]);
        assert(forall|i: int| 0 <= i < a.drop_last().len() ==> #[trigger] a.drop_last()[i] == a[i]);
        lemma_all_success_totals(results.drop_last(), a.drop_last());
    }
}

/// Aggregation-side failure isolation: a result with zero successes adds
/// nothing to the success total — removing it leaves the total exactly the
/// sum over the other workers' results, which it therefore cannot affect.
pub proof fn lemma_zero_success_contributes_nothing(results: Seq<WorkerResult>, k: int)
    requires
        0 <= k < results.len(),
        results[k].successful_count == 0,
    ensures
        sum_successful(results) == sum_successful(results.remove(k)),
    decreases results.len(),
{
    if k == results.len() - 1 {
        assert(results.remove(k) =~= results.drop_last());
    } else {
        assert(results.remove(k).drop_last() =~= results.drop_last().remove(k));
        assert(results.remove(k).last() == results.last());
        lemma_zero_success_contributes_nothing(results.drop_last(), k);
    }
}

} // verus!
