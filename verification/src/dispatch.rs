//! Partitioning of the total iteration count across workers.
//!
//! The dispatcher hands each worker a contiguous slice of the global index
//! range `[0, total_iterations)`. Every worker receives exactly
//! `total_iterations / worker_count` indices (floor division); the remainder
//! of the division is dropped and never assigned to any worker. This
//! remainder-drop is the baseline policy of the driver, preserved
//! deliberately rather than redistributed.

use vstd::prelude::*;
use vstd::arithmetic::div_mod::{lemma_div_pos_is_pos, lemma_fundamental_div_mod, lemma_mod_bound};
use vstd::arithmetic::mul::{lemma_mul_inequality, lemma_mul_is_distributive_sub};
use crate::config::{BenchmarkConfig, ConfigError};

verus! {

/// The contiguous slice of the global index range that one worker runs:
/// the indices `[start_index, start_index + count)`.
#[derive(Clone, Copy, PartialEq, Eq, Structural, Debug)]
pub struct WorkAssignment {
    pub worker_id: u32,
    pub start_index: u32,
    pub count: u32,
}

impl WorkAssignment {
    /// The slice's upper end stays representable: every global index the
    /// worker will issue fits in the index type.
    pub open spec fn wf(self) -> bool {
        self.start_index + self.count <= u32::MAX
    }
}

/// How many iterations each worker receives under a valid configuration:
/// floor division of the total by the worker count.
pub open spec fn spec_per_worker(total: u32, workers: u32) -> int
    recommends
        workers >= 1,
{
    total as int / workers as int
}

/// The planned assignments have this shape: one per worker, each of size
/// `per = total / workers`, laid out contiguously from index 0.
pub open spec fn assignments_planned(a: Seq<WorkAssignment>, config: BenchmarkConfig) -> bool {
    let per = spec_per_worker(config.total_iterations, config.worker_count);
    &&& a.len() == config.worker_count
    &&& forall|i: int| 0 <= i < a.len() ==> {
        &&& (#[trigger] a[i]).worker_id == i
        &&& a[i].start_index == i * per
        &&& a[i].count == per
        &&& a[i].start_index + a[i].count <= config.total_iterations
    }
}

/// Sum of the counts of a sequence of assignments.
pub open spec fn sum_counts(a: Seq<WorkAssignment>) -> int
    decreases a.len(),
{
    if a.len() == 0 {
        0
    } else {
        sum_counts(a.drop_last()) + a.last().count
    }
}

/// Validates the configuration and derives one assignment per worker.
///
/// A run with zero workers or zero iterations is rejected before any other
/// work happens. Otherwise worker `i` receives the `per = total / workers`
/// indices starting at `i * per`; the remainder `total % workers` is dropped.
pub fn plan_assignments(config: &BenchmarkConfig) -> (r: Result<Vec<WorkAssignment>, ConfigError>)
    ensures
        r is Err <==> !config.is_valid(),
        config.worker_count == 0 ==> r == Result::<Vec<WorkAssignment>, ConfigError>::Err(
            ConfigError::NoWorkers,
        ),
        config.worker_count >= 1 && config.total_iterations == 0 ==> r == Result::<
            Vec<WorkAssignment>,
            ConfigError,
        >::Err(ConfigError::InvalidIterationCount),
        r matches Ok(a) ==> assignments_planned(a@, *config),
{
    if config.worker_count == 0 {
        return Err(ConfigError::NoWorkers);
    }
    if config.total_iterations == 0 {
        return Err(ConfigError::InvalidIterationCount);
    }
    let per: u32 = config.total_iterations / config.worker_count;
    let ghost per_int = spec_per_worker(config.total_iterations, config.worker_count);
    let mut out: Vec<WorkAssignment> = Vec::new();
    let mut id: u32 = 0;
    while id < config.worker_count
        invariant
            id <= config.worker_count,
            out@.len() == id,
            config.worker_count >= 1,
            per == per_int,
            per_int == spec_per_worker(config.total_iterations, config.worker_count),
            forall|i: int| 0 <= i < out@.len() ==> {
                &&& (#[trigger] out@[i]).worker_id == i
                &&& out@[i].start_index == i * per_int
                &&& out@[i].count == per_int
                &&& out@[i].start_index + out@[i].count <= config.total_iterations
            },
        decreases config.worker_count - id,
    {
        proof {
            lemma_slice_fits(config.total_iterations, config.worker_count, id as int + 1);
            assert((id as int + 1) * per_int == (id as int) * per_int + per_int) by {
                lemma_mul_is_distributive_sub(per_int, id as int + 1, 1int);
                vstd::arithmetic::mul::lemma_mul_is_commutative(id as int + 1, per_int);
                vstd::arithmetic::mul::lemma_mul_is_commutative(id as int, per_int);
            }
            assert(per_int >= 0) by {
                lemma_div_pos_is_pos(config.total_iterations as int, config.worker_count as int);
            }
        }
        let start: u32 = id * per;
        out.push(WorkAssignment { worker_id: id, start_index: start, count: per });
        id = id + 1;
    }
    Ok(out)
}

/// The multiple `i * (total / workers)` with `i <= workers` stays within
/// `total`: each worker's slice, end included, fits inside the global range.
proof fn lemma_slice_fits(total: u32, workers: u32, i: int)
    requires
        workers >= 1,
        0 <= i <= workers,
    ensures
        i * spec_per_worker(total, workers) <= total,
{
    let t = total as int;
    let w = workers as int;
    let per = spec_per_worker(total, workers);
    lemma_fundamental_div_mod(t, w);
    lemma_mod_bound(t, w);
    assert(w * per <= t);
    lemma_div_pos_is_pos(t, w);
    lemma_mul_inequality(i, w, per);
    assert(i * per <= w * per);
}

/// The remainder-drop law: the counts of the planned assignments add up to
/// `(total / workers) * workers`, so exactly `total % workers` iterations of
/// the configured total are never assigned to any worker.
pub proof fn lemma_assignments_sum(a: Seq<WorkAssignment>, config: BenchmarkConfig)
    requires
        config.is_valid(),
        assignments_planned(a, config),
    ensures
        sum_counts(a) == spec_per_worker(config.total_iterations, config.worker_count)
            * config.worker_count,
{
    let per = spec_per_worker(config.total_iterations, config.worker_count);
    lemma_sum_counts_constant(a, per);
    vstd::arithmetic::mul::lemma_mul_is_commutative(a.len() as int, per);
}

/// A sequence of assignments that all carry the same count sums to
/// `len * count`.
proof fn lemma_sum_counts_constant(a: Seq<WorkAssignment>, c: int)
    requires
        forall|i: int| 0 <= i < a.len() ==> (#[trigger] a[i]).count == c,
    ensures
        sum_counts(a) == a.len() * c,
    decreases a.len(),
{
    if a.len() == 0 {
    } else {
        lemma_sum_counts_constant(a.drop_last(), c);
        assert(sum_counts(a) == (a.len() - 1) * c + c);
        lemma_mul_is_distributive_sub(c, a.len() as int, 1int);
        vstd::arithmetic::mul::lemma_mul_is_commutative(a.len() as int, c);
        vstd::arithmetic::mul::lemma_mul_is_commutative(a.len() - 1, c);
    }
}

/// Planning is deterministic: the configuration pins the assignments down
/// completely, so two plans for the same configuration are the same plan.
pub proof fn lemma_plan_deterministic(
    a1: Seq<WorkAssignment>,
    a2: Seq<WorkAssignment>,
    config: BenchmarkConfig,
)
    requires
        assignments_planned(a1, config),
        assignments_planned(a2, config),
    ensures
        a1 == a2,
{
    assert forall|i: int| 0 <= i < a1.len() implies #[trigger] a1[i] == a2[i] by {}
    assert(a1 =~= a2);
}

/// The partition law: the planned slices are contiguous starting at global
/// index 0 — each worker's slice begins exactly where the previous one ends —
/// and pairwise disjoint: two distinct workers never share a global index.
pub proof fn lemma_assignments_partition(a: Seq<WorkAssignment>, config: BenchmarkConfig)
    requires
        config.is_valid(),
        assignments_planned(a, config),
    ensures
        a.len() > 0 ==> a[0].start_index == 0,
        forall|i: int| 1 <= i < a.len() ==> (#[trigger] a[i]).start_index == a[i - 1].start_index
            + a[i - 1].count,
        forall|i: int, j: int| 0 <= i < j < a.len() ==> (#[trigger] a[i]).start_index + a[i].count
            <= (#[trigger] a[j]).start_index,
{
    let per = spec_per_worker(config.total_iterations, config.worker_count);
    assert(per >= 0) by {
        lemma_div_pos_is_pos(config.total_iterations as int, config.worker_count as int);
    }
    if a.len() > 0 {
        assert(a[0].start_index == 0 * per);
        vstd::arithmetic::mul::lemma_mul_basics(per);
    }
    assert forall|i: int| 1 <= i < a.len() implies (#[trigger] a[i]).start_index == a[i
        - 1].start_index + a[i - 1].count by {
        assert(a[i].start_index == i * per);
        assert(a[i - 1].start_index == (i - 1) * per);
        lemma_mul_is_distributive_sub(per, i, 1int);
        vstd::arithmetic::mul::lemma_mul_is_commutative(i, per);
        vstd::arithmetic::mul::lemma_mul_is_commutative(i - 1, per);
    }
    assert forall|i: int, j: int| 0 <= i < j < a.len() implies (#[trigger] a[i]).start_index
        + a[i].count <= (#[trigger] a[j]).start_index by {
        assert(a[i].start_index + a[i].count == (i + 1) * per) by {
            lemma_mul_is_distributive_sub(per, i + 1, 1int);
            vstd::arithmetic::mul::lemma_mul_is_commutative(i + 1, per);
            vstd::arithmetic::mul::lemma_mul_is_commutative(i, per);
        }
        lemma_mul_inequality(i + 1, j, per);
    }
}

} // verus!
