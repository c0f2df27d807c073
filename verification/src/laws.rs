//! Laws that span the driver's components: what a whole benchmark run
//! reports when the collaborator behaves, proved from the partitioning, the
//! worker machine, and the aggregation together.

use vstd::prelude::*;
use crate::dispatch::{sum_counts, WorkAssignment};
use crate::worker::{
    all_success, lemma_reliable_worker, run_calls, spec_init, WorkerEvent, WorkerResult,
};
use crate::aggregate::{lemma_all_success_totals, sum_attempted, sum_successful};

verus! {

/// A fully reliable run over a set of assignments: every worker connected,
/// every one of its calls succeeded, and its result is what its machine
/// reports after those outcomes.
pub open spec fn reliable_run(
    results: Seq<WorkerResult>,
    a: Seq<WorkAssignment>,
    outcomes: Seq<Seq<bool>>,
) -> bool {
    &&& results.len() == a.len()
    &&& outcomes.len() == a.len()
    &&& forall|i: int| 0 <= i < a.len() ==> (#[trigger] a[i]).wf()
    &&& forall|i: int|
        0 <= i < a.len() ==> (#[trigger] outcomes[i]).len() == a[i].count && all_success(
            outcomes[i],
        )
    &&& forall|i: int|
        0 <= i < a.len() ==> #[trigger] results[i] == run_calls(
            spec_init(a[i]).spec_step(WorkerEvent::Connected),
            outcomes[i],
        ).spec_result()
}

/// The all-success law, end to end: when every connection and every call of
/// a run succeeds, the aggregate's total successful calls, total attempted
/// calls, and the sum of the assigned counts are all the same number.
pub proof fn lemma_reliable_run_totals(
    results: Seq<WorkerResult>,
    a: Seq<WorkAssignment>,
    outcomes: Seq<Seq<bool>>,
)
    requires
        reliable_run(results, a, outcomes),
    ensures
        sum_successful(results) == sum_counts(a),
        sum_attempted(results) == sum_counts(a),
{
    assert forall|i: int| 0 <= i < results.len() implies #[trigger] results[i] == (WorkerResult {
        worker_id: a[i].worker_id,
        successful_count: a[i].count,
        attempted_count: a[i].count,
    }) by {
        lemma_reliable_worker(a[i], outcomes[i]);
    }
    lemma_all_success_totals(results, a);
}

/// Idempotence of the dispatcher against a fully reliable collaborator: two
/// runs over the same assignments report the same worker results — value for
/// value, worker for worker — whatever the two runs' outcome sequences were.
pub proof fn lemma_reliable_runs_identical(
    r1: Seq<WorkerResult>,
    r2: Seq<WorkerResult>,
    a: Seq<WorkAssignment>,
    o1: Seq<Seq<bool>>,
    o2: Seq<Seq<bool>>,
)
    requires
        reliable_run(r1, a, o1),
        reliable_run(r2, a, o2),
    ensures
        r1 == r2,
{
    assert forall|i: int| 0 <= i < a.len() implies #[trigger] r1[i] == r2[i] by {
        lemma_reliable_worker(a[i], o1[i]);
        lemma_reliable_worker(a[i], o2[i]);
    }
    assert(r1 =~= r2);
}

} // verus!
