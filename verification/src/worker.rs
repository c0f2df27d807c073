//! One worker's sequential call loop, as a state machine.
//!
//! A worker owns one connection and one assignment. Its driver performs the
//! action the machine asks for — connect, issue one call, or collect the
//! result — and feeds the outcome back as an event. The machine decides,
//! counts, and isolates this worker's failures: a failed connection ends the
//! worker at once with zero contribution, a failed call merely leaves the
//! success count where it was, and the worker goes on to the next index.

use vstd::prelude::*;
use crate::dispatch::WorkAssignment;

verus! {

/// How often a worker reports progress: after every this many completed
/// calls, successful or not.
pub const PROGRESS_INTERVAL: u32 = 1000;

/// What a worker observed from the collaborator: the outcome of the
/// connection attempt or of one RPC call.
#[derive(Clone, Copy, PartialEq, Eq, Structural, Debug)]
pub enum WorkerEvent {
    Connected,
    ConnectFailed,
    CallSucceeded,
    CallFailed,
}

/// What the worker asks its driver to do next.
#[derive(Clone, Copy, PartialEq, Eq, Structural, Debug)]
pub enum WorkerAction {
    /// Establish the connection to the endpoint.
    Connect,
    /// Issue one RPC carrying the payload for this global index.
    Call { global_index: u32 },
    /// The worker is done; collect its result.
    Finish,
}

/// The outcome of one worker, handed to the aggregator: how many of its
/// calls were attempted and how many of those returned successfully.
#[derive(Clone, Copy, PartialEq, Eq, Structural, Debug)]
pub struct WorkerResult {
    pub worker_id: u32,
    pub successful_count: u32,
    pub attempted_count: u32,
}

/// Where the worker stands in its life cycle.
#[derive(Clone, Copy, PartialEq, Eq, Structural, Debug)]
pub enum WorkerPhase {
    /// Waiting for the connection attempt's outcome.
    Connecting,
    /// Connected; issuing the calls of its slice in ascending index order.
    Running,
    /// Done, either normally or through a failed connection.
    Finished,
}

/// One worker's state: its assignment, its phase, and its two counters.
#[derive(Clone, Copy, PartialEq, Eq, Structural, Debug)]
pub struct Worker {
    pub assignment: WorkAssignment,
    pub phase: WorkerPhase,
    /// Calls completed so far, successful or not.
    pub completed: u32,
    /// Calls that returned successfully so far.
    pub successful: u32,
}

impl Worker {
    /// The state invariant: counters stay within the assignment, a worker
    /// still connecting has counted nothing, and a running worker has work
    /// left (the machine finishes the moment the last call completes).
    pub open spec fn wf(self) -> bool {
        &&& self.assignment.wf()
        &&& self.successful <= self.completed <= self.assignment.count
        &&& (self.phase is Connecting ==> self.completed == 0 && self.successful == 0)
        &&& (self.phase is Running ==> self.completed < self.assignment.count)
    }

    /// Which events the driver may feed in the current phase: the outcome of
    /// a connection attempt while connecting, the outcome of a call while
    /// running, nothing once finished.
    pub open spec fn expects(self, event: WorkerEvent) -> bool {
        match self.phase {
            WorkerPhase::Connecting => event is Connected || event is ConnectFailed,
            WorkerPhase::Running => event is CallSucceeded || event is CallFailed,
            WorkerPhase::Finished => false,
        }
    }

    /// The action the worker asks of its driver in its current state.
    pub open spec fn spec_action(self) -> WorkerAction {
        match self.phase {
            WorkerPhase::Connecting => WorkerAction::Connect,
            WorkerPhase::Running => WorkerAction::Call {
                global_index: (self.assignment.start_index + self.completed) as u32,
            },
            WorkerPhase::Finished => WorkerAction::Finish,
        }
    }

    /// The result the worker reports once finished. A worker whose
    /// connection failed finishes with both counters still at zero.
    pub open spec fn spec_result(self) -> WorkerResult {
        WorkerResult {
            worker_id: self.assignment.worker_id,
            successful_count: self.successful,
            attempted_count: self.completed,
        }
    }

    /// The state after one event: the whole transition relation of the
    /// machine, which the executable `step` follows exactly.
    pub open spec fn spec_step(self, event: WorkerEvent) -> Worker
        recommends
            self.wf(),
            self.expects(event),
    {
        match self.phase {
            WorkerPhase::Connecting => {
                let phase = if event is Connected && self.assignment.count > 0 {
                    WorkerPhase::Running
                } else {
                    WorkerPhase::Finished
                };
                Worker { assignment: self.assignment, phase, completed: 0, successful: 0 }
            },
            WorkerPhase::Running => {
                let completed = (self.completed + 1) as u32;
                let successful = if event is CallSucceeded {
                    (self.successful + 1) as u32
                } else {
                    self.successful
                };
                let phase = if completed == self.assignment.count {
                    WorkerPhase::Finished
                } else {
                    WorkerPhase::Running
                };
                Worker { assignment: self.assignment, phase, completed, successful }
            },
            WorkerPhase::Finished => self,
        }
    }

    /// A fresh worker for an assignment: not yet connected, nothing counted.
    pub fn new(assignment: WorkAssignment) -> (w: Worker)
        requires
            assignment.wf(),
        ensures
            w == spec_init(assignment),
            w.wf(),
            w.spec_action() == WorkerAction::Connect,
    {
        Worker {
            assignment,
            phase: WorkerPhase::Connecting,
            completed: 0,
            successful: 0,
        }
    }

    /// The action the driver should perform next.
    pub fn current_action(&self) -> (action: WorkerAction)
        requires
            self.wf(),
        ensures
            action == self.spec_action(),
    {
        match self.phase {
            WorkerPhase::Connecting => WorkerAction::Connect,
            WorkerPhase::Running => WorkerAction::Call {
                global_index: self.assignment.start_index + self.completed,
            },
            WorkerPhase::Finished => WorkerAction::Finish,
        }
    }

    /// Feeds one observed event into the machine and returns the next
    /// action. The new state is exactly `spec_step` of the old one.
    pub fn step(&mut self, event: WorkerEvent) -> (action: WorkerAction)
        requires
            old(self).wf(),
            old(self).expects(event),
        ensures
            *final(self) == old(self).spec_step(event),
            final(self).wf(),
            action == final(self).spec_action(),
    {
        match self.phase {
            WorkerPhase::Connecting => {
                if matches!(event, WorkerEvent::Connected) && self.assignment.count > 0 {
                    self.phase = WorkerPhase::Running;
                } else {
                    self.phase = WorkerPhase::Finished;
                }
            },
            WorkerPhase::Running => {
                self.completed = self.completed + 1;
                if matches!(event, WorkerEvent::CallSucceeded) {
                    self.successful = self.successful + 1;
                }
                if self.completed == self.assignment.count {
                    self.phase = WorkerPhase::Finished;
                }
            },
            WorkerPhase::Finished => {},
        }
        self.current_action()
    }

    /// Whether the worker has finished its slice (or given up on connecting).
    pub fn is_finished(&self) -> (r: bool)
        ensures
            r == (self.phase is Finished),
    {
        matches!(self.phase, WorkerPhase::Finished)
    }

    /// The finished worker's contribution to the aggregate.
    pub fn result(&self) -> (r: WorkerResult)
        requires
            self.phase is Finished,
        ensures
            r == self.spec_result(),
    {
        WorkerResult {
            worker_id: self.assignment.worker_id,
            successful_count: self.successful,
            attempted_count: self.completed,
        }
    }
}

/// The state of a fresh worker for an assignment.
pub open spec fn spec_init(assignment: WorkAssignment) -> Worker {
    Worker {
        assignment,
        phase: WorkerPhase::Connecting,
        completed: 0,
        successful: 0,
    }
}

/// The worker state after feeding the outcomes of successive calls, in
/// order: `true` for a call that returned successfully, `false` for one
/// that failed.
pub open spec fn run_calls(w: Worker, outcomes: Seq<bool>) -> Worker
    decreases outcomes.len(),
{
    if outcomes.len() == 0 {
        w
    } else {
        let event = if outcomes[0] {
            WorkerEvent::CallSucceeded
        } else {
            WorkerEvent::CallFailed
        };
        run_calls(w.spec_step(event), outcomes.drop_first())
    }
}

/// How many of a sequence of call outcomes were successes.
pub open spec fn count_true(outcomes: Seq<bool>) -> int
    decreases outcomes.len(),
{
    if outcomes.len() == 0 {
        0
    } else {
        (if outcomes[0] {
            1int
        } else {
            0int
        }) + count_true(outcomes.drop_first())
    }
}

/// A sequence of call outcomes in which every call succeeded.
pub open spec fn all_success(outcomes: Seq<bool>) -> bool {
    forall|i: int| 0 <= i < outcomes.len() ==> outcomes[i]
}

/// The number of successes never exceeds the number of outcomes.
pub proof fn lemma_count_true_bound(outcomes: Seq<bool>)
    ensures
        0 <= count_true(outcomes) <= outcomes.len(),
    decreases outcomes.len(),
{
    if outcomes.len() > 0 {
        lemma_count_true_bound(outcomes.drop_first());
    }
}

/// In an all-success sequence every outcome counts: the number of successes
/// is the full length.
pub proof fn lemma_count_true_all_success(outcomes: Seq<bool>)
    requires
        all_success(outcomes),
    ensures
        count_true(outcomes) == outcomes.len(),
    decreases outcomes.len(),
{
    if outcomes.len() > 0 {
        lemma_count_true_all_success(outcomes.drop_first());
    }
}

/// Per-call failure isolation: however the individual calls fare, a running
/// worker attempts every remaining index of its assignment. After the
/// outcomes of its remaining calls it has finished, its attempted count is
/// its full assigned count, and its successes are its successes so far plus
/// exactly the successful outcomes it observed.
pub proof fn lemma_worker_attempts_all(w: Worker, outcomes: Seq<bool>)
    requires
        w.wf(),
        w.phase is Running,
        outcomes.len() == w.assignment.count - w.completed,
    ensures
        run_calls(w, outcomes).phase is Finished,
        run_calls(w, outcomes).assignment == w.assignment,
        run_calls(w, outcomes).completed == w.assignment.count,
        run_calls(w, outcomes).successful == w.successful + count_true(outcomes),
    decreases outcomes.len(),
{
    lemma_count_true_bound(outcomes);
    let event = if outcomes[0] {
        WorkerEvent::CallSucceeded
    } else {
        WorkerEvent::CallFailed
    };
    let w1 = w.spec_step(event);
    if outcomes.len() == 1 {
        assert(run_calls(w1, outcomes.drop_first()) == w1);
        assert(count_true(outcomes.drop_first()) == 0);
    } else {
        lemma_count_true_bound(outcomes.drop_first());
        lemma_worker_attempts_all(w1, outcomes.drop_first());
    }
}

/// Connection-failure isolation, worker side: a worker whose connection
/// attempt fails finishes at once, with zero successes and zero attempts —
/// it issues no call at all.
pub proof fn lemma_connect_failure_zero_contribution(w: Worker)
    requires
        w.wf(),
        w.phase is Connecting,
    ensures
        w.spec_step(WorkerEvent::ConnectFailed).phase is Finished,
        w.spec_step(WorkerEvent::ConnectFailed).spec_result() == (WorkerResult {
            worker_id: w.assignment.worker_id,
            successful_count: 0,
            attempted_count: 0,
        }),
{
}

/// A fully reliable collaborator: a fresh worker that connects and sees
/// every call succeed finishes with successes and attempts both equal to its
/// full assigned count.
pub proof fn lemma_reliable_worker(a: WorkAssignment, outcomes: Seq<bool>)
    requires
        a.wf(),
        outcomes.len() == a.count,
        all_success(outcomes),
    ensures
        run_calls(spec_init(a).spec_step(WorkerEvent::Connected), outcomes).phase is Finished,
        run_calls(spec_init(a).spec_step(WorkerEvent::Connected), outcomes).spec_result() == (
        WorkerResult { worker_id: a.worker_id, successful_count: a.count, attempted_count: a.count }),
{
    let w = spec_init(a).spec_step(WorkerEvent::Connected);
    lemma_count_true_all_success(outcomes);
    if a.count == 0 {
    } else {
        lemma_worker_attempts_all(w, outcomes);
    }
}

/// Idempotence of a reliable run: against a collaborator in which every call
/// succeeds, two runs of the same assignment report the same result — the
/// outcome is a function of the assignment alone, not of the run.
pub proof fn lemma_reliable_run_deterministic(a: WorkAssignment, o1: Seq<bool>, o2: Seq<bool>)
    requires
        a.wf(),
        o1.len() == a.count,
        o2.len() == a.count,
        all_success(o1),
        all_success(o2),
    ensures
        run_calls(spec_init(a).spec_step(WorkerEvent::Connected), o1).spec_result() == run_calls(
            spec_init(a).spec_step(WorkerEvent::Connected),
            o2,
        ).spec_result(),
{
    lemma_reliable_worker(a, o1);
    lemma_reliable_worker(a, o2);
}

/// Whether a progress notification is due after this many completed calls:
/// one after every `PROGRESS_INTERVAL` completions, successful or not.
pub fn progress_due(completed: u32) -> (r: bool)
    ensures
        r == (completed != 0 && completed % PROGRESS_INTERVAL == 0),
{
    completed != 0 && completed % PROGRESS_INTERVAL == 0
}

} // verus!
