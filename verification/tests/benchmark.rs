use rpc_bench::aggregate::aggregate;
use rpc_bench::config::{BenchmarkConfig, ConfigError};
use rpc_bench::dispatch::{plan_assignments, WorkAssignment};
use rpc_bench::request::generate;
use rpc_bench::service::MyGreeter;
use rpc_bench::worker::{progress_due, Worker, WorkerAction, WorkerEvent, WorkerResult};

fn config(total_iterations: u32, worker_count: u32) -> BenchmarkConfig {
    BenchmarkConfig {
        total_iterations,
        worker_count,
        endpoint_address: String::from("http://[::1]:50052"),
    }
}

/// Drives one worker over a scripted connection outcome and call outcomes,
/// recording every global index it asked to call. Extra outcomes beyond what
/// the worker asks for are ignored.
fn drive_worker(
    assignment: WorkAssignment,
    connect_ok: bool,
    call_outcomes: &[bool],
    issued: &mut Vec<u32>,
) -> WorkerResult {
    let mut worker = Worker::new(assignment);
    let mut action = worker.current_action();
    let mut next_outcome: usize = 0;
    loop {
        match action {
            WorkerAction::Connect => {
                let event = if connect_ok {
                    WorkerEvent::Connected
                } else {
                    WorkerEvent::ConnectFailed
                };
                action = worker.step(event);
            }
            WorkerAction::Call { global_index } => {
                issued.push(global_index);
                let ok = call_outcomes[next_outcome];
                next_outcome += 1;
                let event = if ok {
                    WorkerEvent::CallSucceeded
                } else {
                    WorkerEvent::CallFailed
                };
                action = worker.step(event);
            }
            WorkerAction::Finish => {
                return worker.result();
            }
        }
    }
}

#[test]
fn plan_four_iterations_two_workers() {
    let a = plan_assignments(&config(4, 2)).unwrap();
    assert_eq!(
        a,
        vec![
            WorkAssignment { worker_id: 0, start_index: 0, count: 2 },
            WorkAssignment { worker_id: 1, start_index: 2, count: 2 },
        ]
    );
}

#[test]
fn plan_drops_remainder() {
    let a = plan_assignments(&config(10, 3)).unwrap();
    let sizes: Vec<u32> = a.iter().map(|w| w.count).collect();
    assert_eq!(sizes, vec![3, 3, 3]);
    let total_assigned: u32 = a.iter().map(|w| w.count).sum();
    assert_eq!(total_assigned, 9);
}

#[test]
fn plan_zero_workers_is_config_error() {
    assert_eq!(plan_assignments(&config(4, 0)), Err(ConfigError::NoWorkers));
}

#[test]
fn plan_zero_iterations_is_config_error() {
    assert_eq!(
        plan_assignments(&config(0, 2)),
        Err(ConfigError::InvalidIterationCount)
    );
}

#[test]
fn plan_more_workers_than_iterations_gives_empty_slices() {
    let a = plan_assignments(&config(2, 5)).unwrap();
    assert_eq!(a.len(), 5);
    for w in &a {
        assert_eq!(w.count, 0);
    }
}

#[test]
fn all_success_run_four_iterations_two_workers() {
    let assignments = plan_assignments(&config(4, 2)).unwrap();
    let mut results = Vec::new();
    let mut issued = Vec::new();
    for a in &assignments {
        results.push(drive_worker(*a, true, &[true, true], &mut issued));
    }
    assert_eq!(issued, vec![0, 1, 2, 3]);
    let report = aggregate(&results, 1_000_000);
    assert_eq!(report.total_successful, 4);
    assert_eq!(report.total_attempted, 4);
    assert_eq!(report.elapsed_micros, 1_000_000);
}

#[test]
fn five_iterations_two_workers_never_issue_index_four() {
    let assignments = plan_assignments(&config(5, 2)).unwrap();
    for a in &assignments {
        assert_eq!(a.count, 2);
    }
    let mut results = Vec::new();
    let mut issued = Vec::new();
    for a in &assignments {
        results.push(drive_worker(*a, true, &[true, true], &mut issued));
    }
    assert_eq!(issued, vec![0, 1, 2, 3]);
    assert!(!issued.contains(&4));
    let report = aggregate(&results, 500);
    assert_eq!(report.total_successful, 4);
    assert_eq!(report.total_attempted, 4);
}

#[test]
fn connect_failure_contributes_zero_and_leaves_others_alone() {
    let assignments = plan_assignments(&config(6, 2)).unwrap();
    let mut issued = Vec::new();
    let healthy = drive_worker(assignments[0], true, &[true, true, true], &mut issued);
    let failed = drive_worker(assignments[1], false, &[], &mut issued);
    assert_eq!(failed.successful_count, 0);
    assert_eq!(failed.attempted_count, 0);
    // The failed worker issued no call: only the healthy worker's slice ran.
    assert_eq!(issued, vec![0, 1, 2]);
    let report = aggregate(&vec![healthy, failed], 10);
    assert_eq!(report.total_successful, 3);
    assert_eq!(report.total_attempted, 3);
}

#[test]
fn call_failure_mid_sequence_still_attempts_the_rest() {
    let assignment = WorkAssignment { worker_id: 0, start_index: 0, count: 5 };
    let mut issued = Vec::new();
    let result = drive_worker(assignment, true, &[true, true, false, true, true], &mut issued);
    assert_eq!(issued, vec![0, 1, 2, 3, 4]);
    assert_eq!(result.attempted_count, 5);
    assert_eq!(result.successful_count, 4);
}

#[test]
fn reliable_runs_report_identical_results() {
    let cfg = config(7, 3);
    let mut runs = Vec::new();
    for _ in 0..2 {
        let assignments = plan_assignments(&cfg).unwrap();
        let mut results = Vec::new();
        let mut issued = Vec::new();
        for a in &assignments {
            results.push(drive_worker(*a, true, &[true, true], &mut issued));
        }
        runs.push(results);
    }
    assert_eq!(runs[0], runs[1]);
}

#[test]
fn zero_length_assignment_finishes_without_calls() {
    let assignment = WorkAssignment { worker_id: 3, start_index: 0, count: 0 };
    let mut issued = Vec::new();
    let result = drive_worker(assignment, true, &[], &mut issued);
    assert!(issued.is_empty());
    assert_eq!(
        result,
        WorkerResult { worker_id: 3, successful_count: 0, attempted_count: 0 }
    );
}

#[test]
fn worker_issues_indices_of_its_own_slice() {
    let assignment = WorkAssignment { worker_id: 1, start_index: 10, count: 3 };
    let mut issued = Vec::new();
    drive_worker(assignment, true, &[true, false, true], &mut issued);
    assert_eq!(issued, vec![10, 11, 12]);
}

#[test]
fn aggregate_sums_both_counters() {
    let results = vec![
        WorkerResult { worker_id: 0, successful_count: 2, attempted_count: 3 },
        WorkerResult { worker_id: 1, successful_count: 5, attempted_count: 5 },
    ];
    let report = aggregate(&results, 123_456);
    assert_eq!(report.total_successful, 7);
    assert_eq!(report.total_attempted, 8);
    assert_eq!(report.elapsed_micros, 123_456);
}

#[test]
fn aggregate_of_no_results_is_zero() {
    let report = aggregate(&Vec::new(), 42);
    assert_eq!(report.total_successful, 0);
    assert_eq!(report.total_attempted, 0);
}

#[test]
fn generate_carries_the_global_index() {
    assert_eq!(generate(0).value, 0);
    assert_eq!(generate(12345).value, 12345);
    assert_eq!(generate(u32::MAX).value, u32::MAX as u64);
}

#[test]
fn progress_is_due_every_thousand_completions() {
    assert!(!progress_due(0));
    assert!(!progress_due(999));
    assert!(progress_due(1000));
    assert!(!progress_due(1001));
    assert!(progress_due(2000));
}

#[test]
fn greeter_replies_with_the_constant() {
    let greeter = MyGreeter::default();
    let reply = greeter.say_hello(&generate(7));
    assert_eq!(reply.result, 42);
}
