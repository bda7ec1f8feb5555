use helios_host::error::HostError;
use helios_host::quota::{run_report, slice_report, RunMetrics, SliceMetrics, WorkerOutcome};

#[test]
fn one_shot_exit_code() {
    let r = run_report(WorkerOutcome::Done(Ok(RunMetrics {
        result: Some(3),
        cpu_ms: 0,
        mem_bytes: 4096,
    })))
    .unwrap();
    assert_eq!(r.exit_code, 3);
    assert!(r.mem_bytes > 0);
    assert_eq!(r.cpu_ms, 0);
}

#[test]
fn one_shot_non_integer_result_exits_zero() {
    let r = run_report(WorkerOutcome::Done(Ok(RunMetrics {
        result: None,
        cpu_ms: 12,
        mem_bytes: 10,
    })))
    .unwrap();
    assert_eq!(r.exit_code, 0);
    assert_eq!(r.cpu_ms, 12);
    assert_eq!(r.mem_bytes, 10);
}

#[test]
fn one_shot_timeout() {
    let e = run_report(WorkerOutcome::TimedOut).err().unwrap();
    assert_eq!(e, HostError::Timeout);
    assert_eq!(e.message(), "timeout");
}

#[test]
fn one_shot_compile_error_passes_through() {
    let e = run_report(WorkerOutcome::Done(Err(HostError::CompileFailed))).err().unwrap();
    assert_eq!(e.message(), "compile");
}

#[test]
fn one_shot_worker_crash() {
    let e = run_report(WorkerOutcome::Crashed("task panicked".to_string())).err().unwrap();
    assert_eq!(e, HostError::Worker("task panicked".to_string()));
    assert_eq!(e.message(), "task panicked");
}

#[test]
fn slice_timeout_reports_running() {
    let r = slice_report(WorkerOutcome::TimedOut, 50, 10_000_000).unwrap();
    assert!(r.running);
    assert_eq!(r.cpu_ms, 50);
    assert_eq!(r.mem_bytes, 10_000_000);
    assert_eq!(r.exit_code, None);
}

#[test]
fn slice_completed_reports_not_running() {
    let r = slice_report(
        WorkerOutcome::Done(Ok(SliceMetrics { exit_code: None, cpu_ms: 7, mem_bytes: 2048 })),
        50,
        10_000_000,
    )
    .unwrap();
    assert!(!r.running);
    assert_eq!(r.cpu_ms, 7);
    assert_eq!(r.mem_bytes, 2048);
    assert_eq!(r.exit_code, None);
}

#[test]
fn slice_no_code_error() {
    let e = slice_report(WorkerOutcome::Done(Err(HostError::NoCode)), 50, 1).err().unwrap();
    assert_eq!(e.message(), "no code");
}
