//! What a run or a slice reports, from what its blocking worker did within
//! the wall-clock quota.
use crate::error::HostError;
use vstd::prelude::*;

verus! {

/// How the outer wait on a blocking worker ended.
pub enum WorkerOutcome<T> {
    /// The worker returned within the quota, with its own result.
    Done(Result<T, HostError>),
    /// The worker panicked or was cancelled; the text is the runtime's message.
    Crashed(String),
    /// The quota ran out first; the worker was abandoned.
    TimedOut,
}

/// What a one-shot worker measured.
pub struct RunMetrics {
    /// The script's result as a 32-bit integer; `None` when it has none.
    pub result: Option<i32>,
    pub cpu_ms: u64,
    pub mem_bytes: usize,
}

/// The answer of a one-shot run.
pub struct RunReport {
    pub exit_code: i32,
    pub cpu_ms: u64,
    pub mem_bytes: usize,
}

/// What a slice worker measured.
pub struct SliceMetrics {
    pub exit_code: Option<i32>,
    pub cpu_ms: u64,
    pub mem_bytes: usize,
}

/// The answer of one slice.
pub struct SliceReport {
    pub exit_code: Option<i32>,
    pub cpu_ms: u64,
    pub mem_bytes: usize,
    /// The slice did not finish within its time and the process goes on.
    pub running: bool,
}

/// The exit code of a one-shot run: the script's integer result, zero when
/// it has none.
pub open spec fn exit_code_of(result: Option<i32>) -> i32 {
    match result {
        Some(v) => v,
        None => 0,
    }
}

/// The answer of a one-shot run from how its worker ended: its metrics on
/// success, its own error, the runtime's message when it crashed, `Timeout`
/// when the quota ran out.
pub fn run_report(outcome: WorkerOutcome<RunMetrics>) -> (r: Result<RunReport, HostError>)
    ensures
        match outcome {
            WorkerOutcome::Done(Ok(m)) => r == Ok::<RunReport, HostError>(
                RunReport { exit_code: exit_code_of(m.result), cpu_ms: m.cpu_ms, mem_bytes: m.mem_bytes },
            ),
            WorkerOutcome::Done(Err(e)) => r == Err::<RunReport, HostError>(e),
            WorkerOutcome::Crashed(msg) => r == Err::<RunReport, HostError>(HostError::Worker(msg)),
            WorkerOutcome::TimedOut => r == Err::<RunReport, HostError>(HostError::Timeout),
        },
{
    match outcome {
        WorkerOutcome::Done(Ok(m)) => {
            let exit_code = match m.result {
                Some(v) => v,
                None => 0,
            };
            Ok(RunReport { exit_code, cpu_ms: m.cpu_ms, mem_bytes: m.mem_bytes })
        },
        WorkerOutcome::Done(Err(e)) => Err(e),
        WorkerOutcome::Crashed(msg) => Err(HostError::Worker(msg)),
        WorkerOutcome::TimedOut => Err(HostError::Timeout),
    }
}

/// The answer of a slice from how its worker ended. A slice that finished
/// reports its metrics with `running` false; one that ran out of `slice_ms`
/// reports `running` true, the whole slice as time and `quota_mem` as memory.
pub fn slice_report(outcome: WorkerOutcome<SliceMetrics>, slice_ms: u64, quota_mem: usize) -> (r:
    Result<SliceReport, HostError>)
    ensures
        match outcome {
            WorkerOutcome::Done(Ok(m)) => r == Ok::<SliceReport, HostError>(
                SliceReport {
                    exit_code: m.exit_code,
                    cpu_ms: m.cpu_ms,
                    mem_bytes: m.mem_bytes,
                    running: false,
                },
            ),
            WorkerOutcome::Done(Err(e)) => r == Err::<SliceReport, HostError>(e),
            WorkerOutcome::Crashed(msg) => r == Err::<SliceReport, HostError>(
                HostError::Worker(msg),
            ),
            WorkerOutcome::TimedOut => r == Ok::<SliceReport, HostError>(
                SliceReport { exit_code: None, cpu_ms: slice_ms, mem_bytes: quota_mem, running: true },
            ),
        },
{
    match outcome {
        WorkerOutcome::Done(Ok(m)) => Ok(
            SliceReport {
                exit_code: m.exit_code,
                cpu_ms: m.cpu_ms,
                mem_bytes: m.mem_bytes,
                running: false,
            },
        ),
        WorkerOutcome::Done(Err(e)) => Err(e),
        WorkerOutcome::Crashed(msg) => Err(HostError::Worker(msg)),
        WorkerOutcome::TimedOut => Ok(
            SliceReport { exit_code: None, cpu_ms: slice_ms, mem_bytes: quota_mem, running: true },
        ),
    }
}

} // verus!
