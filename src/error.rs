use vstd::prelude::*;

verus! {

/// Every failure that the host kernel reports to the shell.
#[derive(Debug, PartialEq, Eq)]
pub enum HostError {
    /// The application data directory could not be resolved.
    NoDataDir,
    /// The local relational store failed; the text is the store's own message.
    Persistence(String),
    /// A stored blob is not valid JSON.
    BadStoredJson,
    /// The guest source could not be turned into an engine string.
    BadCode,
    /// The guest source did not compile.
    CompileFailed,
    /// The guest script threw or was terminated while running.
    RunFailed,
    /// The run did not finish within its wall-clock quota.
    Timeout,
    /// The sending NIC id is not registered.
    UnknownNic,
    /// A slice was asked for a process with no isolate and no source.
    NoCode,
    /// The waiter of a syscall response is gone.
    SendFailed,
    /// A syscall's response channel closed before any response came.
    SyscallFailed,
    /// The blocking worker itself failed; the text is the runtime's message.
    Worker(String),
}

/// The human-readable text under which an error reaches the shell.
pub open spec fn error_text(e: HostError) -> Seq<char> {
    match e {
        HostError::NoDataDir => "no app dir"@,
        HostError::Persistence(m) => m@,
        HostError::BadStoredJson => "bad stored json"@,
        HostError::BadCode => "bad code"@,
        HostError::CompileFailed => "compile"@,
        HostError::RunFailed => "run"@,
        HostError::Timeout => "timeout"@,
        HostError::UnknownNic => "unknown nic"@,
        HostError::NoCode => "no code"@,
        HostError::SendFailed => "send failed"@,
        HostError::SyscallFailed => "syscall failed"@,
        HostError::Worker(m) => m@,
    }
}

impl HostError {
    /// The message for the shell.
    pub fn message(&self) -> (r: String)
        ensures
            r@ == error_text(*self),
    {
        match self {
            HostError::NoDataDir => "no app dir".to_string(),
            HostError::Persistence(m) => m.clone(),
            HostError::BadStoredJson => "bad stored json".to_string(),
            HostError::BadCode => "bad code".to_string(),
            HostError::CompileFailed => "compile".to_string(),
            HostError::RunFailed => "run".to_string(),
            HostError::Timeout => "timeout".to_string(),
            HostError::UnknownNic => "unknown nic".to_string(),
            HostError::NoCode => "no code".to_string(),
            HostError::SendFailed => "send failed".to_string(),
            HostError::SyscallFailed => "syscall failed".to_string(),
            HostError::Worker(m) => m.clone(),
        }
    }
}

} // verus!
