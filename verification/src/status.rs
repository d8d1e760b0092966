//! The values that a sandboxed run produces.

use vstd::prelude::*;

verus! {

/// How a sandboxed process ended: with an exit code, or killed by a signal.
#[derive(Clone, Copy, Debug, PartialEq, Eq, Structural)]
pub enum ExitStatus {
    /// The process returned this exit code.
    Exited(i32),
    /// The process was ended by this signal.
    Signaled(i32),
}

impl ExitStatus {
    /// A status is a success exactly when the process exited with code zero.
    pub open spec fn is_success(self) -> bool {
        self == ExitStatus::Exited(0)
    }

    /// Tells whether the process exited with code zero.
    pub fn success(&self) -> (ok: bool)
        ensures
            ok == self.is_success(),
    {
        match self {
            ExitStatus::Exited(code) => *code == 0,
            ExitStatus::Signaled(_) => false,
        }
    }
}

/// Why a run produced no result at all.
#[derive(Clone, Copy, Debug, PartialEq, Eq, Structural)]
pub enum ExecError {
    /// The isolated context could not be created or started.
    SandboxSetup,
    /// The run could not be driven to an end after it had started.
    IoDelivery,
}

/// The bytes appended to the output of a run that was cut off: a line feed
/// followed by the ASCII text `timeout triggered!`.
pub open spec fn timeout_marker() -> Seq<u8> {
    seq![
        10u8, 116u8, 105u8, 109u8, 101u8, 111u8, 117u8, 116u8, 32u8, 116u8, 114u8, 105u8, 103u8,
        103u8, 101u8, 114u8, 101u8, 100u8, 33u8,
    ]
}

/// The mathematical value of an [`ExecutionResult`].
pub struct ExecutionResultView {
    pub exit_status: ExitStatus,
    pub output: Seq<u8>,
    pub timed_out: bool,
}

impl ExecutionResultView {
    /// A result counts as a success only if the run ended in time and with a
    /// successful status: a run that was cut off is a failure whatever status
    /// the killed process reported.
    pub open spec fn is_success(self) -> bool {
        !self.timed_out && self.exit_status.is_success()
    }
}

/// What one sandboxed run gave: the exit status, every byte the process wrote
/// to its output streams, and whether the run had to be cut off.
#[derive(Debug)]
pub struct ExecutionResult {
    pub exit_status: ExitStatus,
    pub output: Vec<u8>,
    pub timed_out: bool,
}

impl View for ExecutionResult {
    type V = ExecutionResultView;

    open spec fn view(&self) -> ExecutionResultView {
        ExecutionResultView {
            exit_status: self.exit_status,
            output: self.output@,
            timed_out: self.timed_out,
        }
    }
}

impl Clone for ExecutionResult {
    fn clone(&self) -> (copy: Self)
        ensures
            copy@ == self@,
    {
        ExecutionResult {
            exit_status: self.exit_status,
            output: self.output.clone(),
            timed_out: self.timed_out,
        }
    }
}

impl ExecutionResult {
    /// Tells whether the run ended in time with a successful status.
    pub fn success(&self) -> (ok: bool)
        ensures
            ok == self@.is_success(),
    {
        !self.timed_out && self.exit_status.success()
    }
}

/// Appends the timeout marker to `output`, leaving the bytes already there
/// untouched.
pub fn append_timeout_marker(output: &mut Vec<u8>)
    ensures
        final(output)@ == old(output)@ + timeout_marker(),
{
    let marker: Vec<u8> = vec![
        10u8, 116u8, 105u8, 109u8, 101u8, 111u8, 117u8, 116u8, 32u8, 116u8, 114u8, 105u8, 103u8,
        103u8, 101u8, 114u8, 101u8, 100u8, 33u8,
    ];
    assert(marker@ =~= timeout_marker());
    output.extend_from_slice(marker.as_slice());
    assert(output@ =~= old(output)@ + timeout_marker());
}

} // verus!
