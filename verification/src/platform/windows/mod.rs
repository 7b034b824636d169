//! Windows side of the platform: directories from the environment, the background task
//! registry, credential names, and the local pipe settings.
use vstd::prelude::*;

use crate::platform::{ProcessError, ProcessOutcome, ProcessUnknownReason, unknown_result};
use crate::update::error::ErrorView;

pub mod paths;
pub mod secrets;
pub mod tasks;

verus! {

/// Limit of the captured output of one process stream.
pub const MAX_PROCESS_OUTPUT_BYTES: usize = 262144;

/// The local pipe: the default name, or one chosen by the caller.
#[derive(Clone, Debug, Default)]
pub struct WindowsLocalIpc {
    pipe_name: Option<String>,
}

impl WindowsLocalIpc {
    pub closed spec fn spec_pipe_name(&self) -> Option<Seq<char>> {
        match self.pipe_name {
            Some(n) => Some(n@),
            None => None,
        }
    }

    /// The pipe with the default name.
    pub fn new() -> (r: Self)
        ensures
            r.spec_pipe_name() is None,
    {
        WindowsLocalIpc { pipe_name: None }
    }

    /// The pipe with the given name.
    pub fn with_pipe_name(name: &str) -> (r: Self)
        ensures
            r.spec_pipe_name() == Some(name@),
    {
        WindowsLocalIpc { pipe_name: Some(String::from_str(name)) }
    }

    /// The chosen name, if any.
    pub fn pipe_name(&self) -> (r: Option<&str>)
        ensures
            match r {
                Some(n) => self.spec_pipe_name() == Some(n@),
                None => self.spec_pipe_name() is None,
            },
    {
        match &self.pipe_name {
            Some(n) => Some(n.as_str()),
            None => None,
        }
    }
}

/// Runs processes without a window, with a cleared environment and captured output.
#[derive(Clone, Copy, Debug, Default)]
pub struct WindowsProcessRunner;

/// The Windows credential manager, holding channel secrets.
#[derive(Clone, Copy, Debug, Default)]
pub struct WindowsCredentialBackend;

/// How waiting for a process ended.
#[derive(Debug)]
pub enum ProcessWaitEvent {
    /// The process finished (or reading its output failed).
    Finished(Result<ProcessOutcome, ProcessError>),
    /// The time limit passed first.
    TimedOut,
    /// Cancellation was requested first (or had been before the start).
    Cancelled,
}

/// Before waiting for a started process: a cancel flag that is already raised gives an
/// unknown result (cancelled) at once; otherwise the wait goes on.
pub fn cancelled_before_wait(cancel_requested: Option<bool>) -> (r: Option<ProcessOutcome>)
    ensures
        cancel_requested == Some(true) ==> r == Some(
            ProcessOutcome::UnknownResult { reason: ProcessUnknownReason::Cancelled },
        ),
        cancel_requested != Some(true) ==> r is None,
{
    match cancel_requested {
        Some(true) => Some(unknown_result(ProcessUnknownReason::Cancelled)),
        _ => None,
    }
}

/// The result of a process run from the way the wait ended: a timeout or a cancellation
/// leaves the result unknown.
pub fn process_result(event: ProcessWaitEvent) -> (r: Result<ProcessOutcome, ProcessError>)
    ensures
        match event {
            ProcessWaitEvent::Finished(result) => r == result,
            ProcessWaitEvent::TimedOut => r == Ok::<ProcessOutcome, ProcessError>(
                ProcessOutcome::UnknownResult { reason: ProcessUnknownReason::Timeout },
            ),
            ProcessWaitEvent::Cancelled => r == Ok::<ProcessOutcome, ProcessError>(
                ProcessOutcome::UnknownResult { reason: ProcessUnknownReason::Cancelled },
            ),
        },
{
    match event {
        ProcessWaitEvent::Finished(result) => result,
        ProcessWaitEvent::TimedOut => Ok(unknown_result(ProcessUnknownReason::Timeout)),
        ProcessWaitEvent::Cancelled => Ok(unknown_result(ProcessUnknownReason::Cancelled)),
    }
}

/// A process is started only with a program path.
pub fn check_program(program: &str) -> (r: Result<(), ProcessError>)
    ensures
        program@.len() > 0 ==> r is Ok,
        program@.len() == 0 ==> (r matches Err(e) && e@ == (ErrorView {
            code: "process_program_empty"@,
            message: "进程程序路径不能为空"@,
        })),
{
    if program.is_empty() {
        return Err(ProcessError::new("process_program_empty", "进程程序路径不能为空"));
    }
    Ok(())
}

/// The error when the process could not be started.
pub fn spawn_error(program: &str, detail: &str) -> (r: ProcessError)
    ensures
        r@ == (ErrorView {
            code: "process_spawn_failed"@,
            message: "无法启动进程 "@ + program@ + "："@ + detail@,
        }),
{
    let mut message = String::from_str("无法启动进程 ");
    message.append(program);
    message.append("：");
    message.append(detail);
    ProcessError::new("process_spawn_failed", message.as_str())
}

} // verus!
