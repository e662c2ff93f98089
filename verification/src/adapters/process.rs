//! Processes of the system.
use vstd::prelude::*;

use crate::error::{BridgeError, BridgeErrorView};
use crate::ports::{ProcessOutput, ProcessRequest, ProcessRequestView};
use crate::text::utf8::{nearest_text, text_from_utf8_lossy};

verus! {

/// What became of a process.
pub enum ProcessRun {
    /// It took too long and was ended.
    TimedOut,
    /// It could not be started, for the given reason.
    NotStarted(String),
    /// It ended, with a code unless something else ended it.
    Ended { code: Option<i32>, stdout: Vec<u8>, stderr: Vec<u8> },
}

/// What a process came to, where it came to anything.
pub struct ProcessOutputView {
    pub exit_code: i32,
    pub stdout: Seq<char>,
    pub stderr: Seq<char>,
}

/// The code of a process; one that has none counts as failed.
pub open spec fn exit_code(code: Option<i32>) -> i32 {
    match code {
        Some(code) => code,
        None => -1i32,
    }
}

/// What a process came to, or why it came to nothing.
pub open spec fn ran(request: ProcessRequestView, run: ProcessRun) -> Result<
    ProcessOutputView,
    BridgeErrorView,
> {
    match run {
        ProcessRun::TimedOut => Err(
            BridgeErrorView::ProcessTimedOut { command: request.command_line() },
        ),
        ProcessRun::NotStarted(fault) => Err(
            BridgeErrorView::Shell(
                "failed to spawn `"@ + request.command_line() + "`: "@ + fault@,
            ),
        ),
        ProcessRun::Ended { code, stdout, stderr } => Ok(
            ProcessOutputView {
                exit_code: exit_code(code),
                stdout: nearest_text(stdout@),
                stderr: nearest_text(stderr@),
            },
        ),
    }
}

/// The view of what a process came to.
pub open spec fn run_outcome(result: Result<ProcessOutput, BridgeError>) -> Result<
    ProcessOutputView,
    BridgeErrorView,
> {
    match result {
        Ok(output) => Ok(
            ProcessOutputView {
                exit_code: output.exit_code,
                stdout: output.stdout@,
                stderr: output.stderr@,
            },
        ),
        Err(error) => Err(error@),
    }
}

/// The output of a process that ended.
pub fn process_output(code: Option<i32>, stdout: String, stderr: String) -> (out: ProcessOutput)
    ensures
        out == (ProcessOutput { exit_code: exit_code(code), stdout, stderr }),
{
    let exit_code: i32 = match code {
        Some(code) => code,
        None => -1,
    };
    ProcessOutput { exit_code, stdout, stderr }
}

/// The system as what runs processes.
#[derive(Clone, Copy, Debug)]
pub struct SystemProcessRunner;

impl SystemProcessRunner {
    /// What a process came to, or why it came to nothing.
    pub fn run(&self, request: &ProcessRequest, run: ProcessRun) -> (out: Result<
        ProcessOutput,
        BridgeError,
    >)
        ensures
            run_outcome(out) == ran(request@, run),
    {
        match run {
            ProcessRun::TimedOut => Err(
                BridgeError::ProcessTimedOut { command: request.command_display() },
            ),
            ProcessRun::NotStarted(fault) => {
                let mut message = "failed to spawn `".to_owned();
                message.append(request.command_display().as_str());
                message.append("`: ");
                message.append(fault.as_str());
                Err(BridgeError::Shell(message))
            },
            ProcessRun::Ended { code, stdout, stderr } => Ok(
                process_output(
                    code,
                    text_from_utf8_lossy(stdout.as_slice()),
                    text_from_utf8_lossy(stderr.as_slice()),
                ),
            ),
        }
    }
}

} // verus!
