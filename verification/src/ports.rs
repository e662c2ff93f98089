//! What is asked of the processes that the bridge runs, and what they answer.
use vstd::prelude::*;

use crate::text::chars::{copy_opt_text, copy_texts, opt_text, texts};
use crate::text::lines::{join, join_texts};

verus! {

/// A process to run. One that takes longer than it may is ended.
#[derive(Debug, PartialEq, Eq)]
pub struct ProcessRequest {
    pub program: String,
    pub args: Vec<String>,
    pub cwd: Option<String>,
    pub timeout_secs: u64,
}

pub struct ProcessRequestView {
    pub program: Seq<char>,
    pub args: Seq<Seq<char>>,
    pub cwd: Option<Seq<char>>,
    pub timeout_secs: u64,
}

impl View for ProcessRequest {
    type V = ProcessRequestView;

    open spec fn view(&self) -> ProcessRequestView {
        ProcessRequestView {
            program: self.program@,
            args: texts(self.args@),
            cwd: opt_text(self.cwd),
            timeout_secs: self.timeout_secs,
        }
    }
}

impl Clone for ProcessRequest {
    fn clone(&self) -> (out: Self)
        ensures
            out@ == self@,
    {
        ProcessRequest {
            program: self.program.clone(),
            args: copy_texts(&self.args),
            cwd: copy_opt_text(&self.cwd),
            timeout_secs: self.timeout_secs,
        }
    }
}

impl ProcessRequestView {
    /// The process as a line: the program and its arguments.
    pub open spec fn command_line(self) -> Seq<char> {
        self.program + " "@ + join(self.args, " "@)
    }
}

impl ProcessRequest {
    /// The process as a line: the program and its arguments.
    pub fn command_display(&self) -> (out: String)
        ensures
            out@ == self@.command_line(),
    {
        let mut out = self.program.clone();
        out.append(" ");
        out.append(join_texts(&self.args, " ").as_str());
        out
    }
}

/// What a process came to.
#[derive(Debug, PartialEq, Eq)]
pub struct ProcessOutput {
    pub exit_code: i32,
    pub stdout: String,
    pub stderr: String,
}

impl Clone for ProcessOutput {
    fn clone(&self) -> (out: Self)
        ensures
            out == *self,
    {
        ProcessOutput {
            exit_code: self.exit_code,
            stdout: self.stdout.clone(),
            stderr: self.stderr.clone(),
        }
    }
}

} // verus!
