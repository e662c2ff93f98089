//! Shell commands.
use vstd::prelude::*;

use crate::config::ShellConfig;
use crate::domain::ShellOutput;
use crate::ports::{ProcessOutput, ProcessRequest, ProcessRequestView};
use crate::text::chars::{copy_texts, texts};

verus! {

/// The way to the shell.
#[derive(Debug)]
pub struct SystemShellExecutor {
    pub config: ShellConfig,
}

impl SystemShellExecutor {
    pub fn new(config: ShellConfig) -> (out: Self)
        ensures
            out.config == config,
    {
        SystemShellExecutor { config }
    }

    /// The process that runs a command in a directory.
    pub fn execute(&self, cwd: &str, command: &str) -> (out: ProcessRequest)
        ensures
            out@ == (ProcessRequestView {
                program: self.config.program@,
                args: texts(self.config.args@).push(command@),
                cwd: Some(cwd@),
                timeout_secs: self.config.timeout_secs,
            }),
    {
        let mut args = copy_texts(&self.config.args);
        let ghost before = texts(args@);
        args.push(command.to_owned());
        assert(texts(args@) =~= before.push(command@));
        ProcessRequest {
            program: self.config.program.clone(),
            args,
            cwd: Some(cwd.to_owned()),
            timeout_secs: self.config.timeout_secs,
        }
    }

    /// What a command came to, by what its process did.
    pub fn output(&self, cwd: &str, command: &str, output: ProcessOutput) -> (out: ShellOutput)
        ensures
            out.command@ == command@,
            out.cwd@ == cwd@,
            out.exit_code == output.exit_code,
            out.stdout == output.stdout,
            out.stderr == output.stderr,
    {
        ShellOutput {
            command: command.to_owned(),
            cwd: cwd.to_owned(),
            exit_code: output.exit_code,
            stdout: output.stdout,
            stderr: output.stderr,
        }
    }
}

} // verus!
