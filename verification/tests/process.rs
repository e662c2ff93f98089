use feishu2acp::adapters::process::{process_output, ProcessRun, SystemProcessRunner};
use feishu2acp::adapters::shell::SystemShellExecutor;
use feishu2acp::config::ShellConfig;
use feishu2acp::error::BridgeError;
use feishu2acp::ports::{ProcessOutput, ProcessRequest};

fn run_stub(request: ProcessRequest) -> ProcessOutput {
    assert_eq!(request.program, "powershell");
    assert_eq!(request.args, vec!["-NoProfile", "-Command", "pwd"]);
    assert_eq!(request.cwd, Some("/repo".to_string()));
    assert_eq!(request.timeout_secs, 12);
    ProcessOutput { exit_code: 0, stdout: "/repo".to_string(), stderr: String::new() }
}

#[test]
fn shell_executor_delegates_to_process_runner() {
    let executor = SystemShellExecutor::new(ShellConfig {
        program: "powershell".to_string(),
        args: vec!["-NoProfile".to_string(), "-Command".to_string()],
        timeout_secs: 12,
    });

    let ran = run_stub(executor.execute("/repo", "pwd"));
    let output = executor.output("/repo", "pwd", ran);
    assert_eq!(output.stdout, "/repo");
    assert_eq!(output.command, "pwd");
    assert_eq!(output.cwd, "/repo");
}

fn request() -> ProcessRequest {
    ProcessRequest {
        program: "ls".to_string(),
        args: vec!["-l".to_string(), "a b".to_string()],
        cwd: None,
        timeout_secs: 1,
    }
}

#[test]
fn processes_that_end_have_an_output() {
    let run = ProcessRun::Ended { code: Some(3), stdout: b"out\xff".to_vec(), stderr: "错".as_bytes().to_vec() };
    let output = SystemProcessRunner.run(&request(), run).unwrap();
    assert_eq!(output.exit_code, 3);
    assert_eq!(output.stdout, String::from_utf8_lossy(b"out\xff"));
    assert_eq!(output.stderr, "错");
    assert_eq!(process_output(None, "a".to_string(), "b".to_string()).exit_code, -1);
}

#[test]
fn processes_that_do_not_end_are_told() {
    match SystemProcessRunner.run(&request(), ProcessRun::TimedOut).unwrap_err() {
        BridgeError::ProcessTimedOut { command } => assert_eq!(command, "ls -l a b"),
        other => panic!("another failure: {other:?}"),
    }
    let run = ProcessRun::NotStarted("no such file".to_string());
    match SystemProcessRunner.run(&request(), run).unwrap_err() {
        BridgeError::Shell(message) => {
            assert_eq!(message, "failed to spawn `ls -l a b`: no such file");
        }
        other => panic!("another failure: {other:?}"),
    }
}
