//! What can go wrong, and what the user is told of it.
use vstd::prelude::*;

use crate::text::lines::join_two;
use crate::text::number::{signed_decimal, signed_decimal_text};
use crate::text::trim::{is_blank, trim, trim_text};

verus! {

#[derive(Debug)]
pub enum BridgeError {
    Config(String),
    InputRejected(String),
    CommandParse(String),
    WorkspaceNotFound(String),
    NotDirectory(String),
    UnsupportedMessage,
    ProcessFailed { command: String, exit_code: i32, stdout: String, stderr: String },
    ProcessTimedOut { command: String },
    InvalidOutput { context: String, message: String, raw_output: String },
    Channel(String),
    Acpx(String),
    Shell(String),
    Persistence(String),
}

/// A [`BridgeError`] with its texts as characters.
pub enum BridgeErrorView {
    Config(Seq<char>),
    InputRejected(Seq<char>),
    CommandParse(Seq<char>),
    WorkspaceNotFound(Seq<char>),
    NotDirectory(Seq<char>),
    UnsupportedMessage,
    ProcessFailed { command: Seq<char>, exit_code: i32, stdout: Seq<char>, stderr: Seq<char> },
    ProcessTimedOut { command: Seq<char> },
    InvalidOutput { context: Seq<char>, message: Seq<char>, raw_output: Seq<char> },
    Channel(Seq<char>),
    Acpx(Seq<char>),
    Shell(Seq<char>),
    Persistence(Seq<char>),
}

impl View for BridgeError {
    type V = BridgeErrorView;

    open spec fn view(&self) -> BridgeErrorView {
        match self {
            BridgeError::Config(message) => BridgeErrorView::Config(message@),
            BridgeError::InputRejected(message) => BridgeErrorView::InputRejected(message@),
            BridgeError::CommandParse(message) => BridgeErrorView::CommandParse(message@),
            BridgeError::WorkspaceNotFound(path) => BridgeErrorView::WorkspaceNotFound(path@),
            BridgeError::NotDirectory(path) => BridgeErrorView::NotDirectory(path@),
            BridgeError::UnsupportedMessage => BridgeErrorView::UnsupportedMessage,
            BridgeError::ProcessFailed { command, exit_code, stdout, stderr } =>
                BridgeErrorView::ProcessFailed {
                    command: command@,
                    exit_code: *exit_code,
                    stdout: stdout@,
                    stderr: stderr@,
                },
            BridgeError::ProcessTimedOut { command } => BridgeErrorView::ProcessTimedOut {
                command: command@,
            },
            BridgeError::InvalidOutput { context, message, raw_output } =>
                BridgeErrorView::InvalidOutput {
                    context: context@,
                    message: message@,
                    raw_output: raw_output@,
                },
            BridgeError::Channel(message) => BridgeErrorView::Channel(message@),
            BridgeError::Acpx(message) => BridgeErrorView::Acpx(message@),
            BridgeError::Shell(message) => BridgeErrorView::Shell(message@),
            BridgeError::Persistence(message) => BridgeErrorView::Persistence(message@),
        }
    }
}

/// The view of an outcome: the success as it is, the error by its texts.
pub open spec fn outcome<T>(result: Result<T, BridgeError>) -> Result<T, BridgeErrorView> {
    match result {
        Ok(value) => Ok(value),
        Err(error) => Err(error@),
    }
}

/// The first of two outputs that holds more than white space.
pub open spec fn first_non_blank(primary: Seq<char>, secondary: Seq<char>) -> Option<Seq<char>> {
    if trim(primary).len() > 0 {
        Some(primary)
    } else if trim(secondary).len() > 0 {
        Some(secondary)
    } else {
        None
    }
}

/// What a failed process has to say for itself: its error output, else its
/// output, else a stock phrase.
pub open spec fn failure_detail(stdout: Seq<char>, stderr: Seq<char>) -> Seq<char> {
    match first_non_blank(stderr, stdout) {
        Some(said) => trim(said),
        None => "外部命令执行失败"@,
    }
}

impl BridgeErrorView {
    /// What the user reads when this error ends their request.
    pub open spec fn user_text(self) -> Seq<char> {
        match self {
            BridgeErrorView::InputRejected(message) => message,
            BridgeErrorView::CommandParse(message) => "命令解析失败："@ + message,
            BridgeErrorView::WorkspaceNotFound(path) => "目录不存在："@ + path,
            BridgeErrorView::NotDirectory(path) => "目标不是目录："@ + path,
            BridgeErrorView::UnsupportedMessage => "当前消息类型暂不支持。"@,
            BridgeErrorView::ProcessFailed { command, exit_code, stdout, stderr } => "命令失败（"@
                + signed_decimal(exit_code as int) + "）："@ + command + "\n"@ + failure_detail(
                stdout,
                stderr,
            ),
            BridgeErrorView::ProcessTimedOut { command } => "命令执行超时："@ + command,
            BridgeErrorView::InvalidOutput { context, message, .. } => "外部输出无法解析（"@
                + context + "）："@ + message,
            BridgeErrorView::Config(message) => message,
            BridgeErrorView::Channel(message) => message,
            BridgeErrorView::Acpx(message) => message,
            BridgeErrorView::Shell(message) => message,
            BridgeErrorView::Persistence(message) => message,
        }
    }

    /// The error as a log line names it.
    pub open spec fn log_text(self) -> Seq<char> {
        match self {
            BridgeErrorView::Config(message) => "configuration error: "@ + message,
            BridgeErrorView::InputRejected(message) => "input rejected: "@ + message,
            BridgeErrorView::CommandParse(message) => "command parse error: "@ + message,
            BridgeErrorView::WorkspaceNotFound(path) => "workspace does not exist: "@ + path,
            BridgeErrorView::NotDirectory(path) => "path is not a directory: "@ + path,
            BridgeErrorView::UnsupportedMessage => "unsupported message type"@,
            BridgeErrorView::ProcessFailed { command, exit_code, .. } => "process failed: "@
                + command + " (exit code "@ + signed_decimal(exit_code as int) + ")"@,
            BridgeErrorView::ProcessTimedOut { command } => "process timed out: "@ + command,
            BridgeErrorView::InvalidOutput { context, message, .. } =>
                "invalid process output for "@ + context + ": "@ + message,
            BridgeErrorView::Channel(message) => "channel error: "@ + message,
            BridgeErrorView::Acpx(message) => "acpx error: "@ + message,
            BridgeErrorView::Shell(message) => "shell error: "@ + message,
            BridgeErrorView::Persistence(message) => "persistence error: "@ + message,
        }
    }
}

impl BridgeError {
    /// What the user reads when this error ends their request.
    pub fn user_message(&self) -> (out: String)
        ensures
            out@ == self@.user_text(),
    {
        match self {
            BridgeError::InputRejected(message) => message.clone(),
            BridgeError::CommandParse(message) => join_two("命令解析失败：", message.as_str()),
            BridgeError::WorkspaceNotFound(path) => join_two("目录不存在：", path.as_str()),
            BridgeError::NotDirectory(path) => join_two("目标不是目录：", path.as_str()),
            BridgeError::UnsupportedMessage => "当前消息类型暂不支持。".to_owned(),
            BridgeError::ProcessFailed { command, exit_code, stdout, stderr } => {
                let detail = match first_non_empty(stderr.as_str(), stdout.as_str()) {
                    Some(said) => trim_text(said),
                    None => "外部命令执行失败".to_owned(),
                };
                let code = signed_decimal_text(*exit_code as i64);
                let mut out = "命令失败（".to_owned();
                out.append(code.as_str());
                out.append("）：");
                out.append(command.as_str());
                out.append("\n");
                out.append(detail.as_str());
                out
            },
            BridgeError::ProcessTimedOut { command } => join_two(
                "命令执行超时：",
                command.as_str(),
            ),
            BridgeError::InvalidOutput { context, message, raw_output: _ } => {
                let mut out = "外部输出无法解析（".to_owned();
                out.append(context.as_str());
                out.append("）：");
                out.append(message.as_str());
                out
            },
            BridgeError::Config(message) => message.clone(),
            BridgeError::Channel(message) => message.clone(),
            BridgeError::Acpx(message) => message.clone(),
            BridgeError::Shell(message) => message.clone(),
            BridgeError::Persistence(message) => message.clone(),
        }
    }

    /// The error as a log line names it.
    pub fn log_message(&self) -> (out: String)
        ensures
            out@ == self@.log_text(),
    {
        match self {
            BridgeError::Config(message) => join_two("configuration error: ", message.as_str()),
            BridgeError::InputRejected(message) => join_two("input rejected: ", message.as_str()),
            BridgeError::CommandParse(message) => join_two(
                "command parse error: ",
                message.as_str(),
            ),
            BridgeError::WorkspaceNotFound(path) => join_two(
                "workspace does not exist: ",
                path.as_str(),
            ),
            BridgeError::NotDirectory(path) => join_two("path is not a directory: ", path.as_str()),
            BridgeError::UnsupportedMessage => "unsupported message type".to_owned(),
            BridgeError::ProcessFailed { command, exit_code, stdout: _, stderr: _ } => {
                let code = signed_decimal_text(*exit_code as i64);
                let mut out = "process failed: ".to_owned();
                out.append(command.as_str());
                out.append(" (exit code ");
                out.append(code.as_str());
                out.append(")");
                out
            },
            BridgeError::ProcessTimedOut { command } => join_two(
                "process timed out: ",
                command.as_str(),
            ),
            BridgeError::InvalidOutput { context, message, raw_output: _ } => {
                let mut out = "invalid process output for ".to_owned();
                out.append(context.as_str());
                out.append(": ");
                out.append(message.as_str());
                out
            },
            BridgeError::Channel(message) => join_two("channel error: ", message.as_str()),
            BridgeError::Acpx(message) => join_two("acpx error: ", message.as_str()),
            BridgeError::Shell(message) => join_two("shell error: ", message.as_str()),
            BridgeError::Persistence(message) => join_two("persistence error: ", message.as_str()),
        }
    }
}

/// The first of two outputs that holds more than white space.
pub fn first_non_empty<'a>(primary: &'a str, secondary: &'a str) -> (out: Option<&'a str>)
    ensures
        match out {
            Some(said) => first_non_blank(primary@, secondary@) == Some(said@),
            None => first_non_blank(primary@, secondary@) is None,
        },
{
    if !is_blank(primary) {
        return Some(primary);
    }
    if !is_blank(secondary) {
        return Some(secondary);
    }
    None
}

} // verus!
