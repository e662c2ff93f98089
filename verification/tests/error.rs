use feishu2acp::domain::{BinarySource, MessageBlock, PermissionMode};
use feishu2acp::error::{first_non_empty, BridgeError};

fn both(error: BridgeError) -> (String, String) {
    (error.user_message(), error.log_message())
}

#[test]
fn every_error_has_its_words() {
    let text = || "x".to_string();
    let cases = [
        (BridgeError::Config(text()), "x", "configuration error: x"),
        (BridgeError::InputRejected(text()), "x", "input rejected: x"),
        (BridgeError::CommandParse(text()), "命令解析失败：x", "command parse error: x"),
        (BridgeError::WorkspaceNotFound(text()), "目录不存在：x", "workspace does not exist: x"),
        (BridgeError::NotDirectory(text()), "目标不是目录：x", "path is not a directory: x"),
        (BridgeError::UnsupportedMessage, "当前消息类型暂不支持。", "unsupported message type"),
        (BridgeError::ProcessTimedOut { command: text() }, "命令执行超时：x", "process timed out: x"),
        (
            BridgeError::InvalidOutput { context: text(), message: "y".to_string(), raw_output: text() },
            "外部输出无法解析（x）：y",
            "invalid process output for x: y",
        ),
        (BridgeError::Channel(text()), "x", "channel error: x"),
        (BridgeError::Acpx(text()), "x", "acpx error: x"),
        (BridgeError::Shell(text()), "x", "shell error: x"),
        (BridgeError::Persistence(text()), "x", "persistence error: x"),
    ];
    for (error, user, log) in cases {
        assert_eq!(both(error), (user.to_string(), log.to_string()));
    }
}

#[test]
fn failed_processes_say_what_they_printed() {
    let failed = |stdout: &str, stderr: &str| BridgeError::ProcessFailed {
        command: "ls".to_string(),
        exit_code: -2,
        stdout: stdout.to_string(),
        stderr: stderr.to_string(),
    };
    assert_eq!(failed("out", " err\n").user_message(), "命令失败（-2）：ls\nerr");
    assert_eq!(failed("out ", " ").user_message(), "命令失败（-2）：ls\nout");
    assert_eq!(failed("", "").user_message(), "命令失败（-2）：ls\n外部命令执行失败");
    assert_eq!(failed("", "").log_message(), "process failed: ls (exit code -2)");
    assert_eq!(first_non_empty(" ", "b"), Some("b"));
    assert_eq!(first_non_empty("\t", ""), None);
}

#[test]
fn permission_modes_are_named() {
    for mode in [PermissionMode::ApproveAll, PermissionMode::ApproveReads, PermissionMode::DenyAll] {
        assert_eq!(PermissionMode::parse(mode.as_str()), Some(mode));
        assert_eq!(mode.as_acpx_flag(), format!("--{}", mode.as_str()));
    }
    assert_eq!(PermissionMode::parse(" DENY-all\n"), Some(PermissionMode::DenyAll));
    assert_eq!(PermissionMode::parse("deny"), None);
}

#[test]
fn blocks_say_what_they_are() {
    let text = MessageBlock::text("x");
    let image = MessageBlock::Image {
        mime_type: "image/png".to_string(),
        source: BinarySource::Bytes(vec![]),
        alt: Some("x".to_string()),
    };
    assert_eq!(text.as_text(), Some("x"));
    assert_eq!(image.as_text(), None);
    assert_eq!(text.kind(), "text");
    assert_eq!(image.kind(), "image");
    assert_eq!(image.clone(), image);
}
