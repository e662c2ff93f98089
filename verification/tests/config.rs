use feishu2acp::config::{is_same_variable, AppConfig, Environment};
use feishu2acp::domain::PermissionMode;
use feishu2acp::error::BridgeError;
use feishu2acp::platform::{default_shell_args, default_shell_program, Platform, System};

fn environment(vars: &[(&str, &str)]) -> Environment {
    Environment {
        system: System::current(),
        current_dir: Ok("/work".to_string()),
        vars: vars.iter().map(|(name, value)| (name.to_string(), value.to_string())).collect(),
    }
}

fn failure(vars: &[(&str, &str)]) -> String {
    match AppConfig::from_env(&environment(vars)).unwrap_err() {
        BridgeError::Config(message) => message,
        other => panic!("another failure: {other:?}"),
    }
}

#[test]
fn default_shell_args_match_platform() {
    if std::path::MAIN_SEPARATOR == '\\' {
        assert_eq!(default_shell_args(), vec!["-NoProfile", "-Command"]);
        assert_eq!(default_shell_program(), "powershell");
    } else {
        assert_eq!(default_shell_args(), vec!["-lc"]);
        assert_eq!(default_shell_program(), "sh");
    }
}

#[test]
fn config_parses_basic_env() {
    let config = AppConfig::from_env(&environment(&[
        ("FEISHU_APP_ID", "app"),
        ("FEISHU_APP_SECRET", "secret"),
        ("ACPX_PROGRAM_ARGS", r#"["acpx@latest"]"#),
    ]))
    .unwrap();
    assert_eq!(config.feishu.app_id, "app");
    assert_eq!(config.acpx.args, vec!["acpx@latest"]);
    assert_eq!(config.command_prefix, "/");
    assert_eq!(config.default_agent, "codex");
}

#[test]
fn defaults_need_only_the_bot() {
    let config = AppConfig::from_env(&environment(&[
        ("FEISHU_APP_ID", "app"),
        ("FEISHU_APP_SECRET", "secret"),
        ("HOME", "/home/me"),
    ]))
    .unwrap();
    assert_eq!(config.feishu.app_secret, "secret");
    assert_eq!(config.feishu.nickname, None);
    assert_eq!(config.feishu.typing_reaction_emoji, None);
    assert_eq!(config.feishu.media_dir, "/home/me/.feishu2acp/media");
    assert_eq!(config.feishu.max_markdown_bytes, 1048576);
    assert!(config.feishu.enable_markdown_input);
    assert!(config.feishu.enable_markdown_output);
    assert_eq!(config.acpx.program, "acpx");
    assert!(config.acpx.args.is_empty());
    assert_eq!(config.acpx.timeout_secs, 1800);
    assert_eq!(config.acpx.ttl_secs, 300);
    assert_eq!(config.shell.program, "sh");
    assert_eq!(config.shell.args, vec!["-lc"]);
    assert_eq!(config.shell.timeout_secs, 300);
    assert_eq!(config.default_workspace, "/work");
    assert_eq!(config.default_permission_mode, PermissionMode::ApproveReads);
    assert_eq!(config.reply_chunk_chars, 3000);
    assert_eq!(config.conversation_store_path, "/home/me/.feishu2acp/conversations.json");
    assert_eq!(config.log_path, "/home/me/.feishu2acp/feishu2acp.log");
    assert_eq!(config.tracing_filter, "info,feishu2acp=debug");
}

#[test]
fn every_variable_counts() {
    let config = AppConfig::from_env(&environment(&[
        ("FEISHU_APP_ID", "app"),
        ("FEISHU_APP_SECRET", "secret"),
        ("FEISHU2ACP_PERMISSION_MODE", " Approve-All "),
        ("FEISHU2ACP_REPLY_CHUNK_CHARS", "10"),
        ("FEISHU2ACP_STATE_PATH", "state.json"),
        ("FEISHU2ACP_MEDIA_DIR", "/media"),
        ("FEISHU2ACP_MAX_MARKDOWN_BYTES", "2048"),
        ("FEISHU2ACP_ENABLE_MARKDOWN_INPUT", "false"),
        ("FEISHU2ACP_ENABLE_MARKDOWN_OUTPUT", "true"),
        ("ACPX_PROGRAM", "npx"),
        ("ACPX_PROGRAM_ARGS", "acpx@latest 'a b'"),
        ("ACPX_TIMEOUT_SECS", "1"),
        ("ACPX_TTL_SECS", "0"),
        ("RUST_LOG", "warn"),
    ]))
    .unwrap();
    assert_eq!(config.default_permission_mode, PermissionMode::ApproveAll);
    assert_eq!(config.reply_chunk_chars, 10);
    assert_eq!(config.conversation_store_path, "state.json");
    assert_eq!(config.feishu.media_dir, "/media");
    assert_eq!(config.feishu.max_markdown_bytes, 2048);
    assert!(!config.feishu.enable_markdown_input);
    assert!(config.feishu.enable_markdown_output);
    assert_eq!(config.acpx.program, "npx");
    assert_eq!(config.acpx.args, vec!["acpx@latest", "a b"]);
    assert_eq!(config.acpx.timeout_secs, 1);
    assert_eq!(config.acpx.ttl_secs, 0);
    assert_eq!(config.tracing_filter, "warn");
}

#[test]
fn the_first_thing_that_is_wrong_is_told() {
    assert_eq!(failure(&[]), "missing required environment variable FEISHU_APP_ID");
    assert_eq!(
        failure(&[("FEISHU_APP_ID", "a")]),
        "missing required environment variable FEISHU_APP_SECRET"
    );
    assert_eq!(
        failure(&[("FEISHU2ACP_REPLY_CHUNK_CHARS", "")]),
        "FEISHU2ACP_REPLY_CHUNK_CHARS must be a positive integer: cannot parse integer from empty string"
    );
    assert!(failure(&[("ACPX_PROGRAM_ARGS", "[")]).starts_with("invalid JSON argument list: "));
    let bot = [("FEISHU_APP_ID", "a"), ("FEISHU_APP_SECRET", "s")];
    assert_eq!(
        failure(&[bot[0], bot[1], ("ACPX_TIMEOUT_SECS", "-1")]),
        "ACPX_TIMEOUT_SECS must be a non-negative integer: invalid digit found in string"
    );
    assert_eq!(
        failure(&[bot[0], bot[1], ("ACPX_TTL_SECS", "99999999999999999999")]),
        "ACPX_TTL_SECS must be a non-negative integer: number too large to fit in target type"
    );
    assert_eq!(
        failure(&[bot[0], bot[1], ("FEISHU2ACP_MAX_MARKDOWN_BYTES", "1k")]),
        "FEISHU2ACP_MAX_MARKDOWN_BYTES must be a positive integer: invalid digit found in string"
    );
    assert_eq!(
        failure(&[bot[0], bot[1], ("FEISHU2ACP_ENABLE_MARKDOWN_INPUT", "yes")]),
        "FEISHU2ACP_ENABLE_MARKDOWN_INPUT must be a boolean: provided string was not `true` or `false`"
    );
    let lost = Environment {
        system: System::current(),
        current_dir: Err("gone".to_string()),
        vars: Vec::new(),
    };
    assert_eq!(
        AppConfig::from_env(&lost).unwrap_err().user_message(),
        "cannot read current directory: gone"
    );
}

#[test]
fn names_of_variables_have_no_case_on_windows() {
    assert!(is_same_variable(Platform::Windows, "Path", "PATH"));
    assert!(!is_same_variable(Platform::Windows, "Path", "PATHS"));
    assert!(!is_same_variable(Platform::Unix, "Path", "PATH"));
    assert!(is_same_variable(Platform::Unix, "PATH", "PATH"));
}
