use feishu2acp::application::command::{parse_user_request, BotCommand, SessionCommand, UserRequest};
use feishu2acp::application::render::help_text;
use feishu2acp::domain::PermissionMode;
use feishu2acp::error::BridgeError;

#[test]
fn regular_message_becomes_prompt() {
    let parsed = parse_user_request("/command", "修复一下测试").unwrap();
    assert_eq!(parsed, UserRequest::Prompt("修复一下测试".to_string()));
}

#[test]
fn bare_command_returns_help() {
    let parsed = parse_user_request("/command", "/command").unwrap();
    assert_eq!(parsed, UserRequest::Command(BotCommand::Help));
}

#[test]
fn slash_prefix_returns_help_for_single_slash() {
    let parsed = parse_user_request("/", "/").unwrap();
    assert_eq!(parsed, UserRequest::Command(BotCommand::Help));
}

#[test]
fn slash_prefix_parses_cd_command() {
    let parsed = parse_user_request("/", "/cd /tmp/worktree").unwrap();
    assert_eq!(
        parsed,
        UserRequest::Command(BotCommand::ChangeDirectory("/tmp/worktree".to_string()))
    );
}

#[test]
fn parses_cd_command() {
    let parsed =
        parse_user_request("/command", r#"/command cd "F:\coding workspace""#).unwrap();
    assert_eq!(
        parsed,
        UserRequest::Command(BotCommand::ChangeDirectory(
            r#"F:\coding workspace"#.to_string()
        ))
    );
}

#[test]
fn parses_permission_command() {
    let parsed = parse_user_request("/command", "/command permissions approve-all").unwrap();
    assert_eq!(
        parsed,
        UserRequest::Command(BotCommand::Permissions(PermissionMode::ApproveAll))
    );
}

#[test]
fn parses_session_commands() {
    let parsed = parse_user_request("/command", "/command session new backend").unwrap();
    assert_eq!(
        parsed,
        UserRequest::Command(BotCommand::Session(SessionCommand::New(Some(
            "backend".to_string()
        ))))
    );

    let parsed = parse_user_request("/command", "/command session use default").unwrap();
    assert_eq!(
        parsed,
        UserRequest::Command(BotCommand::Session(SessionCommand::Use(None)))
    );
}

#[test]
fn parses_shell_and_exec_rest_without_retokenizing() {
    let shell =
        parse_user_request("/command", "/command shell cargo test -- --nocapture").unwrap();
    assert_eq!(
        shell,
        UserRequest::Command(BotCommand::Shell("cargo test -- --nocapture".to_string()))
    );

    let exec = parse_user_request("/command", "/command exec 检查这个仓库并总结").unwrap();
    assert_eq!(
        exec,
        UserRequest::Command(BotCommand::Exec("检查这个仓库并总结".to_string()))
    );
}

#[test]
fn rejects_unknown_command() {
    let error = parse_user_request("/command", "/command nope").unwrap_err();
    assert!(error.user_message().contains("命令解析失败"));
}

#[test]
fn rejects_control_characters_before_parsing() {
    let error = parse_user_request("/", "/cd /tmp/\u{001b}[31mboom").unwrap_err();
    assert_eq!(
        error.user_message(),
        "输入包含非法控制字符，请移除后重试。"
    );
}

#[test]
fn rejects_bidi_override_characters_before_parsing() {
    let error = parse_user_request("/", "/cd /tmp/\u{202e}txt.exe").unwrap_err();
    assert_eq!(
        error.user_message(),
        "输入包含非法控制字符，请移除后重试。"
    );
}

fn parsed(text: &str) -> BotCommand {
    match parse_user_request("/", text).unwrap() {
        UserRequest::Command(command) => command,
        UserRequest::Prompt(text) => panic!("a prompt: {text}"),
    }
}

fn failure(text: &str) -> String {
    match parse_user_request("/", text).unwrap_err() {
        BridgeError::CommandParse(message) => message,
        other => panic!("another failure: {other:?}"),
    }
}

#[test]
fn prompts_lose_only_the_white_space_around_them() {
    let parsed = parse_user_request("/", " \t\n two  words\n").unwrap();
    assert_eq!(parsed, UserRequest::Prompt("two  words".to_string()));
}

#[test]
fn every_command_is_known() {
    assert_eq!(parsed("/help"), BotCommand::Help);
    assert_eq!(parsed("/ pwd"), BotCommand::Pwd);
    assert_eq!(parsed("/status"), BotCommand::Status);
    assert_eq!(parsed("/cancel"), BotCommand::Cancel);
    assert_eq!(parsed("/agent gemini more"), BotCommand::Agent("gemini".to_string()));
    assert_eq!(parsed("/mode 'read only'"), BotCommand::Mode("read only".to_string()));
    assert_eq!(parsed("/model gpt"), BotCommand::Model("gpt".to_string()));
    assert_eq!(
        parsed("/set effort very high "),
        BotCommand::Option { key: "effort".to_string(), value: "very high".to_string() }
    );
    assert_eq!(
        parsed("/option \"a b\" c"),
        BotCommand::Option { key: "a b".to_string(), value: "c".to_string() }
    );
    assert_eq!(parsed("/prompt go on"), BotCommand::Prompt("go on".to_string()));
    assert_eq!(parsed("/permissions Deny-All"), BotCommand::Permissions(PermissionMode::DenyAll));
    assert_eq!(parsed("/session list"), BotCommand::Session(SessionCommand::List));
    assert_eq!(parsed("/session show"), BotCommand::Session(SessionCommand::Show(None)));
    assert_eq!(
        parsed("/session close my session"),
        BotCommand::Session(SessionCommand::Close(Some("my session".to_string())))
    );
}

#[test]
fn command_names_have_no_case() {
    assert_eq!(parsed("/PWD"), BotCommand::Pwd);
    assert_eq!(
        parsed("/Session NEW a"),
        BotCommand::Session(SessionCommand::New(Some("a".to_string())))
    );
}

#[test]
fn history_takes_a_limit_or_ten() {
    assert_eq!(parsed("/session history"), BotCommand::Session(SessionCommand::History(10)));
    assert_eq!(parsed("/session history 25"), BotCommand::Session(SessionCommand::History(25)));
    assert_eq!(parsed("/session history +3"), BotCommand::Session(SessionCommand::History(3)));
    let largest = format!("/session history {}", usize::MAX);
    assert_eq!(parsed(&largest), BotCommand::Session(SessionCommand::History(usize::MAX)));
    let larger = format!("/session history {}0", usize::MAX);
    assert_eq!(failure(&larger), "history limit 必须是正整数");
    assert_eq!(failure("/session history -1"), "history limit 必须是正整数");
    assert_eq!(failure("/session history ten"), "history limit 必须是正整数");
}

#[test]
fn missing_arguments_are_told() {
    assert_eq!(failure("/cd"), "cd 需要目录参数");
    assert_eq!(failure("/agent"), "agent 需要 agent 名称");
    assert_eq!(failure("/permissions"), "permissions 需要权限模式");
    assert_eq!(
        failure("/permissions all"),
        "权限模式必须是 approve-all / approve-reads / deny-all"
    );
    assert_eq!(failure("/mode "), "mode 需要 mode 值");
    assert_eq!(failure("/model"), "model 需要模型名");
    assert_eq!(failure("/set"), "set 需要 key");
    assert_eq!(failure("/set key"), "set 需要 value");
    assert_eq!(failure("/prompt"), "prompt 需要文本");
    assert_eq!(failure("/exec"), "exec 需要文本");
    assert_eq!(failure("/shell"), "shell 需要系统命令");
    assert_eq!(
        failure("/session"),
        "session 需要子命令，例如 new/use/show/close/list/history"
    );
    assert_eq!(failure("/session Fly"), "未知 session 子命令：fly");
    assert_eq!(failure("/Nope"), "未知命令：nope，请使用 /help");
}

#[test]
fn quotes_around_a_directory_are_dropped_in_pairs() {
    assert_eq!(parsed("/cd 'a b'"), BotCommand::ChangeDirectory("a b".to_string()));
    assert_eq!(parsed("/cd \"a b"), BotCommand::ChangeDirectory("\"a b".to_string()));
    assert_eq!(parsed("/cd \"a'"), BotCommand::ChangeDirectory("\"a'".to_string()));
    assert_eq!(parsed("/cd \""), BotCommand::ChangeDirectory("\"".to_string()));
    assert_eq!(parsed("/mode \"open"), BotCommand::Mode("open".to_string()));
}

#[test]
fn line_feeds_and_tabulators_are_let_through() {
    assert!(parse_user_request("/", "a\nb\r\n\tc").is_ok());
    assert!(parse_user_request("/", "a\u{7f}").is_err());
    assert!(parse_user_request("/", "a\u{2066}").is_err());
    assert!(parse_user_request("/", "a\u{2065}").is_ok());
}

#[test]
fn every_line_of_the_help_is_understood() {
    for prefix in ["/", "/command"] {
        let help = help_text(prefix);
        let usages: Vec<&str> = help.lines().filter(|line| line.starts_with(prefix)).collect();
        assert_eq!(usages.len(), 17);
        for line in usages {
            match parse_user_request(prefix, line) {
                Ok(UserRequest::Command(_)) => {}
                Ok(UserRequest::Prompt(_)) => panic!("a prompt: {line}"),
                Err(error) => assert!(!error.user_message().contains("未知"), "{line}"),
            }
        }
    }
}

#[test]
fn arguments_keep_their_case() {
    assert_eq!(parsed("/CD /Tmp"), BotCommand::ChangeDirectory("/Tmp".to_string()));
    assert_eq!(parsed("/Help"), parsed("/help"));
}
