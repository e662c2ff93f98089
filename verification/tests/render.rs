use feishu2acp::application::render::{
    binding_text, help_text, history_text, session_list_text, session_record_text,
    session_summary_text, shell_output_text, status_text,
};
use feishu2acp::domain::{
    ConversationBinding, PermissionMode, SessionHistoryEntry, SessionRecord, SessionStatus,
    SessionSummary, ShellOutput,
};

#[test]
fn renders_binding() {
    let binding = ConversationBinding {
        cwd: "/repo".to_string(),
        agent: "codex".to_string(),
        session_name: Some("backend".to_string()),
        permission_mode: PermissionMode::ApproveReads,
    };
    let rendered = binding_text(&binding);
    assert!(rendered.contains("/repo"));
    assert!(rendered.contains("backend"));
}

#[test]
fn renders_session_summary() {
    let summary = SessionSummary {
        record_id: "rec-1".to_string(),
        name: Some("docs".to_string()),
        created: true,
        acp_session_id: None,
        agent_session_id: None,
    };
    assert!(session_summary_text(&summary, "session ready").contains("rec-1"));
}

#[test]
fn renders_session_record_and_status() {
    let record = SessionRecord {
        record_id: "rec-1".to_string(),
        acp_session_id: "acp-1".to_string(),
        agent_session_id: Some("agent-1".to_string()),
        agent: "codex".to_string(),
        cwd: "/repo".to_string(),
        name: Some("docs".to_string()),
        title: Some("Fix reply routing".to_string()),
        first_user_preview: Some("修一下 feishu reply body".to_string()),
        created_at: "2026-01-01T00:00:00Z".to_string(),
        last_used_at: "2026-01-01T00:01:00Z".to_string(),
        last_prompt_at: Some("2026-01-01T00:01:00Z".to_string()),
        closed: false,
        model: Some("gpt-5.4".to_string()),
        mode: Some("auto".to_string()),
    };
    let status = SessionStatus {
        status: "running".to_string(),
        session_id: Some("rec-1".to_string()),
        agent_command: "codex".to_string(),
        pid: Some(123),
        model: Some("gpt-5.4".to_string()),
        mode: Some("auto".to_string()),
        uptime: Some("00:00:10".to_string()),
        last_prompt_time: Some("2026-01-01T00:01:00Z".to_string()),
        exit_code: None,
        signal: None,
        agent_session_id: None,
    };

    assert!(session_record_text(&record).contains("acp-1"));
    assert!(session_record_text(&record).contains("Fix reply routing"));
    assert!(status_text(&status).contains("running"));
}

#[test]
fn renders_lists_history_and_shell_outputs() {
    let records = vec![SessionRecord {
        record_id: "rec-1".to_string(),
        acp_session_id: "acp-1".to_string(),
        agent_session_id: None,
        agent: "codex".to_string(),
        cwd: "/repo".to_string(),
        name: None,
        title: None,
        first_user_preview: Some("修一下飞书回复的 body 参数问题".to_string()),
        created_at: "2026".to_string(),
        last_used_at: "2026".to_string(),
        last_prompt_at: None,
        closed: false,
        model: None,
        mode: None,
    }];
    let history = vec![SessionHistoryEntry {
        role: "assistant".to_string(),
        timestamp: "2026".to_string(),
        text_preview: "done".to_string(),
    }];
    let shell = ShellOutput {
        command: "pwd".to_string(),
        cwd: "/repo".to_string(),
        exit_code: 0,
        stdout: "/repo".to_string(),
        stderr: String::new(),
    };
    let current = ConversationBinding {
        cwd: "/repo".to_string(),
        agent: "codex".to_string(),
        session_name: None,
        permission_mode: PermissionMode::ApproveReads,
    };

    let rendered = session_list_text(&records, &current);
    assert!(rendered.contains("*"));
    assert!(rendered.contains("[first] 修一下飞书回复的 body 参数问题"));
    assert!(history_text(&history).contains("done"));
    assert!(shell_output_text(&shell).contains("exit_code: 0"));
}

#[test]
fn session_list_marks_only_latest_matching_record_and_prefers_title() {
    let records = vec![
        SessionRecord {
            record_id: "rec-old".to_string(),
            acp_session_id: "acp-old".to_string(),
            agent_session_id: None,
            agent: "codex".to_string(),
            cwd: "/repo".to_string(),
            name: None,
            title: Some("old closed session".to_string()),
            first_user_preview: Some("older".to_string()),
            created_at: "2026".to_string(),
            last_used_at: "2026-01-01T00:00:00Z".to_string(),
            last_prompt_at: None,
            closed: true,
            model: None,
            mode: None,
        },
        SessionRecord {
            record_id: "rec-current".to_string(),
            acp_session_id: "acp-current".to_string(),
            agent_session_id: None,
            agent: "codex".to_string(),
            cwd: "/repo".to_string(),
            name: None,
            title: Some("current open session".to_string()),
            first_user_preview: Some("newer".to_string()),
            created_at: "2026".to_string(),
            last_used_at: "2026-01-01T00:02:00Z".to_string(),
            last_prompt_at: None,
            closed: false,
            model: None,
            mode: None,
        },
    ];
    let current = ConversationBinding {
        cwd: "/repo".to_string(),
        agent: "codex".to_string(),
        session_name: None,
        permission_mode: PermissionMode::ApproveReads,
    };

    let rendered = session_list_text(&records, &current);
    assert_eq!(rendered.matches('*').count(), 1);
    assert!(rendered.contains("* default | rec-current"));
    assert!(rendered.contains("[title] current open session"));
}

fn record(id: &str, cwd: &str, closed: bool, last_used_at: &str) -> SessionRecord {
    SessionRecord {
        record_id: id.to_string(),
        acp_session_id: "acp".to_string(),
        agent_session_id: None,
        agent: "codex".to_string(),
        cwd: cwd.to_string(),
        name: None,
        title: None,
        first_user_preview: None,
        created_at: "2026".to_string(),
        last_used_at: last_used_at.to_string(),
        last_prompt_at: None,
        closed,
        model: None,
        mode: None,
    }
}

fn current(cwd: &str) -> ConversationBinding {
    ConversationBinding {
        cwd: cwd.to_string(),
        agent: "codex".to_string(),
        session_name: None,
        permission_mode: PermissionMode::DenyAll,
    }
}

#[test]
fn help_names_every_command() {
    let help = help_text("/x");
    assert_eq!(help.lines().count(), 20);
    assert!(help.starts_with("可用命令：\n/x pwd\n/x cd <dir>\n"));
    assert!(help.contains("\n/x permissions <approve-all|approve-reads|deny-all>\n"));
    assert!(help.ends_with("\n/x cancel\n\n普通文本消息会直接发送给当前 Codex 会话。"));
}

#[test]
fn a_context_is_rendered_in_full() {
    assert_eq!(
        binding_text(&current("/repo")),
        "当前上下文\ncwd: /repo\nagent: codex\nsession: default\npermissions: deny-all"
    );
}

#[test]
fn a_summary_is_rendered_in_full() {
    let summary = SessionSummary {
        record_id: "rec".to_string(),
        name: None,
        created: false,
        acp_session_id: None,
        agent_session_id: None,
    };
    assert_eq!(
        session_summary_text(&summary, "done"),
        "done\nrecord: rec\nsession: default"
    );
}

#[test]
fn a_record_is_rendered_in_full() {
    assert_eq!(
        session_record_text(&record("r", "/repo", true, "t")),
        "session detail\nrecord: r\nacp_session: acp\nagent_session: -\nagent: codex\n\
         cwd: /repo\nname: default\ntitle: -\nfirst_user: -\ncreated_at: 2026\n\
         last_used_at: t\nlast_prompt_at: -\nclosed: yes\nmodel: -\nmode: -"
    );
}

#[test]
fn a_status_is_rendered_in_full() {
    let status = SessionStatus {
        status: "idle".to_string(),
        session_id: None,
        agent_command: "codex".to_string(),
        pid: Some(-7),
        model: None,
        mode: None,
        uptime: None,
        last_prompt_time: None,
        exit_code: Some(i64::MIN),
        signal: Some("TERM".to_string()),
        agent_session_id: None,
    };
    assert_eq!(
        status_text(&status),
        "status\nsession: -\nagent: codex\npid: -7\nstatus: idle\nmodel: -\nmode: -\n\
         uptime: -\nlast_prompt_time: -\nexit_code: -9223372036854775808\nsignal: TERM"
    );
}

#[test]
fn shell_output_is_rendered_in_full() {
    let output = ShellOutput {
        command: "ls".to_string(),
        cwd: "/".to_string(),
        exit_code: -1,
        stdout: " \n".to_string(),
        stderr: "\nno\n".to_string(),
    };
    assert_eq!(
        shell_output_text(&output),
        "shell result\ncwd: /\ncommand: ls\nexit_code: -1\nstdout:\n[empty]\nstderr:\nno"
    );
}

#[test]
fn empty_lists_are_told() {
    assert_eq!(session_list_text(&[], &current("/")), "当前 agent 没有任何 acpx session。");
    assert_eq!(history_text(&[]), "当前 session 没有历史记录。");
}

#[test]
fn a_list_is_rendered_in_full() {
    let mut titled = record("b", "/repo", true, "2");
    titled.title = Some("  a\ttitle\n here ".to_string());
    titled.name = Some("docs".to_string());
    let mut blank = record("c", "/repo", false, "1");
    blank.title = Some(" ".to_string());
    blank.first_user_preview = Some("unseen".to_string());
    assert_eq!(
        session_list_text(&[titled, blank], &current("/repo")),
        "sessions\n- docs | b | /repo | closed\n  [title] a title here\n\
         * default | c | /repo | open"
    );
}

#[test]
fn long_summaries_are_cut() {
    let mut long = record("a", "/", false, "1");
    long.first_user_preview = Some("x".repeat(73));
    let rendered = session_list_text(&[long], &current("/elsewhere"));
    assert!(rendered.ends_with(&format!("[first] {}...", "x".repeat(72))));
    assert!(!rendered.contains('*'));
}

#[test]
fn the_last_of_equally_new_records_is_current() {
    let list = [
        record("a", "/repo/./", false, "2"),
        record("b", "/repo", false, "2"),
        record("c", "/repo", false, "1"),
        record("d", "/repo", true, "9"),
        record("e", "/other", false, "9"),
    ];
    assert!(session_list_text(&list, &current("/repo")).contains("* default | b"));
}

#[test]
fn a_history_is_rendered_in_full() {
    let entry = |role: &str| SessionHistoryEntry {
        role: role.to_string(),
        timestamp: "t".to_string(),
        text_preview: "p".to_string(),
    };
    assert_eq!(
        history_text(&[entry("user"), entry("assistant")]),
        "session history\nt | user | p\nt | assistant | p"
    );
}
