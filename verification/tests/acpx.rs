use feishu2acp::adapters::acpx::{
    build_non_strict_diagnostic_request, explain_failure, into_entries, into_records, json_text,
    run_checked, run_json, run_quiet, summary_from_close, AcpxCliGateway, AcpxState, Checked,
    CloseSessionResponse, HistoryEntryResponse, SessionRecordResponse, SessionSummaryResponse,
    StatusResponse,
};
use feishu2acp::adapters::json::{extract_first_user_preview, Json};
use feishu2acp::adapters::prompt::{
    decode_document, document_text, file_to_read, read_document_text, render_prompt_blocks,
};
use feishu2acp::config::AcpxCliConfig;
use feishu2acp::domain::{
    AgentReply, BinarySource, MessageBlock, PermissionMode, SessionHistoryEntry, SessionRecord,
    SessionSelector, SessionStatus, SessionSummary,
};
use feishu2acp::error::BridgeError;
use feishu2acp::ports::{ProcessOutput, ProcessRequest};
use serde_json::Value;

/// Answers requests with the outputs that it was given, and keeps the requests.
struct StubRunner {
    outputs: Vec<ProcessOutput>,
    requests: Vec<ProcessRequest>,
}

impl StubRunner {
    fn new(outputs: Vec<ProcessOutput>) -> Self {
        Self { outputs, requests: Vec::new() }
    }

    fn run(&mut self, request: ProcessRequest) -> ProcessOutput {
        self.requests.push(request);
        self.outputs.remove(0)
    }

    fn run_checked(&mut self, request: ProcessRequest) -> Result<ProcessOutput, BridgeError> {
        let output = self.run(request.clone());
        match run_checked(&request, output) {
            Checked::Succeeded(output) => Ok(output),
            Checked::Retry { request: again, output } => {
                let diagnosis = self.run(again);
                Err(explain_failure(&request, output, Some(diagnosis)))
            }
            Checked::Failed(error) => Err(error),
        }
    }

    fn run_json(&mut self, request: ProcessRequest) -> Result<Value, BridgeError> {
        let output = self.run_checked(request)?;
        let parsed = serde_json::from_str::<Value>(&json_text(&output));
        run_json(output, parsed.map_err(|error| error.to_string()))
    }
}

fn output(exit_code: i32, stdout: &str, stderr: &str) -> ProcessOutput {
    ProcessOutput { exit_code, stdout: stdout.to_string(), stderr: stderr.to_string() }
}

fn text(value: &Value, name: &str) -> Option<String> {
    value.get(name).and_then(Value::as_str).map(str::to_string)
}

fn json(value: &Value) -> Json {
    match value {
        Value::Null => Json::Null,
        Value::Bool(flag) => Json::Bool(*flag),
        Value::Number(number) => Json::Number(number.to_string()),
        Value::String(text) => Json::Text(text.clone()),
        Value::Array(items) => Json::List(items.iter().map(json).collect()),
        Value::Object(members) => {
            Json::Object(members.iter().map(|(name, value)| (name.clone(), json(value))).collect())
        }
    }
}

fn summary_response(value: &Value) -> SessionSummaryResponse {
    SessionSummaryResponse {
        acpx_record_id: text(value, "acpxRecordId").unwrap(),
        name: text(value, "name"),
        created: value["created"].as_bool().unwrap(),
        acpx_session_id: text(value, "acpxSessionId"),
        agent_session_id: text(value, "agentSessionId"),
    }
}

fn record_response(value: &Value) -> SessionRecordResponse {
    SessionRecordResponse {
        acpx_record_id: text(value, "acpxRecordId").unwrap(),
        acp_session_id: text(value, "acpSessionId").unwrap(),
        agent_session_id: text(value, "agentSessionId"),
        agent_command: text(value, "agentCommand").unwrap(),
        cwd: text(value, "cwd").unwrap(),
        name: text(value, "name"),
        title: text(value, "title"),
        created_at: text(value, "createdAt").unwrap(),
        last_used_at: text(value, "lastUsedAt").unwrap(),
        last_prompt_at: text(value, "lastPromptAt"),
        messages: value["messages"].as_array().map(|list| list.iter().map(json).collect()),
        closed: value["closed"].as_bool(),
        acpx: value.get("acpx").map(|state| AcpxState {
            current_model_id: text(state, "current_model_id"),
            current_mode_id: text(state, "current_mode_id"),
        }),
    }
}

fn status_response(value: &Value) -> StatusResponse {
    StatusResponse {
        status: text(value, "status").unwrap(),
        acpx_record_id: text(value, "acpxRecordId"),
        agent_command: text(value, "agentCommand"),
        pid: value["pid"].as_i64(),
        model: text(value, "model"),
        mode: text(value, "mode"),
        uptime: text(value, "uptime"),
        last_prompt_time: text(value, "lastPromptTime"),
        exit_code: value["exitCode"].as_i64(),
        signal: text(value, "signal"),
        agent_session_id: text(value, "agentSessionId"),
    }
}

fn history_response(value: &Value) -> Vec<HistoryEntryResponse> {
    let entries = value["entries"].as_array().unwrap();
    entries
        .iter()
        .map(|entry| HistoryEntryResponse {
            role: text(entry, "role").unwrap(),
            timestamp: text(entry, "timestamp").unwrap(),
            text_preview: text(entry, "textPreview").unwrap(),
        })
        .collect()
}

fn ensure_session(runner: &mut StubRunner) -> Result<SessionSummary, BridgeError> {
    let value = runner.run_json(gateway().ensure_session(&selector()))?;
    Ok(summary_response(&value).into_summary())
}

fn prompt(runner: &mut StubRunner, blocks: &[MessageBlock]) -> Result<AgentReply, BridgeError> {
    let reads = blocks.iter().map(|_| None).collect();
    let prompt = render_prompt_blocks(blocks, reads)?;
    let output = runner.run_checked(gateway().prompt(&selector(), &prompt))?;
    Ok(run_quiet(output))
}

fn status(runner: &mut StubRunner) -> Result<SessionStatus, BridgeError> {
    let value = runner.run_json(gateway().status(&selector()))?;
    Ok(status_response(&value).into_status())
}

fn history(runner: &mut StubRunner, limit: usize) -> Result<Vec<SessionHistoryEntry>, BridgeError> {
    let value = runner.run_json(gateway().history(&selector(), limit))?;
    Ok(into_entries(history_response(&value)))
}

fn list_sessions(runner: &mut StubRunner, agent: &str) -> Result<Vec<SessionRecord>, BridgeError> {
    let value = runner.run_json(gateway().list_sessions(agent))?;
    Ok(into_records(value.as_array().unwrap().iter().map(record_response).collect()))
}

fn cancel(runner: &mut StubRunner) -> Result<bool, BridgeError> {
    let value = runner.run_json(gateway().cancel(&selector()))?;
    Ok(value["cancelled"].as_bool().unwrap())
}

fn selector() -> SessionSelector {
    SessionSelector {
        cwd: "/repo".to_string(),
        agent: "codex".to_string(),
        session_name: Some("backend".to_string()),
        permission_mode: PermissionMode::ApproveReads,
    }
}

fn unnamed() -> SessionSelector {
    selector().with_session_name(None)
}

fn gateway() -> AcpxCliGateway {
    AcpxCliGateway::new(AcpxCliConfig {
        program: "acpx".to_string(),
        args: vec![],
        timeout_secs: 30,
        ttl_secs: 5,
    })
}

fn arg_index(args: &[String], value: &str) -> usize {
    args.iter().position(|arg| arg == value).unwrap()
}

fn document(source: BinarySource, extracted_text: Option<&str>) -> MessageBlock {
    MessageBlock::Document {
        mime_type: "text/markdown".to_string(),
        file_name: "README.md".to_string(),
        source,
        extracted_text: extracted_text.map(str::to_string),
    }
}

#[test]
fn ensure_session_builds_expected_command_and_parses_json() {
    let mut runner = StubRunner::new(vec![output(
        0,
        r#"{"acpxRecordId":"rec-1","name":"backend","created":true,"acpxSessionId":"acp-1"}"#,
        "",
    )]);
    let summary = ensure_session(&mut runner).unwrap();
    assert_eq!(summary.record_id, "rec-1");

    let request = &runner.requests[0];
    assert_eq!(request.program, "acpx");
    assert!(request.args.contains(&"--format".to_string()));
    assert!(request.args.contains(&"sessions".to_string()));
    assert!(request.args.contains(&"ensure".to_string()));
    assert!(request.args.contains(&"--name".to_string()));
    assert_eq!(request.timeout_secs, 30);
    assert!(arg_index(&request.args, "--format") < arg_index(&request.args, "codex"));
    assert!(arg_index(&request.args, "codex") < arg_index(&request.args, "sessions"));
}

#[test]
fn prompt_uses_quiet_output() {
    let mut runner = StubRunner::new(vec![output(0, "hello", "")]);
    let response = prompt(&mut runner, &[MessageBlock::text("fix the tests")]).unwrap();
    assert_eq!(response.blocks, vec![MessageBlock::text("hello".to_string())]);
    let request = &runner.requests[0];
    assert!(request.args.contains(&"quiet".to_string()));
    assert!(request.args.contains(&"prompt".to_string()));
    assert!(request.args.contains(&"fix the tests".to_string()));
    assert!(arg_index(&request.args, "--format") < arg_index(&request.args, "codex"));
    assert!(arg_index(&request.args, "codex") < arg_index(&request.args, "prompt"));
}

#[test]
fn prompt_renders_markdown_document_blocks() {
    let mut runner = StubRunner::new(vec![output(0, "done", "")]);
    let blocks = [document(BinarySource::Bytes(b"# Title".to_vec()), Some("# Title"))];
    let _ = prompt(&mut runner, &blocks).unwrap();

    let request = &runner.requests[0];
    let prompt = request.args.last().unwrap();
    assert!(prompt.contains("附加 markdown 文档 `README.md`"));
    assert!(prompt.contains("<markdown-document file_name=\"README.md\">"));
    assert!(prompt.contains("# Title"));
}

#[test]
fn prompt_parses_embedded_markdown_reply_documents() {
    let stdout = "说明文字\n\n<feishu2acp-document file_name=\"plan.md\">\n# Plan\n</feishu2acp-document>\n";
    let mut runner = StubRunner::new(vec![output(0, stdout, "")]);
    let response = prompt(&mut runner, &[MessageBlock::text("generate a plan")]).unwrap();

    assert_eq!(
        response.blocks,
        vec![
            MessageBlock::text("说明文字".to_string()),
            MessageBlock::Document {
                mime_type: "text/markdown".to_string(),
                file_name: "plan.md".to_string(),
                source: BinarySource::Bytes(b"# Plan".to_vec()),
                extracted_text: Some("# Plan".to_string()),
            }
        ]
    );
}

#[test]
fn parses_status_and_history() {
    let mut runner = StubRunner::new(vec![
        output(
            0,
            r#"{"status":"running","acpxRecordId":"rec-1","agentCommand":"codex","pid":123}"#,
            "",
        ),
        output(
            0,
            r#"{"entries":[{"role":"assistant","timestamp":"2026","textPreview":"done"}]}"#,
            "",
        ),
    ]);
    let status = status(&mut runner).unwrap();
    let history = history(&mut runner, 10).unwrap();
    assert_eq!(status.status, "running");
    assert_eq!(history[0].text_preview, "done");
}

#[test]
fn list_sessions_extracts_title_and_first_user_preview() {
    let stdout = r#"[{
        "acpxRecordId":"rec-1",
        "acpSessionId":"acp-1",
        "agentSessionId":"agent-1",
        "agentCommand":"codex",
        "cwd":"/repo",
        "name":null,
        "title":null,
        "createdAt":"2026-01-01T00:00:00Z",
        "lastUsedAt":"2026-01-01T00:01:00Z",
        "lastPromptAt":"2026-01-01T00:01:00Z",
        "closed":false,
        "messages":[
            {"User":{"id":"u1","content":[{"Text":" first prompt with  spaces \n and newline "}] }},
            {"Agent":{"content":[{"Text":"answer"}]}}
        ],
        "acpx":{"current_model_id":"gpt-5.4","current_mode_id":"auto"}
    }]"#;
    let mut runner = StubRunner::new(vec![output(0, stdout, "")]);
    let records = list_sessions(&mut runner, "codex").unwrap();

    assert_eq!(records.len(), 1);
    assert_eq!(records[0].title, None);
    assert_eq!(
        records[0].first_user_preview.as_deref(),
        Some("first prompt with  spaces \n and newline")
    );
    assert_eq!(records[0].model.as_deref(), Some("gpt-5.4"));
}

#[test]
fn non_zero_exit_becomes_process_failed() {
    let mut runner = StubRunner::new(vec![output(5, "", "boom")]);
    let error = cancel(&mut runner).unwrap_err();
    assert!(matches!(error, BridgeError::ProcessFailed { .. }));
}

#[test]
fn strict_json_failure_retries_once_without_strict_for_diagnostics() {
    let mut runner = StubRunner::new(vec![
        output(1, "", ""),
        output(1, "", "error: unknown option '--format'"),
    ]);
    let error = cancel(&mut runner).unwrap_err();

    match error {
        BridgeError::ProcessFailed { stderr, .. } => {
            assert!(stderr.contains("unknown option '--format'"));
        }
        other => panic!("unexpected error: {other:?}"),
    }

    let requests = &runner.requests;
    assert_eq!(requests.len(), 2);
    assert!(requests[0].args.contains(&"--json-strict".to_string()));
    assert!(!requests[1].args.contains(&"--json-strict".to_string()));
    assert!(build_non_strict_diagnostic_request(&requests[1]).is_none());
}

#[test]
fn every_call_has_its_arguments() {
    let gateway = AcpxCliGateway::new(AcpxCliConfig {
        program: "npx".to_string(),
        args: vec!["acpx@latest".to_string()],
        timeout_secs: 60,
        ttl_secs: 7,
    });
    let base = "acpx@latest --approve-reads --cwd /repo --timeout 60 --ttl 7";
    let json = format!("{base} --format json --json-strict codex");
    let quiet = format!("{base} --format quiet codex");
    let line = |request: ProcessRequest| {
        assert_eq!(request.program, "npx");
        assert_eq!(request.cwd.as_deref(), Some("/repo"));
        assert_eq!(request.timeout_secs, 60);
        request.args.join(" ")
    };
    let named = selector();
    let unnamed = unnamed();
    assert_eq!(line(gateway.ensure_session(&named)), format!("{json} sessions ensure --name backend"));
    assert_eq!(line(gateway.ensure_session(&unnamed)), format!("{json} sessions ensure"));
    assert_eq!(line(gateway.new_session(&named)), format!("{json} sessions new --name backend"));
    assert_eq!(line(gateway.close_session(&named)), format!("{json} sessions close backend"));
    assert_eq!(line(gateway.close_session(&unnamed)), format!("{json} sessions close"));
    assert_eq!(line(gateway.show_session(&named)), format!("{json} sessions show backend"));
    assert_eq!(line(gateway.history(&named, 3)), format!("{json} sessions history backend --limit 3"));
    assert_eq!(line(gateway.status(&named)), format!("{json} status -s backend"));
    assert_eq!(line(gateway.cancel(&unnamed)), format!("{json} cancel"));
    assert_eq!(line(gateway.prompt(&named, "go")), format!("{quiet} prompt -s backend go"));
    assert_eq!(line(gateway.exec(&named, "go")), format!("{quiet} exec go"));
    assert_eq!(line(gateway.set_mode(&named, "auto")), format!("{quiet} set-mode auto -s backend"));
    assert_eq!(line(gateway.set_model(&named, "m")), format!("{quiet} set model m -s backend"));
    assert_eq!(line(gateway.set_option(&unnamed, "k", "v")), format!("{quiet} set k v"));
    let list = gateway.list_sessions("gemini");
    assert_eq!(list.cwd.as_deref(), Some("."));
    assert_eq!(
        list.args.join(" "),
        "acpx@latest --approve-reads --cwd . --timeout 60 --ttl 7 --format json --json-strict gemini sessions list"
    );
}

#[test]
fn a_silent_diagnosis_is_not_told() {
    let mut runner = StubRunner::new(vec![output(3, " ", "\n"), output(0, "", " ")]);
    match cancel(&mut runner).unwrap_err() {
        BridgeError::ProcessFailed { command, exit_code, stdout, stderr } => {
            assert!(command.starts_with("acpx --approve-reads "));
            assert_eq!(exit_code, 3);
            assert_eq!(stdout, " ");
            assert_eq!(stderr, "\n");
        }
        other => panic!("another failure: {other:?}"),
    }
}

#[test]
fn silent_failures_of_quiet_calls_are_not_looked_into() {
    let mut runner = StubRunner::new(vec![output(1, "", "")]);
    let request = gateway().exec(&selector(), "x");
    assert!(runner.run_checked(request).is_err());
    assert_eq!(runner.requests.len(), 1);
}

#[test]
fn answers_that_are_no_json_are_invalid() {
    let mut runner = StubRunner::new(vec![output(0, " oops ", "")]);
    match cancel(&mut runner).unwrap_err() {
        BridgeError::InvalidOutput { context, message, raw_output } => {
            assert_eq!(context, "acpx json response");
            assert!(message.starts_with("expected value"));
            assert_eq!(raw_output, " oops ");
        }
        other => panic!("another failure: {other:?}"),
    }
}

#[test]
fn what_a_session_is_called_comes_from_its_closing() {
    let response = CloseSessionResponse {
        acpx_record_id: "r".to_string(),
        acpx_session_id: Some("s".to_string()),
        agent_session_id: None,
    };
    let summary = summary_from_close(response, Some("n".to_string()));
    assert_eq!(
        summary,
        SessionSummary {
            record_id: "r".to_string(),
            name: Some("n".to_string()),
            created: false,
            acp_session_id: Some("s".to_string()),
            agent_session_id: None,
        }
    );
}

#[test]
fn answers_that_say_little_are_completed() {
    let value: Value = serde_json::from_str(
        r#"{"acpxRecordId":"r","acpSessionId":"a","agentCommand":"codex","cwd":"/","createdAt":"1","lastUsedAt":"2"}"#,
    )
    .unwrap();
    let record = record_response(&value).into_record();
    assert!(!record.closed);
    assert_eq!(record.first_user_preview, None);
    assert_eq!(record.model, None);
    assert_eq!(record.cwd, "/");
    let value: Value = serde_json::from_str(r#"{"status":"idle"}"#).unwrap();
    assert_eq!(status_response(&value).into_status().agent_command, "unknown");
}

#[test]
fn the_first_thing_that_a_user_says_is_found() {
    let said = |text: &str| {
        let value: Value = serde_json::from_str(text).unwrap();
        let list: Vec<Json> = value.as_array().unwrap().iter().map(json).collect();
        extract_first_user_preview(&list)
    };
    assert_eq!(said("[]"), None);
    assert_eq!(said(r#"[{"User":{"content":"x"}},{"User":1},3,null,true]"#), None);
    assert_eq!(
        said(r#"[{"User":{"content":[{"Text":" "},{"Image":1},{"Text":7}]}},{"Agent":{"content":[{"Text":"no"}]}},{"User":{"content":[{"Other":1},{"Text":" yes "}]}}]"#),
        Some("yes".to_string())
    );
}

#[test]
fn blocks_are_joined_to_a_prompt() {
    let blocks = [
        MessageBlock::text(" read this "),
        MessageBlock::text("  "),
        document(BinarySource::Bytes("标题".as_bytes().to_vec()), None),
    ];
    assert_eq!(
        render_prompt_blocks(&blocks, vec![None, None, None]).unwrap(),
        "read this\n\n附加 markdown 文档 `README.md`：\n<markdown-document file_name=\"README.md\">\n标题\n</markdown-document>"
    );
}

#[test]
fn files_of_documents_are_read_when_their_text_is_not_at_hand() {
    let path = || BinarySource::LocalPath("/m/README.md".to_string());
    let block = document(path(), None);
    assert_eq!(file_to_read(&block).as_deref(), Some("/m/README.md"));
    assert_eq!(file_to_read(&document(path(), Some("x"))), None);
    assert_eq!(file_to_read(&document(BinarySource::Bytes(vec![]), None)), None);
    assert_eq!(file_to_read(&MessageBlock::text("x")), None);
    let prompt = render_prompt_blocks(&[block.clone()], vec![Some(Ok(b"hi".to_vec()))]).unwrap();
    assert!(prompt.contains("\">\nhi\n</"));
    match render_prompt_blocks(&[block], vec![Some(Err("gone".to_string()))]).unwrap_err() {
        BridgeError::Acpx(message) => {
            assert_eq!(message, "failed to read markdown document /m/README.md: gone");
        }
        other => panic!("another failure: {other:?}"),
    }
    assert_eq!(
        read_document_text(&path(), &Some("kept".to_string()), None).unwrap(),
        "kept"
    );
}

#[test]
fn blocks_that_are_no_prompt_are_refused_in_their_order() {
    let image = MessageBlock::Image {
        mime_type: "image/png".to_string(),
        source: BinarySource::Bytes(vec![1]),
        alt: None,
    };
    let other = MessageBlock::Document {
        mime_type: "application/pdf".to_string(),
        file_name: "a.pdf".to_string(),
        source: BinarySource::Bytes(vec![1]),
        extracted_text: None,
    };
    let refusal = |blocks: &[MessageBlock]| {
        let reads = blocks.iter().map(|_| None).collect();
        render_prompt_blocks(blocks, reads).unwrap_err().user_message()
    };
    assert_eq!(refusal(&[]), "消息内容为空。");
    assert_eq!(refusal(&[MessageBlock::text("\n")]), "消息内容为空。");
    assert!(refusal(&[image.clone(), other.clone()]).contains("还不支持图片块"));
    assert_eq!(
        refusal(&[MessageBlock::text("x"), other, image]),
        "当前 ACPX CLI 适配器只支持 markdown 文档，暂不支持附件 `a.pdf`。"
    );
}

#[test]
fn documents_have_to_be_texts() {
    assert_eq!(decode_document("é\u{10ffff}".as_bytes().to_vec()).unwrap(), "é\u{10ffff}");
    for bytes in [vec![0xff], vec![0xc0, 0x80], vec![0xed, 0xa0, 0x80], vec![0xf4, 0x90, 0x80, 0x80]] {
        let fault = String::from_utf8(bytes.clone()).unwrap_err().to_string();
        assert_eq!(
            decode_document(bytes).unwrap_err().user_message(),
            format!("markdown 文档不是有效的 UTF-8 文本：{fault}")
        );
    }
    assert_eq!(document_text(Ok("x".to_string())).unwrap(), "x");
}
