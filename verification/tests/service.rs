use feishu2acp::application::calls::{Answer, Call, PathKind};
use feishu2acp::application::command::{BotCommand, SessionCommand, UserRequest};
use feishu2acp::application::metrics::{
    average_ms, interaction_outcome, InteractionMetrics, InteractionSample,
};
use feishu2acp::application::outgoing::{blocks_preview, expand_reply_blocks};
use feishu2acp::application::service::{
    command_name, request_kind, BridgeService, ServiceDefaults,
};
use feishu2acp::domain::{
    AgentReply, BinarySource, ConversationBinding, ConversationKey, InboundMessage, MessageBlock,
    PermissionMode, ReplyTarget, SessionHistoryEntry, SessionRecord, SessionSelector,
    SessionStatus, SessionSummary, ShellOutput,
};
use feishu2acp::error::BridgeError;
use feishu2acp::platform::System;

/// Everything around the service: it answers calls and keeps track of them.
struct World {
    directories: Vec<String>,
    files: Vec<String>,
    binding: Option<ConversationBinding>,
    sent_texts: Vec<String>,
    sent_documents: Vec<String>,
    typing_reactions: Vec<String>,
    events: Vec<String>,
    typing_reaction_error: Option<String>,
    broken: Option<&'static str>,
    ensure_calls: Vec<SessionSelector>,
    prompt_calls: Vec<(SessionSelector, Vec<MessageBlock>)>,
    prompt_responses: Vec<AgentReply>,
    cancelled: bool,
}

impl World {
    fn new(directories: &[&str]) -> Self {
        World {
            directories: directories.iter().map(|path| path.to_string()).collect(),
            files: Vec::new(),
            binding: None,
            sent_texts: Vec::new(),
            sent_documents: Vec::new(),
            typing_reactions: Vec::new(),
            events: Vec::new(),
            typing_reaction_error: None,
            broken: None,
            ensure_calls: Vec::new(),
            prompt_calls: Vec::new(),
            prompt_responses: vec![AgentReply::from_text("answer")],
            cancelled: true,
        }
    }

    fn summary(record_id: &str, name: Option<String>, created: bool) -> Answer {
        Answer::Summary(SessionSummary {
            record_id: record_id.to_string(),
            name,
            created,
            acp_session_id: Some("acp-1".to_string()),
            agent_session_id: None,
        })
    }

    fn record(id: &str, agent: &str, cwd: &str, name: Option<String>) -> SessionRecord {
        SessionRecord {
            record_id: id.to_string(),
            acp_session_id: "acp-1".to_string(),
            agent_session_id: None,
            agent: agent.to_string(),
            cwd: cwd.to_string(),
            name,
            title: Some("Session title".to_string()),
            first_user_preview: Some("first prompt".to_string()),
            created_at: "2026".to_string(),
            last_used_at: "2026".to_string(),
            last_prompt_at: Some("2026".to_string()),
            closed: false,
            model: Some("gpt-5.4".to_string()),
            mode: Some("auto".to_string()),
        }
    }

    fn name(call: &Call) -> &'static str {
        match call {
            Call::LoadBinding(_) => "load",
            Call::EnsureSession(_) => "ensure",
            Call::Prompt { .. } => "prompt",
            Call::StoreBinding { .. } => "store",
            Call::SendMessage { .. } => "send",
            Call::Status(_) => "status",
            _ => "other",
        }
    }

    fn answer(&mut self, call: Call) -> Answer {
        if self.broken == Some(Self::name(&call)) {
            return Answer::Failed(BridgeError::Persistence("broken".to_string()));
        }
        match call {
            Call::ReactTyping(target) => {
                self.typing_reactions.push(target.reply_to_message_id.clone());
                self.events.push(format!("typing:{}", target.reply_to_message_id));
                match &self.typing_reaction_error {
                    Some(message) => Answer::Failed(BridgeError::Channel(message.clone())),
                    None => Answer::Done,
                }
            }
            Call::LoadBinding(_) => Answer::Binding(self.binding.clone()),
            Call::InspectPath(path) => Answer::Path(if self.directories.contains(&path) {
                PathKind::Directory
            } else if self.files.contains(&path) {
                PathKind::Other
            } else {
                PathKind::Missing
            }),
            Call::EnsureSession(selector) => {
                self.ensure_calls.push(selector);
                Self::summary("rec-1", Some("backend".to_string()), true)
            }
            Call::NewSession(selector) => Self::summary("rec-new", selector.session_name, true),
            Call::CloseSession(selector) => Self::summary("rec-close", selector.session_name, false),
            Call::ShowSession(selector) => Answer::Record(Self::record(
                "rec-show",
                &selector.agent,
                &selector.cwd,
                selector.session_name.clone(),
            )),
            Call::ListSessions(agent) => {
                Answer::Records(vec![Self::record("rec-list", &agent, "/repo", None)])
            }
            Call::History { limit, .. } => Answer::History(vec![SessionHistoryEntry {
                role: "assistant".to_string(),
                timestamp: limit.to_string(),
                text_preview: "done".to_string(),
            }]),
            Call::Status(selector) => Answer::Status(SessionStatus {
                status: "running".to_string(),
                session_id: Some("rec-status".to_string()),
                agent_command: selector.agent,
                pid: Some(123),
                model: Some("gpt-5.4".to_string()),
                mode: Some("auto".to_string()),
                uptime: Some("00:00:10".to_string()),
                last_prompt_time: Some("2026".to_string()),
                exit_code: None,
                signal: None,
                agent_session_id: None,
            }),
            Call::Prompt { selector, blocks } => {
                self.prompt_calls.push((selector, blocks));
                Answer::Reply(if self.prompt_responses.is_empty() {
                    AgentReply::from_text("answer")
                } else {
                    self.prompt_responses.remove(0)
                })
            }
            Call::Exec { .. } => Answer::Reply(AgentReply::from_text("one-shot")),
            Call::SetMode { .. } | Call::SetModel { .. } | Call::SetOption { .. } => Answer::Done,
            Call::Cancel(_) => Answer::Cancelled(self.cancelled),
            Call::Shell { cwd, command } => Answer::Shell(ShellOutput {
                command,
                cwd,
                exit_code: 0,
                stdout: "shell-ok".to_string(),
                stderr: String::new(),
            }),
            Call::StoreBinding { binding, .. } => {
                self.binding = Some(binding);
                Answer::Done
            }
            Call::SendMessage { blocks, .. } => {
                for block in blocks {
                    match block {
                        MessageBlock::Text { text } => {
                            self.events.push(format!("send-text:{text}"));
                            self.sent_texts.push(text);
                        }
                        MessageBlock::Document { file_name, .. } => {
                            self.events.push(format!("send-document:{file_name}"));
                            self.sent_documents.push(file_name);
                        }
                        MessageBlock::Image { .. } => self.events.push("send-image".to_string()),
                    }
                }
                Answer::Done
            }
        }
    }

    fn handle(
        &mut self,
        service: &mut BridgeService,
        message: InboundMessage,
    ) -> Result<(), BridgeError> {
        let mut interaction = service.handle_message(message);
        while let Some(call) = service.pending(&interaction) {
            let answer = self.answer(call);
            interaction = service.advance(interaction, answer);
        }
        service.finish(interaction, 1, 2, 3, 4).1
    }
}

fn service_with_prefix(workspace: &str, command_prefix: &str) -> BridgeService {
    BridgeService::new(ServiceDefaults {
        system: System::current(),
        command_prefix: command_prefix.to_string(),
        default_workspace: workspace.to_string(),
        default_agent: "codex".to_string(),
        default_permission_mode: PermissionMode::ApproveReads,
        reply_chunk_chars: 10_000,
    })
}

fn service(workspace: &str) -> BridgeService {
    service_with_prefix(workspace, "/command")
}

fn binding_for(workspace: &str) -> ConversationBinding {
    ConversationBinding {
        cwd: workspace.to_string(),
        agent: "codex".to_string(),
        session_name: None,
        permission_mode: PermissionMode::ApproveReads,
    }
}

fn inbound_blocks(blocks: Vec<MessageBlock>) -> InboundMessage {
    InboundMessage {
        conversation: ConversationKey {
            tenant_key: "tenant".to_string(),
            chat_id: "chat".to_string(),
            user_open_id: "user".to_string(),
            thread_id: None,
        },
        reply_target: ReplyTarget {
            chat_id: "chat".to_string(),
            reply_to_message_id: "msg".to_string(),
        },
        blocks,
    }
}

fn inbound(text: &str) -> InboundMessage {
    inbound_blocks(vec![MessageBlock::text(text)])
}

fn inbound_markdown(file_name: &str, text: &str) -> InboundMessage {
    inbound_blocks(vec![MessageBlock::Document {
        mime_type: "text/markdown".to_string(),
        file_name: file_name.to_string(),
        source: BinarySource::Bytes(text.as_bytes().to_vec()),
        extracted_text: Some(text.to_string()),
    }])
}

#[test]
fn prompt_flow_ensures_session_and_replies() {
    let mut world = World::new(&["/work"]);
    let mut service = service("/work");

    world.handle(&mut service, inbound("分析仓库")).unwrap();

    assert_eq!(world.ensure_calls.len(), 1);
    assert_eq!(world.sent_texts, ["answer"]);
    assert_eq!(world.typing_reactions, ["msg"]);
    assert_eq!(world.events, ["typing:msg", "send-text:answer"]);
    let metrics = service.metrics.snapshot();
    assert_eq!(metrics.interactions_total, 1);
    assert_eq!(metrics.successful_interactions_total, 1);
    assert_eq!(metrics.process_errors_total, 0);
    assert_eq!(metrics.reply_errors_total, 0);
    assert_eq!(metrics.typing_reaction_errors_total, 0);
}

#[test]
fn cd_command_updates_persisted_binding() {
    let mut world = World::new(&["/work", "/work/repo"]);
    let mut service = service("/work");

    world.handle(&mut service, inbound("/command cd /work/repo")).unwrap();

    let stored = world.binding.clone().unwrap();
    assert_eq!(stored.cwd, "/work/repo");
    assert!(world.sent_texts[0].contains("当前上下文"));
}

#[test]
fn session_commands_update_current_session_name() {
    let mut world = World::new(&["/work"]);
    let mut service = service("/work");

    world.handle(&mut service, inbound("/command session new backend")).unwrap();
    assert_eq!(world.binding.clone().unwrap().session_name, Some("backend".to_string()));

    world.handle(&mut service, inbound("/command session close backend")).unwrap();
    assert_eq!(world.binding.clone().unwrap().session_name, None);
}

#[test]
fn shell_and_status_commands_render_outputs() {
    let mut world = World::new(&["/work"]);
    let mut service = service("/work");

    world.handle(&mut service, inbound("/command shell git status")).unwrap();
    world.handle(&mut service, inbound("/command status")).unwrap();

    assert!(world.sent_texts.iter().any(|message| message.contains("shell result")));
    assert!(world.sent_texts.iter().any(|message| message.contains("status")));
}

#[test]
fn typing_reaction_failure_does_not_block_reply_and_is_counted() {
    let mut world = World::new(&["/work"]);
    world.typing_reaction_error = Some("boom".to_string());
    let mut service = service("/work");

    world.handle(&mut service, inbound("分析仓库")).unwrap();

    assert_eq!(world.sent_texts, ["answer"]);
    assert_eq!(world.events, ["typing:msg", "send-text:answer"]);
    let metrics = service.metrics.snapshot();
    assert_eq!(metrics.interactions_total, 1);
    assert_eq!(metrics.successful_interactions_total, 1);
    assert_eq!(metrics.typing_reaction_errors_total, 1);
    assert_eq!(metrics.reply_errors_total, 0);
}

#[test]
fn slash_cd_then_pwd_and_prompt_use_updated_workspace() {
    let mut world = World::new(&["/dir/initial", "/dir/target"]);
    world.binding = Some(binding_for("/dir/initial"));
    world.prompt_responses = vec![AgentReply::from_text("cwd-ok")];
    let mut service = service_with_prefix("/dir/initial", "/");

    world.handle(&mut service, inbound("/cd /dir/target")).unwrap();
    world.handle(&mut service, inbound("/pwd")).unwrap();
    world.handle(&mut service, inbound("继续处理")).unwrap();

    let sent = &world.sent_texts;
    assert!(sent[0].contains("cwd: /dir/target"));
    assert!(sent[1].contains("cwd: /dir/target"));
    assert_eq!(sent[2], "cwd-ok");

    assert_eq!(world.ensure_calls.len(), 1);
    assert_eq!(world.ensure_calls[0].cwd, "/dir/target");

    assert_eq!(world.prompt_calls.len(), 1);
    assert_eq!(world.prompt_calls[0].0.cwd, "/dir/target");
    assert_eq!(world.prompt_calls[0].1, vec![MessageBlock::text("继续处理")]);
}

#[test]
fn slash_cd_to_missing_directory_returns_error_without_mutating_workspace() {
    let mut world = World::new(&["/dir/workspace"]);
    world.binding = Some(binding_for("/dir/workspace"));
    let mut service = service_with_prefix("/dir/workspace", "/");

    world.handle(&mut service, inbound("/cd /dir/workspace/does-not-exist")).unwrap();

    assert_eq!(world.sent_texts.len(), 1);
    assert!(world.sent_texts[0].contains("目录不存在：/dir/workspace/does-not-exist"));
    assert_eq!(world.binding.clone().unwrap().cwd, "/dir/workspace");
    assert!(world.ensure_calls.is_empty());
    assert!(world.prompt_calls.is_empty());
    let metrics = service.metrics.snapshot();
    assert_eq!(metrics.interactions_total, 1);
    assert_eq!(metrics.process_errors_total, 1);
    assert_eq!(metrics.successful_interactions_total, 0);
}

#[test]
fn slash_cd_rejects_control_characters_without_mutating_workspace() {
    let mut world = World::new(&["/dir/workspace"]);
    world.binding = Some(binding_for("/dir/workspace"));
    let mut service = service_with_prefix("/dir/workspace", "/");

    world.handle(&mut service, inbound("/cd /tmp/test\u{001b}[31m")).unwrap();

    assert_eq!(world.sent_texts, ["输入包含非法控制字符，请移除后重试。"]);
    assert_eq!(world.binding.clone().unwrap().cwd, "/dir/workspace");
    assert!(world.ensure_calls.is_empty());
    assert!(world.prompt_calls.is_empty());
    let metrics = service.metrics.snapshot();
    assert_eq!(metrics.interactions_total, 1);
    assert_eq!(metrics.process_errors_total, 1);
    assert_eq!(metrics.successful_interactions_total, 0);
}

#[test]
fn markdown_document_messages_are_forwarded_as_prompt_blocks() {
    let mut world = World::new(&["/work"]);
    world.prompt_responses = vec![AgentReply::from_text("文档已读取")];
    let mut service = service("/work");

    world
        .handle(&mut service, inbound_markdown("README.md", "# Title\n\ncontent"))
        .unwrap();

    assert_eq!(world.prompt_calls.len(), 1);
    assert_eq!(
        world.prompt_calls[0].1,
        vec![MessageBlock::Document {
            mime_type: "text/markdown".to_string(),
            file_name: "README.md".to_string(),
            source: BinarySource::Bytes(b"# Title\n\ncontent".to_vec()),
            extracted_text: Some("# Title\n\ncontent".to_string()),
        }]
    );
    assert_eq!(world.sent_texts, ["文档已读取"]);
}

#[test]
fn markdown_document_replies_are_sent_as_files() {
    let mut world = World::new(&["/work"]);
    world.prompt_responses = vec![AgentReply {
        blocks: vec![MessageBlock::Document {
            mime_type: "text/markdown".to_string(),
            file_name: "plan.md".to_string(),
            source: BinarySource::Bytes(b"# Plan".to_vec()),
            extracted_text: Some("# Plan".to_string()),
        }],
    }];
    let mut service = service("/work");

    world.handle(&mut service, inbound("生成 markdown")).unwrap();

    assert_eq!(world.sent_documents, ["plan.md"]);
}

fn reply_to(text: &str) -> (String, World) {
    let mut world = World::new(&["/work"]);
    let mut service = service_with_prefix("/work", "/");
    world.handle(&mut service, inbound(text)).unwrap();
    (world.sent_texts.join("\u{0}"), world)
}

#[test]
fn every_command_has_its_reply() {
    assert!(reply_to("/").0.starts_with("可用命令：\n/ pwd\n"));
    assert!(reply_to("/agent gemini").0.contains("\nagent: gemini\n"));
    assert!(reply_to("/permissions deny-all").0.ends_with("permissions: deny-all"));
    assert_eq!(reply_to("/mode auto").0, "mode 已设置为 auto");
    assert_eq!(reply_to("/model m").0, "model 已设置为 m");
    assert_eq!(reply_to("/set k some v").0, "已设置 k=some v");
    assert_eq!(reply_to("/prompt go").0, "answer");
    assert_eq!(reply_to("/exec go").0, "one-shot");
    assert_eq!(reply_to("/cancel").0, "已请求取消当前任务。");
    assert_eq!(
        reply_to("/session use docs").0,
        "session 不存在，已创建\nrecord: rec-1\nsession: backend"
    );
    assert_eq!(reply_to("/session new x").0, "已创建新 session\nrecord: rec-new\nsession: x");
    assert_eq!(reply_to("/session close x").0, "已关闭 session\nrecord: rec-close\nsession: x");
    assert!(reply_to("/session show x").0.contains("\nname: x\n"));
    assert!(reply_to("/session list").0.starts_with("sessions\n- default | rec-list | /repo"));
    assert_eq!(reply_to("/session history 4").0, "session history\n4 | assistant | done");
    assert_eq!(reply_to("/nope").0, "命令解析失败：未知命令：nope，请使用 /help");
}

#[test]
fn commands_that_set_something_make_sure_of_the_session() {
    assert_eq!(reply_to("/mode auto").1.ensure_calls.len(), 1);
    assert_eq!(reply_to("/model m").1.ensure_calls.len(), 1);
    assert_eq!(reply_to("/set k v").1.ensure_calls.len(), 1);
    assert_eq!(reply_to("/exec go").1.ensure_calls.len(), 0);
    assert_eq!(reply_to("/status").1.ensure_calls.len(), 0);
}

#[test]
fn looking_changes_nothing() {
    for text in ["/pwd", "/status", "/session list", "/session show x", "/session history", "/set a b"] {
        let mut world = World::new(&["/work"]);
        world.binding = Some(ConversationBinding {
            session_name: Some("docs".to_string()),
            ..binding_for("/work")
        });
        let before = world.binding.clone();
        let mut service = service_with_prefix("/work", "/");
        world.handle(&mut service, inbound(text)).unwrap();
        assert_eq!(world.binding, before, "{text}");
    }
}

#[test]
fn nothing_to_cancel_is_told() {
    let mut world = World::new(&["/work"]);
    world.cancelled = false;
    let mut service = service_with_prefix("/work", "/");
    world.handle(&mut service, inbound("/cancel")).unwrap();
    assert_eq!(world.sent_texts, ["当前没有正在执行的任务。"]);
}

#[test]
fn closing_another_session_keeps_the_current_one() {
    let mut world = World::new(&["/work"]);
    let mut service = service_with_prefix("/work", "/");
    world.handle(&mut service, inbound("/session use docs")).unwrap();
    world.handle(&mut service, inbound("/session close other")).unwrap();
    assert_eq!(world.binding.clone().unwrap().session_name, Some("docs".to_string()));
}

#[test]
fn a_lost_workspace_falls_back_to_the_default() {
    let mut world = World::new(&["/work"]);
    world.files.push("/file".to_string());
    for lost in ["/gone", "/file"] {
        world.binding = Some(binding_for(lost));
        let mut service = service_with_prefix("/work", "/");
        world.handle(&mut service, inbound("go")).unwrap();
        assert_eq!(world.prompt_calls.last().unwrap().0.cwd, "/work");
        assert_eq!(world.binding.clone().unwrap().cwd, "/work");
    }
}

#[test]
fn a_file_is_no_workspace() {
    let mut world = World::new(&["/work"]);
    world.files.push("/work/file".to_string());
    let mut service = service_with_prefix("/work", "/");
    world.handle(&mut service, inbound("/cd file")).unwrap();
    assert_eq!(world.sent_texts, ["目标不是目录：/work/file"]);
    assert_eq!(world.binding, None);
}

#[test]
fn failures_are_told_and_nothing_is_stored() {
    for broken in ["load", "ensure", "prompt", "store"] {
        let mut world = World::new(&["/work"]);
        world.broken = Some(broken);
        let mut service = service_with_prefix("/work", "/");
        world.handle(&mut service, inbound("go")).unwrap();
        assert_eq!(world.sent_texts, ["broken"], "{broken}");
        assert_eq!(world.binding, None);
        assert_eq!(service.metrics.snapshot().process_errors_total, 1);
    }
}

#[test]
fn a_reply_that_cannot_be_sent_is_the_outcome() {
    let mut world = World::new(&["/work"]);
    world.broken = Some("send");
    let mut service = service_with_prefix("/work", "/");
    let error = world.handle(&mut service, inbound("go")).unwrap_err();
    assert_eq!(error.user_message(), "broken");
    assert!(world.binding.is_some());
    let metrics = service.metrics.snapshot();
    assert_eq!(metrics.reply_errors_total, 1);
    assert_eq!(metrics.process_errors_total, 0);
    assert_eq!(metrics.successful_interactions_total, 0);
    assert_eq!(metrics.typing_reaction_ms_total, 1);
    assert_eq!(metrics.processing_ms_total, 2);
    assert_eq!(metrics.reply_ms_total, 3);
    assert_eq!(metrics.total_ms_total, 4);
    assert_eq!(metrics.max_total_ms, 4);
}

#[test]
fn the_first_text_decides() {
    let mut world = World::new(&["/work"]);
    let mut service = service_with_prefix("/work", "/");
    let document = inbound_markdown("a.md", "x").blocks.remove(0);
    let blocks = vec![document, MessageBlock::text("/pwd"), MessageBlock::text("go")];
    world.handle(&mut service, inbound_blocks(blocks)).unwrap();
    assert!(world.sent_texts[0].starts_with("当前上下文"));
    assert!(world.prompt_calls.is_empty());
}

#[test]
fn empty_replies_are_told() {
    let blocks = expand_reply_blocks(&[MessageBlock::text(" \n")], 10);
    assert_eq!(blocks, vec![MessageBlock::text("Codex 已完成，但没有返回可显示的内容。")]);
}

#[test]
fn long_replies_are_sent_in_labelled_chunks() {
    let image = MessageBlock::Image {
        mime_type: "image/png".to_string(),
        source: BinarySource::LocalPath("/x".to_string()),
        alt: None,
    };
    let blocks = expand_reply_blocks(&[MessageBlock::text(" ab\ncd "), image.clone()], 3);
    assert_eq!(
        blocks,
        vec![MessageBlock::text("[1/2]\nab"), MessageBlock::text("[2/2]\ncd"), image]
    );
    assert_eq!(
        expand_reply_blocks(&[MessageBlock::text("ab\ncd")], 0),
        vec![MessageBlock::text("ab\ncd")]
    );
}

#[test]
fn blocks_are_previewed_on_one_line() {
    let mut blocks = vec![MessageBlock::text("a\nb")];
    blocks.extend(inbound_markdown("x.md", "y").blocks);
    blocks.push(MessageBlock::Image {
        mime_type: "image/png".to_string(),
        source: BinarySource::Bytes(vec![]),
        alt: None,
    });
    assert_eq!(blocks_preview(&blocks, 100), "text:a\\nb | document:x.md | image:image/png");
    assert_eq!(blocks_preview(&blocks, 4), "text...");
}

#[test]
fn requests_are_named() {
    assert_eq!(request_kind(None), "prompt");
    assert_eq!(request_kind(Some(&UserRequest::Prompt("x".to_string()))), "prompt");
    assert_eq!(request_kind(Some(&UserRequest::Command(BotCommand::Status))), "status");
    assert_eq!(command_name(&BotCommand::ChangeDirectory("x".to_string())), "cd");
    assert_eq!(command_name(&BotCommand::Prompt("x".to_string())), "prompt-command");
    assert_eq!(
        command_name(&BotCommand::Session(SessionCommand::History(1))),
        "session-history"
    );
    let option = BotCommand::Option { key: "k".to_string(), value: "v".to_string() };
    assert_eq!(command_name(&option), "set");
}

#[test]
fn outcomes_are_named_and_times_averaged() {
    assert_eq!(interaction_outcome(true, true), "ok");
    assert_eq!(interaction_outcome(false, true), "handled-error");
    assert_eq!(interaction_outcome(true, false), "reply-failed");
    assert_eq!(interaction_outcome(false, false), "reply-failed-after-error");
    assert_eq!(average_ms(7, 2), 3);
    assert_eq!(average_ms(7, 0), 0);
}

#[test]
fn totals_start_again_when_they_are_full() {
    let mut metrics = InteractionMetrics::new();
    metrics.total_ms_total = u64::MAX;
    let snapshot = metrics.record(InteractionSample {
        typing_reaction_ok: true,
        process_ok: false,
        reply_ok: false,
        typing_reaction_ms: 0,
        processing_ms: 0,
        reply_ms: 0,
        total_ms: 3,
    });
    assert_eq!(snapshot.total_ms_total, 2);
    assert_eq!(snapshot.max_total_ms, 3);
    assert_eq!(snapshot.process_errors_total, 1);
    assert_eq!(snapshot.reply_errors_total, 1);
    assert_eq!(snapshot.successful_interactions_total, 0);
}
