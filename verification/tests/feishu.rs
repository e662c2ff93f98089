use feishu2acp::adapters::feishu::{
    event_kind, normalize_inbound_text, reply_target_for_event, requested_file,
    store_markdown_document, translate_file_event, translate_inbound_event, DocumentStored,
    EventKind, FilePayload, InboundEvent, MarkdownSettings, Mention, TextPayload, Translated,
};
use feishu2acp::adapters::feishu_out::{
    answer_body, answer_text, build_chat_send_request, build_reply_request, document_message,
    file_message_content, is_json, text_message, text_message_content, turned_away, BlockDelivery, Delivery, Exchange, FeishuChannelClient,
    FeishuDataResponse, FeishuLongConnectionRuntime, FeishuMediaHttpClient, HttpReply,
};
use feishu2acp::config::FeishuConfig;
use feishu2acp::domain::{BinarySource, InboundMessage, MessageBlock, ReplyTarget};
use feishu2acp::error::BridgeError;
use feishu2acp::platform::System;
use feishu2acp::markdown::{
    is_markdown_file_name, is_markdown_file_type, is_markdown_mime, markdown_file_type,
    markdown_transport_file_name, normalize_markdown_file_name, resolve_markdown_file_name,
    sanitize_file_name, validate_markdown_bytes,
};
use serde_json::Value;

fn feishu_config() -> FeishuConfig {
    FeishuConfig {
        app_id: String::new(),
        app_secret: String::new(),
        nickname: None,
        typing_reaction_emoji: None,
        media_dir: "/media".to_string(),
        max_markdown_bytes: 1024 * 1024,
        enable_markdown_input: true,
        enable_markdown_output: true,
    }
}

fn markdown_settings() -> MarkdownSettings {
    MarkdownSettings::from(&feishu_config())
}

fn event(message_id: &str, chat_type: &str, message_type: &str, content: &str) -> InboundEvent {
    InboundEvent {
        sender_type: "user".to_string(),
        tenant_key: "tenant".to_string(),
        open_id: "open".to_string(),
        message_id: message_id.to_string(),
        chat_id: "chat".to_string(),
        chat_type: chat_type.to_string(),
        thread_id: None,
        message_type: message_type.to_string(),
        content: content.to_string(),
        mentions: None,
    }
}

fn translated(nickname: Option<&str>, event: &InboundEvent) -> Result<Translated, BridgeError> {
    let parsed = serde_json::from_str::<Value>(&event.content).map_err(|error| error.to_string());
    let field = |value: &Value, name: &str| {
        value.get(name).and_then(Value::as_str).map(str::to_string)
    };
    let text = parsed.clone().map(|value| TextPayload { text: field(&value, "text") });
    let file = parsed.map(|value| FilePayload {
        file_key: field(&value, "file_key"),
        file_name: field(&value, "file_name"),
        file_type: field(&value, "file_type"),
        file_size: None,
    });
    let nickname = nickname.map(str::to_string);
    translate_inbound_event(&markdown_settings(), event, &nickname, text, &file)
}

fn heard(
    nickname: Option<&str>,
    event: &InboundEvent,
) -> Result<Option<InboundMessage>, BridgeError> {
    match translated(nickname, event)? {
        Translated::Nothing => Ok(None),
        Translated::Message(message) => Ok(Some(message)),
        Translated::Fetch(key) => panic!("a file: {key}"),
    }
}

#[test]
fn translate_text_message_event() {
    let event = event("msg", "p2p", "text", "{\"text\":\"hello\"}");
    let translated = heard(None, &event).unwrap().unwrap();
    assert_eq!(translated.blocks, vec![MessageBlock::text("hello".to_string())]);
    assert_eq!(translated.reply_target.reply_to_message_id, "msg");
    assert_eq!(translated.reply_target.chat_id, "chat");
    assert_eq!(translated.conversation.storage_key(), "tenant::chat::open::-");
}

#[test]
fn translate_group_message_strips_configured_nickname_prefix() {
    let mut event = event("msg-group", "group", "text", "{\"text\":\"@藤田琴音 /pwd\"}");
    event.mentions = Some(Vec::new());
    let translated = heard(Some("藤田琴音"), &event).unwrap().unwrap();
    assert_eq!(translated.blocks, vec![MessageBlock::text("/pwd")]);
}

#[test]
fn translate_group_message_ignores_text_without_required_nickname_prefix() {
    let event = event("msg-group-plain", "group", "text", "{\"text\":\"/pwd\"}");
    let translated = heard(Some("藤田琴音"), &event).unwrap();
    assert!(translated.is_none());
}

#[test]
fn translate_group_message_accepts_first_mention_tag_for_configured_nickname() {
    let mut event = event(
        "msg-group-at-tag",
        "group",
        "text",
        "{\"text\":\"<at user_id=\\\"ou_bot\\\"></at> /pwd\"}",
    );
    event.mentions = Some(vec![Mention {
        key: "@_user_1".to_string(),
        name: "藤田琴音".to_string(),
    }]);
    let translated = heard(Some("藤田琴音"), &event).unwrap().unwrap();
    assert_eq!(translated.blocks, vec![MessageBlock::text("/pwd")]);
}

#[test]
fn ignores_non_text_messages() {
    let event = event("msg", "p2p", "image", "{}");
    assert!(heard(None, &event).unwrap().is_none());
}

#[test]
fn reply_request_serializes_text_into_request_body() {
    let request = build_reply_request("text", text_message_content("hello"));
    assert_eq!(request.msg_type, "text");
    assert_eq!(request.content, text_message_content("hello"));
    assert!(request.receive_id_type.is_none());
    assert!(request.receive_id.is_empty());
}

#[test]
fn fallback_chat_send_request_keeps_chat_target_and_body() {
    let request = build_chat_send_request(
        &ReplyTarget {
            chat_id: "chat-123".to_string(),
            reply_to_message_id: "msg-123".to_string(),
        },
        "text",
        text_message_content("world"),
    );
    assert_eq!(request.receive_id_type, Some("chat_id".to_string()));
    assert_eq!(request.receive_id, "chat-123");
    assert_eq!(request.msg_type, "text");
    assert_eq!(request.content, text_message_content("world"));
}

#[test]
fn reply_request_supports_file_payloads() {
    let request = build_reply_request("file", file_message_content("file-123"));
    assert_eq!(request.msg_type, "file");
    assert_eq!(request.content, file_message_content("file-123"));
}

#[test]
fn markdown_helpers_sanitize_and_validate_names() {
    assert!(is_markdown_file_name("README.md"));
    assert!(is_markdown_file_name("guide.markdown"));
    assert!(is_markdown_file_name("guide.md.txt"));
    assert_eq!(sanitize_file_name("design doc.md"), "design_doc.md");
    assert_eq!(normalize_markdown_file_name("guide.md.txt"), "guide.md");
    assert_eq!(markdown_transport_file_name("guide.md"), "guide.md.txt");
}

#[test]
fn contents_are_json() {
    assert_eq!(text_message_content("hello"), "{\"text\":\"hello\"}");
    assert_eq!(file_message_content("k"), "{\"file_key\":\"k\"}");
    assert_eq!(
        text_message_content("\"\\\u{8}\t\n\u{c}\r\u{0}\u{1f}\u{7f}/分"),
        "{\"text\":\"\\\"\\\\\\b\\t\\n\\f\\r\\u0000\\u001f\u{7f}/分\"}"
    );
    let all: String = (0..0x250_u32).filter_map(char::from_u32).collect();
    let read: Value = serde_json::from_str(&text_message_content(&all)).unwrap();
    assert_eq!(read["text"], Value::String(all));
}

#[test]
fn only_users_are_heard() {
    let mut bot = event("m", "p2p", "text", "{\"text\":\"x\"}");
    bot.sender_type = "app".to_string();
    assert_eq!(event_kind(&bot), EventKind::Ignored);
    assert_eq!(event_kind(&event("m", "p2p", "file", "{}")), EventKind::File);
}

#[test]
fn contents_that_cannot_be_read_are_told() {
    let error = heard(None, &event("m", "p2p", "text", "{")).unwrap_err();
    assert!(error.user_message().starts_with("failed to parse feishu message content: EOF"));
    let nothing = event("m", "p2p", "text", "{}");
    assert!(heard(None, &nothing).unwrap().is_none());
}

#[test]
fn names_have_to_be_followed_by_white_space_and_words() {
    let mut group = event("m", "group", "text", "");
    let bot = Some(" Bot ".to_string());
    let heard = |event: &InboundEvent, text: &str| normalize_inbound_text(event, text, &bot);
    assert_eq!(heard(&group, "@Bot \t hi "), Some("hi".to_string()));
    assert_eq!(heard(&group, "@Bothi"), None);
    assert_eq!(heard(&group, "@Bot "), None);
    assert_eq!(heard(&group, "hi @Bot"), None);
    group.mentions = Some(vec![Mention { key: "@_user_1".to_string(), name: " Bot".to_string() }]);
    assert_eq!(heard(&group, "@_user_1\nhi"), Some("hi".to_string()));
    assert_eq!(heard(&group, "<at a=\"1\">Bot</at> hi"), Some("hi".to_string()));
    assert_eq!(heard(&group, "<at a=\"1\">Bot</at>hi"), None);
    assert_eq!(heard(&group, "<at a hi"), None);
    assert_eq!(heard(&group, "hi"), None);
    group.mentions = Some(vec![Mention { key: "@_user_1".to_string(), name: "Else".to_string() }]);
    assert_eq!(heard(&group, "@_user_1 hi"), None);
    assert_eq!(normalize_inbound_text(&group, " hi ", &Some("  ".to_string())), Some("hi".to_string()));
    assert_eq!(normalize_inbound_text(&group, " hi ", &None), Some("hi".to_string()));
    let private = event("m", "p2p", "text", "");
    assert_eq!(heard(&private, " hi "), Some("hi".to_string()));
    assert_eq!(heard(&private, " \n"), None);
}

fn payload(name: Option<&str>, kind: Option<&str>, size: Option<usize>) -> FilePayload {
    FilePayload {
        file_key: Some("key".to_string()),
        file_name: name.map(str::to_string),
        file_type: kind.map(str::to_string),
        file_size: size,
    }
}

fn rejection(result: Result<impl std::fmt::Debug, BridgeError>) -> String {
    match result.unwrap_err() {
        BridgeError::InputRejected(message) => message,
        other => panic!("another failure: {other:?}"),
    }
}

fn channel_failure(result: Result<impl std::fmt::Debug, BridgeError>) -> String {
    match result.unwrap_err() {
        BridgeError::Channel(message) => message,
        other => panic!("another failure: {other:?}"),
    }
}

#[test]
fn files_are_fetched_if_they_are_wanted() {
    let mut settings = markdown_settings();
    let limit = settings.max_markdown_bytes;
    assert_eq!(requested_file(&settings, &Ok(payload(None, None, Some(limit)))).unwrap(), "key");
    assert_eq!(
        rejection(requested_file(&settings, &Ok(payload(None, None, Some(limit + 1))))),
        "markdown 文档过大，已超过 1024 KB 限制。"
    );
    let keyless = FilePayload { file_key: None, ..payload(None, None, Some(limit + 1)) };
    assert_eq!(
        channel_failure(requested_file(&settings, &Ok(keyless))),
        "feishu file payload missing file_key"
    );
    assert_eq!(
        channel_failure(requested_file(&settings, &Err("why".to_string()))),
        "failed to parse feishu file content: why"
    );
    settings.enable_markdown_input = false;
    assert_eq!(
        rejection(requested_file(&settings, &Err("why".to_string()))),
        "当前机器人未启用 markdown 文件输入。"
    );
}

#[test]
fn files_become_documents() {
    let settings = markdown_settings();
    let event = event("om/1", "p2p", "file", "");
    let file = payload(Some("设计 doc.md.txt"), None, None);
    let document =
        translate_file_event(System::current(), &settings, &event, &file, "标题".as_bytes().to_vec()).unwrap();
    assert_eq!(document.file_name, "doc.md");
    assert_eq!(document.directory, "/media/inbound");
    assert_eq!(document.path, "/media/inbound/om_1-doc.md");
    assert_eq!(document.bytes, "标题".as_bytes());
    let message = store_markdown_document(&event, document, DocumentStored::Done).unwrap();
    assert_eq!(message.reply_target, reply_target_for_event(&event));
    assert_eq!(
        message.blocks,
        vec![MessageBlock::Document {
            mime_type: "text/markdown".to_string(),
            file_name: "doc.md".to_string(),
            source: BinarySource::LocalPath("/media/inbound/om_1-doc.md".to_string()),
            extracted_text: Some("标题".to_string()),
        }]
    );
}

#[test]
fn files_that_are_no_documents_are_rejected() {
    let mut settings = markdown_settings();
    settings.max_markdown_bytes = 2048;
    let event = event("m", "p2p", "file", "");
    let taken = |name: Option<&str>, kind: Option<&str>, bytes: Vec<u8>| {
        translate_file_event(System::current(), &settings, &event, &payload(name, kind, None), bytes)
    };
    assert_eq!(
        rejection(taken(Some("a.pdf"), None, vec![])),
        "当前只支持 .md / .markdown 文件，收到 `a.pdf`。"
    );
    assert_eq!(rejection(taken(None, Some("pdf"), vec![])), "当前只支持 markdown 文件输入。");
    assert_eq!(
        rejection(taken(Some("a.md"), None, vec![b'x'; 2049])),
        "markdown 文档 `a.md` 过大，已超过 2 KB 限制。"
    );
    assert_eq!(
        rejection(taken(Some("a.md"), None, vec![b'x', 0])),
        "markdown 文档 `a.md` 看起来不是纯文本文件。"
    );
    assert!(rejection(taken(Some("a.md"), None, vec![0xff]))
        .starts_with("markdown 文档不是有效的 UTF-8 文本：invalid utf-8"));
    let kept = || taken(Some("a.md"), None, vec![b'x']).unwrap();
    assert_eq!(
        channel_failure(store_markdown_document(&event, kept(), DocumentStored::NoDirectory("w".to_string()))),
        "failed to create feishu media directory /media/inbound: w"
    );
    assert_eq!(
        channel_failure(store_markdown_document(&event, kept(), DocumentStored::NotWritten("w".to_string()))),
        "failed to store markdown document /media/inbound/m-a.md: w"
    );
}

#[test]
fn names_of_documents_are_resolved() {
    let resolved = |name: Option<&str>, kind: Option<&str>| {
        resolve_markdown_file_name("om_1", &name.map(str::to_string), &kind.map(str::to_string))
    };
    assert_eq!(resolved(Some("A.MD"), None).unwrap(), "A.MD");
    assert_eq!(resolved(Some("a.markdown.txt"), Some("pdf")).unwrap(), "a.markdown");
    assert_eq!(resolved(Some("notes"), Some(" Markdown ")).unwrap(), "notes.md");
    assert_eq!(resolved(Some("a.md "), Some("md")).unwrap(), "a.md");
    assert_eq!(resolved(None, None).unwrap(), "om_1.md");
    assert_eq!(resolved(None, Some("text/x-markdown")).unwrap(), "om_1.md");
    assert!(resolved(Some("notes"), None).is_err());
}

#[test]
fn markdown_is_known_by_type_and_ending() {
    assert!(is_markdown_mime(" TEXT/Markdown"));
    assert!(is_markdown_mime("text/x-markdown"));
    assert!(!is_markdown_mime("text/plain"));
    assert!(is_markdown_file_type(&Some("md".to_string())));
    assert!(!is_markdown_file_type(&None));
    assert!(!is_markdown_file_name("md"));
    assert_eq!(markdown_file_type(), "stream");
    assert!(validate_markdown_bytes("a", b"abc", 3).is_ok());
}

#[test]
fn names_travel_and_arrive() {
    assert_eq!(markdown_transport_file_name("a.MARKDOWN"), "a.MARKDOWN.txt");
    assert_eq!(markdown_transport_file_name("a.Md.Txt"), "a.Md.Txt");
    assert_eq!(markdown_transport_file_name("a.txt"), "a.txt");
    assert_eq!(markdown_transport_file_name("a"), "a.md.txt");
    assert_eq!(normalize_markdown_file_name("a.txt"), "a.txt");
    for name in ["a.md", "计划.Markdown", ".md"] {
        assert_eq!(normalize_markdown_file_name(&markdown_transport_file_name(name)), name);
    }
    let sent = Some(markdown_transport_file_name("plan-1.md"));
    assert_eq!(resolve_markdown_file_name("m", &sent, &None).unwrap(), "plan-1.md");
}

#[test]
fn kept_names_are_safe() {
    assert_eq!(sanitize_file_name("../../etc/passwd"), ".._.._etc_passwd");
    assert_eq!(sanitize_file_name("__"), "document.md");
    assert_eq!(sanitize_file_name(""), "document.md");
    assert_eq!(sanitize_file_name("_a_b_"), "a_b");
    assert_eq!(sanitize_file_name(&sanitize_file_name("é a é")), "a");
}

fn target() -> ReplyTarget {
    ReplyTarget { chat_id: "c".to_string(), reply_to_message_id: "m".to_string() }
}

#[test]
fn a_reply_that_fails_goes_to_the_chat() {
    let delivery = Delivery {
        target: target(),
        msg_type: "text".to_string(),
        content: "{}".to_string(),
    };
    assert_eq!(delivery.reply(), build_reply_request("text", "{}".to_string()));
    assert!(delivery.send_with_fallback(true).is_none());
    assert_eq!(
        delivery.send_with_fallback(false),
        Some(build_chat_send_request(&target(), "text", "{}".to_string()))
    );
    assert!(Delivery::delivered(Ok(())).is_ok());
    assert_eq!(
        channel_failure(Delivery::delivered(Err("why".to_string()))),
        "failed to send reply to feishu: why"
    );
}

#[test]
fn refusals_tell_the_user() {
    let delivery =
        FeishuLongConnectionRuntime::refusal(target(), &BridgeError::UnsupportedMessage);
    assert_eq!(delivery.target, target());
    assert_eq!(delivery.content, "{\"text\":\"当前消息类型暂不支持。\"}");
}

#[test]
fn blocks_are_sent_as_messages_and_files() {
    let mut client = FeishuChannelClient::new(&feishu_config());
    let document = |mime: &str| MessageBlock::Document {
        mime_type: mime.to_string(),
        file_name: "a.md".to_string(),
        source: BinarySource::Bytes(vec![b'x']),
        extracted_text: None,
    };
    match client.send_message(&MessageBlock::text("hi")).unwrap() {
        BlockDelivery::Message { msg_type, content } => {
            assert_eq!(msg_type, "text");
            assert_eq!(content, "{\"text\":\"hi\"}");
        }
        BlockDelivery::Document { .. } => panic!("a document"),
    }
    match client.send_message(&document("text/markdown")).unwrap() {
        BlockDelivery::Document { file_name, source } => {
            let upload =
                client.send_markdown_document_block(&file_name, source, None).unwrap();
            assert_eq!(upload.file_name, "a.md.txt");
            assert_eq!(upload.bytes, b"x");
        }
        BlockDelivery::Message { .. } => panic!("a message"),
    }
    let refused = |client: &FeishuChannelClient, block: &MessageBlock| match client.send_message(block) {
        Ok(_) => panic!("taken"),
        Err(error) => error.log_message(),
    };
    assert_eq!(
        refused(&client, &document("image/png")),
        "channel error: unsupported document mime type for feishu output: image/png"
    );
    let image = MessageBlock::Image {
        mime_type: "image/png".to_string(),
        source: BinarySource::Bytes(vec![]),
        alt: None,
    };
    assert_eq!(refused(&client, &image), "unsupported message type");
    client.markdown.enable_markdown_output = false;
    assert_eq!(refused(&client, &document("x")), "channel error: markdown 文件输出当前未启用。");
}

#[test]
fn documents_are_read_and_checked_before_they_are_sent() {
    let client = FeishuChannelClient::new(&feishu_config());
    let path = || BinarySource::LocalPath("/p".to_string());
    let upload =
        client.send_markdown_document_block("a", path(), Some(Ok(b"x".to_vec()))).unwrap();
    assert_eq!(upload.file_name, "a.md.txt");
    assert_eq!(
        channel_failure(client.send_markdown_document_block("a", path(), Some(Err("w".to_string())))),
        "failed to read markdown document /p: w"
    );
    assert!(client
        .send_markdown_document_block("a", BinarySource::Bytes(vec![0]), None)
        .is_err());
}

#[test]
fn reactions_that_fail_are_told() {
    assert!(FeishuChannelClient::react_typing(None).is_ok());
    assert!(FeishuChannelClient::react_typing(Some(Ok(()))).is_ok());
    assert_eq!(
        channel_failure(FeishuChannelClient::react_typing(Some(Err("w".to_string())))),
        "failed to send typing reaction to feishu: w"
    );
}

fn answered(success: bool, body: &[u8]) -> HttpReply {
    HttpReply::Answered {
        success,
        status: "500 Internal Server Error".to_string(),
        content_type: None,
        body: body.to_vec(),
    }
}

#[test]
fn requests_that_fail_are_told() {
    assert_eq!(answer_body(Exchange::Upload, answered(true, b"ok")).unwrap(), b"ok");
    assert_eq!(
        channel_failure(answer_body(Exchange::Upload, HttpReply::NotSent("w".to_string()))),
        "failed to upload feishu file: w"
    );
    assert_eq!(
        channel_failure(answer_body(Exchange::Download, HttpReply::NotRead("w".to_string()))),
        "failed to read feishu download response: w"
    );
    assert_eq!(
        channel_failure(answer_body(Exchange::Token, answered(false, b"no\xff"))),
        "feishu tenant access token request failed with status 500 Internal Server Error: no\u{fffd}"
    );
    assert_eq!(
        turned_away(Exchange::Download, "404", "b").user_message(),
        "feishu file download failed with status 404: b"
    );
    assert!(is_json(&Some("application/json; charset=utf-8".to_string())));
    assert!(!is_json(&Some("text/plain".to_string())));
    assert!(!is_json(&None));
}

fn data<T>(code: i32, data: Option<T>) -> Result<FeishuDataResponse<T>, String> {
    Ok(FeishuDataResponse { code, msg: "no".to_string(), data })
}

#[test]
fn answers_of_the_server_are_taken() {
    let key = || Some("k".to_string());
    assert_eq!(FeishuMediaHttpClient::upload_markdown_file(data(0, key()), "").unwrap(), "k");
    assert_eq!(
        channel_failure(FeishuMediaHttpClient::upload_markdown_file(data(0, None), "")),
        "feishu file upload returned no file_key"
    );
    assert_eq!(
        channel_failure(FeishuMediaHttpClient::upload_markdown_file(data(-7, key()), "")),
        "feishu file upload failed: no (code -7)"
    );
    assert_eq!(
        channel_failure(FeishuMediaHttpClient::upload_markdown_file(Err("w".to_string()), "b")),
        "failed to parse feishu upload response: w; body=b"
    );
    assert_eq!(FeishuMediaHttpClient::tenant_access_token(data(0, key()), "").unwrap(), "k");
    assert_eq!(
        channel_failure(FeishuMediaHttpClient::tenant_access_token(data(0, None), "")),
        "feishu tenant token response missing tenant_access_token"
    );
    assert_eq!(FeishuMediaHttpClient::download_file(vec![1], None).unwrap(), vec![1]);
    let json = |code: i32| Some(data::<()>(code, None));
    assert_eq!(FeishuMediaHttpClient::download_file(vec![1], json(0)).unwrap(), vec![1]);
    assert_eq!(
        channel_failure(FeishuMediaHttpClient::download_file(vec![1], json(5))),
        "feishu file download failed: no (code 5)"
    );
}

#[test]
fn an_answer_that_is_no_json_is_told_with_its_text() {
    let answer = "错\u{0}".as_bytes().iter().copied().chain([0xff]).collect::<Vec<u8>>();
    assert_eq!(answer_text(&answer), "错\u{0}\u{fffd}");
    assert_eq!(
        channel_failure(FeishuMediaHttpClient::download_file(answer, Some(Err("w".to_string())))),
        "failed to parse feishu download error response: w; body=错\u{0}\u{fffd}"
    );
}

#[test]
fn uploaded_documents_are_file_messages() {
    match document_message("key") {
        BlockDelivery::Message { msg_type, content } => {
            assert_eq!(msg_type, "file");
            assert_eq!(content, "{\"file_key\":\"key\"}");
        }
        BlockDelivery::Document { .. } => panic!("a document"),
    }
    match text_message("hi") {
        BlockDelivery::Message { msg_type, content } => {
            assert_eq!(msg_type, "text");
            assert_eq!(content, "{\"text\":\"hi\"}");
        }
        BlockDelivery::Document { .. } => panic!("a document"),
    }
}

#[test]
fn files_of_users_are_fetched() {
    let file = event("m", "p2p", "file", "{\"file_key\":\"k\"}");
    assert!(matches!(translated(None, &file), Ok(Translated::Fetch(key)) if key == "k"));
    let keyless = event("m", "p2p", "file", "{}");
    assert_eq!(
        channel_failure(translated(None, &keyless)),
        "feishu file payload missing file_key"
    );
}

#[test]
fn addresses_are_those_of_the_server() {
    let client = FeishuMediaHttpClient::new(&feishu_config());
    assert_eq!(client.upload_url(), "https://open.feishu.cn/open-apis/im/v1/files");
    assert_eq!(client.download_url("k"), "https://open.feishu.cn/open-apis/im/v1/files/k");
    assert_eq!(
        client.token_url(),
        "https://open.feishu.cn/open-apis/auth/v3/tenant_access_token/internal"
    );
}
