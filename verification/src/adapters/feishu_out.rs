//! The messages and files that go to Feishu, and its answers.
use vstd::prelude::*;

use crate::adapters::feishu::MarkdownSettings;
use crate::adapters::prompt::{opt_file_read_view, FileRead, FileReadView};
use crate::config::FeishuConfig;
use crate::domain::{BinarySource, BinarySourceView, MessageBlock, MessageBlockView, ReplyTarget};
use crate::error::{outcome, BridgeError, BridgeErrorView};
use crate::markdown::{
    checked_bytes, is_markdown_mime, markdown_mime, markdown_transport_file_name, text_outcome,
    travel_name, validate_markdown_bytes,
};
use crate::text::chars::{copy_opt_text, opt_text, to_chars};
use crate::text::lines::join_two;
use crate::text::number::{signed_decimal, signed_decimal_text};
use crate::text::search::{find, slice_find_str};
use crate::text::utf8::{nearest_text, text_from_utf8_lossy};

verus! {

/// The digit of a hexadecimal number with the given value.
pub open spec fn hex_digit(value: int) -> char {
    if value < 10 {
        (0x30 + value) as char
    } else {
        (0x61 + value - 10) as char
    }
}

/// A character as it stands in a JSON string.
pub open spec fn json_char(c: char) -> Seq<char> {
    let code = c as u32;
    if c == '"' {
        seq!['\\', '"']
    } else if c == '\\' {
        seq!['\\', '\\']
    } else if code == 0x8 {
        seq!['\\', 'b']
    } else if code == 0x9 {
        seq!['\\', 't']
    } else if code == 0xa {
        seq!['\\', 'n']
    } else if code == 0xc {
        seq!['\\', 'f']
    } else if code == 0xd {
        seq!['\\', 'r']
    } else if code < 0x20 {
        seq!['\\', 'u', '0', '0', hex_digit(code as int / 16), hex_digit(code as int % 16)]
    } else {
        seq![c]
    }
}

/// The characters of a text as they stand in a JSON string.
pub open spec fn json_chars(text: Seq<char>) -> Seq<char>
    decreases text.len(),
{
    if text.len() == 0 {
        seq![]
    } else {
        json_chars(text.drop_last()) + json_char(text.last())
    }
}

/// A text as a JSON string.
pub open spec fn json_string(text: Seq<char>) -> Seq<char> {
    seq!['"'] + json_chars(text) + seq!['"']
}

/// A JSON object with one member that is a string.
pub open spec fn json_object(name: Seq<char>, value: Seq<char>) -> Seq<char> {
    seq!['{'] + json_string(name) + seq![':'] + json_string(value) + seq!['}']
}

/// `serde_json::Value` prints an object with one member, a string, in braces:
/// name and value between quotation marks, a colon between them, and no white
/// space. Quotation mark, backslash and the control characters below the space
/// are escaped; all others stand for themselves.
#[verifier::external_body]
fn write_json_object(name: &str, value: &str) -> (out: String)
    ensures
        out@ == json_object(name@, value@),
{
    let mut members = serde_json::Map::new();
    members.insert(name.to_owned(), serde_json::Value::String(value.to_owned()));
    serde_json::Value::Object(members).to_string()
}

/// The content of a text message.
pub fn text_message_content(text: &str) -> (out: String)
    ensures
        out@ == json_object("text"@, text@),
{
    write_json_object("text", text)
}

/// The content of a file message.
pub fn file_message_content(file_key: &str) -> (out: String)
    ensures
        out@ == json_object("file_key"@, file_key@),
{
    write_json_object("file_key", file_key)
}

/// A message to be sent. One that replies is addressed by what it replies to, and
/// names no receiver.
#[derive(Debug, PartialEq, Eq)]
pub struct MessageRequest {
    /// What kind of receiver is named, in the address of the request.
    pub receive_id_type: Option<String>,
    pub receive_id: String,
    pub msg_type: String,
    pub content: String,
}

pub struct MessageRequestView {
    pub receive_id_type: Option<Seq<char>>,
    pub receive_id: Seq<char>,
    pub msg_type: Seq<char>,
    pub content: Seq<char>,
}

impl View for MessageRequest {
    type V = MessageRequestView;

    open spec fn view(&self) -> MessageRequestView {
        MessageRequestView {
            receive_id_type: opt_text(self.receive_id_type),
            receive_id: self.receive_id@,
            msg_type: self.msg_type@,
            content: self.content@,
        }
    }
}

/// The request that replies to a message.
pub fn build_reply_request(msg_type: &str, content: String) -> (out: MessageRequest)
    ensures
        out@ == (MessageRequestView {
            receive_id_type: None,
            receive_id: seq![],
            msg_type: msg_type@,
            content: content@,
        }),
{
    let receive_id = String::new();
    assert(receive_id@ =~= seq![]);
    MessageRequest { receive_id_type: None, receive_id, msg_type: msg_type.to_owned(), content }
}

/// The request that sends a message to a chat.
pub fn build_chat_send_request(target: &ReplyTarget, msg_type: &str, content: String) -> (out:
    MessageRequest)
    ensures
        out@ == (MessageRequestView {
            receive_id_type: Some("chat_id"@),
            receive_id: target@.chat_id,
            msg_type: msg_type@,
            content: content@,
        }),
{
    MessageRequest {
        receive_id_type: Some("chat_id".to_owned()),
        receive_id: target.chat_id.clone(),
        msg_type: msg_type.to_owned(),
        content,
    }
}

/// A message on its way: first as a reply, and if that fails, to the chat.
pub struct Delivery {
    pub target: ReplyTarget,
    pub msg_type: String,
    pub content: String,
}

impl Delivery {
    /// The request that is made first.
    pub fn reply(&self) -> (out: MessageRequest)
        ensures
            out@ == (MessageRequestView {
                receive_id_type: None,
                receive_id: seq![],
                msg_type: self.msg_type@,
                content: self.content@,
            }),
    {
        build_reply_request(self.msg_type.as_str(), self.content.clone())
    }

    /// The request that is made next: none if the reply was taken.
    pub fn send_with_fallback(&self, replied: bool) -> (out: Option<MessageRequest>)
        ensures
            match out {
                Some(request) => !replied && request@ == (MessageRequestView {
                    receive_id_type: Some("chat_id"@),
                    receive_id: self.target@.chat_id,
                    msg_type: self.msg_type@,
                    content: self.content@,
                }),
                None => replied,
            },
    {
        if replied {
            None
        } else {
            Some(
                build_chat_send_request(
                    &self.target,
                    self.msg_type.as_str(),
                    self.content.clone(),
                ),
            )
        }
    }

    /// What the delivery came to when the second request was made.
    pub fn delivered(sent: Result<(), String>) -> (out: Result<(), BridgeError>)
        ensures
            outcome(out) == (match sent {
                Ok(_) => Ok::<(), BridgeErrorView>(()),
                Err(fault) => Err::<(), BridgeErrorView>(
                    BridgeErrorView::Channel("failed to send reply to feishu: "@ + fault@),
                ),
            }),
    {
        match sent {
            Ok(_) => Ok(()),
            Err(fault) => Err(
                BridgeError::Channel(join_two("failed to send reply to feishu: ", fault.as_str())),
            ),
        }
    }
}

/// What is to be done to send a block.
pub enum BlockDelivery {
    /// A message with the given content is sent.
    Message { msg_type: String, content: String },
    /// A file is uploaded and a message with its key is sent.
    Document { file_name: String, source: BinarySource },
}

pub enum BlockDeliveryView {
    Message { msg_type: Seq<char>, content: Seq<char> },
    Document { file_name: Seq<char>, source: BinarySourceView },
}

impl View for BlockDelivery {
    type V = BlockDeliveryView;

    open spec fn view(&self) -> BlockDeliveryView {
        match self {
            BlockDelivery::Message { msg_type, content } => BlockDeliveryView::Message {
                msg_type: msg_type@,
                content: content@,
            },
            BlockDelivery::Document { file_name, source } => BlockDeliveryView::Document {
                file_name: file_name@,
                source: source@,
            },
        }
    }
}

/// The message that a document is, once it was uploaded and has a key.
pub fn document_message(file_key: &str) -> (out: BlockDelivery)
    ensures
        out@ == (BlockDeliveryView::Message {
            msg_type: "file"@,
            content: json_object("file_key"@, file_key@),
        }),
{
    BlockDelivery::Message {
        msg_type: "file".to_owned(),
        content: file_message_content(file_key),
    }
}

/// The message that a text is.
pub fn text_message(text: &str) -> (out: BlockDelivery)
    ensures
        out@ == (BlockDeliveryView::Message {
            msg_type: "text"@,
            content: json_object("text"@, text@),
        }),
{
    BlockDelivery::Message { msg_type: "text".to_owned(), content: text_message_content(text) }
}

/// What is to be done to send a block, or why it is not sent: texts are messages,
/// documents are files if files are wanted and they are markdown, and images are
/// not sent.
pub open spec fn delivery_of(settings: MarkdownSettings, block: MessageBlockView) -> Result<
    BlockDeliveryView,
    BridgeErrorView,
> {
    match block {
        MessageBlockView::Text { text } => Ok(
            BlockDeliveryView::Message { msg_type: "text"@, content: json_object("text"@, text) },
        ),
        MessageBlockView::Image { .. } => Err(BridgeErrorView::UnsupportedMessage),
        MessageBlockView::Document { mime_type, file_name, source, .. } => if !settings.enable_markdown_output {
            Err(BridgeErrorView::Channel("markdown 文件输出当前未启用。"@))
        } else if !markdown_mime(mime_type) {
            Err(
                BridgeErrorView::Channel(
                    "unsupported document mime type for feishu output: "@ + mime_type,
                ),
            )
        } else {
            Ok(BlockDeliveryView::Document { file_name, source })
        },
    }
}

/// The view of what is to be done, or of why nothing is.
pub open spec fn delivery_outcome(result: Result<BlockDelivery, BridgeError>) -> Result<
    BlockDeliveryView,
    BridgeErrorView,
> {
    match result {
        Ok(delivery) => Ok(delivery@),
        Err(error) => Err(error@),
    }
}

/// A file to be uploaded.
#[derive(Debug, PartialEq, Eq)]
pub struct Upload {
    pub file_name: String,
    pub bytes: Vec<u8>,
}

pub struct UploadView {
    pub file_name: Seq<char>,
    pub bytes: Seq<u8>,
}

impl View for Upload {
    type V = UploadView;

    open spec fn view(&self) -> UploadView {
        UploadView { file_name: self.file_name@, bytes: self.bytes@ }
    }
}

/// The bytes that are sent of a document, or why there are none.
pub open spec fn bytes_to_send(source: BinarySourceView, read: Option<FileReadView>) -> Result<
    Seq<u8>,
    BridgeErrorView,
> {
    match source {
        BinarySourceView::Bytes(bytes) => Ok(bytes),
        BinarySourceView::LocalPath(path) => match read {
            Some(Ok(bytes)) => Ok(bytes),
            Some(Err(fault)) => Err(unreadable_document(path, fault)),
            None => Err(unreadable_document(path, seq![])),
        },
    }
}

/// What is said of a document whose file cannot be read.
pub open spec fn unreadable_document(path: Seq<char>, fault: Seq<char>) -> BridgeErrorView {
    BridgeErrorView::Channel("failed to read markdown document "@ + path + ": "@ + fault)
}

/// The file that is uploaded for a document, under the name that it travels by.
pub open spec fn upload_of(
    settings: MarkdownSettings,
    file_name: Seq<char>,
    source: BinarySourceView,
    read: Option<FileReadView>,
) -> Result<UploadView, BridgeErrorView> {
    match bytes_to_send(source, read) {
        Err(error) => Err(error),
        Ok(bytes) => match checked_bytes(file_name, bytes, settings.max_markdown_bytes as nat) {
            Err(error) => Err(error),
            Ok(_) => Ok(UploadView { file_name: travel_name(file_name), bytes }),
        },
    }
}

/// The view of a file to be uploaded, or of why there is none.
pub open spec fn upload_outcome(result: Result<Upload, BridgeError>) -> Result<
    UploadView,
    BridgeErrorView,
> {
    match result {
        Ok(upload) => Ok(upload@),
        Err(error) => Err(error@),
    }
}

/// How messages are sent to Feishu.
#[derive(Debug)]
pub struct FeishuChannelClient {
    pub typing_reaction_emoji: Option<String>,
    pub markdown: MarkdownSettings,
}

impl FeishuChannelClient {
    pub fn new(config: &FeishuConfig) -> (out: Self)
        ensures
            out.typing_reaction_emoji == config.typing_reaction_emoji,
            out.markdown.media_dir == config.media_dir,
            out.markdown.max_markdown_bytes == config.max_markdown_bytes,
            out.markdown.enable_markdown_input == config.enable_markdown_input,
            out.markdown.enable_markdown_output == config.enable_markdown_output,
    {
        FeishuChannelClient {
            typing_reaction_emoji: copy_opt_text(&config.typing_reaction_emoji),
            markdown: MarkdownSettings::from(config),
        }
    }

    /// What showing the sender that their message is being worked on came to,
    /// where it was tried.
    pub fn react_typing(tried: Option<Result<(), String>>) -> (out: Result<(), BridgeError>)
        ensures
            outcome(out) == (match tried {
                Some(Err(fault)) => Err::<(), BridgeErrorView>(
                    BridgeErrorView::Channel(
                        "failed to send typing reaction to feishu: "@ + fault@,
                    ),
                ),
                _ => Ok::<(), BridgeErrorView>(()),
            }),
    {
        match tried {
            Some(Err(fault)) => Err(
                BridgeError::Channel(
                    join_two("failed to send typing reaction to feishu: ", fault.as_str()),
                ),
            ),
            _ => Ok(()),
        }
    }

    /// What is to be done to send a block, or why it is not sent.
    pub fn send_message(&self, block: &MessageBlock) -> (out: Result<BlockDelivery, BridgeError>)
        ensures
            delivery_outcome(out) == delivery_of(self.markdown, block@),
    {
        match block {
            MessageBlock::Text { text } => Ok(text_message(text.as_str())),
            MessageBlock::Image { .. } => Err(BridgeError::UnsupportedMessage),
            MessageBlock::Document { mime_type, file_name, source, extracted_text: _ } => {
                if !self.markdown.enable_markdown_output {
                    return Err(BridgeError::Channel("markdown 文件输出当前未启用。".to_owned()));
                }
                if !is_markdown_mime(mime_type.as_str()) {
                    return Err(
                        BridgeError::Channel(
                            join_two(
                                "unsupported document mime type for feishu output: ",
                                mime_type.as_str(),
                            ),
                        ),
                    );
                }
                Ok(
                    BlockDelivery::Document {
                        file_name: file_name.clone(),
                        source: source.clone(),
                    },
                )
            },
        }
    }

    /// The file that is uploaded for a document, by what reading it came to where
    /// it has to be read.
    pub fn send_markdown_document_block(
        &self,
        file_name: &str,
        source: BinarySource,
        read: Option<FileRead>,
    ) -> (out: Result<Upload, BridgeError>)
        requires
            source is LocalPath ==> read is Some,
        ensures
            upload_outcome(out) == upload_of(
                self.markdown,
                file_name@,
                source@,
                opt_file_read_view(read),
            ),
    {
        let bytes = match source {
            BinarySource::Bytes(bytes) => bytes,
            BinarySource::LocalPath(path) => {
                let fault = match read {
                    Some(Ok(bytes)) => {
                        return self.checked_upload(file_name, bytes);
                    },
                    Some(Err(fault)) => fault,
                    None => String::new(),
                };
                let mut message = "failed to read markdown document ".to_owned();
                message.append(path.as_str());
                message.append(": ");
                message.append(fault.as_str());
                return Err(BridgeError::Channel(message));
            },
        };
        self.checked_upload(file_name, bytes)
    }

    fn checked_upload(&self, file_name: &str, bytes: Vec<u8>) -> (out: Result<Upload, BridgeError>)
        ensures
            upload_outcome(out) == upload_of(
                self.markdown,
                file_name@,
                BinarySourceView::Bytes(bytes@),
                None,
            ),
    {
        if let Err(error) = validate_markdown_bytes(
            file_name,
            bytes.as_slice(),
            self.markdown.max_markdown_bytes,
        ) {
            return Err(error);
        }
        Ok(Upload { file_name: markdown_transport_file_name(file_name), bytes })
    }
}

/// How messages come from Feishu.
#[derive(Debug)]
pub struct FeishuLongConnectionRuntime {
    pub markdown: MarkdownSettings,
    pub nickname: Option<String>,
}

impl FeishuLongConnectionRuntime {
    pub fn new(config: &FeishuConfig) -> (out: Self)
        ensures
            out.nickname == config.nickname,
            out.markdown.media_dir == config.media_dir,
            out.markdown.max_markdown_bytes == config.max_markdown_bytes,
            out.markdown.enable_markdown_input == config.enable_markdown_input,
            out.markdown.enable_markdown_output == config.enable_markdown_output,
    {
        FeishuLongConnectionRuntime {
            markdown: MarkdownSettings::from(config),
            nickname: copy_opt_text(&config.nickname),
        }
    }

    /// The message that tells the sender why their message was not taken.
    pub fn refusal(target: ReplyTarget, error: &BridgeError) -> (out: Delivery)
        ensures
            out.target == target,
            out.msg_type@ == "text"@,
            out.content@ == json_object("text"@, error@.user_text()),
    {
        Delivery {
            target,
            msg_type: "text".to_owned(),
            content: text_message_content(error.user_message().as_str()),
        }
    }
}

/// A request to the server other than one for a message.
#[derive(Clone, Copy, Debug, PartialEq, Eq, Structural)]
pub enum Exchange {
    Upload,
    Download,
    Token,
}

impl Exchange {
    /// What is said when the request cannot be made.
    pub open spec fn unsent(self) -> Seq<char> {
        match self {
            Exchange::Upload => "failed to upload feishu file: "@,
            Exchange::Download => "failed to download feishu file: "@,
            Exchange::Token => "failed to request feishu tenant access token: "@,
        }
    }

    /// What is said when the answer cannot be received.
    pub open spec fn unread(self) -> Seq<char> {
        match self {
            Exchange::Upload => "failed to read feishu upload response: "@,
            Exchange::Download => "failed to read feishu download response: "@,
            Exchange::Token => "failed to read feishu token response: "@,
        }
    }

    /// What is said when the server turns the request away.
    pub open spec fn turned_away(self) -> Seq<char> {
        match self {
            Exchange::Upload => "feishu file upload failed with status "@,
            Exchange::Download => "feishu file download failed with status "@,
            Exchange::Token => "feishu tenant access token request failed with status "@,
        }
    }

    /// What is said when the answer is not what was expected.
    pub open spec fn unparsed(self) -> Seq<char> {
        match self {
            Exchange::Upload => "failed to parse feishu upload response: "@,
            Exchange::Download => "failed to parse feishu download error response: "@,
            Exchange::Token => "failed to parse feishu tenant token response: "@,
        }
    }

    /// What is said when the answer reports a failure.
    pub open spec fn failed(self) -> Seq<char> {
        match self {
            Exchange::Upload => "feishu file upload failed: "@,
            Exchange::Download => "feishu file download failed: "@,
            Exchange::Token => "feishu tenant token request failed: "@,
        }
    }

    fn unsent_text(self) -> (out: &'static str)
        ensures
            out@ == self.unsent(),
    {
        match self {
            Exchange::Upload => "failed to upload feishu file: ",
            Exchange::Download => "failed to download feishu file: ",
            Exchange::Token => "failed to request feishu tenant access token: ",
        }
    }

    fn unread_text(self) -> (out: &'static str)
        ensures
            out@ == self.unread(),
    {
        match self {
            Exchange::Upload => "failed to read feishu upload response: ",
            Exchange::Download => "failed to read feishu download response: ",
            Exchange::Token => "failed to read feishu token response: ",
        }
    }

    fn turned_away_text(self) -> (out: &'static str)
        ensures
            out@ == self.turned_away(),
    {
        match self {
            Exchange::Upload => "feishu file upload failed with status ",
            Exchange::Download => "feishu file download failed with status ",
            Exchange::Token => "feishu tenant access token request failed with status ",
        }
    }

    fn unparsed_text(self) -> (out: &'static str)
        ensures
            out@ == self.unparsed(),
    {
        match self {
            Exchange::Upload => "failed to parse feishu upload response: ",
            Exchange::Download => "failed to parse feishu download error response: ",
            Exchange::Token => "failed to parse feishu tenant token response: ",
        }
    }

    fn failed_text(self) -> (out: &'static str)
        ensures
            out@ == self.failed(),
    {
        match self {
            Exchange::Upload => "feishu file upload failed: ",
            Exchange::Download => "feishu file download failed: ",
            Exchange::Token => "feishu tenant token request failed: ",
        }
    }
}

/// What a request to the server came to.
pub enum HttpReply {
    /// It could not be made, for the given reason.
    NotSent(String),
    /// Its answer could not be received, for the given reason.
    NotRead(String),
    Answered { success: bool, status: String, content_type: Option<String>, body: Vec<u8> },
}

/// The bytes of an answer of the server, or why there are none.
pub open spec fn answer_bytes(exchange: Exchange, reply: HttpReply) -> Result<
    Seq<u8>,
    BridgeErrorView,
> {
    match reply {
        HttpReply::NotSent(fault) => Err(BridgeErrorView::Channel(exchange.unsent() + fault@)),
        HttpReply::NotRead(fault) => Err(BridgeErrorView::Channel(exchange.unread() + fault@)),
        HttpReply::Answered { success, status, body, .. } => if success {
            Ok(body@)
        } else {
            Err(
                BridgeErrorView::Channel(
                    exchange.turned_away() + status@ + ": "@ + nearest_text(body@),
                ),
            )
        },
    }
}

/// What is said when the server turns a request away.
pub fn turned_away(exchange: Exchange, status: &str, body: &str) -> (out: BridgeError)
    ensures
        out@ == BridgeErrorView::Channel(exchange.turned_away() + status@ + ": "@ + body@),
{
    let mut message = exchange.turned_away_text().to_owned();
    message.append(status);
    message.append(": ");
    message.append(body);
    BridgeError::Channel(message)
}

/// The bytes of an answer of the server, or why there are none.
pub fn answer_body(exchange: Exchange, reply: HttpReply) -> (out: Result<Vec<u8>, BridgeError>)
    ensures
        match out {
            Ok(bytes) => answer_bytes(exchange, reply) == Ok::<Seq<u8>, BridgeErrorView>(bytes@),
            Err(error) => answer_bytes(exchange, reply) == Err::<Seq<u8>, BridgeErrorView>(
                error@,
            ),
        },
{
    match reply {
        HttpReply::NotSent(fault) => Err(
            BridgeError::Channel(join_two(exchange.unsent_text(), fault.as_str())),
        ),
        HttpReply::NotRead(fault) => Err(
            BridgeError::Channel(join_two(exchange.unread_text(), fault.as_str())),
        ),
        HttpReply::Answered { success, status, content_type: _, body } => {
            if success {
                Ok(body)
            } else {
                Err(
                    turned_away(
                        exchange,
                        status.as_str(),
                        answer_text(body.as_slice()).as_str(),
                    ),
                )
            }
        },
    }
}

/// The text of an answer.
pub fn answer_text(bytes: &[u8]) -> (out: String)
    ensures
        out@ == nearest_text(bytes@),
{
    text_from_utf8_lossy(bytes)
}

/// Whether an answer is said to be JSON.
pub fn is_json(content_type: &Option<String>) -> (out: bool)
    ensures
        out == (match content_type {
            Some(value) => find(value@, "application/json"@) is Some,
            None => false,
        }),
{
    match content_type {
        Some(value) => {
            let chars = to_chars(value.as_str());
            slice_find_str(chars.as_slice(), "application/json").is_some()
        },
        None => false,
    }
}

/// What the server says in an answer, beside the data.
#[derive(Debug)]
pub struct FeishuDataResponse<T> {
    pub code: i32,
    pub msg: String,
    pub data: Option<T>,
}

/// The data of an answer that was read, or why it has none.
pub open spec fn answer_data<T>(
    exchange: Exchange,
    parsed: Result<FeishuDataResponse<T>, String>,
    body: Seq<char>,
) -> Result<Option<T>, BridgeErrorView> {
    match parsed {
        Err(fault) => Err(
            BridgeErrorView::Channel(exchange.unparsed() + fault@ + "; body="@ + body),
        ),
        Ok(answer) => if answer.code != 0 {
            Err(
                BridgeErrorView::Channel(
                    exchange.failed() + answer.msg@ + " (code "@ + signed_decimal(
                        answer.code as int,
                    ) + ")"@,
                ),
            )
        } else {
            Ok(answer.data)
        },
    }
}

/// The data of an answer, by what reading it came to.
pub fn parsed_data<T>(
    exchange: Exchange,
    parsed: Result<FeishuDataResponse<T>, String>,
    body: &str,
) -> (out: Result<Option<T>, BridgeError>)
    ensures
        outcome(out) == answer_data(exchange, parsed, body@),
{
    match parsed {
        Err(fault) => {
            let mut message = exchange.unparsed_text().to_owned();
            message.append(fault.as_str());
            message.append("; body=");
            message.append(body);
            Err(BridgeError::Channel(message))
        },
        Ok(answer) => {
            if answer.code != 0 {
                let mut message = exchange.failed_text().to_owned();
                message.append(answer.msg.as_str());
                message.append(" (code ");
                message.append(signed_decimal_text(answer.code as i64).as_str());
                message.append(")");
                Err(BridgeError::Channel(message))
            } else {
                Ok(answer.data)
            }
        },
    }
}

/// The server, and who the bot is to it.
#[derive(Debug)]
pub struct FeishuMediaHttpClient {
    pub base_url: String,
    pub app_id: String,
    pub app_secret: String,
}

impl FeishuMediaHttpClient {
    pub fn new(config: &FeishuConfig) -> (out: Self)
        ensures
            out.base_url@ == "https://open.feishu.cn"@,
            out.app_id == config.app_id,
            out.app_secret == config.app_secret,
    {
        FeishuMediaHttpClient {
            base_url: "https://open.feishu.cn".to_owned(),
            app_id: config.app_id.clone(),
            app_secret: config.app_secret.clone(),
        }
    }

    /// Where files are uploaded to.
    pub fn upload_url(&self) -> (out: String)
        ensures
            out@ == self.base_url@ + "/open-apis/im/v1/files"@,
    {
        join_two(self.base_url.as_str(), "/open-apis/im/v1/files")
    }

    /// Where a file is downloaded from.
    pub fn download_url(&self, file_key: &str) -> (out: String)
        ensures
            out@ == self.base_url@ + "/open-apis/im/v1/files/"@ + file_key@,
    {
        let mut out = join_two(self.base_url.as_str(), "/open-apis/im/v1/files/");
        out.append(file_key);
        out
    }

    /// Where the token comes from that other requests are made with.
    pub fn token_url(&self) -> (out: String)
        ensures
            out@ == self.base_url@ + "/open-apis/auth/v3/tenant_access_token/internal"@,
    {
        join_two(self.base_url.as_str(), "/open-apis/auth/v3/tenant_access_token/internal")
    }

    /// The key of a file that was uploaded, by what reading the answer came to.
    pub fn upload_markdown_file(
        parsed: Result<FeishuDataResponse<String>, String>,
        body: &str,
    ) -> (out: Result<String, BridgeError>)
        ensures
            text_outcome(out) == (match answer_data(Exchange::Upload, parsed, body@) {
                Ok(Some(key)) => Ok::<Seq<char>, BridgeErrorView>(key@),
                Ok(None) => Err::<Seq<char>, BridgeErrorView>(
                    BridgeErrorView::Channel("feishu file upload returned no file_key"@),
                ),
                Err(error) => Err::<Seq<char>, BridgeErrorView>(error),
            }),
    {
        match parsed_data(Exchange::Upload, parsed, body) {
            Ok(Some(key)) => Ok(key),
            Ok(None) => Err(
                BridgeError::Channel("feishu file upload returned no file_key".to_owned()),
            ),
            Err(error) => Err(error),
        }
    }

    /// The bytes of a file that was downloaded. What is said to be JSON may be a
    /// failure in place of the file: with it goes what reading its text came to.
    pub fn download_file(
        bytes: Vec<u8>,
        parsed: Option<Result<FeishuDataResponse<()>, String>>,
    ) -> (out: Result<Vec<u8>, BridgeError>)
        ensures
            match parsed {
                None => out == Ok::<Vec<u8>, BridgeError>(bytes),
                Some(parsed) => match answer_data(
                    Exchange::Download,
                    parsed,
                    nearest_text(bytes@),
                ) {
                    Ok(_) => out == Ok::<Vec<u8>, BridgeError>(bytes),
                    Err(error) => out is Err && out->Err_0@ == error,
                },
            },
    {
        if let Some(parsed) = parsed {
            let body = answer_text(bytes.as_slice());
            if let Err(error) = parsed_data(Exchange::Download, parsed, body.as_str()) {
                return Err(error);
            }
        }
        Ok(bytes)
    }

    /// The token that other requests are made with, by what reading the answer
    /// came to.
    pub fn tenant_access_token(
        parsed: Result<FeishuDataResponse<String>, String>,
        body: &str,
    ) -> (out: Result<String, BridgeError>)
        ensures
            text_outcome(out) == (match answer_data(Exchange::Token, parsed, body@) {
                Ok(Some(token)) => Ok::<Seq<char>, BridgeErrorView>(token@),
                Ok(None) => Err::<Seq<char>, BridgeErrorView>(
                    BridgeErrorView::Channel(
                        "feishu tenant token response missing tenant_access_token"@,
                    ),
                ),
                Err(error) => Err::<Seq<char>, BridgeErrorView>(error),
            }),
    {
        match parsed_data(Exchange::Token, parsed, body) {
            Ok(Some(token)) => Ok(token),
            Ok(None) => Err(
                BridgeError::Channel(
                    "feishu tenant token response missing tenant_access_token".to_owned(),
                ),
            ),
            Err(error) => Err(error),
        }
    }
}

} // verus!
