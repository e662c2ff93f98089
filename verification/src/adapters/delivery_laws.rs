//! What every message and every file that goes out holds, and what is made of the answers.
use vstd::prelude::*;

use crate::adapters::feishu_out::{
    answer_body, document_message, hex_digit, is_json, json_char, json_chars, json_object,
    parsed_data, BlockDelivery, Delivery, Exchange, FeishuChannelClient, FeishuDataResponse,
    FeishuLongConnectionRuntime, FeishuMediaHttpClient, HttpReply, MessageRequest, Upload,
};
use crate::adapters::prompt::FileRead;
use crate::config::FeishuConfig;
use crate::domain::{BinarySource, BinarySourceView, MessageBlock, ReplyTarget};
use crate::error::{BridgeError, BridgeErrorView};
use crate::markdown::{markdown_mime, travel_name};
use crate::text::number::signed_decimal;
use crate::text::search::lemma_occurrence_is_found;
use crate::text::utf8::nearest_text;

verus! {

/// The value of a digit of a hexadecimal number, in small letters.
pub open spec fn hex_value(c: char) -> int {
    if 0x30 <= c as u32 <= 0x39 {
        c as int - 0x30
    } else {
        c as int - 0x61 + 10
    }
}

/// What the characters of a JSON string say, as any reader of JSON takes them.
pub open spec fn read_back(text: Seq<char>) -> Seq<char>
    decreases text.len(),
{
    if text.len() == 0 {
        seq![]
    } else if text[0] != '\\' || text.len() == 1 {
        seq![text[0]] + read_back(text.skip(1))
    } else if text[1] == 'u' && text.len() >= 6 {
        seq![(16 * hex_value(text[4]) + hex_value(text[5])) as char] + read_back(text.skip(6))
    } else {
        seq![
            if text[1] == 'b' {
                0x8 as char
            } else if text[1] == 't' {
                0x9 as char
            } else if text[1] == 'n' {
                0xa as char
            } else if text[1] == 'f' {
                0xc as char
            } else if text[1] == 'r' {
                0xd as char
            } else {
                text[1]
            },
        ] + read_back(text.skip(2))
    }
}

proof fn lemma_json_front(first: char, rest: Seq<char>)
    ensures
        json_chars(seq![first] + rest) == json_char(first) + json_chars(rest),
    decreases rest.len(),
{
    let all = seq![first] + rest;
    if rest.len() == 0 {
        assert(all.drop_last() =~= Seq::<char>::empty());
        assert(json_chars(all.drop_last()) =~= Seq::<char>::empty());
        assert(json_chars(all) =~= json_char(first) + json_chars(rest));
    } else {
        lemma_json_front(first, rest.drop_last());
        assert(all.drop_last() =~= seq![first] + rest.drop_last());
        assert(all.last() == rest.last());
        assert(json_chars(all) =~= json_char(first) + json_chars(rest));
    }
}

proof fn lemma_hex(value: int)
    requires
        0 <= value < 16,
    ensures
        hex_value(hex_digit(value)) == value,
{
}

proof fn lemma_read_char(c: char, rest: Seq<char>)
    ensures
        read_back(json_char(c) + rest) == seq![c] + read_back(rest),
{
    let all = json_char(c) + rest;
    let code = c as u32;
    let n = json_char(c).len() as int;
    assert(all.skip(n) =~= rest);
    if n == 6 {
        lemma_hex(code as int / 16);
        lemma_hex(code as int % 16);
        assert(all[0] == '\\' && all[1] == 'u');
        assert(all[4] == hex_digit(code as int / 16));
        assert(all[5] == hex_digit(code as int % 16));
        assert(16 * (code as int / 16) + code as int % 16 == code as int);
        assert((16 * hex_value(all[4]) + hex_value(all[5])) as char == c);
    } else if n == 2 {
        assert(all[0] == '\\');
        assert(all[1] == json_char(c)[1]);
        assert(all[1] != 'u');
    } else {
        assert(all[0] == c);
        assert(c != '\\');
    }
}

/// What a text is written as in a JSON string is read back as that text, whole, whatever
/// characters it holds.
pub proof fn law_texts_are_read_back(text: Seq<char>)
    ensures
        read_back(json_chars(text)) == text,
    decreases text.len(),
{
    if text.len() > 0 {
        let first = text[0];
        let rest = text.drop_first();
        assert(text =~= seq![first] + rest);
        lemma_json_front(first, rest);
        lemma_read_char(first, json_chars(rest));
        law_texts_are_read_back(rest);
    }
}

/// A block of text is sent as one message of text whose content is a JSON object with the
/// whole text in its only member.
pub proof fn law_a_text_is_delivered_whole(
    client: FeishuChannelClient,
    block: MessageBlock,
    text: String,
    out: Result<BlockDelivery, BridgeError>,
)
    requires
        block == (MessageBlock::Text { text }),
        call_ensures(FeishuChannelClient::send_message, (&client, &block), out),
    ensures
        out matches Ok(BlockDelivery::Message { msg_type, content }) && msg_type@ == "text"@
            && content@.len() == 11 + json_chars(text@).len() && content@.take(9)
            == seq!['{', '"', 't', 'e', 'x', 't', '"', ':', '"'] && content@.subrange(
            9,
            content@.len() - 2,
        ) == json_chars(text@) && read_back(content@.subrange(9, content@.len() - 2)) == text@
            && content@.skip(content@.len() - 2) == seq!['"', '}'],
{
    reveal_strlit("text");
    law_texts_are_read_back(text@);
    let content = json_object("text"@, text@);
    lemma_plain_name();
    assert(content =~= seq!['{', '"', 't', 'e', 'x', 't', '"', ':', '"'] + json_chars(text@)
        + seq!['"', '}']);
    assert(content.take(9) =~= seq!['{', '"', 't', 'e', 'x', 't', '"', ':', '"']);
    assert(content.subrange(9, content.len() - 2) =~= json_chars(text@));
    assert(content.skip(content.len() - 2) =~= seq!['"', '}']);
}

proof fn lemma_plain_name()
    ensures
        json_chars("text"@) =~= seq!['t', 'e', 'x', 't'],
{
    reveal_strlit("text");
    let name = "text"@;
    assert(name =~= seq!['t', 'e', 'x', 't']);
    reveal_with_fuel(json_chars, 5);
    assert(name.drop_last() =~= seq!['t', 'e', 'x']);
    assert(name.drop_last().drop_last() =~= seq!['t', 'e']);
    assert(name.drop_last().drop_last().drop_last() =~= seq!['t']);
    assert(name.drop_last().drop_last().drop_last().drop_last() =~= Seq::<char>::empty());
}

/// A markdown document is sent as the file with its name and its bytes, where files are
/// wanted; a document that is no markdown is not sent, and neither is an image.
pub proof fn law_documents_are_delivered_as_files(
    client: FeishuChannelClient,
    block: MessageBlock,
    out: Result<BlockDelivery, BridgeError>,
)
    requires
        call_ensures(FeishuChannelClient::send_message, (&client, &block), out),
    ensures
        block is Image ==> out matches Err(BridgeError::UnsupportedMessage),
        block matches MessageBlock::Document { mime_type, file_name, source, extracted_text } ==> {
            &&& client.markdown.enable_markdown_output && markdown_mime(mime_type@) ==> (
            out matches Ok(BlockDelivery::Document { file_name: name, source: from }) && name@
                == file_name@ && from@ == source@)
            &&& !client.markdown.enable_markdown_output || !markdown_mime(mime_type@) ==> out
                matches Err(BridgeError::Channel(_))
        },
{
}

/// A document is uploaded with all its bytes, be they at hand or in its file, if they are not
/// more than allowed and none is zero; else it is refused. It is uploaded under its own name
/// and what makes it a text file.
pub proof fn law_documents_are_uploaded_with_all_their_bytes(
    client: FeishuChannelClient,
    file_name: &str,
    source: BinarySource,
    read: Option<FileRead>,
    bytes: Vec<u8>,
    out: Result<Upload, BridgeError>,
)
    requires
        call_ensures(
            FeishuChannelClient::send_markdown_document_block,
            (&client, file_name, source, read),
            out,
        ),
        source@ == BinarySourceView::Bytes(bytes@) || (source is LocalPath && read
            == Some(Ok::<Vec<u8>, String>(bytes))),
    ensures
        bytes@.len() <= client.markdown.max_markdown_bytes && !bytes@.contains(0u8) ==> (
        out matches Ok(upload) && upload.bytes@ == bytes@ && upload.file_name@ == travel_name(
            file_name@,
        )),
        bytes@.len() > client.markdown.max_markdown_bytes || bytes@.contains(0u8) ==> out matches Err(
            BridgeError::InputRejected(_),
        ),
        travel_name(file_name@).len() >= file_name@.len(),
        travel_name(file_name@).take(file_name@.len() as int) == file_name@,
{
    let name = file_name@;
    reveal_strlit(".txt");
    reveal_strlit(".md.txt");
    assert((name + ".txt"@).take(name.len() as int) =~= name);
    assert((name + ".md.txt"@).take(name.len() as int) =~= name);
    assert(name.take(name.len() as int) =~= name);
}

/// A message goes out first as a reply and, only if that was not taken, to the chat of what
/// it replies to, in both cases with the same kind and the same whole content.
pub proof fn law_the_second_try_sends_the_same(
    delivery: Delivery,
    reply: MessageRequest,
    replied: bool,
    out: Option<MessageRequest>,
)
    requires
        call_ensures(Delivery::reply, (&delivery,), reply),
        call_ensures(Delivery::send_with_fallback, (&delivery, replied), out),
    ensures
        reply.content@ == delivery.content@,
        reply.msg_type@ == delivery.msg_type@,
        reply.receive_id_type is None,
        reply.receive_id@.len() == 0,
        replied <==> out is None,
        out matches Some(request) ==> {
            &&& request.content@ == reply.content@
            &&& request.msg_type@ == reply.msg_type@
            &&& request.receive_id@ == delivery.target.chat_id@
            &&& request.receive_id_type matches Some(kind) && kind@ == "chat_id"@
        },
{
}

/// Why a message was not taken is told where it came from, in the words of the error.
pub proof fn law_a_refusal_goes_to_the_sender(
    target: ReplyTarget,
    error: BridgeError,
    text: String,
    out: Delivery,
)
    requires
        call_ensures(FeishuLongConnectionRuntime::refusal, (target, &error), out),
        call_ensures(BridgeError::user_message, (&error,), text),
    ensures
        out.target == target,
        out.msg_type@ == "text"@,
        out.content@ == json_object("text"@, text@),
        out.content@.subrange(9, out.content@.len() - 2) == json_chars(text@),
        read_back(out.content@.subrange(9, out.content@.len() - 2)) == text@,
{
    lemma_plain_name();
    law_texts_are_read_back(text@);
    let content = json_object("text"@, text@);
    assert(content =~= seq!['{', '"', 't', 'e', 'x', 't', '"', ':', '"'] + json_chars(text@)
        + seq!['"', '}']);
    assert(content.subrange(9, content.len() - 2) =~= json_chars(text@));
}

/// The bytes of an answer are taken whole if the request succeeded. Of one that did not, the
/// reason, the status and the text of the answer are told.
pub proof fn law_answers_are_taken_whole(
    exchange: Exchange,
    reply: HttpReply,
    out: Result<Vec<u8>, BridgeError>,
)
    requires
        call_ensures(answer_body, (exchange, reply), out),
    ensures
        match reply {
            HttpReply::Answered { success, status, content_type, body } => if success {
                out matches Ok(bytes) && bytes@ == body@
            } else {
                out matches Err(error) && error@ == BridgeErrorView::Channel(
                    (match exchange {
                        Exchange::Upload => "feishu file upload failed with status "@,
                        Exchange::Download => "feishu file download failed with status "@,
                        Exchange::Token =>
                            "feishu tenant access token request failed with status "@,
                    }) + status@ + ": "@ + nearest_text(body@),
                )
            },
            HttpReply::NotSent(fault) => out matches Err(error) && error@
                == BridgeErrorView::Channel(
                (match exchange {
                    Exchange::Upload => "failed to upload feishu file: "@,
                    Exchange::Download => "failed to download feishu file: "@,
                    Exchange::Token => "failed to request feishu tenant access token: "@,
                }) + fault@,
            ),
            HttpReply::NotRead(fault) => out matches Err(error) && error@
                == BridgeErrorView::Channel(
                (match exchange {
                    Exchange::Upload => "failed to read feishu upload response: "@,
                    Exchange::Download => "failed to read feishu download response: "@,
                    Exchange::Token => "failed to read feishu token response: "@,
                }) + fault@,
            ),
        },
{
}

/// The data of an answer that reports no failure is taken as it is. A failure is told with
/// its words and its code; an answer that cannot be read with the reason and its text.
pub proof fn law_the_data_of_an_answer_is_taken_as_it_is(
    exchange: Exchange,
    parsed: Result<FeishuDataResponse<String>, String>,
    body: &str,
    out: Result<Option<String>, BridgeError>,
)
    requires
        call_ensures(parsed_data::<String>, (exchange, parsed, body), out),
    ensures
        match parsed {
            Ok(answer) => {
                &&& answer.code == 0 ==> out == Ok::<Option<String>, BridgeError>(answer.data)
                &&& answer.code != 0 ==> (out matches Err(error) && error@
                    == BridgeErrorView::Channel(
                    (match exchange {
                        Exchange::Upload => "feishu file upload failed: "@,
                        Exchange::Download => "feishu file download failed: "@,
                        Exchange::Token => "feishu tenant token request failed: "@,
                    }) + answer.msg@ + " (code "@ + signed_decimal(answer.code as int) + ")"@,
                ))
            },
            Err(fault) => out matches Err(error) && error@ == BridgeErrorView::Channel(
                (match exchange {
                    Exchange::Upload => "failed to parse feishu upload response: "@,
                    Exchange::Download => "failed to parse feishu download error response: "@,
                    Exchange::Token => "failed to parse feishu tenant token response: "@,
                }) + fault@ + "; body="@ + body@,
            ),
        },
{
}

/// The key of a file that was uploaded and the token for other requests are those of the
/// answer, whole, and a file that was downloaded has all the bytes that came.
pub proof fn law_keys_tokens_and_files_are_those_of_the_answer(
    key: String,
    msg: String,
    body: &str,
    uploaded: Result<String, BridgeError>,
    token: Result<String, BridgeError>,
    bytes: Vec<u8>,
    downloaded: Result<Vec<u8>, BridgeError>,
)
    requires
        call_ensures(
            FeishuMediaHttpClient::upload_markdown_file,
            (
                Ok::<FeishuDataResponse<String>, String>(
                    FeishuDataResponse { code: 0, msg, data: Some(key) },
                ),
                body,
            ),
            uploaded,
        ),
        call_ensures(
            FeishuMediaHttpClient::tenant_access_token,
            (
                Ok::<FeishuDataResponse<String>, String>(
                    FeishuDataResponse { code: 0, msg, data: Some(key) },
                ),
                body,
            ),
            token,
        ),
        call_ensures(
            FeishuMediaHttpClient::download_file,
            (bytes, None::<Result<FeishuDataResponse<()>, String>>),
            downloaded,
        ),
    ensures
        uploaded matches Ok(given) && given@ == key@,
        token matches Ok(given) && given@ == key@,
        downloaded matches Ok(given) && given@ == bytes@,
{
}

/// Files are uploaded to and downloaded from the server of Feishu, each by its own key.
pub proof fn law_files_have_addresses_of_their_own(
    config: FeishuConfig,
    client: FeishuMediaHttpClient,
    key: &str,
    upload: String,
    download: String,
    token: String,
)
    requires
        call_ensures(FeishuMediaHttpClient::new, (&config,), client),
        call_ensures(FeishuMediaHttpClient::upload_url, (&client,), upload),
        call_ensures(FeishuMediaHttpClient::download_url, (&client, key), download),
        call_ensures(FeishuMediaHttpClient::token_url, (&client,), token),
    ensures
        client.app_id@ == config.app_id@,
        client.app_secret@ == config.app_secret@,
        upload@ == "https://open.feishu.cn"@ + "/open-apis/im/v1/files"@,
        download@ == "https://open.feishu.cn"@ + "/open-apis/im/v1/files/"@ + key@,
        token@ == "https://open.feishu.cn"@ + "/open-apis/auth/v3/tenant_access_token/internal"@,
{
}

/// A file that was uploaded is sent as one message whose content is a JSON object with its
/// whole key in its only member.
pub proof fn law_a_file_is_delivered_by_its_key(key: &str, out: BlockDelivery)
    requires
        call_ensures(document_message, (key,), out),
    ensures
        out matches BlockDelivery::Message { msg_type, content } && msg_type@ == "file"@
            && content@ == seq!['{', '"'] + json_chars("file_key"@) + seq!['"', ':', '"']
            + json_chars(key@) + seq!['"', '}'] && read_back(json_chars(key@)) == key@,
{
    law_texts_are_read_back(key@);
    let content = json_object("file_key"@, key@);
    assert(content =~= seq!['{', '"'] + json_chars("file_key"@) + seq!['"', ':', '"'] + json_chars(
        key@,
    ) + seq!['"', '}']);
}

/// An answer is taken for JSON if the kind that it is said to be names it, wherever in it.
pub proof fn law_json_is_known_by_its_name(
    front: Seq<char>,
    back: Seq<char>,
    kind: String,
    out: bool,
    none: bool,
)
    requires
        kind@ == front + "application/json"@ + back,
        call_ensures(is_json, (&Some(kind),), out),
        call_ensures(is_json, (&None::<String>,), none),
    ensures
        out,
        !none,
{
    let name = "application/json"@;
    let at = front.len() as int;
    assert(kind@.subrange(at, at + name.len()) =~= name);
    lemma_occurrence_is_found(kind@, name, at);
}

/// Whether a message was sent in the end is told as it went, with the reason if it was not.
pub proof fn law_what_was_not_sent_is_told(
    sent: Result<(), String>,
    delivered: Result<(), BridgeError>,
    tried: Option<Result<(), String>>,
    reacted: Result<(), BridgeError>,
)
    requires
        call_ensures(Delivery::delivered, (sent,), delivered),
        call_ensures(FeishuChannelClient::react_typing, (tried,), reacted),
    ensures
        sent is Ok <==> delivered is Ok,
        sent matches Err(fault) ==> delivered matches Err(error) && error@
            == BridgeErrorView::Channel("failed to send reply to feishu: "@ + fault@),
        tried matches Some(Err(fault)) ==> reacted matches Err(error) && error@
            == BridgeErrorView::Channel("failed to send typing reaction to feishu: "@ + fault@),
        tried is None ==> reacted is Ok,
        tried matches Some(Ok(_)) ==> reacted is Ok,
{
}

/// A file that is said to be JSON is still the file, with all its bytes, if it does not report
/// a failure in place of the file.
pub proof fn law_a_file_of_json_is_downloaded_whole(
    bytes: Vec<u8>,
    parsed: Result<FeishuDataResponse<()>, String>,
    out: Result<Vec<u8>, BridgeError>,
)
    requires
        call_ensures(FeishuMediaHttpClient::download_file, (bytes, Some(parsed)), out),
    ensures
        match parsed {
            Ok(answer) => if answer.code == 0 {
                out matches Ok(given) && given@ == bytes@
            } else {
                out matches Err(error) && error@ == BridgeErrorView::Channel(
                    "feishu file download failed: "@ + answer.msg@ + " (code "@ + signed_decimal(
                        answer.code as int,
                    ) + ")"@,
                )
            },
            Err(fault) => out matches Err(error) && error@ == BridgeErrorView::Channel(
                "failed to parse feishu download error response: "@ + fault@ + "; body="@
                    + nearest_text(bytes@),
            ),
        },
{
}

} // verus!
