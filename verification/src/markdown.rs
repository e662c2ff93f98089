//! Markdown documents: what they are called, and which bytes they may hold.
use vstd::prelude::*;
use vstd::slice::slice_subrange;

use crate::domain::is_chars;
use crate::error::{outcome, BridgeError, BridgeErrorView};
use crate::text::chars::{
    ascii_alphanumeric, is_ascii_alphanumeric, lower, opt_text, text_or, to_chars, to_lower_chars,
    to_text,
};
use crate::text::number::{decimal, decimal_text};
use crate::text::search::{ends_with, slice_ends_with_str};
use crate::text::trim::{trim, trim_both, trim_slice, trim_slice_both, Trimmed};

verus! {

/// The text is a media type of markdown.
pub open spec fn markdown_mime(value: Seq<char>) -> bool {
    let name = lower(trim(value));
    name == "text/markdown"@ || name == "text/x-markdown"@
}

/// Whether the text is a media type of markdown.
pub fn is_markdown_mime(value: &str) -> (out: bool)
    ensures
        out == markdown_mime(value@),
{
    let chars = to_chars(value);
    let name = to_lower_chars(trim_slice(chars.as_slice()));
    is_chars(&name, "text/markdown") || is_chars(&name, "text/x-markdown")
}

/// The name has one of the endings of markdown files, as they are or as they
/// travel.
pub open spec fn markdown_file_name(value: Seq<char>) -> bool {
    let name = lower(trim(value));
    ||| ends_with(name, ".md"@)
    ||| ends_with(name, ".markdown"@)
    ||| ends_with(name, ".md.txt"@)
    ||| ends_with(name, ".markdown.txt"@)
}

/// Whether the name has one of the endings of markdown files.
pub fn is_markdown_file_name(value: &str) -> (out: bool)
    ensures
        out == markdown_file_name(value@),
{
    let chars = to_chars(value);
    let name = to_lower_chars(trim_slice(chars.as_slice()));
    slice_ends_with_str(name.as_slice(), ".md") || slice_ends_with_str(name.as_slice(), ".markdown")
        || slice_ends_with_str(name.as_slice(), ".md.txt") || slice_ends_with_str(
        name.as_slice(),
        ".markdown.txt",
    )
}

/// The file type is one of markdown.
pub open spec fn markdown_type(value: Option<Seq<char>>) -> bool {
    let name = lower(trim(text_or(value, seq![])));
    ||| name == "md"@
    ||| name == "markdown"@
    ||| name == "text/markdown"@
    ||| name == "text/x-markdown"@
}

/// Whether the file type is one of markdown.
pub fn is_markdown_file_type(value: &Option<String>) -> (out: bool)
    ensures
        out == markdown_type(opt_text(*value)),
{
    let chars = match value {
        Some(text) => to_chars(text.as_str()),
        None => {
            let none: Vec<char> = Vec::new();
            assert(none@ =~= seq![]);
            none
        },
    };
    let name = to_lower_chars(trim_slice(chars.as_slice()));
    is_chars(&name, "md") || is_chars(&name, "markdown") || is_chars(&name, "text/markdown")
        || is_chars(&name, "text/x-markdown")
}

/// The type under which a markdown file is uploaded.
pub fn markdown_file_type() -> (out: &'static str)
    ensures
        out@ == "stream"@,
{
    "stream"
}

/// The name ends as a markdown file does.
pub open spec fn plain_ending(name: Seq<char>) -> bool {
    ends_with(lower(name), ".md"@) || ends_with(lower(name), ".markdown"@)
}

/// The name ends as a markdown file does on its way.
pub open spec fn travel_ending(name: Seq<char>) -> bool {
    ends_with(lower(name), ".md.txt"@) || ends_with(lower(name), ".markdown.txt"@)
}

/// The name that a file has when it has arrived.
pub open spec fn arrived_name(name: Seq<char>) -> Seq<char> {
    if travel_ending(name) {
        name.take(name.len() - 4)
    } else {
        name
    }
}

/// The name that a file has on its way.
pub open spec fn travel_name(name: Seq<char>) -> Seq<char> {
    if travel_ending(name) {
        name
    } else if plain_ending(name) {
        name + ".txt"@
    } else if ends_with(lower(name), ".txt"@) {
        name
    } else {
        name + ".md.txt"@
    }
}

fn has_travel_ending(small: &[char]) -> (out: bool)
    ensures
        out == (ends_with(small@, ".md.txt"@) || ends_with(small@, ".markdown.txt"@)),
{
    slice_ends_with_str(small, ".md.txt") || slice_ends_with_str(small, ".markdown.txt")
}

/// The name that a file has when it has arrived.
pub fn normalize_markdown_file_name(value: &str) -> (out: String)
    ensures
        out@ == arrived_name(value@),
{
    let chars = to_chars(value);
    let small = to_lower_chars(chars.as_slice());
    if has_travel_ending(small.as_slice()) {
        proof {
            reveal_strlit(".md.txt");
            reveal_strlit(".markdown.txt");
        }
        let kept = slice_subrange(chars.as_slice(), 0, chars.len() - 4);
        assert(kept@ =~= value@.take(value@.len() - 4));
        to_text(kept)
    } else {
        value.to_owned()
    }
}

/// The name that a file has on its way.
pub fn markdown_transport_file_name(file_name: &str) -> (out: String)
    ensures
        out@ == travel_name(file_name@),
{
    let chars = to_chars(file_name);
    let small = to_lower_chars(chars.as_slice());
    let mut out = file_name.to_owned();
    if has_travel_ending(small.as_slice()) {
    } else if slice_ends_with_str(small.as_slice(), ".md") || slice_ends_with_str(
        small.as_slice(),
        ".markdown",
    ) {
        out.append(".txt");
    } else if slice_ends_with_str(small.as_slice(), ".txt") {
    } else {
        out.append(".md.txt");
    }
    out
}

/// The character may stand in a file name.
pub open spec fn safe_char(c: char) -> bool {
    ascii_alphanumeric(c) || c == '.' || c == '_' || c == '-'
}

/// The text with an underscore for each character that may not stand in a file
/// name.
pub open spec fn safe(text: Seq<char>) -> Seq<char> {
    text.map_values(
        |c: char|
            if safe_char(c) {
                c
            } else {
                '_'
            },
    )
}

fn safe_chars(chars: &[char]) -> (out: Vec<char>)
    ensures
        out@ == safe(chars@),
{
    let mut out: Vec<char> = Vec::new();
    let mut i: usize = 0;
    while i < chars.len()
        invariant
            i <= chars@.len(),
            out@ == safe(chars@).take(i as int),
        decreases chars@.len() - i,
    {
        let c = chars[i];
        let kept = is_ascii_alphanumeric(c) || c == '.' || c == '_' || c == '-';
        out.push(
            if kept {
                c
            } else {
                '_'
            },
        );
        assert(safe(chars@).take(i + 1) =~= safe(chars@).take(i as int).push(
            safe(chars@)[i as int],
        ));
        i += 1;
    }
    assert(safe(chars@).take(i as int) =~= safe(chars@));
    out
}

/// The name under which a file that came in is kept.
pub open spec fn safe_file_name(value: Seq<char>) -> Seq<char> {
    let trimmed = trim_both(safe(value), Trimmed::Only('_'));
    if trimmed.len() == 0 {
        "document.md"@
    } else {
        trimmed
    }
}

/// The name under which a file that came in is kept.
pub fn sanitize_file_name(value: &str) -> (out: String)
    ensures
        out@ == safe_file_name(value@),
{
    let chars = to_chars(value);
    let clean = safe_chars(chars.as_slice());
    let trimmed = trim_slice_both(clean.as_slice(), Trimmed::Only('_'));
    if trimmed.len() == 0 {
        "document.md".to_owned()
    } else {
        to_text(trimmed)
    }
}

/// The name of a file that an agent sends.
pub open spec fn reply_file_name(value: Seq<char>) -> Seq<char> {
    let clean = safe(trim(value));
    let candidate = if clean.len() == 0 {
        "reply.md"@
    } else {
        clean
    };
    if ends_with(candidate, ".md"@) || ends_with(candidate, ".markdown"@) {
        candidate
    } else {
        candidate + ".md"@
    }
}

/// The name of a file that an agent sends.
pub fn sanitize_reply_file_name(value: &[char]) -> (out: String)
    ensures
        out@ == reply_file_name(value@),
{
    let clean = safe_chars(trim_slice(value));
    let candidate = if clean.len() == 0 {
        to_chars("reply.md")
    } else {
        clean
    };
    let mut out = to_text(candidate.as_slice());
    if !slice_ends_with_str(candidate.as_slice(), ".md") && !slice_ends_with_str(
        candidate.as_slice(),
        ".markdown",
    ) {
        out.append(".md");
    }
    out
}

/// What is said of a document that is too large.
pub open spec fn too_large(file_name: Seq<char>, max: nat) -> BridgeErrorView {
    BridgeErrorView::InputRejected(
        "markdown 文档 `"@ + file_name + "` 过大，已超过 "@ + decimal(max / 1024) + " KB 限制。"@,
    )
}

/// What is said of a document that is no text.
pub open spec fn not_text(file_name: Seq<char>) -> BridgeErrorView {
    BridgeErrorView::InputRejected(
        "markdown 文档 `"@ + file_name + "` 看起来不是纯文本文件。"@,
    )
}

/// Bytes are a document if there are no more than allowed and none is zero.
pub open spec fn checked_bytes(file_name: Seq<char>, bytes: Seq<u8>, max: nat) -> Result<
    (),
    BridgeErrorView,
> {
    if bytes.len() > max {
        Err(too_large(file_name, max))
    } else if bytes.contains(0u8) {
        Err(not_text(file_name))
    } else {
        Ok(())
    }
}

/// Bytes are a document if there are no more than allowed and none is zero.
pub fn validate_markdown_bytes(file_name: &str, bytes: &[u8], max_markdown_bytes: usize) -> (out:
    Result<(), BridgeError>)
    ensures
        outcome(out) == checked_bytes(file_name@, bytes@, max_markdown_bytes as nat),
{
    if bytes.len() > max_markdown_bytes {
        let mut message = "markdown 文档 `".to_owned();
        message.append(file_name);
        message.append("` 过大，已超过 ");
        message.append(decimal_text(max_markdown_bytes as u64 / 1024).as_str());
        message.append(" KB 限制。");
        return Err(BridgeError::InputRejected(message));
    }
    let mut i: usize = 0;
    while i < bytes.len()
        invariant
            i <= bytes@.len(),
            bytes@.len() <= max_markdown_bytes,
            forall|j: int| 0 <= j < i ==> #[trigger] bytes@[j] != 0,
        decreases bytes@.len() - i,
    {
        if bytes[i] == 0 {
            let mut message = "markdown 文档 `".to_owned();
            message.append(file_name);
            message.append("` 看起来不是纯文本文件。");
            assert(bytes@[i as int] == 0);
            assert(bytes@.contains(0u8));
            return Err(BridgeError::InputRejected(message));
        }
        i += 1;
    }
    assert(!bytes@.contains(0u8));
    Ok(())
}

/// The name of a document that came in: the one that it was sent under, if its
/// ending or its type says that it is markdown; where there is no name, one made
/// of the message's identifier, unless the type says that it is something else.
pub open spec fn resolved_name(
    message_id: Seq<char>,
    file_name: Option<Seq<char>>,
    file_type: Option<Seq<char>>,
) -> Result<Seq<char>, BridgeErrorView> {
    match file_name {
        Some(name) => if markdown_file_name(name) {
            Ok(arrived_name(safe_file_name(name)))
        } else if markdown_type(file_type) {
            let clean = safe_file_name(name);
            if markdown_file_name(clean) {
                Ok(arrived_name(clean))
            } else {
                Ok(clean + ".md"@)
            }
        } else {
            Err(
                BridgeErrorView::InputRejected(
                    "当前只支持 .md / .markdown 文件，收到 `"@ + name + "`。"@,
                ),
            )
        },
        None => if markdown_type(file_type) || file_type is None {
            Ok(safe_file_name(message_id) + ".md"@)
        } else {
            Err(BridgeErrorView::InputRejected("当前只支持 markdown 文件输入。"@))
        },
    }
}

/// The view of a text, or of why there is none.
pub open spec fn text_outcome(result: Result<String, BridgeError>) -> Result<
    Seq<char>,
    BridgeErrorView,
> {
    match result {
        Ok(text) => Ok(text@),
        Err(error) => Err(error@),
    }
}

/// The name of a document that came in.
pub fn resolve_markdown_file_name(
    message_id: &str,
    file_name: &Option<String>,
    file_type: &Option<String>,
) -> (out: Result<String, BridgeError>)
    ensures
        text_outcome(out) == resolved_name(message_id@, opt_text(*file_name), opt_text(*file_type)),
{
    match file_name {
        Some(name) => {
            if is_markdown_file_name(name.as_str()) {
                Ok(
                    normalize_markdown_file_name(
                        sanitize_file_name(name.as_str()).as_str(),
                    ),
                )
            } else if is_markdown_file_type(file_type) {
                let mut clean = sanitize_file_name(name.as_str());
                if is_markdown_file_name(clean.as_str()) {
                    Ok(normalize_markdown_file_name(clean.as_str()))
                } else {
                    clean.append(".md");
                    Ok(clean)
                }
            } else {
                let mut message = "当前只支持 .md / .markdown 文件，收到 `".to_owned();
                message.append(name.as_str());
                message.append("`。");
                Err(BridgeError::InputRejected(message))
            }
        },
        None => {
            if is_markdown_file_type(file_type) || file_type.is_none() {
                let mut name = sanitize_file_name(message_id);
                name.append(".md");
                Ok(name)
            } else {
                Err(BridgeError::InputRejected("当前只支持 markdown 文件输入。".to_owned()))
            }
        },
    }
}

} // verus!
