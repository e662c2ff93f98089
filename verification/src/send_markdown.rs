//! A tool that sends a markdown file to a chat: its arguments and its file.
use vstd::prelude::*;
use vstd::string::StrSliceExecFns;
use vstd::utf8::encode_utf8;

use crate::adapters::prompt::{file_read_view, FileRead, FileReadView};
use crate::paths::{file_name_on, last_name_on};
use crate::platform::{Platform, System};
use crate::text::chars::{opt_text, same_text, texts};
use crate::text::lines::join_two;

verus! {

/// What the tool is to send, and where to.
#[derive(Debug, PartialEq, Eq)]
pub struct Args {
    pub chat_id: String,
    pub file: Option<String>,
    pub note: Option<String>,
}

pub struct ArgsView {
    pub chat_id: Seq<char>,
    pub file: Option<Seq<char>>,
    pub note: Option<Seq<char>>,
}

impl View for Args {
    type V = ArgsView;

    open spec fn view(&self) -> ArgsView {
        ArgsView {
            chat_id: self.chat_id@,
            file: opt_text(self.file),
            note: opt_text(self.note),
        }
    }
}

/// The chat that is sent to unless another is named.
pub open spec fn default_chat_id() -> Seq<char> {
    "oc_f5f9c8e4001155b3d3fd395426388ce4"@
}

/// What arguments ask for.
#[derive(Debug, PartialEq, Eq)]
pub enum Asked {
    Help,
    Send(Args),
}

pub enum AskedView {
    Help,
    Send(ArgsView),
}

/// What is taken of the arguments from some place on, where those before it gave
/// what is at hand.
pub open spec fn args_from(list: Seq<Seq<char>>, at: int, args: ArgsView) -> Result<
    AskedView,
    Seq<char>,
>
    decreases list.len() - at,
{
    if at < 0 || at >= list.len() {
        Ok(AskedView::Send(args))
    } else if list[at] == "--help"@ || list[at] == "-h"@ {
        Ok(AskedView::Help)
    } else if list[at] != "--chat"@ && list[at] != "--file"@ && list[at] != "--note"@ {
        Err("unknown argument: "@ + list[at])
    } else if at + 1 >= list.len() {
        Err(list[at] + " requires a value"@)
    } else {
        let value = list[at + 1];
        args_from(
            list,
            at + 2,
            if list[at] == "--chat"@ {
                ArgsView { chat_id: value, ..args }
            } else if list[at] == "--file"@ {
                ArgsView { file: Some(value), ..args }
            } else {
                ArgsView { note: Some(value), ..args }
            },
        )
    }
}

/// What arguments ask for, or the first thing that is wrong with them.
pub open spec fn asked(list: Seq<Seq<char>>) -> Result<AskedView, Seq<char>> {
    args_from(list, 0, ArgsView { chat_id: default_chat_id(), file: None, note: None })
}

/// The view of what is asked for, or of what is wrong.
pub open spec fn asked_outcome(result: Result<Asked, String>) -> Result<AskedView, Seq<char>> {
    match result {
        Ok(Asked::Help) => Ok(AskedView::Help),
        Ok(Asked::Send(args)) => Ok(AskedView::Send(args@)),
        Err(fault) => Err(fault@),
    }
}

/// What arguments ask for, or the first thing that is wrong with them.
pub fn parse_args(args: &Vec<String>) -> (out: Result<Asked, String>)
    ensures
        asked_outcome(out) == asked(texts(args@)),
{
    let mut parsed = Args {
        chat_id: "oc_f5f9c8e4001155b3d3fd395426388ce4".to_owned(),
        file: None,
        note: None,
    };
    let mut i: usize = 0;
    while i < args.len()
        invariant
            i <= args@.len(),
            asked(texts(args@)) == args_from(texts(args@), i as int, parsed@),
        decreases args@.len() - i,
    {
        let arg = args[i].as_str();
        if same_text(arg, "--help") || same_text(arg, "-h") {
            return Ok(Asked::Help);
        }
        let chat = same_text(arg, "--chat");
        let file = same_text(arg, "--file");
        let note = same_text(arg, "--note");
        if !chat && !file && !note {
            return Err(join_two("unknown argument: ", arg));
        }
        if args.len() - i < 2 {
            return Err(join_two(arg, " requires a value"));
        }
        let value = args[i + 1].clone();
        let ghost given = value@;
        if chat {
            parsed = Args { chat_id: value, ..parsed };
        } else if file {
            parsed = Args { file: Some(value), ..parsed };
        } else {
            parsed = Args { note: Some(value), ..parsed };
        }
        i += 2;
    }
    Ok(Asked::Send(parsed))
}

/// How the tool is used.
pub fn usage() -> (out: String)
    ensures
        out@
            == "Usage: cargo run --bin send_markdown_file -- [--file path/to/file.md] [--note \"请总结这个文档\"] [--chat oc_xxx]\nDefaults to a built-in smoke-test markdown file and chat `oc_f5f9c8e4001155b3d3fd395426388ce4`."@,
{
    "Usage: cargo run --bin send_markdown_file -- [--file path/to/file.md] [--note \"请总结这个文档\"] [--chat oc_xxx]\nDefaults to a built-in smoke-test markdown file and chat `oc_f5f9c8e4001155b3d3fd395426388ce4`.".to_owned()
}

/// A markdown file to be sent.
#[derive(Debug, PartialEq, Eq)]
pub struct MarkdownPayload {
    pub file_name: String,
    pub bytes: Vec<u8>,
}

/// The text that is sent where no file is named.
pub open spec fn sample() -> Seq<char> {
    "# feishu2acp markdown smoke test\n\n- source: `src/bin/send_markdown_file.rs`\n- expectation: bridge ingests this as a markdown document block\n- follow-up: send `请总结这个文档` to verify session context\n"@
}

/// The text that is sent where no file is named.
pub fn sample_markdown() -> (out: String)
    ensures
        out@ == sample(),
{
    "# feishu2acp markdown smoke test\n\n- source: `src/bin/send_markdown_file.rs`\n- expectation: bridge ingests this as a markdown document block\n- follow-up: send `请总结这个文档` to verify session context\n".to_owned()
}

/// The file that is sent: the one that is named, if it could be read and its path
/// ends in a name, else a sample.
pub open spec fn payload(
    platform: Platform,
    file: Option<(Seq<char>, FileReadView)>,
) -> Result<(Seq<char>, Seq<u8>), Seq<char>> {
    match file {
        Some((path, Err(_))) => Err("failed to read "@ + path),
        Some((path, Ok(bytes))) => match last_name_on(platform, path) {
            Some(name) => Ok((name, bytes)),
            None => Err("file path must end with a valid UTF-8 file name"@),
        },
        None => Ok(("feishu2acp-markdown-smoke.md"@, encode_utf8(sample()))),
    }
}

/// The file that is sent, by what reading the one that is named came to.
pub fn build_payload(system: System, file: Option<(String, FileRead)>) -> (out: Result<
    MarkdownPayload,
    String,
>)
    ensures
        match out {
            Ok(sent) => payload(
                system.family(),
                match file {
                    Some((path, read)) => Some((path@, file_read_view(read))),
                    None => None,
                },
            ) == Ok::<(Seq<char>, Seq<u8>), Seq<char>>((sent.file_name@, sent.bytes@)),
            Err(fault) => payload(
                system.family(),
                match file {
                    Some((path, read)) => Some((path@, file_read_view(read))),
                    None => None,
                },
            ) == Err::<(Seq<char>, Seq<u8>), Seq<char>>(fault@),
        },
{
    match file {
        Some((path, read)) => match read {
            Ok(bytes) => match file_name_on(system, path.as_str()) {
                Some(name) => Ok(MarkdownPayload { file_name: name, bytes }),
                None => Err("file path must end with a valid UTF-8 file name".to_owned()),
            },
            Err(_) => Err(join_two("failed to read ", path.as_str())),
        },
        None => {
            let text = sample_markdown();
            Ok(
                MarkdownPayload {
                    file_name: "feishu2acp-markdown-smoke.md".to_owned(),
                    bytes: text.as_str().as_bytes_vec(),
                },
            )
        },
    }
}

} // verus!
