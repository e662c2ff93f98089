//! Small rules that several parts share.
use vstd::prelude::*;
use vstd::slice::slice_subrange;

use crate::domain::is_chars;
use crate::error::{BridgeError, BridgeErrorView};
use crate::paths::{clean_path, cleaned_on_windows, cleaned_path, join_on, joined, joined_on};
use crate::platform::{family_by, Platform, System};
use crate::text::chars::{
    lower, opt_text, same_text, texts, to_chars, to_lower_chars, to_text,
};
use crate::text::lines::{
    join_two, lines, replace_char, slice_lines, slice_replace_char, slice_words, words,
};
use crate::text::number::{decimal, decimal_text};
use crate::text::trim::{trim, trim_slice};

verus! {

/// The list that a JSON text holds, if the text is a list of strings, else what
/// is wrong with it.
pub uninterp spec fn json_string_list(text: Seq<char>) -> Result<Seq<Seq<char>>, Seq<char>>;

/// The words of a text as a POSIX shell splits it, if no quotation is left open
/// and no backslash ends it.
pub uninterp spec fn shell_words(text: Seq<char>) -> Option<Seq<Seq<char>>>;

/// The view of a list, or of the text of an error.
pub open spec fn list_or_text(result: Result<Vec<String>, String>) -> Result<
    Seq<Seq<char>>,
    Seq<char>,
> {
    match result {
        Ok(list) => Ok(texts(list@)),
        Err(text) => Err(text@),
    }
}

/// The view of a list that may be absent.
pub open spec fn opt_texts(list: Option<Vec<String>>) -> Option<Seq<Seq<char>>> {
    match list {
        Some(list) => Some(texts(list@)),
        None => None,
    }
}

/// `serde_json::from_str` reads a list of strings out of a JSON text, or says in
/// words why it cannot. Which of the two, and what, is named, not spelled out.
#[verifier::external_body]
fn parse_json_strings(text: &str) -> (out: Result<Vec<String>, String>)
    ensures
        list_or_text(out) == json_string_list(text@),
{
    serde_json::from_str::<Vec<String>>(text).map_err(|error| error.to_string())
}

/// `shlex::split` splits a text into words as a POSIX shell would, or gives none
/// where the text is not well formed. The words are named, not spelled out.
#[verifier::external_body]
fn split_shell_words(text: &str) -> (out: Option<Vec<String>>)
    ensures
        opt_texts(out) == shell_words(text@),
{
    shlex::split(text)
}

/// The view of a list of arguments, or of why there is none.
pub open spec fn arguments_view(result: Result<Vec<String>, BridgeError>) -> Result<
    Seq<Seq<char>>,
    BridgeErrorView,
> {
    match result {
        Ok(list) => Ok(texts(list@)),
        Err(error) => Err(error@),
    }
}

/// The arguments that a JSON list gives.
pub open spec fn arguments_of_json(
    parsed: Result<Seq<Seq<char>>, Seq<char>>,
) -> Result<Seq<Seq<char>>, BridgeErrorView> {
    match parsed {
        Ok(list) => Ok(list),
        Err(text) => Err(BridgeErrorView::Config("invalid JSON argument list: "@ + text)),
    }
}

/// The arguments of a text: its words for a shell, or where it has none, its
/// words between white space.
pub open spec fn arguments_of_words(
    text: Seq<char>,
    split: Option<Seq<Seq<char>>>,
) -> Seq<Seq<char>> {
    match split {
        Some(list) => list,
        None => words(text),
    }
}

/// The arguments that a text lists.
pub open spec fn argument_list(value: Seq<char>) -> Result<Seq<Seq<char>>, BridgeErrorView> {
    let text = trim(value);
    if text.len() == 0 {
        Ok(seq![])
    } else if text.first() == '[' {
        arguments_of_json(json_string_list(text))
    } else {
        Ok(arguments_of_words(text, shell_words(text)))
    }
}

/// The arguments that a JSON list gives, by what reading it came to.
pub fn json_arguments(parsed: Result<Vec<String>, String>) -> (out: Result<
    Vec<String>,
    BridgeError,
>)
    ensures
        arguments_view(out) == arguments_of_json(list_or_text(parsed)),
{
    match parsed {
        Ok(list) => Ok(list),
        Err(text) => Err(
            BridgeError::Config(join_two("invalid JSON argument list: ", text.as_str())),
        ),
    }
}

/// The arguments of a text, by what splitting it for a shell came to.
pub fn word_arguments(text: &str, split: Option<Vec<String>>) -> (out: Vec<String>)
    ensures
        texts(out@) == arguments_of_words(text@, opt_texts(split)),
{
    match split {
        Some(list) => list,
        None => {
            let chars = to_chars(text);
            slice_words(chars.as_slice())
        },
    }
}

/// The arguments that a text lists: a JSON list of strings, or words as a shell
/// splits them.
pub fn parse_argument_list(value: &str) -> (out: Result<Vec<String>, BridgeError>)
    ensures
        arguments_view(out) == argument_list(value@),
{
    let chars = to_chars(value);
    let trimmed = trim_slice(chars.as_slice());
    if trimmed.len() == 0 {
        let none: Vec<String> = Vec::new();
        assert(texts(none@) =~= seq![]);
        return Ok(none);
    }
    let text = to_text(trimmed);
    if trimmed[0] == '[' {
        return json_arguments(parse_json_strings(text.as_str()));
    }
    let split = split_shell_words(text.as_str());
    Ok(word_arguments(text.as_str(), split))
}

/// Chunks that are full, and the one that lines still go into.
pub struct Chunking {
    pub done: Seq<Seq<char>>,
    pub current: Seq<char>,
}

/// A text cut into pieces of at most `max` characters.
pub open spec fn slices(text: Seq<char>, max: nat) -> Seq<Seq<char>>
    decreases text.len(),
{
    if text.len() == 0 || max == 0 {
        seq![]
    } else if text.len() <= max {
        seq![text]
    } else {
        seq![text.take(max as int)] + slices(text.skip(max as int), max)
    }
}

impl Chunking {
    /// All the chunks, where a last one counts if it holds anything.
    pub open spec fn closed(self) -> Seq<Seq<char>> {
        if self.current.len() == 0 {
            self.done
        } else {
            self.done.push(self.current)
        }
    }

    /// Another line. It joins the open chunk if it fits, else it starts a new
    /// one; a line longer than a chunk is cut up.
    pub open spec fn with_line(self, line: Seq<char>, max: nat) -> Chunking {
        let fits = self.current.len() + 1 + line.len() <= max;
        if line.len() > max {
            Chunking { done: self.closed() + slices(line, max), current: seq![] }
        } else if self.current.len() == 0 {
            Chunking { done: self.done, current: line }
        } else if fits {
            Chunking { done: self.done, current: self.current + "\n"@ + line }
        } else {
            Chunking { done: self.closed(), current: line }
        }
    }
}

/// The chunks of a run of lines.
pub open spec fn chunking(list: Seq<Seq<char>>, max: nat) -> Chunking
    decreases list.len(),
{
    if list.len() == 0 {
        Chunking { done: seq![], current: seq![] }
    } else {
        chunking(list.drop_last(), max).with_line(list.last(), max)
    }
}

/// The chunks of a text: whole lines as far as they fit into `max` characters.
/// A limit of zero is no limit.
pub open spec fn chunks(text: Seq<char>, max: nat) -> Seq<Seq<char>> {
    if max == 0 {
        seq![text]
    } else {
        let all = chunking(lines(text), max).closed();
        if all.len() == 0 {
            seq![seq![]]
        } else {
            all
        }
    }
}

/// The chunks of a text.
pub fn chunk_text(text: &str, max_chars: usize) -> (out: Vec<String>)
    ensures
        texts(out@) == chunks(text@, max_chars as nat),
{
    let mut out: Vec<String> = Vec::new();
    if max_chars == 0 {
        out.push(text.to_owned());
        assert(texts(out@) =~= seq![text@]);
        return out;
    }
    let ghost max = max_chars as nat;
    let chars = to_chars(text);
    let list = slice_lines(chars.as_slice());
    let ghost views = |line: Vec<char>| line@;
    let ghost all = list@.map_values(views);
    let mut current: Vec<char> = Vec::new();
    let mut i: usize = 0;
    assert(texts(out@) =~= seq![]);
    assert(current@ =~= seq![]);
    while i < list.len()
        invariant
            i <= list@.len(),
            0 < max_chars,
            max == max_chars as nat,
            views == (|line: Vec<char>| line@),
            all == list@.map_values(views),
            chunking(all.take(i as int), max) == (Chunking {
                done: texts(out@),
                current: current@,
            }),
        decreases list@.len() - i,
    {
        let ghost state = Chunking { done: texts(out@), current: current@ };
        let line = &list[i];
        proof {
            assert(all.take(i + 1).drop_last() =~= all.take(i as int));
            assert(all.take(i + 1).last() == line@);
        }
        let line_len = line.len();
        let current_len = current.len();
        let overflows = current_len > 0 && (current_len >= max_chars || line_len > max_chars
            - current_len - 1);
        if overflows {
            out.push(to_text(current.as_slice()));
            assert(texts(out@) =~= state.done.push(state.current));
            current = Vec::new();
        }
        if line_len > max_chars {
            let mut pieces = slice_chars(line.as_slice(), max_chars);
            let ghost before = texts(out@);
            let ghost cut = texts(pieces@);
            let ghost kept = out@;
            out.append(&mut pieces);
            assert(texts(out@) =~= before + cut);
            assert(current@ =~= seq![]);
        } else {
            if current.len() > 0 {
                proof {
                    reveal_strlit("\n");
                }
                current.push('\n');
                assert(current@ =~= state.current + "\n"@);
            }
            push_chars(&mut current, line.as_slice());
            assert(overflows || state.current.len() == 0 ==> current@ =~= line@);
        }
        assert(chunking(all.take(i + 1), max) == state.with_line(line@, max));
        assert(texts(out@) =~= state.with_line(line@, max).done);
        assert(current@ =~= state.with_line(line@, max).current);
        i += 1;
    }
    assert(all.take(i as int) =~= all);
    let ghost done = texts(out@);
    if current.len() > 0 {
        out.push(to_text(current.as_slice()));
        assert(texts(out@) =~= done.push(current@));
    }
    if out.len() == 0 {
        out.push(String::new());
        assert(texts(out@) =~= seq![seq![]]);
    }
    out
}

/// Puts characters at the end of others.
pub fn push_chars(out: &mut Vec<char>, more: &[char])
    ensures
        final(out)@ == old(out)@ + more@,
{
    let ghost before = out@;
    let mut i: usize = 0;
    assert(before + more@.take(0) =~= before);
    while i < more.len()
        invariant
            i <= more@.len(),
            out@ == before + more@.take(i as int),
        decreases more@.len() - i,
    {
        out.push(more[i]);
        assert(more@.take(i + 1) =~= more@.take(i as int).push(more@[i as int]));
        assert(out@ =~= before + more@.take(i + 1));
        i += 1;
    }
    assert(more@.take(i as int) =~= more@);
}

/// The text cut into pieces of at most `max_chars` characters.
fn slice_chars(value: &[char], max_chars: usize) -> (out: Vec<String>)
    requires
        max_chars > 0,
    ensures
        texts(out@) == slices(value@, max_chars as nat),
{
    let mut out: Vec<String> = Vec::new();
    let mut rest = value;
    let ghost max = max_chars as nat;
    assert(texts(out@) + slices(rest@, max) =~= slices(value@, max));
    while rest.len() > 0
        invariant
            max_chars > 0,
            max == max_chars as nat,
            texts(out@) + slices(rest@, max) == slices(value@, max),
        decreases rest@.len(),
    {
        let ghost before = texts(out@);
        let ghost whole = rest@;
        let n: usize = if rest.len() <= max_chars {
            rest.len()
        } else {
            max_chars
        };
        let piece = to_text(slice_subrange(rest, 0, n));
        rest = slice_subrange(rest, n, rest.len());
        out.push(piece);
        assert(texts(out@) =~= before.push(piece@));
        assert(n == whole.len() ==> piece@ =~= whole && rest@ =~= seq![]);
        assert(piece@ =~= whole.take(n as int));
        assert(rest@ =~= whole.skip(n as int));
        assert(texts(out@) + slices(rest@, max) =~= before + slices(whole, max));
    }
    assert(texts(out@) + slices(rest@, max) =~= texts(out@));
    out
}

/// The chunk with its place among all of them in front.
pub open spec fn labelled_chunk(chunk: Seq<char>, index: nat, total: nat) -> Seq<char> {
    "["@ + decimal(index + 1) + "/"@ + decimal(total) + "]\n"@ + chunk
}

/// Chunks that are more than one are numbered.
pub open spec fn labelled(list: Seq<Seq<char>>) -> Seq<Seq<char>> {
    if list.len() <= 1 {
        list
    } else {
        Seq::new(list.len(), |i: int| labelled_chunk(list[i], i as nat, list.len()))
    }
}

/// Chunks that are more than one are numbered.
pub fn finalize_chunk_labels(chunks: Vec<String>) -> (out: Vec<String>)
    ensures
        texts(out@) == labelled(texts(chunks@)),
{
    let total = chunks.len();
    if total <= 1 {
        return chunks;
    }
    let ghost list = texts(chunks@);
    let total_text = decimal_text(total as u64);
    let mut out: Vec<String> = Vec::new();
    let mut i: usize = 0;
    while i < total
        invariant
            i <= total,
            1 < total,
            total == chunks@.len(),
            total_text@ == decimal(total as nat),
            list == texts(chunks@),
            texts(out@) == labelled(list).take(i as int),
        decreases total - i,
    {
        let index_text = decimal_text(i as u64 + 1);
        let mut text = "[".to_owned();
        text.append(index_text.as_str());
        text.append("/");
        text.append(total_text.as_str());
        text.append("]\n");
        text.append(chunks[i].as_str());
        assert(text@ == labelled(list)[i as int]);
        let ghost before = texts(out@);
        out.push(text);
        assert(texts(out@) =~= before.push(text@));
        assert(labelled(list).take(i + 1) =~= labelled(list).take(i as int).push(
            labelled(list)[i as int],
        ));
        i += 1;
    }
    assert(labelled(list).take(i as int) =~= labelled(list));
    out
}

/// The path that a user's directory means on Unix, seen from the base.
pub open spec fn workspace_path(base: Seq<char>, raw: Seq<char>) -> Seq<char> {
    cleaned_path(joined(base, raw))
}

/// The path that a user's directory means on a system, seen from the base.
pub open spec fn workspace_on(platform: Platform, base: Seq<char>, raw: Seq<char>) -> Seq<char> {
    match platform {
        Platform::Unix => workspace_path(base, raw),
        Platform::Windows => cleaned_on_windows(joined_on(platform, base, raw)),
    }
}

/// The path that a user's directory means on a system, seen from the base.
pub fn resolve_workspace_on(system: System, base: &str, raw: &str) -> (out: String)
    ensures
        out@ == workspace_on(system.family(), base@, raw@),
{
    let path = join_on(system, base, raw);
    clean_path(system, path.as_str())
}

/// The path that a user's directory means on this system, seen from the base.
pub fn resolve_workspace(base: &str, raw: &str) -> (out: String)
    ensures
        exists|windows: bool| #[trigger]
            call_ensures(std::path::is_separator, ('\\',), windows) && out@ == workspace_on(
                family_by(windows),
                base@,
                raw@,
            ),
{
    let system = System::current();
    assert(call_ensures(std::path::is_separator, ('\\',), system.family() is Windows));
    resolve_workspace_on(system, base, raw)
}

/// The session that a name means. `default` in any case, `-` and white space
/// mean the session without a name.
pub open spec fn session_name(value: Option<Seq<char>>) -> Option<Seq<char>> {
    match value {
        None => None,
        Some(raw) => {
            let name = trim(raw);
            if name.len() == 0 || lower(name) == "default"@ || name == "-"@ {
                None
            } else {
                Some(name)
            }
        },
    }
}

/// The session that a name means.
pub fn normalize_session_name(value: Option<String>) -> (out: Option<String>)
    ensures
        opt_text(out) == session_name(opt_text(value)),
{
    match value {
        None => None,
        Some(raw) => {
            let chars = to_chars(raw.as_str());
            let name = trim_slice(chars.as_slice());
            if name.len() == 0 {
                return None;
            }
            let small = to_lower_chars(name);
            let text = to_text(name);
            if is_chars(&small, "default") || same_text(text.as_str(), "-") {
                None
            } else {
                Some(text)
            }
        },
    }
}

/// The first characters of a text, with dots behind them if there are more.
pub open spec fn shortened(text: Seq<char>, max: nat) -> Seq<char> {
    if text.len() > max {
        text.take(max as int) + "..."@
    } else {
        text
    }
}

/// A text on one line and cut short, for a log.
pub open spec fn preview(text: Seq<char>, max: nat) -> Seq<char> {
    if max == 0 {
        seq![]
    } else {
        shortened(replace_char(text, '\n', "\\n"@), max)
    }
}

/// The first characters of a run of them, with dots behind them if there are
/// more.
pub fn shorten(chars: &[char], max_chars: usize) -> (out: String)
    ensures
        out@ == shortened(chars@, max_chars as nat),
{
    if chars.len() > max_chars {
        let head = slice_subrange(chars, 0, max_chars);
        assert(head@ =~= chars@.take(max_chars as int));
        let mut out = to_text(head);
        out.append("...");
        out
    } else {
        to_text(chars)
    }
}

/// A text on one line and cut short, for a log.
pub fn text_preview(value: &str, max_chars: usize) -> (out: String)
    ensures
        out@ == preview(value@, max_chars as nat),
{
    if max_chars == 0 {
        return String::new();
    }
    let chars = to_chars(value);
    let normalized = slice_replace_char(chars.as_slice(), '\n', "\\n");
    shorten(normalized.as_slice(), max_chars)
}

} // verus!
