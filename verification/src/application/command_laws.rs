//! What holds of every text that a user types.
use vstd::prelude::*;

use crate::application::command::{
    asked, asked_by_name, asked_command, clean_input, command, disallowed, rejected_input,
    remainder, token, unquoted, BotCommandView, UserRequestView,
};
use crate::error::BridgeErrorView;
use crate::text::chars::{lower, lower_char, white_space};
use crate::text::lines::{lemma_word_len, word_len};
use crate::text::search::starts_with;
use crate::text::trim::{
    lemma_trim_back, lemma_trim_front, lemma_trim_keeps_tight, lemma_trim_padded, lemma_trim_tight,
    tight, trim, trim_back, trim_front, trim_start, Trimmed,
};

verus! {

/// A text that holds a character that is disallowed is rejected, whatever else
/// it holds.
pub proof fn law_unclean_input_is_rejected(prefix: Seq<char>, raw: Seq<char>)
    requires
        !clean_input(raw),
    ensures
        asked(prefix, raw) == Err::<UserRequestView, BridgeErrorView>(rejected_input()),
{
}

/// A text that does not begin with the prefix is a prompt, as it is but for the
/// white space at its ends.
pub proof fn law_other_text_is_a_prompt(prefix: Seq<char>, raw: Seq<char>)
    requires
        clean_input(raw),
        !starts_with(trim(raw), prefix),
    ensures
        asked(prefix, raw) == Ok::<UserRequestView, BridgeErrorView>(
            UserRequestView::Prompt(trim(raw)),
        ),
{
}

/// The prefix alone asks for help.
pub proof fn law_the_prefix_alone_asks_for_help(prefix: Seq<char>, raw: Seq<char>)
    requires
        clean_input(raw),
        trim(raw) == prefix,
    ensures
        asked(prefix, raw) == command(BotCommandView::Help),
{
    assert(prefix.take(prefix.len() as int) =~= prefix);
    let rest = prefix.skip(prefix.len() as int);
    lemma_trim_tight(rest, Trimmed::WhiteSpace);
}

/// The case of the letters of a command's name does not matter.
pub proof fn law_command_names_have_no_case(
    one: Seq<char>,
    other: Seq<char>,
)
    requires
        token(one) is Some,
        token(other) is Some,
        lower(token(one)->Some_0.0) == lower(token(other)->Some_0.0),
        token(one)->Some_0.1 == token(other)->Some_0.1,
    ensures
        asked_command(one) == asked_command(other),
{
}

/// Every character of the text is white space.
pub open spec fn all_white(text: Seq<char>) -> bool {
    forall|i: int| 0 <= i < text.len() ==> white_space(#[trigger] text[i])
}

proof fn lemma_trim_all_white(text: Seq<char>)
    requires
        all_white(text),
    ensures
        trim(text) =~= Seq::<char>::empty(),
{
    let off = Trimmed::WhiteSpace;
    let front = trim_front(text, off);
    lemma_trim_front(text, off);
    if front.len() > 0 {
        assert(front.first() == text[text.len() - front.len()]);
        assert(off.has(text[text.len() - front.len()]));
    }
    lemma_trim_back(front, off);
}

proof fn lemma_trim_ignores_padding(before: Seq<char>, raw: Seq<char>, behind: Seq<char>)
    requires
        all_white(before),
        all_white(behind),
    ensures
        trim(before + raw + behind) == trim(raw),
{
    let off = Trimmed::WhiteSpace;
    let front = trim_front(raw, off);
    let core = trim(raw);
    lemma_trim_front(raw, off);
    lemma_trim_back(front, off);
    lemma_trim_tight(raw, off);
    let lead = raw.take(raw.len() - front.len());
    let tail = front.skip(core.len() as int);
    assert(raw =~= lead + core + tail);
    assert forall|i: int| 0 <= i < lead.len() implies off.has(#[trigger] lead[i]) by {
        assert(lead[i] == raw[i]);
    }
    assert forall|i: int| 0 <= i < tail.len() implies off.has(#[trigger] tail[i]) by {
        assert(tail[i] == front[core.len() + i]);
    }
    if core.len() > 0 {
        lemma_trim_padded(before + lead, core, tail + behind, off);
        assert(before + raw + behind =~= (before + lead) + core + (tail + behind));
    } else {
        let whole = before + raw + behind;
        assert(whole =~= before + lead + tail + behind);
        lemma_trim_all_white(whole);
        assert(core =~= Seq::<char>::empty());
    }
}

/// White space around a text does not matter.
pub proof fn law_white_space_around_is_ignored(
    prefix: Seq<char>,
    before: Seq<char>,
    raw: Seq<char>,
    behind: Seq<char>,
)
    requires
        all_white(before),
        all_white(behind),
        clean_input(before),
        clean_input(behind),
    ensures
        asked(prefix, before + raw + behind) == asked(prefix, raw),
{
    lemma_trim_ignores_padding(before, raw, behind);
    let whole = before + raw + behind;
    if clean_input(raw) {
        assert forall|i: int| 0 <= i < whole.len() implies !disallowed(#[trigger] whole[i]) by {
            if i < before.len() {
                assert(whole[i] == before[i]);
            } else if i < before.len() + raw.len() {
                assert(whole[i] == raw[i - before.len()]);
            } else {
                assert(whole[i] == behind[i - before.len() - raw.len()]);
            }
        }
    } else {
        let i = choose|i: int| 0 <= i < raw.len() && disallowed(#[trigger] raw[i]);
        assert(whole[before.len() + i] == raw[i]);
    }
}

/// A word that nothing or white space follows is the first token.
pub proof fn lemma_first_token(name: Seq<char>, rest: Seq<char>)
    requires
        name.len() > 0,
        forall|i: int| 0 <= i < name.len() ==> !white_space(#[trigger] name[i]),
        name.first() != '"',
        name.first() != '\'',
        rest.len() == 0 || white_space(rest.first()),
    ensures
        token(name + rest) == Some((name, rest)),
{
    let text = name + rest;
    assert(text.first() == name[0]);
    assert(trim_start(text) == text);
    lemma_word_len(text);
    let n = word_len(text);
    if n < name.len() {
        assert(text[n as int] == name[n as int]);
    }
    if n > name.len() {
        assert(text[name.len() as int] == rest[0]);
        assert(!white_space(text[name.len() as int]));
    }
    assert(text.take(n as int) =~= name);
    assert(text.skip(n as int) =~= rest);
}

/// A character is disallowed, white space or a quotation mark whatever its case.
proof fn lemma_case_of_char(c: char)
    ensures
        disallowed(lower_char(c)) == disallowed(c),
        white_space(lower_char(c)) == white_space(c),
        (lower_char(c) == '"') == (c == '"'),
        (lower_char(c) == '\'') == (c == '\''),
        lower_char(lower_char(c)) == lower_char(c),
{
}

/// A line that begins with the prefix and a word is the command of that word, without
/// the white space at its end.
pub proof fn lemma_typed_line(prefix: Seq<char>, word: Seq<char>, rest: Seq<char>)
    requires
        prefix.len() == 0 || !white_space(prefix.first()),
        word.len() > 0,
        forall|i: int| 0 <= i < word.len() ==> !white_space(#[trigger] word[i]),
        clean_input(prefix + word + rest),
    ensures
        asked(prefix, prefix + word + rest) == asked_command(
            word + trim_back(rest, Trimmed::WhiteSpace),
        ),
{
    let off = Trimmed::WhiteSpace;
    let raw = prefix + word + rest;
    lemma_trim_back(rest, off);
    let kept = trim_back(rest, off);
    let tail = rest.skip(kept.len() as int);
    let body = word + kept;
    let core = prefix + body;
    assert(rest =~= kept + tail);
    assert(raw =~= Seq::<char>::empty() + core + tail);
    assert(core.first() == (if prefix.len() == 0 {
        word[0]
    } else {
        prefix[0]
    }));
    assert(body.last() == (if kept.len() == 0 {
        word[word.len() - 1]
    } else {
        kept.last()
    }));
    assert(core.last() == body.last());
    assert(body.first() == word[0]);
    assert forall|i: int| 0 <= i < tail.len() implies off.has(#[trigger] tail[i]) by {
        assert(tail[i] == rest[kept.len() + i]);
    }
    lemma_trim_padded(Seq::empty(), core, tail, off);
    assert(core.take(prefix.len() as int) =~= prefix);
    assert(core.skip(prefix.len() as int) =~= body);
    lemma_trim_keeps_tight(body, off);
}

/// The case of the letters of a command's name does not matter as the name is typed;
/// that of what follows it is kept. A prefix that begins with white space is never
/// found in front of a command.
pub proof fn law_typed_names_have_no_case(prefix: Seq<char>, head: Seq<char>, rest: Seq<char>)
    requires
        prefix.len() == 0 || !white_space(prefix.first()),
        head.len() > 0,
        forall|i: int| 0 <= i < head.len() ==> !white_space(#[trigger] head[i]),
        head.first() != '"',
        head.first() != '\'',
        rest.len() == 0 || white_space(rest.first()),
    ensures
        asked_command(head + rest) == asked_command(lower(head) + rest),
        asked(prefix, prefix + head + rest) == asked(prefix, prefix + lower(head) + rest),
{
    let small = lower(head);
    assert forall|i: int| 0 <= i < small.len() implies !white_space(#[trigger] small[i]) by {
        lemma_case_of_char(head[i]);
    }
    lemma_case_of_char(head[0]);
    assert(small.first() == lower_char(head[0]));
    assert(lower(small) =~= small) by {
        assert forall|i: int| 0 <= i < small.len() implies lower(small)[i] == #[trigger] small[i] by {
            lemma_case_of_char(head[i]);
        }
    }
    lemma_first_token(head, rest);
    lemma_first_token(small, rest);
    let one = prefix + head + rest;
    let other = prefix + small + rest;
    assert forall|i: int| 0 <= i < one.len() implies disallowed(#[trigger] one[i]) == disallowed(
        other[i],
    ) by {
        let at = i - prefix.len();
        if 0 <= at < head.len() {
            assert(other[i] == lower_char(head[at]));
            lemma_case_of_char(head[at]);
        }
    }
    assert(clean_input(one) == clean_input(other)) by {
        if clean_input(one) {
            assert forall|i: int| 0 <= i < other.len() implies !disallowed(#[trigger] other[i]) by {
                assert(!disallowed(one[i]));
            }
        }
    }
    if clean_input(one) {
        let off = Trimmed::WhiteSpace;
        let kept = trim_back(rest, off);
        lemma_trim_back(rest, off);
        lemma_typed_line(prefix, head, rest);
        lemma_typed_line(prefix, small, rest);
        lemma_first_token(head, kept);
        lemma_first_token(small, kept);
    }
}

/// The name of a command and what follows it, behind the prefix.
pub proof fn lemma_typed_command(prefix: Seq<char>, name: Seq<char>, rest: Seq<char>)
    requires
        prefix.len() > 0,
        !white_space(prefix.first()),
        name.len() > 0,
        forall|i: int| 0 <= i < name.len() ==> !white_space(#[trigger] name[i]),
        name.first() != '"',
        name.first() != '\'',
        rest.len() > 0,
        tight(rest, Trimmed::WhiteSpace),
        clean_input(prefix + name + " "@ + rest),
    ensures
        asked(prefix, prefix + name + " "@ + rest) == asked_by_name(lower(name), " "@ + rest),
        remainder(" "@ + rest) == Some(rest),
{
    reveal_strlit(" ");
    let raw = prefix + name + " "@ + rest;
    let body = name + " "@ + rest;
    assert(raw.first() == prefix.first());
    assert(raw.last() == rest.last());
    lemma_trim_keeps_tight(raw, Trimmed::WhiteSpace);
    assert(raw.take(prefix.len() as int) =~= prefix);
    assert(raw.skip(prefix.len() as int) =~= body);
    assert(body.first() == name[0]);
    assert(body.last() == rest.last());
    lemma_trim_keeps_tight(body, Trimmed::WhiteSpace);
    lemma_first_token(name, " "@ + rest);
    assert(name + (" "@ + rest) =~= body);
    lemma_trim_padded(" "@, rest, seq![], Trimmed::WhiteSpace);
    assert(" "@ + rest + seq![] =~= " "@ + rest);
}

/// What is typed behind the name of `shell`, `exec` and `prompt` is taken as it
/// is, and so is the directory behind `cd`, without quotes around it.
pub proof fn law_the_rest_is_taken_as_it_is(prefix: Seq<char>, rest: Seq<char>)
    requires
        prefix.len() > 0,
        !white_space(prefix.first()),
        clean_input(prefix),
        clean_input(rest),
        rest.len() > 0,
        tight(rest, Trimmed::WhiteSpace),
    ensures
        asked(prefix, prefix + "shell"@ + " "@ + rest) == command(BotCommandView::Shell(rest)),
        asked(prefix, prefix + "exec"@ + " "@ + rest) == command(BotCommandView::Exec(rest)),
        asked(prefix, prefix + "prompt"@ + " "@ + rest) == command(BotCommandView::Prompt(rest)),
        asked(prefix, prefix + "cd"@ + " "@ + rest) == command(
            BotCommandView::ChangeDirectory(unquoted(rest)),
        ),
{
    reveal_strlit(" ");
    lemma_known_name("shell"@);
    lemma_known_name("exec"@);
    lemma_known_name("prompt"@);
    lemma_known_name("cd"@);
    lemma_clean_line(prefix, "shell"@, rest);
    lemma_clean_line(prefix, "exec"@, rest);
    lemma_clean_line(prefix, "prompt"@, rest);
    lemma_clean_line(prefix, "cd"@, rest);
    lemma_typed_command(prefix, "shell"@, rest);
    lemma_typed_command(prefix, "exec"@, rest);
    lemma_typed_command(prefix, "prompt"@, rest);
    lemma_typed_command(prefix, "cd"@, rest);
    lemma_line_commands(" "@ + rest, rest);
}

/// The names of the commands that take a whole line are written in small letters.
proof fn lemma_known_name(name: Seq<char>)
    requires
        name == "shell"@ || name == "exec"@ || name == "prompt"@ || name == "cd"@,
    ensures
        name.len() > 0,
        lower(name) == name,
        forall|i: int| 0 <= i < name.len() ==> !white_space(#[trigger] name[i]),
        forall|i: int| 0 <= i < name.len() ==> !disallowed(#[trigger] name[i]),
        name.first() != '"',
        name.first() != '\'',
{
    reveal_strlit("shell");
    reveal_strlit("exec");
    reveal_strlit("prompt");
    reveal_strlit("cd");
    assert(lower(name) =~= name);
}

pub proof fn lemma_clean_line(prefix: Seq<char>, name: Seq<char>, rest: Seq<char>)
    requires
        clean_input(prefix),
        clean_input(name),
        clean_input(rest),
    ensures
        clean_input(prefix + name + " "@ + rest),
{
    reveal_strlit(" ");
    let text = prefix + name + " "@ + rest;
    assert forall|i: int| 0 <= i < text.len() implies !disallowed(#[trigger] text[i]) by {
        if i < prefix.len() {
            assert(text[i] == prefix[i]);
        } else if i < prefix.len() + name.len() {
            assert(text[i] == name[i - prefix.len()]);
        } else if i == prefix.len() + name.len() {
            assert(text[i] == ' ');
        } else {
            assert(text[i] == rest[i - prefix.len() - name.len() - 1]);
        }
    }
}

/// The commands that take a whole line are known by their names.
proof fn lemma_line_commands(rest: Seq<char>, line: Seq<char>)
    requires
        remainder(rest) == Some(line),
    ensures
        asked_by_name("shell"@, rest) == command(BotCommandView::Shell(line)),
        asked_by_name("exec"@, rest) == command(BotCommandView::Exec(line)),
        asked_by_name("prompt"@, rest) == command(BotCommandView::Prompt(line)),
        asked_by_name("cd"@, rest) == command(BotCommandView::ChangeDirectory(unquoted(line))),
{
    reveal_strlit("help");
    reveal_strlit("pwd");
    reveal_strlit("status");
    reveal_strlit("cancel");
    reveal_strlit("cd");
    reveal_strlit("agent");
    reveal_strlit("permissions");
    reveal_strlit("mode");
    reveal_strlit("model");
    reveal_strlit("set");
    reveal_strlit("option");
    reveal_strlit("prompt");
    reveal_strlit("exec");
    reveal_strlit("shell");
    assert("cd"@.len() == 2);
    assert("pwd"@.len() == 3 && "set"@.len() == 3);
    assert("help"@.len() == 4 && "mode"@.len() == 4 && "exec"@.len() == 4);
    assert("agent"@.len() == 5 && "model"@.len() == 5 && "shell"@.len() == 5);
    assert("status"@.len() == 6 && "cancel"@.len() == 6 && "option"@.len() == 6);
    assert("prompt"@.len() == 6 && "permissions"@.len() == 11);
    assert("help"@[0] == 'h' && "mode"@[0] == 'm' && "exec"@[0] == 'e');
    assert("agent"@[0] == 'a' && "model"@[0] == 'm' && "shell"@[0] == 's');
    assert("status"@[0] == 's' && "cancel"@[0] == 'c' && "option"@[0] == 'o');
    assert("prompt"@[0] == 'p');
}

/// The names of the commands that need no more are enough.
pub proof fn law_a_name_is_enough(prefix: Seq<char>)
    requires
        prefix.len() == 0 || !white_space(prefix.first()),
        clean_input(prefix),
    ensures
        asked(prefix, prefix + "help"@) == command(BotCommandView::Help),
        asked(prefix, prefix + "pwd"@) == command(BotCommandView::Pwd),
        asked(prefix, prefix + "status"@) == command(BotCommandView::Status),
        asked(prefix, prefix + "cancel"@) == command(BotCommandView::Cancel),
{
    lemma_name_alone(prefix, "help"@);
    lemma_name_alone(prefix, "pwd"@);
    lemma_name_alone(prefix, "status"@);
    lemma_name_alone(prefix, "cancel"@);
    reveal_strlit("help");
    reveal_strlit("pwd");
    reveal_strlit("status");
    reveal_strlit("cancel");
    assert("help"@[0] == 'h' && "pwd"@[0] == 'p' && "status"@[0] == 's' && "cancel"@[0] == 'c');
}

proof fn lemma_name_alone(prefix: Seq<char>, name: Seq<char>)
    requires
        prefix.len() == 0 || !white_space(prefix.first()),
        clean_input(prefix),
        name == "help"@ || name == "pwd"@ || name == "status"@ || name == "cancel"@,
    ensures
        asked(prefix, prefix + name) == asked_by_name(name, Seq::<char>::empty()),
{
    reveal_strlit("help");
    reveal_strlit("pwd");
    reveal_strlit("status");
    reveal_strlit("cancel");
    let none = Seq::<char>::empty();
    let raw = prefix + name + none;
    assert(raw =~= prefix + name);
    assert(name + none =~= name);
    assert forall|i: int| 0 <= i < raw.len() implies !disallowed(#[trigger] raw[i]) by {
        if i < prefix.len() {
            assert(raw[i] == prefix[i]);
        } else {
            assert(raw[i] == name[i - prefix.len()]);
        }
    }
    assert(lower(name) =~= name);
    lemma_typed_line(prefix, name, none);
    lemma_trim_back(none, Trimmed::WhiteSpace);
    assert(trim_back(none, Trimmed::WhiteSpace) =~= none);
    lemma_first_token(name, none);
}

} // verus!
