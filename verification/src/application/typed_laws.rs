//! What every command means as it is typed.
use vstd::prelude::*;

use crate::application::command::{
    asked, asked_by_name, asked_directory, asked_option, asked_permissions, asked_rest,
    asked_session, asked_token, clean_input, command, disallowed, parse_user_request, remainder,
    token, unquoted, BotCommandView, SessionCommandView, UserRequest, UserRequestView,
};
use crate::application::command_laws::{
    lemma_clean_line, lemma_first_token, lemma_typed_command, lemma_typed_line,
};
use crate::domain::{law_permission_mode_is_named_by_its_name, PermissionMode};
use crate::error::{BridgeError, BridgeErrorView};
use crate::support::normalize_session_name;
use crate::text::chars::{lower, opt_text, white_space};
use crate::text::number::decimal;
use crate::text::search::{find, lemma_find_char, starts_with};
use crate::text::trim::{
    lemma_trim_back, lemma_trim_keeps_tight, lemma_trim_padded, tight, trim, trim_back, trim_start,
    Trimmed,
};
use crate::text_laws::{is_word, law_numbers_are_read_back};

verus! {

/// A character that may not stand in what is typed: a control character other than line
/// feed, carriage return and tabulator, or one that reorders the text around it.
pub open spec fn hidden(c: char) -> bool {
    let code = c as u32;
    ||| code < 0x20 && code != 0x09 && code != 0x0a && code != 0x0d
    ||| 0x7f <= code <= 0x9f
    ||| 0x202a <= code <= 0x202e
    ||| 0x2066 <= code <= 0x2069
}

/// Just the texts with such a character are refused. Every other text is read, whatever it
/// holds and however long it is; one that does not begin with the prefix is a prompt with
/// all of it but white space at its ends.
pub proof fn law_only_hidden_characters_are_refused(
    prefix: &str,
    raw: &str,
    out: Result<UserRequest, BridgeError>,
)
    requires
        call_ensures(parse_user_request, (prefix, raw), out),
    ensures
        (exists|i: int| 0 <= i < raw@.len() && hidden(#[trigger] raw@[i])) ==> (out matches Err(
            error,
        ) && error@ == BridgeErrorView::InputRejected("输入包含非法控制字符，请移除后重试。"@)),
        (forall|i: int| 0 <= i < raw@.len() ==> !hidden(#[trigger] raw@[i])) && !starts_with(
            trim(raw@),
            prefix@,
        ) ==> (out matches Ok(UserRequest::Prompt(text)) && text@ == trim(raw@)),
        clean_input(raw@) <==> forall|i: int| 0 <= i < raw@.len() ==> !hidden(#[trigger] raw@[i]),
{
    assert forall|i: int| 0 <= i < raw@.len() implies hidden(#[trigger] raw@[i]) == disallowed(
        raw@[i],
    ) by {
        lemma_hidden(raw@[i]);
    }
    if clean_input(raw@) {
        assert forall|i: int| 0 <= i < raw@.len() implies !hidden(#[trigger] raw@[i]) by {
            assert(!disallowed(raw@[i]));
        }
    }
}

proof fn lemma_hidden(c: char)
    ensures
        hidden(c) == disallowed(c),
{
    assert(c as u32 == 0x09 <==> c == '\t');
    assert(c as u32 == 0x0a <==> c == '\n');
    assert(c as u32 == 0x0d <==> c == '\r');
}

/// A directory is taken without a pair of quotes around it, and else as it is.
pub proof fn law_quotes_around_a_directory_are_taken_off(dir: Seq<char>)
    ensures
        unquoted(seq!['"'] + dir + seq!['"']) == dir,
        unquoted(seq!['\''] + dir + seq!['\'']) == dir,
        dir.len() > 0 && dir.first() != '"' && dir.first() != '\'' ==> unquoted(dir) == dir,
{
    let double = seq!['"'] + dir + seq!['"'];
    let single = seq!['\''] + dir + seq!['\''];
    assert(double.subrange(1, double.len() - 1) =~= dir);
    assert(single.subrange(1, single.len() - 1) =~= dir);
}

/// White space before a token does not matter.
proof fn lemma_token_behind_space(text: Seq<char>)
    ensures
        token(" "@ + text) == token(text),
{
    reveal_strlit(" ");
    let spaced = " "@ + text;
    assert(spaced.drop_first() =~= text);
    assert(trim_start(spaced) == trim_start(text));
}

/// A name can be typed behind the prefix.
proof fn lemma_name(name: Seq<char>)
    requires
        ({
            ||| name == "agent"@
            ||| name == "mode"@
            ||| name == "model"@
            ||| name == "permissions"@
            ||| name == "set"@
            ||| name == "option"@
            ||| name == "session"@
        }),
    ensures
        name.len() > 0,
        lower(name) == name,
        clean_input(name),
        forall|i: int| 0 <= i < name.len() ==> !white_space(#[trigger] name[i]),
        name.first() != '"',
        name.first() != '\'',
{
    reveal_strlit("agent");
    reveal_strlit("mode");
    reveal_strlit("model");
    reveal_strlit("permissions");
    reveal_strlit("set");
    reveal_strlit("option");
    reveal_strlit("session");
    assert(lower(name) =~= name);
}

/// The commands are known by their names.
proof fn lemma_by_name(rest: Seq<char>)
    ensures
        asked_by_name("agent"@, rest) == asked_token(
            "agent 需要 agent 名称"@,
            rest,
            |a: Seq<char>| BotCommandView::Agent(a),
        ),
        asked_by_name("mode"@, rest) == asked_token(
            "mode 需要 mode 值"@,
            rest,
            |a: Seq<char>| BotCommandView::Mode(a),
        ),
        asked_by_name("model"@, rest) == asked_token(
            "model 需要模型名"@,
            rest,
            |a: Seq<char>| BotCommandView::Model(a),
        ),
        asked_by_name("permissions"@, rest) == asked_permissions(rest),
        asked_by_name("set"@, rest) == asked_option(rest),
        asked_by_name("option"@, rest) == asked_option(rest),
        asked_by_name("session"@, rest) == asked_session(rest),
        asked_by_name("cd"@, rest) == asked_directory(rest),
        asked_by_name("prompt"@, rest) == asked_rest(
            "prompt 需要文本"@,
            rest,
            |a: Seq<char>| BotCommandView::Prompt(a),
        ),
        asked_by_name("exec"@, rest) == asked_rest(
            "exec 需要文本"@,
            rest,
            |a: Seq<char>| BotCommandView::Exec(a),
        ),
        asked_by_name("shell"@, rest) == asked_rest(
            "shell 需要系统命令"@,
            rest,
            |a: Seq<char>| BotCommandView::Shell(a),
        ),
{
    reveal_strlit("help");
    reveal_strlit("pwd");
    reveal_strlit("status");
    reveal_strlit("cancel");
    reveal_strlit("cd");
    reveal_strlit("agent");
    reveal_strlit("permissions");
    reveal_strlit("mode");
    reveal_strlit("model");
    reveal_strlit("set");
    reveal_strlit("option");
    reveal_strlit("prompt");
    reveal_strlit("exec");
    reveal_strlit("shell");
    reveal_strlit("session");
    assert("cd"@.len() == 2);
    assert("pwd"@.len() == 3 && "set"@.len() == 3);
    assert("help"@.len() == 4 && "mode"@.len() == 4 && "exec"@.len() == 4);
    assert("agent"@.len() == 5 && "model"@.len() == 5 && "shell"@.len() == 5);
    assert("status"@.len() == 6 && "cancel"@.len() == 6 && "option"@.len() == 6);
    assert("prompt"@.len() == 6 && "permissions"@.len() == 11 && "session"@.len() == 7);
    assert("pwd"@[0] == 'p' && "set"@[0] == 's');
    assert("help"@[0] == 'h' && "mode"@[0] == 'm' && "exec"@[0] == 'e');
    assert("agent"@[0] == 'a' && "model"@[0] == 'm' && "shell"@[0] == 's');
    assert("status"@[0] == 's' && "cancel"@[0] == 'c' && "option"@[0] == 'o');
    assert("prompt"@[0] == 'p');
}

/// A word that can be typed behind a name.
pub open spec fn plain_word(word: Seq<char>) -> bool {
    is_word(word) && clean_input(word) && word.first() != '"' && word.first() != '\''
}

proof fn lemma_typed(prefix: Seq<char>, name: Seq<char>, rest: Seq<char>)
    requires
        prefix.len() > 0,
        !white_space(prefix.first()),
        clean_input(prefix),
        ({
            ||| name == "agent"@
            ||| name == "mode"@
            ||| name == "model"@
            ||| name == "permissions"@
            ||| name == "set"@
            ||| name == "option"@
            ||| name == "session"@
        }),
        rest.len() > 0,
        clean_input(rest),
        tight(rest, Trimmed::WhiteSpace),
    ensures
        asked(prefix, prefix + name + " "@ + rest) == asked_by_name(name, " "@ + rest),
{
    lemma_name(name);
    lemma_clean_line(prefix, name, rest);
    lemma_typed_command(prefix, name, rest);
}

/// A word behind `agent`, `mode` and `model` is what they name, as it is.
pub proof fn law_a_word_is_taken_as_it_is(prefix: Seq<char>, word: Seq<char>)
    requires
        prefix.len() > 0,
        !white_space(prefix.first()),
        clean_input(prefix),
        plain_word(word),
    ensures
        asked(prefix, prefix + "agent"@ + " "@ + word) == command(BotCommandView::Agent(word)),
        asked(prefix, prefix + "mode"@ + " "@ + word) == command(BotCommandView::Mode(word)),
        asked(prefix, prefix + "model"@ + " "@ + word) == command(BotCommandView::Model(word)),
{
    let none = Seq::<char>::empty();
    assert(!white_space(word[0]) && !white_space(word[word.len() - 1]));
    lemma_typed(prefix, "agent"@, word);
    lemma_typed(prefix, "mode"@, word);
    lemma_typed(prefix, "model"@, word);
    lemma_by_name(" "@ + word);
    lemma_token_behind_space(word);
    lemma_first_token(word, none);
    assert(word + none =~= word);
}

/// Permissions are named by their own names.
pub proof fn law_permissions_are_typed_by_their_names(prefix: Seq<char>)
    requires
        prefix.len() > 0,
        !white_space(prefix.first()),
        clean_input(prefix),
    ensures
        asked(prefix, prefix + "permissions"@ + " "@ + "approve-all"@) == command(
            BotCommandView::Permissions(PermissionMode::ApproveAll),
        ),
        asked(prefix, prefix + "permissions"@ + " "@ + "approve-reads"@) == command(
            BotCommandView::Permissions(PermissionMode::ApproveReads),
        ),
        asked(prefix, prefix + "permissions"@ + " "@ + "deny-all"@) == command(
            BotCommandView::Permissions(PermissionMode::DenyAll),
        ),
{
    reveal_strlit("approve-all");
    reveal_strlit("approve-reads");
    reveal_strlit("deny-all");
    lemma_permission(prefix, PermissionMode::ApproveAll, "approve-all"@);
    lemma_permission(prefix, PermissionMode::ApproveReads, "approve-reads"@);
    lemma_permission(prefix, PermissionMode::DenyAll, "deny-all"@);
}

proof fn lemma_permission(prefix: Seq<char>, mode: PermissionMode, name: Seq<char>)
    requires
        prefix.len() > 0,
        !white_space(prefix.first()),
        clean_input(prefix),
        name == mode.name(),
        plain_word(name),
    ensures
        asked(prefix, prefix + "permissions"@ + " "@ + name) == command(
            BotCommandView::Permissions(mode),
        ),
{
    let none = Seq::<char>::empty();
    assert(!white_space(name[0]) && !white_space(name[name.len() - 1]));
    lemma_typed(prefix, "permissions"@, name);
    lemma_by_name(" "@ + name);
    lemma_token_behind_space(name);
    lemma_first_token(name, none);
    assert(name + none =~= name);
    law_permission_mode_is_named_by_its_name(mode);
}

/// `set`, or `option`, takes a word as the key and all that follows it as the value, as it
/// is.
pub proof fn law_an_option_is_a_word_and_the_rest(
    prefix: Seq<char>,
    key: Seq<char>,
    value: Seq<char>,
)
    requires
        prefix.len() > 0,
        !white_space(prefix.first()),
        clean_input(prefix),
        plain_word(key),
        value.len() > 0,
        clean_input(value),
        tight(value, Trimmed::WhiteSpace),
    ensures
        asked(prefix, prefix + "set"@ + " "@ + (key + " "@ + value)) == command(
            BotCommandView::Option { key, value },
        ),
        asked(prefix, prefix + "option"@ + " "@ + (key + " "@ + value)) == command(
            BotCommandView::Option { key, value },
        ),
{
    reveal_strlit(" ");
    let rest = key + " "@ + value;
    assert(rest.first() == key[0]);
    assert(!white_space(key[0]));
    assert(rest.last() == value.last());
    lemma_clean_pair(key, value);
    lemma_typed(prefix, "set"@, rest);
    lemma_typed(prefix, "option"@, rest);
    lemma_by_name(" "@ + rest);
    lemma_token_behind_space(rest);
    lemma_first_token(key, " "@ + value);
    assert(key + (" "@ + value) =~= rest);
    lemma_trim_padded(" "@, value, seq![], Trimmed::WhiteSpace);
    assert(" "@ + value + seq![] =~= " "@ + value);
}

proof fn lemma_clean_pair(front: Seq<char>, back: Seq<char>)
    requires
        clean_input(front),
        clean_input(back),
    ensures
        clean_input(front + " "@ + back),
{
    lemma_clean_line(Seq::<char>::empty(), front, back);
    assert(Seq::<char>::empty() + front + " "@ + back =~= front + " "@ + back);
}

/// The name of a session is taken whole, without white space at its ends; `default` in any
/// case, `-` and a blank name mean the session without a name.
pub proof fn law_a_session_name_is_taken_whole(value: Option<String>, out: Option<String>)
    requires
        call_ensures(normalize_session_name, (value,), out),
    ensures
        value is None ==> out is None,
        value matches Some(raw) ==> opt_text(out) == (if trim(raw@).len() == 0 || lower(trim(raw@))
            == "default"@ || trim(raw@) == "-"@ {
            None
        } else {
            Some(trim(raw@))
        }),
{
}

/// The names of what `session` can do.
proof fn lemma_actions()
    ensures
        plain_word("new"@) && lower("new"@) == "new"@,
        plain_word("use"@) && lower("use"@) == "use"@,
        plain_word("show"@) && lower("show"@) == "show"@,
        plain_word("close"@) && lower("close"@) == "close"@,
        plain_word("list"@) && lower("list"@) == "list"@,
        plain_word("history"@) && lower("history"@) == "history"@,
        "use"@ != "new"@,
        "show"@ != "new"@ && "show"@ != "use"@,
        "close"@ != "new"@ && "close"@ != "use"@ && "close"@ != "show"@,
        "list"@ != "new"@ && "list"@ != "use"@ && "list"@ != "show"@ && "list"@ != "close"@,
        "history"@ != "new"@ && "history"@ != "use"@ && "history"@ != "show"@ && "history"@
            != "close"@ && "history"@ != "list"@,
{
    reveal_strlit("new");
    reveal_strlit("use");
    reveal_strlit("show");
    reveal_strlit("close");
    reveal_strlit("list");
    reveal_strlit("history");
    assert(lower("new"@) =~= "new"@);
    assert(lower("use"@) =~= "use"@);
    assert(lower("show"@) =~= "show"@);
    assert(lower("close"@) =~= "close"@);
    assert(lower("list"@) =~= "list"@);
    assert(lower("history"@) =~= "history"@);
    assert("new"@.len() == 3 && "use"@.len() == 3 && "show"@.len() == 4 && "close"@.len() == 5);
    assert("list"@.len() == 4 && "history"@.len() == 7);
    assert("new"@[0] == 'n' && "use"@[0] == 'u' && "show"@[0] == 's' && "list"@[0] == 'l');
}

proof fn lemma_session(prefix: Seq<char>, action: Seq<char>, value: Seq<char>)
    requires
        prefix.len() > 0,
        !white_space(prefix.first()),
        clean_input(prefix),
        plain_word(action),
        value.len() > 0,
        clean_input(value),
        tight(value, Trimmed::WhiteSpace),
    ensures
        asked(prefix, prefix + "session"@ + " "@ + (action + " "@ + value)) == asked_session(
            " "@ + (action + " "@ + value),
        ),
        token(" "@ + (action + " "@ + value)) == Some((action, " "@ + value)),
        remainder(" "@ + value) == Some(value),
{
    reveal_strlit(" ");
    let rest = action + " "@ + value;
    assert(rest.first() == action[0]);
    assert(!white_space(action[0]));
    assert(rest.last() == value.last());
    lemma_clean_pair(action, value);
    lemma_typed(prefix, "session"@, rest);
    lemma_by_name(" "@ + rest);
    lemma_token_behind_space(rest);
    lemma_first_token(action, " "@ + value);
    assert(action + (" "@ + value) =~= rest);
    lemma_trim_padded(" "@, value, seq![], Trimmed::WhiteSpace);
    assert(" "@ + value + seq![] =~= " "@ + value);
}

/// A session is begun, changed to, shown and closed under the name that is typed, whole, and
/// a history has as many entries as are asked for.
pub proof fn law_sessions_are_typed_by_their_names(
    prefix: Seq<char>,
    name: Seq<char>,
    limit: nat,
)
    requires
        prefix.len() > 0,
        !white_space(prefix.first()),
        clean_input(prefix),
        name.len() > 0,
        clean_input(name),
        tight(name, Trimmed::WhiteSpace),
        lower(name) != "default"@,
        name != "-"@,
        limit <= usize::MAX,
    ensures
        asked(prefix, prefix + "session"@ + " "@ + ("new"@ + " "@ + name)) == command(
            BotCommandView::Session(SessionCommandView::New(Some(name))),
        ),
        asked(prefix, prefix + "session"@ + " "@ + ("use"@ + " "@ + name)) == command(
            BotCommandView::Session(SessionCommandView::Use(Some(name))),
        ),
        asked(prefix, prefix + "session"@ + " "@ + ("show"@ + " "@ + name)) == command(
            BotCommandView::Session(SessionCommandView::Show(Some(name))),
        ),
        asked(prefix, prefix + "session"@ + " "@ + ("close"@ + " "@ + name)) == command(
            BotCommandView::Session(SessionCommandView::Close(Some(name))),
        ),
        asked(prefix, prefix + "session"@ + " "@ + ("history"@ + " "@ + decimal(limit))) == command(
            BotCommandView::Session(SessionCommandView::History(limit)),
        ),
{
    lemma_actions();
    lemma_session(prefix, "new"@, name);
    lemma_session(prefix, "use"@, name);
    lemma_session(prefix, "show"@, name);
    lemma_session(prefix, "close"@, name);
    lemma_trim_keeps_tight(name, Trimmed::WhiteSpace);
    lemma_decimal_typed(limit);
    lemma_session(prefix, "history"@, decimal(limit));
    law_numbers_are_read_back(limit, usize::MAX as nat);
}

proof fn lemma_decimal_typed(n: nat)
    ensures
        decimal(n).len() > 0,
        clean_input(decimal(n)),
        forall|i: int| 0 <= i < decimal(n).len() ==> !white_space(#[trigger] decimal(n)[i]),
        tight(decimal(n), Trimmed::WhiteSpace),
    decreases n,
{
    let all = decimal(n);
    if n >= 10 {
        lemma_decimal_typed(n / 10);
        let less = decimal(n / 10);
        assert forall|i: int| 0 <= i < all.len() implies !white_space(#[trigger] all[i])
            && !disallowed(all[i]) by {
            if i < less.len() {
                assert(all[i] == less[i]);
                assert(!disallowed(less[i]));
            }
        }
    }
    assert(!white_space(all[0]) && !white_space(all[all.len() - 1]));
}

/// A list of sessions needs no more than its name, and a session without a name is meant
/// where none is typed; a history has then ten entries.
pub proof fn law_a_session_without_a_name_is_meant_where_none_is_typed(prefix: Seq<char>)
    requires
        prefix.len() > 0,
        !white_space(prefix.first()),
        clean_input(prefix),
    ensures
        asked(prefix, prefix + "session"@ + " "@ + "list"@) == command(
            BotCommandView::Session(SessionCommandView::List),
        ),
        asked(prefix, prefix + "session"@ + " "@ + "new"@) == command(
            BotCommandView::Session(SessionCommandView::New(None)),
        ),
        asked(prefix, prefix + "session"@ + " "@ + "use"@) == command(
            BotCommandView::Session(SessionCommandView::Use(None)),
        ),
        asked(prefix, prefix + "session"@ + " "@ + "show"@) == command(
            BotCommandView::Session(SessionCommandView::Show(None)),
        ),
        asked(prefix, prefix + "session"@ + " "@ + "close"@) == command(
            BotCommandView::Session(SessionCommandView::Close(None)),
        ),
        asked(prefix, prefix + "session"@ + " "@ + "history"@) == command(
            BotCommandView::Session(SessionCommandView::History(10)),
        ),
{
    lemma_actions();
    lemma_bare_session(prefix, "list"@);
    lemma_bare_session(prefix, "new"@);
    lemma_bare_session(prefix, "use"@);
    lemma_bare_session(prefix, "show"@);
    lemma_bare_session(prefix, "close"@);
    lemma_bare_session(prefix, "history"@);
}

proof fn lemma_bare_session(prefix: Seq<char>, action: Seq<char>)
    requires
        prefix.len() > 0,
        !white_space(prefix.first()),
        clean_input(prefix),
        plain_word(action),
    ensures
        asked(prefix, prefix + "session"@ + " "@ + action) == asked_session(" "@ + action),
        token(" "@ + action) == Some((action, Seq::<char>::empty())),
        remainder(Seq::<char>::empty()) is None,
{
    let none = Seq::<char>::empty();
    assert(!white_space(action[0]) && !white_space(action[action.len() - 1]));
    lemma_typed(prefix, "session"@, action);
    lemma_by_name(" "@ + action);
    lemma_token_behind_space(action);
    lemma_first_token(action, none);
    assert(action + none =~= action);
    lemma_trim_keeps_tight(none, Trimmed::WhiteSpace);
}

/// A name between quotation marks is taken with all that stands between them, white space
/// included.
pub proof fn law_a_quoted_name_is_taken_whole(prefix: Seq<char>, text: Seq<char>)
    requires
        prefix.len() > 0,
        !white_space(prefix.first()),
        clean_input(prefix),
        clean_input(text),
        !text.contains('"'),
    ensures
        ({
            let quoted = seq!['"'] + text + seq!['"'];
            &&& asked(prefix, prefix + "agent"@ + " "@ + quoted) == command(
                BotCommandView::Agent(text),
            )
            &&& asked(prefix, prefix + "mode"@ + " "@ + quoted) == command(
                BotCommandView::Mode(text),
            )
            &&& asked(prefix, prefix + "model"@ + " "@ + quoted) == command(
                BotCommandView::Model(text),
            )
        }),
{
    let quoted = seq!['"'] + text + seq!['"'];
    let n = text.len() as int;
    assert(quoted.first() == '"' && quoted.last() == '"');
    assert(clean_input(quoted)) by {
        assert forall|i: int| 0 <= i < quoted.len() implies !disallowed(#[trigger] quoted[i]) by {
            if 0 < i <= n {
                assert(quoted[i] == text[i - 1]);
            }
        }
    }
    lemma_typed(prefix, "agent"@, quoted);
    lemma_typed(prefix, "mode"@, quoted);
    lemma_typed(prefix, "model"@, quoted);
    lemma_by_name(" "@ + quoted);
    lemma_token_behind_space(quoted);
    assert(trim_start(quoted) == quoted);
    let inner = quoted.skip(1);
    assert(inner =~= text + seq!['"']);
    lemma_find_char(inner, '"');
    assert(inner[n] == '"');
    assert forall|i: int| 0 <= i < n implies inner[i] != '"' by {
        assert(inner[i] == text[i]);
        assert(text.contains(text[i]));
    }
    assert(find(inner, seq!['"']) == Some(n));
    assert(inner.take(n) =~= text);
}

/// The names that are commands.
pub open spec fn is_command_name(name: Seq<char>) -> bool {
    ||| name == "help"@
    ||| name == "pwd"@
    ||| name == "status"@
    ||| name == "cancel"@
    ||| name == "cd"@
    ||| name == "agent"@
    ||| name == "permissions"@
    ||| name == "mode"@
    ||| name == "model"@
    ||| name == "set"@
    ||| name == "option"@
    ||| name == "prompt"@
    ||| name == "exec"@
    ||| name == "shell"@
    ||| name == "session"@
}

/// A word behind the prefix that is no command is told to be none, by its name in small
/// letters, whatever follows it.
pub proof fn law_unknown_commands_are_told_by_their_names(
    prefix: Seq<char>,
    word: Seq<char>,
    rest: Seq<char>,
)
    requires
        prefix.len() == 0 || !white_space(prefix.first()),
        plain_word(word),
        !is_command_name(lower(word)),
        rest.len() == 0 || white_space(rest.first()),
        clean_input(prefix + word + rest),
    ensures
        asked(prefix, prefix + word + rest) == Err::<UserRequestView, BridgeErrorView>(
            BridgeErrorView::CommandParse(
                "未知命令："@ + lower(word) + "，请使用 /help"@,
            ),
        ),
{
    let kept = trim_back(rest, Trimmed::WhiteSpace);
    lemma_trim_back(rest, Trimmed::WhiteSpace);
    lemma_typed_line(prefix, word, rest);
    lemma_first_token(word, kept);
}

/// A command that needs more than its name is refused without it, with what it needs.
pub proof fn law_what_a_command_needs_is_asked_for(prefix: Seq<char>)
    requires
        prefix.len() == 0 || !white_space(prefix.first()),
        clean_input(prefix),
    ensures
        asked(prefix, prefix + "cd"@) == Err::<UserRequestView, BridgeErrorView>(
            BridgeErrorView::CommandParse("cd 需要目录参数"@),
        ),
        asked(prefix, prefix + "agent"@) == Err::<UserRequestView, BridgeErrorView>(
            BridgeErrorView::CommandParse("agent 需要 agent 名称"@),
        ),
        asked(prefix, prefix + "permissions"@) == Err::<UserRequestView, BridgeErrorView>(
            BridgeErrorView::CommandParse("permissions 需要权限模式"@),
        ),
        asked(prefix, prefix + "mode"@) == Err::<UserRequestView, BridgeErrorView>(
            BridgeErrorView::CommandParse("mode 需要 mode 值"@),
        ),
        asked(prefix, prefix + "model"@) == Err::<UserRequestView, BridgeErrorView>(
            BridgeErrorView::CommandParse("model 需要模型名"@),
        ),
        asked(prefix, prefix + "set"@) == Err::<UserRequestView, BridgeErrorView>(
            BridgeErrorView::CommandParse("set 需要 key"@),
        ),
        asked(prefix, prefix + "prompt"@) == Err::<UserRequestView, BridgeErrorView>(
            BridgeErrorView::CommandParse("prompt 需要文本"@),
        ),
        asked(prefix, prefix + "exec"@) == Err::<UserRequestView, BridgeErrorView>(
            BridgeErrorView::CommandParse("exec 需要文本"@),
        ),
        asked(prefix, prefix + "shell"@) == Err::<UserRequestView, BridgeErrorView>(
            BridgeErrorView::CommandParse("shell 需要系统命令"@),
        ),
        asked(prefix, prefix + "session"@) == Err::<UserRequestView, BridgeErrorView>(
            BridgeErrorView::CommandParse(
                "session 需要子命令，例如 new/use/show/close/list/history"@,
            ),
        ),
{
    let none = Seq::<char>::empty();
    lemma_by_name(none);
    lemma_trim_keeps_tight(none, Trimmed::WhiteSpace);
    assert(token(none) is None);
    assert(remainder(none) is None);
    lemma_bare_name(prefix, "cd"@);
    lemma_bare_name(prefix, "agent"@);
    lemma_bare_name(prefix, "permissions"@);
    lemma_bare_name(prefix, "mode"@);
    lemma_bare_name(prefix, "model"@);
    lemma_bare_name(prefix, "set"@);
    lemma_bare_name(prefix, "prompt"@);
    lemma_bare_name(prefix, "exec"@);
    lemma_bare_name(prefix, "shell"@);
    lemma_bare_name(prefix, "session"@);
}

proof fn lemma_bare_name(prefix: Seq<char>, name: Seq<char>)
    requires
        prefix.len() == 0 || !white_space(prefix.first()),
        clean_input(prefix),
        ({
            ||| name == "cd"@
            ||| name == "agent"@
            ||| name == "permissions"@
            ||| name == "mode"@
            ||| name == "model"@
            ||| name == "set"@
            ||| name == "prompt"@
            ||| name == "exec"@
            ||| name == "shell"@
            ||| name == "session"@
        }),
    ensures
        asked(prefix, prefix + name) == asked_by_name(name, Seq::<char>::empty()),
{
    reveal_strlit("cd");
    reveal_strlit("agent");
    reveal_strlit("permissions");
    reveal_strlit("mode");
    reveal_strlit("model");
    reveal_strlit("set");
    reveal_strlit("prompt");
    reveal_strlit("exec");
    reveal_strlit("shell");
    reveal_strlit("session");
    let none = Seq::<char>::empty();
    let raw = prefix + name + none;
    assert(raw =~= prefix + name);
    assert(name + none =~= name);
    assert(clean_input(name));
    assert forall|i: int| 0 <= i < raw.len() implies !disallowed(#[trigger] raw[i]) by {
        if i < prefix.len() {
            assert(raw[i] == prefix[i]);
        } else {
            assert(raw[i] == name[i - prefix.len()]);
        }
    }
    assert(lower(name) =~= name);
    lemma_typed_line(prefix, name, none);
    lemma_trim_back(none, Trimmed::WhiteSpace);
    assert(trim_back(none, Trimmed::WhiteSpace) =~= none);
    lemma_first_token(name, none);
}

} // verus!
