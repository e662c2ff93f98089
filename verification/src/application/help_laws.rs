//! The help and what the bridge understands agree.
use vstd::prelude::*;

use crate::application::command::{
    asked, asked_by_name, asked_command, asked_session, clean_input, token, unparsed, Asked,
    UserRequestView,
};
use crate::application::command_laws::lemma_first_token;
use crate::application::render::{help, help_line, help_lines, help_text, usages};
use crate::error::BridgeErrorView;
use crate::text::chars::{lower, white_space};
use crate::text::lines::{join, lemma_lines_of_joined, lines, whole_line, without_return};
use crate::text::trim::{lemma_trim_keeps_tight, lemma_trim_padded, tight, trim_start, Trimmed};

verus! {

/// What is said of a command that there is not.
pub open spec fn unknown_command(name: Seq<char>) -> BridgeErrorView {
    unparsed("未知命令："@ + name + "，请使用 /help"@)
}

/// What is said of a command on sessions that there is not.
pub open spec fn unknown_action(action: Seq<char>) -> BridgeErrorView {
    unparsed("未知 session 子命令："@ + action)
}

/// A text was taken for a command, and its name is one that there is.
pub open spec fn understood(result: Asked) -> bool {
    match result {
        Ok(UserRequestView::Command(_)) => true,
        Ok(UserRequestView::Prompt(_)) => false,
        Err(error) => forall|name: Seq<char>|
            error != #[trigger] unknown_command(name) && error != unknown_action(name),
    }
}

/// A fault that is told in words with another beginning is no unknown name.
proof fn lemma_other_fault(message: Seq<char>)
    requires
        message.len() > 0,
        message[0] != '未',
    ensures
        understood(Err(unparsed(message))),
{
    reveal_strlit("未知命令：");
    reveal_strlit("，请使用 /help");
    reveal_strlit("未知 session 子命令：");
    assert forall|name: Seq<char>|
        unparsed(message) != #[trigger] unknown_command(name) && unparsed(message)
            != unknown_action(name) by {
        assert(("未知命令："@ + name + "，请使用 /help"@)[0] == '未');
        assert(("未知 session 子命令："@ + name)[0] == '未');
    }
}

proof fn lemma_commands_are_understood(name: Seq<char>, rest: Seq<char>)
    requires
        name == "help"@ || name == "pwd"@ || name == "status"@ || name == "cancel"@ || name == "cd"@ || name == "agent"@ || name == "permissions"@ || name == "mode"@ || name == "model"@ || name == "set"@ || name == "option"@ || name == "prompt"@ || name == "exec"@ || name == "shell"@,
    ensures
        understood(asked_by_name(name, rest)),
{
    reveal_strlit("cd 需要目录参数");
    lemma_other_fault("cd 需要目录参数"@);
    reveal_strlit("agent 需要 agent 名称");
    lemma_other_fault("agent 需要 agent 名称"@);
    reveal_strlit("permissions 需要权限模式");
    lemma_other_fault("permissions 需要权限模式"@);
    reveal_strlit("权限模式必须是 approve-all / approve-reads / deny-all");
    lemma_other_fault("权限模式必须是 approve-all / approve-reads / deny-all"@);
    reveal_strlit("mode 需要 mode 值");
    lemma_other_fault("mode 需要 mode 值"@);
    reveal_strlit("model 需要模型名");
    lemma_other_fault("model 需要模型名"@);
    reveal_strlit("set 需要 key");
    lemma_other_fault("set 需要 key"@);
    reveal_strlit("set 需要 value");
    lemma_other_fault("set 需要 value"@);
    reveal_strlit("prompt 需要文本");
    lemma_other_fault("prompt 需要文本"@);
    reveal_strlit("exec 需要文本");
    lemma_other_fault("exec 需要文本"@);
    reveal_strlit("shell 需要系统命令");
    lemma_other_fault("shell 需要系统命令"@);
}

proof fn lemma_session_commands_are_understood(action: Seq<char>, tail: Seq<char>)
    requires
        action.len() > 0,
        forall|i: int| 0 <= i < action.len() ==> !white_space(#[trigger] action[i]),
        action.first() != '"',
        action.first() != '\'',
        lower(action) == action,
        action == "new"@ || action == "use"@ || action == "show"@ || action == "close"@ || action == "list"@ || action == "history"@,
        tail.len() == 0 || white_space(tail.first()),
    ensures
        understood(asked_session(action + tail)),
{
    lemma_first_token(action, tail);
    reveal_strlit("session 需要子命令，例如 new/use/show/close/list/history");
    lemma_other_fault("session 需要子命令，例如 new/use/show/close/list/history"@);
    reveal_strlit("history limit 必须是正整数");
    lemma_other_fault("history limit 必须是正整数"@);
}

/// The word is written in small letters, without white space and quotation marks.
pub open spec fn plain_word(word: Seq<char>) -> bool {
    &&& word.len() > 0
    &&& forall|i: int| 0 <= i < word.len() ==> !white_space(#[trigger] word[i])
    &&& word.first() != '"'
    &&& word.first() != '\''
    &&& lower(word) == word
}

proof fn lemma_plain_names(name: Seq<char>)
    requires
        name == "pwd"@ || name == "status"@ || name == "cancel"@ || name == "cd"@ || name == "agent"@ || name == "permissions"@ || name == "mode"@ || name == "model"@ || name == "set"@ || name == "exec"@ || name == "shell"@ || name == "session"@ || name == "new"@ || name == "use"@ || name == "show"@ || name == "close"@ || name == "list"@ || name == "history"@,
    ensures
        plain_word(name),
{
    reveal_strlit("pwd");
    reveal_strlit("status");
    reveal_strlit("cancel");
    reveal_strlit("cd");
    reveal_strlit("agent");
    reveal_strlit("permissions");
    reveal_strlit("mode");
    reveal_strlit("model");
    reveal_strlit("set");
    reveal_strlit("exec");
    reveal_strlit("shell");
    reveal_strlit("session");
    reveal_strlit("new");
    reveal_strlit("use");
    reveal_strlit("show");
    reveal_strlit("close");
    reveal_strlit("list");
    reveal_strlit("history");
    assert(lower(name) =~= name);
}

/// The line of a command.
proof fn lemma_usage(name: Seq<char>, rest: Seq<char>)
    requires
        name == "pwd"@ || name == "status"@ || name == "cancel"@ || name == "cd"@ || name == "agent"@ || name == "permissions"@ || name == "mode"@ || name == "model"@ || name == "set"@ || name == "exec"@ || name == "shell"@,
        rest.len() == 0 || white_space(rest.first()),
    ensures
        understood(asked_command(name + rest)),
{
    lemma_plain_names(name);
    lemma_first_token(name, rest);
    lemma_commands_are_understood(name, rest);
}

/// The line of a command on sessions.
proof fn lemma_session_usage(action: Seq<char>, tail: Seq<char>)
    requires
        action == "new"@ || action == "use"@ || action == "show"@ || action == "close"@ || action == "list"@ || action == "history"@,
        tail.len() == 0 || white_space(tail.first()),
    ensures
        understood(asked_command("session"@ + (" "@ + action + tail))),
{
    reveal_strlit(" ");
    let rest = " "@ + action + tail;
    lemma_plain_names("session"@);
    lemma_plain_names(action);
    lemma_first_token("session"@, rest);
    lemma_session_commands_are_understood(action, tail);
    assert(rest.drop_first() =~= action + tail);
    assert((action + tail).first() == action[0]);
    assert(trim_start(action + tail) == action + tail);
    assert(trim_start(rest) == trim_start(action + tail));
    assert(token(rest) == token(action + tail));
    lemma_session_is_last(rest);
}

/// No other command is called `session`.
proof fn lemma_session_is_last(rest: Seq<char>)
    ensures
        asked_by_name("session"@, rest) == asked_session(rest),
{
    reveal_strlit("session");
    reveal_strlit("help");
    reveal_strlit("pwd");
    reveal_strlit("status");
    reveal_strlit("cancel");
    reveal_strlit("cd");
    reveal_strlit("agent");
    reveal_strlit("permissions");
    reveal_strlit("mode");
    reveal_strlit("model");
    reveal_strlit("set");
    reveal_strlit("option");
    reveal_strlit("prompt");
    reveal_strlit("exec");
    reveal_strlit("shell");
    assert("session"@.len() == 7);
}

/// A command behind the prefix and a space is that command.
proof fn lemma_spaced_command(prefix: Seq<char>, usage: Seq<char>)
    requires
        prefix.len() == 0 || !white_space(prefix.first()),
        usage.len() > 0,
        tight(usage, Trimmed::WhiteSpace),
        clean_input(help_line(prefix, usage)),
    ensures
        asked(prefix, help_line(prefix, usage)) == asked_command(usage),
{
    reveal_strlit(" ");
    let off = Trimmed::WhiteSpace;
    let raw = help_line(prefix, usage);
    let none = Seq::<char>::empty();
    lemma_trim_padded(" "@, usage, none, off);
    assert(" "@ + usage + none =~= " "@ + usage);
    lemma_trim_keeps_tight(usage, off);
    if prefix.len() == 0 {
        assert(raw =~= " "@ + usage);
        assert(usage.take(0) =~= prefix);
        assert(usage.skip(0) =~= usage);
    } else {
        assert(raw.first() == prefix[0]);
        assert(raw.last() == usage.last());
        lemma_trim_keeps_tight(raw, off);
        assert(raw.take(prefix.len() as int) =~= prefix);
        assert(raw.skip(prefix.len() as int) =~= " "@ + usage);
    }
}

/// Every usage is a line of its own, and one that is understood.
proof fn lemma_usages(i: int)
    requires
        0 <= i < usages().len(),
    ensures
        usages()[i].len() > 0,
        tight(usages()[i], Trimmed::WhiteSpace),
        understood(asked_command(usages()[i])),
        whole_line(usages()[i]),
{
    if i == 0 {
        lemma_usage_pwd();
    }
    if i == 1 {
        lemma_usage_cd();
    }
    if i == 2 {
        lemma_usage_agent();
    }
    if i == 3 {
        lemma_usage_permissions();
    }
    if i == 4 {
        lemma_usage_session_new();
    }
    if i == 5 {
        lemma_usage_session_use();
    }
    if i == 6 {
        lemma_usage_session_show();
    }
    if i == 7 {
        lemma_usage_session_close();
    }
    if i == 8 {
        lemma_usage_session_list();
    }
    if i == 9 {
        lemma_usage_session_history();
    }
    if i == 10 {
        lemma_usage_status();
    }
    if i == 11 {
        lemma_usage_mode();
    }
    if i == 12 {
        lemma_usage_model();
    }
    if i == 13 {
        lemma_usage_set();
    }
    if i == 14 {
        lemma_usage_exec();
    }
    if i == 15 {
        lemma_usage_shell();
    }
    if i == 16 {
        lemma_usage_cancel();
    }
}

proof fn lemma_usage_pwd()
    ensures
        "pwd"@.len() > 0,
        tight("pwd"@, Trimmed::WhiteSpace),
        understood(asked_command("pwd"@)),
        whole_line("pwd"@),
{
    reveal_strlit("pwd");
    lemma_usage("pwd"@, Seq::<char>::empty());
    assert("pwd"@ + Seq::<char>::empty() =~= "pwd"@);
}

proof fn lemma_usage_cd()
    ensures
        "cd <dir>"@.len() > 0,
        tight("cd <dir>"@, Trimmed::WhiteSpace),
        understood(asked_command("cd <dir>"@)),
        whole_line("cd <dir>"@),
{
    reveal_strlit("cd <dir>");
    reveal_strlit("cd");
    reveal_strlit(" <dir>");
    lemma_usage("cd"@, " <dir>"@);
    assert("cd"@ + " <dir>"@ =~= "cd <dir>"@);
}

proof fn lemma_usage_agent()
    ensures
        "agent <agent>"@.len() > 0,
        tight("agent <agent>"@, Trimmed::WhiteSpace),
        understood(asked_command("agent <agent>"@)),
        whole_line("agent <agent>"@),
{
    reveal_strlit("agent <agent>");
    reveal_strlit("agent");
    reveal_strlit(" <agent>");
    lemma_usage("agent"@, " <agent>"@);
    assert("agent"@ + " <agent>"@ =~= "agent <agent>"@);
}

proof fn lemma_usage_permissions()
    ensures
        "permissions <approve-all|approve-reads|deny-all>"@.len() > 0,
        tight("permissions <approve-all|approve-reads|deny-all>"@, Trimmed::WhiteSpace),
        understood(asked_command("permissions <approve-all|approve-reads|deny-all>"@)),
        whole_line("permissions <approve-all|approve-reads|deny-all>"@),
{
    reveal_strlit("permissions <approve-all|approve-reads|deny-all>");
    reveal_strlit("permissions");
    reveal_strlit(" <approve-all|approve-reads|deny-all>");
    lemma_usage("permissions"@, " <approve-all|approve-reads|deny-all>"@);
    assert("permissions"@ + " <approve-all|approve-reads|deny-all>"@ =~= "permissions <approve-all|approve-reads|deny-all>"@);
}

proof fn lemma_usage_session_new()
    ensures
        "session new [name]"@.len() > 0,
        tight("session new [name]"@, Trimmed::WhiteSpace),
        understood(asked_command("session new [name]"@)),
        whole_line("session new [name]"@),
{
    reveal_strlit("session new [name]");
    reveal_strlit("session");
    reveal_strlit(" ");
    reveal_strlit("new");
    reveal_strlit(" [name]");
    lemma_session_usage("new"@, " [name]"@);
    assert("session"@ + (" "@ + "new"@ + " [name]"@) =~= "session new [name]"@);
}

proof fn lemma_usage_session_use()
    ensures
        "session use [name|default]"@.len() > 0,
        tight("session use [name|default]"@, Trimmed::WhiteSpace),
        understood(asked_command("session use [name|default]"@)),
        whole_line("session use [name|default]"@),
{
    reveal_strlit("session use [name|default]");
    reveal_strlit("session");
    reveal_strlit(" ");
    reveal_strlit("use");
    reveal_strlit(" [name|default]");
    lemma_session_usage("use"@, " [name|default]"@);
    assert("session"@ + (" "@ + "use"@ + " [name|default]"@) =~= "session use [name|default]"@);
}

proof fn lemma_usage_session_show()
    ensures
        "session show [name]"@.len() > 0,
        tight("session show [name]"@, Trimmed::WhiteSpace),
        understood(asked_command("session show [name]"@)),
        whole_line("session show [name]"@),
{
    reveal_strlit("session show [name]");
    reveal_strlit("session");
    reveal_strlit(" ");
    reveal_strlit("show");
    reveal_strlit(" [name]");
    lemma_session_usage("show"@, " [name]"@);
    assert("session"@ + (" "@ + "show"@ + " [name]"@) =~= "session show [name]"@);
}

proof fn lemma_usage_session_close()
    ensures
        "session close [name]"@.len() > 0,
        tight("session close [name]"@, Trimmed::WhiteSpace),
        understood(asked_command("session close [name]"@)),
        whole_line("session close [name]"@),
{
    reveal_strlit("session close [name]");
    reveal_strlit("session");
    reveal_strlit(" ");
    reveal_strlit("close");
    reveal_strlit(" [name]");
    lemma_session_usage("close"@, " [name]"@);
    assert("session"@ + (" "@ + "close"@ + " [name]"@) =~= "session close [name]"@);
}

proof fn lemma_usage_session_list()
    ensures
        "session list"@.len() > 0,
        tight("session list"@, Trimmed::WhiteSpace),
        understood(asked_command("session list"@)),
        whole_line("session list"@),
{
    reveal_strlit("session list");
    reveal_strlit("session");
    reveal_strlit(" ");
    reveal_strlit("list");
    lemma_session_usage("list"@, Seq::<char>::empty());
    assert("session"@ + (" "@ + "list"@ + Seq::<char>::empty()) =~= "session list"@);
}

proof fn lemma_usage_session_history()
    ensures
        "session history [limit]"@.len() > 0,
        tight("session history [limit]"@, Trimmed::WhiteSpace),
        understood(asked_command("session history [limit]"@)),
        whole_line("session history [limit]"@),
{
    reveal_strlit("session history [limit]");
    reveal_strlit("session");
    reveal_strlit(" ");
    reveal_strlit("history");
    reveal_strlit(" [limit]");
    lemma_session_usage("history"@, " [limit]"@);
    assert("session"@ + (" "@ + "history"@ + " [limit]"@) =~= "session history [limit]"@);
}

proof fn lemma_usage_status()
    ensures
        "status"@.len() > 0,
        tight("status"@, Trimmed::WhiteSpace),
        understood(asked_command("status"@)),
        whole_line("status"@),
{
    reveal_strlit("status");
    lemma_usage("status"@, Seq::<char>::empty());
    assert("status"@ + Seq::<char>::empty() =~= "status"@);
}

proof fn lemma_usage_mode()
    ensures
        "mode <mode>"@.len() > 0,
        tight("mode <mode>"@, Trimmed::WhiteSpace),
        understood(asked_command("mode <mode>"@)),
        whole_line("mode <mode>"@),
{
    reveal_strlit("mode <mode>");
    reveal_strlit("mode");
    reveal_strlit(" <mode>");
    lemma_usage("mode"@, " <mode>"@);
    assert("mode"@ + " <mode>"@ =~= "mode <mode>"@);
}

proof fn lemma_usage_model()
    ensures
        "model <model>"@.len() > 0,
        tight("model <model>"@, Trimmed::WhiteSpace),
        understood(asked_command("model <model>"@)),
        whole_line("model <model>"@),
{
    reveal_strlit("model <model>");
    reveal_strlit("model");
    reveal_strlit(" <model>");
    lemma_usage("model"@, " <model>"@);
    assert("model"@ + " <model>"@ =~= "model <model>"@);
}

proof fn lemma_usage_set()
    ensures
        "set <key> <value>"@.len() > 0,
        tight("set <key> <value>"@, Trimmed::WhiteSpace),
        understood(asked_command("set <key> <value>"@)),
        whole_line("set <key> <value>"@),
{
    reveal_strlit("set <key> <value>");
    reveal_strlit("set");
    reveal_strlit(" <key> <value>");
    lemma_usage("set"@, " <key> <value>"@);
    assert("set"@ + " <key> <value>"@ =~= "set <key> <value>"@);
}

proof fn lemma_usage_exec()
    ensures
        "exec <text>"@.len() > 0,
        tight("exec <text>"@, Trimmed::WhiteSpace),
        understood(asked_command("exec <text>"@)),
        whole_line("exec <text>"@),
{
    reveal_strlit("exec <text>");
    reveal_strlit("exec");
    reveal_strlit(" <text>");
    lemma_usage("exec"@, " <text>"@);
    assert("exec"@ + " <text>"@ =~= "exec <text>"@);
}

proof fn lemma_usage_shell()
    ensures
        "shell <command>"@.len() > 0,
        tight("shell <command>"@, Trimmed::WhiteSpace),
        understood(asked_command("shell <command>"@)),
        whole_line("shell <command>"@),
{
    reveal_strlit("shell <command>");
    reveal_strlit("shell");
    reveal_strlit(" <command>");
    lemma_usage("shell"@, " <command>"@);
    assert("shell"@ + " <command>"@ =~= "shell <command>"@);
}

proof fn lemma_usage_cancel()
    ensures
        "cancel"@.len() > 0,
        tight("cancel"@, Trimmed::WhiteSpace),
        understood(asked_command("cancel"@)),
        whole_line("cancel"@),
{
    reveal_strlit("cancel");
    lemma_usage("cancel"@, Seq::<char>::empty());
    assert("cancel"@ + Seq::<char>::empty() =~= "cancel"@);
}

/// The help has a line for each command, the commands that it names are understood
/// as it writes them, and its lines are what a reader takes for lines. A prefix that
/// begins with white space is never found in front of a command, and one that holds
/// a line feed breaks the lines.
pub proof fn law_the_help_is_understood(prefix: Seq<char>, i: int)
    requires
        prefix.len() == 0 || !white_space(prefix.first()),
        0 <= i < usages().len(),
    ensures
        usages().len() == 17,
        help_lines(prefix)[i + 1] == help_line(prefix, usages()[i]),
        !prefix.contains('\n') ==> lines(help(prefix)) == help_lines(prefix),
        understood(asked(prefix, help_line(prefix, usages()[i]))),
{
    let usage = usages()[i];
    lemma_usages(i);
    if clean_input(help_line(prefix, usage)) {
        lemma_spaced_command(prefix, usage);
    }
    if !prefix.contains('\n') {
        lemma_help_lines(prefix);
    }
}

proof fn lemma_help_lines(prefix: Seq<char>)
    requires
        !prefix.contains('\n'),
    ensures
        lines(help(prefix)) == help_lines(prefix),
{
    reveal_strlit(" ");
    reveal_strlit("");
    reveal_strlit("可用命令：");
    reveal_strlit("普通文本消息会直接发送给当前 Codex 会话。");
    let list = help_lines(prefix);
    assert forall|i: int| 0 <= i < list.len() implies whole_line(#[trigger] list[i]) by {
        if 0 < i <= usages().len() {
            let usage = usages()[i - 1];
            lemma_usages(i - 1);
            let line = help_line(prefix, usage);
            assert(list[i] == line);
            assert(line.last() == usage.last());
            assert(without_return(line) == line);
            if line.contains('\n') {
                let j = choose|j: int| 0 <= j < line.len() && line[j] == '\n';
                if j < prefix.len() {
                    assert(prefix.contains(prefix[j]));
                } else if j > prefix.len() {
                    assert(usage.contains(usage[j - prefix.len() - 1]));
                }
            }
        }
    }
    lemma_lines_of_joined(list);
}

/// The help begins with a heading and ends with what happens to any other text; between them
/// it has one line for each command, the prefix before it, and an empty line.
pub proof fn law_the_help_has_a_heading_and_an_end(prefix: &str, out: String, i: int)
    requires
        call_ensures(help_text, (prefix,), out),
        0 <= i < 17,
    ensures
        out@ == join(help_lines(prefix@), "\n"@),
        help_lines(prefix@).len() == 20,
        help_lines(prefix@)[0] == "可用命令："@,
        help_lines(prefix@)[i + 1] == prefix@ + " "@ + usages()[i],
        help_lines(prefix@)[18] == ""@,
        help_lines(prefix@)[19] == "普通文本消息会直接发送给当前 Codex 会话。"@,
{
}

} // verus!
