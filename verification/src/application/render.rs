//! What the user reads of sessions, contexts and shell commands.
use vstd::prelude::*;

use crate::domain::{
    ConversationBinding, ConversationBindingView, SessionHistoryEntry, SessionRecord,
    SessionStatus, SessionSummary, ShellOutput,
};
use crate::paths::{same_path_on, same_way};
use crate::platform::{family_by, Platform, System};
use crate::support::{shorten, shortened};
use crate::text::chars::{opt_text, same_opt_text, str_or, text_or, texts, to_chars};
use crate::text::lines::{join, join_texts, join_two, slice_words, words};
use crate::text::number::{signed_decimal, signed_decimal_text};
use crate::text::order::{
    lemma_not_precedes_transitive, lemma_precedes_one_way, lemma_precedes_transitive, precedes, text_precedes,
};
use crate::text::trim::{trim, trim_text};

verus! {

/// The commands as they are typed behind the prefix, with what follows their names.
pub open spec fn usages() -> Seq<Seq<char>> {
    seq![
        "pwd"@,
        "cd <dir>"@,
        "agent <agent>"@,
        "permissions <approve-all|approve-reads|deny-all>"@,
        "session new [name]"@,
        "session use [name|default]"@,
        "session show [name]"@,
        "session close [name]"@,
        "session list"@,
        "session history [limit]"@,
        "status"@,
        "mode <mode>"@,
        "model <model>"@,
        "set <key> <value>"@,
        "exec <text>"@,
        "shell <command>"@,
        "cancel"@,
    ]
}

/// A line of the help: the prefix and a command behind it.
pub open spec fn help_line(prefix: Seq<char>, usage: Seq<char>) -> Seq<char> {
    prefix + " "@ + usage
}

/// The lines of the help: the commands, one to a line, and what happens to any other
/// text.
pub open spec fn help_lines(prefix: Seq<char>) -> Seq<Seq<char>> {
    seq!["可用命令："@] + usages().map_values(|usage: Seq<char>| help_line(prefix, usage)) + seq![
        ""@,
        "普通文本消息会直接发送给当前 Codex 会话。"@,
    ]
}

/// The commands, one to a line, and what happens to any other text.
pub open spec fn help(prefix: Seq<char>) -> Seq<char> {
    join(help_lines(prefix), "\n"@)
}

fn push_help_line(out: &mut Vec<String>, prefix: &str, usage: &str)
    ensures
        texts(final(out)@) == texts(old(out)@).push(help_line(prefix@, usage@)),
{
    let mut line = join_two(prefix, " ");
    line.append(usage);
    out.push(line);
    assert(texts(out@) =~= texts(old(out)@).push(help_line(prefix@, usage@)));
}

/// The commands, one to a line, and what happens to any other text.
pub fn help_text(prefix: &str) -> (out: String)
    ensures
        out@ == help(prefix@),
{
    let mut lines: Vec<String> = Vec::new();
    lines.push("可用命令：".to_owned());
    assert(texts(lines@) =~= seq!["可用命令："@]);
    push_help_line(&mut lines, prefix, "pwd");
    push_help_line(&mut lines, prefix, "cd <dir>");
    push_help_line(&mut lines, prefix, "agent <agent>");
    push_help_line(&mut lines, prefix, "permissions <approve-all|approve-reads|deny-all>");
    push_help_line(&mut lines, prefix, "session new [name]");
    push_help_line(&mut lines, prefix, "session use [name|default]");
    push_help_line(&mut lines, prefix, "session show [name]");
    push_help_line(&mut lines, prefix, "session close [name]");
    push_help_line(&mut lines, prefix, "session list");
    push_help_line(&mut lines, prefix, "session history [limit]");
    push_help_line(&mut lines, prefix, "status");
    push_help_line(&mut lines, prefix, "mode <mode>");
    push_help_line(&mut lines, prefix, "model <model>");
    push_help_line(&mut lines, prefix, "set <key> <value>");
    push_help_line(&mut lines, prefix, "exec <text>");
    push_help_line(&mut lines, prefix, "shell <command>");
    push_help_line(&mut lines, prefix, "cancel");
    let ghost before = texts(lines@);
    assert(before =~= seq!["可用命令："@] + usages().map_values(
        |usage: Seq<char>| help_line(prefix@, usage),
    ));
    lines.push("".to_owned());
    lines.push("普通文本消息会直接发送给当前 Codex 会话。".to_owned());
    assert(texts(lines@) =~= before.push(""@).push("普通文本消息会直接发送给当前 Codex 会话。"@));
    assert(texts(lines@) =~= help_lines(prefix@));
    join_texts(&lines, "\n")
}

/// The context of a conversation.
pub open spec fn context(binding: ConversationBindingView) -> Seq<char> {
    "当前上下文\ncwd: "@ + binding.cwd + "\nagent: "@ + binding.agent + "\nsession: "@ + text_or(
        binding.session_name,
        "default"@,
    ) + "\npermissions: "@ + binding.permission_mode.name()
}

/// The context of a conversation.
pub fn binding_text(binding: &ConversationBinding) -> (out: String)
    ensures
        out@ == context(binding@),
{
    let mut out = "当前上下文\ncwd: ".to_owned();
    out.append(binding.cwd.as_str());
    out.append("\nagent: ");
    out.append(binding.agent.as_str());
    out.append("\nsession: ");
    out.append(str_or(&binding.session_name, "default"));
    out.append("\npermissions: ");
    out.append(binding.permission_mode.as_str());
    out
}

/// What was done, and to which session.
pub open spec fn session_summary(summary: SessionSummary, action: Seq<char>) -> Seq<char> {
    action + "\nrecord: "@ + summary.record_id@ + "\nsession: "@ + text_or(
        opt_text(summary.name),
        "default"@,
    )
}

/// What was done, and to which session.
pub fn session_summary_text(summary: &SessionSummary, action: &str) -> (out: String)
    ensures
        out@ == session_summary(*summary, action@),
{
    let mut out = action.to_owned();
    out.append("\nrecord: ");
    out.append(summary.record_id.as_str());
    out.append("\nsession: ");
    out.append(str_or(&summary.name, "default"));
    out
}

/// Everything that is known of a session.
pub open spec fn session_record(record: SessionRecord) -> Seq<char> {
    "session detail\nrecord: "@ + record.record_id@ + "\nacp_session: "@ + record.acp_session_id@
        + "\nagent_session: "@ + text_or(opt_text(record.agent_session_id), "-"@) + "\nagent: "@
        + record.agent@ + "\ncwd: "@ + record.cwd@ + "\nname: "@ + text_or(
        opt_text(record.name),
        "default"@,
    ) + "\ntitle: "@ + text_or(opt_text(record.title), "-"@) + "\nfirst_user: "@ + text_or(
        opt_text(record.first_user_preview),
        "-"@,
    ) + "\ncreated_at: "@ + record.created_at@ + "\nlast_used_at: "@ + record.last_used_at@
        + "\nlast_prompt_at: "@ + text_or(opt_text(record.last_prompt_at), "-"@) + "\nclosed: "@
        + (if record.closed {
        "yes"@
    } else {
        "no"@
    }) + "\nmodel: "@ + text_or(opt_text(record.model), "-"@) + "\nmode: "@ + text_or(
        opt_text(record.mode),
        "-"@,
    )
}

/// Everything that is known of a session.
pub fn session_record_text(record: &SessionRecord) -> (out: String)
    ensures
        out@ == session_record(*record),
{
    let mut out = "session detail\nrecord: ".to_owned();
    out.append(record.record_id.as_str());
    out.append("\nacp_session: ");
    out.append(record.acp_session_id.as_str());
    out.append("\nagent_session: ");
    out.append(str_or(&record.agent_session_id, "-"));
    out.append("\nagent: ");
    out.append(record.agent.as_str());
    out.append("\ncwd: ");
    out.append(record.cwd.as_str());
    out.append("\nname: ");
    out.append(str_or(&record.name, "default"));
    out.append("\ntitle: ");
    out.append(str_or(&record.title, "-"));
    out.append("\nfirst_user: ");
    out.append(str_or(&record.first_user_preview, "-"));
    out.append("\ncreated_at: ");
    out.append(record.created_at.as_str());
    out.append("\nlast_used_at: ");
    out.append(record.last_used_at.as_str());
    out.append("\nlast_prompt_at: ");
    out.append(str_or(&record.last_prompt_at, "-"));
    out.append("\nclosed: ");
    out.append(
        if record.closed {
            "yes"
        } else {
            "no"
        },
    );
    out.append("\nmodel: ");
    out.append(str_or(&record.model, "-"));
    out.append("\nmode: ");
    out.append(str_or(&record.mode, "-"));
    out
}

/// The record is of the session that the conversation is in, as far as the
/// context tells: the same directory and the same name.
pub open spec fn fits(
    platform: Platform,
    record: SessionRecord,
    current: ConversationBindingView,
) -> bool {
    &&& same_way(platform, record.cwd@, current.cwd)
    &&& opt_text(record.name) == current.session_name
}

/// The first record is out of date beside the second: it is closed and the other
/// is open, or it was used before the other.
pub open spec fn older(left: SessionRecord, right: SessionRecord) -> bool {
    if left.closed == right.closed {
        precedes(left.last_used_at@, right.last_used_at@)
    } else {
        left.closed
    }
}

/// The record at the given place fits, and of those that fit none is newer; of
/// several that are equally new it is the last.
pub open spec fn newest_fit(
    platform: Platform,
    records: Seq<SessionRecord>,
    current: ConversationBindingView,
    at: int,
) -> bool {
    &&& 0 <= at < records.len()
    &&& fits(platform, records[at], current)
    &&& forall|j: int|
        0 <= j < at && fits(platform, #[trigger] records[j], current) ==> !older(records[at], records[j])
    &&& forall|j: int|
        at < j < records.len() && fits(platform, #[trigger] records[j], current) ==> older(
            records[j],
            records[at],
        )
}

/// The place of the record of the session that the conversation is in.
pub open spec fn current_index(
    platform: Platform,
    records: Seq<SessionRecord>,
    current: ConversationBindingView,
) -> Option<int> {
    if exists|at: int| newest_fit(platform, records, current, at) {
        Some(choose|at: int| newest_fit(platform, records, current, at))
    } else {
        None
    }
}

/// There is at most one such place.
proof fn lemma_current_index(
    platform: Platform,
    records: Seq<SessionRecord>,
    current: ConversationBindingView,
    at: int,
)
    requires
        newest_fit(platform, records, current, at),
    ensures
        current_index(platform, records, current) == Some(at),
{
    let found = choose|at: int| newest_fit(platform, records, current, at);
    assert(newest_fit(platform, records, current, found));
    if found < at {
        assert(older(records[at], records[found]));
    } else if at < found {
        assert(older(records[found], records[at]));
    }
}

/// Of two records at most one is out of date beside the other.
pub proof fn lemma_older_one_way(left: SessionRecord, right: SessionRecord)
    ensures
        older(left, right) ==> !older(right, left),
{
    if left.closed == right.closed {
        lemma_precedes_one_way(left.last_used_at@, right.last_used_at@);
    }
}

pub proof fn lemma_older_transitive(a: SessionRecord, b: SessionRecord, c: SessionRecord)
    ensures
        older(a, b) && older(b, c) ==> older(a, c),
        !older(a, b) && !older(b, c) ==> !older(a, c),
{
    if a.closed == b.closed && b.closed == c.closed {
        let (x, y, z) = (a.last_used_at@, b.last_used_at@, c.last_used_at@);
        if precedes(x, y) && precedes(y, z) {
            lemma_precedes_transitive(x, y, z);
        }
        if !precedes(x, y) && !precedes(y, z) {
            lemma_not_precedes_transitive(x, y, z);
        }
    }
}

/// The place of the record of the session that the conversation is in.
fn current_session_index(
    system: System,
    records: &[SessionRecord],
    current: &ConversationBinding,
) -> (out: Option<usize>)
    ensures
        match out {
            Some(at) => current_index(system.family(), records@, current@) == Some(at as int),
            None => current_index(system.family(), records@, current@) is None,
        },
{
    let ghost platform = system.family();
    let mut best: Option<usize> = None;
    let mut i: usize = 0;
    while i < records.len()
        invariant
            i <= records@.len(),
            platform == system.family(),
            match best {
                Some(at) => newest_fit(platform, records@.take(i as int), current@, at as int),
                None => forall|j: int| 0 <= j < i ==> !fits(platform, #[trigger] records@[j], current@),
            },
        decreases records@.len() - i,
    {
        let ghost seen = records@.take(i as int);
        let ghost next = records@.take(i + 1);
        assert(forall|j: int| 0 <= j < i ==> #[trigger] next[j] == records@[j] && seen[j]
            == records@[j]);
        assert(next[i as int] == records@[i as int]);
        let record = &records[i];
        if same_path_on(system, record.cwd.as_str(), current.cwd.as_str()) && same_opt_text(
            &record.name,
            &current.session_name,
        ) {
            match best {
                Some(at) => {
                    if !is_older(record, &records[at]) {
                        proof {
                            assert forall|j: int|
                                0 <= j < i && fits(platform, #[trigger] next[j], current@) implies !older(
                                next[i as int],
                                next[j],
                            ) by {
                                assert(seen[j] == next[j]);
                                lemma_older_transitive(next[i as int], seen[at as int], seen[j]);
                                lemma_older_transitive(next[i as int], seen[j], seen[at as int]);
                            }
                            assert(newest_fit(platform, next, current@, i as int));
                        }
                        best = Some(i);
                    } else {
                        assert(newest_fit(platform, next, current@, at as int)) by {
                            assert(next[at as int] == seen[at as int]);
                            assert forall|j: int|
                                0 <= j < at && fits(platform, #[trigger] next[j], current@) implies !older(
                                next[at as int],
                                next[j],
                            ) by {
                                assert(seen[j] == next[j]);
                            }
                            assert forall|j: int|
                                at < j < next.len() && fits(platform, #[trigger] next[j], current@) implies older(
                                next[j],
                                next[at as int],
                            ) by {
                                if j < i {
                                    assert(seen[j] == next[j]);
                                }
                            }
                        }
                    }
                },
                None => {
                    assert(newest_fit(platform, next, current@, i as int));
                    best = Some(i);
                },
            }
        } else {
            proof {
                if let Some(at) = best {
                    assert(newest_fit(platform, next, current@, at as int)) by {
                        assert(next[at as int] == seen[at as int]);
                        assert forall|j: int|
                            0 <= j < at && fits(platform, #[trigger] next[j], current@) implies !older(
                            next[at as int],
                            next[j],
                        ) by {
                            assert(seen[j] == next[j]);
                        }
                        assert forall|j: int|
                            at < j < next.len() && fits(platform, #[trigger] next[j], current@) implies older(
                            next[j],
                            next[at as int],
                        ) by {
                            if j < i {
                                assert(seen[j] == next[j]);
                            }
                        }
                    }
                }
            }
        }
        i += 1;
    }
    assert(records@.take(i as int) =~= records@);
    proof {
        match best {
            Some(at) => lemma_current_index(platform, records@, current@, at as int),
            None => {
                assert forall|at: int| !newest_fit(platform, records@, current@, at) by {
                    if 0 <= at < records@.len() {
                        assert(!fits(platform, records@[at], current@));
                    }
                }
            },
        }
    }
    best
}

fn is_older(left: &SessionRecord, right: &SessionRecord) -> (out: bool)
    ensures
        out == older(*left, *right),
{
    if left.closed == right.closed {
        text_precedes(left.last_used_at.as_str(), right.last_used_at.as_str())
    } else {
        left.closed
    }
}

/// What a session is about, on one line and in brief: its title, or where it has
/// none, the first thing that its user said. With it goes where it is from.
pub open spec fn record_summary(record: SessionRecord) -> Option<(Seq<char>, Seq<char>)> {
    let found = match record.title {
        Some(title) => Some(("title"@, title@)),
        None => match record.first_user_preview {
            Some(said) => Some(("first"@, said@)),
            None => None,
        },
    };
    match found {
        Some((source, raw)) => {
            let compact = join(words(raw), " "@);
            if compact.len() == 0 {
                None
            } else {
                Some((source, shortened(compact, 72)))
            }
        },
        None => None,
    }
}

fn session_record_summary(record: &SessionRecord) -> (out: Option<(&'static str, String)>)
    ensures
        match out {
            Some((source, summary)) => record_summary(*record) == Some((source@, summary@)),
            None => record_summary(*record) is None,
        },
{
    let (source, raw): (&'static str, &String) = match &record.title {
        Some(title) => ("title", title),
        None => match &record.first_user_preview {
            Some(said) => ("first", said),
            None => {
                return None;
            },
        },
    };
    let chars = to_chars(raw.as_str());
    let compact = to_chars(join_texts(&slice_words(chars.as_slice()), " ").as_str());
    if compact.len() == 0 {
        return None;
    }
    Some((source, shorten(compact.as_slice(), 72)))
}

/// The line of a session in a list, where the one that the conversation is in
/// has a mark of its own, and the line that says what it is about.
pub open spec fn record_lines(record: SessionRecord, marked: bool) -> Seq<Seq<char>> {
    let line = (if marked {
        "*"@
    } else {
        "-"@
    }) + " "@ + text_or(opt_text(record.name), "default"@) + " | "@ + record.record_id@ + " | "@
        + record.cwd@ + " | "@ + (if record.closed {
        "closed"@
    } else {
        "open"@
    });
    match record_summary(record) {
        Some((source, summary)) => seq![line, "  ["@ + source + "] "@ + summary],
        None => seq![line],
    }
}

/// The lines of the first sessions of a list, below a heading.
pub open spec fn list_lines(
    records: Seq<SessionRecord>,
    marked: Option<int>,
    count: nat,
) -> Seq<Seq<char>>
    decreases count,
{
    if count == 0 {
        seq!["sessions"@]
    } else {
        list_lines(records, marked, (count - 1) as nat) + record_lines(
            records[count - 1],
            marked == Some(count - 1),
        )
    }
}

/// The sessions of an agent.
pub open spec fn session_list(
    platform: Platform,
    records: Seq<SessionRecord>,
    current: ConversationBindingView,
) -> Seq<char> {
    if records.len() == 0 {
        "当前 agent 没有任何 acpx session。"@
    } else {
        join(list_lines(records, current_index(platform, records, current), records.len()), "\n"@)
    }
}

/// The sessions of an agent, on this system.
pub fn session_list_text(records: &[SessionRecord], current: &ConversationBinding) -> (out: String)
    ensures
        exists|windows: bool| #[trigger]
            call_ensures(std::path::is_separator, ('\\',), windows) && out@ == session_list(
                family_by(windows),
                records@,
                current@,
            ),
{
    let system = System::current();
    assert(call_ensures(std::path::is_separator, ('\\',), system.family() is Windows));
    session_list_text_on(system, records, current)
}

/// The sessions of an agent.
pub fn session_list_text_on(
    system: System,
    records: &[SessionRecord],
    current: &ConversationBinding,
) -> (out: String)
    ensures
        out@ == session_list(system.family(), records@, current@),
{
    let ghost platform = system.family();
    if records.len() == 0 {
        return "当前 agent 没有任何 acpx session。".to_owned();
    }
    let index = current_session_index(system, records, current);
    let ghost marked = current_index(platform, records@, current@);
    let mut lines: Vec<String> = Vec::new();
    lines.push("sessions".to_owned());
    assert(texts(lines@) =~= seq!["sessions"@]);
    let mut i: usize = 0;
    while i < records.len()
        invariant
            i <= records@.len(),
            marked == current_index(platform, records@, current@),
            match index {
                Some(at) => marked == Some(at as int),
                None => marked is None,
            },
            texts(lines@) == list_lines(records@, marked, i as nat),
        decreases records@.len() - i,
    {
        let ghost before = texts(lines@);
        let record = &records[i];
        let here = match index {
            Some(at) => at == i,
            None => false,
        };
        let mut line = (if here {
            "*"
        } else {
            "-"
        }).to_owned();
        line.append(" ");
        line.append(str_or(&record.name, "default"));
        line.append(" | ");
        line.append(record.record_id.as_str());
        line.append(" | ");
        line.append(record.cwd.as_str());
        line.append(" | ");
        line.append(
            if record.closed {
                "closed"
            } else {
                "open"
            },
        );
        let ghost first = line@;
        lines.push(line);
        assert(texts(lines@) =~= before.push(first));
        match session_record_summary(record) {
            Some((source, summary)) => {
                let mut about = "  [".to_owned();
                about.append(source);
                about.append("] ");
                about.append(summary.as_str());
                let ghost second = about@;
                lines.push(about);
                assert(texts(lines@) =~= before.push(first).push(second));
                assert(record_lines(*record, here) =~= seq![first, second]);
            },
            None => {
                assert(record_lines(*record, here) =~= seq![first]);
            },
        }
        assert(texts(lines@) =~= before + record_lines(*record, here));
        assert(here == (marked == Some(i as int)));
        i += 1;
    }
    join_texts(&lines, "\n")
}

/// The line of an entry of a session's history.
pub open spec fn history_line(entry: SessionHistoryEntry) -> Seq<char> {
    entry.timestamp@ + " | "@ + entry.role@ + " | "@ + entry.text_preview@
}

/// A session's history.
pub open spec fn history(entries: Seq<SessionHistoryEntry>) -> Seq<char> {
    if entries.len() == 0 {
        "当前 session 没有历史记录。"@
    } else {
        join(
            seq!["session history"@] + entries.map_values(
                |entry: SessionHistoryEntry| history_line(entry),
            ),
            "\n"@,
        )
    }
}

/// A session's history.
pub fn history_text(entries: &[SessionHistoryEntry]) -> (out: String)
    ensures
        out@ == history(entries@),
{
    if entries.len() == 0 {
        return "当前 session 没有历史记录。".to_owned();
    }
    let ghost each = |entry: SessionHistoryEntry| history_line(entry);
    let mut lines: Vec<String> = Vec::new();
    lines.push("session history".to_owned());
    let mut i: usize = 0;
    assert(texts(lines@) =~= seq!["session history"@] + entries@.take(0).map_values(each));
    while i < entries.len()
        invariant
            i <= entries@.len(),
            each == (|entry: SessionHistoryEntry| history_line(entry)),
            texts(lines@) == seq!["session history"@] + entries@.take(i as int).map_values(each),
        decreases entries@.len() - i,
    {
        let ghost before = texts(lines@);
        let entry = &entries[i];
        let mut line = entry.timestamp.clone();
        line.append(" | ");
        line.append(entry.role.as_str());
        line.append(" | ");
        line.append(entry.text_preview.as_str());
        assert(line@ == each(*entry));
        lines.push(line);
        assert(texts(lines@) =~= before.push(line@));
        assert(entries@.take(i + 1).map_values(each) =~= entries@.take(i as int).map_values(
            each,
        ).push(each(*entry)));
        i += 1;
    }
    assert(entries@.take(i as int) =~= entries@);
    join_texts(&lines, "\n")
}

/// A number, or a dash where there is none.
pub open spec fn number_or_dash(value: Option<i64>) -> Seq<char> {
    match value {
        Some(value) => signed_decimal(value as int),
        None => "-"@,
    }
}

fn number_or_dash_text(value: Option<i64>) -> (out: String)
    ensures
        out@ == number_or_dash(value),
{
    match value {
        Some(value) => signed_decimal_text(value),
        None => "-".to_owned(),
    }
}

/// What a session is doing.
pub open spec fn status(status: SessionStatus) -> Seq<char> {
    "status\nsession: "@ + text_or(opt_text(status.session_id), "-"@) + "\nagent: "@
        + status.agent_command@ + "\npid: "@ + number_or_dash(status.pid) + "\nstatus: "@
        + status.status@ + "\nmodel: "@ + text_or(opt_text(status.model), "-"@) + "\nmode: "@
        + text_or(opt_text(status.mode), "-"@) + "\nuptime: "@ + text_or(
        opt_text(status.uptime),
        "-"@,
    ) + "\nlast_prompt_time: "@ + text_or(opt_text(status.last_prompt_time), "-"@)
        + "\nexit_code: "@ + number_or_dash(status.exit_code) + "\nsignal: "@ + text_or(
        opt_text(status.signal),
        "-"@,
    )
}

/// What a session is doing.
pub fn status_text(status: &SessionStatus) -> (out: String)
    ensures
        out@ == self::status(*status),
{
    let mut out = "status\nsession: ".to_owned();
    out.append(str_or(&status.session_id, "-"));
    out.append("\nagent: ");
    out.append(status.agent_command.as_str());
    out.append("\npid: ");
    out.append(number_or_dash_text(status.pid).as_str());
    out.append("\nstatus: ");
    out.append(status.status.as_str());
    out.append("\nmodel: ");
    out.append(str_or(&status.model, "-"));
    out.append("\nmode: ");
    out.append(str_or(&status.mode, "-"));
    out.append("\nuptime: ");
    out.append(str_or(&status.uptime, "-"));
    out.append("\nlast_prompt_time: ");
    out.append(str_or(&status.last_prompt_time, "-"));
    out.append("\nexit_code: ");
    out.append(number_or_dash_text(status.exit_code).as_str());
    out.append("\nsignal: ");
    out.append(str_or(&status.signal, "-"));
    out
}

/// What a command printed, or a word where it printed nothing.
pub open spec fn printed(output: Seq<char>) -> Seq<char> {
    if trim(output).len() == 0 {
        "[empty]"@
    } else {
        trim(output)
    }
}

fn printed_text(output: &str) -> (out: String)
    ensures
        out@ == printed(output@),
{
    let trimmed = trim_text(output);
    if to_chars(trimmed.as_str()).len() == 0 {
        "[empty]".to_owned()
    } else {
        trimmed
    }
}

/// What a shell command came to.
pub open spec fn shell_output(output: ShellOutput) -> Seq<char> {
    "shell result\ncwd: "@ + output.cwd@ + "\ncommand: "@ + output.command@ + "\nexit_code: "@
        + signed_decimal(output.exit_code as int) + "\nstdout:\n"@ + printed(output.stdout@)
        + "\nstderr:\n"@ + printed(output.stderr@)
}

/// What a shell command came to.
pub fn shell_output_text(output: &ShellOutput) -> (out: String)
    ensures
        out@ == shell_output(*output),
{
    let mut out = "shell result\ncwd: ".to_owned();
    out.append(output.cwd.as_str());
    out.append("\ncommand: ");
    out.append(output.command.as_str());
    out.append("\nexit_code: ");
    out.append(signed_decimal_text(output.exit_code as i64).as_str());
    out.append("\nstdout:\n");
    out.append(printed_text(output.stdout.as_str()).as_str());
    out.append("\nstderr:\n");
    out.append(printed_text(output.stderr.as_str()).as_str());
    out
}

} // verus!
