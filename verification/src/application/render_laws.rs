//! What every text that the user reads holds.
use vstd::prelude::*;

use crate::application::render::{
    binding_text, context, current_index, fits, history, history_line, history_text,
    lemma_older_one_way, lemma_older_transitive, list_lines, newest_fit, older, record_lines,
    record_summary, session_list_text_on, session_record_text, session_summary_text,
    shell_output_text, status_text,
};
use crate::domain::{
    ConversationBinding, ConversationBindingView, PermissionMode, SessionHistoryEntry,
    SessionRecord, SessionStatus, SessionSummary, ShellOutput,
};
use crate::error::{BridgeError, BridgeErrorView};
use crate::paths::same_way;
use crate::platform::{Platform, System};
use crate::text::chars::{opt_text, text_or};
use crate::text::lines::{join, words};
use crate::text::number::signed_decimal;
use crate::text::order::{lemma_precedes_one_way, precedes};
use crate::text::trim::trim;

verus! {

/// The text of a context tells its directory, its agent, its session, which is called
/// `default` if it has no name, and its permissions, each whole and in that order.
pub proof fn law_a_context_is_told_whole(binding: ConversationBinding, out: String)
    requires
        call_ensures(binding_text, (&binding,), out),
    ensures
        out@ == context(binding@),
        out@ == "当前上下文\ncwd: "@ + binding.cwd@ + "\nagent: "@ + binding.agent@ + "\nsession: "@
            + (match binding.session_name {
            Some(name) => name@,
            None => "default"@,
        }) + "\npermissions: "@ + (match binding.permission_mode {
            PermissionMode::ApproveAll => "approve-all"@,
            PermissionMode::ApproveReads => "approve-reads"@,
            PermissionMode::DenyAll => "deny-all"@,
        }),
{
}

/// Two contexts that differ in one of their four parts alone are told differently, whichever
/// it is, where a session without a name counts as one called `default`.
pub proof fn law_contexts_are_told_apart(
    left: ConversationBindingView,
    right: ConversationBindingView,
)
    requires
        context(left) == context(right),
    ensures
        left.cwd == right.cwd && left.agent == right.agent && text_or(
            left.session_name,
            "default"@,
        ) == text_or(right.session_name, "default"@) ==> left.permission_mode
            == right.permission_mode,
        left.agent == right.agent && text_or(left.session_name, "default"@) == text_or(
            right.session_name,
            "default"@,
        ) && left.permission_mode == right.permission_mode ==> left.cwd == right.cwd,
        left.cwd == right.cwd && text_or(left.session_name, "default"@) == text_or(
            right.session_name,
            "default"@,
        ) && left.permission_mode == right.permission_mode ==> left.agent == right.agent,
        left.cwd == right.cwd && left.agent == right.agent && left.permission_mode
            == right.permission_mode ==> text_or(left.session_name, "default"@) == text_or(
            right.session_name,
            "default"@,
        ),
{
    reveal_strlit("approve-all");
    reveal_strlit("approve-reads");
    reveal_strlit("deny-all");
    let one = context(left);
    let two = context(right);
    let head = "当前上下文\ncwd: "@.len() as int;
    let second = "\nagent: "@.len() as int;
    let third = "\nsession: "@.len() as int;
    let fourth = "\npermissions: "@.len() as int;
    let ls = text_or(left.session_name, "default"@);
    let rs = text_or(right.session_name, "default"@);
    assert(left.permission_mode.name() =~= one.skip(
        one.len() - left.permission_mode.name().len(),
    ));
    assert(right.permission_mode.name() =~= two.skip(
        two.len() - right.permission_mode.name().len(),
    ));
    assert(left.cwd =~= one.subrange(head, head + left.cwd.len()));
    assert(right.cwd =~= two.subrange(head, head + right.cwd.len()));
    let la = head + left.cwd.len() + second;
    let ra = head + right.cwd.len() + second;
    assert(left.agent =~= one.subrange(la, la + left.agent.len()));
    assert(right.agent =~= two.subrange(ra, ra + right.agent.len()));
    let lp = la + left.agent.len() + third;
    let rp = ra + right.agent.len() + third;
    assert(ls =~= one.subrange(lp, lp + ls.len()));
    assert(rs =~= two.subrange(rp, rp + rs.len()));
}

/// The text of what was done to a session tells what, and the session's record and name,
/// which is `default` if it has none.
pub proof fn law_a_session_is_told_of_in_brief(
    summary: SessionSummary,
    action: &str,
    out: String,
)
    requires
        call_ensures(session_summary_text, (&summary, action), out),
    ensures
        out@ == action@ + "\nrecord: "@ + summary.record_id@ + "\nsession: "@ + (
        match summary.name {
            Some(name) => name@,
            None => "default"@,
        }),
{
}

/// The text of a session tells all fourteen things that are known of it, each whole, with
/// a dash for what is not known.
pub proof fn law_a_session_is_told_of_in_full(record: SessionRecord, out: String)
    requires
        call_ensures(session_record_text, (&record,), out),
    ensures
        out@ == join(
            seq![
                "session detail\nrecord: "@ + record.record_id@,
                "acp_session: "@ + record.acp_session_id@,
                "agent_session: "@ + text_or(opt_text(record.agent_session_id), "-"@),
                "agent: "@ + record.agent@,
                "cwd: "@ + record.cwd@,
                "name: "@ + text_or(opt_text(record.name), "default"@),
                "title: "@ + text_or(opt_text(record.title), "-"@),
                "first_user: "@ + text_or(opt_text(record.first_user_preview), "-"@),
                "created_at: "@ + record.created_at@,
                "last_used_at: "@ + record.last_used_at@,
                "last_prompt_at: "@ + text_or(opt_text(record.last_prompt_at), "-"@),
                "closed: "@ + (if record.closed {
                    "yes"@
                } else {
                    "no"@
                }),
                "model: "@ + text_or(opt_text(record.model), "-"@),
                "mode: "@ + text_or(opt_text(record.mode), "-"@),
            ],
            "\n"@,
        ),
{
    reveal_strlit("\n");
    reveal_strlit("\nacp_session: ");
    reveal_strlit("acp_session: ");
    reveal_strlit("\nagent_session: ");
    reveal_strlit("agent_session: ");
    reveal_strlit("\nagent: ");
    reveal_strlit("agent: ");
    reveal_strlit("\ncwd: ");
    reveal_strlit("cwd: ");
    reveal_strlit("\nname: ");
    reveal_strlit("name: ");
    reveal_strlit("\ntitle: ");
    reveal_strlit("title: ");
    reveal_strlit("\nfirst_user: ");
    reveal_strlit("first_user: ");
    reveal_strlit("\ncreated_at: ");
    reveal_strlit("created_at: ");
    reveal_strlit("\nlast_used_at: ");
    reveal_strlit("last_used_at: ");
    reveal_strlit("\nlast_prompt_at: ");
    reveal_strlit("last_prompt_at: ");
    reveal_strlit("\nclosed: ");
    reveal_strlit("closed: ");
    reveal_strlit("\nmodel: ");
    reveal_strlit("model: ");
    reveal_strlit("\nmode: ");
    reveal_strlit("mode: ");
    let sep = "\n"@;
    assert("\nacp_session: "@ =~= sep + "acp_session: "@);
    assert("\nagent_session: "@ =~= sep + "agent_session: "@);
    assert("\nagent: "@ =~= sep + "agent: "@);
    assert("\ncwd: "@ =~= sep + "cwd: "@);
    assert("\nname: "@ =~= sep + "name: "@);
    assert("\ntitle: "@ =~= sep + "title: "@);
    assert("\nfirst_user: "@ =~= sep + "first_user: "@);
    assert("\ncreated_at: "@ =~= sep + "created_at: "@);
    assert("\nlast_used_at: "@ =~= sep + "last_used_at: "@);
    assert("\nlast_prompt_at: "@ =~= sep + "last_prompt_at: "@);
    assert("\nclosed: "@ =~= sep + "closed: "@);
    assert("\nmodel: "@ =~= sep + "model: "@);
    assert("\nmode: "@ =~= sep + "mode: "@);
    let closed = if record.closed {
        "yes"@
    } else {
        "no"@
    };
    let l0 = seq!["session detail\nrecord: "@ + record.record_id@];
    let t0 = "session detail\nrecord: "@ + record.record_id@;
    let (l1, t1) = lemma_another_line(l0, t0, "acp_session: "@, record.acp_session_id@);
    let (l2, t2) = lemma_another_line(
        l1,
        t1,
        "agent_session: "@,
        text_or(opt_text(record.agent_session_id), "-"@),
    );
    let (l3, t3) = lemma_another_line(l2, t2, "agent: "@, record.agent@);
    let (l4, t4) = lemma_another_line(l3, t3, "cwd: "@, record.cwd@);
    let (l5, t5) = lemma_another_line(
        l4,
        t4,
        "name: "@,
        text_or(opt_text(record.name), "default"@),
    );
    let (l6, t6) = lemma_another_line(
        l5,
        t5,
        "title: "@,
        text_or(opt_text(record.title), "-"@),
    );
    let (l7, t7) = lemma_another_line(
        l6,
        t6,
        "first_user: "@,
        text_or(opt_text(record.first_user_preview), "-"@),
    );
    let (l8, t8) = lemma_another_line(l7, t7, "created_at: "@, record.created_at@);
    let (l9, t9) = lemma_another_line(l8, t8, "last_used_at: "@, record.last_used_at@);
    let (l10, t10) = lemma_another_line(
        l9,
        t9,
        "last_prompt_at: "@,
        text_or(opt_text(record.last_prompt_at), "-"@),
    );
    let (l11, t11) = lemma_another_line(l10, t10, "closed: "@, closed);
    let (l12, t12) = lemma_another_line(
        l11,
        t11,
        "model: "@,
        text_or(opt_text(record.model), "-"@),
    );
    let (l13, t13) = lemma_another_line(
        l12,
        t12,
        "mode: "@,
        text_or(opt_text(record.mode), "-"@),
    );
    assert(out@ == t13);
    assert(l13 =~= seq![
        "session detail\nrecord: "@ + record.record_id@,
        "acp_session: "@ + record.acp_session_id@,
        "agent_session: "@ + text_or(opt_text(record.agent_session_id), "-"@),
        "agent: "@ + record.agent@,
        "cwd: "@ + record.cwd@,
        "name: "@ + text_or(opt_text(record.name), "default"@),
        "title: "@ + text_or(opt_text(record.title), "-"@),
        "first_user: "@ + text_or(opt_text(record.first_user_preview), "-"@),
        "created_at: "@ + record.created_at@,
        "last_used_at: "@ + record.last_used_at@,
        "last_prompt_at: "@ + text_or(opt_text(record.last_prompt_at), "-"@),
        "closed: "@ + closed,
        "model: "@ + text_or(opt_text(record.model), "-"@),
        "mode: "@ + text_or(opt_text(record.mode), "-"@),
    ]);
}

/// A line more, in a text of lines.
proof fn lemma_another_line(
    list: Seq<Seq<char>>,
    text: Seq<char>,
    label: Seq<char>,
    value: Seq<char>,
) -> (out: (Seq<Seq<char>>, Seq<char>))
    requires
        list.len() > 0,
        join(list, "\n"@) == text,
    ensures
        out.0 == list.push(label + value),
        out.1 == text + ("\n"@ + label) + value,
        join(out.0, "\n"@) == out.1,
        out.0.len() > 0,
{
    let more = list.push(label + value);
    assert(more.drop_last() =~= list);
    assert(text + "\n"@ + (label + value) =~= text + ("\n"@ + label) + value);
    (more, text + ("\n"@ + label) + value)
}

/// The lines of a session in a list: its mark, its name, its record, its directory and
/// whether it is open, and below it what it is about, if anything is known of that.
pub open spec fn listed(record: SessionRecord, marked: bool) -> Seq<Seq<char>> {
    let line = (if marked {
        "* "@
    } else {
        "- "@
    }) + (match record.name {
        Some(name) => name@,
        None => "default"@,
    }) + " | "@ + record.record_id@ + " | "@ + record.cwd@ + " | "@ + (if record.closed {
        "closed"@
    } else {
        "open"@
    });
    match record_summary(record) {
        Some((source, summary)) => seq![line, "  ["@ + source + "] "@ + summary],
        None => seq![line],
    }
}

/// The lines of sessions in a list, from the first to the last.
pub open spec fn all_listed(records: Seq<SessionRecord>, marked: Option<int>) -> Seq<Seq<char>>
    decreases records.len(),
{
    if records.len() == 0 {
        seq![]
    } else {
        all_listed(records.drop_last(), marked) + listed(
            records.last(),
            marked == Some(records.len() - 1),
        )
    }
}

proof fn lemma_listed(record: SessionRecord, marked: bool)
    ensures
        record_lines(record, marked) == listed(record, marked),
{
    reveal_strlit("*");
    reveal_strlit("-");
    reveal_strlit(" ");
    reveal_strlit("* ");
    reveal_strlit("- ");
    assert("*"@ + " "@ =~= "* "@);
    assert("-"@ + " "@ =~= "- "@);
    assert(record_lines(record, marked) =~= listed(record, marked));
}

proof fn lemma_all_listed(records: Seq<SessionRecord>, marked: Option<int>, count: nat)
    requires
        count <= records.len(),
    ensures
        list_lines(records, marked, count) == seq!["sessions"@] + all_listed(
            records.take(count as int),
            marked,
        ),
    decreases count,
{
    let some = records.take(count as int);
    if count == 0 {
        assert(seq!["sessions"@] + all_listed(some, marked) =~= seq!["sessions"@]);
    } else {
        lemma_all_listed(records, marked, (count - 1) as nat);
        lemma_listed(records[count - 1], marked == Some(count - 1));
        assert(some.drop_last() =~= records.take(count - 1));
        assert(list_lines(records, marked, count) =~= seq!["sessions"@] + all_listed(some, marked));
    }
}

/// A list of sessions has a heading and then the lines of every session, in their order;
/// none is left out, however many there are. Where there is none, the user is told so.
pub proof fn law_every_session_is_listed(
    system: System,
    records: &[SessionRecord],
    current: ConversationBinding,
    out: String,
)
    requires
        call_ensures(session_list_text_on, (system, records, &current), out),
    ensures
        records@.len() > 0 ==> out@ == join(
            seq!["sessions"@] + all_listed(
                records@,
                current_index(system.family(), records@, current@),
            ),
            "\n"@,
        ),
        records@.len() == 0 ==> out@ == "当前 agent 没有任何 acpx session。"@,
{
    let marked = current_index(system.family(), records@, current@);
    lemma_all_listed(records@, marked, records@.len());
    assert(records@.take(records@.len() as int) =~= records@);
}

/// The session with a mark of its own is in the directory of the context and has its name,
/// and no other such session is newer: an open one is newer than a closed one, and of two
/// open or two closed ones the one that was used later.
pub proof fn law_the_session_of_the_context_is_marked(
    platform: Platform,
    records: Seq<SessionRecord>,
    current: ConversationBindingView,
    other: int,
)
    requires
        0 <= other < records.len(),
        same_way(platform, records[other].cwd@, current.cwd),
        opt_text(records[other].name) == current.session_name,
        current_index(platform, records, current) is Some,
    ensures
        ({
            let at = current_index(platform, records, current)->Some_0;
            &&& 0 <= at < records.len()
            &&& same_way(platform, records[at].cwd@, current.cwd)
            &&& opt_text(records[at].name) == current.session_name
            &&& records[at].closed ==> records[other].closed
            &&& records[at].closed == records[other].closed ==> !precedes(
                records[at].last_used_at@,
                records[other].last_used_at@,
            )
            &&& records[at].closed == records[other].closed && at < other ==> precedes(
                records[other].last_used_at@,
                records[at].last_used_at@,
            )
        }),
{
    let at = choose|at: int| newest_fit(platform, records, current, at);
    assert(newest_fit(platform, records, current, at));
    assert(fits(platform, records[other], current));
    lemma_older_one_way(records[other], records[at]);
    lemma_precedes_one_way(records[at].last_used_at@, records[at].last_used_at@);
    if at < other {
        assert(older(records[other], records[at]));
    }
}

proof fn lemma_some_newest(
    platform: Platform,
    records: Seq<SessionRecord>,
    current: ConversationBindingView,
    other: int,
) -> (at: int)
    requires
        0 <= other < records.len(),
        fits(platform, records[other], current),
    ensures
        newest_fit(platform, records, current, at),
    decreases records.len(),
{
    let rest = records.drop_last();
    let last = records.len() - 1;
    if exists|j: int| 0 <= j < last && fits(platform, #[trigger] rest[j], current) {
        let j = choose|j: int| 0 <= j < last && fits(platform, #[trigger] rest[j], current);
        let before = lemma_some_newest(platform, rest, current, j);
        if fits(platform, records[last], current) && !older(records[last], records[before]) {
            assert forall|k: int|
                0 <= k < last && fits(platform, #[trigger] records[k], current) implies !older(
                records[last],
                records[k],
            ) by {
                assert(fits(platform, rest[k], current));
                if k < before {
                    lemma_older_transitive(records[last], records[before], records[k]);
                } else if k > before {
                    lemma_older_transitive(records[last], records[k], records[before]);
                }
            }
            last
        } else {
            assert forall|k: int|
                0 <= k < before && fits(platform, #[trigger] records[k], current) implies !older(
                records[before],
                records[k],
            ) by {
                assert(fits(platform, rest[k], current));
            }
            assert forall|k: int|
                before < k < records.len() && fits(
                    platform,
                    #[trigger] records[k],
                    current,
                ) implies older(records[k], records[before]) by {
                if k < last {
                    assert(fits(platform, rest[k], current));
                }
            }
            before
        }
    } else {
        assert forall|k: int| 0 <= k < last && fits(platform, #[trigger] records[k], current) implies !older(
            records[last],
            records[k],
        ) by {
            assert(fits(platform, rest[k], current));
        }
        assert(other == last) by {
            if other < last {
                assert(fits(platform, rest[other], current));
            }
        }
        last
    }
}

/// A session is marked if and only if one is in the directory of the context and has its
/// name.
pub proof fn law_a_session_is_marked_if_one_fits(
    platform: Platform,
    records: Seq<SessionRecord>,
    current: ConversationBindingView,
)
    ensures
        current_index(platform, records, current) is Some <==> exists|i: int|
            0 <= i < records.len() && same_way(
                platform,
                (#[trigger] records[i]).cwd@,
                current.cwd,
            ) && opt_text(records[i].name) == current.session_name,
{
    if exists|i: int|
        0 <= i < records.len() && same_way(
            platform,
            (#[trigger] records[i]).cwd@,
            current.cwd,
        ) && opt_text(records[i].name) == current.session_name {
        let i = choose|i: int|
            0 <= i < records.len() && same_way(
                platform,
                (#[trigger] records[i]).cwd@,
                current.cwd,
            ) && opt_text(records[i].name) == current.session_name;
        assert(fits(platform, records[i], current));
        let at = lemma_some_newest(platform, records, current, i);
    }
    if current_index(platform, records, current) is Some {
        let at = choose|at: int| newest_fit(platform, records, current, at);
        assert(newest_fit(platform, records, current, at));
        assert(fits(platform, records[at], current));
    }
}

/// What a session is about is its title, or where it has none what its user said first, on
/// one line: all the words if they take at most 72 characters, else the first 72 of them
/// and dots.
pub proof fn law_a_summary_tells_the_title_or_what_was_said(record: SessionRecord)
    ensures
        record.title matches Some(title) ==> ({
            let all = join(words(title@), " "@);
            record_summary(record) == (if all.len() == 0 {
                None
            } else if all.len() <= 72 {
                Some(("title"@, all))
            } else {
                Some(("title"@, all.take(72) + "..."@))
            })
        }),
        record.title is None ==> (record.first_user_preview matches Some(said) ==> ({
            let all = join(words(said@), " "@);
            record_summary(record) == (if all.len() == 0 {
                None
            } else if all.len() <= 72 {
                Some(("first"@, all))
            } else {
                Some(("first"@, all.take(72) + "..."@))
            })
        })),
        record.title is None && record.first_user_preview is None ==> record_summary(record)
            is None,
{
}

/// A history has a heading and then a line for every entry, in their order, with the time,
/// the role and the text of the entry, whole; none is left out, however many there are.
/// Where there is none, the user is told so.
pub proof fn law_every_entry_of_a_history_is_told(
    entries: &[SessionHistoryEntry],
    out: String,
)
    requires
        call_ensures(history_text, (entries,), out),
    ensures
        entries@.len() > 0 ==> out@ == join(
            seq!["session history"@] + Seq::new(
                entries@.len(),
                |i: int|
                    entries@[i].timestamp@ + " | "@ + entries@[i].role@ + " | "@
                        + entries@[i].text_preview@,
            ),
            "\n"@,
        ),
        entries@.len() == 0 ==> out@ == "当前 session 没有历史记录。"@,
{
    let each = |entry: SessionHistoryEntry| history_line(entry);
    assert(entries@.map_values(each) =~= Seq::new(
        entries@.len(),
        |i: int|
            entries@[i].timestamp@ + " | "@ + entries@[i].role@ + " | "@
                + entries@[i].text_preview@,
    ));
}

/// A longer history is told as the shorter one with what was added behind it.
pub proof fn law_histories_grow(
    front: Seq<SessionHistoryEntry>,
    entry: SessionHistoryEntry,
)
    requires
        front.len() > 0,
    ensures
        history(front.push(entry)) == history(front) + "\n"@ + (entry.timestamp@ + " | "@
            + entry.role@ + " | "@ + entry.text_preview@),
{
    let each = |entry: SessionHistoryEntry| history_line(entry);
    let less = seq!["session history"@] + front.map_values(each);
    let more = seq!["session history"@] + front.push(entry).map_values(each);
    assert(more.drop_last() =~= less);
    assert(more.last() == each(entry));
}

/// The text of a status tells the ten things that are known of it, each whole, with a dash
/// for what is not known.
pub proof fn law_a_status_is_told_whole(status: SessionStatus, out: String)
    requires
        call_ensures(status_text, (&status,), out),
    ensures
        out@ == "status\nsession: "@ + text_or(opt_text(status.session_id), "-"@) + "\nagent: "@
            + status.agent_command@ + "\npid: "@ + (match status.pid {
            Some(pid) => signed_decimal(pid as int),
            None => "-"@,
        }) + "\nstatus: "@ + status.status@ + "\nmodel: "@ + text_or(
            opt_text(status.model),
            "-"@,
        ) + "\nmode: "@ + text_or(opt_text(status.mode), "-"@) + "\nuptime: "@ + text_or(
            opt_text(status.uptime),
            "-"@,
        ) + "\nlast_prompt_time: "@ + text_or(opt_text(status.last_prompt_time), "-"@)
            + "\nexit_code: "@ + (match status.exit_code {
            Some(code) => signed_decimal(code as int),
            None => "-"@,
        }) + "\nsignal: "@ + text_or(opt_text(status.signal), "-"@),
{
}

/// The text of what a shell command came to tells its directory, the command and its code,
/// and then both its outputs, each whole but for white space at its ends, however long they
/// are. An output that is blank is told to be empty.
pub proof fn law_the_outputs_of_a_command_are_told_whole(output: ShellOutput, out: String)
    requires
        call_ensures(shell_output_text, (&output,), out),
    ensures
        ({
            let header = "shell result\ncwd: "@ + output.cwd@ + "\ncommand: "@ + output.command@
                + "\nexit_code: "@ + signed_decimal(output.exit_code as int) + "\nstdout:\n"@;
            let printed = if trim(output.stdout@).len() == 0 {
                "[empty]"@
            } else {
                trim(output.stdout@)
            };
            let warned = if trim(output.stderr@).len() == 0 {
                "[empty]"@
            } else {
                trim(output.stderr@)
            };
            let between = "\nstderr:\n"@;
            &&& out@.len() == header.len() + printed.len() + between.len() + warned.len()
            &&& out@.take(header.len() as int) == header
            &&& out@.subrange(header.len() as int, (header.len() + printed.len()) as int)
                == printed
            &&& out@.subrange(
                (header.len() + printed.len()) as int,
                (header.len() + printed.len() + between.len()) as int,
            ) == between
            &&& out@.skip((header.len() + printed.len() + between.len()) as int) == warned
        }),
{
    let header = "shell result\ncwd: "@ + output.cwd@ + "\ncommand: "@ + output.command@
        + "\nexit_code: "@ + signed_decimal(output.exit_code as int) + "\nstdout:\n"@;
    let printed = if trim(output.stdout@).len() == 0 {
        "[empty]"@
    } else {
        trim(output.stdout@)
    };
    let warned = if trim(output.stderr@).len() == 0 {
        "[empty]"@
    } else {
        trim(output.stderr@)
    };
    let between = "\nstderr:\n"@;
    assert(out@ =~= header + printed + between + warned);
    assert(out@.take(header.len() as int) =~= header);
    assert(out@.subrange(header.len() as int, (header.len() + printed.len()) as int) =~= printed);
    assert(out@.subrange(
        (header.len() + printed.len()) as int,
        (header.len() + printed.len() + between.len()) as int,
    ) =~= between);
    assert(out@.skip((header.len() + printed.len() + between.len()) as int) =~= warned);
}

/// What the user reads of an error holds all that it says: messages and paths whole, and of
/// a process that failed its code, its line and all that it said but white space at the
/// ends, first in its error output and else in its output.
pub proof fn law_errors_are_told_whole(error: BridgeError, out: String)
    requires
        call_ensures(BridgeError::user_message, (&error,), out),
    ensures
        out@ == error@.user_text(),
        match error@ {
            BridgeErrorView::InputRejected(message) => out@ == message,
            BridgeErrorView::Config(message) => out@ == message,
            BridgeErrorView::Channel(message) => out@ == message,
            BridgeErrorView::Acpx(message) => out@ == message,
            BridgeErrorView::Shell(message) => out@ == message,
            BridgeErrorView::Persistence(message) => out@ == message,
            BridgeErrorView::CommandParse(message) => out@ == "命令解析失败："@ + message,
            BridgeErrorView::WorkspaceNotFound(path) => out@ == "目录不存在："@ + path,
            BridgeErrorView::NotDirectory(path) => out@ == "目标不是目录："@ + path,
            BridgeErrorView::UnsupportedMessage => out@ == "当前消息类型暂不支持。"@,
            BridgeErrorView::ProcessTimedOut { command } => out@ == "命令执行超时："@ + command,
            BridgeErrorView::InvalidOutput { context, message, .. } => out@
                == "外部输出无法解析（"@ + context + "）："@ + message,
            BridgeErrorView::ProcessFailed { command, exit_code, stdout, stderr } => out@
                == "命令失败（"@ + signed_decimal(exit_code as int) + "）："@ + command + "\n"@ + (if trim(
                stderr,
            ).len() > 0 {
                trim(stderr)
            } else if trim(stdout).len() > 0 {
                trim(stdout)
            } else {
                "外部命令执行失败"@
            }),
        },
{
}

/// What a log says of an error names its kind and holds its message, path or line whole.
pub proof fn law_errors_are_logged_whole(error: BridgeError, out: String)
    requires
        call_ensures(BridgeError::log_message, (&error,), out),
    ensures
        match error@ {
            BridgeErrorView::Config(message) => out@ == "configuration error: "@ + message,
            BridgeErrorView::InputRejected(message) => out@ == "input rejected: "@ + message,
            BridgeErrorView::CommandParse(message) => out@ == "command parse error: "@ + message,
            BridgeErrorView::WorkspaceNotFound(path) => out@ == "workspace does not exist: "@
                + path,
            BridgeErrorView::NotDirectory(path) => out@ == "path is not a directory: "@ + path,
            BridgeErrorView::UnsupportedMessage => out@ == "unsupported message type"@,
            BridgeErrorView::ProcessFailed { command, exit_code, .. } => out@
                == "process failed: "@ + command + " (exit code "@ + signed_decimal(
                exit_code as int,
            ) + ")"@,
            BridgeErrorView::ProcessTimedOut { command } => out@ == "process timed out: "@
                + command,
            BridgeErrorView::InvalidOutput { context, message, .. } => out@
                == "invalid process output for "@ + context + ": "@ + message,
            BridgeErrorView::Channel(message) => out@ == "channel error: "@ + message,
            BridgeErrorView::Acpx(message) => out@ == "acpx error: "@ + message,
            BridgeErrorView::Shell(message) => out@ == "shell error: "@ + message,
            BridgeErrorView::Persistence(message) => out@ == "persistence error: "@ + message,
        },
{
}

} // verus!
