//! What every call of `acpx` and of the shell hands over, and what is made of what
//! they put out.
use vstd::prelude::*;

use crate::adapters::acpx::{
    build_non_strict_diagnostic_request, explain_failure, into_entries, into_records, json_text,
    run_checked, run_json, summary_from_close, AcpxCliGateway, Checked, CloseSessionResponse,
    HistoryEntryResponse, SessionRecordResponse, SessionSummaryResponse, StatusResponse,
};
use crate::adapters::json::user_said_from;
use crate::adapters::process::{ProcessRun, SystemProcessRunner};
use crate::adapters::shell::SystemShellExecutor;
use crate::application::calls::{Answer, CallView};
use crate::application::command::{command, BotCommandView};
use crate::application::conversation_laws::{
    begun, carried_out, finds, found, is_prompt, kept_after,
};
use crate::application::plan::selector_for;
use crate::application::request_laws::{
    calls, law_a_prompt_goes_to_the_session_of_its_context,
    law_permissions_hold_for_the_next_prompt,
};
use crate::application::service::{request, ServiceDefaults};
use crate::config::AcpxCliConfig;
use crate::domain::{
    ConversationBinding, ConversationBindingView, InboundMessageView, PermissionMode,
    SessionHistoryEntry, SessionRecord, SessionSelector, SessionStatus, SessionSummary,
    ShellOutput,
};
use crate::error::{BridgeError, BridgeErrorView};
use crate::ports::{ProcessOutput, ProcessRequest, ProcessRequestView};
use crate::text::chars::{opt_text, texts};
use crate::text::lines::{join, lemma_join_front};
use crate::text::number::decimal;
use crate::text::trim::trim;
use crate::text::utf8::nearest_text;

verus! {

/// The flag of `acpx` for what an agent may do without asking.
pub open spec fn permission_flag(mode: PermissionMode) -> Seq<char> {
    match mode {
        PermissionMode::ApproveAll => "--approve-all"@,
        PermissionMode::ApproveReads => "--approve-reads"@,
        PermissionMode::DenyAll => "--deny-all"@,
    }
}

/// The process is `acpx`, run in the directory of the session. Its arguments are those
/// that are configured, the flag of the session's permissions, its directory, both
/// limits of time, the format, the agent, and then the given ones.
pub open spec fn calls_acpx(
    config: AcpxCliConfig,
    selector: SessionSelector,
    format: Seq<Seq<char>>,
    given: Seq<Seq<char>>,
    out: ProcessRequestView,
) -> bool {
    let before = config.args@.len() as int;
    let agent = before + 7 + format.len();
    &&& out.program == config.program@
    &&& out.cwd == Some(selector.cwd@)
    &&& out.timeout_secs == config.timeout_secs
    &&& out.args.len() == agent + 1 + given.len()
    &&& forall|i: int| 0 <= i < before ==> #[trigger] out.args[i] == config.args@[i]@
    &&& out.args[before] == permission_flag(selector.permission_mode)
    &&& out.args[before + 1] == "--cwd"@
    &&& out.args[before + 2] == selector.cwd@
    &&& out.args[before + 3] == "--timeout"@
    &&& out.args[before + 4] == decimal(config.timeout_secs as nat)
    &&& out.args[before + 5] == "--ttl"@
    &&& out.args[before + 6] == decimal(config.ttl_secs as nat)
    &&& out.args.subrange(before + 7, agent) == format
    &&& out.args[agent] == selector.agent@
    &&& out.args.skip(agent + 1) == given
}

/// The format of answers that are read by the bridge.
pub open spec fn json_format() -> Seq<Seq<char>> {
    seq!["--format"@, "json"@, "--json-strict"@]
}

/// The format of answers that are replies.
pub open spec fn quiet_format() -> Seq<Seq<char>> {
    seq!["--format"@, "quiet"@]
}

/// The arguments of a call, in one piece.
proof fn lemma_calls_acpx(
    config: AcpxCliConfig,
    selector: SessionSelector,
    format: Seq<Seq<char>>,
    given: Seq<Seq<char>>,
    out: ProcessRequestView,
)
    requires
        out.program == config.program@,
        out.cwd == Some(selector.cwd@),
        out.timeout_secs == config.timeout_secs,
        out.args =~= texts(config.args@) + seq![
            permission_flag(selector.permission_mode),
            "--cwd"@,
            selector.cwd@,
            "--timeout"@,
            decimal(config.timeout_secs as nat),
            "--ttl"@,
            decimal(config.ttl_secs as nat),
        ] + format + seq![selector.agent@] + given,
    ensures
        calls_acpx(config, selector, format, given, out),
{
    let before = config.args@.len() as int;
    let agent = before + 7 + format.len();
    assert(out.args.subrange(before + 7, agent) =~= format);
    assert(out.args.skip(agent + 1) =~= given);
}

/// The call that makes sure of a session names it, if it has a name.
pub proof fn law_the_call_that_makes_sure_of_a_session(
    gateway: AcpxCliGateway,
    selector: SessionSelector,
    out: ProcessRequest,
)
    requires
        call_ensures(AcpxCliGateway::ensure_session, (&gateway, &selector), out),
    ensures
        calls_acpx(
            gateway.config,
            selector,
            json_format(),
            seq!["sessions"@, "ensure"@] + (match selector.session_name {
                Some(name) => seq!["--name"@, name@],
                None => seq![],
            }),
            out@,
        ),
{
    lemma_calls_acpx(
        gateway.config,
        selector,
        json_format(),
        seq!["sessions"@, "ensure"@] + (match selector.session_name {
                Some(name) => seq!["--name"@, name@],
                None => seq![],
            }),
        out@,
    );
}

/// The call that begins a session names it, if it has a name.
pub proof fn law_the_call_that_begins_a_session(
    gateway: AcpxCliGateway,
    selector: SessionSelector,
    out: ProcessRequest,
)
    requires
        call_ensures(AcpxCliGateway::new_session, (&gateway, &selector), out),
    ensures
        calls_acpx(
            gateway.config,
            selector,
            json_format(),
            seq!["sessions"@, "new"@] + (match selector.session_name {
                Some(name) => seq!["--name"@, name@],
                None => seq![],
            }),
            out@,
        ),
{
    lemma_calls_acpx(
        gateway.config,
        selector,
        json_format(),
        seq!["sessions"@, "new"@] + (match selector.session_name {
                Some(name) => seq!["--name"@, name@],
                None => seq![],
            }),
        out@,
    );
}

/// The call that closes a session names it, if it has a name.
pub proof fn law_the_call_that_closes_a_session(
    gateway: AcpxCliGateway,
    selector: SessionSelector,
    out: ProcessRequest,
)
    requires
        call_ensures(AcpxCliGateway::close_session, (&gateway, &selector), out),
    ensures
        calls_acpx(
            gateway.config,
            selector,
            json_format(),
            seq!["sessions"@, "close"@] + (match selector.session_name {
                Some(name) => seq![name@],
                None => seq![],
            }),
            out@,
        ),
{
    lemma_calls_acpx(
        gateway.config,
        selector,
        json_format(),
        seq!["sessions"@, "close"@] + (match selector.session_name {
                Some(name) => seq![name@],
                None => seq![],
            }),
        out@,
    );
}

/// The call that shows a session names it, if it has a name.
pub proof fn law_the_call_that_shows_a_session(
    gateway: AcpxCliGateway,
    selector: SessionSelector,
    out: ProcessRequest,
)
    requires
        call_ensures(AcpxCliGateway::show_session, (&gateway, &selector), out),
    ensures
        calls_acpx(
            gateway.config,
            selector,
            json_format(),
            seq!["sessions"@, "show"@] + (match selector.session_name {
                Some(name) => seq![name@],
                None => seq![],
            }),
            out@,
        ),
{
    lemma_calls_acpx(
        gateway.config,
        selector,
        json_format(),
        seq!["sessions"@, "show"@] + (match selector.session_name {
                Some(name) => seq![name@],
                None => seq![],
            }),
        out@,
    );
}

/// The call for a history names the session, if it has a name, and the number of entries.
pub proof fn law_the_call_for_a_history(
    gateway: AcpxCliGateway,
    selector: SessionSelector,
    limit: usize,
    out: ProcessRequest,
)
    requires
        call_ensures(AcpxCliGateway::history, (&gateway, &selector, limit), out),
    ensures
        calls_acpx(
            gateway.config,
            selector,
            json_format(),
            seq!["sessions"@, "history"@] + (match selector.session_name {
                Some(name) => seq![name@],
                None => seq![],
            }) + seq!["--limit"@, decimal(limit as nat)],
            out@,
        ),
{
    lemma_calls_acpx(
        gateway.config,
        selector,
        json_format(),
        seq!["sessions"@, "history"@] + (match selector.session_name {
                Some(name) => seq![name@],
                None => seq![],
            }) + seq!["--limit"@, decimal(limit as nat)],
        out@,
    );
}

/// The call for a status names the session, if it has a name.
pub proof fn law_the_call_for_a_status(
    gateway: AcpxCliGateway,
    selector: SessionSelector,
    out: ProcessRequest,
)
    requires
        call_ensures(AcpxCliGateway::status, (&gateway, &selector), out),
    ensures
        calls_acpx(
            gateway.config,
            selector,
            json_format(),
            seq!["status"@] + (match selector.session_name {
                Some(name) => seq!["-s"@, name@],
                None => seq![],
            }),
            out@,
        ),
{
    lemma_calls_acpx(
        gateway.config,
        selector,
        json_format(),
        seq!["status"@] + (match selector.session_name {
                Some(name) => seq!["-s"@, name@],
                None => seq![],
            }),
        out@,
    );
}

/// The call with a prompt names the session, if it has a name, and ends with the prompt,
/// which is handed over as it is and whole.
pub proof fn law_the_call_with_a_prompt(
    gateway: AcpxCliGateway,
    selector: SessionSelector,
    prompt: &str,
    out: ProcessRequest,
)
    requires
        call_ensures(AcpxCliGateway::prompt, (&gateway, &selector, prompt), out),
    ensures
        calls_acpx(
            gateway.config,
            selector,
            quiet_format(),
            seq!["prompt"@] + (match selector.session_name {
                Some(name) => seq!["-s"@, name@],
                None => seq![],
            }) + seq![prompt@],
            out@,
        ),
{
    lemma_calls_acpx(
        gateway.config,
        selector,
        quiet_format(),
        seq!["prompt"@] + (match selector.session_name {
                Some(name) => seq!["-s"@, name@],
                None => seq![],
            }) + seq![prompt@],
        out@,
    );
}

/// The call with a prompt outside of any session ends with the prompt, which is handed over
/// as it is and whole.
pub proof fn law_the_call_with_a_prompt_outside_of_sessions(
    gateway: AcpxCliGateway,
    selector: SessionSelector,
    prompt: &str,
    out: ProcessRequest,
)
    requires
        call_ensures(AcpxCliGateway::exec, (&gateway, &selector, prompt), out),
    ensures
        calls_acpx(
            gateway.config,
            selector,
            quiet_format(),
            seq!["exec"@, prompt@],
            out@,
        ),
{
    lemma_calls_acpx(
        gateway.config,
        selector,
        quiet_format(),
        seq!["exec"@, prompt@],
        out@,
    );
}

/// The call that sets a mode hands it over as it is and names the session, if it has a name.
pub proof fn law_the_call_that_sets_a_mode(
    gateway: AcpxCliGateway,
    selector: SessionSelector,
    mode: &str,
    out: ProcessRequest,
)
    requires
        call_ensures(AcpxCliGateway::set_mode, (&gateway, &selector, mode), out),
    ensures
        calls_acpx(
            gateway.config,
            selector,
            quiet_format(),
            seq!["set-mode"@, mode@] + (match selector.session_name {
                Some(name) => seq!["-s"@, name@],
                None => seq![],
            }),
            out@,
        ),
{
    lemma_calls_acpx(
        gateway.config,
        selector,
        quiet_format(),
        seq!["set-mode"@, mode@] + (match selector.session_name {
                Some(name) => seq!["-s"@, name@],
                None => seq![],
            }),
        out@,
    );
}

/// The call that sets a model hands it over as it is and names the session, if it has a name.
pub proof fn law_the_call_that_sets_a_model(
    gateway: AcpxCliGateway,
    selector: SessionSelector,
    model: &str,
    out: ProcessRequest,
)
    requires
        call_ensures(AcpxCliGateway::set_model, (&gateway, &selector, model), out),
    ensures
        calls_acpx(
            gateway.config,
            selector,
            quiet_format(),
            seq!["set"@, "model"@, model@] + (match selector.session_name {
                Some(name) => seq!["-s"@, name@],
                None => seq![],
            }),
            out@,
        ),
{
    lemma_calls_acpx(
        gateway.config,
        selector,
        quiet_format(),
        seq!["set"@, "model"@, model@] + (match selector.session_name {
                Some(name) => seq!["-s"@, name@],
                None => seq![],
            }),
        out@,
    );
}

/// The call that sets an option hands it and its value over as they are and names the
/// session, if it has a name.
pub proof fn law_the_call_that_sets_an_option(
    gateway: AcpxCliGateway,
    selector: SessionSelector,
    key: &str,
    value: &str,
    out: ProcessRequest,
)
    requires
        call_ensures(AcpxCliGateway::set_option, (&gateway, &selector, key, value), out),
    ensures
        calls_acpx(
            gateway.config,
            selector,
            quiet_format(),
            seq!["set"@, key@, value@] + (match selector.session_name {
                Some(name) => seq!["-s"@, name@],
                None => seq![],
            }),
            out@,
        ),
{
    lemma_calls_acpx(
        gateway.config,
        selector,
        quiet_format(),
        seq!["set"@, key@, value@] + (match selector.session_name {
                Some(name) => seq!["-s"@, name@],
                None => seq![],
            }),
        out@,
    );
}

/// The call that cancels what a session does names it, if it has a name.
pub proof fn law_the_call_that_cancels(
    gateway: AcpxCliGateway,
    selector: SessionSelector,
    out: ProcessRequest,
)
    requires
        call_ensures(AcpxCliGateway::cancel, (&gateway, &selector), out),
    ensures
        calls_acpx(
            gateway.config,
            selector,
            json_format(),
            seq!["cancel"@] + (match selector.session_name {
                Some(name) => seq!["-s"@, name@],
                None => seq![],
            }),
            out@,
        ),
{
    lemma_calls_acpx(
        gateway.config,
        selector,
        json_format(),
        seq!["cancel"@] + (match selector.session_name {
                Some(name) => seq!["-s"@, name@],
                None => seq![],
            }),
        out@,
    );
}

/// The call that lists the sessions of an agent names that agent and no session.
pub proof fn law_the_call_that_lists_sessions(
    gateway: AcpxCliGateway,
    agent: &str,
    selector: SessionSelector,
    out: ProcessRequest,
)
    requires
        selector.cwd@ == "."@,
        selector.agent@ == agent@,
        selector.permission_mode == PermissionMode::ApproveReads,
        call_ensures(AcpxCliGateway::list_sessions, (&gateway, agent), out),
    ensures
        calls_acpx(
            gateway.config,
            selector,
            json_format(),
            seq!["sessions"@, "list"@],
            out@,
        ),
{
    lemma_calls_acpx(
        gateway.config,
        selector,
        json_format(),
        seq!["sessions"@, "list"@],
        out@,
    );
}

/// The session of a context agrees with the context in each of its fields, and so does
/// the call with a prompt for it: `acpx` is run in the directory of the context, with
/// the flag of the context's permissions, for its agent and its session.
pub proof fn law_a_prompt_is_called_for_as_the_context_says(
    gateway: AcpxCliGateway,
    binding: ConversationBinding,
    selector: SessionSelector,
    prompt: &str,
    out: ProcessRequest,
)
    requires
        call_ensures(selector_for, (&binding,), selector),
        call_ensures(AcpxCliGateway::prompt, (&gateway, &selector, prompt), out),
    ensures
        selector.cwd@ == binding.cwd@,
        selector.agent@ == binding.agent@,
        opt_text(selector.session_name) == opt_text(binding.session_name),
        selector.permission_mode == binding.permission_mode,
        ({
            let before = gateway.config.args@.len() as int;
            &&& out@.cwd == Some(binding.cwd@)
            &&& out@.args[before] == permission_flag(binding.permission_mode)
            &&& out@.args[before + 1] == "--cwd"@
            &&& out@.args[before + 2] == binding.cwd@
            &&& out@.args[before + 9] == binding.agent@
            &&& out@.args[before + 10] == "prompt"@
            &&& out@.args.skip(before + 11) == (match binding.session_name {
                Some(name) => seq!["-s"@, name@, prompt@],
                None => seq![prompt@],
            })
        }),
{
    law_the_call_with_a_prompt(gateway, selector, prompt, out);
    let before = gateway.config.args@.len() as int;
    let given = out@.args.skip(before + 10);
    assert(out@.args[before + 10] == given[0]);
    assert(out@.args.skip(before + 11) =~= given.skip(1));
    match opt_text(binding.session_name) {
        Some(name) => {
            assert(given.skip(1) =~= seq!["-s"@, name, prompt@]);
        },
        None => {
            assert(given.skip(1) =~= seq![prompt@]);
        },
    }
}

/// A process as a line is the program and all its arguments in their order, with spaces
/// between.
pub proof fn law_a_process_is_named_with_all_its_arguments(request: ProcessRequest, out: String)
    requires
        call_ensures(ProcessRequest::command_display, (&request,), out),
    ensures
        request.args@.len() > 0 ==> out@ == join(
            seq![request.program@] + texts(request.args@),
            " "@,
        ),
        request.args@.len() == 0 ==> out@ == request.program@ + " "@,
{
    if request.args@.len() > 0 {
        lemma_join_front(request.program@, texts(request.args@), " "@);
    } else {
        assert(join(texts(request.args@), " "@) =~= Seq::<char>::empty());
        assert(request.program@ + " "@ + Seq::<char>::empty() =~= request.program@ + " "@);
    }
}

/// The shell is run in the directory that was given, with the configured arguments and
/// the command behind them, as it is and whole, as long as is configured.
pub proof fn law_the_shell_is_handed_the_command_whole(
    shell: SystemShellExecutor,
    cwd: &str,
    command: &str,
    out: ProcessRequest,
)
    requires
        call_ensures(SystemShellExecutor::execute, (&shell, cwd, command), out),
    ensures
        out@.program == shell.config.program@,
        out@.cwd == Some(cwd@),
        out@.timeout_secs == shell.config.timeout_secs,
        out@.args.len() == shell.config.args@.len() + 1,
        out@.args.last() == command@,
        forall|i: int|
            0 <= i < shell.config.args@.len() ==> #[trigger] out@.args[i]
                == shell.config.args@[i]@,
{
}

/// What a command came to is told with the command, its directory, its code and both
/// its outputs, whole.
pub proof fn law_the_output_of_a_command_is_kept_whole(
    shell: SystemShellExecutor,
    cwd: &str,
    command: &str,
    output: ProcessOutput,
    out: ShellOutput,
)
    requires
        call_ensures(SystemShellExecutor::output, (&shell, cwd, command, output), out),
    ensures
        out.command@ == command@,
        out.cwd@ == cwd@,
        out.exit_code == output.exit_code,
        out.stdout@ == output.stdout@,
        out.stderr@ == output.stderr@,
{
}

/// A process that ended came to its code and both its outputs, each read whole; one
/// without a code counts as failed. One that was ended or not started is told of with
/// its line.
pub proof fn law_a_process_is_told_of_whole(
    runner: SystemProcessRunner,
    request: ProcessRequest,
    run: ProcessRun,
    out: Result<ProcessOutput, BridgeError>,
)
    requires
        call_ensures(SystemProcessRunner::run, (&runner, &request, run), out),
    ensures
        match run {
            ProcessRun::Ended { code, stdout, stderr } => out matches Ok(output)
                && output.stdout@ == nearest_text(stdout@) && output.stderr@ == nearest_text(
                stderr@,
            ) && (code matches Some(number) ==> output.exit_code == number) && (code is None
                ==> output.exit_code == -1),
            ProcessRun::TimedOut => out matches Err(error) && error@
                == (BridgeErrorView::ProcessTimedOut {
                command: request.program@ + " "@ + join(texts(request.args@), " "@),
            }),
            ProcessRun::NotStarted(fault) => out matches Err(error) && error@
                == BridgeErrorView::Shell(
                "failed to spawn `"@ + (request.program@ + " "@ + join(
                    texts(request.args@),
                    " "@,
                )) + "`: "@ + fault@,
            ),
        },
{
}

/// A call that went well is taken as it is. One that failed is told of with its line, its
/// code and both its outputs, whole, unless it failed without a word and can be made
/// again without the option that may have kept it silent.
pub proof fn law_a_failed_call_is_told_of_whole(
    request: ProcessRequest,
    output: ProcessOutput,
    out: Checked,
)
    requires
        call_ensures(run_checked, (&request, output), out),
    ensures
        output.exit_code == 0 <==> out is Succeeded,
        out matches Checked::Succeeded(kept) ==> kept == output,
        out is Retry <==> output.exit_code != 0 && trim(output.stdout@).len() == 0 && trim(
            output.stderr@,
        ).len() == 0 && texts(request.args@).contains("--json-strict"@),
        out matches Checked::Retry { request: again, output: kept } ==> {
            &&& kept == output
            &&& again@.program == request.program@
            &&& again@.cwd == opt_text(request.cwd)
            &&& again@.timeout_secs == request.timeout_secs
            &&& !again@.args.contains("--json-strict"@)
        },
        out matches Checked::Failed(error) ==> error@ == (BridgeErrorView::ProcessFailed {
            command: request.program@ + " "@ + join(texts(request.args@), " "@),
            exit_code: output.exit_code,
            stdout: output.stdout@,
            stderr: output.stderr@,
        }),
{
    if let Checked::Retry { request: again, output: kept } = out {
        if again@.args.contains("--json-strict"@) {
            let keeps = |arg: Seq<char>| arg != "--json-strict"@;
            let i = choose|i: int|
                0 <= i < again@.args.len() && again@.args[i] == "--json-strict"@;
            texts(request.args@).lemma_filter_pred(keeps, i);
        }
    }
}

/// The call that is made again keeps every argument but the one option, in their order:
/// with arguments of which none is that option before it and behind it, just those.
pub proof fn law_the_second_call_keeps_the_other_arguments(
    request: ProcessRequest,
    front: Seq<Seq<char>>,
    back: Seq<Seq<char>>,
    out: Option<ProcessRequest>,
)
    requires
        call_ensures(build_non_strict_diagnostic_request, (&request,), out),
        texts(request.args@) == front + seq!["--json-strict"@] + back,
        !front.contains("--json-strict"@),
        !back.contains("--json-strict"@),
    ensures
        out matches Some(again) && again@.args == front + back,
{
    let keeps = |arg: Seq<char>| arg != "--json-strict"@;
    let one = seq!["--json-strict"@];
    assert((front + one + back)[front.len() as int] == "--json-strict"@);
    Seq::filter_distributes_over_add(front + one, back, keeps);
    Seq::filter_distributes_over_add(front, one, keeps);
    lemma_all_kept(front);
    lemma_all_kept(back);
    reveal_with_fuel(Seq::filter, 2);
    assert(one.filter(keeps) =~= Seq::<Seq<char>>::empty());
    assert(front + Seq::<Seq<char>>::empty() =~= front);
}

proof fn lemma_all_kept(list: Seq<Seq<char>>)
    requires
        !list.contains("--json-strict"@),
    ensures
        list.filter(|arg: Seq<char>| arg != "--json-strict"@) == list,
    decreases list.len(),
{
    reveal(Seq::filter);
    if list.len() > 0 {
        let rest = list.drop_last();
        assert(list[list.len() - 1] != "--json-strict"@);
        assert(!rest.contains("--json-strict"@)) by {
            if rest.contains("--json-strict"@) {
                let i = choose|i: int| 0 <= i < rest.len() && rest[i] == "--json-strict"@;
                assert(list[i] == "--json-strict"@);
            }
        }
        lemma_all_kept(rest);
        assert(rest.push(list.last()) =~= list);
    }
}

/// A failure is told with the line and the code of the call that failed, and with the
/// outputs of the second call if it says anything, else with those of the first; in
/// either case whole.
pub proof fn law_the_second_call_explains_the_first(
    request: ProcessRequest,
    output: ProcessOutput,
    diagnosis: Option<ProcessOutput>,
    out: BridgeError,
)
    requires
        call_ensures(explain_failure, (&request, output, diagnosis), out),
    ensures
        out@ is ProcessFailed,
        out@->ProcessFailed_command == request.program@ + " "@ + join(texts(request.args@), " "@),
        out@->ProcessFailed_exit_code == output.exit_code,
        match diagnosis {
            Some(said) => if trim(said.stdout@).len() == 0 && trim(said.stderr@).len() == 0 {
                out@->ProcessFailed_stdout == output.stdout@ && out@->ProcessFailed_stderr
                    == output.stderr@
            } else {
                out@->ProcessFailed_stdout == said.stdout@ && out@->ProcessFailed_stderr
                    == said.stderr@
            },
            None => out@->ProcessFailed_stdout == output.stdout@ && out@->ProcessFailed_stderr
                == output.stderr@,
        },
{
}

/// The answer of a call is read from all that it put out but the white space around it.
/// What could be read is taken as it is; what could not is told with the reason and the
/// whole output.
pub proof fn law_an_answer_is_read_whole<T>(
    output: ProcessOutput,
    text: String,
    parsed: Result<T, String>,
    out: Result<T, BridgeError>,
)
    requires
        call_ensures(json_text, (&output,), text),
        call_ensures(run_json::<T>, (output, parsed), out),
    ensures
        text@ == trim(output.stdout@),
        match parsed {
            Ok(value) => out == Ok::<T, BridgeError>(value),
            Err(message) => out matches Err(error) && error@ == (BridgeErrorView::InvalidOutput {
                context: "acpx json response"@,
                message: message@,
                raw_output: output.stdout@,
            }),
        },
{
}

/// A session is told of as `acpx` does, whether it was made sure of, begun or closed: a
/// closed one under the name that it was closed by.
pub proof fn law_a_session_in_brief_is_what_was_answered(
    response: SessionSummaryResponse,
    summary: SessionSummary,
    close: CloseSessionResponse,
    name: Option<String>,
    closed: SessionSummary,
)
    requires
        call_ensures(SessionSummaryResponse::into_summary, (response,), summary),
        call_ensures(summary_from_close, (close, name), closed),
    ensures
        summary.record_id@ == response.acpx_record_id@,
        opt_text(summary.name) == opt_text(response.name),
        summary.created == response.created,
        opt_text(summary.acp_session_id) == opt_text(response.acpx_session_id),
        opt_text(summary.agent_session_id) == opt_text(response.agent_session_id),
        closed.record_id@ == close.acpx_record_id@,
        opt_text(closed.name) == opt_text(name),
        !closed.created,
        opt_text(closed.acp_session_id) == opt_text(close.acpx_session_id),
        opt_text(closed.agent_session_id) == opt_text(close.agent_session_id),
{
}

/// A record of a session says what the answer of `acpx` does, field for field.
pub open spec fn says_what_was_answered(
    response: SessionRecordResponse,
    record: SessionRecord,
) -> bool {
    &&& record.record_id@ == response.acpx_record_id@
    &&& record.acp_session_id@ == response.acp_session_id@
    &&& opt_text(record.agent_session_id) == opt_text(response.agent_session_id)
    &&& record.agent@ == response.agent_command@
    &&& record.cwd@ == response.cwd@
    &&& opt_text(record.name) == opt_text(response.name)
    &&& opt_text(record.title) == opt_text(response.title)
    &&& record.created_at@ == response.created_at@
    &&& record.last_used_at@ == response.last_used_at@
    &&& opt_text(record.last_prompt_at) == opt_text(response.last_prompt_at)
    &&& response.closed matches Some(closed) ==> record.closed == closed
    &&& response.closed is None ==> !record.closed
    &&& response.acpx matches Some(state) ==> opt_text(record.model) == opt_text(
        state.current_model_id,
    ) && opt_text(record.mode) == opt_text(state.current_mode_id)
    &&& response.acpx is None ==> record.model is None && record.mode is None
    &&& response.messages is None ==> record.first_user_preview is None
    &&& response.messages matches Some(messages) ==> opt_text(record.first_user_preview)
        == user_said_from(messages@, 0)
}

/// A list of sessions has a record for each that `acpx` lists, in its order, and each
/// says what was answered. So does the record of a single session.
pub proof fn law_sessions_are_told_as_they_were_answered(
    responses: Vec<SessionRecordResponse>,
    records: Vec<SessionRecord>,
    response: SessionRecordResponse,
    record: SessionRecord,
)
    requires
        call_ensures(into_records, (responses,), records),
        call_ensures(SessionRecordResponse::into_record, (response,), record),
    ensures
        says_what_was_answered(response, record),
        records@.len() == responses@.len(),
        forall|i: int|
            0 <= i < records@.len() ==> says_what_was_answered(
                responses@[i],
                #[trigger] records@[i],
            ),
{
    assert forall|i: int| 0 <= i < records@.len() implies says_what_was_answered(
        responses@[i],
        #[trigger] records@[i],
    ) by {
        assert(responses@[i].told_by(records@[i]));
    }
}

/// A history has an entry for each that `acpx` gives, in its order, with its role, its
/// time and its text, whole.
pub proof fn law_a_history_is_told_as_it_was_answered(
    responses: Vec<HistoryEntryResponse>,
    entries: Vec<SessionHistoryEntry>,
)
    requires
        call_ensures(into_entries, (responses,), entries),
    ensures
        entries@.len() == responses@.len(),
        forall|i: int|
            0 <= i < entries@.len() ==> {
                &&& (#[trigger] entries@[i]).role@ == responses@[i].role@
                &&& entries@[i].timestamp@ == responses@[i].timestamp@
                &&& entries@[i].text_preview@ == responses@[i].text_preview@
            },
{
}

/// A status says what the answer of `acpx` does, field for field, and that the agent is
/// not known where the answer does not name it.
pub proof fn law_a_status_is_told_as_it_was_answered(
    response: StatusResponse,
    status: SessionStatus,
)
    requires
        call_ensures(StatusResponse::into_status, (response,), status),
    ensures
        status.status@ == response.status@,
        opt_text(status.session_id) == opt_text(response.acpx_record_id),
        response.agent_command matches Some(agent) ==> status.agent_command@ == agent@,
        response.agent_command is None ==> status.agent_command@ == "unknown"@,
        status.pid == response.pid,
        opt_text(status.model) == opt_text(response.model),
        opt_text(status.mode) == opt_text(response.mode),
        opt_text(status.uptime) == opt_text(response.uptime),
        opt_text(status.last_prompt_time) == opt_text(response.last_prompt_time),
        status.exit_code == response.exit_code,
        opt_text(status.signal) == opt_text(response.signal),
        opt_text(status.agent_session_id) == opt_text(response.agent_session_id),
{
}

/// After `permissions` named some, the call of `acpx` for the next prompt of the
/// conversation carries their flag, and the directory, the agent and the session from
/// before.
pub proof fn law_the_next_prompt_is_called_for_with_the_permissions(
    defaults: ServiceDefaults,
    kept: Map<Seq<char>, ConversationBindingView>,
    change: InboundMessageView,
    prompt: InboundMessageView,
    mode: PermissionMode,
    first: Seq<Answer>,
    second: Seq<Answer>,
    gateway: AcpxCliGateway,
    selector: SessionSelector,
    text: &str,
    out: ProcessRequest,
)
    requires
        prompt.conversation == change.conversation,
        request(defaults.command_prefix@, change.blocks) == Some(
            command(BotCommandView::Permissions(mode)),
        ),
        is_prompt(defaults.command_prefix@, prompt.blocks),
        carried_out(defaults, change, first),
        carried_out(defaults, prompt, second),
        finds(kept_after(kept, defaults, change, first), prompt, second),
        calls(defaults, begun(prompt), second)[4] == (CallView::Prompt {
            selector: selector@,
            blocks: prompt.blocks,
        }),
        call_ensures(AcpxCliGateway::prompt, (&gateway, &selector, text), out),
    ensures
        ({
            let at = gateway.config.args@.len() as int;
            let before = found(defaults, first);
            &&& out@.args[at] == (match mode {
                PermissionMode::ApproveAll => "--approve-all"@,
                PermissionMode::ApproveReads => "--approve-reads"@,
                PermissionMode::DenyAll => "--deny-all"@,
            })
            &&& out@.cwd == Some(before.cwd)
            &&& out@.args[at + 2] == before.cwd
            &&& out@.args[at + 9] == before.agent
            &&& opt_text(selector.session_name) == before.session_name
        }),
{
    law_permissions_hold_for_the_next_prompt(defaults, kept, change, prompt, mode, first, second);
    law_a_prompt_goes_to_the_session_of_its_context(defaults, prompt, second);
    law_the_call_with_a_prompt(gateway, selector, text, out);
    let all = calls(defaults, begun(prompt), second);
    assert(all.subrange(3, 5)[1] == all[4]);
}

} // verus!
