//! The agents, as they are reached through the command line of `acpx`.
use vstd::prelude::*;

use crate::adapters::json::{extract_first_user_preview, user_said_from, Json};
use crate::adapters::reply::{agent_reply, parse_agent_reply};
use crate::config::AcpxCliConfig;
use crate::domain::{
    AgentReply, PermissionMode, SessionHistoryEntry, SessionRecord, SessionSelector,
    SessionSelectorView, SessionStatus, SessionSummary,
};
use crate::error::{outcome, BridgeError, BridgeErrorView};
use crate::ports::{ProcessOutput, ProcessRequest, ProcessRequestView};
use crate::text::chars::{copy_opt_text, copy_texts, opt_text, same_text, text_or, texts};
use crate::text::number::{decimal, decimal_text};
use crate::text::trim::{is_blank, trim, trim_text};

verus! {

/// The options that every call of `acpx` has.
pub open spec fn base_options(config: AcpxCliConfig, selector: SessionSelectorView) -> Seq<
    Seq<char>,
> {
    texts(config.args@) + seq![
        selector.permission_mode.flag(),
        "--cwd"@,
        selector.cwd,
        "--timeout"@,
        decimal(config.timeout_secs as nat),
        "--ttl"@,
        decimal(config.ttl_secs as nat),
    ]
}

/// The options of a call that is answered in JSON, and the agent behind them.
pub open spec fn json_call(config: AcpxCliConfig, selector: SessionSelectorView) -> Seq<Seq<char>> {
    base_options(config, selector) + seq!["--format"@, "json"@, "--json-strict"@] + seq![
        selector.agent,
    ]
}

/// The options of a call that is answered in plain text, and the agent behind
/// them.
pub open spec fn quiet_call(config: AcpxCliConfig, selector: SessionSelectorView) -> Seq<
    Seq<char>,
> {
    base_options(config, selector) + seq!["--format"@, "quiet"@] + seq![selector.agent]
}

/// A flag and the name of the session, if it has one.
pub open spec fn flagged_name(flag: Seq<char>, name: Option<Seq<char>>) -> Seq<Seq<char>> {
    match name {
        Some(name) => seq![flag, name],
        None => seq![],
    }
}

/// The name of the session, if it has one.
pub open spec fn bare_name(name: Option<Seq<char>>) -> Seq<Seq<char>> {
    match name {
        Some(name) => seq![name],
        None => seq![],
    }
}

/// A call with the given arguments, made in the given directory.
pub open spec fn acpx_request(
    config: AcpxCliConfig,
    args: Seq<Seq<char>>,
    cwd: Seq<char>,
) -> ProcessRequestView {
    ProcessRequestView {
        program: config.program@,
        args,
        cwd: Some(cwd),
        timeout_secs: config.timeout_secs,
    }
}

/// The selector for a list of sessions, which belong to no directory.
pub open spec fn list_selector(agent: Seq<char>) -> SessionSelectorView {
    SessionSelectorView {
        cwd: "."@,
        agent,
        session_name: None,
        permission_mode: PermissionMode::ApproveReads,
    }
}

fn push_arg(args: &mut Vec<String>, arg: &str)
    ensures
        texts(final(args)@) == texts(old(args)@).push(arg@),
{
    args.push(arg.to_owned());
    assert(texts(args@) =~= texts(old(args)@).push(arg@));
}

fn push_flagged_name(args: &mut Vec<String>, flag: &str, name: &Option<String>)
    ensures
        texts(final(args)@) == texts(old(args)@) + flagged_name(flag@, opt_text(*name)),
{
    let ghost before = texts(args@);
    if let Some(name) = name {
        push_arg(args, flag);
        push_arg(args, name.as_str());
    }
    assert(texts(args@) =~= before + flagged_name(flag@, opt_text(*name)));
}

fn push_bare_name(args: &mut Vec<String>, name: &Option<String>)
    ensures
        texts(final(args)@) == texts(old(args)@) + bare_name(opt_text(*name)),
{
    let ghost before = texts(args@);
    if let Some(name) = name {
        push_arg(args, name.as_str());
    }
    assert(texts(args@) =~= before + bare_name(opt_text(*name)));
}

/// The way to the agents.
#[derive(Debug)]
pub struct AcpxCliGateway {
    pub config: AcpxCliConfig,
}

impl AcpxCliGateway {
    pub fn new(config: AcpxCliConfig) -> (out: Self)
        ensures
            out.config == config,
    {
        AcpxCliGateway { config }
    }

    fn base_args(&self, selector: &SessionSelector) -> (out: Vec<String>)
        ensures
            texts(out@) == base_options(self.config, selector@),
    {
        let mut args = copy_texts(&self.config.args);
        push_arg(&mut args, selector.permission_mode.as_acpx_flag());
        push_arg(&mut args, "--cwd");
        push_arg(&mut args, selector.cwd.as_str());
        push_arg(&mut args, "--timeout");
        push_arg(&mut args, decimal_text(self.config.timeout_secs).as_str());
        push_arg(&mut args, "--ttl");
        push_arg(&mut args, decimal_text(self.config.ttl_secs).as_str());
        assert(texts(args@) =~= base_options(self.config, selector@));
        args
    }

    /// The options of a call that is answered in JSON. They are options of `acpx`
    /// itself, so they stand before the agent.
    fn json_args(&self, selector: &SessionSelector) -> (out: Vec<String>)
        ensures
            texts(out@) == json_call(self.config, selector@),
    {
        let mut args = self.base_args(selector);
        push_arg(&mut args, "--format");
        push_arg(&mut args, "json");
        push_arg(&mut args, "--json-strict");
        push_arg(&mut args, selector.agent.as_str());
        assert(texts(args@) =~= json_call(self.config, selector@));
        args
    }

    fn quiet_args(&self, selector: &SessionSelector) -> (out: Vec<String>)
        ensures
            texts(out@) == quiet_call(self.config, selector@),
    {
        let mut args = self.base_args(selector);
        push_arg(&mut args, "--format");
        push_arg(&mut args, "quiet");
        push_arg(&mut args, selector.agent.as_str());
        assert(texts(args@) =~= quiet_call(self.config, selector@));
        args
    }

    fn build_request(&self, args: Vec<String>, cwd: &str) -> (out: ProcessRequest)
        ensures
            out@ == acpx_request(self.config, texts(args@), cwd@),
    {
        ProcessRequest {
            program: self.config.program.clone(),
            args,
            cwd: Some(cwd.to_owned()),
            timeout_secs: self.config.timeout_secs,
        }
    }

    /// The call that makes sure of a session.
    pub fn ensure_session(&self, selector: &SessionSelector) -> (out: ProcessRequest)
        ensures
            out@ == acpx_request(
                self.config,
                json_call(self.config, selector@) + seq!["sessions"@, "ensure"@] + flagged_name(
                    "--name"@,
                    selector@.session_name,
                ),
                selector@.cwd,
            ),
    {
        let mut args = self.json_args(selector);
        push_arg(&mut args, "sessions");
        push_arg(&mut args, "ensure");
        assert(texts(args@) =~= json_call(self.config, selector@) + seq!["sessions"@, "ensure"@]);
        push_flagged_name(&mut args, "--name", &selector.session_name);
        self.build_request(args, selector.cwd.as_str())
    }

    /// The call that begins a session.
    pub fn new_session(&self, selector: &SessionSelector) -> (out: ProcessRequest)
        ensures
            out@ == acpx_request(
                self.config,
                json_call(self.config, selector@) + seq!["sessions"@, "new"@] + flagged_name(
                    "--name"@,
                    selector@.session_name,
                ),
                selector@.cwd,
            ),
    {
        let mut args = self.json_args(selector);
        push_arg(&mut args, "sessions");
        push_arg(&mut args, "new");
        assert(texts(args@) =~= json_call(self.config, selector@) + seq!["sessions"@, "new"@]);
        push_flagged_name(&mut args, "--name", &selector.session_name);
        self.build_request(args, selector.cwd.as_str())
    }

    /// The call that closes a session.
    pub fn close_session(&self, selector: &SessionSelector) -> (out: ProcessRequest)
        ensures
            out@ == acpx_request(
                self.config,
                json_call(self.config, selector@) + seq!["sessions"@, "close"@] + bare_name(
                    selector@.session_name,
                ),
                selector@.cwd,
            ),
    {
        let mut args = self.json_args(selector);
        push_arg(&mut args, "sessions");
        push_arg(&mut args, "close");
        assert(texts(args@) =~= json_call(self.config, selector@) + seq!["sessions"@, "close"@]);
        push_bare_name(&mut args, &selector.session_name);
        self.build_request(args, selector.cwd.as_str())
    }

    /// The call that shows a session.
    pub fn show_session(&self, selector: &SessionSelector) -> (out: ProcessRequest)
        ensures
            out@ == acpx_request(
                self.config,
                json_call(self.config, selector@) + seq!["sessions"@, "show"@] + bare_name(
                    selector@.session_name,
                ),
                selector@.cwd,
            ),
    {
        let mut args = self.json_args(selector);
        push_arg(&mut args, "sessions");
        push_arg(&mut args, "show");
        assert(texts(args@) =~= json_call(self.config, selector@) + seq!["sessions"@, "show"@]);
        push_bare_name(&mut args, &selector.session_name);
        self.build_request(args, selector.cwd.as_str())
    }

    /// The call that lists the sessions of an agent.
    pub fn list_sessions(&self, agent: &str) -> (out: ProcessRequest)
        ensures
            out@ == acpx_request(
                self.config,
                json_call(self.config, list_selector(agent@)) + seq!["sessions"@, "list"@],
                "."@,
            ),
    {
        let selector = SessionSelector {
            cwd: ".".to_owned(),
            agent: agent.to_owned(),
            session_name: None,
            permission_mode: PermissionMode::ApproveReads,
        };
        let mut args = self.json_args(&selector);
        push_arg(&mut args, "sessions");
        push_arg(&mut args, "list");
        assert(texts(args@) =~= json_call(self.config, selector@) + seq!["sessions"@, "list"@]);
        self.build_request(args, ".")
    }

    /// The call that gives the history of a session.
    pub fn history(&self, selector: &SessionSelector, limit: usize) -> (out: ProcessRequest)
        ensures
            out@ == acpx_request(
                self.config,
                json_call(self.config, selector@) + seq!["sessions"@, "history"@] + bare_name(
                    selector@.session_name,
                ) + seq!["--limit"@, decimal(limit as nat)],
                selector@.cwd,
            ),
    {
        let mut args = self.json_args(selector);
        push_arg(&mut args, "sessions");
        push_arg(&mut args, "history");
        assert(texts(args@) =~= json_call(self.config, selector@) + seq!["sessions"@, "history"@]);
        push_bare_name(&mut args, &selector.session_name);
        let ghost before = texts(args@);
        push_arg(&mut args, "--limit");
        push_arg(&mut args, decimal_text(limit as u64).as_str());
        assert(texts(args@) =~= before + seq!["--limit"@, decimal(limit as nat)]);
        self.build_request(args, selector.cwd.as_str())
    }

    /// The call that says what a session is doing.
    pub fn status(&self, selector: &SessionSelector) -> (out: ProcessRequest)
        ensures
            out@ == acpx_request(
                self.config,
                json_call(self.config, selector@) + seq!["status"@] + flagged_name(
                    "-s"@,
                    selector@.session_name,
                ),
                selector@.cwd,
            ),
    {
        let mut args = self.json_args(selector);
        push_arg(&mut args, "status");
        assert(texts(args@) =~= json_call(self.config, selector@) + seq!["status"@]);
        push_flagged_name(&mut args, "-s", &selector.session_name);
        self.build_request(args, selector.cwd.as_str())
    }

    /// The call that hands a prompt to a session.
    pub fn prompt(&self, selector: &SessionSelector, prompt: &str) -> (out: ProcessRequest)
        ensures
            out@ == acpx_request(
                self.config,
                quiet_call(self.config, selector@) + seq!["prompt"@] + flagged_name(
                    "-s"@,
                    selector@.session_name,
                ) + seq![prompt@],
                selector@.cwd,
            ),
    {
        let mut args = self.quiet_args(selector);
        push_arg(&mut args, "prompt");
        assert(texts(args@) =~= quiet_call(self.config, selector@) + seq!["prompt"@]);
        push_flagged_name(&mut args, "-s", &selector.session_name);
        let ghost before = texts(args@);
        push_arg(&mut args, prompt);
        assert(texts(args@) =~= before + seq![prompt@]);
        self.build_request(args, selector.cwd.as_str())
    }

    /// The call that hands a prompt to an agent outside of any session.
    pub fn exec(&self, selector: &SessionSelector, prompt: &str) -> (out: ProcessRequest)
        ensures
            out@ == acpx_request(
                self.config,
                quiet_call(self.config, selector@) + seq!["exec"@, prompt@],
                selector@.cwd,
            ),
    {
        let mut args = self.quiet_args(selector);
        push_arg(&mut args, "exec");
        push_arg(&mut args, prompt);
        assert(texts(args@) =~= quiet_call(self.config, selector@) + seq!["exec"@, prompt@]);
        self.build_request(args, selector.cwd.as_str())
    }

    /// The call that sets the mode of a session.
    pub fn set_mode(&self, selector: &SessionSelector, mode: &str) -> (out: ProcessRequest)
        ensures
            out@ == acpx_request(
                self.config,
                quiet_call(self.config, selector@) + seq!["set-mode"@, mode@] + flagged_name(
                    "-s"@,
                    selector@.session_name,
                ),
                selector@.cwd,
            ),
    {
        let mut args = self.quiet_args(selector);
        push_arg(&mut args, "set-mode");
        push_arg(&mut args, mode);
        assert(texts(args@) =~= quiet_call(self.config, selector@) + seq!["set-mode"@, mode@]);
        push_flagged_name(&mut args, "-s", &selector.session_name);
        self.build_request(args, selector.cwd.as_str())
    }

    /// The call that sets the model of a session.
    pub fn set_model(&self, selector: &SessionSelector, model: &str) -> (out: ProcessRequest)
        ensures
            out@ == acpx_request(
                self.config,
                quiet_call(self.config, selector@) + seq!["set"@, "model"@, model@] + flagged_name(
                    "-s"@,
                    selector@.session_name,
                ),
                selector@.cwd,
            ),
    {
        self.set_option(selector, "model", model)
    }

    /// The call that sets an option of a session.
    pub fn set_option(&self, selector: &SessionSelector, key: &str, value: &str) -> (out:
        ProcessRequest)
        ensures
            out@ == acpx_request(
                self.config,
                quiet_call(self.config, selector@) + seq!["set"@, key@, value@] + flagged_name(
                    "-s"@,
                    selector@.session_name,
                ),
                selector@.cwd,
            ),
    {
        let mut args = self.quiet_args(selector);
        push_arg(&mut args, "set");
        push_arg(&mut args, key);
        push_arg(&mut args, value);
        assert(texts(args@) =~= quiet_call(self.config, selector@) + seq!["set"@, key@, value@]);
        push_flagged_name(&mut args, "-s", &selector.session_name);
        self.build_request(args, selector.cwd.as_str())
    }

    /// The call that cancels what a session is doing.
    pub fn cancel(&self, selector: &SessionSelector) -> (out: ProcessRequest)
        ensures
            out@ == acpx_request(
                self.config,
                json_call(self.config, selector@) + seq!["cancel"@] + flagged_name(
                    "-s"@,
                    selector@.session_name,
                ),
                selector@.cwd,
            ),
    {
        let mut args = self.json_args(selector);
        push_arg(&mut args, "cancel");
        assert(texts(args@) =~= json_call(self.config, selector@) + seq!["cancel"@]);
        push_flagged_name(&mut args, "-s", &selector.session_name);
        self.build_request(args, selector.cwd.as_str())
    }
}

/// The arguments without the option that keeps errors in plain text back.
pub open spec fn lenient(args: Seq<Seq<char>>) -> Seq<Seq<char>> {
    args.filter(|arg: Seq<char>| arg != "--json-strict"@)
}

/// The call that is made to learn what is wrong with one that failed without a
/// word: the same, without that option, if it had it.
pub open spec fn diagnostic(request: ProcessRequestView) -> Option<ProcessRequestView> {
    if request.args.contains("--json-strict"@) {
        Some(ProcessRequestView { args: lenient(request.args), ..request })
    } else {
        None
    }
}

/// The call that is made to learn what is wrong with one that failed without a
/// word.
pub fn build_non_strict_diagnostic_request(request: &ProcessRequest) -> (out: Option<
    ProcessRequest,
>)
    ensures
        match out {
            Some(again) => diagnostic(request@) == Some(again@),
            None => diagnostic(request@) is None,
        },
{
    let ghost all = texts(request.args@);
    let ghost keeps = |arg: Seq<char>| arg != "--json-strict"@;
    let mut kept: Vec<String> = Vec::new();
    let mut strict = false;
    let mut i: usize = 0;
    proof {
        reveal(Seq::filter);
    }
    assert(texts(kept@) =~= all.take(0).filter(keeps));
    while i < request.args.len()
        invariant
            i <= request.args@.len(),
            all == texts(request.args@),
            keeps == (|arg: Seq<char>| arg != "--json-strict"@),
            strict == all.take(i as int).contains("--json-strict"@),
            texts(kept@) == all.take(i as int).filter(keeps),
        decreases request.args@.len() - i,
    {
        let ghost before = texts(kept@);
        let ghost now = all.take(i as int);
        let ghost then = all.take(i + 1);
        let arg = &request.args[i];
        proof {
            reveal(Seq::filter);
            assert(then =~= now.push(arg@));
            assert(then.drop_last() =~= now);
            assert(then.last() == arg@);
        }
        if same_text(arg.as_str(), "--json-strict") {
            strict = true;
            assert(then[i as int] == "--json-strict"@);
        } else {
            kept.push(arg.clone());
            assert(texts(kept@) =~= before.push(arg@));
            assert(then.contains("--json-strict"@) ==> now.contains("--json-strict"@)) by {
                if then.contains("--json-strict"@) {
                    let k = choose|k: int| 0 <= k < then.len() && then[k] == "--json-strict"@;
                    assert(now[k] == "--json-strict"@);
                }
            }
        }
        assert(now.contains("--json-strict"@) ==> then.contains("--json-strict"@)) by {
            if now.contains("--json-strict"@) {
                let k = choose|k: int| 0 <= k < now.len() && now[k] == "--json-strict"@;
                assert(then[k] == "--json-strict"@);
            }
        }
        i += 1;
    }
    assert(all.take(i as int) =~= all);
    if !strict {
        return None;
    }
    Some(
        ProcessRequest {
            program: request.program.clone(),
            args: kept,
            cwd: copy_opt_text(&request.cwd),
            timeout_secs: request.timeout_secs,
        },
    )
}

/// A process printed nothing that can be read.
pub open spec fn silent(output: ProcessOutput) -> bool {
    trim(output.stdout@).len() == 0 && trim(output.stderr@).len() == 0
}

fn is_silent(output: &ProcessOutput) -> (out: bool)
    ensures
        out == silent(*output),
{
    is_blank(output.stdout.as_str()) && is_blank(output.stderr.as_str())
}

/// A call failed.
pub open spec fn failed(
    request: ProcessRequestView,
    exit_code: i32,
    said: ProcessOutput,
) -> BridgeErrorView {
    BridgeErrorView::ProcessFailed {
        command: request.command_line(),
        exit_code,
        stdout: said.stdout@,
        stderr: said.stderr@,
    }
}

/// What the output of a call leads to.
pub enum Checked {
    /// The call went well.
    Succeeded(ProcessOutput),
    /// The call failed without a word, and another is made to learn why.
    Retry { request: ProcessRequest, output: ProcessOutput },
    Failed(BridgeError),
}

/// Takes the output of a call.
pub fn run_checked(request: &ProcessRequest, output: ProcessOutput) -> (out: Checked)
    ensures
        match out {
            Checked::Succeeded(kept) => output.exit_code == 0 && kept == output,
            Checked::Retry { request: again, output: kept } => {
                &&& output.exit_code != 0
                &&& silent(output)
                &&& diagnostic(request@) == Some(again@)
                &&& kept == output
            },
            Checked::Failed(error) => {
                &&& output.exit_code != 0
                &&& !silent(output) || diagnostic(request@) is None
                &&& error@ == failed(request@, output.exit_code, output)
            },
        },
{
    if output.exit_code == 0 {
        return Checked::Succeeded(output);
    }
    if is_silent(&output) {
        if let Some(again) = build_non_strict_diagnostic_request(request) {
            return Checked::Retry { request: again, output };
        }
    }
    Checked::Failed(
        BridgeError::ProcessFailed {
            command: request.command_display(),
            exit_code: output.exit_code,
            stdout: output.stdout,
            stderr: output.stderr,
        },
    )
}

/// Takes the output of the call that was made to learn why another failed, if it
/// could be made. It is told of if it says anything.
pub fn explain_failure(
    request: &ProcessRequest,
    output: ProcessOutput,
    diagnosis: Option<ProcessOutput>,
) -> (out: BridgeError)
    ensures
        out@ == failed(
            request@,
            output.exit_code,
            match diagnosis {
                Some(said) => if silent(said) {
                    output
                } else {
                    said
                },
                None => output,
            },
        ),
{
    let exit_code = output.exit_code;
    let said = match diagnosis {
        Some(said) => if is_silent(&said) {
            output
        } else {
            said
        },
        None => output,
    };
    BridgeError::ProcessFailed {
        command: request.command_display(),
        exit_code,
        stdout: said.stdout,
        stderr: said.stderr,
    }
}

/// The text that the JSON answer of a call is read from.
pub fn json_text(output: &ProcessOutput) -> (out: String)
    ensures
        out@ == trim(output.stdout@),
{
    trim_text(output.stdout.as_str())
}

/// What a call comes to whose answer was read as JSON, or could not be.
pub fn run_json<T>(output: ProcessOutput, parsed: Result<T, String>) -> (out: Result<
    T,
    BridgeError,
>)
    ensures
        outcome(out) == (match parsed {
            Ok(value) => Ok::<T, BridgeErrorView>(value),
            Err(message) => Err::<T, BridgeErrorView>(
                BridgeErrorView::InvalidOutput {
                    context: "acpx json response"@,
                    message: message@,
                    raw_output: output.stdout@,
                },
            ),
        }),
{
    match parsed {
        Ok(value) => Ok(value),
        Err(message) => Err(
            BridgeError::InvalidOutput {
                context: "acpx json response".to_owned(),
                message,
                raw_output: output.stdout,
            },
        ),
    }
}

/// The reply of a call that is answered in plain text.
pub fn run_quiet(output: ProcessOutput) -> (out: AgentReply)
    ensures
        out@ == agent_reply(output.stdout@),
{
    parse_agent_reply(output.stdout.as_str())
}

/// What `acpx` says of a session that it made sure of or began.
#[derive(Debug)]
pub struct SessionSummaryResponse {
    pub acpx_record_id: String,
    pub name: Option<String>,
    pub created: bool,
    pub acpx_session_id: Option<String>,
    pub agent_session_id: Option<String>,
}

impl SessionSummaryResponse {
    pub fn into_summary(self) -> (out: SessionSummary)
        ensures
            out == (SessionSummary {
                record_id: self.acpx_record_id,
                name: self.name,
                created: self.created,
                acp_session_id: self.acpx_session_id,
                agent_session_id: self.agent_session_id,
            }),
    {
        SessionSummary {
            record_id: self.acpx_record_id,
            name: self.name,
            created: self.created,
            acp_session_id: self.acpx_session_id,
            agent_session_id: self.agent_session_id,
        }
    }
}

/// What `acpx` says of a session that it closed.
#[derive(Debug)]
pub struct CloseSessionResponse {
    pub acpx_record_id: String,
    pub acpx_session_id: Option<String>,
    pub agent_session_id: Option<String>,
}

/// A session that was closed, under the name that it was closed by.
pub fn summary_from_close(response: CloseSessionResponse, session_name: Option<String>) -> (out:
    SessionSummary)
    ensures
        out == (SessionSummary {
            record_id: response.acpx_record_id,
            name: session_name,
            created: false,
            acp_session_id: response.acpx_session_id,
            agent_session_id: response.agent_session_id,
        }),
{
    SessionSummary {
        record_id: response.acpx_record_id,
        name: session_name,
        created: false,
        acp_session_id: response.acpx_session_id,
        agent_session_id: response.agent_session_id,
    }
}

/// What `acpx` keeps of a session for itself.
#[derive(Debug)]
pub struct AcpxState {
    pub current_model_id: Option<String>,
    pub current_mode_id: Option<String>,
}

/// What `acpx` says of a session that it keeps.
#[derive(Debug)]
pub struct SessionRecordResponse {
    pub acpx_record_id: String,
    pub acp_session_id: String,
    pub agent_session_id: Option<String>,
    pub agent_command: String,
    pub cwd: String,
    pub name: Option<String>,
    pub title: Option<String>,
    pub created_at: String,
    pub last_used_at: String,
    pub last_prompt_at: Option<String>,
    pub messages: Option<Vec<Json>>,
    pub closed: Option<bool>,
    pub acpx: Option<AcpxState>,
}

impl SessionRecordResponse {
    /// The record is what the answer says, where what is said first comes from the
    /// messages, and a session counts as open unless it is said to be closed.
    pub open spec fn told_by(self, record: SessionRecord) -> bool {
        &&& record.record_id == self.acpx_record_id
        &&& record.acp_session_id == self.acp_session_id
        &&& record.agent_session_id == self.agent_session_id
        &&& record.agent == self.agent_command
        &&& record.cwd == self.cwd
        &&& record.name == self.name
        &&& record.title == self.title
        &&& opt_text(record.first_user_preview) == (match self.messages {
            Some(messages) => user_said_from(messages@, 0),
            None => None,
        })
        &&& record.created_at == self.created_at
        &&& record.last_used_at == self.last_used_at
        &&& record.last_prompt_at == self.last_prompt_at
        &&& record.closed == (self.closed == Some(true))
        &&& record.model == (match self.acpx {
            Some(state) => state.current_model_id,
            None => None,
        })
        &&& record.mode == (match self.acpx {
            Some(state) => state.current_mode_id,
            None => None,
        })
    }

    pub fn into_record(self) -> (out: SessionRecord)
        ensures
            self.told_by(out),
    {
        let first_user_preview = match &self.messages {
            Some(messages) => extract_first_user_preview(messages.as_slice()),
            None => None,
        };
        let (model, mode) = match self.acpx {
            Some(state) => (state.current_model_id, state.current_mode_id),
            None => (None, None),
        };
        let closed = match self.closed {
            Some(closed) => closed,
            None => false,
        };
        SessionRecord {
            record_id: self.acpx_record_id,
            acp_session_id: self.acp_session_id,
            agent_session_id: self.agent_session_id,
            agent: self.agent_command,
            cwd: self.cwd,
            name: self.name,
            title: self.title,
            first_user_preview,
            created_at: self.created_at,
            last_used_at: self.last_used_at,
            last_prompt_at: self.last_prompt_at,
            closed,
            model,
            mode,
        }
    }
}

/// The records of a list of sessions, in their order.
pub fn into_records(responses: Vec<SessionRecordResponse>) -> (out: Vec<SessionRecord>)
    ensures
        out@.len() == responses@.len(),
        forall|i: int| 0 <= i < out@.len() ==> responses@[i].told_by(#[trigger] out@[i]),
{
    let mut out: Vec<SessionRecord> = Vec::new();
    let ghost all = responses@;
    for response in it: responses.into_iter()
        invariant
            it.seq() == all,
            out@.len() == it.index(),
            forall|i: int| 0 <= i < out@.len() ==> all[i].told_by(#[trigger] out@[i]),
    {
        out.push(response.into_record());
    }
    out
}

/// What `acpx` says of an entry of a history.
#[derive(Debug)]
pub struct HistoryEntryResponse {
    pub role: String,
    pub timestamp: String,
    pub text_preview: String,
}

impl HistoryEntryResponse {
    pub fn into_entry(self) -> (out: SessionHistoryEntry)
        ensures
            out == (SessionHistoryEntry {
                role: self.role,
                timestamp: self.timestamp,
                text_preview: self.text_preview,
            }),
    {
        SessionHistoryEntry {
            role: self.role,
            timestamp: self.timestamp,
            text_preview: self.text_preview,
        }
    }
}

/// The entries of a history, in their order.
pub fn into_entries(responses: Vec<HistoryEntryResponse>) -> (out: Vec<SessionHistoryEntry>)
    ensures
        out@.len() == responses@.len(),
        forall|i: int|
            0 <= i < out@.len() ==> #[trigger] out@[i] == (SessionHistoryEntry {
                role: responses@[i].role,
                timestamp: responses@[i].timestamp,
                text_preview: responses@[i].text_preview,
            }),
{
    let mut out: Vec<SessionHistoryEntry> = Vec::new();
    let ghost all = responses@;
    for response in it: responses.into_iter()
        invariant
            it.seq() == all,
            out@.len() == it.index(),
            forall|i: int|
                0 <= i < out@.len() ==> #[trigger] out@[i] == (SessionHistoryEntry {
                    role: all[i].role,
                    timestamp: all[i].timestamp,
                    text_preview: all[i].text_preview,
                }),
    {
        out.push(response.into_entry());
    }
    out
}

/// What `acpx` says of what a session is doing.
#[derive(Debug)]
pub struct StatusResponse {
    pub status: String,
    pub acpx_record_id: Option<String>,
    pub agent_command: Option<String>,
    pub pid: Option<i64>,
    pub model: Option<String>,
    pub mode: Option<String>,
    pub uptime: Option<String>,
    pub last_prompt_time: Option<String>,
    pub exit_code: Option<i64>,
    pub signal: Option<String>,
    pub agent_session_id: Option<String>,
}

impl StatusResponse {
    /// The status is what the answer says, with a word for an agent that it does
    /// not name.
    pub open spec fn told_by(self, status: SessionStatus) -> bool {
        &&& status.status == self.status
        &&& status.session_id == self.acpx_record_id
        &&& status.agent_command@ == text_or(opt_text(self.agent_command), "unknown"@)
        &&& status.pid == self.pid
        &&& status.model == self.model
        &&& status.mode == self.mode
        &&& status.uptime == self.uptime
        &&& status.last_prompt_time == self.last_prompt_time
        &&& status.exit_code == self.exit_code
        &&& status.signal == self.signal
        &&& status.agent_session_id == self.agent_session_id
    }

    pub fn into_status(self) -> (out: SessionStatus)
        ensures
            self.told_by(out),
    {
        let agent_command = match self.agent_command {
            Some(agent) => agent,
            None => "unknown".to_owned(),
        };
        SessionStatus {
            status: self.status,
            session_id: self.acpx_record_id,
            agent_command,
            pid: self.pid,
            model: self.model,
            mode: self.mode,
            uptime: self.uptime,
            last_prompt_time: self.last_prompt_time,
            exit_code: self.exit_code,
            signal: self.signal,
            agent_session_id: self.agent_session_id,
        }
    }
}

} // verus!
