//! How the bridge is set up.
use vstd::prelude::*;

use crate::domain::PermissionMode;
use crate::error::{outcome, BridgeError, BridgeErrorView};
use crate::paths::{join_on, joined_on};
use crate::platform::{
    data_dir, default_data_dir, shell_args, shell_args_on, shell_program, shell_program_on,
    Platform, System,
};
use crate::support::{argument_list, parse_argument_list};
use crate::text::chars::{
    copy_opt_text, copy_texts, lower, opt_text, same_chars, same_text, text_or, texts, to_chars,
    to_lower_chars,
};
use crate::text::lines::join_two;
use crate::text::number::{parse_number, read_number};

verus! {

/// The bot, and what it does with files.
#[derive(Debug)]
pub struct FeishuConfig {
    pub app_id: String,
    pub app_secret: String,
    pub nickname: Option<String>,
    pub typing_reaction_emoji: Option<String>,
    pub media_dir: String,
    pub max_markdown_bytes: usize,
    pub enable_markdown_input: bool,
    pub enable_markdown_output: bool,
}

/// How `acpx` is run.
#[derive(Debug)]
pub struct AcpxCliConfig {
    pub program: String,
    pub args: Vec<String>,
    pub timeout_secs: u64,
    pub ttl_secs: u64,
}

/// How the shell is run.
#[derive(Debug)]
pub struct ShellConfig {
    pub program: String,
    pub args: Vec<String>,
    pub timeout_secs: u64,
}

#[derive(Debug)]
pub struct AppConfig {
    pub feishu: FeishuConfig,
    pub acpx: AcpxCliConfig,
    pub shell: ShellConfig,
    pub command_prefix: String,
    pub default_workspace: String,
    pub default_agent: String,
    pub default_permission_mode: PermissionMode,
    pub reply_chunk_chars: usize,
    pub conversation_store_path: String,
    pub log_path: String,
    pub tracing_filter: String,
}

impl Clone for FeishuConfig {
    fn clone(&self) -> (out: Self)
        ensures
            out == *self,
    {
        FeishuConfig {
            app_id: self.app_id.clone(),
            app_secret: self.app_secret.clone(),
            nickname: copy_opt_text(&self.nickname),
            typing_reaction_emoji: copy_opt_text(&self.typing_reaction_emoji),
            media_dir: self.media_dir.clone(),
            max_markdown_bytes: self.max_markdown_bytes,
            enable_markdown_input: self.enable_markdown_input,
            enable_markdown_output: self.enable_markdown_output,
        }
    }
}

pub struct FeishuConfigView {
    pub app_id: Seq<char>,
    pub app_secret: Seq<char>,
    pub nickname: Option<Seq<char>>,
    pub typing_reaction_emoji: Option<Seq<char>>,
    pub media_dir: Seq<char>,
    pub max_markdown_bytes: nat,
    pub enable_markdown_input: bool,
    pub enable_markdown_output: bool,
}

impl View for FeishuConfig {
    type V = FeishuConfigView;

    open spec fn view(&self) -> FeishuConfigView {
        FeishuConfigView {
            app_id: self.app_id@,
            app_secret: self.app_secret@,
            nickname: opt_text(self.nickname),
            typing_reaction_emoji: opt_text(self.typing_reaction_emoji),
            media_dir: self.media_dir@,
            max_markdown_bytes: self.max_markdown_bytes as nat,
            enable_markdown_input: self.enable_markdown_input,
            enable_markdown_output: self.enable_markdown_output,
        }
    }
}

pub struct AcpxCliConfigView {
    pub program: Seq<char>,
    pub args: Seq<Seq<char>>,
    pub timeout_secs: u64,
    pub ttl_secs: u64,
}

impl View for AcpxCliConfig {
    type V = AcpxCliConfigView;

    open spec fn view(&self) -> AcpxCliConfigView {
        AcpxCliConfigView {
            program: self.program@,
            args: texts(self.args@),
            timeout_secs: self.timeout_secs,
            ttl_secs: self.ttl_secs,
        }
    }
}

impl Clone for AcpxCliConfig {
    fn clone(&self) -> (out: Self)
        ensures
            out@ == self@,
    {
        AcpxCliConfig {
            program: self.program.clone(),
            args: copy_texts(&self.args),
            timeout_secs: self.timeout_secs,
            ttl_secs: self.ttl_secs,
        }
    }
}

pub struct ShellConfigView {
    pub program: Seq<char>,
    pub args: Seq<Seq<char>>,
    pub timeout_secs: u64,
}

impl View for ShellConfig {
    type V = ShellConfigView;

    open spec fn view(&self) -> ShellConfigView {
        ShellConfigView {
            program: self.program@,
            args: texts(self.args@),
            timeout_secs: self.timeout_secs,
        }
    }
}

impl Clone for ShellConfig {
    fn clone(&self) -> (out: Self)
        ensures
            out@ == self@,
    {
        ShellConfig {
            program: self.program.clone(),
            args: copy_texts(&self.args),
            timeout_secs: self.timeout_secs,
        }
    }
}

pub struct AppConfigView {
    pub feishu: FeishuConfigView,
    pub acpx: AcpxCliConfigView,
    pub shell: ShellConfigView,
    pub command_prefix: Seq<char>,
    pub default_workspace: Seq<char>,
    pub default_agent: Seq<char>,
    pub default_permission_mode: PermissionMode,
    pub reply_chunk_chars: nat,
    pub conversation_store_path: Seq<char>,
    pub log_path: Seq<char>,
    pub tracing_filter: Seq<char>,
}

impl View for AppConfig {
    type V = AppConfigView;

    open spec fn view(&self) -> AppConfigView {
        AppConfigView {
            feishu: self.feishu@,
            acpx: self.acpx@,
            shell: self.shell@,
            command_prefix: self.command_prefix@,
            default_workspace: self.default_workspace@,
            default_agent: self.default_agent@,
            default_permission_mode: self.default_permission_mode,
            reply_chunk_chars: self.reply_chunk_chars as nat,
            conversation_store_path: self.conversation_store_path@,
            log_path: self.log_path@,
            tracing_filter: self.tracing_filter@,
        }
    }
}

impl Clone for AppConfig {
    fn clone(&self) -> (out: Self)
        ensures
            out@ == self@,
    {
        AppConfig {
            feishu: self.feishu.clone(),
            acpx: self.acpx.clone(),
            shell: self.shell.clone(),
            command_prefix: self.command_prefix.clone(),
            default_workspace: self.default_workspace.clone(),
            default_agent: self.default_agent.clone(),
            default_permission_mode: self.default_permission_mode,
            reply_chunk_chars: self.reply_chunk_chars,
            conversation_store_path: self.conversation_store_path.clone(),
            log_path: self.log_path.clone(),
            tracing_filter: self.tracing_filter.clone(),
        }
    }
}

/// What the bridge finds around it when it starts: the directory that it is
/// started in, or why that is not known, and the environment variables.
pub struct Environment {
    pub system: System,
    pub current_dir: Result<String, String>,
    pub vars: Vec<(String, String)>,
}

/// Two names mean the same variable. On Windows the case of their letters does not
/// matter.
pub open spec fn same_variable(platform: Platform, left: Seq<char>, right: Seq<char>) -> bool {
    match platform {
        Platform::Unix => left == right,
        Platform::Windows => lower(left) == lower(right),
    }
}

/// Whether two names mean the same variable.
pub fn is_same_variable(platform: Platform, left: &str, right: &str) -> (out: bool)
    ensures
        out == same_variable(platform, left@, right@),
{
    match platform {
        Platform::Unix => same_text(left, right),
        Platform::Windows => {
            let left_chars = to_chars(left);
            let right_chars = to_chars(right);
            same_chars(
                to_lower_chars(left_chars.as_slice()).as_slice(),
                to_lower_chars(right_chars.as_slice()).as_slice(),
            )
        },
    }
}

/// The value of the first variable with the given name.
pub open spec fn var_from(
    platform: Platform,
    vars: Seq<(String, String)>,
    name: Seq<char>,
    from: int,
) -> Option<Seq<char>>
    decreases vars.len() - from,
{
    if from < 0 || from >= vars.len() {
        None
    } else if same_variable(platform, vars[from].0@, name) {
        Some(vars[from].1@)
    } else {
        var_from(platform, vars, name, from + 1)
    }
}

impl Environment {
    /// The value of a variable, if it is set.
    pub open spec fn value(self, name: Seq<char>) -> Option<Seq<char>> {
        var_from(self.system.family(), self.vars@, name, 0)
    }

    /// The value of a variable, if it is set.
    pub fn var(&self, name: &str) -> (out: Option<String>)
        ensures
            opt_text(out) == self.value(name@),
    {
        let platform = self.system.platform();
        let mut i: usize = 0;
        while i < self.vars.len()
            invariant
                i <= self.vars@.len(),
                platform == self.system.family(),
                self.value(name@) == var_from(platform, self.vars@, name@, i as int),
            decreases self.vars@.len() - i,
        {
            if is_same_variable(platform, self.vars[i].0.as_str(), name) {
                return Some(self.vars[i].1.clone());
            }
            i += 1;
        }
        None
    }

    /// The directory that the bridge keeps its files in.
    pub open spec fn data_dir(self) -> Seq<char> {
        data_dir(
            self.system.family(),
            self.value("HOME"@),
            self.value("APPDATA"@),
            self.value("USERPROFILE"@),
        )
    }

    /// The directory that the bridge keeps its files in.
    pub fn default_data_dir(&self) -> (out: String)
        ensures
            out@ == self.data_dir(),
    {
        default_data_dir(
            self.system,
            &self.var("HOME"),
            &self.var("APPDATA"),
            &self.var("USERPROFILE"),
        )
    }

    /// The value of a variable, or else a file in the directory of the bridge.
    pub open spec fn path_value(self, name: Seq<char>, file: Seq<char>) -> Seq<char> {
        text_or(self.value(name), joined_on(self.system.family(), self.data_dir(), file))
    }

    fn path_var(&self, name: &str, file: &str) -> (out: String)
        ensures
            out@ == self.path_value(name@, file@),
    {
        match self.var(name) {
            Some(path) => path,
            None => join_on(self.system, self.default_data_dir().as_str(), file),
        }
    }

    fn var_or(&self, name: &str, otherwise: &str) -> (out: String)
        ensures
            out@ == text_or(self.value(name@), otherwise@),
    {
        match self.var(name) {
            Some(value) => value,
            None => otherwise.to_owned(),
        }
    }
}

/// What is said of a variable that is not set and has to be.
pub open spec fn missing(name: Seq<char>) -> BridgeErrorView {
    BridgeErrorView::Config("missing required environment variable "@ + name)
}

/// What is said of a variable that is not what it has to be.
pub open spec fn not_a(name: Seq<char>, what: Seq<char>, why: Seq<char>) -> BridgeErrorView {
    BridgeErrorView::Config(name + what + why)
}

/// The value of a variable that has to be set.
pub open spec fn required(env: Environment, name: Seq<char>) -> Result<Seq<char>, BridgeErrorView> {
    match env.value(name) {
        Some(value) => Ok(value),
        None => Err(missing(name)),
    }
}

/// The number that a variable is set to, or else the given one.
pub open spec fn number(
    env: Environment,
    name: Seq<char>,
    what: Seq<char>,
    max: nat,
    otherwise: nat,
) -> Result<nat, BridgeErrorView> {
    match env.value(name) {
        Some(value) => match read_number(value, max) {
            Ok(n) => Ok(n),
            Err(error) => Err(not_a(name, what, error.text())),
        },
        None => Ok(otherwise),
    }
}

/// Whether a variable is set to `true`; one that is not set counts as that.
pub open spec fn enabled(env: Environment, name: Seq<char>) -> Result<bool, BridgeErrorView> {
    match env.value(name) {
        Some(value) => if value == "true"@ {
            Ok(true)
        } else if value == "false"@ {
            Ok(false)
        } else {
            Err(
                not_a(
                    name,
                    " must be a boolean: "@,
                    "provided string was not `true` or `false`"@,
                ),
            )
        },
        None => Ok(true),
    }
}

fn not_a_error(name: &str, what: &str, why: &str) -> (out: BridgeError)
    ensures
        out@ == not_a(name@, what@, why@),
{
    let mut message = name.to_owned();
    message.append(what);
    message.append(why);
    BridgeError::Config(message)
}

fn required_env(env: &Environment, name: &str) -> (out: Result<String, BridgeError>)
    ensures
        match out {
            Ok(value) => required(*env, name@) == Ok::<Seq<char>, BridgeErrorView>(value@),
            Err(error) => required(*env, name@) == Err::<Seq<char>, BridgeErrorView>(error@),
        },
{
    match env.var(name) {
        Some(value) => Ok(value),
        None => Err(
            BridgeError::Config(join_two("missing required environment variable ", name)),
        ),
    }
}

fn parse_number_env(env: &Environment, name: &str, what: &str, max: u64, otherwise: u64) -> (out:
    Result<u64, BridgeError>)
    requires
        otherwise <= max,
    ensures
        match out {
            Ok(n) => n <= max && number(*env, name@, what@, max as nat, otherwise as nat) == Ok::<
                nat,
                BridgeErrorView,
            >(n as nat),
            Err(error) => number(*env, name@, what@, max as nat, otherwise as nat) == Err::<
                nat,
                BridgeErrorView,
            >(error@),
        },
{
    match env.var(name) {
        Some(value) => match parse_number(value.as_str(), max) {
            Ok(n) => Ok(n),
            Err(error) => Err(not_a_error(name, what, error.describe())),
        },
        None => Ok(otherwise),
    }
}

/// The number of seconds that a variable is set to, or else the given one.
fn parse_u64_env(env: &Environment, name: &str, default: u64) -> (out: Result<u64, BridgeError>)
    ensures
        match out {
            Ok(n) => number(
                *env,
                name@,
                " must be a non-negative integer: "@,
                u64::MAX as nat,
                default as nat,
            ) == Ok::<nat, BridgeErrorView>(n as nat),
            Err(error) => number(
                *env,
                name@,
                " must be a non-negative integer: "@,
                u64::MAX as nat,
                default as nat,
            ) == Err::<nat, BridgeErrorView>(error@),
        },
{
    parse_number_env(env, name, " must be a non-negative integer: ", u64::MAX, default)
}

/// The size that a variable is set to, or else the given one.
fn parse_usize_env(env: &Environment, name: &str, default: u32) -> (out: Result<
    usize,
    BridgeError,
>)
    ensures
        match out {
            Ok(n) => number(
                *env,
                name@,
                " must be a positive integer: "@,
                usize::MAX as nat,
                default as nat,
            ) == Ok::<nat, BridgeErrorView>(n as nat),
            Err(error) => number(
                *env,
                name@,
                " must be a positive integer: "@,
                usize::MAX as nat,
                default as nat,
            ) == Err::<nat, BridgeErrorView>(error@),
        },
{
    let parsed = parse_number_env(
        env,
        name,
        " must be a positive integer: ",
        usize::MAX as u64,
        default as u64,
    );
    match parsed {
        Ok(n) => Ok(n as usize),
        Err(error) => Err(error),
    }
}

fn parse_bool_env(env: &Environment, name: &str) -> (out: Result<bool, BridgeError>)
    ensures
        outcome(out) == enabled(*env, name@),
{
    match env.var(name) {
        Some(value) => if same_text(value.as_str(), "true") {
            Ok(true)
        } else if same_text(value.as_str(), "false") {
            Ok(false)
        } else {
            Err(
                not_a_error(
                    name,
                    " must be a boolean: ",
                    "provided string was not `true` or `false`",
                ),
            )
        },
        None => Ok(true),
    }
}

/// What may be done without asking, unless a variable says otherwise.
pub open spec fn permission_mode(env: Environment) -> PermissionMode {
    match env.value("FEISHU2ACP_PERMISSION_MODE"@) {
        Some(value) => match PermissionMode::named(value) {
            Some(mode) => mode,
            None => PermissionMode::ApproveReads,
        },
        None => PermissionMode::ApproveReads,
    }
}

/// The arguments that stand before all others when `acpx` is run.
pub open spec fn program_args(env: Environment) -> Result<Seq<Seq<char>>, BridgeErrorView> {
    match env.value("ACPX_PROGRAM_ARGS"@) {
        Some(value) => argument_list(value),
        None => Ok(seq![]),
    }
}

/// The bot, as the environment has it.
pub open spec fn feishu_config(env: Environment) -> Result<FeishuConfigView, BridgeErrorView> {
    match (
        required(env, "FEISHU_APP_ID"@),
        required(env, "FEISHU_APP_SECRET"@),
        number(
            env,
            "FEISHU2ACP_MAX_MARKDOWN_BYTES"@,
            " must be a positive integer: "@,
            usize::MAX as nat,
            1048576,
        ),
        enabled(env, "FEISHU2ACP_ENABLE_MARKDOWN_INPUT"@),
        enabled(env, "FEISHU2ACP_ENABLE_MARKDOWN_OUTPUT"@),
    ) {
        (Err(error), _, _, _, _) => Err(error),
        (_, Err(error), _, _, _) => Err(error),
        (_, _, Err(error), _, _) => Err(error),
        (_, _, _, Err(error), _) => Err(error),
        (_, _, _, _, Err(error)) => Err(error),
        (Ok(app_id), Ok(app_secret), Ok(max), Ok(input), Ok(output)) => Ok(
            FeishuConfigView {
                app_id,
                app_secret,
                nickname: None,
                typing_reaction_emoji: None,
                media_dir: env.path_value("FEISHU2ACP_MEDIA_DIR"@, "media"@),
                max_markdown_bytes: max,
                enable_markdown_input: input,
                enable_markdown_output: output,
            },
        ),
    }
}

/// The way to `acpx`, as the environment has it.
pub open spec fn acpx_config(env: Environment, args: Seq<Seq<char>>) -> Result<
    AcpxCliConfigView,
    BridgeErrorView,
> {
    let what = " must be a non-negative integer: "@;
    match (
        number(env, "ACPX_TIMEOUT_SECS"@, what, u64::MAX as nat, 1800),
        number(env, "ACPX_TTL_SECS"@, what, u64::MAX as nat, 300),
    ) {
        (Err(error), _) => Err(error),
        (_, Err(error)) => Err(error),
        (Ok(timeout), Ok(ttl)) => Ok(
            AcpxCliConfigView {
                program: text_or(env.value("ACPX_PROGRAM"@), "acpx"@),
                args,
                timeout_secs: timeout as u64,
                ttl_secs: ttl as u64,
            },
        ),
    }
}

/// The setup that an environment gives, or the first thing that is wrong with it.
pub open spec fn configured(env: Environment) -> Result<AppConfigView, BridgeErrorView> {
    let chunk = number(
        env,
        "FEISHU2ACP_REPLY_CHUNK_CHARS"@,
        " must be a positive integer: "@,
        usize::MAX as nat,
        3000,
    );
    match (env.current_dir, chunk, program_args(env)) {
        (Err(fault), _, _) => Err(
            BridgeErrorView::Config("cannot read current directory: "@ + fault@),
        ),
        (_, Err(error), _) => Err(error),
        (_, _, Err(error)) => Err(error),
        (Ok(cwd), Ok(reply_chunk_chars), Ok(args)) => match (
            feishu_config(env),
            acpx_config(env, args),
        ) {
            (Err(error), _) => Err(error),
            (_, Err(error)) => Err(error),
            (Ok(feishu), Ok(acpx)) => Ok(
                AppConfigView {
                    feishu,
                    acpx,
                    shell: ShellConfigView {
                        program: shell_program(env.system.family()),
                        args: shell_args(env.system.family()),
                        timeout_secs: 300,
                    },
                    command_prefix: "/"@,
                    default_workspace: cwd@,
                    default_agent: "codex"@,
                    default_permission_mode: permission_mode(env),
                    reply_chunk_chars,
                    conversation_store_path: env.path_value(
                        "FEISHU2ACP_STATE_PATH"@,
                        "conversations.json"@,
                    ),
                    log_path: joined_on(env.system.family(), env.data_dir(), "feishu2acp.log"@),
                    tracing_filter: text_or(env.value("RUST_LOG"@), "info,feishu2acp=debug"@),
                },
            ),
        },
    }
}

fn feishu_from_env(env: &Environment) -> (out: Result<FeishuConfig, BridgeError>)
    ensures
        match out {
            Ok(config) => feishu_config(*env) == Ok::<FeishuConfigView, BridgeErrorView>(config@),
            Err(error) => feishu_config(*env) == Err::<FeishuConfigView, BridgeErrorView>(error@),
        },
{
    let app_id = required_env(env, "FEISHU_APP_ID")?;
    let app_secret = required_env(env, "FEISHU_APP_SECRET")?;
    let max_markdown_bytes = parse_usize_env(env, "FEISHU2ACP_MAX_MARKDOWN_BYTES", 1048576)?;
    let enable_markdown_input = parse_bool_env(env, "FEISHU2ACP_ENABLE_MARKDOWN_INPUT")?;
    let enable_markdown_output = parse_bool_env(env, "FEISHU2ACP_ENABLE_MARKDOWN_OUTPUT")?;
    Ok(
        FeishuConfig {
            app_id,
            app_secret,
            nickname: None,
            typing_reaction_emoji: None,
            media_dir: env.path_var("FEISHU2ACP_MEDIA_DIR", "media"),
            max_markdown_bytes,
            enable_markdown_input,
            enable_markdown_output,
        },
    )
}

fn acpx_from_env(env: &Environment, args: Vec<String>) -> (out: Result<AcpxCliConfig, BridgeError>)
    ensures
        match out {
            Ok(config) => acpx_config(*env, texts(args@)) == Ok::<
                AcpxCliConfigView,
                BridgeErrorView,
            >(config@),
            Err(error) => acpx_config(*env, texts(args@)) == Err::<
                AcpxCliConfigView,
                BridgeErrorView,
            >(error@),
        },
{
    let timeout_secs = parse_u64_env(env, "ACPX_TIMEOUT_SECS", 1800)?;
    let ttl_secs = parse_u64_env(env, "ACPX_TTL_SECS", 300)?;
    Ok(
        AcpxCliConfig {
            program: env.var_or("ACPX_PROGRAM", "acpx"),
            args,
            timeout_secs,
            ttl_secs,
        },
    )
}

/// What may be done without asking, unless a variable says otherwise.
fn permission_mode_from_env(env: &Environment) -> (out: PermissionMode)
    ensures
        out == permission_mode(*env),
{
    match env.var("FEISHU2ACP_PERMISSION_MODE") {
        Some(value) => match PermissionMode::parse(value.as_str()) {
            Some(mode) => mode,
            None => PermissionMode::ApproveReads,
        },
        None => PermissionMode::ApproveReads,
    }
}

/// The view of a setup, or of what is wrong with it.
pub open spec fn config_outcome(result: Result<AppConfig, BridgeError>) -> Result<
    AppConfigView,
    BridgeErrorView,
> {
    match result {
        Ok(config) => Ok(config@),
        Err(error) => Err(error@),
    }
}

impl AppConfig {
    /// The setup that an environment gives, or the first thing that is wrong with
    /// it.
    pub fn from_env(env: &Environment) -> (out: Result<Self, BridgeError>)
        ensures
            config_outcome(out) == configured(*env),
    {
        let default_workspace = match &env.current_dir {
            Ok(dir) => dir.clone(),
            Err(fault) => {
                return Err(
                    BridgeError::Config(
                        join_two("cannot read current directory: ", fault.as_str()),
                    ),
                );
            },
        };
        let reply_chunk_chars = parse_usize_env(env, "FEISHU2ACP_REPLY_CHUNK_CHARS", 3000)?;
        let acpx_args = match env.var("ACPX_PROGRAM_ARGS") {
            Some(value) => parse_argument_list(value.as_str())?,
            None => {
                let none: Vec<String> = Vec::new();
                assert(texts(none@) =~= seq![]);
                none
            },
        };
        let feishu = feishu_from_env(env)?;
        let acpx = acpx_from_env(env, acpx_args)?;
        Ok(
            AppConfig {
                feishu,
                acpx,
                shell: ShellConfig {
                    program: shell_program_on(env.system.platform()).to_owned(),
                    args: shell_args_on(env.system.platform()),
                    timeout_secs: 300,
                },
                command_prefix: "/".to_owned(),
                default_workspace,
                default_agent: "codex".to_owned(),
                default_permission_mode: permission_mode_from_env(env),
                reply_chunk_chars,
                conversation_store_path: env.path_var(
                    "FEISHU2ACP_STATE_PATH",
                    "conversations.json",
                ),
                log_path: join_on(
                    env.system,
                    env.default_data_dir().as_str(),
                    "feishu2acp.log",
                ),
                tracing_filter: env.var_or("RUST_LOG", "info,feishu2acp=debug"),
            },
        )
    }
}

/// Whatever the environment, commands begin with a slash, the agent is `codex`,
/// and the directory is the one that the bridge is started in.
pub proof fn law_some_things_are_fixed(env: Environment)
    ensures
        configured(env) matches Ok(config) ==> {
            &&& config.command_prefix == "/"@
            &&& config.default_agent == "codex"@
            &&& env.current_dir matches Ok(dir) && config.default_workspace == dir@
        },
{
}

/// An environment that says no more than who the bot is gives the defaults.
pub proof fn law_defaults_need_only_the_bot(env: Environment)
    requires
        env.current_dir is Ok,
        env.value("FEISHU_APP_ID"@) is Some,
        env.value("FEISHU_APP_SECRET"@) is Some,
        env.value("FEISHU2ACP_PERMISSION_MODE"@) is None,
        env.value("FEISHU2ACP_REPLY_CHUNK_CHARS"@) is None,
        env.value("FEISHU2ACP_STATE_PATH"@) is None,
        env.value("FEISHU2ACP_MEDIA_DIR"@) is None,
        env.value("FEISHU2ACP_MAX_MARKDOWN_BYTES"@) is None,
        env.value("FEISHU2ACP_ENABLE_MARKDOWN_INPUT"@) is None,
        env.value("FEISHU2ACP_ENABLE_MARKDOWN_OUTPUT"@) is None,
        env.value("ACPX_PROGRAM"@) is None,
        env.value("ACPX_PROGRAM_ARGS"@) is None,
        env.value("ACPX_TIMEOUT_SECS"@) is None,
        env.value("ACPX_TTL_SECS"@) is None,
    ensures
        configured(env) is Ok,
        ({
            let config = configured(env)->Ok_0;
            &&& config.feishu.app_id == env.value("FEISHU_APP_ID"@)->Some_0
            &&& config.feishu.app_secret == env.value("FEISHU_APP_SECRET"@)->Some_0
            &&& config.default_permission_mode == PermissionMode::ApproveReads
            &&& config.feishu.max_markdown_bytes == 1048576
            &&& config.feishu.enable_markdown_input
            &&& config.feishu.enable_markdown_output
            &&& config.acpx.program == "acpx"@
            &&& config.acpx.args == Seq::<Seq<char>>::empty()
            &&& config.reply_chunk_chars == 3000
            &&& config.acpx.timeout_secs == 1800
            &&& config.acpx.ttl_secs == 300
        }),
{
}

/// A bot that is not named is no setup.
pub proof fn law_the_bot_has_to_be_named(env: Environment)
    requires
        env.value("FEISHU_APP_ID"@) is None || env.value("FEISHU_APP_SECRET"@) is None,
    ensures
        configured(env) is Err,
{
}

} // verus!
