//! What a user's text asks for: a prompt for the agent, or a command of the
//! bridge.
use vstd::prelude::*;
use vstd::slice::slice_subrange;

use crate::domain::{is_chars, PermissionMode};
use crate::error::{BridgeError, BridgeErrorView};
use crate::support::{normalize_session_name, session_name};
use crate::text::chars::{control, is_control, lower, opt_text, to_chars, to_lower_chars, to_text};
use crate::text::lines::{slice_word_len, word_len};
use crate::text::number::{parse_number, read_number};
use crate::text::search::{find, slice_find_char, slice_starts_with, starts_with};
use crate::text::trim::{trim, trim_slice, trim_slice_front, trim_start, Trimmed};

verus! {

#[derive(Clone, Debug, PartialEq, Eq)]
pub enum UserRequest {
    Prompt(String),
    Command(BotCommand),
}

#[derive(Clone, Debug, PartialEq, Eq)]
pub enum BotCommand {
    Help,
    Pwd,
    ChangeDirectory(String),
    Agent(String),
    Permissions(PermissionMode),
    Session(SessionCommand),
    Status,
    Mode(String),
    Model(String),
    Option { key: String, value: String },
    Prompt(String),
    Exec(String),
    Shell(String),
    Cancel,
}

#[derive(Clone, Debug, PartialEq, Eq)]
pub enum SessionCommand {
    New(Option<String>),
    Use(Option<String>),
    Show(Option<String>),
    Close(Option<String>),
    List,
    History(usize),
}

pub enum UserRequestView {
    Prompt(Seq<char>),
    Command(BotCommandView),
}

pub enum BotCommandView {
    Help,
    Pwd,
    ChangeDirectory(Seq<char>),
    Agent(Seq<char>),
    Permissions(PermissionMode),
    Session(SessionCommandView),
    Status,
    Mode(Seq<char>),
    Model(Seq<char>),
    Option { key: Seq<char>, value: Seq<char> },
    Prompt(Seq<char>),
    Exec(Seq<char>),
    Shell(Seq<char>),
    Cancel,
}

pub enum SessionCommandView {
    New(Option<Seq<char>>),
    Use(Option<Seq<char>>),
    Show(Option<Seq<char>>),
    Close(Option<Seq<char>>),
    List,
    History(nat),
}

impl View for UserRequest {
    type V = UserRequestView;

    open spec fn view(&self) -> UserRequestView {
        match self {
            UserRequest::Prompt(text) => UserRequestView::Prompt(text@),
            UserRequest::Command(command) => UserRequestView::Command(command@),
        }
    }
}

impl View for BotCommand {
    type V = BotCommandView;

    open spec fn view(&self) -> BotCommandView {
        match self {
            BotCommand::Help => BotCommandView::Help,
            BotCommand::Pwd => BotCommandView::Pwd,
            BotCommand::ChangeDirectory(path) => BotCommandView::ChangeDirectory(path@),
            BotCommand::Agent(agent) => BotCommandView::Agent(agent@),
            BotCommand::Permissions(mode) => BotCommandView::Permissions(*mode),
            BotCommand::Session(command) => BotCommandView::Session(command@),
            BotCommand::Status => BotCommandView::Status,
            BotCommand::Mode(mode) => BotCommandView::Mode(mode@),
            BotCommand::Model(model) => BotCommandView::Model(model@),
            BotCommand::Option { key, value } => BotCommandView::Option {
                key: key@,
                value: value@,
            },
            BotCommand::Prompt(text) => BotCommandView::Prompt(text@),
            BotCommand::Exec(text) => BotCommandView::Exec(text@),
            BotCommand::Shell(text) => BotCommandView::Shell(text@),
            BotCommand::Cancel => BotCommandView::Cancel,
        }
    }
}

impl View for SessionCommand {
    type V = SessionCommandView;

    open spec fn view(&self) -> SessionCommandView {
        match self {
            SessionCommand::New(name) => SessionCommandView::New(opt_text(*name)),
            SessionCommand::Use(name) => SessionCommandView::Use(opt_text(*name)),
            SessionCommand::Show(name) => SessionCommandView::Show(opt_text(*name)),
            SessionCommand::Close(name) => SessionCommandView::Close(opt_text(*name)),
            SessionCommand::List => SessionCommandView::List,
            SessionCommand::History(limit) => SessionCommandView::History(*limit as nat),
        }
    }
}

/// What a text asks for, or why it asks for nothing.
pub type Asked = Result<UserRequestView, BridgeErrorView>;

/// The control characters, and those that reorder the text around them. Line
/// feed, carriage return and tabulator are let through.
pub open spec fn disallowed(c: char) -> bool {
    let code = c as u32;
    &&& c != '\n' && c != '\r' && c != '\t'
    &&& control(c) || 0x202a <= code <= 0x202e || 0x2066 <= code <= 0x2069
}

/// The text holds no character that is disallowed.
pub open spec fn clean_input(text: Seq<char>) -> bool {
    forall|i: int| 0 <= i < text.len() ==> !disallowed(#[trigger] text[i])
}

pub open spec fn rejected_input() -> BridgeErrorView {
    BridgeErrorView::InputRejected("输入包含非法控制字符，请移除后重试。"@)
}

/// The first token of a text, and what stands behind it. A quote opens a token
/// that the same quote closes, or the end of the text; any other token ends
/// before white space.
pub open spec fn token(text: Seq<char>) -> Option<(Seq<char>, Seq<char>)> {
    let rest = trim_start(text);
    if rest.len() == 0 {
        None
    } else if rest.first() == '"' || rest.first() == '\'' {
        let quoted = rest.skip(1);
        match find(quoted, seq![rest.first()]) {
            Some(end) => Some((quoted.take(end), quoted.skip(end + 1))),
            None => Some((quoted, seq![])),
        }
    } else {
        Some((rest.take(word_len(rest) as int), rest.skip(word_len(rest) as int)))
    }
}

/// What is left of a text, if it is more than white space.
pub open spec fn remainder(text: Seq<char>) -> Option<Seq<char>> {
    if trim(text).len() == 0 {
        None
    } else {
        Some(trim(text))
    }
}

/// A text without the pair of quotes around it.
pub open spec fn unquoted(text: Seq<char>) -> Seq<char> {
    if text.len() >= 2 && text.first() == text.last() && (text.first() == '"' || text.first()
        == '\'') {
        text.subrange(1, text.len() - 1)
    } else {
        text
    }
}

pub open spec fn unparsed(message: Seq<char>) -> BridgeErrorView {
    BridgeErrorView::CommandParse(message)
}

/// The argument that is one token.
pub open spec fn token_argument(missing: Seq<char>, rest: Seq<char>) -> Result<
    Seq<char>,
    BridgeErrorView,
> {
    match token(rest) {
        Some((argument, _)) => Ok(argument),
        None => Err(unparsed(missing)),
    }
}

/// The argument that is all the rest.
pub open spec fn rest_argument(missing: Seq<char>, rest: Seq<char>) -> Result<
    Seq<char>,
    BridgeErrorView,
> {
    match remainder(rest) {
        Some(argument) => Ok(argument),
        None => Err(unparsed(missing)),
    }
}

pub open spec fn command(command: BotCommandView) -> Asked {
    Ok(UserRequestView::Command(command))
}

/// The directory that `cd` names.
pub open spec fn asked_directory(rest: Seq<char>) -> Asked {
    match rest_argument("cd 需要目录参数"@, rest) {
        Ok(path) => command(BotCommandView::ChangeDirectory(unquoted(path))),
        Err(error) => Err(error),
    }
}

/// The permission mode that `permissions` names.
pub open spec fn asked_permissions(rest: Seq<char>) -> Asked {
    match token_argument("permissions 需要权限模式"@, rest) {
        Ok(name) => match PermissionMode::named(name) {
            Some(mode) => command(BotCommandView::Permissions(mode)),
            None => Err(unparsed("权限模式必须是 approve-all / approve-reads / deny-all"@)),
        },
        Err(error) => Err(error),
    }
}

/// The option that `set` sets.
pub open spec fn asked_option(rest: Seq<char>) -> Asked {
    match token(rest) {
        Some((key, behind)) => match rest_argument("set 需要 value"@, behind) {
            Ok(value) => command(BotCommandView::Option { key, value }),
            Err(error) => Err(error),
        },
        None => Err(unparsed("set 需要 key"@)),
    }
}

/// How many entries `session history` asks for.
pub open spec fn asked_history(rest: Seq<char>) -> Result<nat, BridgeErrorView> {
    match remainder(rest) {
        Some(limit) => match read_number(limit, usize::MAX as nat) {
            Ok(limit) => Ok(limit),
            Err(_) => Err(unparsed("history limit 必须是正整数"@)),
        },
        None => Ok(10),
    }
}

/// What `session` is asked to do.
pub open spec fn asked_session(rest: Seq<char>) -> Asked {
    match token(rest) {
        None => Err(unparsed("session 需要子命令，例如 new/use/show/close/list/history"@)),
        Some((action, tail)) => {
            let name = session_name(remainder(tail));
            let action = lower(action);
            if action == "new"@ {
                command(BotCommandView::Session(SessionCommandView::New(name)))
            } else if action == "use"@ {
                command(BotCommandView::Session(SessionCommandView::Use(name)))
            } else if action == "show"@ {
                command(BotCommandView::Session(SessionCommandView::Show(name)))
            } else if action == "close"@ {
                command(BotCommandView::Session(SessionCommandView::Close(name)))
            } else if action == "list"@ {
                command(BotCommandView::Session(SessionCommandView::List))
            } else if action == "history"@ {
                match asked_history(tail) {
                    Ok(limit) => command(
                        BotCommandView::Session(SessionCommandView::History(limit)),
                    ),
                    Err(error) => Err(error),
                }
            } else {
                Err(unparsed("未知 session 子命令："@ + action))
            }
        },
    }
}

/// The command of one token.
pub open spec fn asked_token(
    missing: Seq<char>,
    rest: Seq<char>,
    make: spec_fn(Seq<char>) -> BotCommandView,
) -> Asked {
    match token_argument(missing, rest) {
        Ok(argument) => command(make(argument)),
        Err(error) => Err(error),
    }
}

/// The command of all the rest.
pub open spec fn asked_rest(
    missing: Seq<char>,
    rest: Seq<char>,
    make: spec_fn(Seq<char>) -> BotCommandView,
) -> Asked {
    match rest_argument(missing, rest) {
        Ok(argument) => command(make(argument)),
        Err(error) => Err(error),
    }
}

/// What a command is, by its name in small letters and what follows the name.
pub open spec fn asked_by_name(name: Seq<char>, rest: Seq<char>) -> Asked {
    if name == "help"@ {
        command(BotCommandView::Help)
    } else if name == "pwd"@ {
        command(BotCommandView::Pwd)
    } else if name == "status"@ {
        command(BotCommandView::Status)
    } else if name == "cancel"@ {
        command(BotCommandView::Cancel)
    } else if name == "cd"@ {
        asked_directory(rest)
    } else if name == "agent"@ {
        asked_token("agent 需要 agent 名称"@, rest, |a: Seq<char>| BotCommandView::Agent(a))
    } else if name == "permissions"@ {
        asked_permissions(rest)
    } else if name == "mode"@ {
        asked_token("mode 需要 mode 值"@, rest, |a: Seq<char>| BotCommandView::Mode(a))
    } else if name == "model"@ {
        asked_token("model 需要模型名"@, rest, |a: Seq<char>| BotCommandView::Model(a))
    } else if name == "set"@ || name == "option"@ {
        asked_option(rest)
    } else if name == "prompt"@ {
        asked_rest("prompt 需要文本"@, rest, |a: Seq<char>| BotCommandView::Prompt(a))
    } else if name == "exec"@ {
        asked_rest("exec 需要文本"@, rest, |a: Seq<char>| BotCommandView::Exec(a))
    } else if name == "shell"@ {
        asked_rest("shell 需要系统命令"@, rest, |a: Seq<char>| BotCommandView::Shell(a))
    } else if name == "session"@ {
        asked_session(rest)
    } else {
        Err(unparsed("未知命令："@ + name + "，请使用 /help"@))
    }
}

/// What a command says, without the prefix before it.
pub open spec fn asked_command(text: Seq<char>) -> Asked {
    match token(text) {
        Some((head, rest)) => asked_by_name(lower(head), rest),
        None => Err(unparsed("空命令，请使用 /command help 查看可用指令"@)),
    }
}

/// What a user's text asks for.
pub open spec fn asked(prefix: Seq<char>, raw: Seq<char>) -> Asked {
    let text = trim(raw);
    if !clean_input(raw) {
        Err(rejected_input())
    } else if !starts_with(text, prefix) {
        Ok(UserRequestView::Prompt(text))
    } else {
        match remainder(text.skip(prefix.len() as int)) {
            None => command(BotCommandView::Help),
            Some(body) => asked_command(body),
        }
    }
}

/// The view of what was asked.
pub open spec fn asked_view(result: Result<UserRequest, BridgeError>) -> Asked {
    match result {
        Ok(request) => Ok(request@),
        Err(error) => Err(error@),
    }
}

/// The view of an argument.
pub open spec fn argument_view(result: Result<String, BridgeError>) -> Result<
    Seq<char>,
    BridgeErrorView,
> {
    match result {
        Ok(argument) => Ok(argument@),
        Err(error) => Err(error@),
    }
}

/// What a user's text asks for. The prefix marks a command; every other text
/// is a prompt.
pub fn parse_user_request(prefix: &str, raw: &str) -> (out: Result<UserRequest, BridgeError>)
    ensures
        asked_view(out) == asked(prefix@, raw@),
{
    let raw_chars = to_chars(raw);
    validate_user_input(raw_chars.as_slice())?;
    let trimmed = trim_slice(raw_chars.as_slice());
    let prefix_chars = to_chars(prefix);
    if !slice_starts_with(trimmed, prefix_chars.as_slice()) {
        return Ok(UserRequest::Prompt(to_text(trimmed)));
    }
    let behind = slice_subrange(trimmed, prefix_chars.len(), trimmed.len());
    assert(behind@ =~= trimmed@.skip(prefix@.len() as int));
    let body = trim_slice(behind);
    if body.len() == 0 {
        return Ok(UserRequest::Command(BotCommand::Help));
    }
    parse_command(body)
}

/// Refuses characters that would hide or reorder what a command says.
fn validate_user_input(raw: &[char]) -> (out: Result<(), BridgeError>)
    ensures
        match out {
            Ok(_) => clean_input(raw@),
            Err(error) => !clean_input(raw@) && error@ == rejected_input(),
        },
{
    let mut i: usize = 0;
    while i < raw.len()
        invariant
            i <= raw@.len(),
            forall|j: int| 0 <= j < i ==> !disallowed(#[trigger] raw@[j]),
        decreases raw@.len() - i,
    {
        if is_disallowed_input_char(raw[i]) {
            assert(disallowed(raw@[i as int]));
            return Err(
                BridgeError::InputRejected(
                    "输入包含非法控制字符，请移除后重试。".to_owned(),
                ),
            );
        }
        i += 1;
    }
    Ok(())
}

fn is_disallowed_input_char(ch: char) -> (out: bool)
    ensures
        out == disallowed(ch),
{
    if ch == '\n' || ch == '\r' || ch == '\t' {
        return false;
    }
    let code: u32 = ch as u32;
    is_control(ch) || (0x202a <= code && code <= 0x202e) || (0x2066 <= code && code <= 0x2069)
}

fn parse_command(raw: &[char]) -> (out: Result<UserRequest, BridgeError>)
    ensures
        asked_view(out) == asked_command(raw@),
{
    let (head, rest) = match take_token(raw) {
        Some(found) => found,
        None => {
            return Err(parse_failure("空命令，请使用 /command help 查看可用指令"));
        },
    };
    let name = to_lower_chars(head);
    if is_chars(&name, "help") {
        Ok(UserRequest::Command(BotCommand::Help))
    } else if is_chars(&name, "pwd") {
        Ok(UserRequest::Command(BotCommand::Pwd))
    } else if is_chars(&name, "status") {
        Ok(UserRequest::Command(BotCommand::Status))
    } else if is_chars(&name, "cancel") {
        Ok(UserRequest::Command(BotCommand::Cancel))
    } else if is_chars(&name, "cd") {
        let path = require_unwrapped_rest("cd 需要目录参数", rest)?;
        Ok(UserRequest::Command(BotCommand::ChangeDirectory(path)))
    } else if is_chars(&name, "agent") {
        let agent = require_token("agent 需要 agent 名称", rest)?;
        Ok(UserRequest::Command(BotCommand::Agent(agent)))
    } else if is_chars(&name, "permissions") {
        let value = require_token("permissions 需要权限模式", rest)?;
        match PermissionMode::parse(value.as_str()) {
            Some(mode) => Ok(UserRequest::Command(BotCommand::Permissions(mode))),
            None => Err(
                parse_failure("权限模式必须是 approve-all / approve-reads / deny-all"),
            ),
        }
    } else if is_chars(&name, "mode") {
        let mode = require_token("mode 需要 mode 值", rest)?;
        Ok(UserRequest::Command(BotCommand::Mode(mode)))
    } else if is_chars(&name, "model") {
        let model = require_token("model 需要模型名", rest)?;
        Ok(UserRequest::Command(BotCommand::Model(model)))
    } else if is_chars(&name, "set") || is_chars(&name, "option") {
        let (key, behind) = take_token_required("set 需要 key", rest)?;
        let value = require_rest("set 需要 value", behind)?;
        Ok(UserRequest::Command(BotCommand::Option { key, value }))
    } else if is_chars(&name, "prompt") {
        let text = require_rest("prompt 需要文本", rest)?;
        Ok(UserRequest::Command(BotCommand::Prompt(text)))
    } else if is_chars(&name, "exec") {
        let text = require_rest("exec 需要文本", rest)?;
        Ok(UserRequest::Command(BotCommand::Exec(text)))
    } else if is_chars(&name, "shell") {
        let text = require_rest("shell 需要系统命令", rest)?;
        Ok(UserRequest::Command(BotCommand::Shell(text)))
    } else if is_chars(&name, "session") {
        parse_session_command(rest)
    } else {
        let mut message = "未知命令：".to_owned();
        let other = to_text(name.as_slice());
        message.append(other.as_str());
        message.append("，请使用 /help");
        Err(BridgeError::CommandParse(message))
    }
}

fn parse_session_command(rest: &[char]) -> (out: Result<UserRequest, BridgeError>)
    ensures
        asked_view(out) == asked_session(rest@),
{
    let (action, tail) = match take_token(rest) {
        Some(found) => found,
        None => {
            return Err(
                parse_failure("session 需要子命令，例如 new/use/show/close/list/history"),
            );
        },
    };
    let action = to_lower_chars(action);
    let command = if is_chars(&action, "new") {
        SessionCommand::New(normalize_session_name(optional_rest(tail)))
    } else if is_chars(&action, "use") {
        SessionCommand::Use(normalize_session_name(optional_rest(tail)))
    } else if is_chars(&action, "show") {
        SessionCommand::Show(normalize_session_name(optional_rest(tail)))
    } else if is_chars(&action, "close") {
        SessionCommand::Close(normalize_session_name(optional_rest(tail)))
    } else if is_chars(&action, "list") {
        SessionCommand::List
    } else if is_chars(&action, "history") {
        let limit: usize = match optional_rest(tail) {
            Some(raw) => match parse_number(raw.as_str(), usize::MAX as u64) {
                Ok(limit) => limit as usize,
                Err(_) => {
                    return Err(parse_failure("history limit 必须是正整数"));
                },
            },
            None => 10,
        };
        SessionCommand::History(limit)
    } else {
        let mut message = "未知 session 子命令：".to_owned();
        let other = to_text(action.as_slice());
        message.append(other.as_str());
        return Err(BridgeError::CommandParse(message));
    };
    Ok(UserRequest::Command(BotCommand::Session(command)))
}

fn parse_failure(message: &str) -> (out: BridgeError)
    ensures
        out@ == unparsed(message@),
{
    BridgeError::CommandParse(message.to_owned())
}

fn take_token_required<'a>(message: &str, rest: &'a [char]) -> (out: Result<
    (String, &'a [char]),
    BridgeError,
>)
    ensures
        match out {
            Ok((key, behind)) => token(rest@) == Some((key@, behind@)),
            Err(error) => token(rest@) is None && error@ == unparsed(message@),
        },
{
    match take_token(rest) {
        Some((head, behind)) => Ok((to_text(head), behind)),
        None => Err(parse_failure(message)),
    }
}

fn require_token(message: &str, rest: &[char]) -> (out: Result<String, BridgeError>)
    ensures
        argument_view(out) == token_argument(message@, rest@),
{
    match take_token(rest) {
        Some((head, _)) => Ok(to_text(head)),
        None => Err(parse_failure(message)),
    }
}

fn require_rest(message: &str, rest: &[char]) -> (out: Result<String, BridgeError>)
    ensures
        argument_view(out) == rest_argument(message@, rest@),
{
    match optional_rest(rest) {
        Some(argument) => Ok(argument),
        None => Err(parse_failure(message)),
    }
}

fn require_unwrapped_rest(message: &str, rest: &[char]) -> (out: Result<String, BridgeError>)
    ensures
        match rest_argument(message@, rest@) {
            Ok(argument) => argument_view(out) == Ok::<Seq<char>, BridgeErrorView>(
                unquoted(argument),
            ),
            Err(error) => argument_view(out) == Err::<Seq<char>, BridgeErrorView>(error),
        },
{
    let value = require_rest(message, rest)?;
    Ok(strip_matching_quotes(value.as_str()))
}

fn optional_rest(rest: &[char]) -> (out: Option<String>)
    ensures
        opt_text(out) == remainder(rest@),
{
    let trimmed = trim_slice(rest);
    if trimmed.len() == 0 {
        None
    } else {
        Some(to_text(trimmed))
    }
}

fn strip_matching_quotes(value: &str) -> (out: String)
    ensures
        out@ == unquoted(value@),
{
    let chars = to_chars(value);
    let n = chars.len();
    if n >= 2 && chars[0] == chars[n - 1] && (chars[0] == '"' || chars[0] == '\'') {
        return to_text(slice_subrange(chars.as_slice(), 1, n - 1));
    }
    to_text(chars.as_slice())
}

/// The first token of the input, and what stands behind it.
fn take_token(input: &[char]) -> (out: Option<(&[char], &[char])>)
    ensures
        match out {
            Some((head, behind)) => token(input@) == Some((head@, behind@)),
            None => token(input@) is None,
        },
{
    let rest = trim_slice_front(input, Trimmed::WhiteSpace);
    if rest.len() == 0 {
        return None;
    }
    let first = rest[0];
    if first == '"' || first == '\'' {
        let quoted = slice_subrange(rest, 1, rest.len());
        assert(quoted@ =~= rest@.skip(1));
        return match slice_find_char(quoted, first) {
            Some(end) => {
                let head = slice_subrange(quoted, 0, end);
                let behind = slice_subrange(quoted, end + 1, quoted.len());
                assert(head@ =~= quoted@.take(end as int));
                assert(behind@ =~= quoted@.skip(end + 1));
                Some((head, behind))
            },
            None => {
                let behind = slice_subrange(quoted, quoted.len(), quoted.len());
                assert(behind@ =~= seq![]);
                Some((quoted, behind))
            },
        };
    }
    let end = slice_word_len(rest);
    proof {
        crate::text::lines::lemma_word_len(rest@);
    }
    let head = slice_subrange(rest, 0, end);
    let behind = slice_subrange(rest, end, rest.len());
    assert(head@ =~= rest@.take(end as int));
    assert(behind@ =~= rest@.skip(end as int));
    Some((head, behind))
}

} // verus!
