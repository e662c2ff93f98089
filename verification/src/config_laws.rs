//! What every environment makes of the setup.
use vstd::prelude::*;

use crate::config::{is_same_variable, var_from, AppConfig, Environment};
use crate::domain::{law_permission_mode_is_named_by_its_name, PermissionMode};
use crate::error::{BridgeError, BridgeErrorView};
use crate::paths::{
    cleaned_on_windows, cleaned_path, joined, joined_by_windows, joined_on, last_name_on,
};
use crate::platform::{default_data_dir, Platform, System};
use crate::send_markdown::{args_from, asked, build_payload, ArgsView, AskedView, MarkdownPayload};
use crate::support::{
    argument_list, json_arguments, json_string_list, resolve_workspace_on, shell_words,
    word_arguments,
};
use crate::text::chars::{lower, opt_text, text_or, texts};
use crate::text::lines::join;
use crate::text::number::{decimal, read_number};
use crate::text::trim::trim;
use crate::text_laws::{is_word, law_numbers_are_read_back, law_words_are_found_again};

verus! {

/// The value of a variable is that of the first one with its name, whole, wherever it stands
/// among the others, and there is none if no variable has the name. On Unix the name has to
/// be the same letter for letter.
pub proof fn law_variables_are_found_by_their_names(
    env: Environment,
    name: &str,
    at: int,
    out: Option<String>,
)
    requires
        env.system.family() is Unix,
        call_ensures(Environment::var, (&env, name), out),
        0 <= at <= env.vars@.len(),
        forall|i: int| 0 <= i < at ==> (#[trigger] env.vars@[i]).0@ != name@,
        at < env.vars@.len() ==> env.vars@[at].0@ == name@,
    ensures
        at < env.vars@.len() ==> opt_text(out) == Some(env.vars@[at].1@),
        at == env.vars@.len() ==> out is None,
{
    lemma_var(env.vars@, name@, 0, at);
}

proof fn lemma_var(vars: Seq<(String, String)>, name: Seq<char>, from: int, at: int)
    requires
        0 <= from <= at <= vars.len(),
        forall|i: int| 0 <= i < at ==> (#[trigger] vars[i]).0@ != name,
        at < vars.len() ==> vars[at].0@ == name,
    ensures
        var_from(Platform::Unix, vars, name, from) == (if at < vars.len() {
            Some(vars[at].1@)
        } else {
            None
        }),
    decreases at - from,
{
    if from < at {
        assert(vars[from].0@ != name);
        lemma_var(vars, name, from + 1, at);
    }
}

/// What is set in the environment is what the setup holds, unchanged; what is not set has
/// its default.
pub proof fn law_the_setup_is_what_the_environment_says(env: Environment, config: AppConfig)
    requires
        call_ensures(AppConfig::from_env, (&env,), Ok::<AppConfig, BridgeError>(config)),
    ensures
        env.value("FEISHU_APP_ID"@) == Some(config.feishu.app_id@),
        env.value("FEISHU_APP_SECRET"@) == Some(config.feishu.app_secret@),
        env.current_dir matches Ok(dir) && config.default_workspace@ == dir@,
        config.command_prefix@ == "/"@,
        config.default_agent@ == "codex"@,
        config.acpx.program@ == (match env.value("ACPX_PROGRAM"@) {
            Some(program) => program,
            None => "acpx"@,
        }),
        config.tracing_filter@ == (match env.value("RUST_LOG"@) {
            Some(filter) => filter,
            None => "info,feishu2acp=debug"@,
        }),
        env.value("FEISHU2ACP_STATE_PATH"@) matches Some(path) ==> config.conversation_store_path@
            == path,
        env.value("FEISHU2ACP_STATE_PATH"@) is None ==> config.conversation_store_path@
            == joined_on(env.system.family(), env.data_dir(), "conversations.json"@),
        env.value("FEISHU2ACP_MEDIA_DIR"@) matches Some(path) ==> config.feishu.media_dir@ == path,
        env.value("FEISHU2ACP_MEDIA_DIR"@) is None ==> config.feishu.media_dir@ == joined_on(
            env.system.family(),
            env.data_dir(),
            "media"@,
        ),
        config.log_path@ == joined_on(env.system.family(), env.data_dir(), "feishu2acp.log"@),
        env.value("ACPX_PROGRAM_ARGS"@) is None ==> config.acpx.args@.len() == 0,
        env.value("ACPX_PROGRAM_ARGS"@) matches Some(list) ==> argument_list(list) == Ok::<
            Seq<Seq<char>>,
            BridgeErrorView,
        >(texts(config.acpx.args@)),
        config.shell.timeout_secs == 300,
        config.shell.program@ == (match env.system.family() {
            Platform::Unix => "sh"@,
            Platform::Windows => "powershell"@,
        }),
        texts(config.shell.args@) == (match env.system.family() {
            Platform::Unix => seq!["-lc"@],
            Platform::Windows => seq!["-NoProfile"@, "-Command"@],
        }),
{
    if env.value("ACPX_PROGRAM_ARGS"@) is None {
        assert(texts(config.acpx.args@).len() == 0);
    }
}

/// A variable that is to be a number and is set to the decimal text of one makes it that
/// number; one that is not set makes it its default.
pub proof fn law_numbers_are_set_as_they_are_written(env: Environment, config: AppConfig, n: nat)
    requires
        call_ensures(AppConfig::from_env, (&env,), Ok::<AppConfig, BridgeError>(config)),
    ensures
        n <= usize::MAX && env.value("FEISHU2ACP_REPLY_CHUNK_CHARS"@) == Some(decimal(n))
            ==> config.reply_chunk_chars == n,
        env.value("FEISHU2ACP_REPLY_CHUNK_CHARS"@) is None ==> config.reply_chunk_chars == 3000,
        n <= usize::MAX && env.value("FEISHU2ACP_MAX_MARKDOWN_BYTES"@) == Some(decimal(n))
            ==> config.feishu.max_markdown_bytes == n,
        env.value("FEISHU2ACP_MAX_MARKDOWN_BYTES"@) is None ==> config.feishu.max_markdown_bytes
            == 1048576,
        n <= u64::MAX && env.value("ACPX_TIMEOUT_SECS"@) == Some(decimal(n))
            ==> config.acpx.timeout_secs == n,
        env.value("ACPX_TIMEOUT_SECS"@) is None ==> config.acpx.timeout_secs == 1800,
        n <= u64::MAX && env.value("ACPX_TTL_SECS"@) == Some(decimal(n)) ==> config.acpx.ttl_secs
            == n,
        env.value("ACPX_TTL_SECS"@) is None ==> config.acpx.ttl_secs == 300,
{
    law_numbers_are_read_back(n, usize::MAX as nat);
    law_numbers_are_read_back(n, u64::MAX as nat);
}

/// A switch is on if its variable is set to `true` or not set, and off if it is set to
/// `false`. What may be done without asking is what the variable names, and to approve
/// reads if it names nothing or is not set.
pub proof fn law_switches_are_set_as_they_are_written(
    env: Environment,
    config: AppConfig,
    mode: PermissionMode,
)
    requires
        call_ensures(AppConfig::from_env, (&env,), Ok::<AppConfig, BridgeError>(config)),
    ensures
        config.feishu.enable_markdown_input == (env.value("FEISHU2ACP_ENABLE_MARKDOWN_INPUT"@)
            is None || env.value("FEISHU2ACP_ENABLE_MARKDOWN_INPUT"@) == Some("true"@)),
        config.feishu.enable_markdown_output == (env.value("FEISHU2ACP_ENABLE_MARKDOWN_OUTPUT"@)
            is None || env.value("FEISHU2ACP_ENABLE_MARKDOWN_OUTPUT"@) == Some("true"@)),
        env.value("FEISHU2ACP_PERMISSION_MODE"@) == Some("approve-all"@)
            ==> config.default_permission_mode == PermissionMode::ApproveAll,
        env.value("FEISHU2ACP_PERMISSION_MODE"@) == Some("approve-reads"@)
            ==> config.default_permission_mode == PermissionMode::ApproveReads,
        env.value("FEISHU2ACP_PERMISSION_MODE"@) == Some("deny-all"@)
            ==> config.default_permission_mode == PermissionMode::DenyAll,
        env.value("FEISHU2ACP_PERMISSION_MODE"@) is None ==> config.default_permission_mode
            == PermissionMode::ApproveReads,
{
    law_permission_mode_is_named_by_its_name(PermissionMode::ApproveAll);
    law_permission_mode_is_named_by_its_name(PermissionMode::ApproveReads);
    law_permission_mode_is_named_by_its_name(PermissionMode::DenyAll);
    reveal_strlit("true");
    reveal_strlit("false");
}

/// A setup without the identity of the bot or its secret is refused, and names the variable
/// that is missing; so is one whose directory is not known, with the reason.
pub proof fn law_what_has_to_be_set_is_asked_for(
    env: Environment,
    out: Result<AppConfig, BridgeError>,
)
    requires
        call_ensures(AppConfig::from_env, (&env,), out),
    ensures
        env.current_dir matches Err(fault) ==> out matches Err(error) && error@
            == BridgeErrorView::Config("cannot read current directory: "@ + fault@),
        env.value("FEISHU_APP_ID"@) is None || env.value("FEISHU_APP_SECRET"@) is None ==> out
            is Err,
        env.current_dir is Ok && env.value("FEISHU2ACP_REPLY_CHUNK_CHARS"@) is None && env.value(
            "ACPX_PROGRAM_ARGS"@,
        ) is None && env.value("FEISHU_APP_ID"@) is None ==> (out matches Err(error) && error@
            == BridgeErrorView::Config("missing required environment variable FEISHU_APP_ID"@)),
        env.current_dir is Ok && env.value("FEISHU2ACP_REPLY_CHUNK_CHARS"@) is None && env.value(
            "ACPX_PROGRAM_ARGS"@,
        ) is None && env.value("FEISHU_APP_ID"@) is Some && env.value("FEISHU_APP_SECRET"@) is None
            ==> (out matches Err(error) && error@ == BridgeErrorView::Config(
            "missing required environment variable FEISHU_APP_SECRET"@,
        )),
{
    reveal_strlit("missing required environment variable ");
    reveal_strlit("FEISHU_APP_ID");
    reveal_strlit("FEISHU_APP_SECRET");
    reveal_strlit("missing required environment variable FEISHU_APP_ID");
    reveal_strlit("missing required environment variable FEISHU_APP_SECRET");
    assert("missing required environment variable "@ + "FEISHU_APP_ID"@
        =~= "missing required environment variable FEISHU_APP_ID"@);
    assert("missing required environment variable "@ + "FEISHU_APP_SECRET"@
        =~= "missing required environment variable FEISHU_APP_SECRET"@);
}

/// With the identity of the bot and its secret, a known directory and nothing else set, the
/// setup is complete.
pub proof fn law_two_variables_are_enough(env: Environment, out: Result<AppConfig, BridgeError>)
    requires
        call_ensures(AppConfig::from_env, (&env,), out),
        env.current_dir is Ok,
        env.value("FEISHU_APP_ID"@) is Some,
        env.value("FEISHU_APP_SECRET"@) is Some,
        env.value("FEISHU2ACP_REPLY_CHUNK_CHARS"@) is None,
        env.value("ACPX_PROGRAM_ARGS"@) is None,
        env.value("FEISHU2ACP_MAX_MARKDOWN_BYTES"@) is None,
        env.value("FEISHU2ACP_ENABLE_MARKDOWN_INPUT"@) is None,
        env.value("FEISHU2ACP_ENABLE_MARKDOWN_OUTPUT"@) is None,
        env.value("ACPX_TIMEOUT_SECS"@) is None,
        env.value("ACPX_TTL_SECS"@) is None,
    ensures
        out is Ok,
{
}

/// A list of arguments is taken as it was read: a JSON list has all its strings in their
/// order, and so have the words of a shell; where those cannot be told, all words between
/// white space are taken.
pub proof fn law_arguments_are_taken_as_they_were_read(
    parsed: Result<Vec<String>, String>,
    read: Result<Vec<String>, BridgeError>,
    text: &str,
    split: Option<Vec<String>>,
    out: Vec<String>,
    list: Seq<Seq<char>>,
)
    requires
        call_ensures(json_arguments, (parsed,), read),
        call_ensures(word_arguments, (text, split), out),
        forall|i: int| 0 <= i < list.len() ==> is_word(#[trigger] list[i]),
    ensures
        parsed matches Ok(strings) ==> read matches Ok(given) && texts(given@) == texts(strings@),
        parsed matches Err(fault) ==> read matches Err(error) && error@ == BridgeErrorView::Config(
            "invalid JSON argument list: "@ + fault@,
        ),
        split matches Some(strings) ==> texts(out@) == texts(strings@),
        split is None && text@ == join(list, " "@) ==> texts(out@) == list,
{
    law_words_are_found_again(list);
}

/// A text of arguments is read without the white space at its ends: as a JSON list if it
/// begins with a bracket, else as a shell does. A blank one lists nothing.
pub proof fn law_a_bracket_tells_a_list(value: Seq<char>)
    ensures
        trim(value).len() == 0 ==> argument_list(value) == Ok::<Seq<Seq<char>>, BridgeErrorView>(
            seq![],
        ),
        trim(value).len() > 0 && trim(value).first() == '[' ==> (json_string_list(
            trim(value),
        ) matches Ok(list) ==> argument_list(value) == Ok::<Seq<Seq<char>>, BridgeErrorView>(list)),
        trim(value).len() > 0 && trim(value).first() == '[' ==> (json_string_list(
            trim(value),
        ) is Err ==> argument_list(value) is Err),
        trim(value).len() > 0 && trim(value).first() != '[' ==> (shell_words(
            trim(value),
        ) matches Some(list) ==> argument_list(value) == Ok::<Seq<Seq<char>>, BridgeErrorView>(
            list,
        )),
{
}

proof fn lemma_args_concat(
    front: Seq<Seq<char>>,
    back: Seq<Seq<char>>,
    at: int,
    given: ArgsView,
)
    requires
        0 <= at <= front.len(),
        args_from(front, at, given) is Ok,
        args_from(front, at, given)->Ok_0 is Send,
    ensures
        args_from(front + back, at, given) == args_from(
            front + back,
            front.len() as int,
            args_from(front, at, given)->Ok_0->Send_0,
        ),
    decreases front.len() - at,
{
    if at < front.len() {
        assert((front + back)[at] == front[at]);
        assert(at + 1 < front.len());
        assert((front + back)[at + 1] == front[at + 1]);
        let value = front[at + 1];
        let then = if front[at] == "--chat"@ {
            ArgsView { chat_id: value, ..given }
        } else if front[at] == "--file"@ {
            ArgsView { file: Some(value), ..given }
        } else {
            ArgsView { note: Some(value), ..given }
        };
        lemma_args_concat(front, back, at + 2, then);
    }
}

/// Each option of the tool sets what it names to the value behind it, unchanged, and leaves
/// the rest as the arguments before it have it; so the last one counts. Without arguments
/// the chat is the default one, and neither file nor note is given.
pub proof fn law_each_option_sets_what_it_names(
    front: Seq<Seq<char>>,
    before: ArgsView,
    value: Seq<char>,
)
    requires
        asked(front) == Ok::<AskedView, Seq<char>>(AskedView::Send(before)),
    ensures
        asked(front + seq!["--chat"@, value]) == Ok::<AskedView, Seq<char>>(
            AskedView::Send(
                ArgsView { chat_id: value, file: before.file, note: before.note },
            ),
        ),
        asked(front + seq!["--file"@, value]) == Ok::<AskedView, Seq<char>>(
            AskedView::Send(
                ArgsView { chat_id: before.chat_id, file: Some(value), note: before.note },
            ),
        ),
        asked(front + seq!["--note"@, value]) == Ok::<AskedView, Seq<char>>(
            AskedView::Send(
                ArgsView { chat_id: before.chat_id, file: before.file, note: Some(value) },
            ),
        ),
        asked(front + seq!["--help"@]) == Ok::<AskedView, Seq<char>>(AskedView::Help),
        asked(Seq::<Seq<char>>::empty()) == Ok::<AskedView, Seq<char>>(
            AskedView::Send(
                ArgsView {
                    chat_id: "oc_f5f9c8e4001155b3d3fd395426388ce4"@,
                    file: None,
                    note: None,
                },
            ),
        ),
        asked(front + seq!["--chat"@]) == Err::<AskedView, Seq<char>>("--chat requires a value"@),
{
    reveal_strlit("--chat");
    reveal_strlit("--file");
    reveal_strlit("--note");
    reveal_strlit("--help");
    reveal_strlit("-h");
    reveal_strlit(" requires a value");
    reveal_strlit("--chat requires a value");
    assert("--chat"@ + " requires a value"@ =~= "--chat requires a value"@);
    assert("--chat"@[2] == 'c');
    assert("--file"@[2] == 'f');
    assert("--note"@[2] == 'n');
    assert("--help"@[2] == 'h');
    let start = ArgsView {
        chat_id: "oc_f5f9c8e4001155b3d3fd395426388ce4"@,
        file: None,
        note: None,
    };
    let n = front.len() as int;
    let chat = seq!["--chat"@, value];
    let file = seq!["--file"@, value];
    let note = seq!["--note"@, value];
    let help = seq!["--help"@];
    let short = seq!["--chat"@];
    lemma_args_concat(front, chat, 0, start);
    lemma_args_concat(front, file, 0, start);
    lemma_args_concat(front, note, 0, start);
    lemma_args_concat(front, help, 0, start);
    lemma_args_concat(front, short, 0, start);
    assert((front + chat)[n] == "--chat"@ && (front + chat)[n + 1] == value);
    assert((front + file)[n] == "--file"@ && (front + file)[n + 1] == value);
    assert((front + note)[n] == "--note"@ && (front + note)[n + 1] == value);
    assert((front + help)[n] == "--help"@);
    assert((front + short)[n] == "--chat"@);
    reveal_with_fuel(args_from, 2);
}

/// The file that is named is sent with all its bytes, under the last name of its path. One
/// that cannot be read is told of by its path.
pub proof fn law_the_named_file_is_sent_whole(
    system: System,
    path: String,
    read: Result<Vec<u8>, String>,
    out: Result<MarkdownPayload, String>,
)
    requires
        call_ensures(build_payload, (system, Some((path, read))), out),
    ensures
        read is Err ==> (out matches Err(fault) && fault@ == "failed to read "@ + path@),
        read matches Ok(bytes) ==> (last_name_on(system.family(), path@) matches Some(
            name,
        ) ==> (out matches Ok(sent) && sent.bytes@ == bytes@ && sent.file_name@ == name)),
{
}

/// On Windows a variable is found by its name whatever the case of its letters.
pub proof fn law_variables_have_no_case_on_windows(left: &str, right: &str, unix: bool, windows: bool)
    requires
        call_ensures(is_same_variable, (Platform::Unix, left, right), unix),
        call_ensures(is_same_variable, (Platform::Windows, left, right), windows),
    ensures
        unix <==> left@ == right@,
        windows <==> lower(left@) == lower(right@),
{
}

/// The bridge keeps its files in a hidden directory of the user's home, or of the current
/// directory if that is not known; on Windows among the application data, if they are known.
pub proof fn law_files_are_kept_with_the_user(
    system: System,
    home: Option<String>,
    appdata: Option<String>,
    profile: Option<String>,
    out: String,
)
    requires
        call_ensures(default_data_dir, (system, &home, &appdata, &profile), out),
    ensures
        system.family() is Unix ==> out@ == joined_on(
            Platform::Unix,
            text_or(opt_text(home), "."@),
            ".feishu2acp"@,
        ),
        system.family() is Windows ==> (appdata matches Some(dir) ==> out@ == joined_on(
            Platform::Windows,
            dir@,
            "feishu2acp"@,
        )),
        system.family() is Windows && appdata is None ==> (profile matches Some(dir) ==> out@
            == joined_on(
            Platform::Windows,
            joined_on(
                Platform::Windows,
                joined_on(Platform::Windows, dir@, "AppData"@),
                "Roaming"@,
            ),
            "feishu2acp"@,
        )),
        system.family() is Windows && appdata is None && profile is None ==> out@ == joined_on(
            Platform::Windows,
            text_or(opt_text(home), "."@),
            ".feishu2acp"@,
        ),
{
}

/// A directory is resolved from the base that it is seen from, by the rules of the system.
pub proof fn law_directories_are_resolved_from_their_base(
    system: System,
    base: &str,
    raw: &str,
    out: String,
)
    requires
        call_ensures(resolve_workspace_on, (system, base, raw), out),
    ensures
        system.family() is Unix ==> out@ == cleaned_path(joined(base@, raw@)),
        system.family() is Windows ==> out@ == cleaned_on_windows(joined_by_windows(base@, raw@)),
{
}

/// Permissions are known by their names in any case and with white space around them or
/// without, and by nothing else.
pub proof fn law_permissions_are_known_by_their_names(text: &str, out: Option<PermissionMode>)
    requires
        call_ensures(PermissionMode::parse, (text,), out),
    ensures
        out == Some(PermissionMode::ApproveAll) <==> lower(trim(text@)) == "approve-all"@,
        out == Some(PermissionMode::ApproveReads) <==> lower(trim(text@)) == "approve-reads"@,
        out == Some(PermissionMode::DenyAll) <==> lower(trim(text@)) == "deny-all"@,
{
    reveal_strlit("approve-all");
    reveal_strlit("approve-reads");
    reveal_strlit("deny-all");
    assert("approve-all"@.len() == 11);
    assert("approve-reads"@.len() == 13);
    assert("deny-all"@.len() == 8);
}

/// What is set to something that it cannot be is refused: a number that is none or too large,
/// and a switch that is neither `true` nor `false`. Permissions that have no such name are
/// those to approve reads.
pub proof fn law_what_cannot_be_set_is_refused(
    env: Environment,
    out: Result<AppConfig, BridgeError>,
    value: Seq<char>,
)
    requires
        call_ensures(AppConfig::from_env, (&env,), out),
    ensures
        read_number(value, usize::MAX as nat) is Err && (env.value(
            "FEISHU2ACP_REPLY_CHUNK_CHARS"@,
        ) == Some(value) || env.value("FEISHU2ACP_MAX_MARKDOWN_BYTES"@) == Some(value)) ==> out
            is Err,
        read_number(value, u64::MAX as nat) is Err && (env.value("ACPX_TIMEOUT_SECS"@) == Some(
            value,
        ) || env.value("ACPX_TTL_SECS"@) == Some(value)) ==> out is Err,
        value != "true"@ && value != "false"@ && (env.value("FEISHU2ACP_ENABLE_MARKDOWN_INPUT"@)
            == Some(value) || env.value("FEISHU2ACP_ENABLE_MARKDOWN_OUTPUT"@) == Some(value))
            ==> out is Err,
        PermissionMode::named(value) is None && env.value("FEISHU2ACP_PERMISSION_MODE"@) == Some(
            value,
        ) ==> (out matches Ok(config) ==> config.default_permission_mode
            == PermissionMode::ApproveReads),
        env.value("ACPX_PROGRAM_ARGS"@) == Some(value) && argument_list(value) is Err ==> out
            is Err,
{
}

} // verus!
