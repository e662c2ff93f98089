use std::path::{Path, PathBuf};

use feishu2acp::error::BridgeError;
use feishu2acp::paths::{
    file_name, file_name_on, is_absolute, join_on, join_path, parent_on, same_path, same_path_on,
};
use feishu2acp::platform::{
    default_data_dir, shell_args_on, shell_program_on, Platform, System,
};
use feishu2acp::support::{
    chunk_text, finalize_chunk_labels, json_arguments, normalize_session_name,
    parse_argument_list, resolve_workspace, resolve_workspace_on,
    text_preview, word_arguments,
};

#[test]
fn parse_argument_list_supports_json_array() {
    let parsed = parse_argument_list(r#"["acpx@latest","--yes"]"#).unwrap();
    assert_eq!(parsed, vec!["acpx@latest", "--yes"]);
}

#[test]
fn parse_argument_list_supports_shell_words() {
    let parsed = parse_argument_list(r#"--foo "hello world""#).unwrap();
    assert_eq!(parsed, vec!["--foo", "hello world"]);
}

#[test]
fn chunk_text_labels_multiple_chunks() {
    let chunks = finalize_chunk_labels(chunk_text("a\nb\nc", 1));
    assert_eq!(chunks, vec!["[1/3]\na", "[2/3]\nb", "[3/3]\nc"]);
}

#[test]
fn normalize_session_name_maps_default_tokens_to_none() {
    assert_eq!(normalize_session_name(Some("default".to_string())), None);
    assert_eq!(normalize_session_name(Some("-".to_string())), None);
    assert_eq!(
        normalize_session_name(Some("backend".to_string())),
        Some("backend".to_string())
    );
}

#[test]
fn text_preview_truncates_and_normalizes_newlines() {
    assert_eq!(text_preview("hello\nworld", 7), "hello\\n...");
    assert_eq!(text_preview("short", 20), "short");
}

#[test]
fn an_empty_argument_list_is_empty() {
    assert!(parse_argument_list(" \n ").unwrap().is_empty());
}

#[test]
fn a_broken_json_list_is_a_configuration_error() {
    match parse_argument_list(" [1]").unwrap_err() {
        BridgeError::Config(message) => {
            assert!(message.starts_with("invalid JSON argument list: invalid type"));
        }
        other => panic!("another failure: {other:?}"),
    }
}

#[test]
fn open_quotations_are_split_at_white_space() {
    assert_eq!(parse_argument_list(" a  'b c ").unwrap(), vec!["a", "'b", "c"]);
}

#[test]
fn shell_words_are_unquoted() {
    assert_eq!(parse_argument_list("a 'b c' d\\ e").unwrap(), vec!["a", "b c", "d e"]);
}

#[test]
fn results_of_reading_arguments_are_taken_as_they_are() {
    assert_eq!(json_arguments(Ok(vec!["a".to_string()])).unwrap(), vec!["a"]);
    match json_arguments(Err("why".to_string())).unwrap_err() {
        BridgeError::Config(message) => assert_eq!(message, "invalid JSON argument list: why"),
        other => panic!("another failure: {other:?}"),
    }
    assert_eq!(word_arguments("x y", Some(vec!["z".to_string()])), vec!["z"]);
    assert_eq!(word_arguments(" x\ty ", None), vec!["x", "y"]);
}

#[test]
fn chunks_hold_whole_lines_while_they_fit() {
    assert_eq!(chunk_text("ab\ncd\nef", 5), vec!["ab\ncd", "ef"]);
    assert_eq!(chunk_text("ab\ncd", 4), vec!["ab", "cd"]);
}

#[test]
fn long_lines_are_cut_up() {
    assert_eq!(chunk_text("a\nbcdefg\nh", 2), vec!["a", "bc", "de", "fg", "h"]);
    assert_eq!(chunk_text("分析仓库", 3), vec!["分析仓", "库"]);
}

#[test]
fn no_limit_is_one_chunk() {
    assert_eq!(chunk_text("a\nb\n", 0), vec!["a\nb\n"]);
    assert_eq!(chunk_text("", 7), vec![""]);
}

#[test]
fn blank_lines_at_the_front_of_a_chunk_are_lost() {
    assert_eq!(chunk_text("\n\na\n\nb", 10), vec!["a\n\nb"]);
}

#[test]
fn chunks_keep_within_the_limit_and_lose_only_line_ends() {
    let text = "first line\r\n\nsecond, a longer one\nthird\n\n";
    for max in 1..30 {
        let chunks = chunk_text(text, max);
        assert!(chunks.iter().all(|chunk| chunk.chars().count() <= max));
        let kept: String = chunks.concat().chars().filter(|c| *c != '\n').collect();
        assert_eq!(kept, "first linesecond, a longer onethird");
    }
}

#[test]
fn a_text_that_fits_is_one_chunk_without_label() {
    assert_eq!(finalize_chunk_labels(chunk_text("a\n\nb", 4)), vec!["a\n\nb"]);
}

#[test]
fn labels_count_from_one() {
    let chunks: Vec<String> = (0..11).map(|n| n.to_string()).collect();
    let labelled = finalize_chunk_labels(chunks);
    assert_eq!(labelled[0], "[1/11]\n0");
    assert_eq!(labelled[10], "[11/11]\n10");
}

#[test]
fn previews_of_no_length_are_empty() {
    assert_eq!(text_preview("abc", 0), "");
    assert_eq!(text_preview("a\nb", 4), "a\\nb");
}

#[test]
fn session_names_are_trimmed_and_settled() {
    assert_eq!(normalize_session_name(None), None);
    assert_eq!(normalize_session_name(Some("  ".to_string())), None);
    assert_eq!(normalize_session_name(Some(" DeFault ".to_string())), None);
    let once = normalize_session_name(Some(" a b ".to_string()));
    assert_eq!(once, Some("a b".to_string()));
    assert_eq!(normalize_session_name(once.clone()), once);
}

#[test]
fn workspaces_are_resolved_and_cleaned() {
    assert_eq!(resolve_workspace("/repo", "src/../docs/./x"), "/repo/docs/x");
    assert_eq!(resolve_workspace("/repo", "/tmp//a/"), "/tmp/a");
    assert_eq!(resolve_workspace("/repo", "../../.."), "/");
    assert_eq!(resolve_workspace("/repo", "."), "/repo");
    assert_eq!(resolve_workspace("repo", "../../x"), "../x");
    assert_eq!(resolve_workspace("", ""), ".");
    assert_eq!(resolve_workspace("/repo/", ""), "/repo");
}

#[test]
fn a_workspace_is_found_again_by_its_path() {
    assert_eq!(resolve_workspace_on(System::current(), "/a", "../b"), "/b");
    let once = resolve_workspace("/a/b", "../c/./d//e/..");
    assert_eq!(once, "/a/c/d");
    assert_eq!(resolve_workspace("/elsewhere", &once), once);
}

#[test]
fn paths_compare_as_those_of_the_system_do() {
    let paths = [
        "", ".", "..", "/", "//", "a", "./a", "a/", "a/.", "a//b", "a/./b", "a/b", "/a/b", "/a/b/",
        "/./a/b", "a/../b", ".a", "./", "./.", "/.", "//a", "/./a", "a/./", "a/..", "...", "/a/...",
        "./b", "a.", "a/.b", "//.//a//.//",
    ];
    let system = System::current();
    for left in paths {
        assert_eq!(
            parent_on(system, left),
            Path::new(left).parent().map(|path| path.to_str().unwrap().to_string()),
            "{left}"
        );
        assert_eq!(file_name_on(system, left), file_name(left));
        assert_eq!(is_absolute(left), Path::new(left).is_absolute());
        assert_eq!(
            file_name(left),
            Path::new(left).file_name().map(|name| name.to_str().unwrap().to_string())
        );
        for right in paths {
            assert_eq!(same_path(left, right), Path::new(left) == Path::new(right), "{left} {right}");
            assert_eq!(same_path_on(system, left, right), same_path(left, right));
            assert_eq!(join_on(system, left, right), join_path(left, right));
            assert_eq!(
                PathBuf::from(join_path(left, right)).as_os_str(),
                Path::new(left).join(right).as_os_str(),
                "{left} {right}"
            );
        }
    }
}

#[test]
fn the_data_directory_is_hidden_at_home() {
    let system = System::current();
    let home = Some("/home/me".to_string());
    let appdata = Some("/data".to_string());
    assert_eq!(default_data_dir(system, &home, &appdata, &None), "/home/me/.feishu2acp");
    assert_eq!(default_data_dir(system, &None, &None, &None), "./.feishu2acp");
}

#[test]
fn this_system_is_known_by_its_separator() {
    let windows = std::path::is_separator('\\');
    assert_eq!(System::current().platform() == Platform::Windows, windows);
}

#[test]
fn the_shell_depends_on_the_platform() {
    assert_eq!(shell_program_on(Platform::Unix), "sh");
    assert_eq!(shell_program_on(Platform::Windows), "powershell");
    assert_eq!(shell_args_on(Platform::Unix), vec!["-lc"]);
    assert_eq!(shell_args_on(Platform::Windows), vec!["-NoProfile", "-Command"]);
}
