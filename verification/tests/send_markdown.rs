use feishu2acp::platform::System;
use feishu2acp::send_markdown::{build_payload, parse_args, sample_markdown, usage, Args, Asked};

fn asked(args: &[&str]) -> Result<Asked, String> {
    parse_args(&args.iter().map(|arg| arg.to_string()).collect())
}

#[test]
fn arguments_are_read() {
    assert_eq!(
        asked(&[]).unwrap(),
        Asked::Send(Args {
            chat_id: "oc_f5f9c8e4001155b3d3fd395426388ce4".to_string(),
            file: None,
            note: None,
        })
    );
    assert_eq!(
        asked(&["--file", "README.md", "--chat", "oc_1", "--note", "请总结这个文档", "--chat", "oc_2"]).unwrap(),
        Asked::Send(Args {
            chat_id: "oc_2".to_string(),
            file: Some("README.md".to_string()),
            note: Some("请总结这个文档".to_string()),
        })
    );
    assert_eq!(asked(&["--note", "--help", "-h", "--bad"]).unwrap(), Asked::Help);
    assert_eq!(asked(&["--help"]).unwrap(), Asked::Help);
}

#[test]
fn wrong_arguments_are_told() {
    assert_eq!(asked(&["x"]).unwrap_err(), "unknown argument: x");
    assert_eq!(asked(&["--chat", "a", "--file"]).unwrap_err(), "--file requires a value");
    assert!(usage().starts_with("Usage: "));
}

#[test]
fn files_are_sent_under_their_last_name() {
    let payload = |path: &str| build_payload(System::current(), Some((path.to_string(), Ok(vec![1]))));
    let sent = payload("docs//README.md/").unwrap();
    assert_eq!(sent.file_name, "README.md");
    assert_eq!(sent.bytes, vec![1]);
    assert_eq!(
        payload("docs/..").unwrap_err(),
        "file path must end with a valid UTF-8 file name"
    );
    assert_eq!(
        build_payload(System::current(), Some(("x".to_string(), Err("why".to_string())))).unwrap_err(),
        "failed to read x"
    );
    let sample = build_payload(System::current(), None).unwrap();
    assert_eq!(sample.file_name, "feishu2acp-markdown-smoke.md");
    assert_eq!(sample.bytes, sample_markdown().into_bytes());
}
