use feishu2acp::adapters::reply::parse_agent_reply;
use feishu2acp::domain::{AgentReply, BinarySource, MessageBlock};

fn document(name: &str, content: &str) -> MessageBlock {
    MessageBlock::Document {
        mime_type: "text/markdown".to_string(),
        file_name: name.to_string(),
        source: BinarySource::Bytes(content.as_bytes().to_vec()),
        extracted_text: Some(content.to_string()),
    }
}

fn tagged(name: &str, content: &str) -> String {
    format!("<feishu2acp-document file_name=\"{name}\">\n{content}\n</feishu2acp-document>")
}

#[test]
fn plain_output_is_one_text() {
    assert_eq!(parse_agent_reply(" a\nb \n"), AgentReply::from_text("a\nb"));
    assert!(parse_agent_reply(" \n ").blocks.is_empty());
}

#[test]
fn texts_and_documents_keep_their_order() {
    let raw = format!("one {} two {}{}\n", tagged("a.md", "A"), tagged("b", "B"), tagged("c.markdown", "标题\n\nC"));
    assert_eq!(
        parse_agent_reply(&raw).blocks,
        vec![
            MessageBlock::text("one"),
            document("a.md", "A"),
            MessageBlock::text("two"),
            document("b.md", "B"),
            document("c.markdown", "标题\n\nC"),
        ]
    );
}

#[test]
fn broken_tags_make_the_output_one_text() {
    let whole = tagged("a.md", "A");
    for broken in [
        format!("{whole} <feishu2acp-document file_name=\"b.md\""),
        format!("{whole} <feishu2acp-document>x</feishu2acp-document>"),
        format!("{whole} <feishu2acp-document file_name=\"b>x</feishu2acp-document>"),
        format!("{whole} <feishu2acp-document file_name=\"b\">x"),
    ] {
        assert_eq!(parse_agent_reply(&broken), AgentReply::from_text(broken.as_str()));
    }
}

#[test]
fn empty_documents_are_left_out() {
    assert!(parse_agent_reply(&tagged("a.md", "\n\n")).blocks.is_empty());
    assert_eq!(parse_agent_reply(&tagged("a.md", " ")).blocks, vec![document("a.md", " ")]);
}

#[test]
fn names_of_documents_are_made_safe() {
    let name = |name: &str| match parse_agent_reply(&tagged(name, "x")).blocks.remove(0) {
        MessageBlock::Document { file_name, .. } => file_name,
        other => panic!("no document: {other:?}"),
    };
    assert_eq!(name(" my plan.md "), "my_plan.md");
    assert_eq!(name("../a/b"), ".._a_b.md");
    assert_eq!(name(""), "reply.md");
    assert_eq!(name("计划"), "__.md");
    assert_eq!(name("A.MD"), "A.MD.md");
}

#[test]
fn attributes_may_stand_anywhere_in_the_tag() {
    let raw = "<feishu2acp-document id=\"1\" file_name=\"a.md\" x>A</feishu2acp-document>";
    assert_eq!(parse_agent_reply(raw).blocks, vec![document("a.md", "A")]);
}
