//! What holds of every call of `acpx`, and of every prompt.
use vstd::prelude::*;
use vstd::utf8::{encode_utf8, encode_utf8_decode_utf8, encode_utf8_valid_utf8};

use crate::adapters::acpx::{base_options, diagnostic, json_call, lenient, quiet_call};
use crate::adapters::prompt::{document_content, framed, prompt_text, sections, FileReadView};
use crate::config::AcpxCliConfig;
use crate::domain::{BinarySourceView, MessageBlockView, SessionSelectorView};
use crate::error::BridgeErrorView;
use crate::markdown::markdown_mime;
use crate::ports::ProcessRequestView;
use crate::text::trim::trim;

verus! {

/// A call that failed without a word is made again at most once: the call that is
/// made to learn why has none after it, and differs from the first only by one
/// option.
pub proof fn law_a_silent_failure_is_looked_into_once(request: ProcessRequestView)
    ensures
        diagnostic(request) matches Some(again) ==> {
            &&& diagnostic(again) is None
            &&& again.program == request.program
            &&& again.cwd == request.cwd
            &&& again.timeout_secs == request.timeout_secs
            &&& again.args == lenient(request.args)
        },
{
    if let Some(again) = diagnostic(request) {
        if again.args.contains("--json-strict"@) {
            let keeps = |arg: Seq<char>| arg != "--json-strict"@;
            let i = choose|i: int| 0 <= i < again.args.len() && again.args[i] == "--json-strict"@;
            request.args.lemma_filter_pred(keeps, i);
        }
    }
}

/// The options of `acpx` stand before the agent, the format among them, and
/// nothing stands between the options and the agent.
pub proof fn law_options_stand_before_the_agent(
    config: AcpxCliConfig,
    selector: SessionSelectorView,
)
    ensures
        json_call(config, selector).last() == selector.agent,
        quiet_call(config, selector).last() == selector.agent,
        json_call(config, selector).drop_last().contains("--format"@),
        quiet_call(config, selector).drop_last().contains("--format"@),
        json_call(config, selector).drop_last().contains("--json-strict"@),
{
    let base = base_options(config, selector);
    let json = json_call(config, selector).drop_last();
    let quiet = quiet_call(config, selector).drop_last();
    assert(json[base.len() as int] == "--format"@);
    assert(quiet[base.len() as int] == "--format"@);
    assert(json[base.len() as int + 2] == "--json-strict"@);
}

/// The prompt of one text that is not blank is that text.
pub proof fn law_a_text_is_its_own_prompt(text: Seq<char>, read: Option<FileReadView>)
    requires
        trim(text).len() > 0,
    ensures
        prompt_text(seq![MessageBlockView::Text { text }], seq![read]) == Ok::<
            Seq<char>,
            BridgeErrorView,
        >(trim(text)),
{
    let blocks = seq![MessageBlockView::Text { text }];
    let reads = seq![read];
    assert(sections(blocks, reads, 0) == Ok::<Seq<Seq<char>>, BridgeErrorView>(seq![]));
    assert(sections(blocks, reads, 1) == Ok::<Seq<Seq<char>>, BridgeErrorView>(
        Seq::<Seq<char>>::empty().push(trim(text)),
    ));
}

/// The prompt of one markdown document whose text is at hand is that text in its
/// frame.
pub proof fn law_a_document_is_framed(
    mime_type: Seq<char>,
    file_name: Seq<char>,
    source: BinarySourceView,
    text: Seq<char>,
    read: Option<FileReadView>,
)
    requires
        markdown_mime(mime_type),
    ensures
        prompt_text(
            seq![
                MessageBlockView::Document {
                    mime_type,
                    file_name,
                    source,
                    extracted_text: Some(text),
                },
            ],
            seq![read],
        ) == Ok::<Seq<char>, BridgeErrorView>(framed(file_name, text)),
{
    let blocks = seq![
        MessageBlockView::Document { mime_type, file_name, source, extracted_text: Some(text) },
    ];
    let reads = seq![read];
    assert(sections(blocks, reads, 0) == Ok::<Seq<Seq<char>>, BridgeErrorView>(seq![]));
    assert(sections(blocks, reads, 1) == Ok::<Seq<Seq<char>>, BridgeErrorView>(
        Seq::<Seq<char>>::empty().push(framed(file_name, text)),
    ));
}

proof fn lemma_image_refused(
    blocks: Seq<MessageBlockView>,
    reads: Seq<Option<FileReadView>>,
    count: nat,
    at: int,
)
    requires
        0 <= at < count <= blocks.len(),
        blocks[at] is Image,
    ensures
        sections(blocks, reads, count) is Err,
    decreases count,
{
    if at < count - 1 {
        lemma_image_refused(blocks, reads, (count - 1) as nat, at);
    }
}

/// Blocks with an image among them are no prompt.
pub proof fn law_images_are_refused(
    blocks: Seq<MessageBlockView>,
    reads: Seq<Option<FileReadView>>,
    at: int,
)
    requires
        0 <= at < blocks.len(),
        blocks[at] is Image,
    ensures
        prompt_text(blocks, reads) is Err,
{
    lemma_image_refused(blocks, reads, blocks.len(), at);
}

/// The bytes of a text are read as that text, so a document that an agent sent
/// can be handed to one as it is.
pub proof fn law_the_bytes_of_a_text_are_read_as_it(text: Seq<char>, read: Option<FileReadView>)
    ensures
        document_content(BinarySourceView::Bytes(encode_utf8(text)), None, read) == Ok::<
            Seq<char>,
            BridgeErrorView,
        >(text),
{
    encode_utf8_valid_utf8(text);
    encode_utf8_decode_utf8(text);
}

} // verus!
