//! Texts as bytes.
use vstd::prelude::*;
use vstd::utf8::{decode_utf8, valid_utf8};

verus! {

/// What is wrong with bytes that are no text, in words.
pub uninterp spec fn utf8_fault(bytes: Seq<u8>) -> Seq<char>;

/// A text that bytes are closest to, where what is not UTF-8 among them is
/// replaced.
pub uninterp spec fn nearest_text(bytes: Seq<u8>) -> Seq<char>;

/// `String::from_utf8` gives the text that the bytes encode just where they are
/// valid UTF-8. Else it gives an error, of which the words are kept; they are
/// named, not spelled out.
#[verifier::external_body]
pub(crate) fn text_from_utf8(bytes: Vec<u8>) -> (out: Result<String, String>)
    ensures
        match out {
            Ok(text) => valid_utf8(bytes@) && text@ == decode_utf8(bytes@),
            Err(fault) => !valid_utf8(bytes@) && fault@ == utf8_fault(bytes@),
        },
{
    String::from_utf8(bytes).map_err(|error| error.to_string())
}

/// `String::from_utf8_lossy` gives the text that the bytes encode where they are
/// valid UTF-8. What it puts in the place of other bytes is named, not spelled
/// out.
#[verifier::external_body]
pub(crate) fn text_from_utf8_lossy(bytes: &[u8]) -> (out: String)
    ensures
        out@ == nearest_text(bytes@),
        valid_utf8(bytes@) ==> out@ == decode_utf8(bytes@),
{
    String::from_utf8_lossy(bytes).into_owned()
}

} // verus!
