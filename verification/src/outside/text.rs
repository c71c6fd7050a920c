//! Text of the standard library.

use vstd::prelude::*;
use vstd::utf8::*;

verus! {

/// `String::from_utf8`: the text whose encoding the bytes are, if they are valid UTF-8.
#[verifier::external_body]
pub(crate) fn string_from_utf8(bytes: Vec<u8>) -> (text: Option<String>)
    ensures
        text is Some <==> valid_utf8(bytes@),
        text matches Some(t) ==> t@ == decode_utf8(bytes@),
{
    String::from_utf8(bytes).ok()
}

/// A text as it shows in debug output: in quotes, and escaped.
pub uninterp spec fn debug_form(text: Seq<char>) -> Seq<char>;

/// `Debug` of `str`. What comes out depends on the text alone.
#[verifier::external_body]
pub(crate) fn debug_quoted(text: &str) -> (quoted: String)
    ensures
        quoted@ == debug_form(text@),
{
    format!("{:?}", text)
}

} // verus!
