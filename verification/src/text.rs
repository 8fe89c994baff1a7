//! Text helpers over `str` and bytes that the frame decoders share.

use vstd::prelude::*;
use vstd::utf8::{decode_utf8, valid_utf8};

verus! {

/// The text that `String::from_utf8_lossy` makes of `bytes`: the decoded text
/// where the bytes are valid UTF-8, and otherwise the text in which each
/// invalid sequence is replaced.
pub uninterp spec fn lossy_text(bytes: Seq<u8>) -> Seq<char>;

/// Calls `str::strip_prefix` with a string pattern. Trusted: the result is
/// `Some` exactly where `line` begins with `prefix`, and is then what follows
/// the prefix.
#[verifier::external_body]
pub(crate) fn strip_prefix<'a>(line: &'a str, prefix: &str) -> (r: Option<&'a str>)
    ensures
        r is Some <==> prefix@.is_prefix_of(line@),
        r is Some ==> r->Some_0@ == line@.skip(prefix@.len() as int),
{
    line.strip_prefix(prefix)
}

/// Calls `String::from_utf8_lossy`. Trusted: the result is [`lossy_text`] of
/// the bytes, which is their decoding where they are valid UTF-8.
#[verifier::external_body]
pub(crate) fn decode_lossy(bytes: &[u8]) -> (r: String)
    ensures
        r@ == lossy_text(bytes@),
        valid_utf8(bytes@) ==> r@ == decode_utf8(bytes@),
{
    String::from_utf8_lossy(bytes).into_owned()
}

/// The texts of a sequence of strings, in order.
pub open spec fn texts(items: Seq<String>) -> Seq<Seq<char>> {
    items.map_values(|s: String| s@)
}

/// Appending a string appends its text.
pub proof fn lemma_texts_push(items: Seq<String>, last: String)
    ensures
        texts(items.push(last)) == texts(items).push(last@),
{
    assert(texts(items.push(last)) =~= texts(items).push(last@));
}

} // verus!
