//! Turning the raw bytes of a child's output into text.

use vstd::prelude::*;
use vstd::utf8::*;

verus! {

/// The text that permissive decoding makes of `bytes`: every ill-formed part
/// is replaced by U+FFFD, nothing is ever rejected.
pub uninterp spec fn lossy_text(bytes: Seq<u8>) -> Seq<char>;

/// The text that a chunk of output is read as: the text that it encodes
/// where it is well-formed UTF-8, and the permissive reading otherwise.
pub open spec fn decoded_text(bytes: Seq<u8>) -> Seq<char> {
    if valid_utf8(bytes) {
        decode_utf8(bytes)
    } else {
        lossy_text(bytes)
    }
}

/// Calls `String::from_utf8_lossy` and takes ownership of what it returns.
///
/// Trusted: the result is a function of the bytes alone, named
/// [`lossy_text`], and bytes that are already well-formed UTF-8 come back as
/// the very text they encode.
#[verifier::external_body]
fn decode_lossy(bytes: &Vec<u8>) -> (text: String)
    ensures
        text@ == lossy_text(bytes@),
        valid_utf8(bytes@) ==> text@ == decode_utf8(bytes@),
{
    String::from_utf8_lossy(bytes).into_owned()
}

/// Decodes one chunk of output. No chunk is rejected.
pub fn decode_chunk(bytes: &Vec<u8>) -> (text: String)
    ensures
        text@ == decoded_text(bytes@),
{
    decode_lossy(bytes)
}

/// Encoding a concatenation is concatenating the encodings.
pub proof fn lemma_encode_utf8_concat(a: Seq<char>, b: Seq<char>)
    ensures
        encode_utf8(a + b) == encode_utf8(a) + encode_utf8(b),
    decreases a.len(),
{
    if a.len() == 0 {
        assert(a + b =~= b);
        assert(encode_utf8(a) + encode_utf8(b) =~= encode_utf8(b));
    } else {
        lemma_encode_utf8_concat(a.drop_first(), b);
        assert((a + b).drop_first() =~= a.drop_first() + b);
        assert((a + b)[0] == a[0]);
        assert(encode_utf8(a + b) =~= encode_utf8(a) + encode_utf8(b));
    }
}

} // verus!
