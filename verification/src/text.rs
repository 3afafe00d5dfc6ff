//! Text payloads are measured in buffer units: the bytes of their UTF-8
//! encoding, which is what `str::len` counts.

use vstd::prelude::*;
use vstd::utf8::encode_utf8;

verus! {

/// The bytes that `text` occupies in a buffer.
pub open spec fn text_bytes(text: Seq<char>) -> Seq<u8> {
    encode_utf8(text)
}

/// The number of buffer units that `text` occupies.
pub open spec fn byte_len(text: Seq<char>) -> nat {
    text_bytes(text).len()
}

/// Encoding distributes over concatenation: the bytes of `a` followed by `b`
/// are the bytes of `a` followed by the bytes of `b`.
pub proof fn lemma_text_bytes_concat(a: Seq<char>, b: Seq<char>)
    ensures
        text_bytes(a + b) == text_bytes(a) + text_bytes(b),
    decreases a.len(),
{
    if a.len() > 0 {
        lemma_text_bytes_concat(a.drop_first(), b);
        assert((a + b).drop_first() =~= a.drop_first() + b);
    }
}

/// Lengths add up under concatenation.
pub proof fn lemma_byte_len_concat(a: Seq<char>, b: Seq<char>)
    ensures
        byte_len(a + b) == byte_len(a) + byte_len(b),
{
    lemma_text_bytes_concat(a, b);
}

/// The length of `text` in buffer units.
pub fn text_len(text: &String) -> (len: usize)
    ensures
        len == byte_len(text@),
{
    text.as_str().as_bytes().len()
}

} // verus!
