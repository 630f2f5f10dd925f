//! Text for diagnostics: the input as a string, and strings built byte by
//! byte.

use crate::grammar::{digits_of, ZERO};
use vstd::prelude::*;
use vstd::utf8::{encode_utf8, is_ascii_chars, is_ascii_chars_encode_utf8};

verus! {

/// Whether every byte of `bytes` is an ASCII character.
pub open spec fn is_ascii_bytes(bytes: Seq<u8>) -> bool {
    forall|i: int| 0 <= i < bytes.len() ==> #[trigger] bytes[i] < 128
}

/// The text whose characters are the bytes of `bytes`, one for one.
pub open spec fn text_of(bytes: Seq<u8>) -> Seq<char> {
    Seq::new(bytes.len(), |i: int| bytes[i] as char)
}

/// ASCII bytes are the UTF-8 encoding of the text that they spell.
pub proof fn lemma_ascii_text_encodes_to_its_bytes(bytes: Seq<u8>)
    requires
        is_ascii_bytes(bytes),
    ensures
        is_ascii_chars(text_of(bytes)),
        encode_utf8(text_of(bytes)) == bytes,
{
    let text = text_of(bytes);
    assert forall|i: int| 0 <= i < text.len() implies '\0' <= #[trigger] text[i] <= '\u{7f}' by {
        assert(bytes[i] < 128);
    }
    is_ascii_chars_encode_utf8(text);
    assert forall|i: int| 0 <= i < bytes.len() implies encode_utf8(text)[i] == bytes[i] by {
        assert(text[i] as u8 == encode_utf8(text)[i]);
        assert(bytes[i] < 128);
    }
    assert(encode_utf8(text) =~= bytes);
}

/// A number written out is ASCII.
pub proof fn lemma_digits_are_ascii(n: nat)
    ensures
        is_ascii_bytes(digits_of(n)),
    decreases n,
{
    if n >= 10 {
        lemma_digits_are_ascii(n / 10);
    }
}

/// Writes `n` in base ten behind `bytes`.
pub fn push_decimal(bytes: &mut Vec<u8>, n: u64)
    ensures
        final(bytes)@ == old(bytes)@ + digits_of(n as nat),
    decreases n,
{
    if n >= 10 {
        push_decimal(bytes, n / 10);
    }
    bytes.push(ZERO + (n % 10) as u8);
    proof {
        if n < 10 {
            assert(final(bytes)@ =~= old(bytes)@ + digits_of(n as nat));
        } else {
            assert(final(bytes)@ =~= old(bytes)@ + digits_of(n as nat));
        }
    }
}

/// The text that the ASCII bytes `bytes` spell.
pub fn ascii_text(bytes: &[u8]) -> (text: String)
    requires
        is_ascii_bytes(bytes@),
    ensures
        text@ == text_of(bytes@),
        encode_utf8(text@) == bytes@,
{
    let mut text = String::new();
    let mut index: usize = 0;
    while index < bytes.len()
        invariant
            index <= bytes@.len(),
            text@ == text_of(bytes@.take(index as int)),
        decreases bytes@.len() - index,
    {
        text.push(bytes[index] as char);
        index += 1;
        proof {
            assert(text@ =~= text_of(bytes@.take(index as int)));
        }
    }
    proof {
        assert(bytes@.take(index as int) =~= bytes@);
        lemma_ascii_text_encodes_to_its_bytes(bytes@);
    }
    text
}

/// The text that `String::from_utf8_lossy` makes of `bytes`.
pub uninterp spec fn utf8_lossy(bytes: Seq<u8>) -> Seq<char>;

/// Calls `String::from_utf8_lossy` and owns the result.
///
/// Not proved: that the text depends on the bytes alone, and that bytes which
/// are valid UTF-8 come back as the text they encode. Of other bytes the
/// contract says only that the text has a name.
#[verifier::external_body]
pub(crate) fn lossy_text(bytes: &[u8]) -> (text: String)
    ensures
        text@ == utf8_lossy(bytes@),
        vstd::utf8::valid_utf8(bytes@) ==> text@ == vstd::utf8::decode_utf8(bytes@),
{
    String::from_utf8_lossy(bytes).into_owned()
}

/// `String::push` puts one character at the end of the string.
pub assume_specification[ String::push ](text: &mut String, ch: char)
    ensures
        final(text)@ == old(text)@.push(ch),
;

} // verus!
