//! What a diagnostic says: the input as text, the place of the failure where
//! there is one, and the reason.

use crate::grammar::Flaw;
use crate::text::utf8_lossy;
use vstd::prelude::*;
use vstd::string::{StringExecFns, StringSliceAdditionalSpecFns};
use vstd::utf8::encode_utf8;

verus! {

/// How many bytes stand before the input in the first line of a message: the
/// length of `Unable to parse '`.
pub const LEAD: usize = 17;

/// `count` times the character `ch`.
pub open spec fn repeated(ch: char, count: nat) -> Seq<char> {
    Seq::new(count, |i: int| ch)
}

/// The mark under byte `offset` of a line of `length` bytes: blanks up to the
/// offset, a caret under it, and tildes under the rest of the line. There is
/// none where the offset is not within the line.
pub open spec fn underline_text(length: nat, offset: nat) -> Option<Seq<char>> {
    if offset < length {
        Some(repeated(' ', offset) + seq!['^'] + repeated('~', (length - offset - 1) as nat))
    } else {
        None
    }
}

/// The second line of a message: the mark of [`underline_text`], moved right
/// by [`LEAD`] so that it stands under the input, between two line breaks.
pub open spec fn squiggle_text(length: nat, cursor: nat) -> Option<Seq<char>> {
    match underline_text(length, cursor) {
        Some(mark) => Some(seq!['\n'] + repeated(' ', LEAD as nat) + mark + seq!['\n']),
        None => None,
    }
}

/// What a message says of a byte that was found: the byte as a character, or
/// `EOI` for the end of the input.
pub open spec fn found_text(got: Option<u8>) -> Seq<char> {
    match got {
        Some(byte) => seq![byte as char],
        None => "EOI"@,
    }
}

/// What a message says of `flaw`.
pub open spec fn reason_text(flaw: Flaw) -> Seq<char> {
    match flaw {
        Flaw::ExpectedEndOfInput { extra } =>
            "Expected end of input after parsing third version number component, but got: '"@
                + utf8_lossy(extra) + "'"@,
        Flaw::ExpectedSeparator { got } => "Expected the dot-separator '.', but got '"@
            + found_text(got) + "'"@,
        Flaw::ExpectedNumeric { got } => "Expected 0-9, but got '"@ + found_text(got) + "'"@,
        Flaw::LeadingZero =>
            "Number may not start with a leading zero, unless the complete component is '0'"@,
        Flaw::Overflow =>
            "Overflow: Found number component which would be larger than the maximum supported number (max=18446744073709551615)"@,
    }
}

/// What a diagnostic holds.
pub struct Diagnostic {
    /// The input, as text.
    pub raw_input: Seq<char>,
    /// The byte offset at which parsing failed. A number that is written in a
    /// way that is not accepted has no single place, and none is kept for it.
    pub cursor: Option<usize>,
    /// Why parsing failed.
    pub flaw: Flaw,
}

/// The place that a diagnostic keeps for `flaw`, met at offset `at`.
pub open spec fn place(flaw: Flaw, at: int) -> Option<usize> {
    if flaw.is_numeric() {
        None
    } else {
        Some(at as usize)
    }
}

/// The diagnostic for `flaw`, met at offset `at` of `input`.
pub open spec fn diagnosis(input: Seq<u8>, flaw: Flaw, at: int) -> Diagnostic {
    Diagnostic { raw_input: utf8_lossy(input), cursor: place(flaw, at), flaw }
}

impl Diagnostic {
    /// The mark under the place of the failure, if the diagnostic has a place
    /// and it lies within the input; nothing otherwise.
    pub open spec fn mark(self) -> Seq<char> {
        match self.cursor {
            Some(cursor) => match squiggle_text(encode_utf8(self.raw_input).len(), cursor as nat) {
                Some(mark) => mark,
                None => Seq::empty(),
            },
            None => Seq::empty(),
        }
    }

    /// The whole message: what was to be parsed, why it was not, and the mark.
    pub open spec fn message(self) -> Seq<char> {
        "Unable to parse '"@ + self.raw_input + "' to a version number: "@ + reason_text(self.flaw)
            + self.mark()
    }
}

/// Puts `count` times the character `ch` behind `text`.
pub fn push_repeated(text: &mut String, ch: char, count: usize)
    ensures
        final(text)@ == old(text)@ + repeated(ch, count as nat),
{
    let mut done: usize = 0;
    while done < count
        invariant
            done <= count,
            text@ == old(text)@ + repeated(ch, done as nat),
        decreases count - done,
    {
        text.push(ch);
        done += 1;
        proof {
            assert(text@ =~= old(text)@ + repeated(ch, done as nat));
        }
    }
}

/// Renders the mark under byte `offset` of the line `line`: see
/// [`underline_text`].
pub fn underline(line: &str, offset: usize) -> (mark: Option<String>)
    ensures
        match underline_text(line.spec_bytes().len(), offset as nat) {
            Some(text) => mark matches Some(mark) && mark@ == text,
            None => mark is None,
        },
{
    let length = line.as_bytes().len();
    if offset < length {
        let mut mark = String::new();
        push_repeated(&mut mark, ' ', offset);
        mark.push('^');
        push_repeated(&mut mark, '~', length - offset - 1);
        proof {
            assert(mark@ =~= underline_text(line.spec_bytes().len(), offset as nat).unwrap());
        }
        Some(mark)
    } else {
        None
    }
}

/// What a message says of a byte that was found: see [`found_text`].
pub fn found(got: Option<u8>) -> (text: String)
    ensures
        text@ == found_text(got),
{
    match got {
        Some(byte) => {
            let mut text = String::new();
            text.push(byte as char);
            proof {
                assert(text@ =~= found_text(got));
            }
            text
        },
        None => String::from_str("EOI"),
    }
}

} // verus!
