//! What holds of the grammar as a whole: the two ways of reading it agree, a
//! leading zero is refused in every component, a rejection lies within the
//! input, and a version that is written out parses back to itself.

use crate::grammar::{
    base_stage, byte_at, decimal, digit_value, digits_of, dot_at, exhausted, is_digit,
    lemma_digits_end_bounds, lemma_digits_end_extends, outcome, render_base, render_full,
    scan_component, staged_outcome, Flaw, Outcome, Scan, Stage, DOT, ZERO,
};
use crate::parser::error::ParseError;
use crate::parsers::error::ParserError;
use crate::parsers::modular::ModularParserError;
use crate::parsers::original::OriginalParser;
use crate::Version;
use vstd::prelude::*;

verus! {

/// Whether `input` holds `major.minor` and then a byte that is not a `.`.
pub open spec fn stray_byte_after_base(input: Seq<u8>) -> bool {
    base_stage(input, 0) matches Stage::Read { value, end } && !exhausted(input, end) && !dot_at(
        input,
        end,
    )
}

/// Read in one pass or in stages, an input gives the same version or the same
/// rejection, with one kind of exception: after `major.minor`, a byte that is
/// not a `.` is where the pass wants a separator and the stages want the input
/// to end.
pub proof fn lemma_stages_agree_with_one_pass(input: Seq<u8>)
    requires
        !stray_byte_after_base(input),
    ensures
        staged_outcome(input, 0) == outcome(input),
{
}

/// On the inputs that the agreement leaves out, both readings reject at the
/// same place: the pass for want of a separator, the stages for the bytes left
/// over.
pub proof fn lemma_stray_byte_is_rejected(input: Seq<u8>)
    requires
        stray_byte_after_base(input),
    ensures
        base_stage(input, 0) matches Stage::Read { value, end } && outcome(input)
            == (Outcome::Rejected {
            flaw: Flaw::ExpectedSeparator { got: Some(input[end]) },
            at: end,
        }) && staged_outcome(input, 0) == (Outcome::Rejected {
            flaw: Flaw::ExpectedEndOfInput { extra: input.skip(end) },
            at: end,
        }),
{
    lemma_component_within(input, 0);
    if let Scan::Number { value, end: a } = scan_component(input, 0) {
        if dot_at(input, a) {
            lemma_component_within(input, a + 1);
        }
    }
}

/// Both readings accept the same inputs, and read the same version from them.
pub proof fn lemma_stages_accept_what_one_pass_accepts(input: Seq<u8>)
    ensures
        outcome(input) is Rejected <==> staged_outcome(input, 0) is Rejected,
        !(outcome(input) is Rejected) ==> staged_outcome(input, 0) == outcome(input),
{
}

/// Whether the component that starts at `from` has two or more digits, the
/// first of them `0`.
pub open spec fn has_leading_zero(input: Seq<u8>, from: int) -> bool {
    &&& 0 <= from
    &&& from + 2 <= input.len()
    &&& input[from] == ZERO
    &&& is_digit(input[from + 1])
}

/// A component of several digits that starts with `0` is refused for its
/// leading zero.
pub proof fn lemma_leading_zero_refused(input: Seq<u8>, from: int)
    requires
        has_leading_zero(input, from),
    ensures
        scan_component(input, from) == (Scan::Refused { flaw: Flaw::LeadingZero }),
{
    lemma_digits_end_extends(input, from, from + 2);
    lemma_digits_end_bounds(input, from + 2);
}

/// A leading zero is refused in whichever component it stands: in the first;
/// in the second, when the first and its separator are read; in the third,
/// when the first two and their separators are read.
pub proof fn lemma_leading_zero_rejected_in_each_component(input: Seq<u8>)
    ensures
        has_leading_zero(input, 0) ==> outcome(input) == (Outcome::Rejected {
            flaw: Flaw::LeadingZero,
            at: 0,
        }),
        match scan_component(input, 0) {
            Scan::Number { value, end: a } => dot_at(input, a) && has_leading_zero(input, a + 1)
                ==> outcome(input) == (Outcome::Rejected { flaw: Flaw::LeadingZero, at: a + 1 }),
            Scan::Refused { flaw } => true,
        },
        match base_stage(input, 0) {
            Stage::Read { value, end: b } => dot_at(input, b) && has_leading_zero(input, b + 1)
                ==> outcome(input) == (Outcome::Rejected { flaw: Flaw::LeadingZero, at: b + 1 }),
            Stage::Failed { flaw, at } => true,
        },
{
    if has_leading_zero(input, 0) {
        lemma_leading_zero_refused(input, 0);
    }
    if let Scan::Number { value, end: a } = scan_component(input, 0) {
        if dot_at(input, a) && has_leading_zero(input, a + 1) {
            lemma_leading_zero_refused(input, a + 1);
        }
    }
    if let Stage::Read { value, end: b } = base_stage(input, 0) {
        if dot_at(input, b) && has_leading_zero(input, b + 1) {
            lemma_leading_zero_refused(input, b + 1);
        }
    }
}

/// The stages refuse a leading zero as the pass does.
pub proof fn lemma_leading_zero_rejected_in_each_stage(input: Seq<u8>)
    ensures
        has_leading_zero(input, 0) ==> staged_outcome(input, 0) == (Outcome::Rejected {
            flaw: Flaw::LeadingZero,
            at: 0,
        }),
        match scan_component(input, 0) {
            Scan::Number { value, end: a } => dot_at(input, a) && has_leading_zero(input, a + 1)
                ==> staged_outcome(input, 0) == (Outcome::Rejected {
                flaw: Flaw::LeadingZero,
                at: a + 1,
            }),
            Scan::Refused { flaw } => true,
        },
        match base_stage(input, 0) {
            Stage::Read { value, end: b } => dot_at(input, b) && has_leading_zero(input, b + 1)
                ==> staged_outcome(input, 0) == (Outcome::Rejected {
                flaw: Flaw::LeadingZero,
                at: b + 1,
            }),
            Stage::Failed { flaw, at } => true,
        },
{
    lemma_leading_zero_rejected_in_each_component(input);
    lemma_stages_accept_what_one_pass_accepts(input);
    if !stray_byte_after_base(input) {
        lemma_stages_agree_with_one_pass(input);
    }
}

/// A component that is read ends within the input, after its start.
pub proof fn lemma_component_within(input: Seq<u8>, from: int)
    requires
        0 <= from <= input.len(),
    ensures
        scan_component(input, from) matches Scan::Number { value, end } ==> from < end
            <= input.len(),
{
    lemma_digits_end_bounds(input, from);
}

/// The place of a rejection lies within the input, or at its end.
pub proof fn lemma_rejection_within_input(input: Seq<u8>)
    ensures
        outcome(input) matches Outcome::Rejected { flaw, at } ==> 0 <= at <= input.len(),
        staged_outcome(input, 0) matches Outcome::Rejected { flaw, at } ==> 0 <= at
            <= input.len(),
        outcome(input) matches Outcome::Rejected {
            flaw: Flaw::ExpectedEndOfInput { extra },
            at,
        } ==> extra.len() > 0,
{
    lemma_component_within(input, 0);
    if let Scan::Number { value, end: a } = scan_component(input, 0) {
        if dot_at(input, a) {
            lemma_component_within(input, a + 1);
            if let Scan::Number { value, end: b } = scan_component(input, a + 1) {
                if dot_at(input, b) {
                    lemma_component_within(input, b + 1);
                }
            }
        }
    }
}

/// A number written out is made of digits, at least one, and starts with `0`
/// only if it is zero.
pub proof fn lemma_digits_of_shape(n: nat)
    ensures
        digits_of(n).len() >= 1,
        forall|i: int| 0 <= i < digits_of(n).len() ==> is_digit(#[trigger] digits_of(n)[i]),
        n >= 1 ==> digits_of(n)[0] != ZERO,
        n < 10 <==> digits_of(n).len() == 1,
    decreases n,
{
    if n >= 10 {
        lemma_digits_of_shape(n / 10);
    }
}

/// Where `input` holds the digits of `n` from `from` on, they spell `n`.
pub proof fn lemma_decimal_of_digits(input: Seq<u8>, from: int, n: nat)
    requires
        0 <= from,
        from + digits_of(n).len() <= input.len(),
        input.subrange(from, from + digits_of(n).len()) == digits_of(n),
    ensures
        decimal(input, from, from + digits_of(n).len()) == n,
    decreases n,
{
    let len = digits_of(n).len() as int;
    let written = input.subrange(from, from + len);
    lemma_digits_of_shape(n);
    assert(input[from + len - 1] == written[len - 1]);
    assert(decimal(input, from, from + len) == decimal(input, from, from + len - 1) * 10
        + digit_value(input[from + len - 1]));
    if n >= 10 {
        let shorter = digits_of(n / 10);
        assert(input.subrange(from, from + shorter.len()) =~= written.subrange(
            0,
            shorter.len() as int,
        ));
        assert(written.subrange(0, shorter.len() as int) =~= shorter);
        lemma_decimal_of_digits(input, from, n / 10);
    }
}

/// Where `input` holds the digits of `n` from `from` on, and no digit behind
/// them, the component there reads as `n`.
pub proof fn lemma_scan_of_digits(input: Seq<u8>, from: int, n: u64)
    requires
        0 <= from,
        from + digits_of(n as nat).len() <= input.len(),
        input.subrange(from, from + digits_of(n as nat).len()) == digits_of(n as nat),
        byte_at(input, from + digits_of(n as nat).len()) matches Some(byte) ==> !is_digit(byte),
    ensures
        scan_component(input, from) == (Scan::Number {
            value: n,
            end: from + digits_of(n as nat).len(),
        }),
{
    let len = digits_of(n as nat).len() as int;
    let written = input.subrange(from, from + len);
    lemma_digits_of_shape(n as nat);
    assert forall|i: int| from <= i < from + len implies is_digit(#[trigger] input[i]) by {
        assert(input[i] == written[i - from]);
    }
    lemma_digits_end_extends(input, from, from + len);
    assert(input[from] == written[0]);
    lemma_decimal_of_digits(input, from, n as nat);
}

/// A two-component version that is written out parses back to itself, read in
/// one pass or in stages.
pub proof fn lemma_base_round_trip(major: u64, minor: u64)
    ensures
        outcome(render_base(major, minor)) == (Outcome::Base { major, minor }),
        staged_outcome(render_base(major, minor), 0) == (Outcome::Base { major, minor }),
{
    let input = render_base(major, minor);
    let a = digits_of(major as nat).len() as int;
    let b = a + 1 + digits_of(minor as nat).len();
    assert(input.subrange(0, a) =~= digits_of(major as nat));
    assert(input[a] == DOT);
    lemma_scan_of_digits(input, 0, major);
    assert(input.subrange(a + 1, b) =~= digits_of(minor as nat));
    lemma_scan_of_digits(input, a + 1, minor);
}

/// A three-component version that is written out parses back to itself, read
/// in one pass or in stages.
pub proof fn lemma_full_round_trip(major: u64, minor: u64, patch: u64)
    ensures
        outcome(render_full(major, minor, patch)) == (Outcome::Full { major, minor, patch }),
        staged_outcome(render_full(major, minor, patch), 0) == (Outcome::Full {
            major,
            minor,
            patch,
        }),
{
    let input = render_full(major, minor, patch);
    let a = digits_of(major as nat).len() as int;
    let b = a + 1 + digits_of(minor as nat).len();
    let c = b + 1 + digits_of(patch as nat).len();
    assert(input.subrange(0, a) =~= digits_of(major as nat));
    assert(input[a] == DOT);
    lemma_scan_of_digits(input, 0, major);
    assert(input.subrange(a + 1, b) =~= digits_of(minor as nat));
    assert(input[b] == DOT);
    lemma_scan_of_digits(input, a + 1, minor);
    assert(input.subrange(b + 1, c) =~= digits_of(patch as nat));
    lemma_scan_of_digits(input, b + 1, patch);
}

/// A version that is written out parses back to itself, whichever parser
/// reads it.
pub proof fn lemma_version_round_trip(version: Version)
    ensures
        OriginalParser::version_result(version.rendered()) == Ok::<Version, ParserError>(version),
        ModularParserError::result_of(staged_outcome(version.rendered(), 0)) == Ok::<
            Version,
            ModularParserError,
        >(version),
        ParseError::result_of(staged_outcome(version.rendered(), 0)) == Ok::<Version, ParseError>(
            version,
        ),
{
    match version {
        Version::Base(base) => lemma_base_round_trip(base.major, base.minor),
        Version::Full(full) => lemma_full_round_trip(full.major, full.minor, full.patch),
    }
}

} // verus!
