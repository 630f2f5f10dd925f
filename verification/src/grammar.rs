//! The grammar of version numbers as mathematics: which bytes form a number
//! component, what a component is worth, and what a whole input parses to.
//!
//! The parsers of this crate state their contracts over the functions of this
//! module, and the lemmas at its end connect them. Nothing here runs but
//! [`byte_is_digit`].

use vstd::prelude::*;

verus! {

/// The byte `.`, which separates two components.
pub const DOT: u8 = 46;

/// The byte `0`, the lowest digit.
pub const ZERO: u8 = 48;

/// The byte `9`, the highest digit.
pub const NINE: u8 = 57;

/// Whether `byte` is one of the ASCII digits `0` to `9`.
pub open spec fn is_digit(byte: u8) -> bool {
    ZERO <= byte <= NINE
}

/// What the digit `byte` is worth.
pub open spec fn digit_value(byte: u8) -> nat
    recommends
        is_digit(byte),
{
    (byte - ZERO) as nat
}

/// The byte of `input` at `at`, if there is one.
pub open spec fn byte_at(input: Seq<u8>, at: int) -> Option<u8> {
    if 0 <= at < input.len() {
        Some(input[at])
    } else {
        None
    }
}

/// The end of the longest run of digits of `input` that starts at `from`.
pub open spec fn digits_end(input: Seq<u8>, from: int) -> int
    decreases input.len() - from,
{
    if 0 <= from < input.len() && is_digit(input[from]) {
        digits_end(input, from + 1)
    } else {
        from
    }
}

/// The number that the digits `input[from..to]` spell in base ten.
pub open spec fn decimal(input: Seq<u8>, from: int, to: int) -> nat
    decreases to - from,
{
    if from >= to {
        0
    } else {
        decimal(input, from, to - 1) * 10 + digit_value(input[to - 1])
    }
}

/// The digits that spell `n` in base ten, without a leading zero; `0` for zero.
pub open spec fn digits_of(n: nat) -> Seq<u8>
    decreases n,
{
    if n < 10 {
        seq![(ZERO + n) as u8]
    } else {
        digits_of(n / 10).push((ZERO + n % 10) as u8)
    }
}

/// A two-component version written out: `major.minor`.
pub open spec fn render_base(major: u64, minor: u64) -> Seq<u8> {
    digits_of(major as nat) + seq![DOT] + digits_of(minor as nat)
}

/// A three-component version written out: `major.minor.patch`.
pub open spec fn render_full(major: u64, minor: u64, patch: u64) -> Seq<u8> {
    render_base(major, minor) + seq![DOT] + digits_of(patch as nat)
}

/// Why an input is not a version number.
pub enum Flaw {
    /// A component was due, and the next byte, if any, is no digit.
    ExpectedNumeric { got: Option<u8> },
    /// A component of two or more digits starts with `0`.
    LeadingZero,
    /// A component is worth more than `u64::MAX`.
    Overflow,
    /// A `.` was due, and the next byte, if any, is another.
    ExpectedSeparator { got: Option<u8> },
    /// Bytes are left after the last component.
    ExpectedEndOfInput { extra: Seq<u8> },
}

impl Flaw {
    /// Whether the flaw lies in how a number is written, not in which byte
    /// stands where.
    pub open spec fn is_numeric(self) -> bool {
        self is LeadingZero || self is Overflow
    }
}

/// What reading one number component yields.
pub enum Scan {
    /// The digits up to `end` spell `value`.
    Number { value: u64, end: int },
    /// The component is refused.
    Refused { flaw: Flaw },
}

/// What the digits `input[from..to]`, at least one, make as a component: they
/// must not begin with `0` unless they are the single digit `0`, and must be
/// worth no more than `u64::MAX`.
pub open spec fn read_digits(input: Seq<u8>, from: int, to: int) -> Scan {
    if input[from] == ZERO && to >= from + 2 {
        Scan::Refused { flaw: Flaw::LeadingZero }
    } else if decimal(input, from, to) > u64::MAX {
        Scan::Refused { flaw: Flaw::Overflow }
    } else {
        Scan::Number { value: decimal(input, from, to) as u64, end: to }
    }
}

/// Reads the number component of `input` that starts at `from`: the longest run
/// of digits there, which must not be empty.
pub open spec fn scan_component(input: Seq<u8>, from: int) -> Scan {
    let end = digits_end(input, from);
    if end == from {
        Scan::Refused { flaw: Flaw::ExpectedNumeric { got: byte_at(input, from) } }
    } else {
        read_digits(input, from, end)
    }
}

/// Whether a `.` stands at `at`.
pub open spec fn dot_at(input: Seq<u8>, at: int) -> bool {
    byte_at(input, at) == Some(DOT)
}

/// Whether no byte is left at `at`.
pub open spec fn exhausted(input: Seq<u8>, at: int) -> bool {
    at >= input.len()
}

/// What a whole input parses to.
pub enum Outcome {
    /// A two-component version.
    Base { major: u64, minor: u64 },
    /// A three-component version.
    Full { major: u64, minor: u64, patch: u64 },
    /// No version: `flaw` says why, and `at` is the offset at which the step
    /// that failed began.
    Rejected { flaw: Flaw, at: int },
}

/// The grammar read in one pass: a component, a `.`, a component; then either
/// the end of the input, or a `.`, a third component and the end of the input.
/// The first step that fails decides the outcome.
pub open spec fn outcome(input: Seq<u8>) -> Outcome {
    match scan_component(input, 0) {
        Scan::Refused { flaw } => Outcome::Rejected { flaw, at: 0 },
        Scan::Number { value: major, end: a } => if !dot_at(input, a) {
            Outcome::Rejected { flaw: Flaw::ExpectedSeparator { got: byte_at(input, a) }, at: a }
        } else {
            match scan_component(input, a + 1) {
                Scan::Refused { flaw } => Outcome::Rejected { flaw, at: a + 1 },
                Scan::Number { value: minor, end: b } => if exhausted(input, b) {
                    Outcome::Base { major, minor }
                } else if !dot_at(input, b) {
                    Outcome::Rejected {
                        flaw: Flaw::ExpectedSeparator { got: byte_at(input, b) },
                        at: b,
                    }
                } else {
                    match scan_component(input, b + 1) {
                        Scan::Refused { flaw } => Outcome::Rejected { flaw, at: b + 1 },
                        Scan::Number { value: patch, end: c } => if exhausted(input, c) {
                            Outcome::Full { major, minor, patch }
                        } else {
                            Outcome::Rejected {
                                flaw: Flaw::ExpectedEndOfInput { extra: input.skip(c) },
                                at: c,
                            }
                        },
                    }
                },
            }
        },
    }
}

/// What one stage of the staged grammar yields.
pub enum Stage<T> {
    /// The stage read `value` and stopped at `end`.
    Read { value: T, end: int },
    /// The stage failed at `at`.
    Failed { flaw: Flaw, at: int },
}

/// The first stage, from `from`: a component, a `.`, a component. What follows
/// is not looked at.
pub open spec fn base_stage(input: Seq<u8>, from: int) -> Stage<(u64, u64)> {
    match scan_component(input, from) {
        Scan::Refused { flaw } => Stage::Failed { flaw, at: from },
        Scan::Number { value: major, end: a } => if !dot_at(input, a) {
            Stage::Failed { flaw: Flaw::ExpectedSeparator { got: byte_at(input, a) }, at: a }
        } else {
            match scan_component(input, a + 1) {
                Scan::Refused { flaw } => Stage::Failed { flaw, at: a + 1 },
                Scan::Number { value: minor, end: b } => Stage::Read {
                    value: (major, minor),
                    end: b,
                },
            }
        },
    }
}

/// The second stage, from `from`: a `.`, then a component.
pub open spec fn patch_stage(input: Seq<u8>, from: int) -> Stage<u64> {
    if !dot_at(input, from) {
        Stage::Failed { flaw: Flaw::ExpectedSeparator { got: byte_at(input, from) }, at: from }
    } else {
        match scan_component(input, from + 1) {
            Scan::Refused { flaw } => Stage::Failed { flaw, at: from + 1 },
            Scan::Number { value, end } => Stage::Read { value, end },
        }
    }
}

/// The last stage, at `from`: nothing may be left. The flaw, if bytes are.
pub open spec fn finish_stage(input: Seq<u8>, from: int) -> Option<Flaw> {
    if exhausted(input, from) {
        None
    } else {
        Some(Flaw::ExpectedEndOfInput { extra: input.skip(from) })
    }
}

/// What follows `major.minor` in the staged grammar, from `from`: if a `.`
/// stands there, the second stage and then the last; if not, the last stage.
pub open spec fn staged_rest(input: Seq<u8>, from: int, major: u64, minor: u64) -> Outcome {
    if dot_at(input, from) {
        match patch_stage(input, from) {
            Stage::Failed { flaw, at } => Outcome::Rejected { flaw, at },
            Stage::Read { value: patch, end } => match finish_stage(input, end) {
                Some(flaw) => Outcome::Rejected { flaw, at: end },
                None => Outcome::Full { major, minor, patch },
            },
        }
    } else {
        match finish_stage(input, from) {
            Some(flaw) => Outcome::Rejected { flaw, at: from },
            None => Outcome::Base { major, minor },
        }
    }
}

/// The grammar read in stages from `from`: the first stage, then the rest.
pub open spec fn staged_outcome(input: Seq<u8>, from: int) -> Outcome {
    match base_stage(input, from) {
        Stage::Failed { flaw, at } => Outcome::Rejected { flaw, at },
        Stage::Read { value, end } => staged_rest(input, end, value.0, value.1),
    }
}

/// A run of digits ends within the input, at or after its start.
pub proof fn lemma_digits_end_bounds(input: Seq<u8>, from: int)
    requires
        0 <= from <= input.len(),
    ensures
        from <= digits_end(input, from) <= input.len(),
        forall|i: int| from <= i < digits_end(input, from) ==> is_digit(#[trigger] input[i]),
        byte_at(input, digits_end(input, from)) matches Some(byte) ==> !is_digit(byte),
    decreases input.len() - from,
{
    if from < input.len() && is_digit(input[from]) {
        lemma_digits_end_bounds(input, from + 1);
    }
}

/// A run of digits that starts at `from` and reaches `to` ends where the run
/// that starts at `to` ends.
pub proof fn lemma_digits_end_extends(input: Seq<u8>, from: int, to: int)
    requires
        0 <= from <= to <= input.len(),
        forall|i: int| from <= i < to ==> is_digit(#[trigger] input[i]),
    ensures
        digits_end(input, from) == digits_end(input, to),
    decreases to - from,
{
    if from < to {
        lemma_digits_end_extends(input, from + 1, to);
    }
}

/// More digits never spell a smaller number.
pub proof fn lemma_decimal_grows(input: Seq<u8>, from: int, mid: int, to: int)
    requires
        from <= mid <= to,
    ensures
        decimal(input, from, mid) <= decimal(input, from, to),
    decreases to - mid,
{
    if mid < to {
        lemma_decimal_grows(input, from, mid, to - 1);
    }
}

/// A run of digits that does not start with `0` is worth at least one.
pub proof fn lemma_decimal_positive(input: Seq<u8>, from: int, to: int)
    requires
        0 <= from < to <= input.len(),
        is_digit(input[from]),
        input[from] != ZERO,
    ensures
        decimal(input, from, to) >= 1,
{
    assert(decimal(input, from, from + 1) == decimal(input, from, from) * 10 + digit_value(
        input[from],
    ));
    lemma_decimal_grows(input, from, from + 1, to);
}

/// Reading one digit more: a refusal stays, a `0` takes no second digit, and a
/// number past `u64::MAX` is an overflow.
pub proof fn lemma_read_one_more_digit(input: Seq<u8>, from: int, to: int)
    requires
        0 <= from < to < input.len(),
        forall|i: int| from <= i <= to ==> is_digit(#[trigger] input[i]),
    ensures
        read_digits(input, from, to + 1) == match read_digits(input, from, to) {
            Scan::Refused { flaw } => Scan::Refused { flaw },
            Scan::Number { value, end } => if value == 0 {
                Scan::Refused { flaw: Flaw::LeadingZero }
            } else if value * 10 + digit_value(input[to]) > u64::MAX {
                Scan::Refused { flaw: Flaw::Overflow }
            } else {
                Scan::Number { value: (value * 10 + digit_value(input[to])) as u64, end: to + 1 }
            },
        },
{
    assert(decimal(input, from, to + 1) == decimal(input, from, to) * 10 + digit_value(input[to]));
    assert(decimal(input, from, from + 1) == decimal(input, from, from) * 10 + digit_value(
        input[from],
    ));
    if input[from] != ZERO {
        lemma_decimal_positive(input, from, to);
    }
}

/// The first digit alone is a number: what the digit is worth.
pub proof fn lemma_read_first_digit(input: Seq<u8>, from: int)
    requires
        0 <= from < input.len(),
        is_digit(input[from]),
    ensures
        read_digits(input, from, from + 1) == (Scan::Number {
            value: digit_value(input[from]) as u64,
            end: from + 1,
        }),
{
    assert(decimal(input, from, from + 1) == decimal(input, from, from) * 10 + digit_value(
        input[from],
    ));
}

/// Whether `byte` is a digit, computed.
pub fn byte_is_digit(byte: u8) -> (is: bool)
    ensures
        is == is_digit(byte),
{
    ZERO <= byte && byte <= NINE
}

} // verus!
