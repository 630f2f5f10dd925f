use crate::diagnostic::diagnosis;
use crate::grammar::{
    byte_at, byte_is_digit, decimal, digit_value, digits_end, dot_at, exhausted, is_digit,
    lemma_decimal_grows, lemma_digits_end_bounds, lemma_digits_end_extends, outcome,
    scan_component, Flaw, Outcome, Scan, DOT, ZERO,
};
use crate::parsers::original::error::{ErrorReason, NumberError, OriginalParserError};
use crate::version::base::BaseVersion;
use crate::version::full::FullVersion;
use crate::Version;
use vstd::prelude::*;
use vstd::slice::{slice_subrange, slice_to_vec};
use vstd::utf8::{decode_utf8, valid_utf8};

verus! {

/// A number in the making: at least one digit has been read.
#[derive(Copy, Clone)]
pub struct NumberConstructor(u64);

impl NumberConstructor {
    /// What the digits read so far are worth.
    pub closed spec fn value(self) -> u64 {
        self.0
    }

    /// Starts a number with its first digit.
    pub fn try_new(digit: u8) -> (number: Result<Self, NumberError>)
        requires
            is_digit(digit),
        ensures
            number matches Ok(n) && n.value() == digit_value(digit),
    {
        Ok(NumberConstructor((digit - ZERO) as u64))
    }

    /// Puts one more digit behind the number. A number that is `0` takes no
    /// further digit, and none takes one that would carry it past `u64::MAX`;
    /// the number is then left as it was.
    pub fn append_digit(&mut self, digit: u8) -> (appended: Result<(), NumberError>)
        requires
            is_digit(digit),
        ensures
            old(self).value() == 0 ==> appended == Err::<(), NumberError>(NumberError::LeadingZero)
                && *final(self) == *old(self),
            old(self).value() != 0 && old(self).value() * 10 + digit_value(digit) > u64::MAX
                ==> appended == Err::<(), NumberError>(NumberError::Overflow) && *final(self)
                == *old(self),
            old(self).value() != 0 && old(self).value() * 10 + digit_value(digit) <= u64::MAX
                ==> appended is Ok && final(self).value() == old(self).value() * 10 + digit_value(
                digit,
            ),
    {
        if self.0 == 0 {
            return Err(NumberError::LeadingZero);
        }
        let next = match self.0.checked_mul(10) {
            Some(tens) => tens.checked_add((digit - ZERO) as u64),
            None => None,
        };
        match next {
            Some(number) => {
                self.0 = number;
                Ok(())
            },
            None => Err(NumberError::Overflow),
        }
    }

    /// The number.
    pub fn as_value(&self) -> (value: u64)
        ensures
            value == self.value(),
    {
        self.0
    }
}

/// The accumulator for one component: nothing yet, or the number that the
/// digits read so far spell.
pub struct NumberComponent(Option<NumberConstructor>);

impl View for NumberComponent {
    type V = Option<u64>;

    closed spec fn view(&self) -> Option<u64> {
        match self.0 {
            Some(number) => Some(number.value()),
            None => None,
        }
    }
}

impl NumberComponent {
    /// An accumulator that has read no digit.
    pub fn new() -> (component: Self)
        ensures
            component@ is None,
    {
        Self(None)
    }

    /// Takes in the digit `token`. After a single `0` no digit is accepted,
    /// and none that would carry the number past `u64::MAX`; the accumulator is
    /// then left as it was.
    pub fn insert_digit(&mut self, token: u8) -> (inserted: Result<(), NumberError>)
        requires
            is_digit(token),
        ensures
            match old(self)@ {
                None => inserted is Ok && final(self)@ == Some(digit_value(token) as u64),
                Some(value) => if value == 0 {
                    inserted == Err::<(), NumberError>(NumberError::LeadingZero) && final(self)@
                        == old(self)@
                } else if value * 10 + digit_value(token) > u64::MAX {
                    inserted == Err::<(), NumberError>(NumberError::Overflow) && final(self)@
                        == old(self)@
                } else {
                    inserted is Ok && final(self)@ == Some(
                        (value * 10 + digit_value(token)) as u64,
                    )
                },
            },
    {
        match &mut self.0 {
            Some(number) => number.append_digit(token),
            None => {
                match NumberConstructor::try_new(token) {
                    Ok(number) => {
                        self.0 = Some(number);
                        Ok(())
                    },
                    Err(error) => Err(error),
                }
            },
        }
    }

    /// The number read so far, if any digit was read.
    pub fn get(&self) -> (number: Option<NumberConstructor>)
        ensures
            match number {
                Some(n) => self@ == Some(n.value()),
                None => self@ is None,
            },
    {
        self.0
    }
}

/// The one-pass parser over a slice of bytes.
pub struct Parser<'slice> {
    pub(crate) slice: &'slice [u8],
}

impl<'slice> View for Parser<'slice> {
    type V = Seq<u8>;

    closed spec fn view(&self) -> Seq<u8> {
        self.slice@
    }
}

impl<'slice> Parser<'slice> {
    /// The parser for the bytes of `slice`.
    pub closed spec fn over(slice: &'slice [u8]) -> Self {
        Parser { slice }
    }

    /// The parser for the bytes of `slice` reads those bytes.
    pub proof fn lemma_over_reads(slice: &'slice [u8])
        ensures
            Parser::over(slice)@ == slice@,
    {
    }

    /// A parser for the bytes of `slice`.
    pub fn from_slice(slice: &'slice [u8]) -> (parser: Self)
        ensures
            parser == Parser::over(slice),
            parser@ == slice@,
    {
        Parser { slice }
    }

    /// The bytes that the parser reads.
    pub(crate) fn bytes(&self) -> (bytes: &'slice [u8])
        ensures
            bytes@ == self@,
    {
        self.slice
    }

    /// Parses the whole input as a two- or three-component version.
    ///
    /// The result is what the grammar says of the input: the version, or a
    /// diagnostic with the input as text, the reason, and the offset at which
    /// the failing step began, unless the reason is a number's notation.
    pub fn parse(&self) -> (result: Result<Version, OriginalParserError>)
        ensures
            match outcome(self@) {
                Outcome::Base { major, minor } => result == Ok::<Version, OriginalParserError>(
                    Version::Base(BaseVersion { major, minor }),
                ),
                Outcome::Full { major, minor, patch } => result == Ok::<
                    Version,
                    OriginalParserError,
                >(Version::Full(FullVersion { major, minor, patch })),
                Outcome::Rejected { flaw, at } => result matches Err(error) && error@ == diagnosis(
                    self@,
                    flaw,
                    at,
                ),
            },
            result matches Err(error) ==> (valid_utf8(self@) ==> error@.raw_input == decode_utf8(
                self@,
            )),
            result matches Err(error) ==> (error@.cursor matches Some(cursor) ==> cursor
                <= self@.len()),
    {
        let mut cursor: usize = 0;

        let first = match self.parse_number(&mut cursor) {
            Ok(number) => number,
            Err(error) => return Err(error),
        };
        match self.parse_dot(&mut cursor) {
            Ok(()) => {},
            Err(error) => return Err(error),
        }
        let second = match self.parse_number(&mut cursor) {
            Ok(number) => number,
            Err(error) => return Err(error),
        };

        if self.is_done(cursor) {
            return Ok(
                Version::Base(BaseVersion { major: first.as_value(), minor: second.as_value() }),
            );
        }
        match self.parse_dot(&mut cursor) {
            Ok(()) => {},
            Err(error) => return Err(error),
        }
        let third = match self.parse_number(&mut cursor) {
            Ok(number) => number,
            Err(error) => return Err(error),
        };

        if self.is_done(cursor) {
            return Ok(
                Version::Full(
                    FullVersion {
                        major: first.as_value(),
                        minor: second.as_value(),
                        patch: third.as_value(),
                    },
                ),
            );
        }
        let extra_input = slice_to_vec(slice_subrange(self.slice, cursor, self.slice.len()));
        Err(
            OriginalParserError::from_parser_with_cursor(
                self,
                cursor,
                ErrorReason::ExpectedEndOfInput { extra_input },
            ),
        )
    }

    /// Reads the number component at `cursor` and moves `cursor` behind it.
    fn parse_number(&self, cursor: &mut usize) -> (result: Result<
        NumberConstructor,
        OriginalParserError,
    >)
        requires
            *old(cursor) <= self@.len(),
        ensures
            match scan_component(self@, *old(cursor) as int) {
                Scan::Number { value, end } => result matches Ok(number) && number.value() == value
                    && *final(cursor) == end,
                Scan::Refused { flaw } => result matches Err(error) && error@ == diagnosis(
                    self@,
                    flaw,
                    *old(cursor) as int,
                ),
            },
            result matches Err(error) ==> (valid_utf8(self@) ==> error@.raw_input == decode_utf8(
                self@,
            )),
            *old(cursor) <= *final(cursor) <= self@.len(),
    {
        let ghost start = *cursor as int;
        let ghost input = self@;
        let mut value = NumberComponent::new();

        while *cursor < self.slice.len()
            invariant_except_break
                input == self@,
                start == *old(cursor),
                start <= *cursor <= input.len(),
                forall|i: int| start <= i < *cursor ==> is_digit(#[trigger] input[i]),
                match value@ {
                    None => *cursor == start,
                    Some(number) => {
                        &&& *cursor > start
                        &&& number == decimal(input, start, *cursor as int)
                        &&& input[start] == ZERO ==> *cursor == start + 1
                        &&& input[start] == ZERO <==> number == 0
                    },
                },
            ensures
                input == self@,
                start == *old(cursor),
                start <= *cursor <= input.len(),
                forall|i: int| start <= i < *cursor ==> is_digit(#[trigger] input[i]),
                byte_at(input, *cursor as int) matches Some(byte) ==> !is_digit(byte),
                match value@ {
                    None => *cursor == start,
                    Some(number) => {
                        &&& *cursor > start
                        &&& number == decimal(input, start, *cursor as int)
                        &&& input[start] == ZERO ==> *cursor == start + 1
                    },
                },
            decreases input.len() - *cursor,
        {
            let byte = self.slice[*cursor];
            if !byte_is_digit(byte) {
                break ;
            }
            proof {
                assert(decimal(input, start, *cursor + 1) == decimal(input, start, *cursor as int)
                    * 10 + digit_value(byte));
            }
            match value.insert_digit(byte) {
                Ok(()) => {},
                Err(error) => {
                    proof {
                        let end = digits_end(input, start);
                        lemma_digits_end_extends(input, start, *cursor + 1);
                        lemma_digits_end_bounds(input, *cursor + 1);
                        lemma_decimal_grows(input, start, *cursor + 1, end);
                    }
                    return Err(OriginalParserError::from_parser(self, ErrorReason::from(error)));
                },
            }
            *cursor += 1;
        }

        proof {
            lemma_digits_end_extends(input, start, *cursor as int);
        }
        match value.get() {
            Some(number) => Ok(number),
            None => {
                let got = if *cursor < self.slice.len() {
                    Some(self.slice[*cursor])
                } else {
                    None
                };
                Err(
                    OriginalParserError::from_parser_with_cursor(
                        self,
                        *cursor,
                        ErrorReason::ExpectedNumericToken { got },
                    ),
                )
            },
        }
    }

    /// Reads the separator at `cursor` and moves `cursor` behind it. Where
    /// another byte stands there, or none, `cursor` stays.
    fn parse_dot(&self, cursor: &mut usize) -> (result: Result<(), OriginalParserError>)
        ensures
            *old(cursor) <= self@.len() ==> *final(cursor) <= self@.len(),
            dot_at(self@, *old(cursor) as int) ==> result is Ok && *final(cursor) == *old(cursor)
                + 1,
            !dot_at(self@, *old(cursor) as int) ==> *final(cursor) == *old(cursor) && (
            result matches Err(error) && error@ == diagnosis(
                self@,
                Flaw::ExpectedSeparator { got: byte_at(self@, *old(cursor) as int) },
                *old(cursor) as int,
            )),
            result matches Err(error) ==> (valid_utf8(self@) ==> error@.raw_input == decode_utf8(
                self@,
            )),
    {
        if *cursor < self.slice.len() {
            let byte = self.slice[*cursor];
            if byte == DOT {
                *cursor += 1;
                Ok(())
            } else {
                Err(
                    OriginalParserError::from_parser_with_cursor(
                        self,
                        *cursor,
                        ErrorReason::ExpectedSeparator { got: Some(byte) },
                    ),
                )
            }
        } else {
            Err(
                OriginalParserError::from_parser_with_cursor(
                    self,
                    *cursor,
                    ErrorReason::ExpectedSeparator { got: None },
                ),
            )
        }
    }

    /// Whether no input is left at `cursor`.
    fn is_done(&self, cursor: usize) -> (done: bool)
        ensures
            done == exhausted(self@, cursor as int),
    {
        cursor >= self.slice.len()
    }
}

impl<'b, T> From<T> for Parser<'b> where T: Into<&'b [u8]> {
    /// A parser for the bytes that `item` converts into.
    fn from(item: T) -> (parser: Self) {
        Parser { slice: item.into() }
    }
}

impl<'b, T> vstd::std_specs::convert::FromSpecImpl<T> for Parser<'b> where T: Into<&'b [u8]> {
    open spec fn obeys_from_spec() -> bool {
        <T as vstd::std_specs::convert::IntoSpec<&'b [u8]>>::obeys_into_spec()
    }

    open spec fn from_spec(item: T) -> Self {
        Parser::over(<T as vstd::std_specs::convert::IntoSpec<&'b [u8]>>::into_spec(item))
    }
}

} // verus!
