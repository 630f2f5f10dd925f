//! The steps that the stages are made of: a number component, the separator,
//! the end of the input.

use crate::grammar::{
    byte_at, byte_is_digit, digit_value, digits_end, dot_at, exhausted, is_digit,
    lemma_digits_end_extends, lemma_read_first_digit, lemma_read_one_more_digit, read_digits,
    scan_component, Scan, DOT, ZERO,
};
use crate::parsers::modular::error::{ModularParserError, NumberError};
use crate::parsers::modular::take_while_peekable::{PeekableSlice, TakeWhilePeekable};
use vstd::prelude::*;

verus! {

/// What a component parser returns for `scan`.
pub open spec fn component_result(scan: Scan) -> Result<u64, ModularParserError> {
    match scan {
        Scan::Number { value, end } => Ok(value),
        Scan::Refused { flaw } => Err(ModularParserError::report(flaw)),
    }
}

/// Whether `token` is a digit.
pub fn is_digit_token(token: &u8) -> (is: bool)
    ensures
        is == is_digit(*token),
{
    byte_is_digit(*token)
}

/// Takes the digit `token` into `state`, the component read so far. Before the
/// first digit the state is the error that a component without digits gets.
fn take_digit(state: Result<u64, ModularParserError>, token: u8) -> (next: Result<
    u64,
    ModularParserError,
>)
    requires
        is_digit(token),
    ensures
        next == match state {
            Ok(value) => if value == 0 {
                Err(ModularParserError::NumberError(NumberError::LeadingZero))
            } else if value * 10 + digit_value(token) > u64::MAX {
                Err(ModularParserError::NumberError(NumberError::Overflow))
            } else {
                Ok((value * 10 + digit_value(token)) as u64)
            },
            Err(ModularParserError::ExpectedNumericToken { got }) => Ok(digit_value(token) as u64),
            Err(error) => Err(error),
        },
{
    let digit = (token - ZERO) as u64;
    match state {
        Ok(0) => Err(ModularParserError::NumberError(NumberError::LeadingZero)),
        Ok(value) => match value.checked_mul(10) {
            Some(tens) => match tens.checked_add(digit) {
                Some(number) => Ok(number),
                None => Err(ModularParserError::NumberError(NumberError::Overflow)),
            },
            None => Err(ModularParserError::NumberError(NumberError::Overflow)),
        },
        Err(ModularParserError::ExpectedNumericToken { .. }) => Ok(digit),
        Err(error) => Err(error),
    }
}

/// Parses one component of a version: the number between the separators. The
/// function knows neither which component it reads nor anything of the `.`.
///
/// A component is `0`, or starts with one of `1` to `9`: `0`, `1`, `39` and
/// `90` are components, `00`, `01` and `09273` are not. All the digits at the
/// front of `input` are taken, also where the component is refused.
pub fn parse_component(input: &mut PeekableSlice<'_, u8>) -> (result: Result<
    u64,
    ModularParserError,
>)
    ensures
        final(input).source() == old(input).source(),
        final(input).position() == digits_end(old(input).source(), old(input).position() as int),
        result == component_result(scan_component(old(input).source(), old(input).position() as int)),
{
    let ghost source = input.source();
    let ghost start = input.position() as int;
    let got = match input.peek() {
        Some(token) => Some(*token),
        None => None,
    };
    let mut state: Result<u64, ModularParserError> = Err(
        ModularParserError::ExpectedNumericToken { got },
    );
    let mut digits = input.take_while_peekable(is_digit_token);
    loop
        invariant_except_break
            forall|item: &u8| call_requires(digits.pred, (item,)),
            forall|item: &u8, is: bool|
                call_ensures(digits.pred, (item,), is) ==> is == is_digit(*item),
            digits.iter.source() == source,
            0 <= start <= digits.iter.position() <= source.len(),
            forall|i: int| start <= i < digits.iter.position() ==> is_digit(#[trigger] source[i]),
            *after_borrow(input) == *final(digits.iter),
            digits.iter.position() == start ==> state == Err::<u64, ModularParserError>(
                ModularParserError::ExpectedNumericToken { got: byte_at(source, start) },
            ),
            digits.iter.position() > start ==> state == component_result(
                read_digits(source, start, digits.iter.position() as int),
            ),
        ensures
            digits.iter.source() == source,
            0 <= start <= digits.iter.position() <= source.len(),
            digits.iter.position() == digits_end(source, start),
            *after_borrow(input) == *final(digits.iter),
            state == component_result(scan_component(source, start)),
        decreases source.len() - digits.iter.position(),
    {
        let ghost at = digits.iter.position() as int;
        match digits.next() {
            Some(next) => {
                proof {
                    if at == start {
                        lemma_read_first_digit(source, start);
                    } else {
                        lemma_read_one_more_digit(source, start, at);
                    }
                }
                state = take_digit(state, *next);
            },
            None => {
                proof {
                    lemma_digits_end_extends(source, start, at);
                }
                break ;
            },
        }
    }
    state
}

/// Whether the next byte is a `.`. Nothing is taken from `input`.
pub fn peek_is_dot(input: &mut PeekableSlice<'_, u8>) -> (is_dot: bool)
    ensures
        *final(input) == *old(input),
        is_dot == dot_at(old(input).source(), old(input).position() as int),
{
    match input.peek() {
        Some(token) => *token == DOT,
        None => false,
    }
}

/// Takes the next byte if it is a `.`. Where another byte stands there, or
/// none, `input` is left as it was.
pub fn parse_dot(input: &mut PeekableSlice<'_, u8>) -> (result: Result<(), ModularParserError>)
    ensures
        final(input).source() == old(input).source(),
        dot_at(old(input).source(), old(input).position() as int) ==> {
            &&& result is Ok
            &&& final(input).position() == old(input).position() + 1
        },
        !dot_at(old(input).source(), old(input).position() as int) ==> *final(input) == *old(input)
            && result == Err::<(), ModularParserError>(
            ModularParserError::ExpectedSeparator {
                got: byte_at(old(input).source(), old(input).position() as int),
            },
        ),
{
    match input.peek() {
        Some(token) => {
            if *token == DOT {
                let _ = input.next();
                Ok(())
            } else {
                Err(ModularParserError::ExpectedSeparator { got: Some(*token) })
            }
        },
        None => Err(ModularParserError::ExpectedSeparator { got: None }),
    }
}

/// Succeeds if no byte is left, and reports the next byte if one is. Nothing
/// is taken from `input`.
pub fn is_done(input: &mut PeekableSlice<'_, u8>) -> (result: Result<(), ModularParserError>)
    ensures
        *final(input) == *old(input),
        exhausted(old(input).source(), old(input).position() as int) ==> result is Ok,
        !exhausted(old(input).source(), old(input).position() as int) ==> result == Err::<
            (),
            ModularParserError,
        >(
            ModularParserError::ExpectedEndOfInput {
                got: old(input).source()[old(input).position() as int],
            },
        ),
{
    match input.peek() {
        Some(token) => Err(ModularParserError::ExpectedEndOfInput { got: *token }),
        None => Ok(()),
    }
}

} // verus!
