//! The steps of the staged parser, with errors that are plain codes.

use crate::grammar::{digits_end, dot_at, exhausted, scan_component, Scan};
use crate::parser::error::ParseError;
use crate::parsers::modular::component;
use crate::parsers::modular::PeekableSlice;
use vstd::prelude::*;

verus! {

/// What a component parser with plain codes returns for `scan`.
pub open spec fn component_code(scan: Scan) -> Result<u64, ParseError> {
    match scan {
        Scan::Number { value, end } => Ok(value),
        Scan::Refused { flaw } => Err(ParseError::report(flaw)),
    }
}

/// Parses one number component. All the digits at the front of `input` are
/// taken, also where the component is refused.
pub fn parse_component(input: &mut PeekableSlice<'_, u8>) -> (result: Result<u64, ParseError>)
    ensures
        final(input).source() == old(input).source(),
        final(input).position() == digits_end(old(input).source(), old(input).position() as int),
        result == component_code(scan_component(old(input).source(), old(input).position() as int)),
{
    match component::parse_component(input) {
        Ok(number) => Ok(number),
        Err(error) => Err(ParseError::from(error)),
    }
}

/// Whether a `.` follows, so that a third component may. Nothing is taken
/// from `input`.
pub fn maybe_can_continue(input: &mut PeekableSlice<'_, u8>) -> (can: bool)
    ensures
        *final(input) == *old(input),
        can == dot_at(old(input).source(), old(input).position() as int),
{
    component::peek_is_dot(input)
}

/// Takes the next byte if it is a `.`. Where another byte stands there, or
/// none, `input` is left as it was.
pub fn parse_dot(input: &mut PeekableSlice<'_, u8>) -> (result: Result<(), ParseError>)
    ensures
        final(input).source() == old(input).source(),
        dot_at(old(input).source(), old(input).position() as int) ==> {
            &&& result is Ok
            &&& final(input).position() == old(input).position() + 1
        },
        !dot_at(old(input).source(), old(input).position() as int) ==> {
            &&& *final(input) == *old(input)
            &&& result == Err::<(), ParseError>(ParseError::ExpectedSeparator)
        },
{
    match component::parse_dot(input) {
        Ok(()) => Ok(()),
        Err(error) => Err(ParseError::from(error)),
    }
}

/// Succeeds if no byte is left. Nothing is taken from `input`.
pub fn is_done(input: &mut PeekableSlice<'_, u8>) -> (result: Result<(), ParseError>)
    ensures
        *final(input) == *old(input),
        exhausted(old(input).source(), old(input).position() as int) ==> result is Ok,
        !exhausted(old(input).source(), old(input).position() as int) ==> result == Err::<
            (),
            ParseError,
        >(ParseError::ExpectedEOI),
{
    match component::is_done(input) {
        Ok(()) => Ok(()),
        Err(error) => Err(ParseError::from(error)),
    }
}

} // verus!
