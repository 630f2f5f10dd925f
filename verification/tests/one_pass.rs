use version_number::parser::{Error, ErrorReason, NumberError, Parser};
use version_number::parsers::error::{ExpectedError, NumericError};
use version_number::parsers::original;
use version_number::parsers::original::{OriginalParser, OriginalParserError};
use version_number::{
    BaseVersion, BaseVersionParser, FullVersion, FullVersionParser, ParserError, Version,
    VersionParser,
};

fn reason_of(input: &str) -> ErrorReason {
    Parser::from_slice(input.as_bytes())
        .parse()
        .unwrap_err()
        .reason()
        .clone()
}

fn diagnostic_of(input: &str) -> Error {
    Parser::from_slice(input.as_bytes()).parse().unwrap_err()
}

#[test]
fn two_component() {
    let p = Parser::from_slice("123.456".as_bytes());
    let version = p.parse().unwrap();

    assert_eq!(version, Version::new_base_version(123, 456))
}

#[test]
fn three_component() {
    let p = Parser::from_slice("123.456.789".as_bytes());
    let version = p.parse().unwrap();

    assert_eq!(version, Version::new_full_version(123, 456, 789))
}

#[test]
fn three_component_parse_ok_variations() {
    for (input, expected) in [
        ("10.101.100", (10, 101, 100)),
        ("1.2.3", (1, 2, 3)),
        ("1.0.0", (1, 0, 0)),
        ("2.0.0", (2, 0, 0)),
    ] {
        let outcome = Parser::from_slice(input.as_bytes()).parse().unwrap();

        assert_eq!(outcome, Version::from(expected));
    }
}

#[test]
fn starts_with_zero() {
    for input in ["0123.456.789", "123.0456.789", "123.456.0789"] {
        let result = Parser::from_slice(input.as_bytes()).parse();

        assert_eq!(
            result.unwrap_err().reason(),
            &ErrorReason::NumberError(NumberError::LeadingZero)
        );
    }
}

#[test]
fn has_zero_component() {
    for input in [
        "0.456.789",
        "123.0.789",
        "123.456.0",
        "0.0.123",
        "0.123.0",
        "123.0.0",
        "0.0.0",
        "0.123",
        "123.0",
        "0.0",
    ] {
        let value = Parser::from_slice(input.as_bytes()).parse().unwrap();

        assert!(
            value.major() == 0
                || value.minor() == 0
                || (value.patch().is_some() && value.patch().unwrap() == 0)
        );
    }
}

#[test]
fn failure_variations() {
    let overflow0 = format!("{}.1.2", u128::from(u64::MAX) + 1);
    let overflow1 = format!("1.{}.2", u128::from(u64::MAX) + 1);
    let overflow2 = format!("1.2.{}", u128::from(u64::MAX) + 1);
    for input in [
        "",
        "1",
        "1.",
        ".1.0.0",
        "1.0.0.",
        "1,0,0",
        "1. 0. 0",
        " 1.0.0",
        "1.0.0 ",
        "1..0.0 ",
        "1.0. ",
        "0.\u{200B}1.0",
        "^0.1.0",
        "~0.1.0",
        "=0.1.0",
        overflow0.as_str(),
        overflow1.as_str(),
        overflow2.as_str(),
        "1e.0.0",
        "1.0p.0",
        "1.0.j",
    ] {
        let result = Parser::from_slice(input.as_bytes()).parse();

        assert!(result.is_err(), "{input:?} should not parse");
    }
}

#[test]
fn the_two_names_of_the_one_pass_parser_are_one_type() {
    let parser: original::Parser = Parser::from_slice("1.2".as_bytes());
    let error: OriginalParserError = diagnostic_of("1");

    assert_eq!(parser.parse().unwrap(), Version::new_base_version(1, 2));
    assert_eq!(error.cursor(), Some(1));
}

#[test]
fn largest_component_is_accepted_and_the_next_number_overflows() {
    let version = Parser::from_slice("18446744073709551615.0".as_bytes())
        .parse()
        .unwrap();
    assert_eq!(version, Version::new_base_version(u64::MAX, 0));

    let version = Parser::from_slice(
        "18446744073709551615.18446744073709551615.18446744073709551615".as_bytes(),
    )
    .parse()
    .unwrap();
    assert_eq!(
        version,
        Version::new_full_version(u64::MAX, u64::MAX, u64::MAX)
    );

    assert_eq!(
        reason_of("18446744073709551616.0"),
        ErrorReason::NumberError(NumberError::Overflow)
    );
    assert_eq!(
        reason_of("1.18446744073709551616"),
        ErrorReason::NumberError(NumberError::Overflow)
    );
    assert_eq!(
        reason_of("1.2.99999999999999999999999999"),
        ErrorReason::NumberError(NumberError::Overflow)
    );
    // the product fits, the sum does not
    assert_eq!(
        reason_of("18446744073709551619.0"),
        ErrorReason::NumberError(NumberError::Overflow)
    );
}

#[test]
fn component_count_decides_the_shape() {
    assert_eq!(
        Parser::from_slice(b"1.2").parse().unwrap(),
        Version::Base(BaseVersion::new(1, 2))
    );
    assert_eq!(
        Parser::from_slice(b"1.2.3").parse().unwrap(),
        Version::Full(FullVersion::new(1, 2, 3))
    );
    assert_eq!(
        reason_of("1.2.3.4"),
        ErrorReason::ExpectedEndOfInput {
            extra_input: b".4".to_vec()
        }
    );
}

#[test]
fn single_component_wants_a_separator() {
    let error = diagnostic_of("1");

    assert_eq!(error.reason(), &ErrorReason::ExpectedSeparator { got: None });
    assert_eq!(error.cursor(), Some(1));
    assert_eq!(error.input(), "1");
}

#[test]
fn labels_and_other_separators_are_rejected() {
    let error = diagnostic_of("1.0.0-alpha");
    assert_eq!(
        error.reason(),
        &ErrorReason::ExpectedEndOfInput {
            extra_input: b"-alpha".to_vec()
        }
    );
    assert_eq!(error.cursor(), Some(5));

    let error = diagnostic_of("1,1");
    assert_eq!(
        error.reason(),
        &ErrorReason::ExpectedSeparator { got: Some(b',') }
    );
    assert_eq!(error.cursor(), Some(1));
}

#[test]
fn a_missing_component_names_what_was_found() {
    let error = diagnostic_of("");
    assert_eq!(
        error.reason(),
        &ErrorReason::ExpectedNumericToken { got: None }
    );
    assert_eq!(error.cursor(), Some(0));

    let error = diagnostic_of("1.");
    assert_eq!(
        error.reason(),
        &ErrorReason::ExpectedNumericToken { got: None }
    );
    assert_eq!(error.cursor(), Some(2));

    let error = diagnostic_of("1.x");
    assert_eq!(
        error.reason(),
        &ErrorReason::ExpectedNumericToken { got: Some(b'x') }
    );
    assert_eq!(error.cursor(), Some(2));

    let error = diagnostic_of("1.2.");
    assert_eq!(
        error.reason(),
        &ErrorReason::ExpectedNumericToken { got: None }
    );
    assert_eq!(error.cursor(), Some(4));
}

#[test]
fn a_number_error_has_no_place() {
    let error = diagnostic_of("1.01");
    assert_eq!(
        error.reason(),
        &ErrorReason::NumberError(NumberError::LeadingZero)
    );
    assert_eq!(error.cursor(), None);

    let error = diagnostic_of("18446744073709551616.0");
    assert_eq!(error.cursor(), None);
}

#[test]
fn a_byte_after_the_base_wants_a_separator() {
    let error = diagnostic_of("1.2x");

    assert_eq!(
        error.reason(),
        &ErrorReason::ExpectedSeparator { got: Some(b'x') }
    );
    assert_eq!(error.cursor(), Some(3));
}

#[test]
fn zeros_are_components() {
    assert_eq!(
        Parser::from_slice(b"0.0").parse().unwrap(),
        Version::new_base_version(0, 0)
    );
    assert_eq!(
        Parser::from_slice(b"0.0.0").parse().unwrap(),
        Version::new_full_version(0, 0, 0)
    );
    assert_eq!(
        reason_of("00.0"),
        ErrorReason::NumberError(NumberError::LeadingZero)
    );
    assert_eq!(
        reason_of("0.00"),
        ErrorReason::NumberError(NumberError::LeadingZero)
    );
    assert_eq!(
        reason_of("0.0.00"),
        ErrorReason::NumberError(NumberError::LeadingZero)
    );
}

#[test]
fn bytes_that_are_not_text_are_rejected() {
    let error = Parser::from_slice(&[b'1', b'.', 0xff]).parse().unwrap_err();

    assert_eq!(
        error.reason(),
        &ErrorReason::ExpectedNumericToken { got: Some(0xff) }
    );
    assert_eq!(error.input(), "1.\u{fffd}");
}

#[test]
fn diagnostics_can_be_cloned() {
    let error = diagnostic_of("1.2.3.4");
    let copy = error.clone();

    assert_eq!(copy.reason(), error.reason());
    assert_eq!(copy.cursor(), error.cursor());
    assert_eq!(copy.input(), error.input());
}

#[test]
fn number_errors_become_reasons() {
    assert_eq!(
        ErrorReason::from(NumberError::Overflow),
        ErrorReason::NumberError(NumberError::Overflow)
    );
}

#[test]
fn version_parse_uses_the_one_pass_parser() {
    assert_eq!(
        Version::parse("1.27").unwrap(),
        Version::new_base_version(1, 27)
    );
    assert_eq!(
        Version::parse("1.27.0").unwrap(),
        Version::new_full_version(1, 27, 0)
    );
    let version_number::Error::ParseError(error) = Version::parse("1.27.").unwrap_err();
    assert_eq!(
        error.reason(),
        &ErrorReason::ExpectedNumericToken { got: None }
    );
    assert_eq!(error.input(), "1.27.");
}

#[test]
fn original_parser_reports_places() {
    let original = OriginalParser;

    assert_eq!(
        original.parse_version(b"1,1").unwrap_err(),
        ParserError::Expected(ExpectedError::Separator {
            at: Some(1),
            got: Some(',')
        })
    );
    assert_eq!(
        original.parse_version(b"1.2.3.4").unwrap_err(),
        ParserError::Expected(ExpectedError::EndOfInput {
            at: Some(5),
            got: '.'
        })
    );
    assert_eq!(
        original.parse_version(b"a").unwrap_err(),
        ParserError::Expected(ExpectedError::Numeric {
            at: Some(0),
            got: Some('a')
        })
    );
    assert_eq!(
        original.parse_version(b"01.1").unwrap_err(),
        ParserError::Numeric(NumericError::LeadingZero)
    );
    assert_eq!(
        original.parse_version(b"1.99999999999999999999").unwrap_err(),
        ParserError::Numeric(NumericError::Overflow)
    );
}

#[test]
fn original_parser_asked_for_one_shape() {
    let original = OriginalParser;

    assert_eq!(original.parse_base(b"1.2").unwrap(), BaseVersion::new(1, 2));
    assert_eq!(
        original.parse_base(b"1.2.34").unwrap_err(),
        ParserError::Expected(ExpectedError::EndOfInput {
            at: None,
            got: '.'
        })
    );
    assert_eq!(
        original.parse_base(b"1.2.").unwrap_err(),
        ParserError::Expected(ExpectedError::Numeric {
            at: Some(4),
            got: None
        })
    );
    assert_eq!(
        original.parse_full(b"1.2.3").unwrap(),
        FullVersion::new(1, 2, 3)
    );
    assert_eq!(
        original.parse_full(b"1.2").unwrap_err(),
        ParserError::Expected(ExpectedError::Separator {
            at: None,
            got: None
        })
    );
    assert_eq!(
        original.parse_full(b"1.2.3 ").unwrap_err(),
        ParserError::Expected(ExpectedError::EndOfInput {
            at: Some(5),
            got: ' '
        })
    );
}
