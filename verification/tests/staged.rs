use version_number::parsers::error::{ExpectedError, NumericError};
use version_number::parsers::modular::component::{
    is_done, parse_component, parse_dot, peek_is_dot,
};
use version_number::parsers::modular::{
    ModularParser, ModularParserError, NumberError, Parser, PeekableSlice,
};
use version_number::parsers::original::OriginalParser;
use version_number::{
    BaseVersion, BaseVersionParser, FullVersion, FullVersionParser, ParserError, Version,
    VersionParser,
};

#[test]
fn parse_version_either() {
    let input = "1.22.33";
    let expected = Version::new_full_version(1, 22, 33);

    let original = OriginalParser;
    let v = original.parse_version(input.as_bytes()).unwrap();
    assert_eq!(v, expected);

    let modular = ModularParser;
    let v = modular.parse_version(input.as_bytes()).unwrap();
    assert_eq!(v, expected);
}

fn example_generic<T: VersionParser>(input: &str, p: T) -> Version {
    p.parse_version(input.as_bytes()).unwrap()
}

#[test]
fn parse_version_either_generic() {
    let input = "1.22.33";
    let expected = Version::new_full_version(1, 22, 33);

    let v = example_generic(input, OriginalParser);
    assert_eq!(v, expected);

    let v = example_generic(input, ModularParser);
    assert_eq!(v, expected);
}

#[test]
fn parser_test() {}

#[test]
fn parser_accepted_leading_zeros() {
    for (input, major, minor) in [("0.0", 0, 0), ("1.0", 1, 0), ("1.1", 1, 1)] {
        let input = input.as_bytes();
        let parsed = Parser::from_slice(input)
            .parse_base()
            .and_then(|parser| parser.finish_base_version())
            .unwrap();

        assert_eq!(BaseVersion::new(major, minor), parsed);
    }
}

#[test]
fn parser_rejected_leading_zeros() {
    for input in ["00.0", "01.0", "1.01"] {
        let input = input.as_bytes();
        let err = Parser::from_slice(input)
            .parse_base()
            .and_then(|parser| parser.finish_base_version())
            .unwrap_err();

        assert_eq!(
            err,
            ModularParserError::NumberError(NumberError::LeadingZero)
        );
    }
}

#[test]
fn parser_accepted() {
    for (input, major, minor) in [("0.0", 0, 0), ("1.0", 1, 0), ("1.1", 1, 1)] {
        let parser = Parser::from_slice(input.as_bytes());

        let base = parser.parse_base().unwrap();
        let version = base.inner_version();

        assert_eq!(&BaseVersion::new(major, minor), version);

        let version = base.finish().unwrap();
        assert_eq!(Version::new_base_version(major, minor), version);
    }
}

#[test]
fn parser_rejected_on_no_input() {
    let input = "";
    let parser = Parser::from_slice(input.as_bytes());
    let err = parser.parse_base().unwrap_err();

    assert_eq!(err, ModularParserError::ExpectedNumericToken { got: None });
}

#[test]
fn parser_rejected_on_no_input2() {
    let input = "1.";
    let parser = Parser::from_slice(input.as_bytes());
    let err = parser.parse_base().unwrap_err();

    assert_eq!(err, ModularParserError::ExpectedNumericToken { got: None });
}

#[test]
fn parser_rejected_on_overflow() {
    // u64::MAX is accepted
    let input = format!("{}.{}5", u64::MAX, 1844674407370955161_u64);
    let parser = Parser::from_slice(input.as_bytes());
    assert!(parser.parse_base().is_ok());

    // but u64::MAX+1 overflows
    let input = format!("{}6.0", 1844674407370955161_u64);
    let parser = Parser::from_slice(input.as_bytes());
    let err = parser.parse_base().unwrap_err();

    assert_eq!(err, ModularParserError::NumberError(NumberError::Overflow));
}

#[test]
fn parser_rejected_on_separator_expected() {
    let input = "1";
    let parser = Parser::from_slice(input.as_bytes());
    let err = parser.parse_base().unwrap_err();

    assert_eq!(err, ModularParserError::ExpectedSeparator { got: None });
}

#[test]
fn parser_rejected_on_eoi_expected() {
    let input = "1.0.0";
    let parser = Parser::from_slice(input.as_bytes());
    let err = parser.parse_base().unwrap().finish().unwrap_err();

    assert_eq!(err, ModularParserError::ExpectedEndOfInput { got: b'.' });
}

#[test]
fn parser_rejected_on_leading_zero_not_allowed() {
    let input = "1.01";
    let parser = Parser::from_slice(input.as_bytes());
    let err = parser.parse_base().unwrap_err();

    assert_eq!(
        err,
        ModularParserError::NumberError(NumberError::LeadingZero)
    );
}

#[test]
fn parser_rejected_on_leading_zero_in_either_component() {
    for input in ["01.9", "00.9", "9.01", "9.00"] {
        let parser = Parser::from_slice(input.as_bytes());
        let err = parser.parse_base().unwrap_err();

        assert_eq!(
            err,
            ModularParserError::NumberError(NumberError::LeadingZero)
        );
    }
}

#[test]
fn base_ok() {
    let version = BaseVersion::parse("1.2").unwrap();

    assert_eq!(version, BaseVersion::new(1, 2));
}

#[test]
fn err_on_major_only() {
    let result = BaseVersion::parse("1");

    assert!(matches!(
        result.unwrap_err(),
        ParserError::Expected(ExpectedError::Separator { .. })
    ));
}

#[test]
fn base_err_on_not_finished() {
    let result = BaseVersion::parse("1.2.3");

    assert!(matches!(
        result.unwrap_err(),
        ParserError::Expected(ExpectedError::EndOfInput { .. })
    ));
}

#[test]
fn base_err_on_starts_with_0() {
    let result = BaseVersion::parse("1.02");

    assert!(matches!(
        result.unwrap_err(),
        ParserError::Numeric(NumericError::LeadingZero)
    ));
}

#[test]
fn full_ok() {
    let version = FullVersion::parse("1.2.3").unwrap();

    assert_eq!(version, FullVersion::new(1, 2, 3));
}

#[test]
fn err_on_base_only() {
    let result = FullVersion::parse("1.2");

    assert!(matches!(
        result.unwrap_err(),
        ParserError::Expected(ExpectedError::Separator { .. })
    ));
}

#[test]
fn full_err_on_not_finished() {
    let result = FullVersion::parse("1.2.3.");

    assert!(matches!(
        result.unwrap_err(),
        ParserError::Expected(ExpectedError::EndOfInput { .. })
    ));
}

#[test]
fn full_err_on_starts_with_0() {
    let result = FullVersion::parse("1.2.03");

    assert!(matches!(
        result.unwrap_err(),
        ParserError::Numeric(NumericError::LeadingZero)
    ));
}

#[test]
fn stages_can_be_run_one_by_one() {
    let parser = Parser::from_slice("1.2.3".as_bytes());
    let full = parser.parse_base().unwrap().parse_patch().unwrap();

    assert_eq!(full.inner_version(), &FullVersion::new(1, 2, 3));
    assert_eq!(full.finish_full_version().unwrap(), FullVersion::new(1, 2, 3));

    let full = Parser::from_slice("1.2.3".as_bytes()).parse_full().unwrap();
    assert_eq!(full.finish().unwrap(), Version::new_full_version(1, 2, 3));
}

#[test]
fn parse_full_wants_three_components() {
    let err = Parser::from_slice(b"1.2").parse_full().unwrap_err();
    assert_eq!(err, ModularParserError::ExpectedSeparator { got: None });

    let err = Parser::from_slice(b"1.2,3").parse_full().unwrap_err();
    assert_eq!(err, ModularParserError::ExpectedSeparator { got: Some(b',') });

    let err = Parser::from_slice(b"1.2.3.4")
        .parse_full()
        .unwrap()
        .finish_full_version()
        .unwrap_err();
    assert_eq!(err, ModularParserError::ExpectedEndOfInput { got: b'.' });
}

#[test]
fn parse_decides_by_the_separator() {
    assert_eq!(
        Parser::from_slice(b"1.2").parse().unwrap(),
        Version::Base(BaseVersion::new(1, 2))
    );
    assert_eq!(
        Parser::from_slice(b"1.2.3").parse().unwrap(),
        Version::Full(FullVersion::new(1, 2, 3))
    );
    assert_eq!(
        Parser::from_slice(b"1.2.").parse().unwrap_err(),
        ModularParserError::ExpectedNumericToken { got: None }
    );
    assert_eq!(
        Parser::from_slice(b"1.2.3.4").parse().unwrap_err(),
        ModularParserError::ExpectedEndOfInput { got: b'.' }
    );
    assert_eq!(
        Parser::from_slice(b"1.0.0-alpha").parse().unwrap_err(),
        ModularParserError::ExpectedEndOfInput { got: b'-' }
    );
    assert_eq!(
        Parser::from_slice(b"1,1").parse().unwrap_err(),
        ModularParserError::ExpectedSeparator { got: Some(b',') }
    );
    assert_eq!(
        Parser::from_slice(b"1").parse().unwrap_err(),
        ModularParserError::ExpectedSeparator { got: None }
    );
    assert_eq!(
        Parser::from_slice(b"x.1").parse().unwrap_err(),
        ModularParserError::ExpectedNumericToken { got: Some(b'x') }
    );
}

#[test]
fn a_byte_after_the_base_should_be_the_end() {
    assert_eq!(
        Parser::from_slice(b"1.2x").parse().unwrap_err(),
        ModularParserError::ExpectedEndOfInput { got: b'x' }
    );
}

#[test]
fn parse_patch_or_finish_decides_by_the_separator() {
    let base = Parser::from_slice(b"1.2").parse_base().unwrap();
    assert_eq!(
        base.parse_patch_or_finish().unwrap(),
        Version::new_base_version(1, 2)
    );

    let base = Parser::from_slice(b"1.2.3").parse_base().unwrap();
    assert_eq!(
        base.parse_patch_or_finish().unwrap(),
        Version::new_full_version(1, 2, 3)
    );

    let base = Parser::from_slice(b"1.2.3.4").parse_base().unwrap();
    assert_eq!(
        base.parse_patch_or_finish().unwrap_err(),
        ModularParserError::ExpectedEndOfInput { got: b'.' }
    );

    let base = Parser::from_slice(b"1.2-rc").parse_base().unwrap();
    assert_eq!(
        base.parse_patch_or_finish().unwrap_err(),
        ModularParserError::ExpectedEndOfInput { got: b'-' }
    );

    let base = Parser::from_slice(b"1.2.").parse_base().unwrap();
    assert_eq!(
        base.parse_patch_or_finish().unwrap_err(),
        ModularParserError::ExpectedNumericToken { got: None }
    );
}

#[test]
fn largest_components_in_stages() {
    let input = "18446744073709551615.18446744073709551615.18446744073709551615";
    assert_eq!(
        Parser::from_slice(input.as_bytes()).parse().unwrap(),
        Version::new_full_version(u64::MAX, u64::MAX, u64::MAX)
    );
    assert_eq!(
        Parser::from_slice(b"18446744073709551616.0").parse().unwrap_err(),
        ModularParserError::NumberError(NumberError::Overflow)
    );
    assert_eq!(
        Parser::from_slice(b"18446744073709551620.0").parse().unwrap_err(),
        ModularParserError::NumberError(NumberError::Overflow)
    );
}

#[test]
fn component_takes_every_digit_and_stops_before_the_separator() {
    let bytes = b"123.4";
    let mut input = PeekableSlice::new(bytes);

    assert_eq!(parse_component(&mut input), Ok(123));
    assert!(peek_is_dot(&mut input));
    assert_eq!(input.peek(), Some(&b'.'));
    assert_eq!(parse_dot(&mut input), Ok(()));
    assert_eq!(
        is_done(&mut input),
        Err(ModularParserError::ExpectedEndOfInput { got: b'4' })
    );
    assert_eq!(parse_component(&mut input), Ok(4));
    assert_eq!(is_done(&mut input), Ok(()));
    assert!(!peek_is_dot(&mut input));
    assert_eq!(
        parse_component(&mut input),
        Err(ModularParserError::ExpectedNumericToken { got: None })
    );
}

#[test]
fn refused_component_still_takes_its_digits() {
    let bytes = b"0099.1";
    let mut input = PeekableSlice::new(bytes);

    assert_eq!(
        parse_component(&mut input),
        Err(ModularParserError::NumberError(NumberError::LeadingZero))
    );
    assert_eq!(input.peek(), Some(&b'.'));

    let bytes = b"99999999999999999999999.1";
    let mut input = PeekableSlice::new(bytes);

    assert_eq!(
        parse_component(&mut input),
        Err(ModularParserError::NumberError(NumberError::Overflow))
    );
    assert_eq!(input.peek(), Some(&b'.'));
}

#[test]
fn a_wrong_separator_stays_in_place() {
    let bytes = b",1";
    let mut input = PeekableSlice::new(bytes);

    assert_eq!(
        parse_dot(&mut input),
        Err(ModularParserError::ExpectedSeparator { got: Some(b',') })
    );
    assert_eq!(input.peek(), Some(&b','));
    assert_eq!(
        parse_component(&mut input),
        Err(ModularParserError::ExpectedNumericToken { got: Some(b',') })
    );
    assert_eq!(input.peek(), Some(&b','));
}

#[test]
fn modular_errors_become_common_errors() {
    assert_eq!(
        ParserError::from(ModularParserError::ExpectedEndOfInput { got: b'x' }),
        ParserError::Expected(ExpectedError::EndOfInput {
            at: None,
            got: 'x'
        })
    );
    assert_eq!(
        ParserError::from(ModularParserError::ExpectedNumericToken { got: Some(b'-') }),
        ParserError::Expected(ExpectedError::Numeric {
            at: None,
            got: Some('-')
        })
    );
    assert_eq!(
        ParserError::from(ModularParserError::ExpectedSeparator { got: None }),
        ParserError::Expected(ExpectedError::Separator {
            at: None,
            got: None
        })
    );
    assert_eq!(
        ParserError::from(ModularParserError::NumberError(NumberError::LeadingZero)),
        ParserError::Numeric(NumericError::LeadingZero)
    );
    assert_eq!(
        ParserError::from(ModularParserError::from(NumberError::Overflow)),
        ParserError::Numeric(NumericError::Overflow)
    );
    assert_eq!(
        ParserError::from(ModularParserError::ExpectedEndOfInput { got: 0xe9 }),
        ParserError::Expected(ExpectedError::EndOfInput {
            at: None,
            got: '\u{e9}'
        })
    );
}

#[test]
fn modular_parser_behind_the_traits() {
    let modular = ModularParser;

    assert_eq!(modular.parse_base(b"1.2").unwrap(), BaseVersion::new(1, 2));
    assert_eq!(
        modular.parse_full(b"1.2.3").unwrap(),
        FullVersion::new(1, 2, 3)
    );
    assert_eq!(
        modular.parse_version(b"1.2").unwrap(),
        Version::new_base_version(1, 2)
    );
    assert_eq!(
        modular.parse_version(b"1.2.3.4").unwrap_err(),
        ParserError::Expected(ExpectedError::EndOfInput {
            at: None,
            got: '.'
        })
    );
    assert_eq!(
        modular.parse_base(b"1.2.3x").unwrap_err(),
        ParserError::Expected(ExpectedError::EndOfInput {
            at: None,
            got: '.'
        })
    );
}
