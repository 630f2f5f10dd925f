use version_number::parsers::original::{NumberComponent, NumberConstructor, NumberError, Parser};
use version_number::Version;

#[test]
fn a_number_starts_with_its_first_digit() {
    for digit in b'0'..=b'9' {
        let number = NumberConstructor::try_new(digit).unwrap();

        assert_eq!(number.as_value(), u64::from(digit - b'0'));
    }
}

#[test]
fn digits_are_appended_in_base_ten() {
    let mut number = NumberConstructor::try_new(b'4').unwrap();

    assert_eq!(number.append_digit(b'0'), Ok(()));
    assert_eq!(number.append_digit(b'7'), Ok(()));
    assert_eq!(number.as_value(), 407);
}

#[test]
fn zero_takes_no_second_digit() {
    let mut number = NumberConstructor::try_new(b'0').unwrap();

    assert_eq!(number.append_digit(b'0'), Err(NumberError::LeadingZero));
    assert_eq!(number.append_digit(b'5'), Err(NumberError::LeadingZero));
    assert_eq!(number.as_value(), 0);
}

#[test]
fn a_number_stops_at_the_largest() {
    let mut number = NumberConstructor::try_new(b'1').unwrap();
    for digit in "844674407370955161".bytes() {
        assert_eq!(number.append_digit(digit), Ok(()));
    }
    assert_eq!(number.as_value(), 1844674407370955161);

    let mut largest = number;
    assert_eq!(largest.append_digit(b'5'), Ok(()));
    assert_eq!(largest.as_value(), u64::MAX);
    assert_eq!(largest.append_digit(b'0'), Err(NumberError::Overflow));
    assert_eq!(largest.as_value(), u64::MAX);

    // the product fits, the sum does not
    let mut over = number;
    assert_eq!(over.append_digit(b'6'), Err(NumberError::Overflow));
    assert_eq!(over.as_value(), 1844674407370955161);

    // the product does not fit
    let mut far = NumberConstructor::try_new(b'1').unwrap();
    for digit in "844674407370955162".bytes() {
        assert_eq!(far.append_digit(digit), Ok(()));
    }
    assert_eq!(far.append_digit(b'0'), Err(NumberError::Overflow));
    assert_eq!(far.as_value(), 1844674407370955162);
}


#[test]
fn a_component_is_empty_until_a_digit_comes() {
    let mut component = NumberComponent::new();
    assert!(component.get().is_none());

    assert_eq!(component.insert_digit(b'1'), Ok(()));
    assert_eq!(component.get().unwrap().as_value(), 1);
    assert_eq!(component.insert_digit(b'2'), Ok(()));
    assert_eq!(component.get().unwrap().as_value(), 12);
}

#[test]
fn a_component_of_zero_is_closed() {
    let mut component = NumberComponent::new();

    assert_eq!(component.insert_digit(b'0'), Ok(()));
    assert_eq!(component.insert_digit(b'1'), Err(NumberError::LeadingZero));
    assert_eq!(component.get().unwrap().as_value(), 0);
}

#[test]
fn a_parser_from_what_converts_into_bytes() {
    let parser = Parser::from("1.2".as_bytes());

    assert_eq!(parser.parse().unwrap(), Version::new_base_version(1, 2));
}
