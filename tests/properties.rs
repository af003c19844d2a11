use cnp::{check_digit, cnp_from_string, parse_primary, valid_cnp, valid_nif, valid_number};
use cnp::{Cnp, CnpError, Sex};

fn record(sex: Sex, year: u16, month: u8, day: u8, county: u8, ordinal: u16, abroad: bool) -> Cnp {
    Cnp {
        sex,
        birth_year: year,
        birth_month: month,
        birth_day: day,
        county,
        ordinal,
        born_abroad: abroad,
    }
}

#[test]
fn wrong_lengths_are_malformed() {
    assert_eq!(Err(CnpError::MalformedInput), parse_primary(""));
    assert_eq!(Err(CnpError::MalformedInput), parse_primary("169050904999"));
    assert_eq!(Err(CnpError::MalformedInput), parse_primary("16905090499930"));
    assert_eq!(Err(CnpError::MalformedInput), parse_primary("1690509049993 "));
}

#[test]
fn non_digits_are_malformed() {
    assert_eq!(Err(CnpError::MalformedInput), parse_primary("1j91301049995"));
    assert_eq!(Err(CnpError::MalformedInput), parse_primary("169050904999x"));
    assert_eq!(Err(CnpError::MalformedInput), parse_primary("-690509049993"));
    assert_eq!(Err(CnpError::MalformedInput), parse_primary("169050904999\u{0663}"));
}

#[test]
fn wrong_check_digit_is_a_mismatch() {
    assert_eq!(Err(CnpError::ChecksumMismatch), parse_primary("1690509049990"));
    assert_eq!(Err(CnpError::ChecksumMismatch), parse_primary("1690509049994"));
}

#[test]
fn unknown_leading_digits_are_rejected() {
    assert_eq!(Err(CnpError::InvalidLeadingDigit), parse_primary("0690509049991"));
    assert_eq!(Err(CnpError::InvalidLeadingDigit), parse_primary("9690509049998"));
    assert!(!valid_cnp("0690509049991"));
}

#[test]
fn checksum_is_checked_before_leading_digit() {
    assert_eq!(Err(CnpError::ChecksumMismatch), parse_primary("0690509049990"));
}

#[test]
fn check_digit_values() {
    let p: Vec<char> = "169050904999".chars().collect();
    assert_eq!('3', check_digit(&p));
    let q: Vec<char> = "169050904990".chars().collect();
    assert_eq!('1', check_digit(&q));
    let z: Vec<char> = "000000000000".chars().collect();
    assert_eq!('0', check_digit(&z));
}

#[test]
fn check_digit_reads_twelve_digits_only() {
    let long: Vec<char> = "1690509049993".chars().collect();
    assert_eq!('3', check_digit(&long));
    assert_eq!(check_digit(&long), check_digit(&long[0..12]));
}

#[test]
fn remainder_ten_gives_one() {
    let c = cnp_from_string("1690509049901").unwrap();
    assert_eq!(990, c.ordinal);
    assert_eq!("1690509049901", c.stringify());
}

#[test]
fn leading_digit_table() {
    let c = cnp_from_string("6051223401237").unwrap();
    assert_eq!(record(Sex::Female, 2005, 12, 23, 40, 123, false), c);
    let c = cnp_from_string("2850712310054").unwrap();
    assert_eq!(record(Sex::Female, 1985, 7, 12, 31, 5, false), c);
    let c = cnp_from_string("7500607000428").unwrap();
    assert_eq!(record(Sex::Male, 1950, 6, 7, 0, 42, true), c);
    let c = cnp_from_string("4161230100002").unwrap();
    assert_eq!(record(Sex::Female, 1816, 12, 30, 10, 0, false), c);
}

#[test]
fn round_trips() {
    let cases = vec![
        record(Sex::Male, 1969, 5, 9, 4, 999, false),
        record(Sex::Female, 2005, 12, 23, 40, 123, false),
        record(Sex::Male, 1950, 6, 7, 0, 42, true),
        record(Sex::Female, 1816, 12, 30, 10, 0, false),
        record(Sex::Female, 1999, 0, 0, 0, 0, true),
        record(Sex::Male, 2099, 99, 99, 99, 999, false),
    ];
    for c in cases {
        let s = c.serialize().unwrap();
        assert_eq!(13, s.len());
        assert_eq!(Ok(c), parse_primary(&s));
    }
}

#[test]
fn serialize_matches_stringify() {
    let c = record(Sex::Male, 1969, 5, 9, 4, 999, false);
    assert_eq!(Ok("1690509049993".to_string()), c.serialize());
}

#[test]
fn abroad_ignores_century() {
    let c = record(Sex::Female, 2005, 1, 2, 3, 4, true);
    let s = c.stringify();
    assert!(s.starts_with("805"));
    let back = cnp_from_string(&s).unwrap();
    assert_eq!(1905, back.birth_year);
    assert!(back.born_abroad);
}

#[test]
fn unrepresentable_birth_year() {
    let c = record(Sex::Male, 1750, 1, 1, 1, 1, false);
    assert_eq!(Err(CnpError::UnrepresentableBirthYear), c.serialize());
    let c = record(Sex::Female, 2100, 1, 1, 1, 1, false);
    assert_eq!(Err(CnpError::UnrepresentableBirthYear), c.serialize());
}

#[test]
fn fields_out_of_range() {
    assert_eq!(Err(CnpError::FieldOutOfRange), record(Sex::Male, 1969, 5, 9, 4, 1000, false).serialize());
    assert_eq!(Err(CnpError::FieldOutOfRange), record(Sex::Male, 1969, 5, 9, 100, 1, false).serialize());
    assert_eq!(Err(CnpError::FieldOutOfRange), record(Sex::Male, 1969, 100, 9, 4, 1, false).serialize());
    assert_eq!(Err(CnpError::FieldOutOfRange), record(Sex::Male, 1969, 5, 200, 4, 1, false).serialize());
}

#[test]
fn calendar_is_not_checked() {
    let c = record(Sex::Male, 1969, 13, 40, 4, 999, false);
    let s = c.stringify();
    assert_eq!(Some(c), cnp_from_string(&s));
}

#[test]
fn leading_nine_is_alternate_format() {
    assert!(!valid_number("9690509049998"));
    assert!(!valid_number("9"));
    assert!(!valid_number("9abc"));
    assert!(!valid_nif("9690509049998"));
    assert!(!valid_nif("1690509049993"));
}

#[test]
fn valid_number_uses_primary_format() {
    assert!(valid_number("1690509990011"));
    assert!(!valid_number("1690509049990"));
    assert!(!valid_number(""));
    assert!(valid_cnp("1690509990011"));
}
