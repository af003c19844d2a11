use vstd::prelude::*;

use crate::checksum::{check_digit, check_value};
use crate::digits::{all_digits, char_of_digit, digit_char, digit_value, digit_value_of, is_digit};
use crate::identifier::{
    has_lead, is_lead, lead_digit, lead_digit_of, lead_row, lead_row_spec, Cnp, CnpError,
};

verus! {

/// The number written by the two digits of `s` at `i` and `i + 1`.
pub open spec fn num2(s: Seq<char>, i: int) -> int {
    10 * digit_value(s[i]) + digit_value(s[i + 1])
}

/// The number written by the three digits of `s` from `i` on.
pub open spec fn num3(s: Seq<char>, i: int) -> int {
    100 * digit_value(s[i]) + num2(s, i + 1)
}

/// What a string of characters decodes to: the fields are read at fixed
/// offsets once the length, the digits and the check digit have been
/// checked, in that order, and the leading digit is found in the table.
pub open spec fn parse_spec(s: Seq<char>) -> Result<Cnp, CnpError> {
    if s.len() != 13 || !all_digits(s) {
        Err(CnpError::MalformedInput)
    } else if digit_value(s[12]) != check_value(s) {
        Err(CnpError::ChecksumMismatch)
    } else if !is_lead(digit_value(s[0])) {
        Err(CnpError::InvalidLeadingDigit)
    } else {
        let row = lead_row_spec(digit_value(s[0]));
        Ok(
            Cnp {
                sex: row.sex,
                birth_year: (row.century_base + num2(s, 1)) as u16,
                birth_month: num2(s, 3) as u8,
                birth_day: num2(s, 5) as u8,
                county: num2(s, 7) as u8,
                ordinal: num3(s, 9) as u16,
                born_abroad: row.born_abroad,
            },
        )
    }
}

/// `n` written with two digits, `0 <= n <= 99`.
pub open spec fn two_digits(n: int) -> Seq<char> {
    seq![digit_char(n / 10), digit_char(n % 10)]
}

/// `n` written with three digits, `0 <= n <= 999`.
pub open spec fn three_digits(n: int) -> Seq<char> {
    seq![digit_char(n / 100)] + two_digits(n % 100)
}

/// Every field of `c` can be written in its fixed width.
pub open spec fn encodable(c: Cnp) -> bool {
    &&& has_lead(c)
    &&& c.birth_month <= 99
    &&& c.birth_day <= 99
    &&& c.county <= 99
    &&& c.ordinal <= 999
}

/// The twelve digits before the check digit.
pub open spec fn prefix_of(c: Cnp) -> Seq<char> {
    seq![digit_char(lead_digit(c))] + two_digits(c.birth_year as int % 100) + two_digits(
        c.birth_month as int,
    ) + two_digits(c.birth_day as int) + two_digits(c.county as int) + three_digits(
        c.ordinal as int,
    )
}

/// The thirteen-digit code of `c`.
pub open spec fn code_of(c: Cnp) -> Seq<char> {
    prefix_of(c).push(digit_char(check_value(prefix_of(c))))
}

/// Reads the thirteen characters of `number` into a vector, or reports
/// that it is not thirteen decimal digits.
fn read_digits(number: &str) -> (r: Option<Vec<char>>)
    ensures
        match r {
            Some(v) => v@ == number@ && number@.len() == 13 && all_digits(number@),
            None => number@.len() != 13 || !all_digits(number@),
        },
{
    let n = number.unicode_len();
    if n != 13 {
        return None;
    }
    let mut v: Vec<char> = Vec::new();
    let mut i: usize = 0;
    while i < 13
        invariant
            i <= 13,
            number@.len() == 13,
            v@ == number@.take(i as int),
            all_digits(v@),
        decreases 13 - i,
    {
        let c = number.get_char(i);
        if !('0' <= c && c <= '9') {
            assert(!is_digit(number@[i as int]));
            return None;
        }
        v.push(c);
        i = i + 1;
        assert(v@ =~= number@.take(i as int));
    }
    assert(number@.take(13) =~= number@);
    Some(v)
}

/// Decodes `number`, reporting why it is not a code where it is not one.
pub fn parse_primary(number: &str) -> (r: Result<Cnp, CnpError>)
    ensures
        r == parse_spec(number@),
{
    let digits = match read_digits(number) {
        Some(v) => v,
        None => return Err(CnpError::MalformedInput),
    };
    let s = Ghost(number@);
    assert(all_digits(digits@.take(12)));
    if check_digit(digits.as_slice()) != digits[12] {
        return Err(CnpError::ChecksumMismatch);
    }
    assert(is_digit(s@[12]));
    let row = match lead_row(digit_value_of(digits[0])) {
        Some(row) => row,
        None => return Err(CnpError::InvalidLeadingDigit),
    };
    assert(is_digit(s@[1]) && is_digit(s@[2]) && is_digit(s@[3]) && is_digit(s@[4]));
    assert(is_digit(s@[5]) && is_digit(s@[6]) && is_digit(s@[7]) && is_digit(s@[8]));
    assert(is_digit(s@[9]) && is_digit(s@[10]) && is_digit(s@[11]));
    let year = 10 * digit_value_of(digits[1]) + digit_value_of(digits[2]);
    let month = 10 * digit_value_of(digits[3]) + digit_value_of(digits[4]);
    let day = 10 * digit_value_of(digits[5]) + digit_value_of(digits[6]);
    let county = 10 * digit_value_of(digits[7]) + digit_value_of(digits[8]);
    let ordinal = 100 * digit_value_of(digits[9]) + 10 * digit_value_of(digits[10])
        + digit_value_of(digits[11]);
    Ok(
        Cnp {
            sex: row.sex,
            birth_year: row.century_base + year as u16,
            birth_month: month as u8,
            birth_day: day as u8,
            county: county as u8,
            ordinal: ordinal as u16,
            born_abroad: row.born_abroad,
        },
    )
}

/// Decodes `number`, or gives `None` where it is not a valid code.
pub fn cnp_from_string(number: &str) -> (r: Option<Cnp>)
    ensures
        r == (match parse_spec(number@) {
            Ok(c) => Some(c),
            Err(_) => None,
        }),
{
    match parse_primary(number) {
        Ok(c) => Some(c),
        Err(_) => None,
    }
}

/// Appends `n` to `v` as `width` digits, `n < 10^width`.
fn push_digits(v: &mut Vec<char>, n: u32, width: u32)
    requires
        width == 2 || width == 3,
        width == 2 ==> n <= 99,
        width == 3 ==> n <= 999,
    ensures
        width == 2 ==> final(v)@ == old(v)@ + two_digits(n as int),
        width == 3 ==> final(v)@ == old(v)@ + three_digits(n as int),
{
    if width == 3 {
        v.push(char_of_digit(n / 100));
    }
    let m = n % 100;
    v.push(char_of_digit(m / 10));
    v.push(char_of_digit(m % 10));
    assert(width == 2 ==> final(v)@ =~= old(v)@ + two_digits(n as int));
    assert(width == 3 ==> final(v)@ =~= old(v)@ + three_digits(n as int));
}

impl Cnp {
    /// The twelve digits that precede the check digit.
    fn chars12(&self, lead: u32) -> (r: Vec<char>)
        requires
            encodable(*self),
            lead == lead_digit(*self),
        ensures
            r@ == prefix_of(*self),
            all_digits(r@),
    {
        let mut v: Vec<char> = Vec::new();
        v.push(char_of_digit(lead));
        push_digits(&mut v, (self.birth_year % 100) as u32, 2);
        push_digits(&mut v, self.birth_month as u32, 2);
        push_digits(&mut v, self.birth_day as u32, 2);
        push_digits(&mut v, self.county as u32, 2);
        push_digits(&mut v, self.ordinal as u32, 3);
        assert(v@ =~= prefix_of(*self));
        v
    }

    /// The thirteen-digit code of this record.
    pub fn stringify(&self) -> (r: String)
        requires
            encodable(*self),
        ensures
            r@ == code_of(*self),
    {
        let lead = lead_digit_of(self).unwrap();
        let mut digits = self.chars12(lead);
        assert(digits@.take(12) =~= digits@);
        let check = check_digit(digits.as_slice());
        digits.push(check);
        chars_to_string(&digits)
    }

    /// The thirteen-digit code of this record, or why it has none.
    pub fn serialize(&self) -> (r: Result<String, CnpError>)
        ensures
            match r {
                Ok(s) => encodable(*self) && s@ == code_of(*self),
                Err(e) => if !has_lead(*self) {
                    e == CnpError::UnrepresentableBirthYear
                } else {
                    !encodable(*self) && e == CnpError::FieldOutOfRange
                },
            },
    {
        if lead_digit_of(self).is_none() {
            return Err(CnpError::UnrepresentableBirthYear);
        }
        if self.birth_month > 99 || self.birth_day > 99 || self.county > 99 || self.ordinal > 999 {
            return Err(CnpError::FieldOutOfRange);
        }
        Ok(self.stringify())
    }
}

/// A one-character string holding the digit `c`.
fn digit_str(c: char) -> (r: &'static str)
    requires
        is_digit(c),
    ensures
        r@ == seq![c],
{
    if c == '0' {
        proof { reveal_strlit("0"); }
        "0"
    } else if c == '1' {
        proof { reveal_strlit("1"); }
        "1"
    } else if c == '2' {
        proof { reveal_strlit("2"); }
        "2"
    } else if c == '3' {
        proof { reveal_strlit("3"); }
        "3"
    } else if c == '4' {
        proof { reveal_strlit("4"); }
        "4"
    } else if c == '5' {
        proof { reveal_strlit("5"); }
        "5"
    } else if c == '6' {
        proof { reveal_strlit("6"); }
        "6"
    } else if c == '7' {
        proof { reveal_strlit("7"); }
        "7"
    } else if c == '8' {
        proof { reveal_strlit("8"); }
        "8"
    } else {
        proof { reveal_strlit("9"); }
        "9"
    }
}

/// A string of the digits in `v`.
fn chars_to_string(v: &Vec<char>) -> (r: String)
    requires
        all_digits(v@),
    ensures
        r@ == v@,
{
    let mut s = String::new();
    let mut i: usize = 0;
    while i < v.len()
        invariant
            i <= v@.len(),
            all_digits(v@),
            s@ == v@.take(i as int),
        decreases v@.len() - i,
    {
        s.append(digit_str(v[i]));
        i = i + 1;
        assert(s@ =~= v@.take(i as int));
    }
    assert(v@.take(v@.len() as int) =~= v@);
    s
}

} // verus!
