use vstd::prelude::*;

verus! {

/// Sex of the registrant.
#[derive(Debug, Clone, Copy, PartialEq, Eq, Structural)]
pub enum Sex {
    Male,
    Female,
}

/// A decoded personal numeric code.
///
/// Month, day, county and ordinal are kept as written in the code: no
/// calendar or registry check is made on them.
#[derive(Debug, Clone, Copy, PartialEq, Eq, Structural)]
pub struct Cnp {
    pub sex: Sex,
    pub birth_year: u16,
    pub birth_month: u8,
    pub birth_day: u8,
    pub county: u8,
    pub ordinal: u16,
    pub born_abroad: bool,
}

/// Why a string is not a code, or a record cannot be written as one.
#[derive(Debug, Clone, Copy, PartialEq, Eq, Structural)]
pub enum CnpError {
    /// Not exactly thirteen characters, or a character that is not a decimal digit.
    MalformedInput,
    /// The last digit is not the check digit of the first twelve.
    ChecksumMismatch,
    /// The first digit is 0 or 9.
    InvalidLeadingDigit,
    /// Born in the country, in a century other than the 1800s, 1900s or 2000s.
    UnrepresentableBirthYear,
    /// Month or day or county above 99, or ordinal above 999: the field would
    /// not fit its fixed width.
    FieldOutOfRange,
}

/// One row of the leading-digit table.
#[derive(Debug, Clone, Copy, PartialEq, Eq, Structural)]
pub struct LeadRow {
    pub sex: Sex,
    pub century_base: u16,
    pub born_abroad: bool,
}

/// The leading digits that the table knows.
pub open spec fn is_lead(d: int) -> bool {
    1 <= d <= 8
}

/// The leading-digit table: odd digits are male, 1 and 2 are born in the
/// 1900s, 3 and 4 in the 1800s, 5 and 6 in the 2000s, 7 and 8 abroad (with
/// the 1900s as century).
pub open spec fn lead_row_spec(d: int) -> LeadRow {
    LeadRow {
        sex: if d % 2 == 1 {
            Sex::Male
        } else {
            Sex::Female
        },
        century_base: if d == 3 || d == 4 {
            1800
        } else if d == 5 || d == 6 {
            2000
        } else {
            1900
        },
        born_abroad: d == 7 || d == 8,
    }
}

/// Looks a leading digit up in the table.
pub fn lead_row(d: u32) -> (r: Option<LeadRow>)
    ensures
        r == (if is_lead(d as int) {
            Some(lead_row_spec(d as int))
        } else {
            None
        }),
{
    match d {
        1 => Some(LeadRow { sex: Sex::Male, century_base: 1900, born_abroad: false }),
        2 => Some(LeadRow { sex: Sex::Female, century_base: 1900, born_abroad: false }),
        3 => Some(LeadRow { sex: Sex::Male, century_base: 1800, born_abroad: false }),
        4 => Some(LeadRow { sex: Sex::Female, century_base: 1800, born_abroad: false }),
        5 => Some(LeadRow { sex: Sex::Male, century_base: 2000, born_abroad: false }),
        6 => Some(LeadRow { sex: Sex::Female, century_base: 2000, born_abroad: false }),
        7 => Some(LeadRow { sex: Sex::Male, century_base: 1900, born_abroad: true }),
        8 => Some(LeadRow { sex: Sex::Female, century_base: 1900, born_abroad: true }),
        _ => None,
    }
}

/// Row `d` of the table describes `c`: same sex and same place of birth,
/// and, for one born in the country, the century of the birth year.
pub open spec fn row_describes(d: int, c: Cnp) -> bool {
    let row = lead_row_spec(d);
    &&& is_lead(d)
    &&& row.sex == c.sex
    &&& row.born_abroad == c.born_abroad
    &&& (c.born_abroad || row.century_base as int == (c.birth_year as int / 100) * 100)
}

/// Some row of the table describes `c`.
pub open spec fn has_lead(c: Cnp) -> bool {
    c.born_abroad || (18 <= c.birth_year / 100 <= 20)
}

/// The leading digit of `c`, where `has_lead(c)`.
pub open spec fn lead_digit(c: Cnp) -> int {
    let male = c.sex == Sex::Male;
    if c.born_abroad {
        if male { 7 } else { 8 }
    } else if c.birth_year / 100 == 18 {
        if male { 3 } else { 4 }
    } else if c.birth_year / 100 == 19 {
        if male { 1 } else { 2 }
    } else {
        if male { 5 } else { 6 }
    }
}

proof fn lemma_row_describes(d: int, c: Cnp)
    ensures
        row_describes(d, c) <==> (has_lead(c) && d == lead_digit(c)),
{
}

/// Finds the leading digit of `c` by searching the table.
pub fn lead_digit_of(c: &Cnp) -> (r: Option<u32>)
    ensures
        r == (if has_lead(*c) {
            Some(lead_digit(*c) as u32)
        } else {
            None
        }),
{
    let mut d: u32 = 1;
    while d <= 8
        invariant
            1 <= d <= 9,
            forall|e: int| 1 <= e < d ==> !row_describes(e, *c),
        decreases 9 - d,
    {
        let row = lead_row(d).unwrap();
        if row.sex == c.sex && row.born_abroad == c.born_abroad && (c.born_abroad
            || row.century_base == (c.birth_year / 100) * 100) {
            proof {
                lemma_row_describes(d as int, *c);
            }
            return Some(d);
        }
        d = d + 1;
    }
    proof {
        if has_lead(*c) {
            lemma_row_describes(lead_digit(*c), *c);
        }
    }
    None
}

} // verus!
