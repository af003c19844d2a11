use vstd::prelude::*;

use crate::checksum::{check_value, weighted_sum};
use crate::codec::{code_of, encodable, parse_spec, prefix_of, three_digits, two_digits};
use crate::digits::{all_digits, digit_char, digit_value, is_digit};
use crate::identifier::{is_lead, lead_digit, lead_row_spec, Cnp, CnpError};

verus! {

proof fn lemma_digit_char(d: int)
    requires
        0 <= d <= 9,
    ensures
        is_digit(digit_char(d)),
        digit_value(digit_char(d)) == d,
{
}

proof fn lemma_digit_value(c: char)
    requires
        is_digit(c),
    ensures
        digit_char(digit_value(c)) == c,
{
}

/// The weighted sum of the first `n` digits reads those digits only.
proof fn lemma_weighted_sum_prefix(a: Seq<char>, b: Seq<char>, n: int)
    requires
        0 <= n <= a.len(),
        n <= b.len(),
        a.take(n) == b.take(n),
    ensures
        weighted_sum(a, n) == weighted_sum(b, n),
    decreases n,
{
    if n > 0 {
        assert(a[n - 1] == a.take(n)[n - 1]);
        assert(b[n - 1] == b.take(n)[n - 1]);
        assert(a.take(n - 1) =~= a.take(n).take(n - 1));
        assert(b.take(n - 1) =~= b.take(n).take(n - 1));
        lemma_weighted_sum_prefix(a, b, n - 1);
    }
}

/// Any string that is not thirteen characters long, or holds a character
/// that is not a decimal digit, is rejected as malformed.
pub proof fn lemma_malformed_rejected(s: Seq<char>)
    requires
        s.len() != 13 || !all_digits(s),
    ensures
        parse_spec(s) == Err::<Cnp, CnpError>(CnpError::MalformedInput),
{
}

/// For thirteen digits with a leading digit that the table knows, the string
/// decodes exactly when its last digit is the check digit of the first
/// twelve.
pub proof fn lemma_checksum_decides(s: Seq<char>)
    requires
        s.len() == 13,
        all_digits(s),
        is_lead(digit_value(s[0])),
    ensures
        (digit_char(check_value(s.take(12))) == s[12]) <==> parse_spec(s) is Ok,
{
    assert(s.take(12).take(12) =~= s.take(12));
    lemma_check_value_determined(s, s.take(12));
    assert(is_digit(s[12]));
    lemma_digit_value(s[12]);
    lemma_digit_char(check_value(s));
}

/// The check value depends on the first twelve digits alone, and is a
/// single digit.
pub proof fn lemma_check_value_determined(a: Seq<char>, b: Seq<char>)
    requires
        a.len() >= 12,
        b.len() >= 12,
        a.take(12) == b.take(12),
    ensures
        check_value(a) == check_value(b),
        0 <= check_value(a) <= 9,
        is_digit(digit_char(check_value(a))),
{
    lemma_weighted_sum_prefix(a, b, 12);
    lemma_digit_char(check_value(a));
}

proof fn lemma_two_digits(n: int)
    requires
        0 <= n <= 99,
    ensures
        all_digits(two_digits(n)),
        10 * digit_value(two_digits(n)[0]) + digit_value(two_digits(n)[1]) == n,
{
    lemma_digit_char(n / 10);
    lemma_digit_char(n % 10);
}

proof fn lemma_three_digits(n: int)
    requires
        0 <= n <= 999,
    ensures
        all_digits(three_digits(n)),
        100 * digit_value(three_digits(n)[0]) + 10 * digit_value(three_digits(n)[1])
            + digit_value(three_digits(n)[2]) == n,
{
    lemma_digit_char(n / 100);
    lemma_two_digits(n % 100);
}

/// A record whose fields fit their widths, and which, if born abroad, was
/// born in the 1900s, is decoded from its code into the same record.
pub proof fn lemma_round_trip(c: Cnp)
    requires
        encodable(c),
        c.born_abroad ==> c.birth_year / 100 == 19,
    ensures
        parse_spec(code_of(c)) == Ok::<Cnp, CnpError>(c),
{
    let p = prefix_of(c);
    let s = code_of(c);
    let lead = lead_digit(c);
    lemma_digit_char(lead);
    lemma_two_digits(c.birth_year as int % 100);
    lemma_two_digits(c.birth_month as int);
    lemma_two_digits(c.birth_day as int);
    lemma_two_digits(c.county as int);
    lemma_three_digits(c.ordinal as int);
    assert(p.len() == 12);
    assert(s.take(12) =~= p.take(12));
    lemma_check_value_determined(s, p);
    let y = two_digits(c.birth_year as int % 100);
    let mo = two_digits(c.birth_month as int);
    let d = two_digits(c.birth_day as int);
    let co = two_digits(c.county as int);
    let o = three_digits(c.ordinal as int);
    assert(s[0] == digit_char(lead));
    assert(s[1] == y[0] && s[2] == y[1]);
    assert(s[3] == mo[0] && s[4] == mo[1]);
    assert(s[5] == d[0] && s[6] == d[1]);
    assert(s[7] == co[0] && s[8] == co[1]);
    assert(s[9] == o[0] && s[10] == o[1] && s[11] == o[2]);
    assert(s[12] == digit_char(check_value(p)));
    assert(all_digits(s)) by {
        assert forall|i: int| 0 <= i < s.len() implies is_digit(#[trigger] s[i]) by {
            if i == 12 {
            } else if i == 0 {
            } else if i <= 2 {
                assert(is_digit(y[i - 1]));
            } else if i <= 4 {
                assert(is_digit(mo[i - 3]));
            } else if i <= 6 {
                assert(is_digit(d[i - 5]));
            } else if i <= 8 {
                assert(is_digit(co[i - 7]));
            } else {
                assert(is_digit(o[i - 9]));
            }
        }
    }
    let row = lead_row_spec(lead);
    assert(row.sex == c.sex);
    assert(row.born_abroad == c.born_abroad);
    assert(row.century_base + c.birth_year as int % 100 == c.birth_year);
}

} // verus!
