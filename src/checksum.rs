use vstd::prelude::*;

use crate::digits::{all_digits, char_of_digit, digit_char, digit_value, digit_value_of, is_digit};

verus! {

/// The weight of each of the twelve leading digits.
pub open spec fn weights() -> Seq<int> {
    seq![2, 7, 9, 1, 4, 6, 3, 5, 8, 2, 7, 9]
}

/// Sum of the first `n` digits of `s`, each times its weight.
pub open spec fn weighted_sum(s: Seq<char>, n: int) -> int
    decreases n,
{
    if n <= 0 {
        0
    } else {
        weighted_sum(s, n - 1) + digit_value(s[n - 1]) * weights()[n - 1]
    }
}

/// The check value of the twelve leading digits of `s`: the weighted sum
/// modulo 11, with 10 replaced by 1.
pub open spec fn check_value(s: Seq<char>) -> int {
    let r = weighted_sum(s, 12) % 11;
    if r == 10 {
        1
    } else {
        r
    }
}

/// Computes the check digit of the first twelve digits of `digits`.
pub fn check_digit(digits: &[char]) -> (c: char)
    requires
        digits@.len() >= 12,
        all_digits(digits@.take(12)),
    ensures
        is_digit(c),
        c == digit_char(check_value(digits@)),
        digit_value(c) == check_value(digits@),
{
    let factors: [u32; 12] = [2, 7, 9, 1, 4, 6, 3, 5, 8, 2, 7, 9];
    assert(factors@.map_values(|w: u32| w as int) =~= weights());
    let mut sum: u32 = 0;
    let mut i: usize = 0;
    while i < 12
        invariant
            i <= 12,
            digits@.len() >= 12,
            all_digits(digits@.take(12)),
            factors@.map_values(|w: u32| w as int) == weights(),
            sum as int == weighted_sum(digits@, i as int),
            sum <= 81 * i,
        decreases 12 - i,
    {
        assert(digits@.take(12)[i as int] == digits@[i as int]);
        let d = digit_value_of(digits[i]);
        let w = factors[i];
        assert(factors@.map_values(|w: u32| w as int)[i as int] == w as int);
        assert(w <= 9);
        assert(d * w <= 81) by (nonlinear_arith)
            requires
                d <= 9,
                w <= 9,
        ;
        sum = sum + d * w;
        i = i + 1;
    }
    let r: u32 = sum % 11;
    let v: u32 = if r == 10 {
        1
    } else {
        r
    };
    char_of_digit(v)
}

} // verus!
