use vstd::prelude::*;

use crate::codec::{parse_primary, parse_spec};

verus! {

/// The string starts with `'9'`, the mark of the alternate (tax number)
/// format.
pub open spec fn looks_like_nif_spec(s: Seq<char>) -> bool {
    s.len() > 0 && s[0] == '9'
}

/// `number` is a valid personal numeric code.
pub fn valid_cnp(number: &str) -> (r: bool)
    ensures
        r == parse_spec(number@) is Ok,
{
    parse_primary(number).is_ok()
}

/// `number` is a valid number of the alternate (tax number) format. That
/// format is not implemented yet: no string is accepted.
pub fn valid_nif(number: &str) -> (r: bool)
    ensures
        !r,
{
    false
}

/// Tells whether `number` should be read in the alternate format.
fn looks_like_nif(number: &str) -> (r: bool)
    ensures
        r == looks_like_nif_spec(number@),
{
    !number.is_empty() && number.get_char(0) == '9'
}

/// `number` is valid in the format that its leading character selects:
/// the alternate format where it starts with `'9'`, a personal numeric
/// code otherwise.
pub fn valid_number(number: &str) -> (r: bool)
    ensures
        looks_like_nif_spec(number@) ==> !r,
        !looks_like_nif_spec(number@) ==> r == parse_spec(number@) is Ok,
{
    if looks_like_nif(number) {
        valid_nif(number)
    } else {
        valid_cnp(number)
    }
}

} // verus!
