//! The shapes of the identifiers and time stamps that the program draws from
//! the clock and from chance and hands to the library.

use vstd::prelude::*;
use crate::settings::is_digit;

verus! {

/// Whether `c` is a lowercase hexadecimal digit.
pub open spec fn is_lower_hex(c: char) -> bool {
    ('0' <= c && c <= '9') || ('a' <= c && c <= 'f')
}

/// Whether `s` is a UUID in hyphenated form: 36 characters, lowercase
/// hexadecimal digits with hyphens at 8, 13, 18 and 23.
pub open spec fn is_hyphenated_uuid(s: Seq<char>) -> bool {
    &&& s.len() == 36
    &&& forall|i: int|
        0 <= i < 36 ==> if i == 8 || i == 13 || i == 18 || i == 23 {
            #[trigger] s[i] == '-'
        } else {
            is_lower_hex(s[i])
        }
}

/// Whether `s` is a time stamp as `%Y%m%d_%H%M%S` writes one: eight digits
/// (the last four of the year, month, day), an underscore and six digits
/// (hour, minute, second), after nothing for a year of four digits or after a
/// `+` and the year's leading digits for a later year.
pub open spec fn is_compact_stamp(s: Seq<char>) -> bool {
    let n = s.len() as int;
    &&& n >= 15
    &&& s[n - 7] == '_'
    &&& forall|i: int| n - 15 <= i < n && i != n - 7 ==> is_digit(#[trigger] s[i])
    &&& (n == 15 || (s[0] == '+' && forall|i: int| 1 <= i < n - 15 ==> is_digit(#[trigger] s[i])))
}

} // verus!
