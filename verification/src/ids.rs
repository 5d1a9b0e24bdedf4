//! Identifiers: a UUID is carried as its 128-bit value.

use vstd::prelude::*;
use vstd::arithmetic::power::pow;

verus! {

/// The lowercase hexadecimal digit for a value in `0..16`.
pub open spec fn hex_char(d: int) -> char {
    if d < 10 {
        (('0' as int) + d) as char
    } else {
        (('a' as int) + d - 10) as char
    }
}

/// The `k`-th hexadecimal digit of `v`, counted from the most significant
/// end (`k` in `0..32`).
pub open spec fn nibble(v: u128, k: int) -> int {
    (v as int / pow(16, (31 - k) as nat)) % 16
}

/// Number of hyphens that stand before position `i` of the hyphenated form.
pub open spec fn hyphens_before(i: int) -> int {
    if i < 8 { 0 } else if i < 13 { 1 } else if i < 18 { 2 } else if i < 23 { 3 } else { 4 }
}

/// The hyphenated lowercase text of a UUID, `xxxxxxxx-xxxx-xxxx-xxxx-xxxxxxxxxxxx`.
pub open spec fn uuid_text(v: u128) -> Seq<char> {
    Seq::new(
        36,
        |i: int|
            if i == 8 || i == 13 || i == 18 || i == 23 {
                '-'
            } else {
                hex_char(nibble(v, i - hyphens_before(i)))
            },
    )
}

/// Formats a UUID given by its 128-bit value with `uuid::Uuid`'s `Display`,
/// which writes the hyphenated lowercase form: the 32 hexadecimal digits of
/// the value, most significant first, with a hyphen after the 8th, 12th,
/// 16th and 20th digit.
#[verifier::external_body]
pub(crate) fn uuid_to_string(v: u128) -> (s: String)
    ensures
        s@ == uuid_text(v),
{
    uuid::Uuid::from_u128(v).to_string()
}

/// A fresh random UUID from `uuid::Uuid::new_v4`. Its bits are random except
/// the version nibble, which is 4, and the two variant bits, which are `10`.
#[verifier::external_body]
pub(crate) fn new_random_id() -> (v: u128)
    ensures
        (v as int / pow(2, 76)) % 16 == 4,
        (v as int / pow(2, 62)) % 4 == 2,
{
    uuid::Uuid::new_v4().as_u128()
}

} // verus!
