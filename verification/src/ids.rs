//! Correlation ids: 128-bit values drawn at random, written the way UUIDs
//! are.

use crate::text::digit_char;
use vstd::arithmetic::power::pow;
use vstd::prelude::*;

verus! {

/// The bits that every version-4 UUID has in common: the version nibble is
/// 4 and the two variant bits are `10`.
pub open spec fn is_random_uuid(id: u128) -> bool {
    id & 0x0000_0000_0000_f000_c000_0000_0000_0000u128
        == 0x0000_0000_0000_4000_8000_0000_0000_0000u128
}

/// The lower-case character of the hexadecimal digit `d` (`0 <= d <= 15`).
pub open spec fn hex_char(d: nat) -> char {
    if d < 10 {
        digit_char(d)
    } else {
        ((87 + d) as u8) as char
    }
}

/// The `k`-th of the 32 hexadecimal digits of `id`, the most significant
/// being the 0th.
pub open spec fn hex_digit(id: u128, k: int) -> nat {
    ((id as int / pow(16, (31 - k) as nat)) % 16) as nat
}

/// The 36 characters of `id` in the hyphenated form
/// `xxxxxxxx-xxxx-xxxx-xxxx-xxxxxxxxxxxx`.
pub open spec fn hyphenated(id: u128) -> Seq<char> {
    Seq::new(
        36,
        |i: int|
            if i == 8 || i == 13 || i == 18 || i == 23 {
                '-'
            } else if i < 8 {
                hex_char(hex_digit(id, i))
            } else if i < 13 {
                hex_char(hex_digit(id, i - 1))
            } else if i < 18 {
                hex_char(hex_digit(id, i - 2))
            } else if i < 23 {
                hex_char(hex_digit(id, i - 3))
            } else {
                hex_char(hex_digit(id, i - 4))
            },
    )
}

/// `uuid::Uuid::new_v4`, read through `Uuid::as_u128`: a random version-4
/// UUID. Of the value only the version and variant bits are known. The
/// crate panics where the system has no random bytes to give.
#[verifier::external_body]
pub(crate) fn random_id() -> (id: u128)
    ensures
        is_random_uuid(id),
{
    uuid::Uuid::new_v4().as_u128()
}

/// `uuid::Uuid::from_u128` followed by the `to_string` of the crate's
/// `Display`: the lower-case hyphenated form of `id`.
#[verifier::external_body]
pub(crate) fn id_text(id: u128) -> (text: String)
    ensures
        text@ == hyphenated(id),
{
    uuid::Uuid::from_u128(id).to_string()
}

} // verus!
