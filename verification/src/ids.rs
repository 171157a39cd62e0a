//! The text form of identifiers, done by the `uuid` crate.

use vstd::prelude::*;
use vstd::arithmetic::power2::pow2;

verus! {

/// The lower-case hexadecimal digit for `n` in `0..16`.
pub open spec fn hex_digit(n: int) -> char {
    if n < 10 {
        (48 + n) as char
    } else {
        (87 + n) as char
    }
}

/// The `d`-th of the 32 hexadecimal digits of `id`, counted from the most significant.
pub open spec fn uuid_nibble(id: u128, d: int) -> int {
    (id as int / pow2((4 * (31 - d)) as nat) as int) % 16
}

/// Which hexadecimal digit stands at position `i` of the hyphenated form.
pub open spec fn uuid_digit_index(i: int) -> int {
    if i < 8 {
        i
    } else if i < 13 {
        i - 1
    } else if i < 18 {
        i - 2
    } else if i < 23 {
        i - 3
    } else {
        i - 4
    }
}

/// The hyphenated lower-case form of a UUID, `xxxxxxxx-xxxx-xxxx-xxxx-xxxxxxxxxxxx`,
/// its 32 digits written from the most significant.
pub open spec fn uuid_text(id: u128) -> Seq<char> {
    Seq::new(
        36,
        |i: int|
            if i == 8 || i == 13 || i == 18 || i == 23 {
                '-'
            } else {
                hex_digit(uuid_nibble(id, uuid_digit_index(i)))
            },
    )
}

/// Calls `uuid::Uuid::from_u128(id).to_string()`.
///
/// Claimed: the result is the hyphenated lower-case form `uuid_text(id)`, which is
/// what the crate's `Display` writes (through `LowerHex` and `Hyphenated`).
#[verifier::external_body]
pub(crate) fn uuid_to_string(id: u128) -> (s: String)
    ensures
        s@ == uuid_text(id),
{
    uuid::Uuid::from_u128(id).to_string()
}

} // verus!
