//! The well-known identifiers of the mesh, and the textual form of an
//! identifier.
//!
//! An identifier is a 128-bit number; its text is the usual 36-character
//! hyphenated lower-case hexadecimal form.

pub mod app;
pub mod permission;
pub mod schema;
pub mod service;
pub mod special;
pub mod types;

use vstd::arithmetic::power::pow;
use vstd::prelude::*;

verus! {

/// The character that writes the hexadecimal digit `n`, in lower case.
pub open spec fn hex_char(n: int) -> char {
    seq!['0', '1', '2', '3', '4', '5', '6', '7', '8', '9', 'a', 'b', 'c', 'd', 'e', 'f'][n]
}

/// The `k`-th hexadecimal digit of `id`, counting from the most significant
/// (`k == 0`) to the least (`k == 31`).
pub open spec fn hex_digit(id: u128, k: int) -> int {
    (id as int / pow(16, (31 - k) as nat)) % 16
}

/// The character at position `i` of the hyphenated text of `id`.
pub open spec fn uuid_char(id: u128, i: int) -> char {
    if i == 8 || i == 13 || i == 18 || i == 23 {
        '-'
    } else if i < 8 {
        hex_char(hex_digit(id, i))
    } else if i < 13 {
        hex_char(hex_digit(id, i - 1))
    } else if i < 18 {
        hex_char(hex_digit(id, i - 2))
    } else if i < 23 {
        hex_char(hex_digit(id, i - 3))
    } else {
        hex_char(hex_digit(id, i - 4))
    }
}

/// The hyphenated text of `id`: 32 lower-case hexadecimal digits, most
/// significant first, in groups of 8, 4, 4, 4 and 12 separated by `-`.
pub open spec fn uuid_text(id: u128) -> Seq<char> {
    Seq::new(36, |i: int| uuid_char(id, i))
}

/// Renders an identifier through `uuid::Uuid::from_u128` and the hyphenated
/// formatter of the `uuid` crate. The contract claims that the result is the
/// 36-character lower-case form described by [`uuid_text`].
#[verifier::external_body]
pub(crate) fn hyphenated(id: u128) -> (s: String)
    ensures
        s@ == uuid_text(id),
{
    uuid::Uuid::from_u128(id).hyphenated().to_string()
}

/// The hyphenated text of an identifier.
pub fn to_text(id: u128) -> (s: String)
    ensures
        s@ == uuid_text(id),
        s@.len() == 36,
{
    hyphenated(id)
}

} // verus!
