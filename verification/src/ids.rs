//! Meeting ids and scanner tokens are UUIDs. The library holds them as
//! their 128-bit value and goes through the `uuid` crate to read and write
//! their text form.

use vstd::prelude::*;

verus! {

/// The value that `uuid::Uuid::parse_str` reads from `text`, or `None`
/// where it refuses the text.
pub uninterp spec fn parsed_uuid(text: Seq<char>) -> Option<u128>;

/// `16` to the power `e`.
pub open spec fn pow16(e: nat) -> int
    decreases e,
{
    if e == 0 {
        1
    } else {
        16 * pow16((e - 1) as nat)
    }
}

/// The lowercase hexadecimal digit of `n`, for `0 <= n < 16`.
pub open spec fn hex_digit(n: int) -> char {
    if n < 10 {
        (48 + n) as char
    } else {
        (87 + n) as char
    }
}

/// The `k`-th hexadecimal digit of `id`, counted from the most
/// significant one (`0 <= k < 32`).
pub open spec fn nibble(id: u128, k: int) -> int {
    (id as int / pow16((31 - k) as nat)) % 16
}

/// How many hyphens precede position `i` of the hyphenated form.
pub open spec fn hyphens_before(i: int) -> int {
    if i < 9 {
        0
    } else if i < 14 {
        1
    } else if i < 19 {
        2
    } else if i < 24 {
        3
    } else {
        4
    }
}

/// The hyphenated lowercase form of a UUID: 32 hexadecimal digits, most
/// significant first, in groups of 8, 4, 4, 4 and 12 separated by `-`.
pub open spec fn hyphenated_text(id: u128) -> Seq<char> {
    Seq::new(
        36,
        |i: int|
            if i == 8 || i == 13 || i == 18 || i == 23 {
                '-'
            } else {
                hex_digit(nibble(id, i - hyphens_before(i)))
            },
    )
}

/// Parses a UUID with `uuid::Uuid::parse_str` (simple, hyphenated, braced
/// or URN form) and returns its 128-bit value (`Uuid::as_u128`); `None`
/// where the crate refuses the text. What the crate accepts is left to
/// the name `parsed_uuid`.
#[verifier::external_body]
pub(crate) fn parse_uuid(text: &str) -> (r: Option<u128>)
    ensures
        r == parsed_uuid(text@),
{
    match uuid::Uuid::parse_str(text) {
        Ok(id) => Some(id.as_u128()),
        Err(_) => None,
    }
}

/// Writes a UUID with `uuid::Uuid::to_string` (its `Display`, the
/// hyphenated lowercase form). The crate reads that form back to the
/// same value.
#[verifier::external_body]
pub(crate) fn uuid_text(id: u128) -> (r: String)
    ensures
        r@ == hyphenated_text(id),
        parsed_uuid(r@) == Some(id),
{
    uuid::Uuid::from_u128(id).to_string()
}

} // verus!
