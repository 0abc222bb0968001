//! Identifiers as text.

use vstd::prelude::*;
use vstd::arithmetic::power::pow;

verus! {

/// The hexadecimal digit of a value below 16, in lower case.
pub open spec fn hex_digit(v: int) -> char {
    if v < 10 {
        ((48 + v) as u8) as char
    } else {
        ((87 + v) as u8) as char
    }
}

/// The `k`-th of the 32 hexadecimal digits of `id`, counted from the left and from 0.
pub open spec fn nibble(id: u128, k: int) -> int {
    (id as int / pow(16, (31 - k) as nat)) % 16
}

/// How many hyphens stand before place `i` of an identifier's text.
pub open spec fn hyphens_before(i: int) -> int {
    if i < 8 {
        0
    } else if i < 13 {
        1
    } else if i < 18 {
        2
    } else if i < 23 {
        3
    } else {
        4
    }
}

/// An identifier as text: its 32 hexadecimal digits in lower case, in groups of
/// 8, 4, 4, 4 and 12 with a hyphen between two groups.
pub open spec fn uuid_text(id: u128) -> Seq<char> {
    Seq::new(
        36,
        |i: int|
            if i == 8 || i == 13 || i == 18 || i == 23 {
                '-'
            } else {
                hex_digit(nibble(id, i - hyphens_before(i)))
            },
    )
}

/// The identifier that a text stands for, as `uuid::Uuid::parse_str` reads it.
pub uninterp spec fn uuid_of_text(text: Seq<char>) -> Option<u128>;

/// Writes an identifier as `uuid::Uuid` displays it: `Uuid::from_u128` followed by
/// `to_string`, which gives the hyphenated form in lower case. That form is one that
/// `Uuid::parse_str` reads, and it reads it back as the identifier that was written.
#[verifier::external_body]
pub(crate) fn id_text(id: u128) -> (text: String)
    ensures
        text@ == uuid_text(id),
        uuid_of_text(text@) == Some(id),
{
    uuid::Uuid::from_u128(id).to_string()
}

/// Reads an identifier with `uuid::Uuid::parse_str` and hands it back as the number
/// that `Uuid::as_u128` gives, or, where the parser refuses the text, what its error
/// says. Which texts the parser accepts is taken on trust and named `uuid_of_text`;
/// nothing is claimed of the wording of the error.
#[verifier::external_body]
pub(crate) fn parse_id(text: &str) -> (r: Result<u128, String>)
    ensures
        match uuid_of_text(text@) {
            Some(id) => r == Ok::<u128, String>(id),
            None => r is Err,
        },
{
    match uuid::Uuid::parse_str(text) {
        Ok(id) => Ok(id.as_u128()),
        Err(e) => Err(e.to_string()),
    }
}

} // verus!
