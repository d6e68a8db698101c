//! Correlation identifiers: 128-bit tokens and their text on the wire.

use vstd::prelude::*;

verus! {

/// The sixteen hexadecimal digits, in lower case.
pub open spec fn hex_digits() -> Seq<char> {
    seq!['0', '1', '2', '3', '4', '5', '6', '7', '8', '9', 'a', 'b', 'c', 'd', 'e', 'f']
}

/// Sixteen to the power `n`.
pub open spec fn sixteen_to(n: nat) -> nat
    decreases n,
{
    if n == 0 {
        1
    } else {
        16 * sixteen_to((n - 1) as nat)
    }
}

/// The `i`-th of the 32 hexadecimal digits of `id`, the most significant first.
pub open spec fn id_digit(id: u128, i: int) -> char {
    hex_digits()[((id as int) / (sixteen_to((31 - i) as nat) as int)) % 16]
}

/// How many hyphens stand before position `p` of the hyphenated text.
pub open spec fn hyphens_before(p: int) -> int {
    if p < 8 {
        0
    } else if p < 13 {
        1
    } else if p < 18 {
        2
    } else if p < 23 {
        3
    } else {
        4
    }
}

/// The hyphenated text of an identifier: its 32 hexadecimal digits in lower
/// case, in groups of 8, 4, 4, 4 and 12 with a hyphen between two groups.
pub open spec fn hyphenated_text(id: u128) -> Seq<char> {
    Seq::new(
        36,
        |p: int|
            if p == 8 || p == 13 || p == 18 || p == 23 {
                '-'
            } else {
                id_digit(id, p - hyphens_before(p))
            },
    )
}

/// The identifier that a text denotes, `None` where it denotes none.
pub uninterp spec fn uuid_value(text: Seq<char>) -> Option<u128>;

/// Draws an identifier with `uuid::Uuid::new_v4`. Nothing is claimed of the
/// value: it comes from the operating system's random source, and the call
/// aborts where that source gives nothing.
#[verifier::external_body]
pub(crate) fn random_id() -> (id: u128) {
    uuid::Uuid::new_v4().as_u128()
}

/// Renders an identifier with `uuid::Uuid::to_hyphenated`. Claims that the
/// text is the lower-case hyphenated form, and that `uuid::Uuid::parse_str`
/// reads that form back as the same identifier.
#[verifier::external_body]
fn hyphenate(id: u128) -> (text: String)
    ensures
        text@ == hyphenated_text(id),
        uuid_value(text@) == Some(id),
{
    uuid::Uuid::from_u128(id).to_hyphenated().to_string()
}

/// Reads an identifier with `uuid::Uuid::parse_str`. Claims only that the
/// outcome is a function of the text.
#[verifier::external_body]
fn read_id(text: &str) -> (id: Option<u128>)
    ensures
        id == uuid_value(text@),
{
    match uuid::Uuid::parse_str(text) {
        Ok(u) => Some(u.as_u128()),
        Err(_) => None,
    }
}

/// The text under which `id` travels in a document.
pub fn correlation_text(id: u128) -> (text: String)
    ensures
        text@ == hyphenated_text(id),
        text@.len() == 36,
        uuid_value(text@) == Some(id),
{
    hyphenate(id)
}

/// The identifier that `text` carries, if it carries one.
pub fn parse_correlation(text: &str) -> (id: Option<u128>)
    ensures
        id == uuid_value(text@),
{
    read_id(text)
}

} // verus!
