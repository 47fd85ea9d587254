//! Unique ids, read and written by `uuid`.

use vstd::arithmetic::power::pow;
use vstd::prelude::*;

verus! {

/// The lower-case hexadecimal digit of `n`.
pub open spec fn hex_char(n: int) -> char {
    if n < 10 {
        ('0' as u32 + n) as char
    } else {
        ('a' as u32 + (n - 10)) as char
    }
}

/// How many hyphens come before position `i` of a written id.
pub open spec fn hyphens_before(i: int) -> int {
    if i < 8 {
        0
    } else if i < 13 {
        1
    } else if i < 18 {
        2
    } else if i < 23 {
        3
    } else {
        4
    }
}

/// An id as it is written: thirty-two lower-case hexadecimal digits, most significant first, with
/// hyphens after the eighth, twelfth, sixteenth and twentieth.
pub open spec fn uuid_text(id: u128) -> Seq<char> {
    Seq::new(
        36,
        |i: int|
            if i == 8 || i == 13 || i == 18 || i == 23 {
                '-'
            } else {
                hex_char(id as int / pow(16, (31 - (i - hyphens_before(i))) as nat) % 16)
            },
    )
}

/// The text of an optional id.
pub open spec fn opt_uuid_text(id: Option<u128>) -> Option<Seq<char>> {
    match id {
        Some(u) => Some(uuid_text(u)),
        None => None,
    }
}

/// The id that `uuid::Uuid::parse_str` reads from a text, if it holds one.
pub uninterp spec fn uuid_parsed(text: Seq<char>) -> Option<u128>;

/// Calls `uuid::Uuid::parse_str`, which also reads the hyphenated form that ids are written in.
#[verifier::external_body]
pub(crate) fn parse_uuid(text: &str) -> (out: Option<u128>)
    ensures
        out == uuid_parsed(text@),
        forall|id: u128| text@ == #[trigger] uuid_text(id) ==> out == Some(id),
{
    uuid::Uuid::parse_str(text).ok().map(|id| id.as_u128())
}

/// Calls `to_string` on a `uuid::Uuid`, which writes the hyphenated form in lower case; that form
/// is read back as the same id.
#[verifier::external_body]
pub(crate) fn show_uuid(id: u128) -> (out: String)
    ensures
        out@ == uuid_text(id),
        uuid_parsed(out@) == Some(id),
{
    uuid::Uuid::from_u128(id).to_string()
}

/// Writes an optional id.
pub(crate) fn show_opt_uuid(id: &Option<u128>) -> (out: Option<String>)
    ensures
        crate::text::text_of(out) == opt_uuid_text(*id),
{
    match id {
        Some(u) => Some(show_uuid(*u)),
        None => None,
    }
}

} // verus!
