//! Identifiers and time, as the `uuid` and `chrono` crates provide them.

use vstd::prelude::*;
use crate::error::KrownError;

verus! {

/// The lower-case hexadecimal digit of `d` < 16.
pub open spec fn hex_digit(d: nat) -> char {
    if d < 10 {
        ((d + 48) as u8) as char
    } else {
        ((d + 87) as u8) as char
    }
}

pub open spec fn pow16(e: nat) -> nat
    decreases e,
{
    if e == 0 {
        1
    } else {
        16 * pow16((e - 1) as nat)
    }
}

/// Hexadecimal digit `k` of `id`, the most significant first (`k` < 32).
pub open spec fn nibble(id: u128, k: nat) -> nat {
    (id as nat / pow16((31 - k) as nat)) % 16
}

/// Which of the 32 digits stands at position `i` of the hyphenated text.
pub open spec fn digit_at(i: int) -> int {
    if i < 8 {
        i
    } else if i < 13 {
        i - 1
    } else if i < 18 {
        i - 2
    } else if i < 23 {
        i - 3
    } else {
        i - 4
    }
}

/// The canonical text of an identifier: its 32 lower-case hexadecimal
/// digits, most significant first, with a hyphen after the 8th, 12th, 16th
/// and 20th digit.
pub open spec fn hyphenated(id: u128) -> Seq<char> {
    Seq::new(
        36,
        |i: int|
            if i == 8 || i == 13 || i == 18 || i == 23 {
                '-'
            } else {
                hex_digit(nibble(id, digit_at(i) as nat))
            },
    )
}

/// The identifier that a text denotes, if it is one in a form the parser accepts.
pub uninterp spec fn uuid_parse(s: Seq<char>) -> Option<u128>;

/// Relies on `uuid::Uuid::new_v4`: a random identifier whose version nibble is 4.
#[verifier::external_body]
pub(crate) fn fresh_id() -> (r: u128)
    ensures
        (r >> 76u128) & 0xfu128 == 4,
{
    uuid::Uuid::new_v4().as_u128()
}

/// Relies on `uuid::Uuid::from_u128` (digits in big-endian order) and its
/// `Display`, which writes the lower-case hyphenated form.
#[verifier::external_body]
pub(crate) fn id_text(id: u128) -> (r: String)
    ensures
        r@ == hyphenated(id),
{
    uuid::Uuid::from_u128(id).to_string()
}

/// Relies on `uuid::Uuid::parse_str`.
#[verifier::external_body]
pub(crate) fn parse_id(s: &str) -> (r: Option<u128>)
    ensures
        r == uuid_parse(s@),
{
    match uuid::Uuid::parse_str(s) {
        Ok(u) => Some(u.as_u128()),
        Err(_) => None,
    }
}

/// Relies on `std::time::SystemTime::now`, chrono's `From<SystemTime>` for
/// `DateTime<Utc>` (which takes clocks set before the epoch too) and
/// `DateTime::timestamp_millis`: milliseconds since the Unix epoch.
#[verifier::external_body]
pub(crate) fn now_millis() -> (r: i64) {
    chrono::DateTime::<chrono::Utc>::from(std::time::SystemTime::now()).timestamp_millis()
}

/// The text under which the events of session `id` are published.
pub fn session_tag(id: u128) -> (r: String)
    ensures
        r@ == hyphenated(id),
        r@.len() == 36,
{
    id_text(id)
}

/// Reads the identifier in a request path; `what` names the kind of
/// identifier in the error ("session", "server").
pub fn parse_path_id(s: &str, what: &str) -> (r: Result<u128, KrownError>)
    ensures
        match uuid_parse(s@) {
            Some(id) => r == Ok::<u128, KrownError>(id),
            None => r matches Err(KrownError::InvalidInput(m)) && m@ == "Invalid "@ + what@ + " ID"@,
        },
{
    match parse_id(s) {
        Some(id) => Ok(id),
        None => {
            let head = crate::text::joined("Invalid ", what);
            let m = crate::text::joined(head.as_str(), " ID");
            Err(KrownError::InvalidInput(m))
        },
    }
}

} // verus!
