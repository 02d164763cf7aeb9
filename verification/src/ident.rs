//! Where a new record's identifier and timestamp come from.
//!
//! Both functions here are trusted: their bodies call into the `uuid` and
//! `chrono` crates, and their contracts are stated from those crates'
//! sources, not proved.

use vstd::prelude::*;

verus! {

/// A digit of lower-case hexadecimal.
pub open spec fn is_lower_hex(c: char) -> bool {
    ('0' <= c && c <= '9') || ('a' <= c && c <= 'f')
}

/// The hyphenated lower-case text of a random (version 4) UUID, such as
/// `67e55044-10b1-426f-9247-bb680e5fe0c8`: 36 characters, hyphens after
/// the 8th, 12th, 16th and 20th digit, the version digit `4` and a variant
/// digit from `8` to `b`.
pub open spec fn is_uuid_v4_text(s: Seq<char>) -> bool {
    &&& s.len() == 36
    &&& forall|i: int|
        0 <= i < 36 ==> if i == 8 || i == 13 || i == 18 || i == 23 {
            s[i] == '-'
        } else {
            is_lower_hex(#[trigger] s[i])
        }
    &&& s[14] == '4'
    &&& (s[19] == '8' || s[19] == '9' || s[19] == 'a' || s[19] == 'b')
}

/// A timestamp as RFC 3339 writes it for the zero offset: a date and a time
/// of at least 19 characters, then `+00:00`.
pub open spec fn is_utc_timestamp(s: Seq<char>) -> bool {
    &&& s.len() >= 25
    &&& s[s.len() - 6] == '+'
    &&& s[s.len() - 5] == '0'
    &&& s[s.len() - 4] == '0'
    &&& s[s.len() - 3] == ':'
    &&& s[s.len() - 2] == '0'
    &&& s[s.len() - 1] == '0'
}

/// Draws a random identifier: `uuid::Uuid::new_v4`, written out by its
/// `Display` impl.
///
/// Trusted. `new_v4` fixes the version and variant bits of 128 random bits,
/// and `Display` writes the hyphenated lower-case form; the contract says
/// that shape and nothing of the random digits. Two calls may well differ.
/// `new_v4` panics when the operating system cannot supply random bytes.
#[verifier::external_body]
pub(crate) fn fresh_id() -> (id: String)
    ensures
        is_uuid_v4_text(id@),
{
    uuid::Uuid::new_v4().to_string()
}

/// Reads the clock: `chrono::Utc::now`, written out by
/// `DateTime::to_rfc3339`.
///
/// Trusted. `to_rfc3339` writes the date, `T`, the time with as many
/// fraction digits as the reading needs, and the offset with a colon and
/// without the `Z` shorthand, so for `Utc` the text ends in `+00:00`. The
/// contract says no more: which instant is read is the clock's affair.
/// `Utc::now` panics when the system clock is set before 1970.
#[verifier::external_body]
pub(crate) fn timestamp_now() -> (text: String)
    ensures
        is_utc_timestamp(text@),
{
    chrono::Utc::now().to_rfc3339()
}

} // verus!
