//! The clock and the identifier source.

use vstd::prelude::*;
use vstd::arithmetic::power::pow;
use crate::hex::hex_digit;
use crate::text::opt_view;

verus! {

/// The current time in milliseconds since the Unix epoch (chrono's
/// `Utc::now().timestamp_millis()`). Only that it is not negative is
/// claimed (`Utc::now` refuses a clock set before the epoch); otherwise it
/// is whatever the system clock reads.
#[verifier::external_body]
pub(crate) fn now_millis() -> (r: i64)
    ensures
        r >= 0,
{
    chrono::Utc::now().timestamp_millis()
}

/// A fresh random (version 4) UUID as a 128-bit integer (uuid's
/// `Uuid::new_v4().as_u128()`). Nothing is claimed of the value.
#[verifier::external_body]
pub(crate) fn new_uuid() -> u128 {
    uuid::Uuid::new_v4().as_u128()
}

/// What chrono's `DateTime::parse_from_rfc3339` makes of a text: the
/// instant in milliseconds since the Unix epoch, or the text of its parse
/// error.
pub uninterp spec fn rfc3339_outcome(s: Seq<char>) -> Result<i64, Seq<char>>;

/// chrono's `DateTime::parse_from_rfc3339`, the instant taken as UTC
/// milliseconds and the error as its text. The outcome is named: it depends
/// on the text alone.
#[verifier::external_body]
pub(crate) fn parse_rfc3339_millis(s: &str) -> (r: Result<i64, String>)
    ensures
        match r {
            Ok(t) => rfc3339_outcome(s@) == Ok::<i64, Seq<char>>(t),
            Err(m) => rfc3339_outcome(s@) == Err::<i64, Seq<char>>(m@),
        },
{
    match chrono::DateTime::parse_from_rfc3339(s) {
        Ok(dt) => Ok(dt.timestamp_millis()),
        Err(e) => Err(e.to_string()),
    }
}

/// What uuid's `Uuid::parse_str` makes of a text: the UUID's 128-bit value,
/// or the text of its parse error.
pub uninterp spec fn uuid_outcome(s: Seq<char>) -> Result<u128, Seq<char>>;

/// uuid's `Uuid::parse_str`, the UUID as its 128-bit value and the error
/// as its text. The outcome is named: it depends on the text alone.
#[verifier::external_body]
pub(crate) fn parse_uuid(s: &str) -> (r: Result<u128, String>)
    ensures
        match r {
            Ok(v) => uuid_outcome(s@) == Ok::<u128, Seq<char>>(v),
            Err(m) => uuid_outcome(s@) == Err::<u128, Seq<char>>(m@),
        },
{
    match uuid::Uuid::parse_str(s) {
        Ok(u) => Ok(u.as_u128()),
        Err(e) => Err(e.to_string()),
    }
}

/// The hyphenated lowercase text of a UUID held as a 128-bit integer: its
/// 32 hexadecimal digits, most significant first, in groups of 8, 4, 4, 4
/// and 12 joined by `-`.
pub open spec fn uuid_text_of(id: u128) -> Seq<char> {
    let d = Seq::new(32, |k: int| hex_digit(((id as int / pow(16, (31 - k) as nat)) % 16) as u8));
    d.subrange(0, 8) + seq!['-'] + d.subrange(8, 12) + seq!['-'] + d.subrange(12, 16) + seq!['-']
        + d.subrange(16, 20) + seq!['-'] + d.subrange(20, 32)
}

/// uuid's `Uuid::from_u128(id).to_string()`: the hyphenated lowercase text
/// (`Display` writes `as_hyphenated` in lower case) of the UUID whose
/// big-endian bytes are `id`.
#[verifier::external_body]
pub(crate) fn format_uuid(id: u128) -> (r: String)
    ensures
        r@ == uuid_text_of(id),
{
    uuid::Uuid::from_u128(id).to_string()
}

/// What chrono writes for an instant given in milliseconds since the Unix
/// epoch: `DateTime::<Utc>::from_timestamp_millis` followed by
/// `to_rfc3339`; nothing for an instant chrono cannot represent.
pub uninterp spec fn rfc3339_text_of(ms: i64) -> Option<Seq<char>>;

/// chrono's `DateTime::<Utc>::from_timestamp_millis(ms)` written with
/// `to_rfc3339`. The text is named, not described: it depends on the
/// instant alone (the offset is always UTC).
#[verifier::external_body]
pub(crate) fn format_rfc3339_millis(ms: i64) -> (r: Option<String>)
    ensures
        opt_view(r) == rfc3339_text_of(ms),
{
    match chrono::DateTime::<chrono::Utc>::from_timestamp_millis(ms) {
        Some(d) => Some(d.to_rfc3339()),
        None => None,
    }
}

} // verus!
