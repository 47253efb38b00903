//! Trusted bindings to the identifier, clock and formatting facilities that
//! the rest of the library depends on. Everything else in the crate is
//! verified against the contracts stated here.

use vstd::prelude::*;

verus! {

/// The RFC 3339 rendering of a Unix-epoch timestamp given in milliseconds.
/// The rendering is a pure function of the timestamp; its definition is
/// supplied by `chrono` and only named here.
pub uninterp spec fn rfc3339_of(millis: int) -> Seq<char>;

/// Relies on `uuid::Uuid::new_v4`: a freshly generated version-4 identifier,
/// taken as its 128-bit integer value. Nothing is promised of the value.
/// `new_v4` aborts the process if the operating system's randomness source
/// fails, a condition no argument can exclude.
#[verifier::external_body]
pub(crate) fn fresh_uuid_int() -> u128 {
    uuid::Uuid::new_v4().as_u128()
}

/// Relies on `uuid::Uuid::new_v4` and uuid's `Display` impl, which renders
/// the hyphenated form: always 36 characters. Nothing else is promised.
/// `new_v4` aborts the process if the operating system's randomness source
/// fails, a condition no argument can exclude.
#[verifier::external_body]
pub(crate) fn fresh_uuid_string() -> (r: String)
    ensures
        r@.len() == 36,
{
    uuid::Uuid::new_v4().to_string()
}

/// Relies on `chrono::Utc::now` and `DateTime::timestamp_millis`: the
/// current wall-clock time in milliseconds since the Unix epoch. Nothing is
/// promised of the value. `Utc::now` panics on a system clock set before
/// the Unix epoch, a condition no argument can exclude.
#[verifier::external_body]
pub(crate) fn now_millis() -> i64 {
    chrono::Utc::now().timestamp_millis()
}

/// Relies on `chrono::DateTime::from_timestamp_millis` (which is `None` only
/// for timestamps more than about 262,000 years from the common era) and
/// `DateTime::to_rfc3339`, a pure rendering of the timestamp.
#[verifier::external_body]
pub(crate) fn rfc3339_millis(millis: i64) -> (r: Option<String>)
    ensures
        r matches Some(s) ==> s@ == rfc3339_of(millis as int),
        0 <= millis <= 253_402_300_799_999 ==> r is Some,
{
    match chrono::DateTime::from_timestamp_millis(millis) {
        Some(d) => Some(d.to_rfc3339()),
        None => None,
    }
}

/// Relies on `str`'s `PartialEq`: string slices are equal exactly when their
/// character sequences are.
#[verifier::external_body]
pub(crate) fn str_eq(a: &str, b: &str) -> (r: bool)
    ensures
        r == (a@ == b@),
{
    a == b
}

} // verus!
