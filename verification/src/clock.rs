//! The clock and fresh account ids: values that each call draws anew.
use vstd::prelude::*;

verus! {

#[verifier::external_type_specification]
#[verifier::external_body]
pub struct ExSystemTime(std::time::SystemTime);

/// `SystemTime::now`. Nothing is claimed of the time it returns.
#[verifier::external_body]
fn system_time_now() -> std::time::SystemTime {
    std::time::SystemTime::now()
}

/// `SystemTime::duration_since(UNIX_EPOCH)`, with the error (a time before
/// the epoch) turned into `None`. Nothing is claimed of the duration.
#[verifier::external_body]
fn since_unix_epoch(t: &std::time::SystemTime) -> Option<std::time::Duration> {
    t.duration_since(std::time::UNIX_EPOCH).ok()
}

/// `Duration::as_secs`. Nothing is claimed of the count.
#[verifier::external_body]
fn whole_seconds(d: &std::time::Duration) -> u64 {
    d.as_secs()
}

/// Seconds since the Unix epoch as stored: the count converted with `as i64`,
/// or `0` for a clock set before the epoch.
pub open spec fn stored_seconds(elapsed: Option<u64>) -> i64 {
    match elapsed {
        Some(s) => s as i64,
        None => 0,
    }
}

/// The stored form of an elapsed time.
pub fn seconds_value(elapsed: Option<u64>) -> (res: i64)
    ensures
        res == stored_seconds(elapsed),
{
    match elapsed {
        Some(s) => s as i64,
        None => 0,
    }
}

/// The current time in seconds since the Unix epoch (`0` for a clock set
/// before the epoch). What time it is is up to the system clock.
pub fn now_unix_seconds() -> (res: i64)
{
    let now = system_time_now();
    let elapsed = match since_unix_epoch(&now) {
        Some(d) => Some(whole_seconds(&d)),
        None => None,
    };
    seconds_value(elapsed)
}

pub open spec fn is_lower_hex_digit(c: char) -> bool {
    ('0' <= c && c <= '9') || ('a' <= c && c <= 'f')
}

/// The shape of a random (version 4) UUID in hyphenated lower-case form:
/// 36 characters, hyphens at 8, 13, 18 and 23, version digit `4`, variant
/// digit one of `8 9 a b`, lower-case hex digits elsewhere.
pub open spec fn is_v4_uuid_text(s: Seq<char>) -> bool {
    &&& s.len() == 36
    &&& forall|i: int|
        0 <= i < 36 ==> if i == 8 || i == 13 || i == 18 || i == 23 {
            s[i] == '-'
        } else {
            is_lower_hex_digit(#[trigger] s[i])
        }
    &&& s[14] == '4'
    &&& (s[19] == '8' || s[19] == '9' || s[19] == 'a' || s[19] == 'b')
}

/// A fresh random account id: `uuid::Uuid::new_v4()`, written with its
/// `Display` (hyphenated, lower case). The contract states the text's shape,
/// which the uuid crate documents; which id comes out is up to chance.
#[verifier::external_body]
pub fn new_account_id() -> (res: String)
    ensures
        is_v4_uuid_text(res@),
{
    uuid::Uuid::new_v4().to_string()
}

} // verus!
