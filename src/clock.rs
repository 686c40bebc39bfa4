//! Time as the store keeps it: whole seconds since the Unix epoch.
use vstd::prelude::*;

verus! {

#[verifier::external_type_specification]
#[verifier::external_body]
pub struct ExTimeError(jiff::Error);

/// How long a session lives after login, in seconds.
pub const SESSION_TTL_SECONDS: i64 = 3600;

/// The earliest second that a timestamp can hold.
pub const TIMESTAMP_MIN_SECOND: i64 = -377705023201;

/// The latest second that a timestamp can hold.
pub const TIMESTAMP_MAX_SECOND: i64 = 253402207200;

/// A second that a timestamp can hold.
pub open spec fn in_timestamp_range(second: i64) -> bool {
    TIMESTAMP_MIN_SECOND <= second <= TIMESTAMP_MAX_SECOND
}

/// A session that expires at `expires_at` is still live at `now`: the
/// instant of expiry itself still counts as live.
pub open spec fn is_live(expires_at: i64, now: i64) -> bool {
    expires_at > now
}

/// A session that expires at `expires_at` is due for reaping at `now`.
pub open spec fn is_expired(expires_at: i64, now: i64) -> bool {
    expires_at < now
}

/// The expiry of a session created at `now`: one lifetime later, or the
/// latest representable second if that lies beyond it.
pub open spec fn expiry_after(now: i64) -> i64 {
    if now <= TIMESTAMP_MAX_SECOND - SESSION_TTL_SECONDS {
        (now + SESSION_TTL_SECONDS) as i64
    } else {
        TIMESTAMP_MAX_SECOND
    }
}

/// The expiry of a session created at `now`.
pub fn session_expiry(now: i64) -> (r: i64)
    requires
        in_timestamp_range(now),
    ensures
        r == expiry_after(now),
        in_timestamp_range(r),
{
    if now <= TIMESTAMP_MAX_SECOND - SESSION_TTL_SECONDS {
        now + SESSION_TTL_SECONDS
    } else {
        TIMESTAMP_MAX_SECOND
    }
}

/// The RFC 3339 text of an instant, given in seconds since the Unix epoch.
pub uninterp spec fn timestamp_text(second: i64) -> Seq<char>;

/// Relies on `std::time::SystemTime::now`, jiff's
/// `TryFrom<SystemTime> for Timestamp`, which refuses a time outside jiff's
/// supported range, and `Timestamp::as_second`: the current time in whole
/// seconds, or `None` when the system clock lies outside that range.
#[verifier::external_body]
pub(crate) fn now_second() -> (r: Option<i64>)
    ensures
        r matches Some(s) ==> in_timestamp_range(s),
{
    match jiff::Timestamp::try_from(std::time::SystemTime::now()) {
        Ok(t) => Some(t.as_second()),
        Err(_) => None,
    }
}

/// Relies on jiff's `Timestamp::from_second`, which accepts every second of
/// the supported range, and on the timestamp's `Display`, which writes it in
/// RFC 3339 form.
#[verifier::external_body]
pub(crate) fn format_timestamp(second: i64) -> (r: Result<String, jiff::Error>)
    requires
        in_timestamp_range(second),
    ensures
        r is Ok,
        r matches Ok(s) ==> s@ == timestamp_text(second),
{
    Ok(jiff::Timestamp::from_second(second)?.to_string())
}

} // verus!
