//! Expiry arithmetic: the configured time-to-live and the stamp it produces.

use crate::numfmt::{parse_i64, spec_parse_i64};
use vstd::prelude::*;

verus! {

/// The fallback time-to-live, in minutes, when none is configured.
pub open spec fn default_expire_minutes() -> int {
    60
}

/// The configured time-to-live in minutes: the parsed value of the setting
/// when it parses, sixty otherwise.
pub open spec fn spec_expire_minutes(raw: Option<Seq<char>>) -> int {
    match raw {
        Some(s) => match spec_parse_i64(s) {
            Some(v) => v as int,
            None => default_expire_minutes(),
        },
        None => default_expire_minutes(),
    }
}

/// Reads the time-to-live from the raw setting value, falling back to sixty
/// minutes when the setting is absent or does not parse.
pub fn expire_minutes(raw: Option<&str>) -> (r: i64)
    ensures
        r as int == spec_expire_minutes(match raw {
            Some(s) => Some(s@),
            None => None,
        }),
{
    match raw {
        Some(s) => match parse_i64(s) {
            Some(v) => v,
            None => 60,
        },
        None => 60,
    }
}

/// An integer clamped to the `i64` range.
pub open spec fn sat_i64(x: int) -> int {
    if x > i64::MAX {
        i64::MAX as int
    } else if x < i64::MIN {
        i64::MIN as int
    } else {
        x
    }
}

/// The expiry stamp for a reconciliation beginning at `now`: `now` plus the
/// time-to-live in seconds, each step saturating at the ends of the `i64`
/// range instead of overflowing.
pub open spec fn spec_expiry_timestamp(now: int, minutes: int) -> int {
    sat_i64(now + sat_i64(minutes * 60))
}

/// Computes the expiry stamp: `now` plus the time-to-live, saturating
/// instead of overflowing.
pub fn expiry_timestamp(now: i64, minutes: i64) -> (r: i64)
    ensures
        r as int == spec_expiry_timestamp(now as int, minutes as int),
{
    let seconds: i64 = match minutes.checked_mul(60) {
        Some(s) => s,
        None => {
            if minutes > 0 {
                i64::MAX
            } else {
                i64::MIN
            }
        },
    };
    match now.checked_add(seconds) {
        Some(r) => r,
        None => {
            if seconds > 0 {
                i64::MAX
            } else {
                i64::MIN
            }
        },
    }
}

/// A positive time-to-live pushes the expiry strictly past any moment up to
/// `now`: a request reconciled at or after its creation expires after it was
/// created.
pub proof fn lemma_expiry_after_creation(now: int, minutes: int, creation: int)
    requires
        minutes >= 1,
        creation <= now,
        creation < i64::MAX,
        i64::MIN <= now <= i64::MAX,
    ensures
        spec_expiry_timestamp(now, minutes) > creation,
{
}

/// Relies on chrono's `Utc::now`: whole seconds since the Unix epoch at the
/// moment of the call. Nothing is assumed of the value.
#[verifier::external_body]
pub(crate) fn now_ts() -> i64 {
    chrono::Utc::now().timestamp()
}

/// Generates the expiry stamp for a reconciliation beginning now, from the
/// time-to-live in minutes.
pub fn generate_expiry(minutes: i64) -> (r: i64) {
    let now = now_ts();
    expiry_timestamp(now, minutes)
}

} // verus!
