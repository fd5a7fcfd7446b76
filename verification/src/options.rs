//! Conversions of durations into NNG's millisecond durations, and the check of the result of
//! setting a millisecond option.
use crate::nng::{duration_secs_of, duration_subsec_millis_of, duration_to_nng_value};
use crate::aio::{IoError, IoErrorKind, IoErrorPayload};
use crate::sys::{ErrorCode, ErrorKind, NNG_DURATION_INFINITE, NNG_ESTATE};
use core::time::Duration;
use vstd::prelude::*;

verus! {

/// The total number of whole milliseconds in a duration: its whole seconds in milliseconds
/// plus the whole milliseconds of its fractional second.
pub open spec fn duration_millis_of(d: Duration) -> int {
    duration_secs_of(d) * 1000 + duration_subsec_millis_of(d)
}

/// Whether a duration spans no time, as `Duration::is_zero` tells.
pub uninterp spec fn duration_is_zero_of(d: Duration) -> bool;

/// `Duration::as_millis`: the total number of whole milliseconds in `d`, which the
/// documentation gives as its whole seconds in milliseconds plus the whole milliseconds of its
/// fractional second (`Duration::as_secs` and `Duration::subsec_millis`).
#[verifier::external_body]
fn duration_as_millis(d: Duration) -> (r: u128)
    ensures
        r == duration_millis_of(d),
{
    d.as_millis()
}

/// `Duration::is_zero`: whether `d` spans no time, which depends on `d` alone; a duration that
/// spans no time has no whole seconds and no milliseconds.
#[verifier::external_body]
fn duration_is_zero(d: Duration) -> (r: bool)
    ensures
        r == duration_is_zero_of(d),
        r ==> duration_secs_of(d) == 0 && duration_subsec_millis_of(d) == 0,
{
    d.is_zero()
}

/// The NNG duration of a number of milliseconds: the number itself where it fits in an `i32`,
/// else nothing.
pub open spec fn millis_value(ms: int) -> Option<i32> {
    if ms <= i32::MAX {
        Some(ms as i32)
    } else {
        None
    }
}

/// Converts a number of milliseconds into an NNG duration, or `None` when it exceeds
/// `i32::MAX`.
pub fn millis_to_nng_ms(ms: u128) -> (r: Option<i32>)
    ensures
        r == millis_value(ms as int),
{
    if ms > 0x7fff_ffff {
        None
    } else {
        Some(ms as i32)
    }
}

/// Converts a duration into an NNG duration in milliseconds (the sub-millisecond remainder is
/// dropped). The duration must not exceed `i32::MAX` milliseconds; see
/// [`checked_duration_to_nng_ms`] for a conversion that tests this.
pub fn duration_to_nng_ms(duration: Duration) -> (r: i32)
    requires
        duration_millis_of(duration) <= i32::MAX,
    ensures
        r == duration_millis_of(duration),
{
    let ms = duration_as_millis(duration);
    ms as i32
}

/// Converts a duration into an NNG duration in milliseconds as [`duration_to_nng_ms`] does, or
/// returns `None` when it exceeds `i32::MAX` milliseconds.
pub fn checked_duration_to_nng_ms(duration: Duration) -> (r: Option<i32>)
    ensures
        r == millis_value(duration_millis_of(duration)),
        r matches Some(ms) ==> ms >= 0,
{
    let ms = duration_as_millis(duration);
    if ms > 0x7fff_ffff {
        None
    } else {
        Some(duration_to_nng_ms(duration))
    }
}

/// The NNG duration of an optional duration: `NNG_DURATION_INFINITE` when it is absent or
/// zero, else its milliseconds.
pub open spec fn opt_millis_value(duration: Option<Duration>) -> Option<i32> {
    match duration {
        None => Some(NNG_DURATION_INFINITE),
        Some(d) => if duration_is_zero_of(d) {
            Some(NNG_DURATION_INFINITE)
        } else {
            millis_value(duration_millis_of(d))
        },
    }
}

/// Converts an optional duration to an NNG duration, mapping the "disabled" cases to
/// `NNG_DURATION_INFINITE`.
///
/// `None` means "disable the duration-driven behaviour"; `Some(Duration::ZERO)` is treated the
/// same way. Any positive duration is converted by [`duration_to_nng_ms`], and must not exceed
/// `i32::MAX` milliseconds; see [`checked_duration_opt_to_nng_ms`] for a conversion that tests
/// this.
pub fn duration_opt_to_nng_ms(duration: Option<Duration>) -> (r: i32)
    requires
        opt_millis_value(duration) is Some,
    ensures
        Some(r) == opt_millis_value(duration),
        r >= 0 || r == NNG_DURATION_INFINITE,
{
    match duration {
        None => NNG_DURATION_INFINITE,
        Some(d) => {
            if duration_is_zero(d) {
                NNG_DURATION_INFINITE
            } else {
                duration_to_nng_ms(d)
            }
        },
    }
}

/// Converts an optional duration as [`duration_opt_to_nng_ms`] does, or returns `None` when a
/// positive duration exceeds `i32::MAX` milliseconds.
pub fn checked_duration_opt_to_nng_ms(duration: Option<Duration>) -> (r: Option<i32>)
    ensures
        r == opt_millis_value(duration),
        r matches Some(ms) ==> ms >= 0 || ms == NNG_DURATION_INFINITE,
{
    match duration {
        None => Some(duration_opt_to_nng_ms(duration)),
        Some(d) => {
            if duration_is_zero(d) {
                Some(duration_opt_to_nng_ms(duration))
            } else {
                match checked_duration_to_nng_ms(d) {
                    Some(_) => Some(duration_opt_to_nng_ms(duration)),
                    None => None,
                }
            }
        },
    }
}

/// Maps the result of setting a millisecond option on a live socket or context.
///
/// Success gives `Ok`; `NNG_ESTATE` (the protocol is in a state that refuses the change) gives
/// an [`IoErrorKind::Other`] error carrying that NNG error. NNG documents other results (a
/// closed handle, an invalid duration, an unsupported or read-only option), but each is ruled
/// out by the callers, which pass a live handle, a checked duration and an option that the
/// protocol supports.
pub fn check_map_set_ms_errno(errno: u32) -> (r: Result<(), IoError>)
    requires
        errno == 0 || errno == NNG_ESTATE,
    ensures
        errno == 0 ==> r is Ok,
        errno == NNG_ESTATE ==> (r matches Err(e) && e.kind == IoErrorKind::Other && e.payload
            == IoErrorPayload::Nng(ErrorKind::NngError(ErrorCode::ESTATE))),
{
    if errno == 0 {
        Ok(())
    } else {
        Err(
            IoError {
                kind: IoErrorKind::Other,
                payload: IoErrorPayload::Nng(ErrorKind::NngError(ErrorCode::ESTATE)),
            },
        )
    }
}

/// The two millisecond conversions of a duration agree wherever the refusing one accepts it:
/// on a duration of at most `i32::MAX` milliseconds, [`duration_to_nng_ms`] and the saturating
/// [`crate::nng::duration_to_nng`] give the same number.
pub proof fn lemma_duration_conversions_agree(d: Duration)
    ensures
        millis_value(duration_millis_of(d)) matches Some(ms) ==> duration_to_nng_value(Some(d))
            == ms,
{
}

} // verus!
