use anng::aio::{IoError, IoErrorKind, IoErrorPayload};
use anng::options::{
    check_map_set_ms_errno, checked_duration_opt_to_nng_ms, checked_duration_to_nng_ms,
    duration_opt_to_nng_ms, duration_to_nng_ms, millis_to_nng_ms,
};
use anng::sys::{ErrorCode, ErrorKind, NNG_DURATION_INFINITE, NNG_ESTATE};
use std::time::Duration;

#[test]
fn duration_to_nng_ms_accepts_zero() {
    assert_eq!(duration_to_nng_ms(Duration::ZERO), 0);
}

#[test]
fn duration_to_nng_ms_accepts_max_i32() {
    assert_eq!(duration_to_nng_ms(Duration::from_millis(i32::MAX as u64)), i32::MAX);
}

#[test]
fn checked_duration_to_nng_ms_refuses_overflow() {
    // Duration::MAX is the worst case a caller can hand us; it must be caught.
    assert_eq!(checked_duration_to_nng_ms(Duration::MAX), None);
    assert_eq!(checked_duration_to_nng_ms(Duration::from_millis(i32::MAX as u64 + 1)), None);
    assert_eq!(checked_duration_to_nng_ms(Duration::from_millis(i32::MAX as u64)), Some(i32::MAX));
}

#[test]
fn duration_to_nng_ms_drops_sub_millisecond_parts() {
    assert_eq!(duration_to_nng_ms(Duration::from_micros(2_999)), 2);
    assert_eq!(duration_to_nng_ms(Duration::from_secs(3)), 3_000);
}

#[test]
fn duration_opt_none_maps_to_infinite() {
    assert_eq!(duration_opt_to_nng_ms(None), NNG_DURATION_INFINITE);
}

#[test]
fn duration_opt_zero_maps_to_infinite() {
    assert_eq!(duration_opt_to_nng_ms(Some(Duration::ZERO)), NNG_DURATION_INFINITE);
}

#[test]
fn duration_opt_positive_maps_to_ms() {
    assert_eq!(duration_opt_to_nng_ms(Some(Duration::from_millis(50))), 50);
}

#[test]
fn checked_duration_opt_refuses_overflow() {
    assert_eq!(checked_duration_opt_to_nng_ms(Some(Duration::MAX)), None);
    assert_eq!(checked_duration_opt_to_nng_ms(None), Some(NNG_DURATION_INFINITE));
    assert_eq!(checked_duration_opt_to_nng_ms(Some(Duration::from_millis(7))), Some(7));
}

#[test]
fn duration_opt_below_a_millisecond_is_zero() {
    // Not zero as a duration, so not "disabled": it converts to zero milliseconds.
    assert_eq!(duration_opt_to_nng_ms(Some(Duration::from_micros(10))), 0);
}

#[test]
fn millis_to_nng_ms_bounds() {
    assert_eq!(millis_to_nng_ms(0), Some(0));
    assert_eq!(millis_to_nng_ms(2_147_483_647), Some(i32::MAX));
    assert_eq!(millis_to_nng_ms(2_147_483_648), None);
    assert_eq!(millis_to_nng_ms(u128::MAX), None);
}

#[test]
fn check_map_set_ms_errno_maps_state_error() {
    assert_eq!(check_map_set_ms_errno(0), Ok(()));
    assert_eq!(
        check_map_set_ms_errno(NNG_ESTATE),
        Err(IoError {
            kind: IoErrorKind::Other,
            payload: IoErrorPayload::Nng(ErrorKind::NngError(ErrorCode::ESTATE)),
        })
    );
}
