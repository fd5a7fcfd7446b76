use anng::protocols::{
    dialer_start_outcome, endpoint_create_outcome, listener_start_outcome, max_ttl_value,
    remote_addr_outcome, send_buffer_value,
    survey_response, survey_try_response, unsubscribe_outcome, Surveyor0, SupportsContext,
};
use anng::sys::{
    nng_err, NNG_EADDRINUSE, NNG_EADDRINVAL, NNG_EAGAIN, NNG_ECANCELED, NNG_ECLOSED,
    NNG_ECONNREFUSED, NNG_ENOENT, NNG_ENOTSUP, NNG_EPERM, NNG_ESTATE,
};
use anng::aio::{IoErrorKind, IoErrorPayload};
use anng::{AioError, Message, NngError};

fn estate() -> AioError {
    AioError::Operation(NngError::NngError(nng_err(NNG_ESTATE)))
}

fn closed() -> AioError {
    AioError::Operation(NngError::NngError(nng_err(NNG_ECLOSED)))
}

fn supports_context<P: SupportsContext>(_p: P) -> bool {
    true
}

#[test]
fn survey_responses_end_on_timeout_or_state_error() {
    let r = survey_response(Ok(Message::from(b"yes".as_slice())));
    assert_eq!(r.unwrap().unwrap().as_slice(), b"yes");
    assert!(survey_response(Err(AioError::TimedOut)).is_none());
    assert!(survey_response(Err(estate())).is_none());
    assert!(matches!(survey_response(Err(closed())), Some(Err(e)) if e == closed()));
    assert!(matches!(survey_response(Err(AioError::Cancelled)), Some(Err(AioError::Cancelled))));
}

#[test]
fn survey_try_responses() {
    assert!(survey_try_response(Ok(None)).is_none());
    let r = survey_try_response(Ok(Some(Message::from(b"no".as_slice()))));
    assert_eq!(r.unwrap().unwrap().unwrap().as_slice(), b"no");
    assert!(matches!(survey_try_response(Err(estate())), Some(Ok(None))));
    assert!(matches!(survey_try_response(Err(AioError::TimedOut)), Some(Err(AioError::TimedOut))));
}

#[test]
fn stateful_protocols_support_contexts() {
    assert!(supports_context(Surveyor0));
    assert!(supports_context(anng::protocols::Req0));
    assert!(supports_context(anng::protocols::Respondent0));
}

#[test]
fn endpoint_creation_outcomes() {
    assert_eq!(endpoint_create_outcome(0), Ok(()));
    assert_eq!(endpoint_create_outcome(NNG_ECLOSED), Err(closed()));
    assert_eq!(
        endpoint_create_outcome(NNG_EADDRINVAL),
        Err(AioError::Operation(NngError::NngError(nng_err(NNG_EADDRINVAL))))
    );
    assert_eq!(
        endpoint_create_outcome(NNG_ENOTSUP),
        Err(AioError::Operation(NngError::NngError(nng_err(NNG_ENOTSUP))))
    );
}

#[test]
fn listener_start_outcomes() {
    assert_eq!(listener_start_outcome(0), Ok(()));
    assert_eq!(
        listener_start_outcome(NNG_EADDRINUSE),
        Err(AioError::Operation(NngError::NngError(nng_err(NNG_EADDRINUSE))))
    );
    assert_eq!(
        listener_start_outcome(NNG_EPERM),
        Err(AioError::Operation(NngError::NngError(nng_err(NNG_EPERM))))
    );
}

#[test]
fn dialer_start_outcomes() {
    assert_eq!(dialer_start_outcome(0), Ok(()));
    assert_eq!(dialer_start_outcome(NNG_ECANCELED), Err(AioError::Cancelled));
    // A temporary name-resolution failure is reported as an invalid address.
    assert_eq!(
        dialer_start_outcome(NNG_EAGAIN),
        Err(AioError::Operation(NngError::NngError(nng_err(NNG_EADDRINVAL))))
    );
    assert_eq!(
        dialer_start_outcome(NNG_ECONNREFUSED),
        Err(AioError::Operation(NngError::NngError(nng_err(NNG_ECONNREFUSED))))
    );
}

#[test]
fn unsubscribe_outcomes() {
    assert!(unsubscribe_outcome(0));
    assert!(!unsubscribe_outcome(NNG_ENOENT));
}

#[test]
fn test_send_buffer_configuration() {
    // Various buffer sizes
    assert_eq!(send_buffer_value(0), Ok(0)); // Unbuffered
    assert_eq!(send_buffer_value(1), Ok(1)); // Minimal buffering
    assert_eq!(send_buffer_value(128), Ok(128)); // Moderate buffering
    assert_eq!(send_buffer_value(8192), Ok(8192)); // Maximum buffering

    // Invalid values
    let result = send_buffer_value(8193);
    assert!(result.is_err());
    let error = result.unwrap_err();
    assert_eq!(error.kind, IoErrorKind::InvalidInput);
    let message = match error.payload {
        IoErrorPayload::Text(m) => m,
        IoErrorPayload::Nng(_) => panic!("expected a message"),
    };
    assert!(message.contains("8193"));
    assert!(message.contains("maximum of 8192"));
    assert_eq!(message, "send buffer size 8193 exceeds maximum of 8192");
}

#[test]
fn survey_try_response_hands_on_a_context_time_out() {
    let timed_out = AioError::Operation(NngError::NngError(nng_err(5)));
    assert!(matches!(survey_try_response(Err(timed_out)), Some(Err(e)) if e == timed_out));
}

#[test]
fn max_ttl_values() {
    assert_eq!(max_ttl_value(1), 1);
    assert_eq!(max_ttl_value(5), 5);
    assert_eq!(max_ttl_value(15), 15);
}

#[test]
fn remote_addr_outcomes() {
    assert!(remote_addr_outcome(0));
    assert!(!remote_addr_outcome(NNG_ENOTSUP));
    assert!(!remote_addr_outcome(NNG_ENOENT));
    assert!(!remote_addr_outcome(0x1000_0000 | 13));
}
