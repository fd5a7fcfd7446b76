use anng::aio::IoErrorKind;
use anng::aio::try_extract_special_error;
use anng::nng::{duration_parts_to_nng, duration_to_nng, Error, Params, Pipe, PipeEvent};
use anng::sys::{
    nng_err, nng_init_params, nng_pipe, nng_sockaddr_family, nng_stat_type_enum, nng_unit_enum,
    EnumFromIntError, ErrorCode, ErrorKind, NNG_ECANCELED, NNG_ECLOSED, NNG_ESTATE, NNG_ESYSERR,
    NNG_ETIMEDOUT, NNG_ETRANERR,
};
use anng::{AioError, NngError, NonZeroU16, NonZeroU32};
use std::time::Duration;

fn nz32(n: u32) -> NonZeroU32 {
    NonZeroU32::new(n).unwrap()
}

#[test]
fn aio_error_from_nng_err_variants() {
    assert_eq!(AioError::from_nng_err(nng_err(NNG_ECANCELED)), AioError::Cancelled);
    assert_eq!(AioError::from_nng_err(nng_err(NNG_ETIMEDOUT)), AioError::TimedOut);
    assert_eq!(
        AioError::from_nng_err(nng_err(NNG_ECLOSED)),
        AioError::Operation(NngError::NngError(nng_err(NNG_ECLOSED)))
    );
    assert_eq!(
        AioError::from_nng_err(nng_err(NNG_ETRANERR | 7)),
        AioError::Operation(NngError::Transport(7))
    );
    // A system error becomes the kind the standard library gives the OS error number.
    let expected = std::io::Error::from_raw_os_error(2).kind();
    assert_eq!(
        AioError::from_nng_err(nng_err(NNG_ESYSERR | 2)),
        AioError::Operation(NngError::System(expected))
    );
    // The system flag takes precedence over the transport flag.
    assert!(matches!(
        AioError::from_nng_err(nng_err(NNG_ESYSERR | NNG_ETRANERR | 2)),
        AioError::Operation(NngError::System(_))
    ));
}

#[test]
fn aio_error_from_nz_u32_variants() {
    assert_eq!(AioError::from_nz_u32(nz32(NNG_ECANCELED)), AioError::Cancelled);
    assert_eq!(AioError::from_nz_u32(nz32(NNG_ETIMEDOUT)), AioError::TimedOut);
    assert_eq!(
        AioError::from_nz_u32(nz32(NNG_ESTATE)),
        AioError::Operation(NngError::NngError(nng_err(NNG_ESTATE)))
    );
    assert_eq!(
        AioError::from_nz_u32(nz32(NNG_ETRANERR | 3)),
        AioError::Operation(NngError::Transport(3))
    );
    assert_eq!(AioError::from_nz_u32(nz32(500)), AioError::Operation(NngError::Other(nz32(500))));
}

#[test]
fn error_conversions_agree_on_reported_numbers() {
    for code in [1u32, 7, 11, 20, 5, 999, 1000, NNG_ETRANERR | 9] {
        assert_eq!(AioError::from_nz_u32(nz32(code)), AioError::from_nng_err(nng_err(code)));
    }
    // Elsewhere they differ.
    assert_ne!(AioError::from_nz_u32(nz32(500)), AioError::from_nng_err(nng_err(500)));
}

#[test]
fn special_errors_are_extracted() {
    assert_eq!(try_extract_special_error(NNG_ECLOSED), None);
    assert_eq!(try_extract_special_error(NNG_ETRANERR | 42), Some(NngError::Transport(42)));
    assert!(matches!(try_extract_special_error(NNG_ESYSERR | 1), Some(NngError::System(_))));
}

#[test]
fn error_kind_from_nng_err() {
    assert_eq!(ErrorKind::from_nng_err(nng_err(NNG_ECLOSED)), ErrorKind::NngError(ErrorCode::ECLOSED));
    assert_eq!(ErrorKind::from_nng_err(nng_err(NNG_ETRANERR | 5)), ErrorKind::Transport(5));
    let expected = std::io::Error::from_raw_os_error(13).kind();
    assert_eq!(ErrorKind::from_nng_err(nng_err(NNG_ESYSERR | 13)), ErrorKind::System(expected));
    // Here the transport flag takes precedence over the system flag.
    assert_eq!(
        ErrorKind::from_nng_err(nng_err(NNG_ESYSERR | NNG_ETRANERR | 4)),
        ErrorKind::Transport(NNG_ESYSERR | 4)
    );
    assert_eq!(ErrorKind::from_nng_err(nng_err(28)), ErrorKind::Other(nz32(28)));
}

#[test]
fn error_codes_round_trip() {
    for code in 0u32..1100 {
        match ErrorCode::from_code(code) {
            Some(c) => assert_eq!(c.code(), code),
            None => assert!(code == 0 || (28..=29).contains(&code) || (32..999).contains(&code) || code > 1000),
        }
    }
    assert_eq!(ErrorCode::from_code(999), Some(ErrorCode::ESTOPPED));
    assert_eq!(ErrorCode::EINTERNAL.code(), 1000);
}

#[test]
fn enum_conversions() {
    assert_eq!(nng_stat_type_enum::try_convert_from(5), Some(nng_stat_type_enum::NNG_STAT_ID));
    assert_eq!(nng_stat_type_enum::try_convert_from(6), None);
    assert_eq!(nng_unit_enum::try_convert_from(3), Some(nng_unit_enum::NNG_UNIT_MILLIS));
    assert_eq!(nng_unit_enum::try_convert_from(-1), None);
    assert_eq!(nng_sockaddr_family::try_convert_from(4), Some(nng_sockaddr_family::NNG_AF_INET6));
    assert_eq!(nng_sockaddr_family::try_convert_from(6), None);
    assert_eq!(EnumFromIntError(6), EnumFromIntError(6));
}

#[test]
fn nng_error_from_code() {
    assert_eq!(Error::from(nz32(NNG_ECLOSED)), Error::Closed);
    assert_eq!(Error::from(nz32(NNG_ESTATE)), Error::IncorrectState);
    assert_eq!(Error::from(nz32(NNG_ESYSERR | 2)), Error::SystemErr(2));
    assert_eq!(Error::from(nz32(NNG_ETRANERR | 3)), Error::TransportErr(3));
    assert_eq!(Error::from(nz32(999)), Error::Unknown(999));
}

#[test]
fn nng_error_text() {
    assert_eq!(Error::Closed.to_string(), "Object closed");
    assert_eq!(Error::TransportErr(3).to_string(), "Transport error #3");
    assert_eq!(Error::Unknown(999).to_string(), "Unknown error code #999");
    assert_eq!(Error::SystemErr(2).to_string(), std::io::Error::from_raw_os_error(2).to_string());
}

#[test]
fn send_error_keeps_the_error() {
    let e = Error::from((anng::Message::new(), Error::TimedOut));
    assert_eq!(e, Error::TimedOut);
}

#[test]
fn params_convert_to_init_params() {
    let mut params = Params::default();
    params.num_task_threads = NonZeroU16::new(4);
    params.max_task_threads = NonZeroU16::new(40000);
    params.num_resolver_threads = NonZeroU16::new(2);
    assert_eq!(
        nng_init_params::from(params),
        nng_init_params {
            num_task_threads: 4,
            max_task_threads: 40000u16 as i16,
            num_expire_threads: 0,
            max_expire_threads: 0,
            num_poller_threads: 0,
            max_poller_threads: 0,
            num_resolver_threads: 2,
        }
    );
}

#[test]
fn pipe_events_from_codes() {
    assert_eq!(PipeEvent::from_code(0), PipeEvent::AddPre);
    assert_eq!(PipeEvent::from_code(1), PipeEvent::AddPost);
    assert_eq!(PipeEvent::from_code(2), PipeEvent::RemovePost);
    assert_eq!(PipeEvent::from_code(9), PipeEvent::Unknown(9));
}

#[test]
fn pipe_keeps_its_handle() {
    let p = Pipe::from_nng_sys(nng_pipe { id: 17 });
    assert_eq!(p.nng_pipe(), nng_pipe { id: 17 });
    assert_eq!(p.handle().id, 17);
    assert!(Pipe::from_nng_sys(nng_pipe { id: 3 }) < p);
}

#[test]
fn durations_convert_to_nng() {
    assert_eq!(duration_to_nng(None), -1);
    assert_eq!(duration_to_nng(Some(Duration::from_millis(1500))), 1500);
    assert_eq!(duration_to_nng(Some(Duration::from_secs(u64::MAX))), i32::MAX);
    assert_eq!(duration_parts_to_nng(2, 999), 2999);
    assert_eq!(duration_parts_to_nng(2_147_483, 648), i32::MAX);
    assert_eq!(duration_parts_to_nng(2_147_483, 647), i32::MAX);
    assert_eq!(duration_parts_to_nng(2_147_483, 646), i32::MAX - 1);
}

#[test]
fn init_params_from_default_params() {
    let p = nng_init_params::from(Params::default());
    assert_eq!(p.num_task_threads, 0);
    assert_eq!(p.num_resolver_threads, 0);
}

#[test]
fn aio_errors_as_io_errors() {
    assert_eq!(AioError::TimedOut.io_error_kind(), IoErrorKind::TimedOut);
    assert_eq!(AioError::Cancelled.io_error_kind(), IoErrorKind::Interrupted);
    let std_err = |code: u32| AioError::Operation(NngError::NngError(nng_err(code)));
    assert_eq!(std_err(NNG_ECLOSED).io_error_kind(), IoErrorKind::BrokenPipe);
    assert_eq!(std_err(NNG_ESTATE).io_error_kind(), IoErrorKind::Other);
    assert_eq!(std_err(4).io_error_kind(), IoErrorKind::ResourceBusy);
    assert_eq!(std_err(14).io_error_kind(), IoErrorKind::HostUnreachable);
    assert_eq!(std_err(27).io_error_kind(), IoErrorKind::ConnectionAborted);
    assert_eq!(
        AioError::Operation(NngError::Transport(3)).io_error_kind(),
        IoErrorKind::Other
    );
    let kind = std::io::ErrorKind::NotFound;
    assert_eq!(
        AioError::Operation(NngError::System(kind)).io_error_kind(),
        IoErrorKind::System(kind)
    );

    assert_eq!(AioError::TimedOut.io_error_message(), Some("operation timed out".to_string()));
    assert_eq!(AioError::Cancelled.io_error_message(), Some("operation cancelled".to_string()));
    assert_eq!(
        AioError::Operation(NngError::Transport(12)).io_error_message(),
        Some("Transport error #12".to_string())
    );
    assert_eq!(
        AioError::Operation(NngError::Other(nz32(77))).io_error_message(),
        Some("77".to_string())
    );
    assert_eq!(std_err(NNG_ECLOSED).io_error_message(), Some("Object closed".to_string()));
    assert_eq!(
        AioError::Operation(NngError::System(kind)).io_error_message(),
        None
    );
}

#[test]
fn enum_try_from() {
    assert_eq!(nng_stat_type_enum::try_from(2), Ok(nng_stat_type_enum::NNG_STAT_COUNTER));
    assert_eq!(nng_stat_type_enum::try_from(9), Err(EnumFromIntError(9)));
    assert_eq!(nng_unit_enum::try_from(0), Ok(nng_unit_enum::NNG_UNIT_NONE));
    assert_eq!(nng_unit_enum::try_from(5), Err(EnumFromIntError(5)));
    assert_eq!(nng_sockaddr_family::try_from(1), Ok(nng_sockaddr_family::NNG_AF_INPROC));
    assert_eq!(nng_sockaddr_family::try_from(6), Err(EnumFromIntError(6)));
}

#[test]
fn error_texts() {
    assert_eq!(AioError::TimedOut.text(), Some("operation timed out".to_string()));
    assert_eq!(AioError::Cancelled.text(), Some("operation was cancelled".to_string()));
    assert_eq!(
        AioError::Operation(NngError::Transport(4)).text(),
        Some("Transport error #4".to_string())
    );
    assert_eq!(
        AioError::Operation(NngError::Other(nz32(600))).text(),
        Some("Unknown error #600".to_string())
    );
    let kind = std::io::ErrorKind::NotFound;
    assert_eq!(
        NngError::System(kind).text(),
        Some(format!("System error: {}", std::io::Error::from(kind)))
    );
    assert_eq!(NngError::NngError(nng_err(NNG_ECLOSED)).text(), Some("Object closed".to_string()));
    assert_eq!(NngError::NngError(nng_err(0)).text(), Some("Unknown error code #0".to_string()));
    assert_eq!(
        AioError::from_nng_err(nng_err(NNG_ESTATE)).text(),
        Some("Incorrect state".to_string())
    );
}

#[test]
fn system_errors_carry_the_number_without_the_flag() {
    for n in [1i32, 2, 13, 98] {
        let kind = std::io::Error::from_raw_os_error(n).kind();
        assert_eq!(
            AioError::from_nz_u32(nz32(NNG_ESYSERR | n as u32)),
            AioError::Operation(NngError::System(kind))
        );
        assert_eq!(try_extract_special_error(NNG_ESYSERR | n as u32), Some(NngError::System(kind)));
    }
}

#[test]
fn nng_errors_as_io_errors() {
    assert_eq!(Error::Interrupted.io_error_kind(), IoErrorKind::Interrupted);
    assert_eq!(Error::NoArgument.io_error_kind(), IoErrorKind::InvalidInput);
    assert_eq!(Error::TryAgain.io_error_kind(), IoErrorKind::WouldBlock);
    assert_eq!(Error::BadType.io_error_kind(), IoErrorKind::InvalidData);
    assert_eq!(Error::ConnectionShutdown.io_error_kind(), IoErrorKind::NotConnected);
    assert_eq!(Error::Closed.io_error_kind(), IoErrorKind::Other);
    let expected = std::io::Error::from_raw_os_error(2).kind();
    assert_eq!(Error::SystemErr(2).io_error_kind(), IoErrorKind::System(expected));
}
