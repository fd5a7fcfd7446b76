//! The scalability protocols that NNG implements, and the decisions that sockets make on what
//! NNG reports: when creating and starting listeners and dialers, when unsubscribing, when
//! sizing a send buffer, and on what a receive of a survey response gave.
//!
//! Each protocol is a marker type. The stateful protocols, which keep per-operation state and so
//! support contexts, carry the [`SupportsContext`] marker.
use crate::aio::{is_aio_error_of_errno, is_text_error, AioError, IoError, IoErrorKind, NngError};
use crate::message::Message;
use crate::nonzero::NonZeroU32;
use crate::sys::{
    nng_err, NNG_EADDRINUSE, NNG_EADDRINVAL, NNG_EAGAIN, NNG_ECANCELED, NNG_ECLOSED,
    NNG_ECONNREFUSED, NNG_ECONNRESET, NNG_EINVAL, NNG_ENOENT, NNG_ENOTSUP, NNG_EPEERAUTH,
    NNG_EPERM, NNG_EPROTO, NNG_ESTATE, NNG_ESYSERR, NNG_EUNREACHABLE, NNG_OK,
};
use crate::text::push_decimal;
use vstd::prelude::*;
use vstd::string::StringExecFns;

verus! {

/// Marker trait for protocols that support contexts.
///
/// Stateful protocols (REQ0, REP0, SUB0, SURVEYOR0, RESPONDENT0) keep per-operation state and
/// support contexts; stateless ones (PUB0, PUSH0, PULL0, BUS0, PAIR1) do not.
pub trait SupportsContext {}

/// BUS0: every message goes to every directly connected peer.
#[derive(Debug, Clone, Copy)]
pub struct Bus0;

/// PAIR1: one-to-one, bidirectional messaging.
#[derive(Debug, Clone, Copy)]
pub struct Pair1;

/// PUSH0: the sending end of a load-balanced pipeline.
#[derive(Debug, Clone, Copy)]
pub struct Push0;

/// PULL0: the receiving end of a pipeline.
#[derive(Debug, Clone, Copy)]
pub struct Pull0;

/// PUB0: broadcasts messages to every subscriber.
#[derive(Debug, Clone, Copy)]
pub struct Pub0;

/// SUB0: receives the published messages whose topics it subscribed to.
#[derive(Debug, Clone, Copy)]
pub struct Sub0;

/// REQ0: sends requests and receives the matching replies.
#[derive(Debug, Clone, Copy)]
pub struct Req0;

/// REP0: receives requests and sends replies.
#[derive(Debug, Clone, Copy)]
pub struct Rep0;

/// SURVEYOR0: broadcasts surveys and collects the responses within a time window.
#[derive(Debug, Clone, Copy)]
pub struct Surveyor0;

/// RESPONDENT0: receives surveys and may respond to them.
#[derive(Debug, Clone, Copy)]
pub struct Respondent0;

impl SupportsContext for Req0 {}

impl SupportsContext for Rep0 {}

impl SupportsContext for Sub0 {}

impl SupportsContext for Surveyor0 {}

impl SupportsContext for Respondent0 {}

/// Whether a receive error of a surveyor means that the survey is over: the receive timed out
/// (it started before the survey expired), or NNG refused it with `NNG_ESTATE` (it started
/// after).
pub open spec fn survey_ended(e: AioError) -> bool {
    e == AioError::TimedOut || e == AioError::Operation(NngError::NngError(nng_err(NNG_ESTATE)))
}

/// The next survey response, given what a (waiting) receive on the surveyor's context gave.
///
/// A received message is the response; the end of the survey gives `None`; any other error is
/// handed on.
pub fn survey_response(received: Result<Message, AioError>) -> (r: Option<Result<Message, AioError>>)
    ensures
        r == (match received {
            Ok(m) => Some(Ok(m)),
            Err(e) => if survey_ended(e) {
                None
            } else {
                Some(Err(e))
            },
        }),
{
    match received {
        Ok(m) => Some(Ok(m)),
        Err(AioError::TimedOut) => None,
        Err(AioError::Operation(NngError::NngError(err))) if err.0 == NNG_ESTATE => None,
        Err(e) => Some(Err(e)),
    }
}

/// The next survey response without waiting, given what a non-blocking receive on the
/// surveyor's context gave.
///
/// No message available yet gives `None`; a message gives `Some(Ok(Some(message)))`; the end of
/// the survey (`NNG_ESTATE`) gives `Some(Ok(None))`; any other error is handed on, a time-out
/// as the [`AioError::Operation`] that [`crate::aio::context_try_receive_outcome`] gives.
pub fn survey_try_response(received: Result<Option<Message>, AioError>) -> (r: Option<
    Result<Option<Message>, AioError>,
>)
    ensures
        r == (match received {
            Ok(None) => None,
            Ok(Some(m)) => Some(Ok(Some(m))),
            Err(e) => if e == AioError::Operation(NngError::NngError(nng_err(NNG_ESTATE))) {
                Some(Ok(None))
            } else {
                Some(Err(e))
            },
        }),
{
    match received {
        Ok(Some(m)) => Some(Ok(Some(m))),
        Ok(None) => None,
        Err(AioError::Operation(NngError::NngError(err))) if err.0 == NNG_ESTATE => Some(Ok(None)),
        Err(e) => Some(Err(e)),
    }
}

/// The error that NNG's error number `errno` is, converted as a raw number.
fn errno_error(errno: u32) -> (r: AioError)
    requires
        errno != 0,
    ensures
        exists|n: NonZeroU32| n@ == errno && is_aio_error_of_errno(n, r),
{
    match NonZeroU32::new(errno) {
        Some(n) => AioError::from_nz_u32(n),
        None => {
            assert(false);
            AioError::Cancelled
        },
    }
}

/// The error of a standard NNG error number other than a cancellation or a time-out.
pub open spec fn standard_error(errno: u32) -> AioError {
    AioError::Operation(NngError::NngError(nng_err(errno)))
}

/// Maps the result of creating a listener or a dialer on a URL.
///
/// Success gives `Ok`; a closed socket, an invalid or unsupported URL give their error. NNG
/// documents other results (lack of memory) on which the caller does not go on.
pub fn endpoint_create_outcome(errno: u32) -> (r: Result<(), AioError>)
    requires
        errno == NNG_OK || errno == NNG_ECLOSED || errno == NNG_EADDRINVAL || errno == NNG_EINVAL
            || errno == NNG_ENOTSUP,
    ensures
        r == (if errno == NNG_OK {
            Ok(())
        } else {
            Err::<(), AioError>(standard_error(errno))
        }),
{
    if errno == NNG_OK {
        Ok(())
    } else {
        Err(errno_error(errno))
    }
}

/// Maps the result of starting a listener.
///
/// Success gives `Ok`; an address in use or a refused permission give their error. NNG
/// documents other results (a closed or already started listener) that the caller rules out.
pub fn listener_start_outcome(errno: u32) -> (r: Result<(), AioError>)
    requires
        errno == NNG_OK || errno == NNG_EADDRINUSE || errno == NNG_EPERM,
    ensures
        r == (if errno == NNG_OK {
            Ok(())
        } else {
            Err::<(), AioError>(standard_error(errno))
        }),
{
    if errno == NNG_OK {
        Ok(())
    } else {
        Err(errno_error(errno))
    }
}

/// Whether `errno` is a result that starting a dialer can report to its caller.
pub open spec fn dial_reportable(errno: u32) -> bool {
    errno == NNG_ECANCELED || errno == NNG_EAGAIN || errno == NNG_EADDRINVAL || errno
        == NNG_ECONNREFUSED || errno == NNG_ECONNRESET || errno == NNG_EINVAL || errno
        == NNG_EPEERAUTH || errno == NNG_EPROTO || errno == NNG_EUNREACHABLE
}

/// Maps the result of starting a dialer.
///
/// Success gives `Ok`; a cancellation (the socket went away while dialing) gives
/// [`AioError::Cancelled`]; a temporary failure of name resolution (`NNG_EAGAIN`) is reported
/// as an invalid address; an invalid or unreachable address, a refused, reset or
/// unauthenticated connection and a protocol error give their error. NNG documents other
/// results (a closed or already started dialer, lack of memory) on which the caller does not
/// go on.
pub fn dialer_start_outcome(errno: u32) -> (r: Result<(), AioError>)
    requires
        errno == NNG_OK || dial_reportable(errno),
    ensures
        r == (if errno == NNG_OK {
            Ok(())
        } else if errno == NNG_ECANCELED {
            Err::<(), AioError>(AioError::Cancelled)
        } else if errno == NNG_EAGAIN {
            Err::<(), AioError>(standard_error(NNG_EADDRINVAL))
        } else {
            Err::<(), AioError>(standard_error(errno))
        }),
{
    if errno == NNG_OK {
        Ok(())
    } else if errno == NNG_EAGAIN {
        assert(15u32 & 0x1000_0000u32 == 0 && 15u32 & 0x2000_0000u32 == 0) by (bit_vector);
        Err(AioError::from_nng_err(nng_err(NNG_EADDRINVAL)))
    } else {
        Err(errno_error(errno))
    }
}

/// Maps the result of removing a subscription: `true` if the topic was subscribed to, `false`
/// if it was not (`NNG_ENOENT`). NNG documents other results (a closed socket, lack of memory)
/// on which the caller does not go on.
pub fn unsubscribe_outcome(errno: u32) -> (r: bool)
    requires
        errno == NNG_OK || errno == NNG_ENOENT,
    ensures
        r == (errno == NNG_OK),
{
    errno == NNG_OK
}

/// The largest send buffer, in messages, that a PUSH socket accepts.
pub const MAX_SEND_BUFFER: u16 = 8192;

/// Checks a send-buffer size for a PUSH socket and returns the value to hand NNG, or, for a
/// size above [`MAX_SEND_BUFFER`], an [`IoErrorKind::InvalidInput`] error with the message
/// refusing it.
pub fn send_buffer_value(size: u16) -> (r: Result<i32, IoError>)
    ensures
        size <= MAX_SEND_BUFFER ==> r == Ok::<i32, IoError>(size as i32),
        size > MAX_SEND_BUFFER ==> (r matches Err(e) && is_text_error(
            e,
            IoErrorKind::InvalidInput,
            "send buffer size "@ + crate::text::decimal(size as nat) + " exceeds maximum of 8192"@,
        )),
{
    if size > MAX_SEND_BUFFER {
        let mut m = String::from_str("send buffer size ");
        push_decimal(&mut m, size as u64);
        m.append(" exceeds maximum of 8192");
        proof {
            reveal_strlit("send buffer size ");
            reveal_strlit(" exceeds maximum of 8192");
        }
        Err(IoError::text(IoErrorKind::InvalidInput, m))
    } else {
        Ok(size as i32)
    }
}

/// The value to hand NNG for a PAIR1 socket's maximum hop count, which must lie between 1 and
/// 15.
pub fn max_ttl_value(ttl: u8) -> (r: i32)
    requires
        1 <= ttl <= 15,
    ensures
        r == ttl,
{
    ttl as i32
}

/// Whether NNG's result of reading a message's remote address gives an address: success does;
/// a pipe that does not report its remote address (`NNG_ENOTSUP`), a message without a pipe
/// (`NNG_ENOENT`) or a system error give none. NNG documents no other result.
pub fn remote_addr_outcome(err: u32) -> (r: bool)
    requires
        err == NNG_OK || err == NNG_ENOTSUP || err == NNG_ENOENT || err & NNG_ESYSERR != 0,
    ensures
        r == (err == NNG_OK),
{
    err == NNG_OK
}

} // verus!
