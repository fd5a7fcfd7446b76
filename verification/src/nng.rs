//! The synchronous `nng` API's error type, initialization parameters, pipe handles and
//! duration conversion.
use crate::aio::IoErrorKind;
use crate::message::Message;
use crate::nonzero::{NonZeroU16, NonZeroU32};
use crate::sys::{
    NNG_EADDRINUSE, NNG_EADDRINVAL, NNG_EAGAIN, NNG_EBADTYPE, NNG_EBUSY, NNG_ECANCELED,
    NNG_ECLOSED, NNG_ECONNABORTED, NNG_ECONNREFUSED, NNG_ECONNRESET, NNG_ECONNSHUT, NNG_ECRYPTO,
    NNG_EEXIST, NNG_EINTERNAL, NNG_EINTR, NNG_EINVAL, NNG_EMSGSIZE, NNG_ENOENT, NNG_ENOFILES,
    NNG_ENOMEM, NNG_ENOSPC, NNG_ENOTSUP, NNG_EPEERAUTH, NNG_EPERM, NNG_EPROTO, NNG_EREADONLY,
    NNG_ESTATE, NNG_ESYSERR, NNG_ETIMEDOUT, NNG_ETRANERR, NNG_EUNREACHABLE, NNG_EWRITEONLY,
    NNG_DURATION_INFINITE, NNG_PIPE_EV_ADD_POST, NNG_PIPE_EV_ADD_PRE, NNG_PIPE_EV_REM_POST,
    nng_init_params, nng_pipe,
};
use crate::sys::{is_standard_error, os_error_kind, ErrorCode, NNG_ESTOPPED};
use crate::text::{decimal, push_decimal};
use vstd::string::StringExecFns;
use core::time::Duration;
use vstd::prelude::*;

verus! {

/// Errors potentially returned by NNG operations.
#[derive(Clone, Copy, Debug, PartialEq, Eq, Hash, Structural)]
pub enum Error {
    /// The operation was interrupted
    Interrupted,
    /// Insufficient memory available to perform the operation
    OutOfMemory,
    /// An invalid argument was specified
    InvalidInput,
    /// The resource is busy
    Busy,
    /// The operation timed out
    TimedOut,
    /// Connection refused by peer
    ConnectionRefused,
    /// The resource is already closed or was never opened
    Closed,
    /// Operation would block
    TryAgain,
    /// Operation is not supported by the library
    NotSupported,
    /// The address is already in use
    AddressInUse,
    /// The resource is not in the appropriate state for the operation
    IncorrectState,
    /// Entry was not found
    EntryNotFound,
    /// A protocol error occurred
    Protocol,
    /// Remote address is unreachable
    DestUnreachable,
    /// An invalid URL was specified
    AddressInvalid,
    /// Did not have the required permissions to complete the operation
    PermissionDenied,
    /// The message was too large
    MessageTooLarge,
    /// Connection attempt aborted
    ConnectionAborted,
    /// Connection reset or closed by peer
    ConnectionReset,
    /// The operation was canceled
    Canceled,
    /// Out of files
    OutOfFiles,
    /// Insufficient persistent storage
    OutOfSpace,
    /// Resource already exists
    ResourceExists,
    /// The specified option is read-only
    ReadOnly,
    /// The specified option is write-only
    WriteOnly,
    /// A cryptographic error occurred
    Crypto,
    /// Authentication or authorization failure
    PeerAuth,
    /// The option requires an argument but it was not present
    NoArgument,
    /// Parsed option matches more than one specification
    Ambiguous,
    /// Incorrect type used for option
    BadType,
    /// Connection shut down.
    ConnectionShutdown,
    /// An internal error occurred.
    Internal,
    /// An unknown system error occurred.
    SystemErr(u32),
    /// An unknown transport error occurred.
    TransportErr(u32),
    /// Unknown error code.
    Unknown(u32),
}

/// The error of an NNG error number: standard codes name their error, then a set system flag
/// gives the system error number, then a set transport flag gives the transport's code, and
/// anything else is unknown.
pub open spec fn error_of_code(code: u32) -> Error {
    if code == NNG_EINTR {
        Error::Interrupted
    } else if code == NNG_ENOMEM {
        Error::OutOfMemory
    } else if code == NNG_EINVAL {
        Error::InvalidInput
    } else if code == NNG_EBUSY {
        Error::Busy
    } else if code == NNG_ETIMEDOUT {
        Error::TimedOut
    } else if code == NNG_ECONNREFUSED {
        Error::ConnectionRefused
    } else if code == NNG_ECLOSED {
        Error::Closed
    } else if code == NNG_EAGAIN {
        Error::TryAgain
    } else if code == NNG_ENOTSUP {
        Error::NotSupported
    } else if code == NNG_EADDRINUSE {
        Error::AddressInUse
    } else if code == NNG_ESTATE {
        Error::IncorrectState
    } else if code == NNG_ENOENT {
        Error::EntryNotFound
    } else if code == NNG_EPROTO {
        Error::Protocol
    } else if code == NNG_EUNREACHABLE {
        Error::DestUnreachable
    } else if code == NNG_EADDRINVAL {
        Error::AddressInvalid
    } else if code == NNG_EPERM {
        Error::PermissionDenied
    } else if code == NNG_EMSGSIZE {
        Error::MessageTooLarge
    } else if code == NNG_ECONNABORTED {
        Error::ConnectionAborted
    } else if code == NNG_ECONNRESET {
        Error::ConnectionReset
    } else if code == NNG_ECANCELED {
        Error::Canceled
    } else if code == NNG_ENOFILES {
        Error::OutOfFiles
    } else if code == NNG_ENOSPC {
        Error::OutOfSpace
    } else if code == NNG_EEXIST {
        Error::ResourceExists
    } else if code == NNG_EREADONLY {
        Error::ReadOnly
    } else if code == NNG_EWRITEONLY {
        Error::WriteOnly
    } else if code == NNG_ECRYPTO {
        Error::Crypto
    } else if code == NNG_EPEERAUTH {
        Error::PeerAuth
    } else if code == NNG_EBADTYPE {
        Error::BadType
    } else if code == NNG_ECONNSHUT {
        Error::ConnectionShutdown
    } else if code == NNG_EINTERNAL {
        Error::Internal
    } else if code & NNG_ESYSERR != 0 {
        Error::SystemErr(code & !NNG_ESYSERR)
    } else if code & NNG_ETRANERR != 0 {
        Error::TransportErr(code & !NNG_ETRANERR)
    } else {
        Error::Unknown(code)
    }
}

impl vstd::std_specs::convert::FromSpecImpl<NonZeroU32> for Error {
    open spec fn obeys_from_spec() -> bool {
        true
    }

    open spec fn from_spec(code: NonZeroU32) -> Error {
        error_of_code(code@)
    }
}

impl From<NonZeroU32> for Error {
    fn from(code: NonZeroU32) -> (r: Error)
        ensures
            r == error_of_code(code@),
    {
        let c = code.get();
        if c == NNG_EINTR {
            Error::Interrupted
        } else if c == NNG_ENOMEM {
            Error::OutOfMemory
        } else if c == NNG_EINVAL {
            Error::InvalidInput
        } else if c == NNG_EBUSY {
            Error::Busy
        } else if c == NNG_ETIMEDOUT {
            Error::TimedOut
        } else if c == NNG_ECONNREFUSED {
            Error::ConnectionRefused
        } else if c == NNG_ECLOSED {
            Error::Closed
        } else if c == NNG_EAGAIN {
            Error::TryAgain
        } else if c == NNG_ENOTSUP {
            Error::NotSupported
        } else if c == NNG_EADDRINUSE {
            Error::AddressInUse
        } else if c == NNG_ESTATE {
            Error::IncorrectState
        } else if c == NNG_ENOENT {
            Error::EntryNotFound
        } else if c == NNG_EPROTO {
            Error::Protocol
        } else if c == NNG_EUNREACHABLE {
            Error::DestUnreachable
        } else if c == NNG_EADDRINVAL {
            Error::AddressInvalid
        } else if c == NNG_EPERM {
            Error::PermissionDenied
        } else if c == NNG_EMSGSIZE {
            Error::MessageTooLarge
        } else if c == NNG_ECONNABORTED {
            Error::ConnectionAborted
        } else if c == NNG_ECONNRESET {
            Error::ConnectionReset
        } else if c == NNG_ECANCELED {
            Error::Canceled
        } else if c == NNG_ENOFILES {
            Error::OutOfFiles
        } else if c == NNG_ENOSPC {
            Error::OutOfSpace
        } else if c == NNG_EEXIST {
            Error::ResourceExists
        } else if c == NNG_EREADONLY {
            Error::ReadOnly
        } else if c == NNG_EWRITEONLY {
            Error::WriteOnly
        } else if c == NNG_ECRYPTO {
            Error::Crypto
        } else if c == NNG_EPEERAUTH {
            Error::PeerAuth
        } else if c == NNG_EBADTYPE {
            Error::BadType
        } else if c == NNG_ECONNSHUT {
            Error::ConnectionShutdown
        } else if c == NNG_EINTERNAL {
            Error::Internal
        } else if c & NNG_ESYSERR != 0 {
            Error::SystemErr(c & !NNG_ESYSERR)
        } else if c & NNG_ETRANERR != 0 {
            Error::TransportErr(c & !NNG_ETRANERR)
        } else {
            Error::Unknown(c)
        }
    }
}

/// The kind of I/O error that an error other than a system error is reported as.
pub open spec fn error_io_kind(e: Error) -> IoErrorKind {
    match e {
        Error::Interrupted => IoErrorKind::Interrupted,
        Error::InvalidInput | Error::NoArgument => IoErrorKind::InvalidInput,
        Error::TimedOut => IoErrorKind::TimedOut,
        Error::TryAgain => IoErrorKind::WouldBlock,
        Error::ConnectionRefused => IoErrorKind::ConnectionRefused,
        Error::PermissionDenied => IoErrorKind::PermissionDenied,
        Error::ConnectionAborted => IoErrorKind::ConnectionAborted,
        Error::ConnectionReset => IoErrorKind::ConnectionReset,
        Error::ResourceExists => IoErrorKind::AlreadyExists,
        Error::BadType => IoErrorKind::InvalidData,
        Error::ConnectionShutdown => IoErrorKind::NotConnected,
        _ => IoErrorKind::Other,
    }
}

impl Error {
    /// The kind of I/O error this error is reported as: a system error has the kind that the
    /// standard library gives its operating-system error number; the others have the kind
    /// closest to their meaning (see [`error_io_kind`]), or `Other`. The message of such an
    /// I/O error is [`Error::to_string`].
    pub fn io_error_kind(&self) -> (r: IoErrorKind)
        ensures
            self matches Error::SystemErr(c) ==> (r matches IoErrorKind::System(k) && call_ensures(
                os_error_kind,
                ((c as i32),),
                k,
            )),
            !(self is SystemErr) ==> r == error_io_kind(*self),
    {
        match *self {
            Error::SystemErr(c) => IoErrorKind::System(os_error_kind(c as i32)),
            Error::Interrupted => IoErrorKind::Interrupted,
            Error::InvalidInput | Error::NoArgument => IoErrorKind::InvalidInput,
            Error::TimedOut => IoErrorKind::TimedOut,
            Error::TryAgain => IoErrorKind::WouldBlock,
            Error::ConnectionRefused => IoErrorKind::ConnectionRefused,
            Error::PermissionDenied => IoErrorKind::PermissionDenied,
            Error::ConnectionAborted => IoErrorKind::ConnectionAborted,
            Error::ConnectionReset => IoErrorKind::ConnectionReset,
            Error::ResourceExists => IoErrorKind::AlreadyExists,
            Error::BadType => IoErrorKind::InvalidData,
            Error::ConnectionShutdown => IoErrorKind::NotConnected,
            _ => IoErrorKind::Other,
        }
    }
}

/// Specialized `Result` type for use with NNG.
pub type Result<T> = core::result::Result<T, Error>;

/// Specialized `Result` type for use with send operations.
pub type SendResult<T> = core::result::Result<T, SendError>;

/// Error type for send operations: the message that was not sent, and why.
pub type SendError = (Message, Error);

impl vstd::std_specs::convert::FromSpecImpl<SendError> for Error {
    open spec fn obeys_from_spec() -> bool {
        true
    }

    open spec fn from_spec(e: SendError) -> Error {
        e.1
    }
}

impl From<SendError> for Error {
    /// Keeps the error and drops the message.
    fn from(e: SendError) -> (r: Error)
        ensures
            r == e.1,
    {
        e.1
    }
}

/// The message of each error other than a system error.
pub open spec fn error_text(e: Error) -> Seq<char> {
    match e {
        Error::Interrupted => "Interrupted"@,
        Error::OutOfMemory => "Out of memory"@,
        Error::InvalidInput => "Invalid argument"@,
        Error::Busy => "Resource busy"@,
        Error::TimedOut => "Timed out"@,
        Error::ConnectionRefused => "Connection refused"@,
        Error::Closed => "Object closed"@,
        Error::TryAgain => "Try again"@,
        Error::NotSupported => "Not supported"@,
        Error::AddressInUse => "Address in use"@,
        Error::IncorrectState => "Incorrect state"@,
        Error::EntryNotFound => "Entry not found"@,
        Error::Protocol => "Protocol error"@,
        Error::DestUnreachable => "Destination unreachable"@,
        Error::AddressInvalid => "Address invalid"@,
        Error::PermissionDenied => "Permission denied"@,
        Error::MessageTooLarge => "Message too large"@,
        Error::ConnectionReset => "Connection reset"@,
        Error::ConnectionAborted => "Connection aborted"@,
        Error::Canceled => "Operation canceled"@,
        Error::OutOfFiles => "Out of files"@,
        Error::OutOfSpace => "Out of space"@,
        Error::ResourceExists => "Resource already exists"@,
        Error::ReadOnly => "Read only resource"@,
        Error::WriteOnly => "Write only resource"@,
        Error::Crypto => "Cryptographic error"@,
        Error::PeerAuth => "Peer could not be authenticated"@,
        Error::NoArgument => "Option requires argument"@,
        Error::Ambiguous => "Ambiguous option"@,
        Error::BadType => "Incorrect type"@,
        Error::ConnectionShutdown => "Connection shutdown"@,
        Error::Internal => "Internal error detected"@,
        Error::SystemErr(_) => Seq::empty(),
        Error::TransportErr(c) => "Transport error #"@ + decimal(c as nat),
        Error::Unknown(c) => "Unknown error code #"@ + decimal(c as nat),
    }
}

/// `std::io::Error::from_raw_os_error(code).to_string()`: the operating system's description
/// of an error number.
///
/// Nothing is stated of the text beyond its tie to `code` (which callers state through this
/// function's `call_ensures`): it comes from the platform.
#[verifier::external_body]
pub fn os_error_text(code: i32) -> String {
    std::io::Error::from_raw_os_error(code).to_string()
}

impl Error {
    /// Returns the message describing this error; a system error is described by the
    /// operating system.
    pub fn to_string(&self) -> (r: String)
        ensures
            !(self is SystemErr) ==> r@ == error_text(*self),
            self matches Error::SystemErr(c) ==> call_ensures(os_error_text, ((c as i32),), r),
    {
        let text = match *self {
            Error::Interrupted => "Interrupted",
            Error::OutOfMemory => "Out of memory",
            Error::InvalidInput => "Invalid argument",
            Error::Busy => "Resource busy",
            Error::TimedOut => "Timed out",
            Error::ConnectionRefused => "Connection refused",
            Error::Closed => "Object closed",
            Error::TryAgain => "Try again",
            Error::NotSupported => "Not supported",
            Error::AddressInUse => "Address in use",
            Error::IncorrectState => "Incorrect state",
            Error::EntryNotFound => "Entry not found",
            Error::Protocol => "Protocol error",
            Error::DestUnreachable => "Destination unreachable",
            Error::AddressInvalid => "Address invalid",
            Error::PermissionDenied => "Permission denied",
            Error::MessageTooLarge => "Message too large",
            Error::ConnectionReset => "Connection reset",
            Error::ConnectionAborted => "Connection aborted",
            Error::Canceled => "Operation canceled",
            Error::OutOfFiles => "Out of files",
            Error::OutOfSpace => "Out of space",
            Error::ResourceExists => "Resource already exists",
            Error::ReadOnly => "Read only resource",
            Error::WriteOnly => "Write only resource",
            Error::Crypto => "Cryptographic error",
            Error::PeerAuth => "Peer could not be authenticated",
            Error::NoArgument => "Option requires argument",
            Error::Ambiguous => "Ambiguous option",
            Error::BadType => "Incorrect type",
            Error::ConnectionShutdown => "Connection shutdown",
            Error::Internal => "Internal error detected",
            Error::SystemErr(c) => {
                return os_error_text(c as i32);
            },
            Error::TransportErr(c) => {
                let mut s = String::from_str("Transport error #");
                push_decimal(&mut s, c as u64);
                return s;
            },
            Error::Unknown(c) => {
                let mut s = String::from_str("Unknown error code #");
                push_decimal(&mut s, c as u64);
                return s;
            },
        };
        String::from_str(text)
    }
}

/// A handle to the NNG resources: the tunables of NNG's thread pools.
///
/// Each `None` leaves NNG's default.
#[derive(Debug, Default)]
#[non_exhaustive]
pub struct Params {
    /// The number of threads to use for tasks.
    pub num_task_threads: Option<NonZeroU16>,
    /// The maximum number of threads to use for tasks.
    pub max_task_threads: Option<NonZeroU16>,
    /// The number of threads used for expiring operations.
    pub num_expire_threads: Option<NonZeroU16>,
    /// The maximum number of threads used for expiring operations.
    pub max_expire_threads: Option<NonZeroU16>,
    /// The number of threads to use for performing I/O.
    pub num_poller_threads: Option<NonZeroU16>,
    /// The maximum number of threads to use for performing I/O.
    pub max_poller_threads: Option<NonZeroU16>,
    /// The number of threads used for asynchronous DNS lookup.
    pub num_resolver_threads: Option<NonZeroU16>,
}

/// A parameter as NNG reads it: zero for "default", otherwise the count's bits read as an
/// `i16` (so counts above `i16::MAX` wrap to negative values).
pub open spec fn param_value(v: Option<NonZeroU16>) -> i16 {
    match v {
        None => 0,
        Some(n) => n@ as i16,
    }
}

fn param_to_i16(v: Option<NonZeroU16>) -> (r: i16)
    ensures
        r == param_value(v),
{
    match v {
        None => 0,
        Some(n) => n.get() as i16,
    }
}

impl vstd::std_specs::convert::FromSpecImpl<Params> for nng_init_params {
    open spec fn obeys_from_spec() -> bool {
        true
    }

    open spec fn from_spec(params: Params) -> nng_init_params {
        nng_init_params {
            num_task_threads: param_value(params.num_task_threads),
            max_task_threads: param_value(params.max_task_threads),
            num_expire_threads: param_value(params.num_expire_threads),
            max_expire_threads: param_value(params.max_expire_threads),
            num_poller_threads: param_value(params.num_poller_threads),
            max_poller_threads: param_value(params.max_poller_threads),
            num_resolver_threads: param_value(params.num_resolver_threads),
        }
    }
}

impl From<Params> for nng_init_params {
    fn from(params: Params) -> (r: nng_init_params)
        ensures
            r == (nng_init_params {
                num_task_threads: param_value(params.num_task_threads),
                max_task_threads: param_value(params.max_task_threads),
                num_expire_threads: param_value(params.num_expire_threads),
                max_expire_threads: param_value(params.max_expire_threads),
                num_poller_threads: param_value(params.num_poller_threads),
                max_poller_threads: param_value(params.max_poller_threads),
                num_resolver_threads: param_value(params.num_resolver_threads),
            }),
    {
        nng_init_params {
            num_task_threads: param_to_i16(params.num_task_threads),
            max_task_threads: param_to_i16(params.max_task_threads),
            num_expire_threads: param_to_i16(params.num_expire_threads),
            max_expire_threads: param_to_i16(params.max_expire_threads),
            num_poller_threads: param_to_i16(params.num_poller_threads),
            max_poller_threads: param_to_i16(params.max_poller_threads),
            num_resolver_threads: param_to_i16(params.num_resolver_threads),
        }
    }
}

/// An NNG communication pipe: a single connection, associated with the listener or dialer
/// that created it.
///
/// Pipes are equal, ordered and hashed by their identifier.
#[derive(Clone, Copy, Debug, PartialEq, Eq, Hash, PartialOrd, Ord, Structural)]
pub struct Pipe {
    handle: nng_pipe,
}

impl View for Pipe {
    type V = nng_pipe;

    closed spec fn view(&self) -> nng_pipe {
        self.handle
    }
}

impl Pipe {
    /// Creates a pipe from an NNG handle, which must be initialized (have a positive
    /// identifier).
    pub fn from_nng_sys(handle: nng_pipe) -> (r: Pipe)
        requires
            0 < handle.id <= i32::MAX,
        ensures
            r@ == handle,
    {
        Pipe { handle }
    }

    /// Returns the underlying NNG handle for the pipe.
    pub fn handle(self) -> (r: nng_pipe)
        ensures
            r == self@,
    {
        self.handle
    }

    /// Returns the handle to the underlying `nng_pipe` object.
    pub fn nng_pipe(self) -> (r: nng_pipe)
        ensures
            r == self@,
    {
        self.handle()
    }
}

/// An event that happens on a [`Pipe`] instance.
#[derive(Clone, Copy, Debug, PartialEq, Eq, Hash, Structural)]
pub enum PipeEvent {
    /// Occurs after a connection and negotiation has completed but before the pipe is added
    /// to the socket.
    AddPre,
    /// This event occurs after the pipe is fully added to the socket.
    AddPost,
    /// Occurs after the pipe has been removed from the socket.
    RemovePost,
    /// An unknown event.
    Unknown(u32),
}

impl PipeEvent {
    /// Converts the NNG event code into a `PipeEvent`; unknown codes are kept.
    pub fn from_code(event: u32) -> (r: PipeEvent)
        ensures
            r == (if event == NNG_PIPE_EV_ADD_PRE {
                PipeEvent::AddPre
            } else if event == NNG_PIPE_EV_ADD_POST {
                PipeEvent::AddPost
            } else if event == NNG_PIPE_EV_REM_POST {
                PipeEvent::RemovePost
            } else {
                PipeEvent::Unknown(event)
            }),
    {
        if event == NNG_PIPE_EV_ADD_PRE {
            PipeEvent::AddPre
        } else if event == NNG_PIPE_EV_ADD_POST {
            PipeEvent::AddPost
        } else if event == NNG_PIPE_EV_REM_POST {
            PipeEvent::RemovePost
        } else {
            PipeEvent::Unknown(event)
        }
    }
}

/// The whole seconds of a duration, as `Duration::as_secs` returns them.
pub uninterp spec fn duration_secs_of(d: Duration) -> u64;

/// The whole milliseconds of a duration's fractional second, as `Duration::subsec_millis`
/// returns them.
pub uninterp spec fn duration_subsec_millis_of(d: Duration) -> u32;

/// `Duration::as_secs`: the whole seconds of `d`, which depend on `d` alone.
#[verifier::external_body]
fn duration_secs(d: Duration) -> (r: u64)
    ensures
        r == duration_secs_of(d),
{
    d.as_secs()
}

/// `Duration::subsec_millis`: the whole milliseconds of `d`'s fractional second, which depend
/// on `d` alone and which the documentation bounds below one thousand.
#[verifier::external_body]
fn duration_subsec_millis(d: Duration) -> (r: u32)
    ensures
        r == duration_subsec_millis_of(d),
        r < 1000,
{
    d.subsec_millis()
}

/// The NNG duration of a number of seconds and of milliseconds below one thousand: seconds
/// beyond `i32::MAX` count as `i32::MAX`, and the total in milliseconds saturates at
/// `i32::MAX`.
pub open spec fn duration_parts_value(secs: u64, millis: u32) -> i32 {
    let s = if secs > i32::MAX {
        i32::MAX as int
    } else {
        secs as int
    };
    let total = s * 1000 + millis;
    if total > i32::MAX {
        i32::MAX
    } else {
        total as i32
    }
}

/// Converts whole seconds and the milliseconds of the fractional second into an NNG duration.
pub fn duration_parts_to_nng(secs: u64, millis: u32) -> (r: i32)
    requires
        millis < 1000,
    ensures
        r == duration_parts_value(secs, millis),
{
    let secs: i64 = if secs > 0x7fff_ffff {
        0x7fff_ffff
    } else {
        secs as i64
    };
    let total: i64 = secs * 1000 + millis as i64;
    if total > 0x7fff_ffff {
        0x7fff_ffff
    } else {
        total as i32
    }
}

/// The NNG duration of an optional Rust duration: `None` is `NNG_DURATION_INFINITE`, and a
/// duration is its whole seconds and the milliseconds of its fractional second, saturated at
/// `i32::MAX` milliseconds.
pub open spec fn duration_to_nng_value(dur: Option<Duration>) -> i32 {
    match dur {
        None => NNG_DURATION_INFINITE,
        Some(d) => duration_parts_value(duration_secs_of(d), duration_subsec_millis_of(d)),
    }
}

/// Converts a Rust `Duration` into an NNG duration in milliseconds; `None` becomes
/// `NNG_DURATION_INFINITE`.
pub fn duration_to_nng(dur: Option<Duration>) -> (r: i32)
    ensures
        r == duration_to_nng_value(dur),
        dur is None ==> r == NNG_DURATION_INFINITE,
        dur is Some ==> r >= 0,
{
    match dur {
        None => NNG_DURATION_INFINITE,
        Some(d) => duration_parts_to_nng(duration_secs(d), duration_subsec_millis(d)),
    }
}

/// A future created by `Aio::sleep`.
#[derive(Debug)]
pub struct Sleep<'a> {
    _pd: core::marker::PhantomData<&'a ()>,
}

/// A future created by `Aio::send`.
#[derive(Debug)]
pub struct Send<'a> {
    _pd: core::marker::PhantomData<&'a ()>,
}

/// A future created by `Aio::recv`.
#[derive(Debug)]
pub struct Recv<'a> {
    _pd: core::marker::PhantomData<&'a ()>,
}


/// Each standard NNG error number becomes the variant named after it (a reset connection is
/// `ConnectionReset`, a refused one `ConnectionRefused`, ...); the stop error, which this API
/// predates, is kept as `Unknown(999)`.
pub proof fn lemma_standard_errors_have_named_variants(c: ErrorCode)
    ensures
        error_of_code(c.spec_code()) == match c {
            ErrorCode::EINTR => Error::Interrupted,
            ErrorCode::ENOMEM => Error::OutOfMemory,
            ErrorCode::EINVAL => Error::InvalidInput,
            ErrorCode::EBUSY => Error::Busy,
            ErrorCode::ETIMEDOUT => Error::TimedOut,
            ErrorCode::ECONNREFUSED => Error::ConnectionRefused,
            ErrorCode::ECLOSED => Error::Closed,
            ErrorCode::EAGAIN => Error::TryAgain,
            ErrorCode::ENOTSUP => Error::NotSupported,
            ErrorCode::EADDRINUSE => Error::AddressInUse,
            ErrorCode::ESTATE => Error::IncorrectState,
            ErrorCode::ENOENT => Error::EntryNotFound,
            ErrorCode::EPROTO => Error::Protocol,
            ErrorCode::EUNREACHABLE => Error::DestUnreachable,
            ErrorCode::EADDRINVAL => Error::AddressInvalid,
            ErrorCode::EPERM => Error::PermissionDenied,
            ErrorCode::EMSGSIZE => Error::MessageTooLarge,
            ErrorCode::ECONNABORTED => Error::ConnectionAborted,
            ErrorCode::ECONNRESET => Error::ConnectionReset,
            ErrorCode::ECANCELED => Error::Canceled,
            ErrorCode::ENOFILES => Error::OutOfFiles,
            ErrorCode::ENOSPC => Error::OutOfSpace,
            ErrorCode::EEXIST => Error::ResourceExists,
            ErrorCode::EREADONLY => Error::ReadOnly,
            ErrorCode::EWRITEONLY => Error::WriteOnly,
            ErrorCode::ECRYPTO => Error::Crypto,
            ErrorCode::EPEERAUTH => Error::PeerAuth,
            ErrorCode::EBADTYPE => Error::BadType,
            ErrorCode::ECONNSHUT => Error::ConnectionShutdown,
            ErrorCode::ESTOPPED => Error::Unknown(999),
            ErrorCode::EINTERNAL => Error::Internal,
        },
{
    assert(999u32 & 0x1000_0000u32 == 0 && 999u32 & 0x2000_0000u32 == 0) by (bit_vector);
}

/// A number that is not a standard error becomes a system error when it has the system flag
/// (the number without the flag), else a transport error when it has the transport flag (the
/// number without that flag), else `Unknown` with the number; and only such a number, or the
/// stop error, becomes `Unknown`.
pub proof fn lemma_other_numbers(code: u32)
    ensures
        !is_standard_error(code) && code & NNG_ESYSERR != 0 ==> error_of_code(code)
            == Error::SystemErr(code & !NNG_ESYSERR),
        !is_standard_error(code) && code & NNG_ESYSERR == 0 && code & NNG_ETRANERR != 0
            ==> error_of_code(code) == Error::TransportErr(code & !NNG_ETRANERR),
        !is_standard_error(code) && code & NNG_ESYSERR == 0 && code & NNG_ETRANERR == 0
            ==> error_of_code(code) == Error::Unknown(code),
        error_of_code(code) is Unknown ==> (!is_standard_error(code) || code == NNG_ESTOPPED)
            && code & NNG_ESYSERR == 0 && code & NNG_ETRANERR == 0,
{
    if is_standard_error(code) {
        assert(code & 0x1000_0000u32 == 0 && code & 0x2000_0000u32 == 0) by (bit_vector)
            requires
                code <= 1000u32,
        ;
    }
}


/// The description of each standard NNG error number, as NNG gives it ("Object closed" for a
/// closed object, "Connection reset" for a reset connection, ...); the stop error, which this
/// API predates, is described as an unknown error code.
pub proof fn lemma_standard_error_texts(c: ErrorCode)
    ensures
        error_text(error_of_code(c.spec_code())) == match c {
            ErrorCode::EINTR => "Interrupted"@,
            ErrorCode::ENOMEM => "Out of memory"@,
            ErrorCode::EINVAL => "Invalid argument"@,
            ErrorCode::EBUSY => "Resource busy"@,
            ErrorCode::ETIMEDOUT => "Timed out"@,
            ErrorCode::ECONNREFUSED => "Connection refused"@,
            ErrorCode::ECLOSED => "Object closed"@,
            ErrorCode::EAGAIN => "Try again"@,
            ErrorCode::ENOTSUP => "Not supported"@,
            ErrorCode::EADDRINUSE => "Address in use"@,
            ErrorCode::ESTATE => "Incorrect state"@,
            ErrorCode::ENOENT => "Entry not found"@,
            ErrorCode::EPROTO => "Protocol error"@,
            ErrorCode::EUNREACHABLE => "Destination unreachable"@,
            ErrorCode::EADDRINVAL => "Address invalid"@,
            ErrorCode::EPERM => "Permission denied"@,
            ErrorCode::EMSGSIZE => "Message too large"@,
            ErrorCode::ECONNABORTED => "Connection aborted"@,
            ErrorCode::ECONNRESET => "Connection reset"@,
            ErrorCode::ECANCELED => "Operation canceled"@,
            ErrorCode::ENOFILES => "Out of files"@,
            ErrorCode::ENOSPC => "Out of space"@,
            ErrorCode::EEXIST => "Resource already exists"@,
            ErrorCode::EREADONLY => "Read only resource"@,
            ErrorCode::EWRITEONLY => "Write only resource"@,
            ErrorCode::ECRYPTO => "Cryptographic error"@,
            ErrorCode::EPEERAUTH => "Peer could not be authenticated"@,
            ErrorCode::EBADTYPE => "Incorrect type"@,
            ErrorCode::ECONNSHUT => "Connection shutdown"@,
            ErrorCode::ESTOPPED => "Unknown error code #999"@,
            ErrorCode::EINTERNAL => "Internal error detected"@,
        },
{
    lemma_standard_errors_have_named_variants(c);
    reveal_strlit("Unknown error code #");
    reveal_strlit("Unknown error code #999");
    assert(decimal(999) =~= seq!['9', '9', '9']) by {
        reveal_with_fuel(decimal, 4);
    }
    assert("Unknown error code #"@ + decimal(999) =~= "Unknown error code #999"@);
}

/// The I/O error kind of each standard NNG error number reported through this API: the kind
/// closest to its meaning where the standard library has one (a reset connection is
/// `ConnectionReset`, a shut-down one `NotConnected`, ...), and `Other` for the rest.
pub proof fn lemma_standard_error_io_kinds(c: ErrorCode)
    ensures
        error_io_kind(error_of_code(c.spec_code())) == match c {
            ErrorCode::EINTR => IoErrorKind::Interrupted,
            ErrorCode::ENOMEM => IoErrorKind::Other,
            ErrorCode::EINVAL => IoErrorKind::InvalidInput,
            ErrorCode::EBUSY => IoErrorKind::Other,
            ErrorCode::ETIMEDOUT => IoErrorKind::TimedOut,
            ErrorCode::ECONNREFUSED => IoErrorKind::ConnectionRefused,
            ErrorCode::ECLOSED => IoErrorKind::Other,
            ErrorCode::EAGAIN => IoErrorKind::WouldBlock,
            ErrorCode::ENOTSUP => IoErrorKind::Other,
            ErrorCode::EADDRINUSE => IoErrorKind::Other,
            ErrorCode::ESTATE => IoErrorKind::Other,
            ErrorCode::ENOENT => IoErrorKind::Other,
            ErrorCode::EPROTO => IoErrorKind::Other,
            ErrorCode::EUNREACHABLE => IoErrorKind::Other,
            ErrorCode::EADDRINVAL => IoErrorKind::Other,
            ErrorCode::EPERM => IoErrorKind::PermissionDenied,
            ErrorCode::EMSGSIZE => IoErrorKind::Other,
            ErrorCode::ECONNABORTED => IoErrorKind::ConnectionAborted,
            ErrorCode::ECONNRESET => IoErrorKind::ConnectionReset,
            ErrorCode::ECANCELED => IoErrorKind::Other,
            ErrorCode::ENOFILES => IoErrorKind::Other,
            ErrorCode::ENOSPC => IoErrorKind::Other,
            ErrorCode::EEXIST => IoErrorKind::AlreadyExists,
            ErrorCode::EREADONLY => IoErrorKind::Other,
            ErrorCode::EWRITEONLY => IoErrorKind::Other,
            ErrorCode::ECRYPTO => IoErrorKind::Other,
            ErrorCode::EPEERAUTH => IoErrorKind::Other,
            ErrorCode::EBADTYPE => IoErrorKind::InvalidData,
            ErrorCode::ECONNSHUT => IoErrorKind::NotConnected,
            ErrorCode::ESTOPPED => IoErrorKind::Other,
            ErrorCode::EINTERNAL => IoErrorKind::Other,
        },
{
    lemma_standard_errors_have_named_variants(c);
}

} // verus!
