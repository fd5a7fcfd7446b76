//! Errors of asynchronous NNG operations, and how raw NNG error numbers map onto them.
use crate::message::{Message, MessageView};
use crate::nng::{error_of_code, error_text, Error};
use crate::nonzero::NonZeroU32;
use crate::sys::{
    NNG_EAGAIN, NNG_ENOTSUP, NNG_ESTATE, ErrorCode, is_standard_error, nng_err, os_error_kind, NNG_ECANCELED, NNG_OK, NNG_ESYSERR,
    NNG_ETIMEDOUT, NNG_ETRANERR, NNG_EINTR, NNG_EBUSY, NNG_EADDRINUSE, NNG_ENOENT, NNG_EPERM,
    NNG_EMSGSIZE, NNG_ECONNABORTED, NNG_ENOFILES, NNG_ENOSPC, NNG_EEXIST, NNG_EREADONLY,
    NNG_EWRITEONLY, NNG_EBADTYPE, NNG_EADDRINVAL, NNG_EINVAL, NNG_ECONNSHUT, NNG_ECLOSED,
    NNG_ECONNREFUSED, NNG_ECONNRESET, NNG_ENOMEM, NNG_EPEERAUTH, NNG_EUNREACHABLE,
};
use crate::text::{decimal, push_decimal};
use vstd::prelude::*;
use vstd::string::StringExecFns;

verus! {

/// Wrapper for NNG error codes across different API styles.
///
/// - [`NngError::NngError`]: typed `nng_err` from functions that have been updated in NNG v2.
/// - [`NngError::Transport`]: transport-specific error code extracted from an `NNG_ETRANERR` code.
/// - [`NngError::System`]: system error mapped to [`std::io::ErrorKind`], extracted from an
///   `NNG_ESYSERR` code.
/// - [`NngError::Other`]: raw error code not captured by the other variants.
#[derive(Clone, Copy, Debug, PartialEq)]
pub enum NngError {
    /// Standard NNG error.
    NngError(nng_err),
    /// Transport-specific error.
    Transport(u32),
    /// System error.
    System(std::io::ErrorKind),
    /// Other error.
    Other(NonZeroU32),
}

/// Errors that can occur during async I/O operations.
///
/// ## Transient errors
/// - [`AioError::TimedOut`]: operation exceeded its timeout period.
/// - [`AioError::Cancelled`]: operation was cancelled (usually due to dropping the future).
///
/// ## Protocol/Network errors
/// - [`AioError::Operation`]: underlying NNG operation failed (see error code for details).
#[derive(Clone, Copy, Debug, PartialEq)]
pub enum AioError {
    /// Operation exceeded its timeout period.
    TimedOut,
    /// Operation was cancelled before completion.
    Cancelled,
    /// Underlying NNG operation failed.
    Operation(NngError),
}

/// The error that the flag bits of `code` describe, if any: a set system flag takes precedence
/// over a set transport flag. A system error carries the kind that the standard library gives
/// the operating-system error number left when the flag is removed.
pub open spec fn special_error_matches(code: u32, r: Option<NngError>) -> bool {
    if code & NNG_ESYSERR != 0 {
        r matches Some(NngError::System(k)) && call_ensures(
            os_error_kind,
            (((code & !NNG_ESYSERR) as i32),),
            k,
        )
    } else if code & NNG_ETRANERR != 0 {
        r == Some(NngError::Transport(code & !NNG_ETRANERR))
    } else {
        r is None
    }
}

/// Checks if the error code represents a system or transport error and extracts it.
///
/// Returns `Some(NngError::System(..))` for system errors (`NNG_ESYSERR` flag set),
/// `Some(NngError::Transport(..))` for transport errors (`NNG_ETRANERR` flag set),
/// or `None` for standard NNG error codes.
pub fn try_extract_special_error(code: u32) -> (r: Option<NngError>)
    ensures
        special_error_matches(code, r),
{
    if (code & NNG_ESYSERR) != 0 {
        let sys_err = (code & !NNG_ESYSERR) as i32;
        let kind = os_error_kind(sys_err);
        Some(NngError::System(kind))
    } else if (code & NNG_ETRANERR) != 0 {
        let tran_err = code & !NNG_ETRANERR;
        Some(NngError::Transport(tran_err))
    } else {
        None
    }
}

/// Whether `r` is the [`AioError`] of the NNG error `err`: cancellation and time-outs have
/// their own variants, flagged codes become the error they describe, and every other code is
/// carried as it is.
pub open spec fn is_aio_error_of(err: nng_err, r: AioError) -> bool {
    if err.0 == NNG_ECANCELED {
        r == AioError::Cancelled
    } else if err.0 == NNG_ETIMEDOUT {
        r == AioError::TimedOut
    } else {
        r matches AioError::Operation(e) && (special_error_matches(err.0, Some(e)) || (
        special_error_matches(err.0, None) && e == NngError::NngError(err)))
    }
}

/// Whether `r` is the [`AioError`] of the raw error number `errno`: cancellation and time-outs
/// have their own variants, standard numbers are carried as [`NngError::NngError`], flagged
/// numbers become the error they describe, and any other number is carried as
/// [`NngError::Other`].
pub open spec fn is_aio_error_of_errno(errno: NonZeroU32, r: AioError) -> bool {
    let code = errno@;
    if code == NNG_ECANCELED {
        r == AioError::Cancelled
    } else if code == NNG_ETIMEDOUT {
        r == AioError::TimedOut
    } else if is_standard_error(code) {
        r == AioError::Operation(NngError::NngError(nng_err(code)))
    } else {
        r matches AioError::Operation(e) && (special_error_matches(code, Some(e)) || (
        special_error_matches(code, None) && e == NngError::Other(errno)))
    }
}

impl AioError {
    /// Converts an `nng_err` to an `AioError`.
    ///
    /// Cancellation and time-outs get their own variants; codes with the system or transport
    /// flag become the error they describe; every other code is carried as it is.
    pub fn from_nng_err(err: nng_err) -> (r: AioError)
        ensures
            is_aio_error_of(err, r),
    {
        let code = err.0;
        if code == NNG_ECANCELED {
            AioError::Cancelled
        } else if code == NNG_ETIMEDOUT {
            AioError::TimedOut
        } else if let Some(special) = try_extract_special_error(code) {
            AioError::Operation(special)
        } else {
            AioError::Operation(NngError::NngError(err))
        }
    }

    /// Converts a raw non-zero error number to an `AioError`.
    ///
    /// This is used for legacy NNG functions that return `int` error codes. Standard codes are
    /// carried as [`NngError::NngError`]; flagged codes become the error they describe; any
    /// other code is carried as [`NngError::Other`].
    pub fn from_nz_u32(errno: NonZeroU32) -> (r: AioError)
        ensures
            is_aio_error_of_errno(errno, r),
    {
        let code = errno.get();
        if code == NNG_ECANCELED {
            AioError::Cancelled
        } else if code == NNG_ETIMEDOUT {
            AioError::TimedOut
        } else {
            match ErrorCode::from_code(code) {
                Some(c) => AioError::Operation(NngError::NngError(nng_err(c.code()))),
                None => {
                    if let Some(special) = try_extract_special_error(code) {
                        AioError::Operation(special)
                    } else {
                        AioError::Operation(NngError::Other(errno))
                    }
                },
            }
        }
    }
}

/// The description that the standard library displays for an I/O error of kind `kind`.
pub uninterp spec fn io_kind_text(kind: std::io::ErrorKind) -> Seq<char>;

/// `std::io::Error::from(kind).to_string()`: the standard library's description of an I/O
/// error kind, named by [`io_kind_text`].
#[verifier::external_body]
fn io_kind_description(kind: std::io::ErrorKind) -> (r: String)
    ensures
        r@ == io_kind_text(kind),
{
    std::io::Error::from(kind).to_string()
}

/// The description of an NNG error number, as the synchronous API's [`Error`] gives it (NNG's
/// own description of each standard error), or `None` for a number with the system flag,
/// which the operating system describes.
pub open spec fn nng_code_text(code: u32) -> Option<Seq<char>> {
    if error_of_code(code) is SystemErr {
        None
    } else {
        Some(error_text(error_of_code(code)))
    }
}

/// Returns the description of an NNG error number (see [`nng_code_text`]).
fn nng_code_description(code: u32) -> (r: Option<String>)
    ensures
        r.deep_view() == nng_code_text(code),
{
    match NonZeroU32::new(code) {
        Some(n) => {
            let e = Error::from(n);
            if let Error::SystemErr(_) = e {
                None
            } else {
                Some(e.to_string())
            }
        },
        None => {
            let mut r = String::from_str("Unknown error code #");
            proof {
                reveal_strlit("Unknown error code #");
                assert(0u32 & 0x1000_0000u32 == 0 && 0u32 & 0x2000_0000u32 == 0) by (bit_vector);
            }
            push_decimal(&mut r, 0);
            Some(r)
        },
    }
}

/// The text of an [`NngError`]: `None` only for a standard error whose number carries the
/// system flag, which the operating system describes.
pub open spec fn nng_error_text(e: NngError) -> Option<Seq<char>> {
    match e {
        NngError::NngError(err) => nng_code_text(err.0),
        NngError::Transport(code) => Some("Transport error #"@ + decimal(code as nat)),
        NngError::System(kind) => Some("System error: "@ + io_kind_text(kind)),
        NngError::Other(code) => Some("Unknown error #"@ + decimal(code@ as nat)),
    }
}

/// The text of an [`AioError`] (see [`nng_error_text`]).
pub open spec fn aio_error_text(e: AioError) -> Option<Seq<char>> {
    match e {
        AioError::TimedOut => Some("operation timed out"@),
        AioError::Cancelled => Some("operation was cancelled"@),
        AioError::Operation(n) => nng_error_text(n),
    }
}

impl NngError {
    /// Returns the text describing this error (see [`nng_error_text`]).
    pub fn text(&self) -> (r: Option<String>)
        ensures
            r.deep_view() == nng_error_text(*self),
    {
        match *self {
            NngError::NngError(err) => nng_code_description(err.0),
            NngError::Transport(code) => {
                let mut r = String::from_str("Transport error #");
                proof {
                    reveal_strlit("Transport error #");
                }
                push_decimal(&mut r, code as u64);
                Some(r)
            },
            NngError::System(kind) => {
                let mut r = String::from_str("System error: ");
                let d = io_kind_description(kind);
                r.append(d.as_str());
                proof {
                    reveal_strlit("System error: ");
                }
                Some(r)
            },
            NngError::Other(code) => {
                let mut r = String::from_str("Unknown error #");
                proof {
                    reveal_strlit("Unknown error #");
                }
                push_decimal(&mut r, code.get() as u64);
                Some(r)
            },
        }
    }
}

impl AioError {
    /// Returns the text describing this error (see [`aio_error_text`]).
    pub fn text(&self) -> (r: Option<String>)
        ensures
            r.deep_view() == aio_error_text(*self),
    {
        match self {
            AioError::TimedOut => {
                let r = String::from_str("operation timed out");
                proof {
                    reveal_strlit("operation timed out");
                }
                Some(r)
            },
            AioError::Cancelled => {
                let r = String::from_str("operation was cancelled");
                proof {
                    reveal_strlit("operation was cancelled");
                }
                Some(r)
            },
            AioError::Operation(e) => e.text(),
        }
    }
}

/// The kind of a `std::io::Error` that an error of this library is reported as: one of the
/// standard library's kinds, by name, or the kind that a system error already carries.
#[derive(Clone, Copy, Debug, PartialEq)]
pub enum IoErrorKind {
    TimedOut,
    Interrupted,
    ResourceBusy,
    WouldBlock,
    Unsupported,
    AddrInUse,
    NotFound,
    PermissionDenied,
    InvalidData,
    ConnectionAborted,
    QuotaExceeded,
    StorageFull,
    AlreadyExists,
    InvalidInput,
    BrokenPipe,
    ConnectionRefused,
    ConnectionReset,
    OutOfMemory,
    HostUnreachable,
    NotConnected,
    Other,
    /// The kind of a system error, as it is.
    System(std::io::ErrorKind),
}

/// What a [`IoError`] carries besides its kind.
#[derive(Clone, Debug, PartialEq)]
pub enum IoErrorPayload {
    /// A message.
    Text(String),
    /// An NNG error.
    Nng(crate::sys::ErrorKind),
}

/// An error reported as a `std::io::Error`: its kind, and the message or NNG error it
/// carries.
#[derive(Clone, Debug, PartialEq)]
pub struct IoError {
    /// The kind of the error.
    pub kind: IoErrorKind,
    /// What the error carries.
    pub payload: IoErrorPayload,
}

/// Whether `e` is an error of kind `kind` carrying the message `msg`.
pub open spec fn is_text_error(e: IoError, kind: IoErrorKind, msg: Seq<char>) -> bool {
    &&& e.kind == kind
    &&& e.payload matches IoErrorPayload::Text(m) && m@ == msg
}

impl IoError {
    /// An error of kind `kind` carrying the message `msg`.
    pub fn text(kind: IoErrorKind, msg: String) -> (r: IoError)
        ensures
            is_text_error(r, kind, msg@),
    {
        IoError { kind, payload: IoErrorPayload::Text(msg) }
    }
}

/// Whether an error can be reported as an I/O error: NNG never reports success, an
/// interruption, or (outside their own variants) a time-out or a cancellation as a standard
/// error.
pub open spec fn io_reportable(e: AioError) -> bool {
    e matches AioError::Operation(NngError::NngError(err)) ==> (err.0 != NNG_OK && err.0
        != NNG_ETIMEDOUT && err.0 != NNG_ECANCELED && err.0 != NNG_EINTR)
}

/// The I/O error kind of a standard NNG error number.
pub open spec fn io_kind_of_code(code: u32) -> IoErrorKind {
    if code == NNG_EBUSY {
        IoErrorKind::ResourceBusy
    } else if code == NNG_EAGAIN {
        IoErrorKind::WouldBlock
    } else if code == NNG_ENOTSUP || code == NNG_EREADONLY || code == NNG_EWRITEONLY {
        IoErrorKind::Unsupported
    } else if code == NNG_EADDRINUSE {
        IoErrorKind::AddrInUse
    } else if code == NNG_ENOENT {
        IoErrorKind::NotFound
    } else if code == NNG_EPERM {
        IoErrorKind::PermissionDenied
    } else if code == NNG_EMSGSIZE {
        IoErrorKind::InvalidData
    } else if code == NNG_ECONNABORTED || code == NNG_EPEERAUTH {
        IoErrorKind::ConnectionAborted
    } else if code == NNG_ENOFILES {
        IoErrorKind::QuotaExceeded
    } else if code == NNG_ENOSPC {
        IoErrorKind::StorageFull
    } else if code == NNG_EEXIST {
        IoErrorKind::AlreadyExists
    } else if code == NNG_EBADTYPE || code == NNG_EADDRINVAL || code == NNG_EINVAL {
        IoErrorKind::InvalidInput
    } else if code == NNG_ECONNSHUT || code == NNG_ECLOSED {
        IoErrorKind::BrokenPipe
    } else if code == NNG_ECONNREFUSED {
        IoErrorKind::ConnectionRefused
    } else if code == NNG_ECONNRESET {
        IoErrorKind::ConnectionReset
    } else if code == NNG_ENOMEM {
        IoErrorKind::OutOfMemory
    } else if code == NNG_EUNREACHABLE {
        IoErrorKind::HostUnreachable
    } else {
        IoErrorKind::Other
    }
}

/// The I/O error kind of an [`AioError`].
pub open spec fn io_kind_of(e: AioError) -> IoErrorKind {
    match e {
        AioError::TimedOut => IoErrorKind::TimedOut,
        AioError::Cancelled => IoErrorKind::Interrupted,
        AioError::Operation(NngError::NngError(err)) => io_kind_of_code(err.0),
        AioError::Operation(NngError::System(kind)) => IoErrorKind::System(kind),
        AioError::Operation(_) => IoErrorKind::Other,
    }
}

/// The message of the I/O error of an [`AioError`]: `None` for a system error, which its kind
/// describes.
pub open spec fn io_message_of(e: AioError) -> Option<Seq<char>> {
    match e {
        AioError::TimedOut => Some("operation timed out"@),
        AioError::Cancelled => Some("operation cancelled"@),
        AioError::Operation(NngError::Transport(code)) => Some(
            "Transport error #"@ + decimal(code as nat),
        ),
        AioError::Operation(NngError::Other(code)) => Some(decimal(code@ as nat)),
        AioError::Operation(NngError::NngError(err)) => nng_code_text(err.0),
        AioError::Operation(NngError::System(_)) => None,
    }
}

impl AioError {
    /// The kind of I/O error this error is reported as.
    ///
    /// Time-outs and cancellations become `TimedOut` and `Interrupted`; standard NNG errors the
    /// kind closest to their meaning (see [`io_kind_of_code`]), or `Other`; system errors keep
    /// their kind; transport and other errors are `Other`.
    pub fn io_error_kind(&self) -> (r: IoErrorKind)
        requires
            io_reportable(*self),
        ensures
            r == io_kind_of(*self),
    {
        match *self {
            AioError::TimedOut => IoErrorKind::TimedOut,
            AioError::Cancelled => IoErrorKind::Interrupted,
            AioError::Operation(NngError::NngError(err)) => {
                let code = err.0;
                if code == NNG_EBUSY {
                    IoErrorKind::ResourceBusy
                } else if code == NNG_EAGAIN {
                    IoErrorKind::WouldBlock
                } else if code == NNG_ENOTSUP || code == NNG_EREADONLY || code == NNG_EWRITEONLY {
                    IoErrorKind::Unsupported
                } else if code == NNG_EADDRINUSE {
                    IoErrorKind::AddrInUse
                } else if code == NNG_ENOENT {
                    IoErrorKind::NotFound
                } else if code == NNG_EPERM {
                    IoErrorKind::PermissionDenied
                } else if code == NNG_EMSGSIZE {
                    IoErrorKind::InvalidData
                } else if code == NNG_ECONNABORTED || code == NNG_EPEERAUTH {
                    IoErrorKind::ConnectionAborted
                } else if code == NNG_ENOFILES {
                    IoErrorKind::QuotaExceeded
                } else if code == NNG_ENOSPC {
                    IoErrorKind::StorageFull
                } else if code == NNG_EEXIST {
                    IoErrorKind::AlreadyExists
                } else if code == NNG_EBADTYPE || code == NNG_EADDRINVAL || code == NNG_EINVAL {
                    IoErrorKind::InvalidInput
                } else if code == NNG_ECONNSHUT || code == NNG_ECLOSED {
                    IoErrorKind::BrokenPipe
                } else if code == NNG_ECONNREFUSED {
                    IoErrorKind::ConnectionRefused
                } else if code == NNG_ECONNRESET {
                    IoErrorKind::ConnectionReset
                } else if code == NNG_ENOMEM {
                    IoErrorKind::OutOfMemory
                } else if code == NNG_EUNREACHABLE {
                    IoErrorKind::HostUnreachable
                } else {
                    IoErrorKind::Other
                }
            },
            AioError::Operation(NngError::System(kind)) => IoErrorKind::System(kind),
            AioError::Operation(_) => IoErrorKind::Other,
        }
    }

    /// The message of the I/O error this error is reported as, or `None` for a system error
    /// (see [`io_message_of`]).
    pub fn io_error_message(&self) -> (r: Option<String>)
        ensures
            match (r, io_message_of(*self)) {
                (Some(a), Some(b)) => a@ == b,
                (None, None) => true,
                _ => false,
            },
    {
        match *self {
            AioError::TimedOut => {
                let r = String::from_str("operation timed out");
                proof {
                    reveal_strlit("operation timed out");
                }
                Some(r)
            },
            AioError::Cancelled => {
                let r = String::from_str("operation cancelled");
                proof {
                    reveal_strlit("operation cancelled");
                }
                Some(r)
            },
            AioError::Operation(NngError::Transport(code)) => {
                let mut r = String::from_str("Transport error #");
                proof {
                    reveal_strlit("Transport error #");
                }
                push_decimal(&mut r, code as u64);
                Some(r)
            },
            AioError::Operation(NngError::Other(code)) => {
                let mut r = String::new();
                push_decimal(&mut r, code.get() as u64);
                Some(r)
            },
            AioError::Operation(NngError::NngError(err)) => nng_code_description(err.0),
            AioError::Operation(NngError::System(_)) => None,
        }
    }
}

/// What the completion of an asynchronous operation means for the message in its slot.
#[derive(Clone, Copy, Debug, PartialEq, Eq, Structural)]
pub enum ImplicationOnMessage {
    /// The operation sent the message: on success NNG owns it and frees it.
    Sent,
    /// The operation received a message: on success it waits in the slot to be taken.
    Received,
}

/// The abstract state of an [`AioSlot`].
pub struct AioSlotView {
    /// The message in the slot, if any.
    pub msg: Option<MessageView>,
    /// Whether the library put the message there (for a send), rather than NNG (for a
    /// receive).
    pub msg_was_set: bool,
}

/// The view of an optional message.
pub open spec fn opt_view(m: Option<Message>) -> Option<MessageView> {
    match m {
        Some(msg) => Some(msg@),
        None => None,
    }
}

/// The message slot of an asynchronous I/O handle: the message handed to a send, or the one
/// that a receive delivered, with whether the library set it.
///
/// Ownership follows the slot: a message set for a send belongs to NNG once the send succeeds;
/// a failed send leaves it in the slot to be taken back; a received message waits in the slot
/// until it is taken.
pub struct AioSlot {
    msg: Option<Message>,
    msg_was_set: bool,
}

impl View for AioSlot {
    type V = AioSlotView;

    closed spec fn view(&self) -> AioSlotView {
        AioSlotView { msg: opt_view(self.msg), msg_was_set: self.msg_was_set }
    }
}

impl AioSlotView {
    /// The state after the library puts a message in the slot.
    pub open spec fn set(self, m: MessageView) -> AioSlotView {
        AioSlotView { msg: Some(m), msg_was_set: true }
    }

    /// The state after the slot's message is taken out.
    pub open spec fn taken(self) -> AioSlotView {
        if self.msg is Some {
            AioSlotView { msg: None, msg_was_set: false }
        } else {
            self
        }
    }

    /// The state after an operation completes with `err` without being cancelled: a
    /// successful send leaves the slot empty, anything else leaves it as it was.
    pub open spec fn finished(self, err: nng_err, implication: ImplicationOnMessage) -> AioSlotView {
        if err.0 == NNG_OK && implication == ImplicationOnMessage::Sent {
            AioSlotView { msg: None, msg_was_set: false }
        } else {
            self
        }
    }

    /// The state after an operation is cancelled and then ends with `err`: a message that was
    /// set leaves the slot (sent, or dropped if the send failed), and a received message stays
    /// there to be recovered.
    pub open spec fn cancelled(self, err: nng_err) -> AioSlotView {
        if self.msg_was_set {
            if err.0 == NNG_OK {
                AioSlotView { msg: None, msg_was_set: false }
            } else {
                self.taken()
            }
        } else {
            self
        }
    }
}

impl AioSlot {
    /// Returns an empty slot.
    pub fn new() -> (r: AioSlot)
        ensures
            r@ == (AioSlotView { msg: None, msg_was_set: false }),
    {
        AioSlot { msg: None, msg_was_set: false }
    }

    /// Puts `msg` in the slot for a send, and returns the message that was set before, if any.
    ///
    /// A slot that the library did not set must be empty: a received message is taken before
    /// the next operation starts.
    pub fn set_message(&mut self, msg: Message) -> (r: Option<Message>)
        requires
            old(self)@.msg_was_set || old(self)@.msg is None,
        ensures
            final(self)@ == old(self)@.set(msg@),
            opt_view(r) == (if old(self)@.msg_was_set {
                old(self)@.msg
            } else {
                None
            }),
    {
        let prev = if self.msg_was_set {
            self.msg.take()
        } else {
            None
        };
        self.msg = Some(msg);
        self.msg_was_set = true;
        prev
    }

    /// Takes the message out of the slot, if there is one.
    pub fn take_message(&mut self) -> (r: Option<Message>)
        ensures
            opt_view(r) == old(self)@.msg,
            final(self)@ == old(self)@.taken(),
    {
        match self.msg.take() {
            None => None,
            Some(m) => {
                self.msg_was_set = false;
                Some(m)
            },
        }
    }

    /// NNG completes a receive by putting the incoming message in the slot.
    pub fn deliver(&mut self, msg: Message)
        requires
            old(self)@.msg is None,
        ensures
            final(self)@ == (AioSlotView { msg: Some(msg@), msg_was_set: old(self)@.msg_was_set }),
    {
        self.msg = Some(msg);
    }

    /// Ends an operation that completed with `err`: success gives `Ok` (and, for a send,
    /// leaves the message to NNG); any other result gives the matching [`AioError`].
    pub fn finish(&mut self, err: nng_err, implication: ImplicationOnMessage) -> (r: Result<
        (),
        AioError,
    >)
        ensures
            final(self)@ == old(self)@.finished(err, implication),
            err.0 == NNG_OK ==> r is Ok,
            err.0 != NNG_OK ==> (r matches Err(e) && is_aio_error_of(err, e)),
    {
        if err.0 == NNG_OK {
            if let ImplicationOnMessage::Sent = implication {
                self.msg = None;
                self.msg_was_set = false;
            }
            Ok(())
        } else {
            Err(AioError::from_nng_err(err))
        }
    }

    /// Ends an operation that was cancelled and then ended with `err`. Returns the outgoing
    /// message of a failed send, which the caller drops; a message that a receive delivered
    /// stays in the slot so that it can be recovered.
    pub fn cancel(&mut self, err: nng_err) -> (r: Option<Message>)
        ensures
            final(self)@ == old(self)@.cancelled(err),
            opt_view(r) == (if old(self)@.msg_was_set && err.0 != NNG_OK {
                old(self)@.msg
            } else {
                None
            }),
    {
        if self.msg_was_set {
            if err.0 == NNG_OK {
                self.msg = None;
                self.msg_was_set = false;
                None
            } else {
                self.take_message()
            }
        } else {
            None
        }
    }
}

impl AioSlotView {
    /// The state after NNG delivers an incoming message into the slot.
    pub open spec fn delivered(self, m: MessageView) -> AioSlotView {
        AioSlotView { msg: Some(m), msg_was_set: self.msg_was_set }
    }
}

/// Ends a send that completed with `err`.
///
/// On success NNG owns the message. On failure the message is taken back out of the slot and
/// returned with the error, so that the caller can retry.
pub fn send_finished(aio: &mut AioSlot, err: nng_err) -> (r: Result<(), (AioError, Message)>)
    requires
        old(aio)@.msg_was_set,
        old(aio)@.msg is Some,
    ensures
        final(aio)@ == (AioSlotView { msg: None, msg_was_set: false }),
        err.0 == NNG_OK ==> r is Ok,
        err.0 != NNG_OK ==> (r matches Err((e, m)) && is_aio_error_of(err, e) && Some(m@)
            == old(aio)@.msg),
{
    match aio.finish(err, ImplicationOnMessage::Sent) {
        Ok(()) => Ok(()),
        Err(e) => match aio.take_message() {
            Some(m) => Err((e, m)),
            None => {
                assert(false);
                Ok(())
            },
        },
    }
}

/// Ends a receive that completed with `err`: on success, takes the delivered message out of
/// the slot.
pub fn receive_finished(aio: &mut AioSlot, err: nng_err) -> (r: Result<Message, AioError>)
    requires
        !old(aio)@.msg_was_set,
        err.0 == NNG_OK ==> old(aio)@.msg is Some,
    ensures
        err.0 == NNG_OK ==> (r matches Ok(m) && Some(m@) == old(aio)@.msg && final(aio)@ == (
        AioSlotView { msg: None, msg_was_set: false })),
        err.0 != NNG_OK ==> (r matches Err(e) && is_aio_error_of(err, e) && final(aio)@ == old(
            aio,
        )@),
{
    aio.finish(err, ImplicationOnMessage::Received)?;
    match aio.take_message() {
        Some(m) => Ok(m),
        None => {
            assert(false);
            Err(AioError::Cancelled)
        },
    }
}

/// A message that a receive on a socket or context delivered after the receive was
/// cancelled, kept so that the next receive on the same socket or context returns it.
pub struct Recovery {
    msg: Option<Message>,
}

impl View for Recovery {
    type V = Option<MessageView>;

    closed spec fn view(&self) -> Option<MessageView> {
        opt_view(self.msg)
    }
}

impl Recovery {
    /// Returns a recovery holding no message.
    pub fn new() -> (r: Recovery)
        ensures
            r@ is None,
    {
        Recovery { msg: None }
    }

    /// Takes the recovered message, if any: a receive returns it before asking NNG for
    /// another.
    pub fn take(&mut self) -> (r: Option<Message>)
        ensures
            opt_view(r) == old(self)@,
            final(self)@ is None,
    {
        self.msg.take()
    }

    /// After a receive was cancelled, keeps the message it delivered, if any, for the next
    /// receive.
    pub fn recover(&mut self, aio: &mut AioSlot)
        ensures
            old(aio)@.msg is Some ==> final(self)@ == old(aio)@.msg,
            old(aio)@.msg is None ==> final(self)@ == old(self)@,
            final(aio)@ == old(aio)@.taken(),
    {
        if let Some(m) = aio.take_message() {
            self.msg = Some(m);
        }
    }
}

/// Maps the result of a non-blocking receive on a socket: success gives the message NNG
/// returned, "try again" gives `None`, and a protocol that cannot receive (now or at all), or
/// whose operation timed out, gives the matching error (a time-out is
/// [`AioError::TimedOut`]). NNG documents other results (a closed socket, invalid
/// flags, lack of memory) that the callers rule out.
pub fn try_receive_outcome(errno: u32, msg: Option<Message>) -> (r: Result<
    Option<Message>,
    AioError,
>)
    requires
        errno == NNG_OK || errno == NNG_EAGAIN || errno == NNG_ENOTSUP || errno == NNG_ESTATE
            || errno == NNG_ETIMEDOUT,
        errno == NNG_OK ==> msg is Some,
    ensures
        errno == NNG_OK ==> (r matches Ok(Some(m)) && Some(m@) == opt_view(msg)),
        errno == NNG_EAGAIN ==> (r matches Ok(None)),
        errno != NNG_OK && errno != NNG_EAGAIN ==> (r matches Err(e) && is_aio_error_of(
            nng_err(errno),
            e,
        )),
{
    if errno == NNG_OK {
        Ok(msg)
    } else if errno == NNG_EAGAIN {
        Ok(None)
    } else {
        Err(AioError::from_nng_err(nng_err(errno)))
    }
}

/// Maps the result of a non-blocking receive on a context: success gives the message NNG
/// returned, "try again" gives `None`, and a protocol that cannot receive (now or at all), or
/// a protocol-level time-out (such as an expired survey), gives an [`AioError::Operation`]
/// carrying that error number. Unlike a socket receive, a time-out here is not reported as
/// [`AioError::TimedOut`], which is kept for time-outs set on the operation itself. NNG
/// documents other results (a closed context, invalid flags, lack of memory) that the callers
/// rule out.
pub fn context_try_receive_outcome(errno: u32, msg: Option<Message>) -> (r: Result<
    Option<Message>,
    AioError,
>)
    requires
        errno == NNG_OK || errno == NNG_EAGAIN || errno == NNG_ENOTSUP || errno == NNG_ESTATE
            || errno == NNG_ETIMEDOUT,
        errno == NNG_OK ==> msg is Some,
    ensures
        errno == NNG_OK ==> (r matches Ok(Some(m)) && Some(m@) == opt_view(msg)),
        errno == NNG_EAGAIN ==> (r matches Ok(None)),
        errno != NNG_OK && errno != NNG_EAGAIN ==> r == Err::<Option<Message>, AioError>(
            AioError::Operation(NngError::NngError(nng_err(errno))),
        ),
{
    if errno == NNG_OK {
        Ok(msg)
    } else if errno == NNG_EAGAIN {
        Ok(None)
    } else {
        Err(AioError::Operation(NngError::NngError(nng_err(errno))))
    }
}

/// A receive that NNG completes after it was cancelled does not lose its message: the slot
/// keeps it whatever the operation's result, and a recovery then holds it for the next receive
/// on the same socket or context.
pub proof fn lemma_cancelled_receive_keeps_message(s: AioSlotView, m: MessageView, err: nng_err)
    requires
        !s.msg_was_set,
        s.msg is None,
    ensures
        s.delivered(m).cancelled(err).msg == Some(m),
        s.delivered(m).cancelled(err).taken().msg is None,
{
}

/// A send that fails leaves its message in the slot, where [`send_finished`] takes it back to
/// return it; a send that succeeds leaves the slot empty.
pub proof fn lemma_failed_send_returns_message(s: AioSlotView, m: MessageView, err: nng_err)
    ensures
        err.0 != NNG_OK ==> s.set(m).finished(err, ImplicationOnMessage::Sent).msg == Some(m),
        err.0 == NNG_OK ==> s.set(m).finished(err, ImplicationOnMessage::Sent).msg is None,
{
}

/// A cancelled send never leaves its message in the slot: either NNG sent it, or it was
/// dropped.
pub proof fn lemma_cancelled_send_empties_slot(s: AioSlotView, m: MessageView, err: nng_err)
    ensures
        s.set(m).cancelled(err).msg is None,
        !s.set(m).cancelled(err).msg_was_set,
{
}

/// Taking the message out of the slot gives back the message that was put in.
pub proof fn lemma_take_returns_set(s: AioSlotView, m: MessageView)
    ensures
        s.set(m).msg == Some(m),
        s.set(m).taken() == (AioSlotView { msg: None, msg_was_set: false }),
{
}


/// The two conversions of an error number agree on every number that NNG reports: the standard
/// ones and those with the system or transport flag. (They differ only on other numbers, which
/// the raw conversion keeps as [`NngError::Other`].)
pub proof fn lemma_error_conversions_agree(errno: NonZeroU32, r: AioError)
    requires
        is_standard_error(errno@) || errno@ & NNG_ESYSERR != 0 || errno@ & NNG_ETRANERR != 0,
    ensures
        is_aio_error_of_errno(errno, r) <==> is_aio_error_of(nng_err(errno@), r),
{
    let code = errno@;
    if is_standard_error(code) {
        assert(code & 0x1000_0000u32 == 0 && code & 0x2000_0000u32 == 0) by (bit_vector)
            requires
                code <= 1000u32,
        ;
    } else {
        assert(code & 0x1000_0000u32 != 0 || code & 0x2000_0000u32 != 0 ==> code >= 0x1000_0000u32)
            by (bit_vector);
    }
}


/// The I/O error kind of each standard NNG error: the kind closest to its meaning (a refused
/// connection is `ConnectionRefused`, an invalid address `InvalidInput`, an address in use
/// `AddrInUse`, a closed object a `BrokenPipe`, ...), and `Other` for the errors that have no
/// such kind (a cryptographic, internal, state or protocol error, a stop). Interruptions,
/// time-outs and cancellations, which NNG never reports as standard errors, are `Other` too.
pub proof fn lemma_io_kinds_of_standard_errors(c: ErrorCode)
    ensures
        io_kind_of(AioError::Operation(NngError::NngError(nng_err(c.spec_code())))) == match c {
            ErrorCode::EINTR => IoErrorKind::Other,
            ErrorCode::ENOMEM => IoErrorKind::OutOfMemory,
            ErrorCode::EINVAL => IoErrorKind::InvalidInput,
            ErrorCode::EBUSY => IoErrorKind::ResourceBusy,
            ErrorCode::ETIMEDOUT => IoErrorKind::Other,
            ErrorCode::ECONNREFUSED => IoErrorKind::ConnectionRefused,
            ErrorCode::ECLOSED => IoErrorKind::BrokenPipe,
            ErrorCode::EAGAIN => IoErrorKind::WouldBlock,
            ErrorCode::ENOTSUP => IoErrorKind::Unsupported,
            ErrorCode::EADDRINUSE => IoErrorKind::AddrInUse,
            ErrorCode::ESTATE => IoErrorKind::Other,
            ErrorCode::ENOENT => IoErrorKind::NotFound,
            ErrorCode::EPROTO => IoErrorKind::Other,
            ErrorCode::EUNREACHABLE => IoErrorKind::HostUnreachable,
            ErrorCode::EADDRINVAL => IoErrorKind::InvalidInput,
            ErrorCode::EPERM => IoErrorKind::PermissionDenied,
            ErrorCode::EMSGSIZE => IoErrorKind::InvalidData,
            ErrorCode::ECONNABORTED => IoErrorKind::ConnectionAborted,
            ErrorCode::ECONNRESET => IoErrorKind::ConnectionReset,
            ErrorCode::ECANCELED => IoErrorKind::Other,
            ErrorCode::ENOFILES => IoErrorKind::QuotaExceeded,
            ErrorCode::ENOSPC => IoErrorKind::StorageFull,
            ErrorCode::EEXIST => IoErrorKind::AlreadyExists,
            ErrorCode::EREADONLY => IoErrorKind::Unsupported,
            ErrorCode::EWRITEONLY => IoErrorKind::Unsupported,
            ErrorCode::ECRYPTO => IoErrorKind::Other,
            ErrorCode::EPEERAUTH => IoErrorKind::ConnectionAborted,
            ErrorCode::EBADTYPE => IoErrorKind::InvalidInput,
            ErrorCode::ECONNSHUT => IoErrorKind::BrokenPipe,
            ErrorCode::ESTOPPED => IoErrorKind::Other,
            ErrorCode::EINTERNAL => IoErrorKind::Other,
        },
{
}

/// The I/O error kind of the errors that are not standard NNG errors: a time-out is
/// `TimedOut`, a cancellation `Interrupted`, a system error keeps its kind, and transport and
/// other errors are `Other`.
pub proof fn lemma_io_kinds_of_other_errors(t: u32, n: NonZeroU32, k: std::io::ErrorKind)
    ensures
        io_kind_of(AioError::TimedOut) == IoErrorKind::TimedOut,
        io_kind_of(AioError::Cancelled) == IoErrorKind::Interrupted,
        io_kind_of(AioError::Operation(NngError::System(k))) == IoErrorKind::System(k),
        io_kind_of(AioError::Operation(NngError::Transport(t))) == IoErrorKind::Other,
        io_kind_of(AioError::Operation(NngError::Other(n))) == IoErrorKind::Other,
{
}

} // verus!
