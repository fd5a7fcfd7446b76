//! Low-level NNG codes: error numbers, statistic and address-family enumerations, and the
//! initialization parameter block.
use vstd::prelude::*;

verus! {

/// Success.
pub const NNG_OK: u32 = 0;
/// Interrupted.
pub const NNG_EINTR: u32 = 1;
/// Out of memory.
pub const NNG_ENOMEM: u32 = 2;
/// Invalid argument.
pub const NNG_EINVAL: u32 = 3;
/// Resource busy.
pub const NNG_EBUSY: u32 = 4;
/// Timed out.
pub const NNG_ETIMEDOUT: u32 = 5;
/// Connection refused.
pub const NNG_ECONNREFUSED: u32 = 6;
/// Object closed.
pub const NNG_ECLOSED: u32 = 7;
/// Try again.
pub const NNG_EAGAIN: u32 = 8;
/// Not supported.
pub const NNG_ENOTSUP: u32 = 9;
/// Address in use.
pub const NNG_EADDRINUSE: u32 = 10;
/// Incorrect state.
pub const NNG_ESTATE: u32 = 11;
/// Entry not found.
pub const NNG_ENOENT: u32 = 12;
/// Protocol error.
pub const NNG_EPROTO: u32 = 13;
/// Destination unreachable.
pub const NNG_EUNREACHABLE: u32 = 14;
/// Address invalid.
pub const NNG_EADDRINVAL: u32 = 15;
/// Permission denied.
pub const NNG_EPERM: u32 = 16;
/// Message too large.
pub const NNG_EMSGSIZE: u32 = 17;
/// Connection aborted.
pub const NNG_ECONNABORTED: u32 = 18;
/// Connection reset.
pub const NNG_ECONNRESET: u32 = 19;
/// Operation canceled.
pub const NNG_ECANCELED: u32 = 20;
/// Out of files.
pub const NNG_ENOFILES: u32 = 21;
/// Out of space.
pub const NNG_ENOSPC: u32 = 22;
/// Resource already exists.
pub const NNG_EEXIST: u32 = 23;
/// Read only resource.
pub const NNG_EREADONLY: u32 = 24;
/// Write only resource.
pub const NNG_EWRITEONLY: u32 = 25;
/// Cryptographic error.
pub const NNG_ECRYPTO: u32 = 26;
/// Peer could not be authenticated.
pub const NNG_EPEERAUTH: u32 = 27;
/// Incorrect type.
pub const NNG_EBADTYPE: u32 = 30;
/// Connection shutdown.
pub const NNG_ECONNSHUT: u32 = 31;
/// Operation stopped.
pub const NNG_ESTOPPED: u32 = 999;
/// Internal error detected.
pub const NNG_EINTERNAL: u32 = 1000;
/// Flag bit marking an operating-system error; the remaining bits hold the system errno.
pub const NNG_ESYSERR: u32 = 0x1000_0000;
/// Flag bit marking a transport error; the remaining bits hold the transport's code.
pub const NNG_ETRANERR: u32 = 0x2000_0000;

/// The duration that NNG reads as "no timeout".
pub const NNG_DURATION_INFINITE: i32 = -1;

/// Tunable parameters of NNG's thread pools, as NNG's initialization reads them.
///
/// Zero means "use NNG's default"; for a `max_*` field, `-1` means "no limit".
#[derive(Clone, Copy, Debug, PartialEq, Eq, Structural)]
pub struct nng_init_params {
    pub num_task_threads: i16,
    pub max_task_threads: i16,
    pub num_expire_threads: i16,
    pub max_expire_threads: i16,
    pub num_poller_threads: i16,
    pub max_poller_threads: i16,
    pub num_resolver_threads: i16,
}

/// A handle to an NNG pipe: its identifier, zero standing for "no pipe".
#[derive(Clone, Copy, Debug, PartialEq, Eq, Hash, PartialOrd, Ord, Structural)]
pub struct nng_pipe {
    pub id: u32,
}

/// A pipe has been connected and negotiated, but not yet added to its socket.
pub const NNG_PIPE_EV_ADD_PRE: u32 = 0;
/// A pipe has been added to its socket.
pub const NNG_PIPE_EV_ADD_POST: u32 = 1;
/// A pipe has been removed from its socket.
pub const NNG_PIPE_EV_REM_POST: u32 = 2;

/// A raw NNG error number, as returned by the NNG functions.
#[derive(Clone, Copy, Debug, PartialEq, Eq, Hash, Structural)]
pub struct nng_err(pub u32);

/// NNG error codes.
///
/// These are the standard error codes returned by NNG library functions. They are distinct
/// from system errors ([`NNG_ESYSERR`]) and transport errors ([`NNG_ETRANERR`]), which use flag
/// bits to encode additional information.
#[derive(Clone, Copy, Debug, PartialEq, Eq, Hash, Structural)]
#[non_exhaustive]
pub enum ErrorCode {
    EINTR,
    ENOMEM,
    EINVAL,
    EBUSY,
    ETIMEDOUT,
    ECONNREFUSED,
    ECLOSED,
    EAGAIN,
    ENOTSUP,
    EADDRINUSE,
    ESTATE,
    ENOENT,
    EPROTO,
    EUNREACHABLE,
    EADDRINVAL,
    EPERM,
    EMSGSIZE,
    ECONNABORTED,
    ECONNRESET,
    ECANCELED,
    ENOFILES,
    ENOSPC,
    EEXIST,
    EREADONLY,
    EWRITEONLY,
    ECRYPTO,
    EPEERAUTH,
    EBADTYPE,
    ECONNSHUT,
    ESTOPPED,
    EINTERNAL,
}

impl ErrorCode {
    /// The NNG error number of this code.
    pub open spec fn spec_code(self) -> u32 {
        match self {
            ErrorCode::EINTR => NNG_EINTR,
            ErrorCode::ENOMEM => NNG_ENOMEM,
            ErrorCode::EINVAL => NNG_EINVAL,
            ErrorCode::EBUSY => NNG_EBUSY,
            ErrorCode::ETIMEDOUT => NNG_ETIMEDOUT,
            ErrorCode::ECONNREFUSED => NNG_ECONNREFUSED,
            ErrorCode::ECLOSED => NNG_ECLOSED,
            ErrorCode::EAGAIN => NNG_EAGAIN,
            ErrorCode::ENOTSUP => NNG_ENOTSUP,
            ErrorCode::EADDRINUSE => NNG_EADDRINUSE,
            ErrorCode::ESTATE => NNG_ESTATE,
            ErrorCode::ENOENT => NNG_ENOENT,
            ErrorCode::EPROTO => NNG_EPROTO,
            ErrorCode::EUNREACHABLE => NNG_EUNREACHABLE,
            ErrorCode::EADDRINVAL => NNG_EADDRINVAL,
            ErrorCode::EPERM => NNG_EPERM,
            ErrorCode::EMSGSIZE => NNG_EMSGSIZE,
            ErrorCode::ECONNABORTED => NNG_ECONNABORTED,
            ErrorCode::ECONNRESET => NNG_ECONNRESET,
            ErrorCode::ECANCELED => NNG_ECANCELED,
            ErrorCode::ENOFILES => NNG_ENOFILES,
            ErrorCode::ENOSPC => NNG_ENOSPC,
            ErrorCode::EEXIST => NNG_EEXIST,
            ErrorCode::EREADONLY => NNG_EREADONLY,
            ErrorCode::EWRITEONLY => NNG_EWRITEONLY,
            ErrorCode::ECRYPTO => NNG_ECRYPTO,
            ErrorCode::EPEERAUTH => NNG_EPEERAUTH,
            ErrorCode::EBADTYPE => NNG_EBADTYPE,
            ErrorCode::ECONNSHUT => NNG_ECONNSHUT,
            ErrorCode::ESTOPPED => NNG_ESTOPPED,
            ErrorCode::EINTERNAL => NNG_EINTERNAL,
        }
    }

    /// Returns the NNG error number of this code.
    pub fn code(self) -> (r: u32)
        ensures
            r == self.spec_code(),
    {
        match self {
            ErrorCode::EINTR => NNG_EINTR,
            ErrorCode::ENOMEM => NNG_ENOMEM,
            ErrorCode::EINVAL => NNG_EINVAL,
            ErrorCode::EBUSY => NNG_EBUSY,
            ErrorCode::ETIMEDOUT => NNG_ETIMEDOUT,
            ErrorCode::ECONNREFUSED => NNG_ECONNREFUSED,
            ErrorCode::ECLOSED => NNG_ECLOSED,
            ErrorCode::EAGAIN => NNG_EAGAIN,
            ErrorCode::ENOTSUP => NNG_ENOTSUP,
            ErrorCode::EADDRINUSE => NNG_EADDRINUSE,
            ErrorCode::ESTATE => NNG_ESTATE,
            ErrorCode::ENOENT => NNG_ENOENT,
            ErrorCode::EPROTO => NNG_EPROTO,
            ErrorCode::EUNREACHABLE => NNG_EUNREACHABLE,
            ErrorCode::EADDRINVAL => NNG_EADDRINVAL,
            ErrorCode::EPERM => NNG_EPERM,
            ErrorCode::EMSGSIZE => NNG_EMSGSIZE,
            ErrorCode::ECONNABORTED => NNG_ECONNABORTED,
            ErrorCode::ECONNRESET => NNG_ECONNRESET,
            ErrorCode::ECANCELED => NNG_ECANCELED,
            ErrorCode::ENOFILES => NNG_ENOFILES,
            ErrorCode::ENOSPC => NNG_ENOSPC,
            ErrorCode::EEXIST => NNG_EEXIST,
            ErrorCode::EREADONLY => NNG_EREADONLY,
            ErrorCode::EWRITEONLY => NNG_EWRITEONLY,
            ErrorCode::ECRYPTO => NNG_ECRYPTO,
            ErrorCode::EPEERAUTH => NNG_EPEERAUTH,
            ErrorCode::EBADTYPE => NNG_EBADTYPE,
            ErrorCode::ECONNSHUT => NNG_ECONNSHUT,
            ErrorCode::ESTOPPED => NNG_ESTOPPED,
            ErrorCode::EINTERNAL => NNG_EINTERNAL,
        }
    }

    /// Returns the code whose error number is `code`, or `None` if `code` is not one of the
    /// standard NNG error numbers.
    pub fn from_code(code: u32) -> (r: Option<ErrorCode>)
        ensures
            r matches Some(c) ==> c.spec_code() == code,
            r is None <==> is_standard_error(code) == false,
    {
        match code {
            1 => Some(ErrorCode::EINTR),
            2 => Some(ErrorCode::ENOMEM),
            3 => Some(ErrorCode::EINVAL),
            4 => Some(ErrorCode::EBUSY),
            5 => Some(ErrorCode::ETIMEDOUT),
            6 => Some(ErrorCode::ECONNREFUSED),
            7 => Some(ErrorCode::ECLOSED),
            8 => Some(ErrorCode::EAGAIN),
            9 => Some(ErrorCode::ENOTSUP),
            10 => Some(ErrorCode::EADDRINUSE),
            11 => Some(ErrorCode::ESTATE),
            12 => Some(ErrorCode::ENOENT),
            13 => Some(ErrorCode::EPROTO),
            14 => Some(ErrorCode::EUNREACHABLE),
            15 => Some(ErrorCode::EADDRINVAL),
            16 => Some(ErrorCode::EPERM),
            17 => Some(ErrorCode::EMSGSIZE),
            18 => Some(ErrorCode::ECONNABORTED),
            19 => Some(ErrorCode::ECONNRESET),
            20 => Some(ErrorCode::ECANCELED),
            21 => Some(ErrorCode::ENOFILES),
            22 => Some(ErrorCode::ENOSPC),
            23 => Some(ErrorCode::EEXIST),
            24 => Some(ErrorCode::EREADONLY),
            25 => Some(ErrorCode::EWRITEONLY),
            26 => Some(ErrorCode::ECRYPTO),
            27 => Some(ErrorCode::EPEERAUTH),
            30 => Some(ErrorCode::EBADTYPE),
            31 => Some(ErrorCode::ECONNSHUT),
            999 => Some(ErrorCode::ESTOPPED),
            1000 => Some(ErrorCode::EINTERNAL),
            _ => None,
        }
    }
}

/// Whether `code` is one of the standard NNG error numbers (those of [`ErrorCode`]).
pub open spec fn is_standard_error(code: u32) -> bool {
    (1 <= code <= 27) || code == 30 || code == 31 || code == 999 || code == 1000
}

/// Every standard error number is the number of exactly one [`ErrorCode`], and no other number
/// is the number of any.
pub proof fn lemma_standard_error_codes(c: ErrorCode, code: u32)
    ensures
        is_standard_error(c.spec_code()),
        c.spec_code() == code ==> is_standard_error(code),
        forall|d: ErrorCode| #[trigger] d.spec_code() == c.spec_code() ==> d == c,
{
}


/// The error type returned when unable to convert an integer to an enum value.
#[derive(Clone, Copy, Debug, PartialEq, Eq, Structural)]
pub struct EnumFromIntError(pub i32);

/// The type of an NNG statistic.
#[derive(Clone, Copy, Debug, PartialEq, Eq, Hash, Structural)]
pub enum nng_stat_type_enum {
    NNG_STAT_SCOPE,
    NNG_STAT_LEVEL,
    NNG_STAT_COUNTER,
    NNG_STAT_STRING,
    NNG_STAT_BOOLEAN,
    NNG_STAT_ID,
}

impl nng_stat_type_enum {
    /// The statistic type that NNG numbers `value`, if any.
    pub open spec fn from_value(value: i32) -> Option<Self> {
        if exists|t: Self| #[trigger] t.spec_value() == value {
            Some(choose|t: Self| #[trigger] t.spec_value() == value)
        } else {
            None
        }
    }

    /// The value that NNG uses for this statistic type.
    pub open spec fn spec_value(self) -> i32 {
        match self {
            nng_stat_type_enum::NNG_STAT_SCOPE => 0,
            nng_stat_type_enum::NNG_STAT_LEVEL => 1,
            nng_stat_type_enum::NNG_STAT_COUNTER => 2,
            nng_stat_type_enum::NNG_STAT_STRING => 3,
            nng_stat_type_enum::NNG_STAT_BOOLEAN => 4,
            nng_stat_type_enum::NNG_STAT_ID => 5,
        }
    }

    /// Converts a value returned by `nng_stat_type` into `nng_stat_type_enum`; `None` if it
    /// names no statistic type.
    pub fn try_convert_from(value: i32) -> (r: Option<Self>)
        ensures
            r == Self::from_value(value),
            r matches Some(t) ==> t.spec_value() == value,
            r is None ==> forall|t: Self| t.spec_value() != value,
    {
        let r = match value {
            0 => Some(nng_stat_type_enum::NNG_STAT_SCOPE),
            1 => Some(nng_stat_type_enum::NNG_STAT_LEVEL),
            2 => Some(nng_stat_type_enum::NNG_STAT_COUNTER),
            3 => Some(nng_stat_type_enum::NNG_STAT_STRING),
            4 => Some(nng_stat_type_enum::NNG_STAT_BOOLEAN),
            5 => Some(nng_stat_type_enum::NNG_STAT_ID),
            _ => None,
        };
        proof {
            if let Some(t) = r {
                let c = choose|c: Self| #[trigger] c.spec_value() == value;
                assert(t.spec_value() == value);
                Self::lemma_values_unique(c, t);
            }
        }
        r
    }

    /// No two values share a number.
    proof fn lemma_values_unique(a: Self, b: Self)
        ensures
            a.spec_value() == b.spec_value() ==> a == b,
    {
    }
}

impl vstd::std_specs::convert::TryFromSpecImpl<i32> for nng_stat_type_enum {
    open spec fn obeys_try_from_spec() -> bool {
        true
    }

    open spec fn try_from_spec(value: i32) -> Result<Self, EnumFromIntError> {
        match Self::from_value(value) {
            Some(t) => Ok(t),
            None => Err(EnumFromIntError(value)),
        }
    }
}

impl TryFrom<i32> for nng_stat_type_enum {
    type Error = EnumFromIntError;

    /// Converts `value` as [`nng_stat_type_enum::try_convert_from`] does, refusing an unknown value with
    /// [`EnumFromIntError`].
    fn try_from(value: i32) -> (r: Result<Self, EnumFromIntError>)
        ensures
            r == (match Self::from_value(value) {
                Some(t) => Ok(t),
                None => Err(EnumFromIntError(value)),
            }),
    {
        match Self::try_convert_from(value) {
            Some(t) => Ok(t),
            None => Err(EnumFromIntError(value)),
        }
    }
}

/// The unit of an NNG statistic.
#[derive(Clone, Copy, Debug, PartialEq, Eq, Hash, Structural)]
pub enum nng_unit_enum {
    NNG_UNIT_NONE,
    NNG_UNIT_BYTES,
    NNG_UNIT_MESSAGES,
    NNG_UNIT_MILLIS,
    NNG_UNIT_EVENTS,
}

impl nng_unit_enum {
    /// The unit that NNG numbers `value`, if any.
    pub open spec fn from_value(value: i32) -> Option<Self> {
        if exists|t: Self| #[trigger] t.spec_value() == value {
            Some(choose|t: Self| #[trigger] t.spec_value() == value)
        } else {
            None
        }
    }

    /// The value that NNG uses for this unit.
    pub open spec fn spec_value(self) -> i32 {
        match self {
            nng_unit_enum::NNG_UNIT_NONE => 0,
            nng_unit_enum::NNG_UNIT_BYTES => 1,
            nng_unit_enum::NNG_UNIT_MESSAGES => 2,
            nng_unit_enum::NNG_UNIT_MILLIS => 3,
            nng_unit_enum::NNG_UNIT_EVENTS => 4,
        }
    }

    /// Converts a value returned by `nng_stat_unit` into `nng_unit_enum`; `None` if it names
    /// no unit.
    pub fn try_convert_from(value: i32) -> (r: Option<Self>)
        ensures
            r == Self::from_value(value),
            r matches Some(t) ==> t.spec_value() == value,
            r is None ==> forall|t: Self| t.spec_value() != value,
    {
        let r = match value {
            0 => Some(nng_unit_enum::NNG_UNIT_NONE),
            1 => Some(nng_unit_enum::NNG_UNIT_BYTES),
            2 => Some(nng_unit_enum::NNG_UNIT_MESSAGES),
            3 => Some(nng_unit_enum::NNG_UNIT_MILLIS),
            4 => Some(nng_unit_enum::NNG_UNIT_EVENTS),
            _ => None,
        };
        proof {
            if let Some(t) = r {
                let c = choose|c: Self| #[trigger] c.spec_value() == value;
                assert(t.spec_value() == value);
                Self::lemma_values_unique(c, t);
            }
        }
        r
    }

    /// No two values share a number.
    proof fn lemma_values_unique(a: Self, b: Self)
        ensures
            a.spec_value() == b.spec_value() ==> a == b,
    {
    }
}

impl vstd::std_specs::convert::TryFromSpecImpl<i32> for nng_unit_enum {
    open spec fn obeys_try_from_spec() -> bool {
        true
    }

    open spec fn try_from_spec(value: i32) -> Result<Self, EnumFromIntError> {
        match Self::from_value(value) {
            Some(t) => Ok(t),
            None => Err(EnumFromIntError(value)),
        }
    }
}

impl TryFrom<i32> for nng_unit_enum {
    type Error = EnumFromIntError;

    /// Converts `value` as [`nng_unit_enum::try_convert_from`] does, refusing an unknown value with
    /// [`EnumFromIntError`].
    fn try_from(value: i32) -> (r: Result<Self, EnumFromIntError>)
        ensures
            r == (match Self::from_value(value) {
                Some(t) => Ok(t),
                None => Err(EnumFromIntError(value)),
            }),
    {
        match Self::try_convert_from(value) {
            Some(t) => Ok(t),
            None => Err(EnumFromIntError(value)),
        }
    }
}

/// The family of an NNG socket address.
#[derive(Clone, Copy, Debug, PartialEq, Eq, Hash, Structural)]
pub enum nng_sockaddr_family {
    NNG_AF_UNSPEC,
    NNG_AF_INPROC,
    NNG_AF_IPC,
    NNG_AF_INET,
    NNG_AF_INET6,
    NNG_AF_ABSTRACT,
}

impl nng_sockaddr_family {
    /// The recognized address family that NNG numbers `value`, if any.
    pub open spec fn from_value(value: i32) -> Option<Self> {
        if exists|t: Self|
            #[trigger] t.spec_value() == value && t != nng_sockaddr_family::NNG_AF_ABSTRACT {
            Some(
                choose|t: Self|
                    #[trigger] t.spec_value() == value && t != nng_sockaddr_family::NNG_AF_ABSTRACT,
            )
        } else {
            None
        }
    }

    /// The value that NNG uses for this address family.
    pub open spec fn spec_value(self) -> i32 {
        match self {
            nng_sockaddr_family::NNG_AF_UNSPEC => 0,
            nng_sockaddr_family::NNG_AF_INPROC => 1,
            nng_sockaddr_family::NNG_AF_IPC => 2,
            nng_sockaddr_family::NNG_AF_INET => 3,
            nng_sockaddr_family::NNG_AF_INET6 => 4,
            nng_sockaddr_family::NNG_AF_ABSTRACT => 6,
        }
    }

    /// Converts a value into `nng_sockaddr_family`. The unspecified, in-process, IPC, IPv4 and
    /// IPv6 families are recognized; `None` for any other value.
    pub fn try_convert_from(value: i32) -> (r: Option<Self>)
        ensures
            r == Self::from_value(value),
            r matches Some(t) ==> t.spec_value() == value && t
                != nng_sockaddr_family::NNG_AF_ABSTRACT,
            r is None ==> forall|t: Self| t.spec_value() == value ==> t
                == nng_sockaddr_family::NNG_AF_ABSTRACT,
    {
        let r = match value {
            0 => Some(nng_sockaddr_family::NNG_AF_UNSPEC),
            1 => Some(nng_sockaddr_family::NNG_AF_INPROC),
            2 => Some(nng_sockaddr_family::NNG_AF_IPC),
            3 => Some(nng_sockaddr_family::NNG_AF_INET),
            4 => Some(nng_sockaddr_family::NNG_AF_INET6),
            _ => None,
        };
        proof {
            if let Some(t) = r {
                let c = choose|c: Self|
                    #[trigger] c.spec_value() == value && c != nng_sockaddr_family::NNG_AF_ABSTRACT;
                assert(t.spec_value() == value);
                Self::lemma_values_unique(c, t);
            }
        }
        r
    }

    /// No two families share a number.
    proof fn lemma_values_unique(a: Self, b: Self)
        ensures
            a.spec_value() == b.spec_value() ==> a == b,
    {
    }
}

impl vstd::std_specs::convert::TryFromSpecImpl<i32> for nng_sockaddr_family {
    open spec fn obeys_try_from_spec() -> bool {
        true
    }

    open spec fn try_from_spec(value: i32) -> Result<Self, EnumFromIntError> {
        match Self::from_value(value) {
            Some(t) => Ok(t),
            None => Err(EnumFromIntError(value)),
        }
    }
}

impl TryFrom<i32> for nng_sockaddr_family {
    type Error = EnumFromIntError;

    /// Converts `value` as [`nng_sockaddr_family::try_convert_from`] does, refusing an unknown value with
    /// [`EnumFromIntError`].
    fn try_from(value: i32) -> (r: Result<Self, EnumFromIntError>)
        ensures
            r == (match Self::from_value(value) {
                Some(t) => Ok(t),
                None => Err(EnumFromIntError(value)),
            }),
    {
        match Self::try_convert_from(value) {
            Some(t) => Ok(t),
            None => Err(EnumFromIntError(value)),
        }
    }
}

#[verifier::external_type_specification]
#[verifier::external_body]
pub struct ExIoErrorKind(std::io::ErrorKind);

/// `std::io::Error::from_raw_os_error(code).kind()`: the standard library's classification of
/// an operating-system error number.
///
/// Nothing is stated of the kind beyond its tie to `code` (which callers state through this
/// function's `call_ensures`): the classification depends on the platform's error numbering.
#[verifier::external_body]
pub fn os_error_kind(code: i32) -> std::io::ErrorKind {
    std::io::Error::from_raw_os_error(code).kind()
}

/// Categorized representation of NNG error codes.
///
/// - [`ErrorKind::NngError`]: standard NNG library errors with well-defined semantics
/// - [`ErrorKind::Transport`]: transport-layer specific errors (e.g., TCP, IPC)
/// - [`ErrorKind::System`]: operating system errors, mapped to [`std::io::ErrorKind`]
/// - [`ErrorKind::Other`]: unrecognized error codes that don't fit other categories
#[derive(Clone, Copy, Debug, PartialEq)]
pub enum ErrorKind {
    /// Standard NNG error with a known error code.
    NngError(ErrorCode),
    /// Transport-specific error, holding the code with the transport flag removed.
    Transport(u32),
    /// System/OS error mapped to Rust's I/O error kind.
    System(std::io::ErrorKind),
    /// Non-zero error code that matches no known NNG error, transport error or system error.
    Other(crate::nonzero::NonZeroU32),
}

impl ErrorKind {
    /// Converts an [`nng_err`] into an [`ErrorKind`].
    ///
    /// Standard codes map to [`ErrorKind::NngError`]; otherwise a set transport flag gives
    /// [`ErrorKind::Transport`], then a set system flag gives [`ErrorKind::System`], and any other
    /// code gives [`ErrorKind::Other`]. The code must not be zero.
    pub fn from_nng_err(err: nng_err) -> (r: ErrorKind)
        requires
            err.0 != 0,
        ensures
            is_standard_error(err.0) ==> (r matches ErrorKind::NngError(c) && c.spec_code() == err.0),
            !is_standard_error(err.0) && err.0 & NNG_ETRANERR != 0 ==> r == ErrorKind::Transport(
                err.0 & !NNG_ETRANERR,
            ),
            !is_standard_error(err.0) && err.0 & NNG_ETRANERR == 0 && err.0 & NNG_ESYSERR != 0
                ==> (r matches ErrorKind::System(k) && call_ensures(
                os_error_kind,
                (((err.0 & !NNG_ESYSERR) as i32),),
                k,
            )),
            !is_standard_error(err.0) && err.0 & NNG_ETRANERR == 0 && err.0 & NNG_ESYSERR == 0
                ==> (r matches ErrorKind::Other(n) && n@ == err.0),
    {
        let code = err.0;
        match ErrorCode::from_code(code) {
            Some(c) => ErrorKind::NngError(c),
            None => {
                if code & NNG_ETRANERR != 0 {
                    ErrorKind::Transport(code & !NNG_ETRANERR)
                } else if code & NNG_ESYSERR != 0 {
                    let sys_err = code & !NNG_ESYSERR;
                    ErrorKind::System(os_error_kind(sys_err as i32))
                } else {
                    match crate::nonzero::NonZeroU32::new(code) {
                        Some(n) => ErrorKind::Other(n),
                        None => {
                            assert(false);
                            ErrorKind::Transport(0)
                        },
                    }
                }
            },
        }
    }
}

} // verus!
