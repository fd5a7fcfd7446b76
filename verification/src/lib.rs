//! Message buffers, error codes, configuration checks and address formatting for the
//! NNG (nanomsg-next-generation) scalability-protocol library. Each function's behaviour is
//! stated as a contract and proved; what comes from the standard library or the operating
//! system (an OS error's kind and text, address formatting and parsing, UTF-8 decoding) is
//! named or tied to its arguments, and the trusted wrappers that call it say so.
#![allow(non_camel_case_types)]

pub mod nonzero;

pub use nonzero::{NonZeroU16, NonZeroU32, NonZeroUsize};
pub mod sys;
pub mod aio;

pub use aio::{AioError, NngError};

pub mod message;

pub use message::Message;
pub mod text;
pub mod init;
pub mod options;
pub mod pipes;
pub mod nng;
pub mod protocols;
