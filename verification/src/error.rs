//! The errors that the codec and the handshakes report.

use vstd::prelude::*;
use crate::response::ResponseCode;

verus! {

/// The error of `String::from_utf8`, carried as it is.
#[verifier::external_type_specification]
#[verifier::external_body]
pub struct ExFromUtf8Error(std::string::FromUtf8Error);

/// What went wrong with the transport, as far as this crate can tell.
#[derive(Debug, Clone, Copy, PartialEq, Eq, Structural)]
pub enum IoErrorKind {
    /// The input ended before a field was complete; the number is how many
    /// bytes the field still lacked.
    UnexpectedEof(usize),
    /// There was no endpoint to connect to.
    AddrNotAvailable,
    ConnectionRefused,
    ConnectionReset,
    ConnectionAborted,
    /// The connection has been closed, or was never opened.
    NotConnected,
    TimedOut,
    /// The caller reported something that the connection was not waiting for.
    InvalidInput,
    Other,
}

/// Why a message could not be read or written, or a handshake failed.
#[derive(Debug, PartialEq, Eq)]
pub enum Error {
    IoError(IoErrorKind),
    VersionNotSupported(u8),
    AuthMethodNotSupported(u8),
    TooManyMethods,
    CommandNotSupported(u8),
    AddrTypeNotSupported(u8),
    DomainTooLong,
    InvalidDomain(std::string::FromUtf8Error),
    ResponseCodeNotSupported(u8),
    NoAuthMethodSupported,
    AuthFailed(String),
    ConnectionFailed(ResponseCode),
}

/// An error as contracts speak of it: the text of a reason as a sequence
/// of characters, and an invalid domain without the bytes that were refused.
pub enum ErrorView {
    IoError(IoErrorKind),
    VersionNotSupported(u8),
    AuthMethodNotSupported(u8),
    TooManyMethods,
    CommandNotSupported(u8),
    AddrTypeNotSupported(u8),
    DomainTooLong,
    InvalidDomain,
    ResponseCodeNotSupported(u8),
    NoAuthMethodSupported,
    AuthFailed(Seq<char>),
    ConnectionFailed(ResponseCode),
}

impl View for Error {
    type V = ErrorView;

    open spec fn view(&self) -> ErrorView {
        match *self {
            Error::IoError(kind) => ErrorView::IoError(kind),
            Error::VersionNotSupported(b) => ErrorView::VersionNotSupported(b),
            Error::AuthMethodNotSupported(b) => ErrorView::AuthMethodNotSupported(b),
            Error::TooManyMethods => ErrorView::TooManyMethods,
            Error::CommandNotSupported(b) => ErrorView::CommandNotSupported(b),
            Error::AddrTypeNotSupported(b) => ErrorView::AddrTypeNotSupported(b),
            Error::DomainTooLong => ErrorView::DomainTooLong,
            Error::InvalidDomain(_) => ErrorView::InvalidDomain,
            Error::ResponseCodeNotSupported(b) => ErrorView::ResponseCodeNotSupported(b),
            Error::NoAuthMethodSupported => ErrorView::NoAuthMethodSupported,
            Error::AuthFailed(reason) => ErrorView::AuthFailed(reason@),
            Error::ConnectionFailed(code) => ErrorView::ConnectionFailed(code),
        }
    }
}

/// The error of a read that found the input `missing` bytes short.
pub open spec fn short_by(missing: int) -> ErrorView {
    ErrorView::IoError(IoErrorKind::UnexpectedEof(missing as usize))
}

} // verus!
