//! The unified error taxonomy of the socket layer.
//!
//! Every failure a send or receive can meet — malformed received bytes,
//! an unencodable message, a server-signaled protocol error, or a
//! transport failure — is carried as exactly one variant of [`Error`],
//! fixed at construction.  The only reinterpretation offered is the
//! timeout predicate, which inspects the transport variant alone so a
//! caller can decide whether to retry.

use vstd::prelude::*;
use vstd::string::StringExecFns;

use crate::message::{DecodeError, DnsError, EncodeError};

verus! {

/// The kind of a transport failure, as far as this layer reads it:
/// the two kinds that mean "no data was ready in time", and everything
/// else.  The caller that performs the datagram system calls reports
/// each OS error as one of these kinds plus its rendered text.
#[derive(Clone, Copy, Debug, PartialEq, Eq, Structural)]
pub enum TransportErrorKind {
    /// The operation timed out.
    TimedOut,
    /// The socket is non-blocking and no data was ready.
    WouldBlock,
    /// Any other transport failure.
    Other,
}

/// A transport failure: its kind, and the OS error's rendered text.
#[derive(Clone, Debug, PartialEq, Eq)]
pub struct TransportError {
    pub kind: TransportErrorKind,
    pub detail: String,
}

/// An error in sending or receiving a DNS message.  Exactly one cause
/// is carried per error.
#[derive(Clone, Debug, PartialEq, Eq)]
pub enum Error {
    /// Error decoding received data.
    DecodeError(DecodeError),
    /// Error encoding data to be sent.
    EncodeError(EncodeError),
    /// Server responded with error message.
    DnsError(DnsError),
    /// Error generated by network operation.
    IoError(TransportError),
}

/// Whether an error reports an operation that timed out: a transport
/// failure whose kind is timed-out or would-block, and nothing else.
pub open spec fn spec_is_timeout(e: Error) -> bool {
    match e {
        Error::IoError(t) => t.kind == TransportErrorKind::TimedOut
            || t.kind == TransportErrorKind::WouldBlock,
        _ => false,
    }
}

/// The rendered text of a decode error.
pub open spec fn spec_decode_error_text(e: DecodeError) -> Seq<char> {
    match e {
        DecodeError::Truncated => "message shorter than its header"@,
        DecodeError::Oversized => "message longer than the size limit"@,
    }
}

/// The rendered text of an encode error.
pub open spec fn spec_encode_error_text(e: EncodeError) -> Seq<char> {
    match e {
        EncodeError::TooLong => "message longer than the size limit"@,
    }
}

/// The rendered text of a server-signaled error.
pub open spec fn spec_dns_error_text(e: DnsError) -> Seq<char> {
    match e {
        DnsError::FormatError => "format error"@,
        DnsError::ServerFailure => "server failure"@,
        DnsError::NameError => "name error"@,
        DnsError::NotImplemented => "not implemented"@,
        DnsError::Refused => "refused"@,
        DnsError::Other(_) => "unrecognized response code"@,
    }
}

/// The rendered text of an error: the underlying cause prefixed with a
/// role label, except a transport failure, which renders unmodified.
pub open spec fn spec_error_text(e: Error) -> Seq<char> {
    match e {
        Error::DecodeError(d) => "error decoding message: "@ + spec_decode_error_text(d),
        Error::EncodeError(d) => "error encoding message: "@ + spec_encode_error_text(d),
        Error::DnsError(d) => "server responded with error: "@ + spec_dns_error_text(d),
        Error::IoError(t) => t.detail@,
    }
}

impl DecodeError {
    /// A short human-readable rendering of the error.
    pub fn describe(&self) -> (r: &'static str)
        ensures
            r@ == spec_decode_error_text(*self),
    {
        match *self {
            DecodeError::Truncated => "message shorter than its header",
            DecodeError::Oversized => "message longer than the size limit",
        }
    }
}

impl EncodeError {
    /// A short human-readable rendering of the error.
    pub fn describe(&self) -> (r: &'static str)
        ensures
            r@ == spec_encode_error_text(*self),
    {
        match *self {
            EncodeError::TooLong => "message longer than the size limit",
        }
    }
}

impl DnsError {
    /// A short human-readable rendering of the error.
    pub fn describe(&self) -> (r: &'static str)
        ensures
            r@ == spec_dns_error_text(*self),
    {
        match *self {
            DnsError::FormatError => "format error",
            DnsError::ServerFailure => "server failure",
            DnsError::NameError => "name error",
            DnsError::NotImplemented => "not implemented",
            DnsError::Refused => "refused",
            DnsError::Other(_) => "unrecognized response code",
        }
    }
}

impl Error {
    /// Returns `true` if the error is the result of an operation having
    /// timed out, including a non-blocking socket finding no data
    /// ready; `false` for every other cause.
    pub fn is_timeout(&self) -> (r: bool)
        ensures
            r == spec_is_timeout(*self),
    {
        match self {
            Error::IoError(t) => match t.kind {
                TransportErrorKind::TimedOut => true,
                TransportErrorKind::WouldBlock => true,
                TransportErrorKind::Other => false,
            },
            _ => false,
        }
    }

    /// The human-readable rendering of the error: the underlying cause
    /// prefixed with a role label, except a transport failure, whose
    /// text is returned unmodified.
    pub fn describe(&self) -> (r: String)
        ensures
            r@ == spec_error_text(*self),
    {
        match self {
            Error::DecodeError(d) => {
                let mut s = "error decoding message: ".to_owned();
                s.append(d.describe());
                s
            },
            Error::EncodeError(d) => {
                let mut s = "error encoding message: ".to_owned();
                s.append(d.describe());
                s
            },
            Error::DnsError(d) => {
                let mut s = "server responded with error: ".to_owned();
                s.append(d.describe());
                s
            },
            Error::IoError(t) => t.detail.clone(),
        }
    }
}

impl From<DecodeError> for Error {
    fn from(err: DecodeError) -> (r: Error) {
        Error::DecodeError(err)
    }
}

impl vstd::std_specs::convert::FromSpecImpl<DecodeError> for Error {
    open spec fn obeys_from_spec() -> bool {
        true
    }

    open spec fn from_spec(err: DecodeError) -> Error {
        Error::DecodeError(err)
    }
}

impl From<EncodeError> for Error {
    fn from(err: EncodeError) -> (r: Error) {
        Error::EncodeError(err)
    }
}

impl vstd::std_specs::convert::FromSpecImpl<EncodeError> for Error {
    open spec fn obeys_from_spec() -> bool {
        true
    }

    open spec fn from_spec(err: EncodeError) -> Error {
        Error::EncodeError(err)
    }
}

impl From<DnsError> for Error {
    fn from(err: DnsError) -> (r: Error) {
        Error::DnsError(err)
    }
}

impl vstd::std_specs::convert::FromSpecImpl<DnsError> for Error {
    open spec fn obeys_from_spec() -> bool {
        true
    }

    open spec fn from_spec(err: DnsError) -> Error {
        Error::DnsError(err)
    }
}

impl From<TransportError> for Error {
    fn from(err: TransportError) -> (r: Error) {
        Error::IoError(err)
    }
}

impl vstd::std_specs::convert::FromSpecImpl<TransportError> for Error {
    open spec fn obeys_from_spec() -> bool {
        true
    }

    open spec fn from_spec(err: TransportError) -> Error {
        Error::IoError(err)
    }
}

} // verus!
