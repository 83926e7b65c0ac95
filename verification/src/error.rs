use vstd::prelude::*;

verus! {

/// A failure of the network exchange itself, reported by a transport
/// implementation.  The dispatcher surfaces it unchanged; retry policy is the
/// caller's decision.
#[derive(Debug, Clone, Copy, PartialEq, Eq, Structural)]
pub enum TransportFault {
    /// The connection could not be established or was lost.
    Connection,
    /// The exchange did not complete within the transport's deadline.
    Timeout,
    /// The secure channel could not be negotiated.
    Tls,
    /// Any other transport-level failure, including a failed body read.
    Other,
}

/// A well-formed error envelope returned by the server and recognized by the
/// response decoder: distinct from a decode failure, it carries the
/// server-supplied error code.
#[derive(Debug, Clone)]
pub struct ProtocolError {
    /// The HTTP status code of the error response.
    pub status: u16,
    /// The server-supplied error code, as the raw bytes of the body's
    /// error-code field.
    pub errcode: Vec<u8>,
}

/// The mathematical model of a [`ProtocolError`].
pub ghost struct ProtocolErrorModel {
    pub status: u16,
    pub errcode: Seq<u8>,
}

impl View for ProtocolError {
    type V = ProtocolErrorModel;

    open spec fn view(&self) -> ProtocolErrorModel {
        ProtocolErrorModel { status: self.status, errcode: self.errcode@ }
    }
}

/// Everything that can go wrong while dispatching one operation.
///
/// Every failure is surfaced to the immediate caller as a distinguishable
/// variant; this layer performs no silent recovery and no retries.
#[derive(Debug, Clone)]
pub enum Error {
    /// The operation requires authentication but no session is present.  No
    /// request is built and no network call occurs.
    AuthenticationRequired,
    /// The operation could not produce a valid wire request (for example, a
    /// malformed base address).  No network activity occurred.
    RequestConstruction,
    /// The network exchange failed; the transport's fault is carried
    /// unchanged.
    Transport(TransportFault),
    /// The response body could not be parsed into the expected success shape,
    /// nor recognized as a protocol error envelope.
    ResponseDecode,
    /// The server returned a recognized error envelope.
    Protocol(ProtocolError),
}

/// The mathematical model of an [`Error`].
pub ghost enum ErrorModel {
    AuthenticationRequired,
    RequestConstruction,
    Transport(TransportFault),
    ResponseDecode,
    Protocol(ProtocolErrorModel),
}

impl View for Error {
    type V = ErrorModel;

    open spec fn view(&self) -> ErrorModel {
        match self {
            Error::AuthenticationRequired => ErrorModel::AuthenticationRequired,
            Error::RequestConstruction => ErrorModel::RequestConstruction,
            Error::Transport(f) => ErrorModel::Transport(*f),
            Error::ResponseDecode => ErrorModel::ResponseDecode,
            Error::Protocol(p) => ErrorModel::Protocol(p@),
        }
    }
}

} // verus!
