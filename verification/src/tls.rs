//! What the TLS session reports, and the requests that configure it.

use bytes::Bytes;
use vstd::prelude::*;

verus! {

/// Negotiated version of the TLS protocol.
#[derive(Clone, Copy, Debug, PartialEq, Eq, Structural)]
pub enum ProtocolVersion {
    /// Not negotiated yet, or not known to the TLS library
    Unknown,
    /// TLS 1.2
    TlsV1_2,
    /// TLS 1.3
    TlsV1_3,
    /// DTLS 1.2
    DtlsV1_2,
    /// DTLS 1.3
    DtlsV1_3,
}

impl ProtocolVersion {
    /// Whether this is version 1.3, of TLS or of DTLS.
    pub open spec fn is_v1_3(self) -> bool {
        self is TlsV1_3 || self is DtlsV1_3
    }
}

/// Cause of a fatal TLS error.
#[derive(Clone, Copy, Debug, PartialEq, Eq, Structural)]
pub enum ErrorKind {
    /// The certificate names another domain
    DomainNameMismatch,
    /// A handshake message came twice
    DuplicateMessage,
    /// The peer closed the session
    PeerClosed,
    /// The certificate authority is not known
    CaCertNotAvailable,
    /// The peer sent a fatal alert
    PeerFatalAlert,
    /// Any other cause, by the number that the TLS library gives it
    Other(i32),
}

/// An error of the TLS session.
#[derive(Clone, Copy, Debug, PartialEq, Eq, Structural)]
pub enum Error {
    /// The session cannot go on
    Fatal(ErrorKind),
    /// The call failed and the session can go on, with the number that the
    /// TLS library gives the failure
    Transient(i32),
}

/// Outcome of a non-blocking call on the TLS session.
pub enum Poll<T> {
    /// The transport has to take more data first
    PendingWrite,
    /// The transport has to deliver more data first
    PendingRead,
    /// The call completed
    Ready(T),
    /// Application data arrived while the session was doing something else
    AppData(Bytes),
}

/// The timers of a DTLS session, in the unit of its TLS library.
#[derive(Clone, Copy, Debug, PartialEq, Eq, Structural)]
pub struct DtlsTimers {
    /// Current retransmission timeout
    pub current_timeout: crate::time::Duration,
    /// Negotiated version
    pub version: ProtocolVersion,
    /// Whether DTLS 1.3 asks for the shorter timeout
    pub quick_timeout: bool,
}

/// A request to the TLS library that concerns every session.
pub enum LibraryRequest<C> {
    /// Turn debug logging on or off
    EnableDebugging(bool),
    /// Send the log to this callback
    InstallLoggingCallback(C),
}

} // verus!
