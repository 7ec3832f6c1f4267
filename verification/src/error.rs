//! What can go wrong on a connection, and whether the connection survives it.

use crate::connection::ConnectionType;
use crate::net::{ipv6_is_valid_packet, has_ip_version, OsError};
use crate::tls;
use crate::wire::{ExpresslaneError, FromWireError};
use bytes::BytesMut;
use vstd::prelude::*;

verus! {

/// Why an inside packet was rejected (see [`ConnectionError::InvalidInsidePacket`])
#[derive(Clone, Copy, Debug, PartialEq, Eq, Structural)]
pub enum InvalidPacketError {
    /// Packet is not IPv4
    InvalidIpv4Packet,
    /// Packet is IPv6, which the tunnel does not carry
    UnsupportedIpv6Packet,
    /// Packet size greater than the MTU allows
    InvalidPacketSize,
    /// GSO superpacket failed validation. The specific cause is counted (see
    /// [`crate::metrics::gso_plan_metric`] and
    /// [`crate::metrics::gso_segment_metric`]).
    InvalidGsoPacket,
}

impl InvalidPacketError {
    /// The error owed for a packet that is not IPv4.
    pub open spec fn owed_for_non_ipv4(pkt: Seq<u8>) -> InvalidPacketError {
        if has_ip_version(pkt, 6) {
            InvalidPacketError::UnsupportedIpv6Packet
        } else {
            InvalidPacketError::InvalidIpv4Packet
        }
    }

    /// The error for an inside packet that failed the IPv4 check: IPv6 is
    /// reported as such so callers can tell it from garbage.
    pub fn for_non_ipv4(pkt: &[u8]) -> (error: InvalidPacketError)
        ensures
            error == InvalidPacketError::owed_for_non_ipv4(pkt@),
    {
        if ipv6_is_valid_packet(pkt) {
            InvalidPacketError::UnsupportedIpv6Packet
        } else {
            InvalidPacketError::InvalidIpv4Packet
        }
    }
}

/// An error from an operation on a connection
#[derive(Debug)]
pub enum ConnectionError {
    /// The peer has disconnected
    Goodbye,
    /// Connection timed out
    TimedOut,
    /// Connection already disconnected
    Disconnected,
    /// User is not authorized / authentication failed
    Unauthorized,
    /// An invalid message for the connection state was received.
    InvalidState,
    /// Operation is not valid for the connection's mode (client vs server)
    InvalidMode,
    /// Operation is not valid for the connection type (udp vs tcp)
    InvalidConnectionType,
    /// Inside io is not configured
    InvalidInsideIo,
    /// Failed to write to the outside socket
    OutsideIoWriteError(OsError),
    /// Message contained a rejected session id
    RejectedSessionID,
    /// Message contained an unknown session id
    UnknownSessionID,
    /// A message had invalid protocol version for this connection
    InvalidProtocolVersion,
    /// Connection failed authentication
    AccessDenied,
    /// Server IP pool exhausted
    NoAvailableClientIp,
    /// Failed to parse inside ip config
    InvalidInsideIpConfig,
    /// Inside packet is either not IPv4 or longer than the MTU allows
    InvalidInsidePacket(InvalidPacketError),
    /// Invalid Outside MTU
    PathMtuDiscoveryRequired {
        /// The inside MTU
        inside_mtu: usize,
        /// The outside MTU that the inside MTU needs
        required_outside_mtu: usize,
    },
    /// Plugin returns a reply packet
    PluginDropWithReply(BytesMut),
    /// Plugin returns error, with what it says
    PluginError(String),
    /// Packet parsing error occurred, with what the parser says
    PacketError(String),
    /// A wire protocol error occurred
    WireError(FromWireError),
    /// Failed to recombine fragmented data, with the reason
    DataFragmentError(String),
    /// A TLS error occurred
    Tls(tls::Error),
    /// Expresslane version mismatch
    ExpresslaneVersionMismatch,
    /// Expresslane is degraded and disabled
    ExpreslaneDegraded,
    /// Expresslane error occurred
    ExpresslaneError(ExpresslaneError),
    /// Packet Codec does not exist
    PacketCodecDoesNotExist,
    /// A Packet Codec error occurred, with what the codec says
    PacketCodecError(String),
}

/// The result of an operation on a connection.
pub type ConnectionResult<T> = Result<T, ConnectionError>;

/// The TLS failures that end a datagram connection: those after which the
/// peer will not, or must not, be spoken to again.
pub open spec fn ends_session(kind: tls::ErrorKind) -> bool {
    kind !is Other
}

/// The wire errors that a datagram connection survives: a stray, truncated,
/// forged or repeated packet, or one of another protocol version.
pub open spec fn stray_packet(error: FromWireError) -> bool {
    error !is InvalidField
}

impl ConnectionError {
    /// Whether a datagram connection ends with this error.
    pub open spec fn ends_datagram(self) -> bool {
        match self {
            ConnectionError::Tls(tls::Error::Fatal(kind)) => ends_session(kind),
            ConnectionError::WireError(error) => !stray_packet(error),
            _ => {
                ||| self is TimedOut
                ||| self is Unauthorized
                ||| self is InvalidMode
                ||| self is InvalidConnectionType
                ||| self is NoAvailableClientIp
                ||| self is InvalidInsideIpConfig
                ||| self is AccessDenied
                ||| self is Goodbye
                ||| self is PacketCodecDoesNotExist
                ||| self is PacketCodecError
                ||| self is Disconnected
                ||| self is PathMtuDiscoveryRequired
            },
        }
    }

    /// Whether a connection of the given type ends with this error. Over a
    /// stream every error is fatal, over datagrams many can be ignored.
    pub open spec fn fatal(self, connection_type: ConnectionType) -> bool {
        connection_type is Stream || self.ends_datagram()
    }

    /// Determine if a given error is fatal for this connection.
    pub fn is_fatal(&self, connection_type: ConnectionType) -> (fatal: bool)
        ensures
            fatal == self.fatal(connection_type),
    {
        match connection_type {
            ConnectionType::Stream => {
                // All errors are fatal for TCP/TLS
                true
            },
            ConnectionType::Datagram => {
                // For UDP/DTLS many errors can be ignored
                match self {
                    ConnectionError::TimedOut => true,
                    ConnectionError::Unauthorized => true,
                    ConnectionError::InvalidMode => true,
                    ConnectionError::InvalidConnectionType => true,
                    ConnectionError::NoAvailableClientIp => true,
                    ConnectionError::InvalidInsideIpConfig => true,
                    ConnectionError::AccessDenied => true,
                    ConnectionError::Goodbye => true,
                    ConnectionError::PacketCodecDoesNotExist => true,
                    ConnectionError::PacketCodecError(_) => true,
                    ConnectionError::Disconnected => true,
                    ConnectionError::PathMtuDiscoveryRequired { .. } => true,
                    ConnectionError::Tls(tls::Error::Fatal(kind)) => match kind {
                        tls::ErrorKind::DomainNameMismatch => true,
                        tls::ErrorKind::DuplicateMessage => true,
                        tls::ErrorKind::PeerClosed => true,
                        tls::ErrorKind::CaCertNotAvailable => true,
                        tls::ErrorKind::PeerFatalAlert => true,
                        tls::ErrorKind::Other(_) => false,
                    },
                    ConnectionError::Tls(_) => false,
                    ConnectionError::WireError(error) => match error {
                        FromWireError::UnknownFrameType => false,
                        FromWireError::InsufficientData => false,
                        FromWireError::InvalidExpressData => false,
                        FromWireError::ReplayedExpressData => false,
                        FromWireError::InvalidProtocolVersion(_, _) => false,
                        FromWireError::InvalidField => true,
                    },
                    ConnectionError::InvalidProtocolVersion => false,
                    // Can be due to out of order or repeated messages
                    ConnectionError::InvalidState => false,
                    // A connection may carry the control plane alone
                    ConnectionError::InvalidInsideIo => false,
                    ConnectionError::OutsideIoWriteError(_) => false,
                    ConnectionError::UnknownSessionID => false,
                    ConnectionError::InvalidInsidePacket(_) => false,
                    ConnectionError::RejectedSessionID => false,
                    ConnectionError::PluginDropWithReply(_) => false,
                    ConnectionError::PluginError(_) => false,
                    ConnectionError::PacketError(_) => false,
                    ConnectionError::DataFragmentError(_) => false,
                    ConnectionError::ExpresslaneVersionMismatch => false,
                    ConnectionError::ExpreslaneDegraded => false,
                    ConnectionError::ExpresslaneError(_) => false,
                }
            },
        }
    }
}

/// The error that a failed encryption is reported as.
pub open spec fn encrypt_error(err: ExpresslaneError) -> ConnectionError {
    ConnectionError::ExpresslaneError(err)
}

/// The error that a failed encryption is reported as.
pub fn expresslane_encrypt_error(err: ExpresslaneError) -> (error: ConnectionError)
    ensures
        error == encrypt_error(err),
{
    ConnectionError::ExpresslaneError(err)
}

/// The wire error that a failed decryption counts as: a repeated or truncated
/// packet is told apart, anything else is invalid data.
pub open spec fn decrypt_error(err: ExpresslaneError) -> FromWireError {
    if err is Replayed {
        FromWireError::ReplayedExpressData
    } else if err is InsufficientData {
        FromWireError::InsufficientData
    } else {
        FromWireError::InvalidExpressData
    }
}

/// Map a decrypt failure onto the wire error that
/// [`ConnectionError::is_fatal`] classifies.
pub fn expresslane_decrypt_error(err: ExpresslaneError) -> (error: FromWireError)
    ensures
        error == decrypt_error(err),
{
    match err {
        ExpresslaneError::NoKey => FromWireError::InvalidExpressData,
        ExpresslaneError::Replayed => FromWireError::ReplayedExpressData,
        ExpresslaneError::InsufficientData => FromWireError::InsufficientData,
        _ => FromWireError::InvalidExpressData,
    }
}

/// A bad packet never ends a datagram connection: however decryption fails,
/// the error it counts as is transient.
pub proof fn every_decrypt_error_is_transient(err: ExpresslaneError)
    ensures
        !ConnectionError::WireError(decrypt_error(err)).fatal(ConnectionType::Datagram),
{
}

/// However encryption fails, a datagram connection goes on.
pub proof fn every_encrypt_error_is_transient(err: ExpresslaneError)
    ensures
        !encrypt_error(err).fatal(ConnectionType::Datagram),
{
}

/// Over a stream no error is survived.
pub proof fn every_error_is_fatal_over_a_stream(error: ConnectionError)
    ensures
        error.fatal(ConnectionType::Stream),
{
}

/// What ends every connection: that the peer is gone or has refused this side,
/// or that the two sides will never get along.
pub proof fn lost_peers_are_fatal(error: ConnectionError, connection_type: ConnectionType)
    requires
        error is Goodbye || error is TimedOut || error is Disconnected || error is Unauthorized
            || error is AccessDenied || error is NoAvailableClientIp || error
            is InvalidInsideIpConfig || error is InvalidMode || error is InvalidConnectionType
            || error is PacketCodecDoesNotExist || error is PacketCodecError || error
            is PathMtuDiscoveryRequired,
    ensures
        error.fatal(connection_type),
{
}

/// A session that is closed, or that cannot be trusted, ends every connection,
/// and so does a frame that makes no sense.
pub proof fn broken_sessions_are_fatal(kind: tls::ErrorKind, connection_type: ConnectionType)
    requires
        kind is PeerClosed || kind is PeerFatalAlert || kind is DomainNameMismatch || kind
            is CaCertNotAvailable || kind is DuplicateMessage,
    ensures
        ConnectionError::Tls(tls::Error::Fatal(kind)).fatal(connection_type),
        ConnectionError::WireError(FromWireError::InvalidField).fatal(connection_type),
{
}

/// What anyone can bring about with a stray, late or unlucky datagram, or what
/// concerns a single packet, does not end a datagram connection.
pub proof fn stray_datagrams_are_survived(error: ConnectionError)
    requires
        error is InvalidState || error is InvalidInsideIo || error is OutsideIoWriteError || error
            is RejectedSessionID || error is UnknownSessionID || error is InvalidProtocolVersion
            || error is InvalidInsidePacket || error is PluginDropWithReply || error is PluginError
            || error is PacketError || error is DataFragmentError || error
            is ExpresslaneVersionMismatch || error is ExpreslaneDegraded || error
            is ExpresslaneError,
    ensures
        !error.fatal(ConnectionType::Datagram),
{
}

/// Neither does a forged, repeated or foreign packet, or a failure that the
/// session can go on after.
pub proof fn forged_packets_are_survived(wire: FromWireError, number: i32)
    requires
        wire is UnknownFrameType || wire is InsufficientData || wire is InvalidExpressData || wire
            is ReplayedExpressData || wire is InvalidProtocolVersion,
    ensures
        !ConnectionError::WireError(wire).fatal(ConnectionType::Datagram),
        !ConnectionError::Tls(tls::Error::Transient(number)).fatal(ConnectionType::Datagram),
        !ConnectionError::Tls(tls::Error::Fatal(tls::ErrorKind::Other(number))).fatal(
            ConnectionType::Datagram,
        ),
{
}

/// A failed decryption is told by its cause where that matters: a repeated and
/// a truncated packet are told apart from all others, and from each other.
pub proof fn decryption_failures_are_told_apart(err: ExpresslaneError)
    ensures
        (decrypt_error(err) is ReplayedExpressData) == (err is Replayed),
        (decrypt_error(err) is InsufficientData) == (err is InsufficientData),
        err !is Replayed && err !is InsufficientData ==> decrypt_error(err) is InvalidExpressData,
        encrypt_error(err) == ConnectionError::ExpresslaneError(err),
{
}

/// An IPv6 packet is told from anything else that is not IPv4.
pub proof fn ipv6_is_told_from_garbage(pkt: Seq<u8>)
    ensures
        (InvalidPacketError::owed_for_non_ipv4(pkt) is UnsupportedIpv6Packet) == (pkt.len() > 0
            && 0x60 <= pkt[0] <= 0x6f),
        InvalidPacketError::owed_for_non_ipv4(pkt) is UnsupportedIpv6Packet
            || InvalidPacketError::owed_for_non_ipv4(pkt) is InvalidIpv4Packet,
{
}

} // verus!
