//! The frames that two peers exchange and the values they are made of.
//!
//! A frame is generic in how it holds bytes (`B`) and text (`S`): the
//! executable form is [`WireFrame`], and its view holds sequences.

use crate::buffers::shared_bytes;
use bytes::Bytes;
use vstd::prelude::*;

verus! {

/// Identifies a session on the wire: its eight bytes, read in network order.
#[derive(Clone, Copy, Debug, PartialEq, Eq, Structural)]
pub struct SessionId {
    /// The identifier
    pub id: u64,
}

/// The identifier sent before a session has one: eight zero bytes
pub const EMPTY_SESSION_ID: u64 = 0;

/// The identifier sent to refuse another one: eight bytes of all ones
pub const REJECTED_SESSION_ID: u64 = 0xffff_ffff_ffff_ffff;

impl SessionId {
    /// Whether this stands for no session yet.
    pub open spec fn spec_is_empty(self) -> bool {
        self.id == EMPTY_SESSION_ID
    }

    /// Whether this stands for no session yet.
    pub fn is_empty(&self) -> (r: bool)
        ensures
            r == self.spec_is_empty(),
    {
        self.id == EMPTY_SESSION_ID
    }

    /// Whether this refuses a session.
    pub open spec fn spec_is_rejected(self) -> bool {
        self.id == REJECTED_SESSION_ID
    }

    /// Whether this refuses a session.
    pub fn is_rejected(&self) -> (r: bool)
        ensures
            r == self.spec_is_rejected(),
    {
        self.id == REJECTED_SESSION_ID
    }
}

/// Version of the tunnel protocol.
#[derive(Clone, Copy, Debug, PartialEq, Eq, Structural)]
pub struct Version {
    /// Changes when peers can no longer understand each other
    pub major: u8,
    /// Changes when peers gain abilities
    pub minor: u8,
}

impl Version {
    /// Whether this version is the given one or a later one.
    pub open spec fn spec_at_least(self, major: u8, minor: u8) -> bool {
        self.major > major || (self.major == major && self.minor >= minor)
    }

    /// Whether this version is the given one or a later one.
    pub fn at_least(&self, major: u8, minor: u8) -> (r: bool)
        ensures
            r == self.spec_at_least(major, minor),
    {
        self.major > major || (self.major == major && self.minor >= minor)
    }
}

/// The header in front of each datagram.
#[derive(Clone, Copy, Debug, PartialEq, Eq, Structural)]
pub struct Header {
    /// Protocol version of the sender
    pub version: Version,
    /// Whether what follows is an expresslane packet
    pub expresslane_data: bool,
    /// Session that the datagram belongs to
    pub session: SessionId,
}

/// A symmetric key of the expresslane, as two big-endian halves.
#[derive(Clone, Copy, Debug, PartialEq, Eq, Structural)]
pub struct ExpresslaneKey {
    /// First sixteen bytes
    pub upper: u128,
    /// Last sixteen bytes
    pub lower: u128,
}

impl ExpresslaneKey {
    /// Stands for the absence of a key.
    pub open spec fn spec_invalid() -> ExpresslaneKey {
        ExpresslaneKey { upper: 0, lower: 0 }
    }

    /// Stands for the absence of a key.
    pub fn invalid() -> (key: ExpresslaneKey)
        ensures
            key == ExpresslaneKey::spec_invalid(),
    {
        ExpresslaneKey { upper: 0, lower: 0 }
    }
}

/// Version of the expresslane packet format.
#[derive(Clone, Copy, Debug, PartialEq, Eq, Structural)]
pub enum ExpresslaneVersion {
    /// Not negotiated yet
    Unknown,
    /// A negotiated version
    Known(u8),
}

/// Shares an expresslane key with the peer, or acknowledges one.
#[derive(Clone, Copy, Debug, PartialEq, Eq, Structural)]
pub struct ExpresslaneConfig {
    /// Whether the sender can use the expresslane
    pub enabled: bool,
    /// Key that the sender will encrypt with
    pub key: ExpresslaneKey,
    /// Version that the sender speaks
    pub version: ExpresslaneVersion,
    /// Whether this acknowledges a configuration of the receiver
    pub ack: bool,
    /// Number of the configuration, counted by the peer that first sent it
    pub counter: u64,
}

/// Why an expresslane packet could not be encrypted or decrypted.
#[derive(Clone, Copy, Debug, PartialEq, Eq, Structural)]
pub enum ExpresslaneError {
    /// The cipher could not be created
    NewCipherFailed,
    /// The key could not be installed
    SetKeyFailed,
    /// No key is installed
    NoKey,
    /// Encryption failed
    EncryptFailed,
    /// The packet is not authentic
    AuthFailed,
    /// The packet was seen before
    Replayed,
    /// The packet is cut short
    InsufficientData,
    /// The payload is longer than a packet can carry
    PayloadTooLarge,
    /// The output does not fit the buffer
    BufferTooSmall,
}

/// Why bytes from the wire could not be read as a frame.
#[derive(Clone, Copy, Debug, PartialEq, Eq, Structural)]
pub enum FromWireError {
    /// The type of the frame is not known
    UnknownFrameType,
    /// More bytes are needed
    InsufficientData,
    /// An expresslane packet could not be decrypted
    InvalidExpressData,
    /// An expresslane packet was seen before
    ReplayedExpressData,
    /// The header names a protocol version that is not spoken here
    InvalidProtocolVersion(u8, u8),
    /// A field of the frame holds a value that it must not
    InvalidField,
}

/// A slice of an inside packet that was too long for one frame.
#[derive(Debug)]
pub struct DataFrag<B> {
    /// Identifies the packet that this is a slice of
    pub id: u16,
    /// Where in the packet the slice starts
    pub offset: usize,
    /// The slice
    pub data: B,
    /// Whether the packet goes on after this slice
    pub more_fragments: bool,
}

/// What a server tells a client that it let in.
#[derive(Debug)]
pub struct AuthSuccessWithConfigV4<S> {
    /// Address of the client inside the tunnel
    pub local_ip: S,
    /// Address of the server inside the tunnel
    pub peer_ip: S,
    /// Address of the resolver inside the tunnel
    pub dns_ip: S,
    /// MTU inside the tunnel, in decimal digits
    pub mtu: S,
    /// Session that the client now has
    pub session: SessionId,
}

/// Asks the server to turn inside packet encoding on or off.
#[derive(Clone, Copy, Debug, PartialEq, Eq, Structural)]
pub struct EncodingRequest {
    /// Number of the request
    pub id: u64,
    /// Whether encoding shall be on
    pub enable: bool,
}

/// Answers an [`EncodingRequest`].
#[derive(Clone, Copy, Debug, PartialEq, Eq, Structural)]
pub struct EncodingResponse {
    /// Number of the request that is answered
    pub id: u64,
    /// Whether encoding is on now
    pub enable: bool,
}

/// Identifies the pings that keep a connection alive, as opposed to those
/// that probe the path MTU.
pub const KEEPALIVE_ID: u16 = 0;

/// A frame of the tunnel protocol.
#[derive(Debug)]
pub enum Frame<B, S> {
    /// Does nothing
    NoOp,
    /// Asks for a [`Frame::Pong`]
    Ping {
        /// Repeated in the answer
        id: u16,
        /// Padding, or counters of the sender
        payload: B,
    },
    /// Answers a [`Frame::Ping`]
    Pong {
        /// Taken from the ping
        id: u16,
        /// Counters of the sender, if any
        payload: B,
    },
    /// Asks to be let in, with these credentials in their encoded form
    AuthRequest(B),
    /// An inside packet
    Data(B),
    /// A slice of an inside packet
    DataFrag(DataFrag<B>),
    /// An encoded inside packet
    EncodedData(B),
    /// A slice of an encoded inside packet
    EncodedDataFrag(DataFrag<B>),
    /// Grants an [`Frame::AuthRequest`]
    AuthSuccessWithConfigV4(AuthSuccessWithConfigV4<S>),
    /// Refuses an [`Frame::AuthRequest`]
    AuthFailure,
    /// Ends the connection
    Goodbye,
    /// Configuration that a server pushes
    ServerConfig,
    /// Asks for inside packet encoding
    EncodingRequest(EncodingRequest),
    /// Answers a [`Frame::EncodingRequest`]
    EncodingResponse(EncodingResponse),
    /// Shares or acknowledges an expresslane key
    ExpresslaneConfig(ExpresslaneConfig),
}

/// A frame as it is sent and received.
pub type WireFrame = Frame<Bytes, String>;

/// What a [`WireFrame`] says.
pub type FrameView = Frame<Seq<u8>, Seq<char>>;

impl View for DataFrag<Bytes> {
    type V = DataFrag<Seq<u8>>;

    open spec fn view(&self) -> DataFrag<Seq<u8>> {
        DataFrag {
            id: self.id,
            offset: self.offset,
            data: shared_bytes(self.data),
            more_fragments: self.more_fragments,
        }
    }
}

impl View for AuthSuccessWithConfigV4<String> {
    type V = AuthSuccessWithConfigV4<Seq<char>>;

    open spec fn view(&self) -> AuthSuccessWithConfigV4<Seq<char>> {
        AuthSuccessWithConfigV4 {
            local_ip: self.local_ip@,
            peer_ip: self.peer_ip@,
            dns_ip: self.dns_ip@,
            mtu: self.mtu@,
            session: self.session,
        }
    }
}

impl View for Frame<Bytes, String> {
    type V = FrameView;

    open spec fn view(&self) -> FrameView {
        match *self {
            Frame::NoOp => Frame::NoOp,
            Frame::Ping { id, payload } => Frame::Ping { id, payload: shared_bytes(payload) },
            Frame::Pong { id, payload } => Frame::Pong { id, payload: shared_bytes(payload) },
            Frame::AuthRequest(auth_method) => Frame::AuthRequest(shared_bytes(auth_method)),
            Frame::Data(data) => Frame::Data(shared_bytes(data)),
            Frame::DataFrag(frag) => Frame::DataFrag(frag@),
            Frame::EncodedData(data) => Frame::EncodedData(shared_bytes(data)),
            Frame::EncodedDataFrag(frag) => Frame::EncodedDataFrag(frag@),
            Frame::AuthSuccessWithConfigV4(cfg) => Frame::AuthSuccessWithConfigV4(cfg@),
            Frame::AuthFailure => Frame::AuthFailure,
            Frame::Goodbye => Frame::Goodbye,
            Frame::ServerConfig => Frame::ServerConfig,
            Frame::EncodingRequest(er) => Frame::EncodingRequest(er),
            Frame::EncodingResponse(er) => Frame::EncodingResponse(er),
            Frame::ExpresslaneConfig(config) => Frame::ExpresslaneConfig(config),
        }
    }
}

} // verus!
