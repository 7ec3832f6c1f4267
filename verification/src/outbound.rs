//! The way from the inside to the outside: checking an inside packet, cutting
//! it up where the path demands it, and choosing what carries it.

use crate::action::{Action, ActionView};
use crate::buffers::{buffer_bytes, buffer_slice, shared_bytes};
use crate::connection::{Connection, ConnectionMode, ConnectionView, Core, State, Step};
use crate::error::{
    encrypt_error, expresslane_encrypt_error, ConnectionError, ConnectionResult,
    InvalidPacketError,
};
use crate::net::{has_ip_version, ipv4_is_valid_packet, OsError};
use crate::random::sample_iv;
use crate::wire::{DataFrag, ExpresslaneError, Frame, FrameView, SessionId, WireFrame};
use bytes::{Bytes, BytesMut};
use vstd::prelude::*;

verus! {

/// What a plugin makes of a packet.
#[derive(Debug)]
pub enum PluginResult {
    /// Let it pass
    Accept,
    /// Drop it
    Drop,
    /// Drop it and send this back to where it came from
    DropWithReply(BytesMut),
    /// Report an error
    Error(String),
}

/// What a packet codec makes of a packet.
#[derive(Clone, Copy, Debug, PartialEq, Eq, Structural)]
pub enum CodecStatus {
    /// The codec has taken the packet
    PacketAccepted,
    /// The packet goes on without the codec
    SkipPacket,
}

/// What happens to an inside packet before the plugins see it.
#[derive(Clone, Copy, Debug, PartialEq, Eq, Structural)]
pub struct IngressPlan {
    /// Largest TCP segment that a connection through the tunnel may announce,
    /// where the path is known to limit it
    pub clamp_mss: Option<u16>,
}

/// What happens to an inside packet after the plugins have seen it.
#[derive(Clone, Copy, Debug, PartialEq, Eq, Structural)]
pub enum IngressNext {
    /// Nothing more
    Dropped,
    /// It is offered to the encoder
    Encode,
    /// It is sent
    Send,
}

/// What came of handing a datagram to the socket.
#[derive(Clone, Copy, Debug, PartialEq, Eq, Structural)]
pub enum IOCallbackResult {
    /// This many bytes were taken
    Sent(usize),
    /// The socket cannot take more at the moment
    WouldBlock,
    /// The socket failed
    Failed(OsError),
}

/// Longest packet that slices can put together again
pub const MAX_FRAGMENTED_SIZE: usize = 65535;

/// A frame for an inside packet.
pub open spec fn data_frame(data: Seq<u8>, is_encoded: bool) -> FrameView {
    if is_encoded {
        Frame::EncodedData(data)
    } else {
        Frame::Data(data)
    }
}

/// Number of slices of at most `size` bytes that make up `len` bytes.
pub open spec fn fragment_count(len: int, size: int) -> int {
    (len + size - 1) / size
}

/// Where the given slice ends.
pub open spec fn fragment_end(len: int, size: int, index: int) -> int {
    if (index + 1) * size <= len {
        (index + 1) * size
    } else {
        len
    }
}

/// One slice of a packet.
pub open spec fn fragment(data: Seq<u8>, size: int, id: u16, index: int) -> DataFrag<Seq<u8>> {
    DataFrag {
        id,
        offset: (index * size) as usize,
        data: data.subrange(index * size, fragment_end(data.len() as int, size, index)),
        more_fragments: index + 1 < fragment_count(data.len() as int, size),
    }
}

/// A frame for a slice of an inside packet.
pub open spec fn fragment_frame(frag: DataFrag<Seq<u8>>, is_encoded: bool) -> FrameView {
    if is_encoded {
        Frame::EncodedDataFrag(frag)
    } else {
        Frame::DataFrag(frag)
    }
}

/// The frames that carry a packet in slices, in order.
pub open spec fn fragment_sends(
    data: Seq<u8>,
    size: int,
    id: u16,
    is_encoded: bool,
) -> Seq<ActionView> {
    Seq::new(
        fragment_count(data.len() as int, size) as nat,
        |index: int|
            Action::Send {
                frame: fragment_frame(fragment(data, size, id, index), is_encoded),
                required: true,
            },
    )
}

/// The number after a fragment counter, back to zero after the last one.
pub open spec fn next_fragment(counter: u16) -> u16 {
    if counter == u16::MAX {
        0
    } else {
        (counter + 1) as u16
    }
}

impl Core {
    /// The session that outgoing datagrams are stamped with: the one that a
    /// server is moving to, else the current one.
    pub open spec fn spec_outgoing_session(self) -> SessionId {
        match self.mode {
            ConnectionMode::Server { pending_session_id: Some(pending), .. } => pending,
            _ => self.session_id,
        }
    }

    /// Whether path MTU discovery reports sizes that make sense.
    pub open spec fn path_wf(self) -> bool {
        self.pmtud matches Some(report) ==> report.wf()
    }

    /// Whether a path that limits packets carries at least the headers of an
    /// inside packet, so that TCP can be held to what is left.
    pub open spec fn can_clamp(self) -> bool {
        self.pmtud matches Some(report) ==> report.maximum_packet_sizes matches Some(sizes)
            ==> sizes.data >= crate::IPV4_HEADER_SIZE + crate::TCP_HEADER_SIZE
    }

    /// Whether a packet of this length, if it has to be sliced, can be: a
    /// slice carries at least one byte.
    pub open spec fn can_slice(self, len: nat) -> bool {
        self.pmtud matches Some(report) ==> report.maximum_packet_sizes matches Some(sizes) ==> (
        self.state is Online && sizes.data < len <= MAX_FRAGMENTED_SIZE ==> sizes.fragment > 0)
    }
}

impl<AppState> ConnectionView<AppState> {
    /// The connection once it has chosen what carries an inside packet.
    pub open spec fn sending_data(self, data: Seq<u8>, is_encoded: bool) -> Step<AppState> {
        if self.core.connection_type is Datagram && data.len() > self.core.max_data_size {
            (
                self,
                Err(ConnectionError::InvalidInsidePacket(InvalidPacketError::InvalidPacketSize)),
            )
        } else if self.core.spec_expresslane_ready() {
            (
                self.emit(
                    Action::SendExpresslane {
                        session_id: self.core.spec_outgoing_session(),
                        data,
                        is_encoded,
                    },
                ),
                Ok(()),
            )
        } else {
            (self.sends(data_frame(data, is_encoded)), Ok(()))
        }
    }

    /// The connection once it has cut an inside packet into slices.
    pub open spec fn sending_fragments(
        self,
        data: Seq<u8>,
        size: int,
        is_encoded: bool,
    ) -> Step<AppState> {
        if data.len() > MAX_FRAGMENTED_SIZE {
            (
                self,
                Err(ConnectionError::InvalidInsidePacket(InvalidPacketError::InvalidPacketSize)),
            )
        } else {
            let id = next_fragment(self.core.fragment_counter);
            (
                ConnectionView {
                    core: Core { fragment_counter: id, ..self.core },
                    actions: self.actions + fragment_sends(data, size, id, is_encoded),
                    ..self
                },
                Ok(()),
            )
        }
    }

    /// The connection once it has sent an inside packet, in slices where the
    /// path is known not to carry it whole.
    pub open spec fn sending_outside(self, data: Seq<u8>, is_encoded: bool) -> Step<AppState> {
        if self.core.state !is Online {
            (self, Err(ConnectionError::InvalidState))
        } else {
            match self.core.pmtud {
                Some(report) => match report.maximum_packet_sizes {
                    Some(sizes) => if data.len() > sizes.data {
                        self.sending_fragments(data, sizes.fragment as int, is_encoded)
                    } else {
                        self.sending_data(data, is_encoded)
                    },
                    None => self.sending_data(data, is_encoded),
                },
                None => self.sending_data(data, is_encoded),
            }
        }
    }

    /// Why an inside packet is refused at the door, if it is. `limit` is the
    /// MTU of the inside path; a GSO superpacket has none.
    pub open spec fn inside_refusal(self, pkt: Seq<u8>, limit: Option<usize>) -> Option<
        ConnectionError,
    > {
        if self.core.state is Disconnected {
            Some(ConnectionError::Disconnected)
        } else if self.core.state !is Online || !self.core.has_inside_io {
            Some(ConnectionError::InvalidState)
        } else if limit is Some && pkt.len() > limit->0 {
            Some(ConnectionError::InvalidInsidePacket(InvalidPacketError::InvalidPacketSize))
        } else if !has_ip_version(pkt, 4) {
            Some(ConnectionError::InvalidInsidePacket(InvalidPacketError::owed_for_non_ipv4(pkt)))
        } else {
            None
        }
    }

    /// What happens to an accepted inside packet before the plugins see it:
    /// where the path limits packets, TCP is held to segments that leave room
    /// for the inside headers.
    pub open spec fn ingress_plan(self) -> IngressPlan {
        IngressPlan {
            clamp_mss: match self.core.pmtud {
                Some(report) => match report.maximum_packet_sizes {
                    Some(sizes) => Some(
                        ((sizes.data - crate::IPV4_HEADER_SIZE - crate::TCP_HEADER_SIZE)
                            % 0x1_0000) as u16,
                    ),
                    None => None,
                },
                None => None,
            },
        }
    }

    /// The connection once a packet has come from the inside, and what happens
    /// to it next.
    pub open spec fn inside_taken(self, pkt: Seq<u8>, inside_mtu: usize, due: bool) -> (
        Self,
        ConnectionResult<IngressPlan>,
    ) {
        match self.inside_refusal(pkt, Some(inside_mtu)) {
            Some(error) => (self, Err(error)),
            None => (self.rotating_key(due).0, Ok(self.ingress_plan())),
        }
    }

    /// The connection once an encoder has been offered a packet.
    pub open spec fn encoder_offered(
        self,
        pkt: Seq<u8>,
        stored: Result<CodecStatus, String>,
    ) -> Step<AppState> {
        match stored {
            Ok(CodecStatus::PacketAccepted) => (self, Ok(())),
            Ok(CodecStatus::SkipPacket) => self.sending_outside(pkt, false),
            Err(error) => (self, Err(ConnectionError::PacketCodecError(error))),
        }
    }
}

/// What encrypting an expresslane packet comes to.
pub open spec fn encryption_result(encrypted: Result<(), ExpresslaneError>) -> ConnectionResult<
    (),
> {
    match encrypted {
        Ok(_) => Ok(()),
        Err(error) => Err(encrypt_error(error)),
    }
}

/// What handing an expresslane packet to the socket comes to.
pub open spec fn sending_result(sent: IOCallbackResult) -> ConnectionResult<()> {
    match sent {
        IOCallbackResult::Failed(error) => Err(ConnectionError::OutsideIoWriteError(error)),
        _ => Ok(()),
    }
}

/// What the verdict of the plugins means for an inside packet.
pub open spec fn ingress_next(verdict: PluginResult, has_encoder: bool) -> ConnectionResult<
    IngressNext,
> {
    match verdict {
        PluginResult::Accept => if has_encoder {
            Ok(IngressNext::Encode)
        } else {
            Ok(IngressNext::Send)
        },
        PluginResult::Drop => Ok(IngressNext::Dropped),
        PluginResult::DropWithReply(reply) => Err(ConnectionError::PluginDropWithReply(reply)),
        PluginResult::Error(error) => Err(ConnectionError::PluginError(error)),
    }
}

/// The slices before the given one end where it begins.
proof fn fragments_advance(len: int, size: int, index: int)
    requires
        size > 0,
        0 <= index,
        index * size < len,
    ensures
        0 <= index * size,
        (index + 1) * size == index * size + size,
        index < fragment_count(len, size),
        (index + 1 < fragment_count(len, size)) == ((index + 1) * size < len),
        fragment_end(len, size, index) == (if len - index * size <= size {
            len
        } else {
            (index + 1) * size
        }),
{
    assert(0 <= index * size) by (nonlinear_arith)
        requires
            0 <= index,
            size > 0,
    ;
    assert((index + 1) * size == index * size + size) by (nonlinear_arith);
    let count = fragment_count(len, size);
    assert(count * size <= len + size - 1 < count * size + size) by (nonlinear_arith)
        requires
            size > 0,
            count == (len + size - 1) / size,
    ;
    assert(index < count) by (nonlinear_arith)
        requires
            index * size < len,
            len + size - 1 < count * size + size,
            size > 0,
    ;
    if (index + 1) * size < len {
        assert(index + 1 < count) by (nonlinear_arith)
            requires
                (index + 1) * size < len,
                len + size - 1 < count * size + size,
                size > 0,
        ;
    } else {
        assert(index + 1 >= count) by (nonlinear_arith)
            requires
                (index + 1) * size >= len,
                count * size <= len + size - 1,
                size > 0,
        ;
    }
}

impl<AppState> Connection<AppState> {
    /// Get the current pending session ID, if any
    pub fn pending_session_id(&self) -> (pending: Option<SessionId>)
        ensures
            pending == (match self.core.mode {
                ConnectionMode::Client => None,
                ConnectionMode::Server { pending_session_id, .. } => pending_session_id,
            }),
    {
        match self.core.mode {
            ConnectionMode::Client => None,
            ConnectionMode::Server { pending_session_id, .. } => pending_session_id,
        }
    }

    /// Consume data received from inside path: check the packet, and tell
    /// what is to be done to it before the plugins see it. Keys are rotated
    /// only when there is live traffic, so this is where it happens.
    ///
    /// `inside_mtu` is the MTU of the inside path as it is now, and does not
    /// matter as long as there is no such path.
    pub fn inside_data_received(&mut self, pkt: &BytesMut, inside_mtu: usize, due: bool) -> (r:
        ConnectionResult<IngressPlan>)
        requires
            old(self)@.inside_refusal(buffer_bytes(*pkt), Some(inside_mtu)) is None ==> old(
                self,
            ).core.can_clamp(),
        ensures
            (final(self)@, r) == old(self)@.inside_taken(buffer_bytes(*pkt), inside_mtu, due),
    {
        // Fatal error:
        // In case of protocol disconnection instead of explicit disconnect
        // from Application, notify application that connection is not alive
        if matches!(self.core.state, State::Disconnected) {
            return Err(ConnectionError::Disconnected);
        }
        // Not a fatal error, Might be due to packet reordering

        if !matches!(self.core.state, State::Online) {
            return Err(ConnectionError::InvalidState);
        }
        if !self.core.has_inside_io {
            return Err(ConnectionError::InvalidState);
        }
        // Should not be larger than inside MTU.

        if pkt.len() > inside_mtu {
            return Err(ConnectionError::InvalidInsidePacket(InvalidPacketError::InvalidPacketSize));
        }
        // If not ipv4 packet, return error

        if !ipv4_is_valid_packet(buffer_slice(pkt)) {
            return Err(
                ConnectionError::InvalidInsidePacket(
                    InvalidPacketError::for_non_ipv4(buffer_slice(pkt)),
                ),
            );
        }
        // Rotate keys only when there is live traffic

        let _ = self.rotate_expresslane_key(due);
        let clamp_mss = match self.core.pmtud {
            Some(report) => match report.maximum_packet_sizes {
                Some(sizes) => {
                    let mss: usize = sizes.data - crate::IPV4_HEADER_SIZE
                        - crate::TCP_HEADER_SIZE;
                    Some((mss % 0x1_0000) as u16)
                },
                None => None,
            },
            None => None,
        };
        Ok(IngressPlan { clamp_mss })
    }

    /// The plugins have seen an inside packet.
    pub fn ingress_done(&self, verdict: PluginResult) -> (r: ConnectionResult<IngressNext>)
        ensures
            r == ingress_next(verdict, self.core.has_encoder),
    {
        match verdict {
            PluginResult::Accept => if self.core.has_encoder {
                Ok(IngressNext::Encode)
            } else {
                Ok(IngressNext::Send)
            },
            PluginResult::Drop => Ok(IngressNext::Dropped),
            PluginResult::DropWithReply(reply) => Err(ConnectionError::PluginDropWithReply(reply)),
            PluginResult::Error(error) => Err(ConnectionError::PluginError(error)),
        }
    }

    /// The encoder has been offered an inside packet. One that it does not
    /// take is sent as it is.
    pub fn encoder_done(
        &mut self,
        pkt: &BytesMut,
        stored: Result<CodecStatus, String>,
    ) -> (r: ConnectionResult<()>)
        requires
            stored matches Ok(CodecStatus::SkipPacket) ==> old(self).core.can_slice(
                buffer_bytes(*pkt).len(),
            ),
        ensures
            (final(self)@, r) == old(self)@.encoder_offered(buffer_bytes(*pkt), stored),
    {
        match stored {
            Ok(CodecStatus::PacketAccepted) => Ok(()),
            Ok(CodecStatus::SkipPacket) => self.send_to_outside(pkt, false),
            Err(error) => Err(ConnectionError::PacketCodecError(error)),
        }
    }

    /// Send a packet to the outside
    pub fn send_to_outside(&mut self, pkt: &BytesMut, is_encoded: bool) -> (r: ConnectionResult<
        (),
    >)
        requires
            old(self).core.can_slice(buffer_bytes(*pkt).len()),
        ensures
            (final(self)@, r) == old(self)@.sending_outside(buffer_bytes(*pkt), is_encoded),
    {
        if !matches!(self.core.state, State::Online) {
            return Err(ConnectionError::InvalidState);
        }
        match self.core.pmtud {
            Some(report) => match report.maximum_packet_sizes {
                Some(sizes) => if pkt.len() > sizes.data {
                    return self.send_fragmented_outside_data(
                        pkt.clone().freeze(),
                        sizes.fragment,
                        is_encoded,
                    );
                },
                None => {},
            },
            None => {},
        }
        self.send_outside_data(pkt, is_encoded)
    }

    /// Send a packet that one frame can carry.
    pub fn send_outside_data(&mut self, data: &BytesMut, is_encoded: bool) -> (r: ConnectionResult<
        (),
    >)
        ensures
            (final(self)@, r) == old(self)@.sending_data(buffer_bytes(*data), is_encoded),
    {
        // If PMTUD is not active or the search has not completed then
        // we can only send up to the configured MTU.
        if self.core.connection_type.is_datagram() && data.len() > self.core.max_data_size {
            return Err(ConnectionError::InvalidInsidePacket(InvalidPacketError::InvalidPacketSize));
        }
        let data: Bytes = data.clone().freeze();
        if self.core.expresslane_ready() {
            let session_id = match self.pending_session_id() {
                Some(pending) => pending,
                None => self.core.session_id,
            };
            self.emit(Action::SendExpresslane { session_id, data, is_encoded });
            return Ok(());
        }
        let frame: WireFrame = if is_encoded {
            Frame::EncodedData(data)
        } else {
            Frame::Data(data)
        };
        self.send(frame);
        Ok(())
    }

    /// Send a packet in slices of at most `mps` bytes.
    fn send_fragmented_outside_data(
        &mut self,
        data: Bytes,
        mps: usize,
        is_encoded: bool,
    ) -> (r: ConnectionResult<()>)
        requires
            shared_bytes(data).len() <= MAX_FRAGMENTED_SIZE ==> mps > 0,
        ensures
            (final(self)@, r) == old(self)@.sending_fragments(
                shared_bytes(data),
                mps as int,
                is_encoded,
            ),
    {
        let ghost all = shared_bytes(data);
        if data.len() > MAX_FRAGMENTED_SIZE {
            return Err(ConnectionError::InvalidInsidePacket(InvalidPacketError::InvalidPacketSize));
        }
        let id: u16 = self.core.fragment_counter.wrapping_add(1);
        self.core.fragment_counter = id;
        let ghost start = self@;
        let ghost sends = fragment_sends(all, mps as int, id, is_encoded);
        let mut rest = data;
        let mut offset: usize = 0;
        let ghost mut index: int = 0;
        assert(self@.actions =~= start.actions + sends.take(0));
        assert(shared_bytes(rest) =~= all.subrange(0, all.len() as int));
        proof {
            if all.len() == 0 {
                assert(fragment_count(0, mps as int) == 0) by {
                    assert((mps as int - 1) / mps as int == 0) by (nonlinear_arith)
                        requires
                            mps > 0,
                    ;
                }
            }
        }
        while !rest.is_empty()
            invariant
                mps > 0,
                all.len() <= MAX_FRAGMENTED_SIZE,
                sends == fragment_sends(all, mps as int, id, is_encoded),
                0 <= index <= sends.len(),
                shared_bytes(rest).len() > 0 ==> offset == index * mps && offset < all.len()
                    && shared_bytes(rest) == all.subrange(offset as int, all.len() as int),
                shared_bytes(rest).len() == 0 ==> index == sends.len(),
                self@ == (ConnectionView {
                    actions: start.actions + sends.take(index),
                    ..start
                }),
            decreases shared_bytes(rest).len(),
        {
            proof {
                fragments_advance(all.len() as int, mps as int, index);
            }
            let left: usize = rest.len();
            let size: usize = if mps < left {
                mps
            } else {
                left
            };
            let slice = rest.split_to(size);
            let more_fragments = !rest.is_empty();
            assert(shared_bytes(slice) =~= fragment(all, mps as int, id, index).data);
            let frag = DataFrag { id, offset, data: slice, more_fragments };
            let frame: WireFrame = if is_encoded {
                Frame::EncodedDataFrag(frag)
            } else {
                Frame::DataFrag(frag)
            };
            assert(frame@ == fragment_frame(fragment(all, mps as int, id, index), is_encoded));
            self.send(frame);
            proof {
                assert(start.actions + sends.take(index + 1) =~= (start.actions + sends.take(
                    index,
                )).push(sends[index]));
                index = index + 1;
            }
            if more_fragments {
                offset = offset + mps;
                assert(shared_bytes(rest) =~= all.subrange(offset as int, all.len() as int));
            }
        }
        assert(sends.take(index) =~= sends);
        Ok(())
    }

    /// Draw an initialisation vector for an expresslane packet. Which one is
    /// left to chance.
    pub fn next_expresslane_iv(&mut self) -> (iv: [u8; 12])
        ensures
            final(self)@ == old(self)@,
    {
        sample_iv(&mut self.rng)
    }

    /// An expresslane packet is encrypted, or could not be. That one is on its
    /// way says nothing of the peer, so the activity stays as it is.
    pub fn expresslane_data_encrypted(encrypted: Result<(), ExpresslaneError>) -> (r:
        ConnectionResult<()>)
        ensures
            r == encryption_result(encrypted),
    {
        match encrypted {
            Ok(_) => Ok(()),
            Err(error) => Err(expresslane_encrypt_error(error)),
        }
    }

    /// An expresslane packet is handed to the socket. That the socket cannot
    /// take it at the moment is no error: the packet is lost like any other.
    pub fn expresslane_data_sent(sent: IOCallbackResult) -> (r: ConnectionResult<()>)
        ensures
            r == sending_result(sent),
    {
        match sent {
            IOCallbackResult::Sent(_) => Ok(()),
            IOCallbackResult::WouldBlock => Ok(()),
            IOCallbackResult::Failed(error) => Err(ConnectionError::OutsideIoWriteError(error)),
        }
    }
}

/// The bytes of the first `count` slices of a packet, put together.
pub open spec fn joined(data: Seq<u8>, size: int, id: u16, count: nat) -> Seq<u8>
    decreases count,
{
    if count == 0 {
        Seq::empty()
    } else {
        joined(data, size, id, (count - 1) as nat) + fragment(data, size, id, count - 1).data
    }
}

/// The first slices hold the front of the packet.
proof fn joined_is_front(data: Seq<u8>, size: int, id: u16, count: nat)
    requires
        size > 0,
        count <= fragment_count(data.len() as int, size),
    ensures
        joined(data, size, id, count) == data.take(
            if count * size <= data.len() {
                count * size
            } else {
                data.len() as int
            },
        ),
        count > 0 ==> (count - 1) * size < data.len(),
    decreases count,
{
    if count > 0 {
        let before = (count - 1) as nat;
        joined_is_front(data, size, id, before);
        let total = fragment_count(data.len() as int, size);
        let len = data.len() as int;
        assert(before * size < len) by (nonlinear_arith)
            requires
                before + 1 <= total,
                total == (len + size - 1) / size,
                size > 0,
        ;
        fragments_advance(len, size, before as int);
        assert(joined(data, size, id, count) =~= data.take(
            if count * size <= data.len() {
                count * size
            } else {
                data.len() as int
            },
        ));
    } else {
        assert(joined(data, size, id, count) =~= data.take(0));
    }
}

/// The slices of a packet, put together in order, are the packet.
pub proof fn fragments_reassemble(data: Seq<u8>, size: int, id: u16)
    requires
        size > 0,
    ensures
        joined(data, size, id, fragment_count(data.len() as int, size) as nat) == data,
{
    let len = data.len() as int;
    let total = fragment_count(len, size);
    assert(0 <= total && len <= total * size) by (nonlinear_arith)
        requires
            total == (len + size - 1) / size,
            size > 0,
            len >= 0,
    ;
    joined_is_front(data, size, id, total as nat);
    assert(data.take(len) =~= data);
}

/// Every slice of a packet that may be sliced carries at least one byte and
/// at most as many as fit, tells where it belongs, and only the last one says
/// that the packet ends.
pub proof fn fragments_are_in_place(data: Seq<u8>, size: int, id: u16, index: int)
    requires
        0 < size,
        data.len() <= MAX_FRAGMENTED_SIZE,
        0 <= index < fragment_count(data.len() as int, size),
    ensures
        ({
            let frag = fragment(data, size, id, index);
            &&& 0 < frag.data.len() <= size
            &&& frag.offset == joined(data, size, id, index as nat).len()
            &&& frag.more_fragments == (frag.offset + frag.data.len() < data.len())
            &&& frag.id == id
        }),
{
    let len = data.len() as int;
    let total = fragment_count(len, size);
    assert(0 <= index * size < len) by (nonlinear_arith)
        requires
            0 <= index,
            index + 1 <= total,
            total == (len + size - 1) / size,
            size > 0,
    ;
    fragments_advance(len, size, index);
    joined_is_front(data, size, id, index as nat);
}

/// Packets sent one after the other in slices bear different identifiers.
pub proof fn neighbouring_packets_differ(counter: u16)
    ensures
        next_fragment(counter) != counter,
{
}

/// No IPv6 packet is ever sent to the peer: one that reaches an online tunnel
/// from the inside is refused as unsupported, unless it is refused for its
/// size already.
pub proof fn ipv6_packets_are_refused<AppState>(
    conn: ConnectionView<AppState>,
    pkt: Seq<u8>,
    limit: Option<usize>,
)
    requires
        has_ip_version(pkt, 6),
    ensures
        conn.inside_refusal(pkt, limit) is Some,
        conn.core.state is Online && conn.core.has_inside_io && (limit is Some ==> pkt.len()
            <= limit->0) ==> conn.inside_refusal(pkt, limit) == Some(
            ConnectionError::InvalidInsidePacket(InvalidPacketError::UnsupportedIpv6Packet),
        ),
{
}

/// TCP through the tunnel is held to segments that fill the path exactly: a
/// segment with its IPv4 and TCP headers of 20 bytes each is as long as the
/// longest packet that one frame carries. Where nothing is known of the path,
/// nothing is held to anything.
pub proof fn tcp_fills_the_path<AppState>(conn: ConnectionView<AppState>)
    ensures
        ({
            let clamp_mss = conn.ingress_plan().clamp_mss;
            match conn.core.pmtud {
                Some(report) => match report.maximum_packet_sizes {
                    Some(sizes) => 40 <= sizes.data <= 0xffff + 40 ==> clamp_mss is Some
                        && clamp_mss->0 + 40 == sizes.data,
                    None => clamp_mss is None,
                },
                None => clamp_mss is None,
            }
        }),
{
}

/// A packet from the inside is taken exactly if the connection is online and
/// has an inside, the packet begins like an IPv4 packet, and it is no longer
/// than the limit, where there is one. An online connection says what else is
/// wrong with it, the length first.
pub proof fn inside_packets_have_their_conditions<AppState>(
    conn: ConnectionView<AppState>,
    pkt: Seq<u8>,
    limit: Option<usize>,
)
    ensures
        ({
            let refusal = conn.inside_refusal(pkt, limit);
            let short = limit matches Some(limit) ==> pkt.len() <= limit;
            let ipv4 = pkt.len() > 0 && 0x40 <= pkt[0] <= 0x4f;
            let ipv6 = pkt.len() > 0 && 0x60 <= pkt[0] <= 0x6f;
            let usable = conn.core.state is Online && conn.core.has_inside_io;
            &&& refusal is None <==> usable && short && ipv4
            &&& conn.core.state is Disconnected ==> refusal == Some(ConnectionError::Disconnected)
            &&& conn.core.state !is Disconnected && !usable ==> refusal == Some(
                ConnectionError::InvalidState,
            )
            &&& usable && !short ==> refusal == Some(
                ConnectionError::InvalidInsidePacket(InvalidPacketError::InvalidPacketSize),
            )
            &&& usable && short && ipv6 ==> refusal == Some(
                ConnectionError::InvalidInsidePacket(InvalidPacketError::UnsupportedIpv6Packet),
            )
            &&& usable && short && !ipv4 && !ipv6 ==> refusal == Some(
                ConnectionError::InvalidInsidePacket(InvalidPacketError::InvalidIpv4Packet),
            )
        }),
{
}

/// A packet that one frame can carry leaves whole and once, with these bytes
/// and marked as encoded or not as it is: over the expresslane if that is in
/// use, under the session that a server is moving to if it is, and through the
/// TLS session otherwise. Only a datagram can be too short for it. Nothing
/// else changes.
pub proof fn packets_leave_whole<AppState>(
    conn: ConnectionView<AppState>,
    data: Seq<u8>,
    is_encoded: bool,
)
    ensures
        ({
            let (after, r) = conn.sending_data(data, is_encoded);
            let session_id = match conn.core.mode {
                ConnectionMode::Server { pending_session_id: Some(pending), .. } => pending,
                _ => conn.core.session_id,
            };
            if conn.core.connection_type is Datagram && data.len() > conn.core.max_data_size {
                &&& after == conn
                &&& r == Err::<(), _>(
                    ConnectionError::InvalidInsidePacket(InvalidPacketError::InvalidPacketSize),
                )
            } else {
                &&& r is Ok
                &&& after == (ConnectionView { actions: after.actions, ..conn })
                &&& after.actions.len() == conn.actions.len() + 1
                &&& after.actions.drop_last() == conn.actions
                &&& match after.actions.last() {
                    Action::SendExpresslane {
                        session_id: stamp,
                        data: carried,
                        is_encoded: marked,
                    } => conn.core.spec_expresslane_ready() && stamp == session_id && carried
                        == data && marked == is_encoded,
                    Action::Send { frame: Frame::Data(carried), required } =>
                        !conn.core.spec_expresslane_ready() && required && carried == data
                        && !is_encoded,
                    Action::Send { frame: Frame::EncodedData(carried), required } =>
                        !conn.core.spec_expresslane_ready() && required && carried == data
                        && is_encoded,
                    _ => false,
                }
            }
        }),
{
    assert(conn.sending_data(data, is_encoded).0.actions.len() > conn.actions.len()
        ==> conn.sending_data(data, is_encoded).0.actions.drop_last() =~= conn.actions);
}

/// A packet for the outside needs an online connection. Where the path is
/// known to carry it, or nothing is known of the path, it leaves whole.
pub proof fn packets_that_fit_are_not_sliced<AppState>(
    conn: ConnectionView<AppState>,
    data: Seq<u8>,
    is_encoded: bool,
)
    ensures
        conn.core.state !is Online ==> conn.sending_outside(data, is_encoded) == (
            conn,
            Err::<(), _>(ConnectionError::InvalidState),
        ),
        conn.core.state is Online && (conn.core.pmtud is None
            || conn.core.pmtud->0.maximum_packet_sizes is None || data.len()
            <= conn.core.pmtud->0.maximum_packet_sizes->0.data) ==> conn.sending_outside(
            data,
            is_encoded,
        ) == conn.sending_data(data, is_encoded),
{
}

/// A packet that the path does not carry whole leaves in slices that do fit,
/// in order and complete: the slices lie next to each other from the first
/// byte to the last, all but the last are full, all bear one identifier that
/// the packet before did not, and they are marked as encoded or not as the
/// packet is. The last one says that it is the last.
pub proof fn packets_that_do_not_fit_are_sliced<AppState>(
    conn: ConnectionView<AppState>,
    data: Seq<u8>,
    is_encoded: bool,
    index: int,
)
    requires
        conn.core.state is Online,
        conn.core.pmtud is Some,
        conn.core.pmtud->0.maximum_packet_sizes is Some,
        conn.core.pmtud->0.maximum_packet_sizes->0.data < data.len() <= 65535,
        conn.core.pmtud->0.maximum_packet_sizes->0.fragment > 0,
        0 <= index < conn.sending_outside(data, is_encoded).0.actions.len() - conn.actions.len(),
    ensures
        ({
            let size = conn.core.pmtud->0.maximum_packet_sizes->0.fragment as int;
            let (after, r) = conn.sending_outside(data, is_encoded);
            let count = after.actions.len() - conn.actions.len();
            let start = index * size;
            let end = if index == count - 1 {
                data.len() as int
            } else {
                start + size
            };
            let frag = DataFrag {
                id: after.core.fragment_counter,
                offset: start as usize,
                data: data.subrange(start, end),
                more_fragments: index < count - 1,
            };
            &&& r is Ok
            &&& after.actions.take(conn.actions.len() as int) == conn.actions
            &&& after.core.fragment_counter != conn.core.fragment_counter
            &&& (count - 1) * size < data.len() <= count * size
            &&& 0 <= start < end <= data.len()
            &&& end - start <= size
            &&& after.actions[conn.actions.len() + index] == (ActionView::Send {
                frame: if is_encoded {
                    FrameView::EncodedDataFrag(frag)
                } else {
                    FrameView::DataFrag(frag)
                },
                required: true,
            })
        }),
{
    let size = conn.core.pmtud->0.maximum_packet_sizes->0.fragment as int;
    let len = data.len() as int;
    let (after, r) = conn.sending_outside(data, is_encoded);
    let count = fragment_count(len, size);
    assert((count - 1) * size < len <= count * size) by (nonlinear_arith)
        requires
            count == (len + size - 1) / size,
            size > 0,
    ;
    assert(count >= 0) by (nonlinear_arith)
        requires
            len <= count * size,
            len >= 0,
            size > 0,
    ;
    assert(after.actions.take(conn.actions.len() as int) =~= conn.actions);
    assert(0 <= index * size <= (count - 1) * size) by (nonlinear_arith)
        requires
            0 <= index <= count - 1,
            size > 0,
    ;
    fragments_advance(len, size, index);
}

/// A packet longer than slices can put together again is refused, not cut
/// short.
pub proof fn packets_beyond_slicing_are_refused<AppState>(
    conn: ConnectionView<AppState>,
    data: Seq<u8>,
    is_encoded: bool,
)
    requires
        conn.core.state is Online,
        conn.core.pmtud is Some,
        conn.core.pmtud->0.maximum_packet_sizes is Some,
        conn.core.pmtud->0.maximum_packet_sizes->0.data < data.len(),
        data.len() > 65535,
    ensures
        conn.sending_outside(data, is_encoded) == (
            conn,
            Err::<(), _>(
                ConnectionError::InvalidInsidePacket(InvalidPacketError::InvalidPacketSize),
            ),
        ),
{
}

/// What the plugins let pass goes on, to the encoder if there is one; what
/// they drop goes nowhere, and a reply or an error is handed back as it is.
/// What the encoder takes is not sent as well, and what it does not take is
/// sent as it came, not marked as encoded.
pub proof fn plugins_and_encoder_decide<AppState>(
    conn: ConnectionView<AppState>,
    pkt: Seq<u8>,
    verdict: PluginResult,
    has_encoder: bool,
    reason: String,
)
    ensures
        match verdict {
            PluginResult::Accept => ingress_next(verdict, has_encoder) matches Ok(next) && (next
                is Encode) == has_encoder && (next is Send) == !has_encoder,
            PluginResult::Drop => ingress_next(verdict, has_encoder) matches Ok(next) && next
                is Dropped,
            PluginResult::DropWithReply(reply) => ingress_next(verdict, has_encoder) matches Err(
                error,
            ) && error == ConnectionError::PluginDropWithReply(reply),
            PluginResult::Error(text) => ingress_next(verdict, has_encoder) matches Err(error)
                && error == ConnectionError::PluginError(text),
        },
        conn.encoder_offered(pkt, Ok(CodecStatus::PacketAccepted)) == (
            conn,
            Ok::<(), ConnectionError>(()),
        ),
        conn.encoder_offered(pkt, Ok(CodecStatus::SkipPacket)) == conn.sending_outside(pkt, false),
        conn.encoder_offered(pkt, Err(reason)) == (
            conn,
            Err::<(), _>(ConnectionError::PacketCodecError(reason)),
        ),
{
}

/// A packet from the inside that is refused changes nothing. One that is taken
/// shows that there is live traffic, so a key that is due is shared with it,
/// where the expresslane can be used and was not given up.
pub proof fn live_traffic_rotates_keys<AppState>(
    conn: ConnectionView<AppState>,
    pkt: Seq<u8>,
    inside_mtu: usize,
    due: bool,
)
    ensures
        ({
            let (after, r) = conn.inside_taken(pkt, inside_mtu, due);
            let shares = due && conn.core.spec_expresslane_supported()
                && conn.core.expresslane.state !is Degraded;
            &&& r is Ok <==> conn.inside_refusal(pkt, Some(inside_mtu)) is None
            &&& r is Err ==> after == conn && Some(r->Err_0) == conn.inside_refusal(
                pkt,
                Some(inside_mtu),
            )
            &&& after.core == conn.core
            &&& r is Ok ==> r->Ok_0 == conn.ingress_plan() && after.actions == (if shares {
                conn.actions.push(ActionView::ShareExpresslaneKey)
            } else {
                conn.actions
            })
        }),
{
}

/// An expresslane packet that the socket cannot take at the moment is lost
/// like any other, without an error; only a socket or a cipher that failed is
/// one, and is told as such.
pub proof fn only_failures_are_errors(
    sent: IOCallbackResult,
    encrypted: Result<(), ExpresslaneError>,
)
    ensures
        sending_result(sent) is Err <==> sent is Failed,
        sent matches IOCallbackResult::Failed(e) ==> sending_result(sent) == Err::<(), _>(
            ConnectionError::OutsideIoWriteError(e),
        ),
        encryption_result(encrypted) is Ok <==> encrypted is Ok,
        encrypted matches Err(e) ==> encryption_result(encrypted) == Err::<(), _>(
            ConnectionError::ExpresslaneError(e),
        ),
{
}

} // verus!
