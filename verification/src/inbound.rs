//! The way from the outside to the inside: checking a datagram, reading the
//! frames in it, and handing packets on.

use crate::action::{Action, ActionView, Event};
use crate::buffers::{buffer_bytes, shared_bytes, shared_slice};
use crate::connection::{
    Connection, ConnectionActivity, ConnectionMode, ConnectionView, Core, State, Step,
};
use crate::error::{
    decrypt_error, expresslane_decrypt_error, ConnectionError, ConnectionResult,
    InvalidPacketError,
};
use crate::net::{has_ip_version, ipv4_is_valid_packet};
use crate::outbound::{CodecStatus, PluginResult};
use crate::time::Instant;
use crate::tls;
use crate::wire::{
    DataFrag, ExpresslaneError, ExpresslaneVersion, Frame, FrameView, FromWireError, Header,
    WireFrame,
};
use bytes::{Bytes, BytesMut};
use vstd::prelude::*;

verus! {

/// What to do with the payload of a datagram.
#[derive(Clone, Copy, Debug, PartialEq, Eq, Structural)]
pub enum OutsideStep {
    /// Decrypt it as an expresslane packet
    /// ([`Connection::expresslane_decrypted`])
    Decrypt,
    /// Feed it to the session and negotiate ([`Connection::negotiated`])
    Negotiate,
    /// Feed it to the session and read frames
    /// ([`Connection::frame_parsed`])
    ReadMessages,
    /// Feed it to the session, and then refuse it: the state is wrong for it
    /// ([`frames_after`])
    Refuse,
}

/// What came of putting a slice of a packet with the others.
pub enum FragmentMapResult {
    /// This is the whole packet
    Complete(BytesMut),
    /// Slices are still missing
    Incomplete,
    /// The slices do not go together, for this reason
    Failed(String),
}

/// What is known of the expresslane version when a frame is handled. It
/// matters for an expresslane configuration alone.
#[derive(Clone, Copy, Debug, PartialEq, Eq, Structural)]
pub struct VersionReading {
    /// The version that results from the one that the peer names
    pub negotiated: ExpresslaneVersion,
    /// Whether the cipher has moved to it
    pub accepted: bool,
}

impl Core {
    /// Why a datagram is refused by its header, if it is. Only a server looks
    /// at it: the version has to be its own, and one that refuses a session
    /// is dropped, lest two servers refuse each other for ever.
    pub open spec fn header_refusal(self, hdr: Option<Header>) -> Option<ConnectionError> {
        match hdr {
            None => None,
            Some(hdr) => if self.mode is Client {
                None
            } else if hdr.version != self.tunnel_protocol_version {
                Some(ConnectionError::InvalidProtocolVersion)
            } else if hdr.session.spec_is_rejected() {
                Some(ConnectionError::RejectedSessionID)
            } else {
                None
            },
        }
    }

    /// What the check of a datagram comes to: it is refused by its header, or
    /// for want of a payload.
    pub open spec fn packet_check(
        self,
        hdr: Option<Header>,
        has_payload: bool,
    ) -> ConnectionResult<()> {
        match self.header_refusal(hdr) {
            Some(error) => Err(error),
            None => if has_payload {
                Ok(())
            } else {
                Err(ConnectionError::RejectedSessionID)
            },
        }
    }

    /// What to do with the payload of a datagram.
    pub open spec fn outside_step(self, hdr: Option<Header>) -> OutsideStep {
        if hdr is Some && hdr->0.expresslane_data {
            OutsideStep::Decrypt
        } else {
            match self.state {
                State::Connecting => OutsideStep::Negotiate,
                State::LinkUp => OutsideStep::ReadMessages,
                State::Authenticating => OutsideStep::ReadMessages,
                State::Online => OutsideStep::ReadMessages,
                State::Disconnecting => OutsideStep::Refuse,
                State::Disconnected => OutsideStep::Refuse,
            }
        }
    }
}

impl<AppState> ConnectionView<AppState> {
    /// The connection once a datagram has come. A client is told of its first
    /// one.
    pub open spec fn arriving(self) -> Step<AppState> {
        if self.core.state is Disconnected {
            (self, Err(ConnectionError::Disconnected))
        } else if !self.core.is_first_packet_received && self.core.mode is Client {
            (
                self.with_core(Core { is_first_packet_received: true, ..self.core }).event(
                    Event::FirstPacketReceived,
                ),
                Ok(()),
            )
        } else {
            (self, Ok(()))
        }
    }

    /// The connection once outside data was seen at `now`.
    pub open spec fn with_outside_data_at(self, now: Instant) -> Self {
        self.with_core(
            Core {
                activity: ConnectionActivity {
                    last_outside_data_received: now,
                    ..self.core.activity
                },
                ..self.core
            },
        )
    }

    /// The connection once it has tried to negotiate its session, and whether
    /// frames can be read.
    pub open spec fn negotiating(self, polled: Result<tls::Poll<()>, tls::Error>) -> (
        Self,
        ConnectionResult<bool>,
    ) {
        match polled {
            Err(error) => (self, Err(ConnectionError::Tls(error))),
            Ok(tls::Poll::PendingWrite) => (self.emit(Action::UpdateTickInterval), Ok(false)),
            Ok(tls::Poll::PendingRead) => (self.emit(Action::UpdateTickInterval), Ok(false)),
            Ok(tls::Poll::Ready(_)) => (self.entering(State::LinkUp, false).0, Ok(true)),
            Ok(tls::Poll::AppData(_)) => (self, Ok(false)),
        }
    }

    /// The connection once it has tried to read from its session, and whether
    /// there may be more frames now.
    pub open spec fn reading(self, polled: Result<tls::Poll<()>, tls::Error>) -> (
        Self,
        ConnectionResult<bool>,
    ) {
        match polled {
            Err(error) => (self, Err(ConnectionError::Tls(error))),
            Ok(tls::Poll::PendingWrite) => (self, Ok(false)),
            Ok(tls::Poll::PendingRead) => (self, Ok(false)),
            Ok(tls::Poll::Ready(_)) => (self, Ok(true)),
            Ok(tls::Poll::AppData(data)) => (
                ConnectionView { received: self.received + shared_bytes(data), ..self },
                Ok(true),
            ),
        }
    }

    /// The connection once it has an inside packet to deliver.
    pub open spec fn delivering(self, pkt: Seq<u8>) -> Step<AppState> {
        if self.core.state !is Online {
            (self, Err(ConnectionError::InvalidState))
        } else if !has_ip_version(pkt, 4) {
            (
                self,
                Err(ConnectionError::InvalidInsidePacket(InvalidPacketError::owed_for_non_ipv4(pkt))),
            )
        } else if !self.core.has_inside_io {
            (self, Err(ConnectionError::InvalidInsideIo))
        } else {
            (self.emit(Action::DeliverInside(pkt)), Ok(()))
        }
    }

    /// The connection once it has data of the peer, encoded or not.
    pub open spec fn taking_data(self, data: Seq<u8>, is_encoded: bool) -> Step<AppState> {
        if !is_encoded {
            self.delivering(data)
        } else if !self.core.has_decoder {
            (self, Err(ConnectionError::PacketCodecDoesNotExist))
        } else {
            (self.emit(Action::DecodePacket(data)), Ok(()))
        }
    }

    /// The connection once the decoder has been offered a packet.
    pub open spec fn decoder_offered(
        self,
        pkt: Seq<u8>,
        stored: Result<CodecStatus, String>,
    ) -> Step<AppState> {
        match stored {
            Ok(CodecStatus::PacketAccepted) => (self, Ok(())),
            Ok(CodecStatus::SkipPacket) => self.delivering(pkt),
            Err(error) => (self, Err(ConnectionError::PacketCodecError(error))),
        }
    }

    /// The connection once the cipher has tried to decrypt a packet.
    pub open spec fn decrypted(self, data: Result<(Seq<u8>, bool), ExpresslaneError>) -> Step<
        AppState,
    > {
        match data {
            Err(error) => (self, Err(ConnectionError::WireError(decrypt_error(error)))),
            Ok((data, is_encoded)) => self.taking_data(data, is_encoded),
        }
    }

    /// The connection once a packet or a slice of one has come in a frame.
    pub open spec fn data_received(self, data: Seq<u8>, is_encoded: bool) -> Step<AppState> {
        if self.core.state !is Online {
            (self, Err(ConnectionError::InvalidState))
        } else {
            self.taking_data(data, is_encoded)
        }
    }

    /// The connection once a slice of a packet has come in a frame.
    pub open spec fn slice_received(self, frag: DataFrag<Seq<u8>>, is_encoded: bool) -> Step<
        AppState,
    > {
        if self.core.state !is Online {
            (self, Err(ConnectionError::InvalidState))
        } else {
            (self.emit(Action::AddFragment { frag, is_encoded }), Ok(()))
        }
    }

    /// The connection once a slice was put with the others.
    pub open spec fn slice_added(self, added: FragmentMapResult, is_encoded: bool) -> Step<
        AppState,
    > {
        match added {
            FragmentMapResult::Complete(data) => self.taking_data(buffer_bytes(data), is_encoded),
            FragmentMapResult::Incomplete => (self, Ok(())),
            FragmentMapResult::Failed(reason) => (
                self,
                Err(ConnectionError::DataFragmentError(reason)),
            ),
        }
    }

    /// The connection once a frame has come.
    pub open spec fn receiving(
        self,
        frame: FrameView,
        reading: VersionReading,
        due: bool,
    ) -> Step<AppState> {
        match frame {
            Frame::NoOp => (self, Ok(())),
            Frame::Ping { id, .. } => self.answering_ping(id),
            Frame::Pong { id, payload } => self.pong_received(id, payload),
            Frame::AuthRequest(auth_method) => self.auth_requested(auth_method),
            Frame::Data(data) => self.data_received(data, false),
            Frame::DataFrag(frag) => self.slice_received(frag, false),
            Frame::EncodedData(data) => self.data_received(data, true),
            Frame::EncodedDataFrag(frag) => self.slice_received(frag, true),
            Frame::AuthSuccessWithConfigV4(cfg) => self.auth_succeeded(cfg, due),
            Frame::AuthFailure => (self, Err(ConnectionError::Unauthorized)),
            Frame::Goodbye => (self, Err(ConnectionError::Goodbye)),
            Frame::ServerConfig => (self, Ok(())),
            Frame::EncodingRequest(er) => self.encoding_requested(er),
            Frame::EncodingResponse(er) => self.encoding_answered(er),
            Frame::ExpresslaneConfig(config) => self.receiving_config(
                config,
                reading.negotiated,
                reading.accepted,
                due,
            ),
        }
    }

    /// The connection once the plugins have seen a packet on its way inside,
    /// and whether it is delivered.
    pub open spec fn egressing(self, verdict: PluginResult, now: Instant) -> (
        Self,
        ConnectionResult<bool>,
    ) {
        match verdict {
            PluginResult::Accept => (
                self.with_core(
                    Core {
                        activity: ConnectionActivity {
                            last_data_traffic_from_peer: now,
                            last_data_delivered_to_inside: now,
                            ..self.core.activity
                        },
                        ..self.core
                    },
                ),
                Ok(true),
            ),
            PluginResult::Drop => (self, Ok(false)),
            PluginResult::DropWithReply(reply) => (
                self,
                Err(ConnectionError::PluginDropWithReply(reply)),
            ),
            PluginResult::Error(error) => (self, Err(ConnectionError::PluginError(error))),
        }
    }

    /// The connection once the frames of a datagram are handled. Its session
    /// identifier counts only now that the datagram has proved valid.
    pub open spec fn datagram_done(self, hdr: Option<Header>, frames_read: usize) -> Self {
        if frames_read > 0 {
            self.session_seen(
                match hdr {
                    Some(hdr) => Some(hdr.session),
                    None => None,
                },
            )
        } else {
            self
        }
    }
}

impl<AppState> Connection<AppState> {
    /// Accept some data from outside. Applications should call this whenever
    /// data becomes available.
    ///
    /// The datagram then goes through the plugins, and if it passes through
    /// [`Connection::check_outside_packet`],
    /// [`Connection::process_new_outside_data`] and
    /// [`Connection::outside_data_processed`].
    pub fn outside_data_received(&mut self) -> (r: ConnectionResult<()>)
        ensures
            (final(self)@, r) == old(self)@.arriving(),
    {
        // Fatal error:
        // In case of protocol disconnection instead of explicit disconnect
        // from Application, notify application that connection is not alive
        if matches!(self.core.state, State::Disconnected) {
            return Err(ConnectionError::Disconnected);
        }
        if !self.core.is_first_packet_received && matches!(self.core.mode, ConnectionMode::Client) {
            self.core.is_first_packet_received = true;
            self.event(Event::FirstPacketReceived);
        }
        Ok(())
    }

    /// Check the header of a datagram, if it has one, and that anything is
    /// left to process.
    pub fn check_outside_packet(&self, hdr: Option<Header>, has_payload: bool) -> (r:
        ConnectionResult<()>)
        ensures
            r == self.core.packet_check(hdr, has_payload),
    {
        match hdr {
            Some(hdr) => if matches!(self.core.mode, ConnectionMode::Server { .. }) {
                if hdr.version != self.core.tunnel_protocol_version {
                    return Err(ConnectionError::InvalidProtocolVersion);
                }
                if hdr.session.is_rejected() {
                    // Drop reject packets to prevent an infinite loop
                    // where an attacker causes us to send rejected
                    // packets between servers.
                    return Err(ConnectionError::RejectedSessionID);
                }
            },
            None => {},
        }
        if !has_payload {
            return Err(ConnectionError::RejectedSessionID);
        }
        Ok(())
    }

    /// Tell what to do with the payload of a datagram that came at `now`.
    pub fn process_new_outside_data(&mut self, hdr: Option<Header>, now: Instant) -> (step:
        OutsideStep)
        ensures
            step == old(self)@.core.outside_step(hdr),
            final(self)@ == old(self)@.with_outside_data_at(now),
    {
        self.core.activity.last_outside_data_received = now;
        match hdr {
            Some(hdr) => if hdr.expresslane_data {
                return OutsideStep::Decrypt;
            },
            None => {},
        }
        match self.core.state {
            State::Connecting => OutsideStep::Negotiate,
            State::LinkUp | State::Authenticating | State::Online => OutsideStep::ReadMessages,
            State::Disconnecting | State::Disconnected => OutsideStep::Refuse,
        }
    }

    /// Whether bytes that the session has not used are dropped once a packet
    /// is processed. A record of DTLS does not span datagrams.
    pub fn drops_unused_bytes(&self) -> (drops: bool)
        ensures
            drops == (self.core.connection_type is Datagram),
    {
        self.core.connection_type.is_datagram()
    }

    /// The session has been negotiated as far as its data allow. Returns
    /// whether frames can be read.
    pub fn negotiated(&mut self, polled: Result<tls::Poll<()>, tls::Error>) -> (r:
        ConnectionResult<bool>)
        ensures
            (final(self)@, r) == old(self)@.negotiating(polled),
    {
        match polled {
            Err(error) => Err(ConnectionError::Tls(error)),
            Ok(tls::Poll::PendingWrite) | Ok(tls::Poll::PendingRead) => {
                self.emit(Action::UpdateTickInterval);
                Ok(false)
            },
            Ok(tls::Poll::Ready(_)) => {
                let _ = self.set_state(State::LinkUp, false);
                Ok(true)
            },
            Ok(tls::Poll::AppData(_)) => Ok(false),
        }
    }

    /// A frame was parsed from the bytes received, or could not be, after
    /// `frames_read` others of the same datagram. Returns the frame to handle
    /// and how many there are with it; `None` if more bytes have to be read
    /// first.
    pub fn frame_parsed(parsed: Result<WireFrame, FromWireError>, frames_read: usize) -> (r:
        ConnectionResult<Option<(WireFrame, usize)>>)
        requires
            frames_read < usize::MAX,
        ensures
            r == parse_outcome(parsed, frames_read),
    {
        match parsed {
            Ok(frame) => Ok(Some((frame, frames_read + 1))),
            Err(FromWireError::InsufficientData) => Ok(None),
            Err(error) => Err(ConnectionError::WireError(error)),
        }
    }

    /// The session was asked for more bytes. Returns whether another frame
    /// may be there now.
    pub fn tls_read(&mut self, polled: Result<tls::Poll<()>, tls::Error>) -> (r: ConnectionResult<
        bool,
    >)
        requires
            polled matches Ok(tls::Poll::AppData(data)) ==> old(self)@.received.len()
                + shared_bytes(data).len() <= isize::MAX,
        ensures
            (final(self)@, r) == old(self)@.reading(polled),
    {
        match polled {
            Err(error) => Err(ConnectionError::Tls(error)),
            Ok(tls::Poll::PendingWrite) | Ok(tls::Poll::PendingRead) => Ok(false),
            Ok(tls::Poll::Ready(_)) => Ok(true),
            Ok(tls::Poll::AppData(data)) => {
                self.receive_buf.extend_from_slice(shared_slice(&data));
                Ok(true)
            },
        }
    }

    /// Handle a frame of the peer.
    pub fn handle_frame(&mut self, frame: WireFrame, reading: VersionReading, due: bool) -> (r:
        ConnectionResult<()>)
        ensures
            (final(self)@, r) == old(self)@.receiving(frame@, reading, due),
    {
        match frame {
            Frame::NoOp => Ok(()),
            Frame::Ping { id, .. } => self.handle_ping(id),
            Frame::Pong { id, payload } => self.handle_pong(id, payload),
            Frame::AuthRequest(auth_method) => self.handle_auth_request(auth_method),
            Frame::Data(data) => self.handle_outside_data_packet(data, false),
            Frame::DataFrag(frag) => self.handle_outside_data_fragment(frag, false),
            Frame::EncodedData(data) => self.handle_outside_data_packet(data, true),
            Frame::EncodedDataFrag(frag) => self.handle_outside_data_fragment(frag, true),
            Frame::AuthSuccessWithConfigV4(cfg) => self.handle_auth_response(cfg, due),
            Frame::AuthFailure => Err(ConnectionError::Unauthorized),
            Frame::Goodbye => Err(ConnectionError::Goodbye),
            Frame::ServerConfig => Ok(()),
            Frame::EncodingRequest(er) => self.process_encoding_request_pkt(er),
            Frame::EncodingResponse(er) => self.process_encoding_response_pkt(er),
            Frame::ExpresslaneConfig(config) => self.handle_expresslane_config(
                config,
                reading.negotiated,
                reading.accepted,
                due,
            ),
        }
    }

    /// A packet of the peer.
    pub fn handle_outside_data_packet(&mut self, data: Bytes, is_encoded: bool) -> (r:
        ConnectionResult<()>)
        ensures
            (final(self)@, r) == old(self)@.data_received(shared_bytes(data), is_encoded),
    {
        if !matches!(self.core.state, State::Online) {
            return Err(ConnectionError::InvalidState);
        }
        self.handle_outside_data_bytes(data, is_encoded)
    }

    /// A slice of a packet of the peer.
    pub fn handle_outside_data_fragment(&mut self, frag: DataFrag<Bytes>, is_encoded: bool) -> (r:
        ConnectionResult<()>)
        ensures
            (final(self)@, r) == old(self)@.slice_received(frag@, is_encoded),
    {
        if !matches!(self.core.state, State::Online) {
            return Err(ConnectionError::InvalidState);
        }
        self.emit(Action::AddFragment { frag, is_encoded });
        Ok(())
    }

    /// A slice of a packet was put with the others.
    pub fn fragment_added(&mut self, added: FragmentMapResult, is_encoded: bool) -> (r:
        ConnectionResult<()>)
        ensures
            (final(self)@, r) == old(self)@.slice_added(added, is_encoded),
    {
        match added {
            FragmentMapResult::Complete(data) => self.handle_outside_data_bytes(
                data.freeze(),
                is_encoded,
            ),
            FragmentMapResult::Incomplete => Ok(()),
            FragmentMapResult::Failed(reason) => Err(ConnectionError::DataFragmentError(reason)),
        }
    }

    /// An expresslane packet is decrypted, or could not be.
    pub fn expresslane_decrypted(
        &mut self,
        decrypted: Result<(BytesMut, bool), ExpresslaneError>,
    ) -> (r: ConnectionResult<()>)
        ensures
            (final(self)@, r) == old(self)@.decrypted(
                match decrypted {
                    Ok((data, is_encoded)) => Ok((buffer_bytes(data), is_encoded)),
                    Err(error) => Err(error),
                },
            ),
    {
        match decrypted {
            Err(error) => Err(ConnectionError::WireError(expresslane_decrypt_error(error))),
            Ok((data, is_encoded)) => self.handle_outside_data_bytes(data.freeze(), is_encoded),
        }
    }

    /// Data of the peer, encoded or not.
    fn handle_outside_data_bytes(&mut self, data: Bytes, is_encoded: bool) -> (r: ConnectionResult<
        (),
    >)
        ensures
            (final(self)@, r) == old(self)@.taking_data(shared_bytes(data), is_encoded),
    {
        if !is_encoded {
            return self.deliver_inside(data);
        }
        if !self.core.has_decoder {
            // No decoder exists to process the encoded packet
            return Err(ConnectionError::PacketCodecDoesNotExist);
        }
        self.emit(Action::DecodePacket(data));
        Ok(())
    }

    /// The decoder has been offered a packet. One that it does not take is
    /// delivered as it is.
    pub fn packet_decoded(&mut self, pkt: Bytes, stored: Result<CodecStatus, String>) -> (r:
        ConnectionResult<()>)
        ensures
            (final(self)@, r) == old(self)@.decoder_offered(shared_bytes(pkt), stored),
    {
        match stored {
            Ok(CodecStatus::PacketAccepted) => Ok(()),
            Ok(CodecStatus::SkipPacket) => self.deliver_inside(pkt),
            Err(error) => Err(ConnectionError::PacketCodecError(error)),
        }
    }

    /// Send a packet to the inside
    pub fn send_to_inside(&mut self, inside_pkt: BytesMut) -> (r: ConnectionResult<()>)
        ensures
            (final(self)@, r) == old(self)@.delivering(buffer_bytes(inside_pkt)),
    {
        self.deliver_inside(inside_pkt.freeze())
    }

    /// Check a packet and leave it for the plugins.
    fn deliver_inside(&mut self, inside_pkt: Bytes) -> (r: ConnectionResult<()>)
        ensures
            (final(self)@, r) == old(self)@.delivering(shared_bytes(inside_pkt)),
    {
        if !matches!(self.core.state, State::Online) {
            return Err(ConnectionError::InvalidState);
        }
        if !ipv4_is_valid_packet(shared_slice(&inside_pkt)) {
            return Err(
                ConnectionError::InvalidInsidePacket(
                    InvalidPacketError::for_non_ipv4(shared_slice(&inside_pkt)),
                ),
            );
        }
        if !self.core.has_inside_io {
            return Err(ConnectionError::InvalidInsideIo);
        }
        self.emit(Action::DeliverInside(inside_pkt));
        Ok(())
    }

    /// The plugins have seen a packet on its way inside at `now`. Returns
    /// whether it is handed to the inside path. That the inside path cannot
    /// take it is no error of the connection.
    pub fn egress_done(&mut self, verdict: PluginResult, now: Instant) -> (r: ConnectionResult<
        bool,
    >)
        ensures
            (final(self)@, r) == old(self)@.egressing(verdict, now),
    {
        match verdict {
            PluginResult::Accept => {
                self.core.activity.last_data_traffic_from_peer = now;
                self.core.activity.last_data_delivered_to_inside = now;
                Ok(true)
            },
            PluginResult::Drop => Ok(false),
            PluginResult::DropWithReply(reply) => Err(ConnectionError::PluginDropWithReply(reply)),
            PluginResult::Error(error) => Err(ConnectionError::PluginError(error)),
        }
    }

    /// A datagram is processed without error, and this many frames were in it.
    pub fn outside_data_processed(&mut self, hdr: Option<Header>, frames_read: usize)
        ensures
            final(self)@ == old(self)@.datagram_done(hdr, frames_read),
    {
        if frames_read > 0 {
            match hdr {
                Some(hdr) => self.update_session_id(Some(hdr.session)),
                None => {},
            }
        }
    }

    /// Fold the outcome of one of several packets into the number of frames
    /// read. A fatal error ends the processing and is returned; any other is
    /// passed over. `is_fatal` tells which it is, and does not matter where
    /// there is no error.
    pub fn multiple_outside_data_received(
        total: usize,
        received: ConnectionResult<usize>,
        is_fatal: bool,
    ) -> (r: ConnectionResult<usize>)
        requires
            received matches Ok(n) ==> total + n <= usize::MAX,
        ensures
            r == tally(total, packet_outcome(received, is_fatal)),
    {
        match received {
            Ok(n) => Ok(total + n),
            Err(error) => if is_fatal {
                Err(error)
            } else {
                Ok(total)
            },
        }
    }
}

/// What an attempt to parse a frame comes to, after `frames_read` others: the
/// frame and the number of frames with it, none if the bytes do not suffice.
pub open spec fn parse_outcome(
    parsed: Result<WireFrame, FromWireError>,
    frames_read: usize,
) -> ConnectionResult<Option<(WireFrame, usize)>> {
    match parsed {
        Ok(frame) => Ok(Some((frame, (frames_read + 1) as usize))),
        Err(FromWireError::InsufficientData) => Ok(None),
        Err(error) => Err(ConnectionError::WireError(error)),
    }
}

/// How many frames have been read once these attempts to parse one were made.
pub open spec fn frames_parsed(parses: Seq<Result<WireFrame, FromWireError>>) -> usize
    decreases parses.len(),
{
    if parses.len() == 0 {
        0
    } else {
        let earlier = frames_parsed(parses.drop_last());
        match parse_outcome(parses.last(), earlier) {
            Ok(Some((_, frames_read))) => frames_read,
            _ => earlier,
        }
    }
}

/// Every frame that could be parsed counts, once, and nothing else does. The
/// number has to fit a machine word.
pub proof fn valid_frames_are_counted(parses: Seq<Result<WireFrame, FromWireError>>)
    requires
        parses.len() <= usize::MAX,
    ensures
        frames_parsed(parses) == parses.filter(
            |parsed: Result<WireFrame, FromWireError>| parsed is Ok,
        ).len(),
        frames_parsed(parses) <= parses.len(),
    decreases parses.len(),
{
    reveal(Seq::filter);
    if parses.len() > 0 {
        valid_frames_are_counted(parses.drop_last());
    }
}

/// How many valid frames came in a datagram that was processed without error:
/// an expresslane packet is one, none can be read before the session is
/// negotiated, and otherwise those count that were parsed. In a state that is
/// wrong for a datagram there is no such number.
pub open spec fn frames_in_datagram(
    step: OutsideStep,
    negotiated: bool,
    parsed: usize,
) -> ConnectionResult<usize> {
    match step {
        OutsideStep::Decrypt => Ok(1),
        OutsideStep::Negotiate => if negotiated {
            Ok(parsed)
        } else {
            Ok(0)
        },
        OutsideStep::ReadMessages => Ok(parsed),
        OutsideStep::Refuse => Err(ConnectionError::InvalidState),
    }
}

/// Tell how many valid frames a datagram brought, once its payload went the
/// way of [`Connection::process_new_outside_data`] without error. `negotiated`
/// is what [`Connection::negotiated`] returned where it was asked, and
/// `parsed` how many frames were parsed ([`Connection::frame_parsed`]).
pub fn frames_after(step: OutsideStep, negotiated: bool, parsed: usize) -> (r: ConnectionResult<
    usize,
>)
    ensures
        r == frames_in_datagram(step, negotiated, parsed),
{
    match step {
        OutsideStep::Decrypt => Ok(1),
        OutsideStep::Negotiate => if negotiated {
            Ok(parsed)
        } else {
            Ok(0)
        },
        OutsideStep::ReadMessages => Ok(parsed),
        OutsideStep::Refuse => Err(ConnectionError::InvalidState),
    }
}

/// What came of one of several packets.
pub enum PacketOutcome {
    /// This many frames were read
    Read(usize),
    /// There was an error that does not matter to the others
    PassedOver(ConnectionError),
    /// There was an error that ends the processing
    Fatal(ConnectionError),
}

/// The outcome that a result stands for. Only of an error does it matter
/// whether it is fatal.
pub open spec fn packet_outcome(received: ConnectionResult<usize>, is_fatal: bool) -> PacketOutcome {
    match received {
        Ok(n) => PacketOutcome::Read(n),
        Err(error) => if is_fatal {
            PacketOutcome::Fatal(error)
        } else {
            PacketOutcome::PassedOver(error)
        },
    }
}

/// The number of frames read, or the error to return, once one more packet is
/// processed.
pub open spec fn tally(total: usize, outcome: PacketOutcome) -> ConnectionResult<usize> {
    match outcome {
        PacketOutcome::Read(n) => Ok((total + n) as usize),
        PacketOutcome::PassedOver(_) => Ok(total),
        PacketOutcome::Fatal(error) => Err(error),
    }
}

/// What several packets come to: the outcome of each is folded in as long as
/// none was fatal.
pub open spec fn tally_of(outcomes: Seq<PacketOutcome>) -> ConnectionResult<usize>
    decreases outcomes.len(),
{
    if outcomes.len() == 0 {
        Ok(0)
    } else {
        match tally_of(outcomes.drop_last()) {
            Ok(total) => tally(total, outcomes.last()),
            Err(error) => Err(error),
        }
    }
}

/// How many frames were read from several packets.
pub open spec fn frames_read_from(outcomes: Seq<PacketOutcome>) -> nat
    decreases outcomes.len(),
{
    if outcomes.len() == 0 {
        0
    } else {
        let earlier = frames_read_from(outcomes.drop_last());
        match outcomes.last() {
            PacketOutcome::Read(n) => earlier + n as nat,
            _ => earlier,
        }
    }
}

/// The first fatal error among several packets is what is returned, and
/// nothing after it is folded in: the result is the same whatever follows.
pub proof fn first_fatal_error_is_returned(outcomes: Seq<PacketOutcome>, k: int)
    requires
        0 <= k < outcomes.len(),
        outcomes[k] is Fatal,
        forall|i: int| 0 <= i < k ==> (#[trigger] outcomes[i]) !is Fatal,
    ensures
        tally_of(outcomes) == Err::<usize, _>(outcomes[k]->Fatal_0),
        tally_of(outcomes) == tally_of(outcomes.take(k + 1)),
    decreases outcomes.len(),
{
    let earlier = outcomes.drop_last();
    if k < earlier.len() {
        first_fatal_error_is_returned(earlier, k);
        assert(earlier.take(k + 1) =~= outcomes.take(k + 1));
    } else {
        tally_without_fatal_error(earlier);
        assert(outcomes.take(k + 1) =~= outcomes);
    }
}

/// Without a fatal error there is a number.
proof fn tally_without_fatal_error(outcomes: Seq<PacketOutcome>)
    requires
        forall|i: int| 0 <= i < outcomes.len() ==> (#[trigger] outcomes[i]) !is Fatal,
    ensures
        tally_of(outcomes) is Ok,
        frames_read_from(outcomes) <= usize::MAX ==> tally_of(outcomes) == Ok::<
            usize,
            ConnectionError,
        >(frames_read_from(outcomes) as usize),
    decreases outcomes.len(),
{
    if outcomes.len() > 0 {
        let earlier = outcomes.drop_last();
        assert forall|i: int| 0 <= i < earlier.len() implies (#[trigger] earlier[i])
            !is Fatal by {
            assert(earlier[i] == outcomes[i]);
        }
        tally_without_fatal_error(earlier);
        assert(outcomes[outcomes.len() - 1] !is Fatal);
    }
}

/// Without a fatal error, several packets come to the number of frames that
/// were read from them all, none for no packets; errors that are not fatal
/// count for nothing. The number has to fit a machine word.
pub proof fn frames_of_all_packets_add_up(outcomes: Seq<PacketOutcome>)
    requires
        forall|i: int| 0 <= i < outcomes.len() ==> (#[trigger] outcomes[i]) !is Fatal,
        frames_read_from(outcomes) <= usize::MAX,
    ensures
        tally_of(outcomes) == Ok::<usize, ConnectionError>(frames_read_from(outcomes) as usize),
{
    tally_without_fatal_error(outcomes);
}

/// Only IPv4 packets reach the inside, and only while the tunnel is online
/// and has an inside.
pub proof fn delivery_needs_a_tunnel<AppState>(conn: ConnectionView<AppState>, pkt: Seq<u8>)
    requires
        conn.delivering(pkt).1 is Ok,
    ensures
        conn.core.state is Online,
        conn.core.has_inside_io,
        has_ip_version(pkt, 4),
        conn.delivering(pkt).0 == conn.emit(Action::DeliverInside(pkt)),
{
}

/// Encoded data of the peer never reaches the inside without the decoder,
/// whichever way it came: in a frame, in slices that have been put together,
/// or over the expresslane. The decoder is asked for exactly these bytes, and
/// where there is none the data is refused. A slice in a frame stays marked as
/// part of an encoded packet.
pub proof fn encoded_data_goes_to_the_decoder<AppState>(
    conn: ConnectionView<AppState>,
    data: Seq<u8>,
    whole: BytesMut,
    frag: DataFrag<Seq<u8>>,
    reading: VersionReading,
    due: bool,
)
    requires
        conn.core.state is Online,
        buffer_bytes(whole) == data,
    ensures
        ({
            let expected = if conn.core.has_decoder {
                (
                    ConnectionView {
                        actions: conn.actions.push(Action::DecodePacket(data)),
                        ..conn
                    },
                    Ok::<(), ConnectionError>(()),
                )
            } else {
                (conn, Err::<(), _>(ConnectionError::PacketCodecDoesNotExist))
            };
            &&& conn.receiving(Frame::EncodedData(data), reading, due) == expected
            &&& conn.slice_added(FragmentMapResult::Complete(whole), true) == expected
            &&& conn.decrypted(Ok((data, true))) == expected
            &&& conn.receiving(Frame::EncodedDataFrag(frag), reading, due) == (
                ConnectionView {
                    actions: conn.actions.push(Action::AddFragment { frag, is_encoded: true }),
                    ..conn
                },
                Ok::<(), ConnectionError>(()),
            )
        }),
{
}

/// Plain data of the peer is delivered as it is, whichever way it came, and
/// the decoder does not see it. What does not begin like an IPv4 packet is not
/// delivered, and without an inside nothing is.
pub proof fn plain_data_is_delivered<AppState>(
    conn: ConnectionView<AppState>,
    data: Seq<u8>,
    whole: BytesMut,
    frag: DataFrag<Seq<u8>>,
    reading: VersionReading,
    due: bool,
)
    requires
        conn.core.state is Online,
        buffer_bytes(whole) == data,
    ensures
        ({
            let delivered = (
                ConnectionView {
                    actions: conn.actions.push(Action::DeliverInside(data)),
                    ..conn
                },
                Ok::<(), ConnectionError>(()),
            );
            let ipv4 = data.len() > 0 && 0x40 <= data[0] <= 0x4f;
            let expected = conn.receiving(Frame::Data(data), reading, due);
            &&& ipv4 && conn.core.has_inside_io ==> expected == delivered
            &&& ipv4 && !conn.core.has_inside_io ==> expected == (
                conn,
                Err::<(), _>(ConnectionError::InvalidInsideIo),
            )
            &&& !ipv4 ==> expected.0 == conn && expected.1 is Err
                && expected.1->Err_0 is InvalidInsidePacket
            &&& conn.slice_added(FragmentMapResult::Complete(whole), false) == expected
            &&& conn.decrypted(Ok((data, false))) == expected
            &&& conn.decoder_offered(data, Ok(CodecStatus::SkipPacket)) == expected
            &&& conn.receiving(Frame::DataFrag(frag), reading, due) == (
                ConnectionView {
                    actions: conn.actions.push(Action::AddFragment { frag, is_encoded: false }),
                    ..conn
                },
                Ok::<(), ConnectionError>(()),
            )
        }),
{
}

/// What the decoder keeps, what a cipher cannot read and what slices do not
/// add up to is not delivered, and a failure is told as what it is. Before the
/// connection is online no data of the peer is looked at.
pub proof fn unusable_data_is_not_delivered<AppState>(
    conn: ConnectionView<AppState>,
    data: Seq<u8>,
    frag: DataFrag<Seq<u8>>,
    reason: String,
    error: ExpresslaneError,
    reading: VersionReading,
    due: bool,
    is_encoded: bool,
)
    ensures
        conn.decoder_offered(data, Ok(CodecStatus::PacketAccepted)) == (
            conn,
            Ok::<(), ConnectionError>(()),
        ),
        conn.decoder_offered(data, Err(reason)) == (
            conn,
            Err::<(), _>(ConnectionError::PacketCodecError(reason)),
        ),
        conn.slice_added(FragmentMapResult::Incomplete, is_encoded) == (
            conn,
            Ok::<(), ConnectionError>(()),
        ),
        conn.slice_added(FragmentMapResult::Failed(reason), is_encoded) == (
            conn,
            Err::<(), _>(ConnectionError::DataFragmentError(reason)),
        ),
        conn.decrypted(Err(error)).0 == conn,
        conn.decrypted(Err(error)).1 matches Err(e) && e is WireError,
        conn.core.state !is Online ==> {
            let refused = (conn, Err::<(), _>(ConnectionError::InvalidState));
            &&& conn.receiving(Frame::Data(data), reading, due) == refused
            &&& conn.receiving(Frame::EncodedData(data), reading, due) == refused
            &&& conn.receiving(Frame::DataFrag(frag), reading, due) == refused
            &&& conn.receiving(Frame::EncodedDataFrag(frag), reading, due) == refused
        },
{
}

/// The frames that end a connection, or ask for nothing, change nothing: a
/// goodbye and a refusal come back as such, the others as success.
pub proof fn plain_frames_change_nothing<AppState>(
    conn: ConnectionView<AppState>,
    reading: VersionReading,
    due: bool,
)
    ensures
        conn.receiving(Frame::Goodbye, reading, due) == (
            conn,
            Err::<(), _>(ConnectionError::Goodbye),
        ),
        conn.receiving(Frame::AuthFailure, reading, due) == (
            conn,
            Err::<(), _>(ConnectionError::Unauthorized),
        ),
        conn.receiving(Frame::NoOp, reading, due) == (conn, Ok::<(), ConnectionError>(())),
        conn.receiving(Frame::ServerConfig, reading, due) == (conn, Ok::<(), ConnectionError>(())),
{
}

/// A datagram passes the check exactly if anything is left of it and, on a
/// server, its header names the version that is spoken and does not refuse a
/// session. A client takes whatever its server sends.
pub proof fn datagrams_have_their_conditions(core: Core, hdr: Option<Header>, has_payload: bool)
    ensures
        ({
            let r = core.packet_check(hdr, has_payload);
            let versioned = hdr matches Some(hdr) ==> hdr.version == core.tunnel_protocol_version;
            let rejects = hdr is Some && hdr->0.session.id == 0xffff_ffff_ffff_ffff;
            &&& r is Ok <==> has_payload && (core.mode is Client || (versioned && !rejects))
            &&& core.mode is Server && !versioned ==> r == Err::<(), _>(
                ConnectionError::InvalidProtocolVersion,
            )
            &&& core.mode is Server && versioned && rejects ==> r == Err::<(), _>(
                ConnectionError::RejectedSessionID,
            )
            &&& !has_payload ==> r is Err
        }),
{
}

/// An expresslane packet is decrypted in every state. Anything else goes to
/// the session: to negotiate while the connection is being set up, to read
/// frames until it ends, and to nothing after that.
pub proof fn payloads_go_where_the_state_says(core: Core, hdr: Option<Header>)
    ensures
        ({
            let step = core.outside_step(hdr);
            let express = hdr is Some && hdr->0.expresslane_data;
            &&& (step is Decrypt) == express
            &&& !express ==> (step is Negotiate) == (core.state is Connecting)
            &&& !express ==> (step is Refuse) == (core.state is Disconnecting || core.state
                is Disconnected)
        }),
{
}

/// A session that is negotiated links the connection up: a server waits for
/// its client, and a client asks to be let in with its credentials. As long as
/// it is not, no frame is read, and an error of the session is the error of
/// the step.
pub proof fn negotiation_links_up<AppState>(
    conn: ConnectionView<AppState>,
    polled: Result<tls::Poll<()>, tls::Error>,
)
    requires
        conn.core.state is Connecting,
    ensures
        ({
            let (after, r) = conn.negotiating(polled);
            match polled {
                Err(error) => after == conn && r == Err::<bool, _>(ConnectionError::Tls(error)),
                Ok(tls::Poll::Ready(_)) => {
                    &&& r == Ok::<bool, ConnectionError>(true)
                    &&& conn.core.mode is Server ==> after.core.state is LinkUp
                    &&& conn.core.mode is Client ==> after.core.state is Authenticating
                        && after.actions.last() == ActionView::Send {
                        frame: Frame::AuthRequest(conn.auth_method),
                        required: true,
                    }
                },
                Ok(poll) => {
                    &&& r == Ok::<bool, ConnectionError>(false)
                    &&& after.core == conn.core
                    &&& after.actions == (if poll is AppData {
                        conn.actions
                    } else {
                        conn.actions.push(ActionView::UpdateTickInterval)
                    })
                },
            }
        }),
{
}

/// What the session decrypts is kept behind what is there already, so that no
/// byte is lost or out of place, and there may be a frame in it; when the
/// session has nothing, there is not.
pub proof fn decrypted_bytes_queue_up<AppState>(
    conn: ConnectionView<AppState>,
    data: Bytes,
    error: tls::Error,
)
    ensures
        conn.reading(Ok(tls::Poll::AppData(data))).0.received == conn.received + shared_bytes(data),
        conn.reading(Ok(tls::Poll::AppData(data))).0.core == conn.core,
        conn.reading(Ok(tls::Poll::AppData(data))).1 == Ok::<bool, ConnectionError>(true),
        conn.reading(Ok(tls::Poll::Ready(()))) == (conn, Ok::<bool, ConnectionError>(true)),
        conn.reading(Ok(tls::Poll::PendingRead)) == (conn, Ok::<bool, ConnectionError>(false)),
        conn.reading(Ok(tls::Poll::PendingWrite)) == (conn, Ok::<bool, ConnectionError>(false)),
        conn.reading(Err(error)) == (conn, Err::<bool, _>(ConnectionError::Tls(error))),
{
}

/// A packet that the plugins let pass is handed to the inside and counts as
/// data of the peer; one that they do not is not, and counts as nothing.
pub proof fn plugins_decide_on_delivery<AppState>(
    conn: ConnectionView<AppState>,
    verdict: PluginResult,
    now: Instant,
)
    ensures
        ({
            let (after, r) = conn.egressing(verdict, now);
            &&& (r matches Ok(delivers) && delivers) <==> verdict is Accept
            &&& verdict is Accept ==> after.core.activity.last_data_traffic_from_peer == now
                && after.core.activity.last_data_delivered_to_inside == now
                && after.core.activity.last_outside_data_received
                == conn.core.activity.last_outside_data_received && after.actions == conn.actions
            &&& verdict !is Accept ==> after == conn
            &&& verdict is Drop ==> r is Ok
            &&& verdict matches PluginResult::DropWithReply(reply) ==> r == Err::<bool, _>(
                ConnectionError::PluginDropWithReply(reply),
            )
            &&& verdict matches PluginResult::Error(text) ==> r == Err::<bool, _>(
                ConnectionError::PluginError(text),
            )
        }),
{
}

/// A client hears of its first datagram, and only of that one.
pub proof fn first_datagram_is_announced_once<AppState>(conn: ConnectionView<AppState>)
    requires
        conn.core.state !is Disconnected,
    ensures
        ({
            let (after, r) = conn.arriving();
            &&& r is Ok && after.arriving().1 is Ok
            &&& after.arriving().0 == after
            &&& conn.core.mode is Server || conn.core.is_first_packet_received ==> after == conn
            &&& conn.core.mode is Client && !conn.core.is_first_packet_received ==> after.actions
                == conn.actions.push(Action::Event(Event::FirstPacketReceived))
        }),
{
}

/// Every frame is handled as what it is, with all that it says.
pub proof fn frames_reach_their_handlers<AppState>(
    conn: ConnectionView<AppState>,
    frame: FrameView,
    reading: VersionReading,
    due: bool,
)
    ensures
        ({
            let step = conn.receiving(frame, reading, due);
            match frame {
                Frame::Ping { id, payload } => step == conn.answering_ping(id),
                Frame::Pong { id, payload } => step == conn.pong_received(id, payload),
                Frame::AuthRequest(auth_method) => step == conn.auth_requested(auth_method),
                Frame::AuthSuccessWithConfigV4(cfg) => step == conn.auth_succeeded(cfg, due),
                Frame::EncodingRequest(request) => step == conn.encoding_requested(request),
                Frame::EncodingResponse(response) => step == conn.encoding_answered(response),
                Frame::ExpresslaneConfig(config) => step == conn.receiving_config(
                    config,
                    reading.negotiated,
                    reading.accepted,
                    due,
                ),
                _ => step.0.core == conn.core,
            }
        }),
{
}

} // verus!
