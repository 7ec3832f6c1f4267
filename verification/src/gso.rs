//! GSO superpackets: aggregates of equal segments that the kernel hands over
//! as one packet, and that leave as one batch where the batch is not too big.

use crate::action::{Action, ActionView};
use crate::buffers::{buffer_bytes, buffer_slice};
use crate::connection::{Connection, ConnectionView, Core, State, Step};
use crate::error::{ConnectionError, ConnectionResult, InvalidPacketError};
use crate::net::ipv4_is_valid_packet;
use crate::outbound::CodecStatus;
use crate::wire::Frame;
use bytes::BytesMut;
use vstd::prelude::*;

verus! {

/// Most segments that one send may carry
pub const MAX_GSO_SEGS: usize = 64;

/// How a superpacket is sent.
#[derive(Clone, Copy, Debug, PartialEq, Eq, Structural)]
pub struct GsoPlan {
    /// Number of segments
    pub segments: usize,
    /// Whether the segments are collected and sent as one batch, rather than
    /// one datagram at a time
    pub batched: bool,
    /// Whether the segments go over the expresslane
    pub expresslane: bool,
}

/// What happens to the batch once its segments are through.
#[derive(Clone, Copy, Debug, PartialEq, Eq, Structural)]
pub struct GsoEnd {
    /// Whether the batch is sent
    pub flush: bool,
    /// Whether the buffer of the batch is cleared and closed
    pub reset: bool,
}

/// Whether a GSO superpacket of `gso_segs` segments fits in a single send. An
/// aggregate with more segments than one send may carry is put on the wire one
/// datagram per segment instead of being dropped.
pub fn gso_fits_one_batch(gso_segs: usize) -> (fits: bool)
    ensures
        fits == (gso_segs <= MAX_GSO_SEGS),
{
    gso_segs <= MAX_GSO_SEGS
}

/// How many segments of `gso_size` bytes follow the headers of a superpacket,
/// the last one perhaps shorter.
pub open spec fn segment_count(len: usize, hdr_len: usize, gso_size: u16) -> int {
    if len <= hdr_len {
        0
    } else {
        (len - hdr_len + gso_size - 1) / gso_size as int
    }
}

/// How many segments of `gso_size` bytes follow the headers of a superpacket.
pub fn calc_gso_segs(len: usize, hdr_len: usize, gso_size: u16) -> (segments: usize)
    requires
        gso_size > 0,
    ensures
        segments == segment_count(len, hdr_len, gso_size),
{
    if len <= hdr_len {
        return 0;
    }
    let payload: usize = len - hdr_len;
    let size: usize = gso_size as usize;
    let whole: usize = payload / size;
    proof {
        let p = payload as int;
        let s = size as int;
        assert(p == s * (p / s) + p % s) by (nonlinear_arith)
            requires
                s > 0,
        ;
        assert(0 <= p % s < s) by (nonlinear_arith)
            requires
                s > 0,
        ;
        assert(p % s == 0 ==> (p + s - 1) / s == p / s) by (nonlinear_arith)
            requires
                s > 0,
                p == s * (p / s) + p % s,
                0 <= p % s < s,
        ;
        assert(p % s > 0 ==> (p + s - 1) / s == p / s + 1) by (nonlinear_arith)
            requires
                s > 0,
                p == s * (p / s) + p % s,
                0 <= p % s < s,
        ;
        assert(s == 1 ==> p % s == 0) by (nonlinear_arith)
            requires
                s > 0,
                0 <= p % s < s,
        ;
        assert(s > 1 ==> p / s < p) by (nonlinear_arith)
            requires
                s > 0,
                p > 0,
                p == s * (p / s) + p % s,
                0 <= p % s < s,
        ;
    }
    if payload % size == 0 {
        whole
    } else {
        whole + 1
    }
}

/// The error for a superpacket that makes no sense.
pub open spec fn invalid_superpacket() -> ConnectionError {
    ConnectionError::InvalidInsidePacket(InvalidPacketError::InvalidGsoPacket)
}

impl Core {
    /// How a superpacket of `len` bytes is sent, if it has anything to send.
    /// It is refused when its headers cannot be read, when it declares empty
    /// segments, or when a segment with its headers exceeds the inside MTU.
    pub open spec fn gso_plan(
        self,
        len: usize,
        hdr_len: Option<usize>,
        gso_size: u16,
        mtu: usize,
    ) -> ConnectionResult<Option<GsoPlan>> {
        match hdr_len {
            None => Err(invalid_superpacket()),
            Some(hdr_len) => {
                let segments = segment_count(len, hdr_len, gso_size);
                if gso_size == 0 {
                    Err(invalid_superpacket())
                } else if segments == 0 {
                    Ok(None)
                } else if hdr_len + gso_size > mtu {
                    Err(invalid_superpacket())
                } else {
                    Ok(
                        Some(
                            GsoPlan {
                                segments: segments as usize,
                                batched: segments <= MAX_GSO_SEGS,
                                expresslane: self.spec_expresslane_ready(),
                            },
                        ),
                    )
                }
            },
        }
    }
}

/// Whether a superpacket is still to be sent once the encoder has been offered
/// it.
pub open spec fn left_by_encoder(stored: Result<CodecStatus, String>) -> ConnectionResult<bool> {
    match stored {
        Ok(status) => Ok(status is SkipPacket),
        Err(error) => Err(ConnectionError::PacketCodecError(error)),
    }
}

/// What happens to a batch once its segments are through, or one has failed.
pub open spec fn batch_end(plan: GsoPlan, all_sent: bool) -> GsoEnd {
    GsoEnd { flush: plan.batched && all_sent, reset: plan.batched }
}

impl<AppState> ConnectionView<AppState> {
    /// The connection once a superpacket has come from the inside.
    pub open spec fn superpacket_taken(self, pkt: Seq<u8>, due: bool) -> Step<AppState> {
        match self.inside_refusal(pkt, None) {
            Some(error) => (self, Err(error)),
            None => (self.rotating_key(due).0, Ok(())),
        }
    }

    /// The connection once it has sent one segment, or could not build it. A
    /// batch carries segments whole; outside of a batch a segment is treated
    /// like any other packet.
    pub open spec fn sending_segment(self, plan: GsoPlan, segment: Option<Seq<u8>>) -> Step<
        AppState,
    > {
        match segment {
            None => (self, Err(invalid_superpacket())),
            Some(segment) => if plan.batched {
                self.sending_data(segment, false)
            } else {
                self.sending_outside(segment, false)
            },
        }
    }
}

impl<AppState> Connection<AppState> {
    /// Process a GSO superpacket as a single packet through the pipeline.
    ///
    /// Unlike [`Connection::inside_data_received`], this skips the MTU check
    /// (the superpacket is intentionally oversized) and the limit on TCP
    /// segments (GSO packets are never SYN). The inside MTU binds the segments
    /// instead ([`Connection::send_to_outside_gso`]).
    pub fn inside_data_received_gso(&mut self, pkt: &BytesMut, due: bool) -> (r: ConnectionResult<
        (),
    >)
        ensures
            (final(self)@, r) == old(self)@.superpacket_taken(buffer_bytes(*pkt), due),
    {
        if matches!(self.core.state, State::Disconnected) {
            return Err(ConnectionError::Disconnected);
        }
        if !matches!(self.core.state, State::Online) {
            return Err(ConnectionError::InvalidState);
        }
        if !self.core.has_inside_io {
            return Err(ConnectionError::InvalidState);
        }
        if !ipv4_is_valid_packet(buffer_slice(pkt)) {
            return Err(
                ConnectionError::InvalidInsidePacket(
                    InvalidPacketError::for_non_ipv4(buffer_slice(pkt)),
                ),
            );
        }
        let _ = self.rotate_expresslane_key(due);
        Ok(())
    }

    /// The encoder has been offered a superpacket. Returns whether the packet
    /// is still to be sent.
    pub fn encoder_done_gso(stored: Result<CodecStatus, String>) -> (r: ConnectionResult<bool>)
        ensures
            r == left_by_encoder(stored),
    {
        match stored {
            Ok(CodecStatus::PacketAccepted) => Ok(false),
            Ok(CodecStatus::SkipPacket) => Ok(true),
            Err(error) => Err(ConnectionError::PacketCodecError(error)),
        }
    }

    /// Plan how a superpacket of `len` bytes is split into segments and sent.
    /// `hdr_len` is the length of its headers, if they could be read, and
    /// `gso_size` what the kernel declares as the size of a segment.
    ///
    /// The segments are then sent with [`Connection::send_gso_segment`] until
    /// one fails, and [`Connection::gso_done`] ends it.
    pub fn send_to_outside_gso(
        &self,
        len: usize,
        hdr_len: Option<usize>,
        gso_size: u16,
        mtu: usize,
    ) -> (r: ConnectionResult<Option<GsoPlan>>)
        ensures
            r == self.core.gso_plan(len, hdr_len, gso_size, mtu),
    {
        let hdr_len: usize = match hdr_len {
            Some(hdr_len) => hdr_len,
            None => return Err(
                ConnectionError::InvalidInsidePacket(InvalidPacketError::InvalidGsoPacket),
            ),
        };
        // A size of 0 would leave the number of segments undefined. Treat as
        // an invalid aggregate.
        if gso_size == 0 {
            return Err(ConnectionError::InvalidInsidePacket(InvalidPacketError::InvalidGsoPacket));
        }
        let segments = calc_gso_segs(len, hdr_len, gso_size);
        if segments == 0 {
            return Ok(None);
        }
        // Per-segment MTU guard: the kernel hands us GSO aggregates without
        // enforcing per-segment MTU. If anything upstream put a segment in
        // here larger than the tunnel can carry, drop the aggregate.

        if hdr_len > mtu || gso_size as usize > mtu - hdr_len {
            return Err(ConnectionError::InvalidInsidePacket(InvalidPacketError::InvalidGsoPacket));
        }
        Ok(
            Some(
                GsoPlan {
                    segments,
                    batched: gso_fits_one_batch(segments),
                    expresslane: self.core.expresslane_ready(),
                },
            ),
        )
    }

    /// Send one segment of a superpacket, `None` if it could not be built.
    /// After an error no further segment is sent.
    pub fn send_gso_segment(&mut self, plan: GsoPlan, segment: Option<&BytesMut>) -> (r:
        ConnectionResult<()>)
        requires
            !plan.batched ==> (segment matches Some(segment) ==> old(self).core.can_slice(
                buffer_bytes(*segment).len(),
            )),
        ensures
            (final(self)@, r) == old(self)@.sending_segment(
                plan,
                match segment {
                    Some(segment) => Some(buffer_bytes(*segment)),
                    None => None,
                },
            ),
    {
        let segment = match segment {
            Some(segment) => segment,
            None => {
                // Abort the whole batch: it requires uniform-stride segments,
                // so we can't ship a partial aggregate.
                return Err(
                    ConnectionError::InvalidInsidePacket(InvalidPacketError::InvalidGsoPacket),
                );
            },
        };
        if plan.batched {
            self.send_outside_data(segment, false)
        } else {
            self.send_to_outside(segment, false)
        }
    }

    /// The segments of a superpacket are through, or one of them failed. An
    /// incomplete batch is not sent. That packets are on their way says
    /// nothing of the peer, so the activity stays as it is.
    pub fn gso_done(plan: GsoPlan, all_sent: bool) -> (end: GsoEnd)
        ensures
            end == batch_end(plan, all_sent),
    {
        GsoEnd { flush: plan.batched && all_sent, reset: plan.batched }
    }
}

/// A superpacket is never dropped for having many segments: one more than a
/// send may carry, and everything above, is sent segment by segment.
pub proof fn large_superpackets_are_not_dropped(
    core: Core,
    len: usize,
    hdr_len: usize,
    gso_size: u16,
    mtu: usize,
)
    requires
        gso_size > 0,
        hdr_len + gso_size <= mtu,
        segment_count(len, hdr_len, gso_size) > MAX_GSO_SEGS,
    ensures
        core.gso_plan(len, Some(hdr_len), gso_size, mtu) matches Ok(Some(plan)) && !plan.batched
            && plan.segments == segment_count(len, hdr_len, gso_size),
{
    let p = len - hdr_len;
    let s = gso_size as int;
    assert((p + s - 1) / s <= p) by (nonlinear_arith)
        requires
            s >= 1,
            p >= 1,
    ;
}

impl<AppState> ConnectionView<AppState> {
    /// The connection once it has sent segments one after the other, until
    /// one of them failed.
    pub open spec fn sending_segments(self, plan: GsoPlan, segments: Seq<Seq<u8>>) -> Step<AppState>
        decreases segments.len(),
    {
        if segments.len() == 0 {
            (self, Ok(()))
        } else {
            let (before, r) = self.sending_segments(plan, segments.drop_last());
            if r is Ok {
                before.sending_segment(plan, Some(segments.last()))
            } else {
                (before, r)
            }
        }
    }

    /// What carries a segment of a batch.
    pub open spec fn segment_carrier(self, segment: Seq<u8>) -> ActionView {
        if self.core.spec_expresslane_ready() {
            Action::SendExpresslane {
                session_id: self.core.spec_outgoing_session(),
                data: segment,
                is_encoded: false,
            }
        } else {
            Action::Send { frame: Frame::Data(segment), required: true }
        }
    }
}

/// The segments of a batch leave in order, each of them once and whole, all
/// over the same path, and nothing else changes.
pub proof fn batches_leave_in_order<AppState>(
    c: ConnectionView<AppState>,
    plan: GsoPlan,
    segments: Seq<Seq<u8>>,
)
    requires
        plan.batched,
        forall|i: int|
            0 <= i < segments.len() ==> (#[trigger] segments[i]).len() <= c.core.max_data_size,
    ensures
        c.sending_segments(plan, segments) == (
            ConnectionView {
                actions: c.actions + segments.map_values(
                    |segment: Seq<u8>| c.segment_carrier(segment),
                ),
                ..c
            },
            Ok::<(), ConnectionError>(()),
        ),
    decreases segments.len(),
{
    let carried = segments.map_values(|segment: Seq<u8>| c.segment_carrier(segment));
    if segments.len() == 0 {
        assert(c.actions + carried =~= c.actions);
    } else {
        let earlier = segments.drop_last();
        assert forall|i: int| 0 <= i < earlier.len() implies (#[trigger] earlier[i]).len()
            <= c.core.max_data_size by {
            assert(earlier[i] == segments[i]);
        }
        batches_leave_in_order(c, plan, earlier);
        let before = earlier.map_values(|segment: Seq<u8>| c.segment_carrier(segment));
        assert(segments[segments.len() - 1].len() <= c.core.max_data_size);
        assert(c.actions + carried =~= (c.actions + before).push(
            c.segment_carrier(segments.last()),
        ));
    }
}

/// The segments that a plan covers hold exactly the payload of the
/// superpacket: all but the last are full and the last is not empty.
pub proof fn segments_cover_the_payload(len: usize, hdr_len: usize, gso_size: u16)
    requires
        gso_size > 0,
        len > hdr_len,
    ensures
        ({
            let segments = segment_count(len, hdr_len, gso_size);
            (segments - 1) * gso_size < len - hdr_len <= segments * gso_size
        }),
{
    let p = len - hdr_len;
    let s = gso_size as int;
    let n = segment_count(len, hdr_len, gso_size);
    assert((n - 1) * s < p <= n * s) by (nonlinear_arith)
        requires
            s >= 1,
            p >= 1,
            n == (p + s - 1) / s,
    ;
}

/// A superpacket is planned exactly if its headers could be read, its segments
/// are not empty and, with the headers in front of them, fit the inside MTU.
/// Then all of its payload is covered: all segments but the last are full. Up
/// to 64 of them leave as one batch. What has no payload leaves not at all,
/// and without an error.
pub proof fn superpackets_have_their_conditions(
    core: Core,
    len: usize,
    hdr_len: Option<usize>,
    gso_size: u16,
    mtu: usize,
)
    ensures
        ({
            let r = core.gso_plan(len, hdr_len, gso_size, mtu);
            let readable = hdr_len is Some && gso_size > 0;
            let payload = len - hdr_len->0;
            &&& !readable ==> r is Err
            &&& readable && payload <= 0 ==> r == Ok::<Option<GsoPlan>, ConnectionError>(None)
            &&& readable && payload > 0 && hdr_len->0 + gso_size > mtu ==> r is Err
            &&& r matches Err(error) ==> error == ConnectionError::InvalidInsidePacket(
                InvalidPacketError::InvalidGsoPacket,
            )
            &&& readable && payload > 0 && hdr_len->0 + gso_size <= mtu ==> {
                &&& r matches Ok(Some(plan))
                &&& (plan.segments - 1) * gso_size < payload <= plan.segments * gso_size
                &&& plan.batched == (plan.segments <= 64)
                &&& plan.expresslane == core.spec_expresslane_ready()
            }
        }),
{
    if hdr_len is Some && gso_size > 0 && len > hdr_len->0 {
        let h = hdr_len->0;
        segments_cover_the_payload(len, h, gso_size);
        let p = len - h;
        let s = gso_size as int;
        assert(0 < (p + s - 1) / s <= p) by (nonlinear_arith)
            requires
                s >= 1,
                p >= 1,
        ;
    }
}

/// A segment in a batch leaves like a packet that one frame can carry, one
/// outside of a batch like any packet, and one that could not be built not at
/// all. Segments are never marked as encoded.
pub proof fn segments_leave_like_packets<AppState>(
    conn: ConnectionView<AppState>,
    plan: GsoPlan,
    segment: Seq<u8>,
)
    ensures
        plan.batched ==> conn.sending_segment(plan, Some(segment)) == conn.sending_data(
            segment,
            false,
        ),
        !plan.batched ==> conn.sending_segment(plan, Some(segment)) == conn.sending_outside(
            segment,
            false,
        ),
        conn.sending_segment(plan, None) == (
            conn,
            Err::<(), _>(
                ConnectionError::InvalidInsidePacket(InvalidPacketError::InvalidGsoPacket),
            ),
        ),
{
}

/// A superpacket is taken like any packet of the inside, but for its length,
/// which does not matter: it is refused for the state or for what it is, and
/// when it is taken a key that is due is shared with it.
pub proof fn superpackets_are_taken_at_any_length<AppState>(
    conn: ConnectionView<AppState>,
    pkt: Seq<u8>,
    due: bool,
)
    ensures
        ({
            let (after, r) = conn.superpacket_taken(pkt, due);
            let shares = due && conn.core.spec_expresslane_supported()
                && conn.core.expresslane.state !is Degraded;
            &&& r is Ok <==> conn.core.state is Online && conn.core.has_inside_io && pkt.len() > 0
                && 0x40 <= pkt[0] <= 0x4f
            &&& r is Err ==> after == conn
            &&& conn.core.state is Disconnected ==> r == Err::<(), _>(ConnectionError::Disconnected)
            &&& after.core == conn.core
            &&& r is Ok ==> after.actions == (if shares {
                conn.actions.push(ActionView::ShareExpresslaneKey)
            } else {
                conn.actions
            })
        }),
{
}

/// What the encoder takes is not sent as well. A batch is sent only complete,
/// and closed in any case; without a batch there is nothing to send or close.
pub proof fn batches_are_sent_complete(
    stored: Result<CodecStatus, String>,
    plan: GsoPlan,
    all_sent: bool,
)
    ensures
        left_by_encoder(stored) == Ok::<bool, ConnectionError>(true) <==> stored == Ok::<
            CodecStatus,
            String,
        >(CodecStatus::SkipPacket),
        left_by_encoder(stored) == Ok::<bool, ConnectionError>(false) <==> stored == Ok::<
            CodecStatus,
            String,
        >(CodecStatus::PacketAccepted),
        stored matches Err(reason) ==> left_by_encoder(stored) == Err::<bool, _>(
            ConnectionError::PacketCodecError(reason),
        ),
        batch_end(plan, all_sent).flush ==> all_sent && plan.batched,
        plan.batched && all_sent ==> batch_end(plan, all_sent).flush,
        batch_end(plan, all_sent).reset == plan.batched,
{
}

} // verus!
