//! The queue of bytes that wait for the TLS session to take them.

use crate::buffers::{buffer_bytes, shared_slice};
use crate::connection::{Connection, ConnectionType, ConnectionView};
use crate::error::{ConnectionError, ConnectionResult};
use crate::net::{carries_tcp, ipv4_is_tcp};
use crate::tls;
use crate::wire::{Frame, FrameView, WireFrame};
use bytes::BytesMut;
use vstd::prelude::*;

verus! {

/// Maximum number of frames held in the pending send queue when the outside
/// I/O would block, over a stream and for frames that do not carry inner TCP
/// packets.
///
/// About 96 KiB at a 1500 byte MTU, on top of the socket send buffer. Enough
/// to absorb line-rate bursts while a saturating transfer ramps up without
/// tail-drop, small enough to drain quickly and avoid bufferbloat.
pub const MAX_TLS_PENDING_QUEUE_PACKETS: usize = 64;

/// How many frames may wait before a frame is dropped. Over a stream nothing
/// would send a lost frame again, unless it carries inner TCP; anything else
/// gets along with the one buffer that the session has begun to write.
pub open spec fn queue_limit(connection_type: ConnectionType, frame: FrameView) -> nat {
    if connection_type is Stream && !(frame matches Frame::Data(data) && carries_tcp(data)) {
        MAX_TLS_PENDING_QUEUE_PACKETS as nat
    } else {
        1
    }
}

impl<AppState> ConnectionView<AppState> {
    /// The connection with other bytes waiting.
    pub open spec fn with_queue(self, queue: Seq<Seq<u8>>) -> Self {
        ConnectionView { queue, ..self }
    }

    /// The connection with the bytes of one more frame waiting.
    pub open spec fn queued(self, encoded: Seq<u8>) -> Self {
        self.with_queue(self.queue.push(encoded))
    }

    /// The connection once the buffer at the front of the queue is taken off.
    pub open spec fn dequeued(self) -> Self {
        self.with_queue(self.queue.drop_first())
    }

    /// Whether a frame may wait behind those that wait already.
    pub open spec fn admits(self, frame: FrameView) -> bool {
        self.queue.len() < queue_limit(self.core.connection_type, frame)
    }

    /// The connection once the session has been offered the buffer that was
    /// taken off the front of the queue, and left `rest` of it.
    pub open spec fn written(self, rest: Seq<u8>, outcome: WriteOutcome) -> (
        Self,
        ConnectionResult<bool>,
    ) {
        match outcome {
            WriteOutcome::Failed(error) => (self, Err(ConnectionError::Tls(error))),
            WriteOutcome::Blocked => (self.with_queue(seq![rest] + self.queue), Ok(false)),
            WriteOutcome::Taken => if rest.len() > 0 {
                (self.with_queue(seq![rest] + self.queue), Ok(false))
            } else {
                (self, Ok(true))
            },
            WriteOutcome::Interrupted => (self, Ok(true)),
        }
    }
}

/// What came of offering a buffer to the session.
pub enum WriteOutcome {
    /// The session failed
    Failed(tls::Error),
    /// The transport has to do something first
    Blocked,
    /// The session took the front of the buffer, or all of it
    Taken,
    /// The session delivered data in place of taking any
    Interrupted,
}

/// The outcome that a poll of the session stands for.
pub open spec fn write_outcome(polled: Result<tls::Poll<()>, tls::Error>) -> WriteOutcome {
    match polled {
        Err(error) => WriteOutcome::Failed(error),
        Ok(tls::Poll::PendingWrite) => WriteOutcome::Blocked,
        Ok(tls::Poll::PendingRead) => WriteOutcome::Blocked,
        Ok(tls::Poll::Ready(_)) => WriteOutcome::Taken,
        Ok(tls::Poll::AppData(_)) => WriteOutcome::Interrupted,
    }
}

impl<AppState> Connection<AppState> {
    /// Whether a frame may wait behind those that wait already. One that may
    /// not is dropped.
    ///
    /// Sending a frame takes four steps: this one; where it says yes,
    /// [`Connection::enqueue`] with the bytes of the frame; and then
    /// [`Connection::next_pending`] and [`Connection::write_completed`] in
    /// turn, until there is nothing left or the session takes no more.
    pub fn queue_admits(&self, frame: &WireFrame) -> (admits: bool)
        ensures
            admits == self@.admits(frame@),
    {
        let limit: usize = match self.core.connection_type {
            ConnectionType::Stream => match frame {
                Frame::Data(data) => if ipv4_is_tcp(shared_slice(data)) {
                    1
                } else {
                    MAX_TLS_PENDING_QUEUE_PACKETS
                },
                _ => MAX_TLS_PENDING_QUEUE_PACKETS,
            },
            ConnectionType::Datagram => 1,
        };
        self.tls_pending_queue.len() < limit
    }

    /// Put the bytes of a frame at the end of the queue.
    pub fn enqueue(&mut self, encoded: BytesMut)
        ensures
            final(self)@ == old(self)@.queued(buffer_bytes(encoded)),
    {
        self.tls_pending_queue.push_back(encoded);
        assert(self@.queue =~= old(self)@.queue.push(buffer_bytes(encoded)));
    }

    /// Take the buffer at the front of the queue, to offer it to the session.
    pub fn next_pending(&mut self) -> (head: Option<BytesMut>)
        ensures
            match head {
                Some(head) => {
                    &&& old(self)@.queue.len() > 0
                    &&& buffer_bytes(head) == old(self)@.queue[0]
                    &&& final(self)@ == old(self)@.dequeued()
                },
                None => old(self)@.queue.len() == 0 && final(self)@ == old(self)@,
            },
    {
        let head = self.tls_pending_queue.pop_front();
        proof {
            if old(self)@.queue.len() > 0 {
                assert(self@.queue =~= old(self)@.queue.drop_first());
            } else {
                assert(self@.queue =~= old(self)@.queue);
            }
        }
        head
    }

    /// The session has been offered the buffer that was at the front of the
    /// queue, and `rest` is what it left of it. Returns whether the next one
    /// may be offered.
    pub fn write_completed(
        &mut self,
        rest: BytesMut,
        polled: Result<tls::Poll<()>, tls::Error>,
    ) -> (r: ConnectionResult<bool>)
        ensures
            (final(self)@, r) == old(self)@.written(buffer_bytes(rest), write_outcome(polled)),
    {
        let ghost bytes = buffer_bytes(rest);
        match polled {
            Err(error) => Err(ConnectionError::Tls(error)),
            Ok(tls::Poll::PendingWrite) | Ok(tls::Poll::PendingRead) => {
                // The session requires a blocked write to be retried with the
                // same buffer
                self.tls_pending_queue.push_front(rest);
                assert(self@.queue =~= seq![bytes] + old(self)@.queue);
                Ok(false)
            },
            Ok(tls::Poll::Ready(_)) => {
                // A write takes what it could write off the front of the
                // buffer; keep any remainder at the head.
                if !rest.is_empty() {
                    self.tls_pending_queue.push_front(rest);
                    assert(self@.queue =~= seq![bytes] + old(self)@.queue);
                    return Ok(false);
                }
                Ok(true)
            },
            Ok(tls::Poll::AppData(_)) => Ok(true),
        }
    }
}

/// A frame that is admitted never makes the queue longer than its limit.
pub proof fn queue_stays_bounded<AppState>(
    before: ConnectionView<AppState>,
    frame: FrameView,
    encoded: Seq<u8>,
)
    requires
        before.queue.len() <= MAX_TLS_PENDING_QUEUE_PACKETS,
        before.admits(frame),
    ensures
        before.with_queue(before.queue.push(encoded)).queue.len()
            <= MAX_TLS_PENDING_QUEUE_PACKETS,
{
}

/// Over datagrams at most one buffer ever waits.
pub proof fn datagrams_hold_one_buffer<AppState>(
    before: ConnectionView<AppState>,
    frame: FrameView,
    encoded: Seq<u8>,
)
    requires
        before.core.connection_type is Datagram,
        before.admits(frame),
    ensures
        before.with_queue(before.queue.push(encoded)).queue.len() == 1,
{
}

/// Offering the front of the queue to the session neither loses nor repeats
/// nor reorders a byte, and does not make the queue longer: what the session
/// took, followed by what is still queued, is what was queued before. This is
/// so unless the session fails or delivers data instead.
pub proof fn writes_keep_the_byte_stream<AppState>(
    before: ConnectionView<AppState>,
    taken: Seq<u8>,
    rest: Seq<u8>,
    outcome: WriteOutcome,
)
    requires
        before.queue.len() > 0,
        before.queue[0] == taken + rest,
        outcome is Blocked || outcome is Taken,
        outcome is Blocked ==> taken.len() == 0,
    ensures
        ({
            let popped = before.with_queue(before.queue.drop_first());
            let after = popped.written(rest, outcome).0;
            &&& before.queue.flatten() == taken + after.queue.flatten()
            &&& after.queue.len() <= before.queue.len()
        }),
{
    let others = before.queue.drop_first();
    assert(before.queue.flatten() == before.queue.first() + others.flatten());
    if outcome is Taken && rest.len() == 0 {
        assert(taken + rest =~= taken);
    } else {
        let kept = seq![rest] + others;
        assert(kept.drop_first() =~= others);
        assert(kept.flatten() == kept.first() + others.flatten());
        assert((taken + rest) + others.flatten() =~= taken + (rest + others.flatten()));
    }
}

/// How many frames may wait: over datagrams one, and over a stream 64, but one
/// for an inner packet of IPv4 that carries TCP, which is sent again anyway.
pub proof fn frames_wait_within_limits<AppState>(
    conn: ConnectionView<AppState>,
    frame: FrameView,
    data: Seq<u8>,
)
    ensures
        conn.core.connection_type is Datagram ==> conn.admits(frame) == (conn.queue.len() == 0),
        conn.core.connection_type is Stream && frame !is Data ==> conn.admits(frame) == (
        conn.queue.len() < 64),
        conn.core.connection_type is Stream && data.len() >= 20 && 0x40 <= data[0] <= 0x4f
            && data[9] == 6 ==> conn.admits(Frame::Data(data)) == (conn.queue.len() == 0),
        conn.core.connection_type is Stream && (data.len() < 20 || data[9] != 6) ==> conn.admits(
            Frame::Data(data),
        ) == (conn.queue.len() < 64),
{
}

/// The session is offered the next buffer only after it has taken all of this
/// one, and nothing is kept of a write that failed or was interrupted but what
/// waited behind it.
pub proof fn writes_go_on_after_whole_buffers<AppState>(
    conn: ConnectionView<AppState>,
    rest: Seq<u8>,
    error: tls::Error,
)
    ensures
        conn.written(rest, WriteOutcome::Blocked).0.queue == seq![rest] + conn.queue,
        conn.written(rest, WriteOutcome::Blocked).1 == Ok::<bool, ConnectionError>(false),
        conn.written(rest, WriteOutcome::Taken).1 == Ok::<bool, ConnectionError>(rest.len() == 0),
        conn.written(rest, WriteOutcome::Taken).0.queue == (if rest.len() == 0 {
            conn.queue
        } else {
            seq![rest] + conn.queue
        }),
        conn.written(rest, WriteOutcome::Interrupted) == (conn, Ok::<bool, ConnectionError>(true)),
        conn.written(rest, WriteOutcome::Failed(error)) == (
            conn,
            Err::<bool, _>(ConnectionError::Tls(error)),
        ),
        write_outcome(Ok(tls::Poll::PendingWrite)) is Blocked,
        write_outcome(Ok(tls::Poll::PendingRead)) is Blocked,
        write_outcome(Ok(tls::Poll::Ready(()))) is Taken,
{
}

/// Frames leave in the order in which they came: the bytes of a new one go
/// behind everything that waits, and what is taken off is what waited longest.
/// Nothing else changes.
pub proof fn frames_leave_in_order<AppState>(conn: ConnectionView<AppState>, encoded: Seq<u8>)
    ensures
        conn.queued(encoded).queue.flatten() == conn.queue.flatten() + encoded,
        conn.queued(encoded).queue.len() == conn.queue.len() + 1,
        conn.queued(encoded).actions == conn.actions,
        conn.queued(encoded).core == conn.core,
        conn.queue.len() > 0 ==> conn.queue[0] + conn.dequeued().queue.flatten()
            == conn.queue.flatten(),
        conn.queue.len() > 0 ==> conn.dequeued().core == conn.core,
        conn.queue.len() == 0 ==> conn.queued(encoded).dequeued().queue.len() == 0,
{
    conn.queue.lemma_flatten_push(encoded);
}

} // verus!
