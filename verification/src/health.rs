//! The watch over the expresslane: two peers compare how many packets one
//! sent with how many the other received. A window that loses more than half
//! is a strike, a good window takes one strike back, and with too many strikes
//! in one direction the expresslane is given up. So it is where counters are
//! missing too often in a row.

use crate::action::{Action, StatsUse};
use crate::buffers::{be_value, get_u64};
use crate::connection::{Connection, ConnectionView, Core};
use crate::expresslane::{
    Expresslane, EXPRESSLANE_DEGRADE_STRIKES, EXPRESSLANE_MISSING_STATS_LIMIT,
};
use vstd::prelude::*;

verus! {

/// Fewer packets than this in a window say nothing about loss
pub const MIN_PACKETS_FOR_LOSS_CHECK: u64 = 10;

/// Number of bytes that the two counters of a peer take up
pub const PEER_COUNTERS_SIZE: usize = 16;

/// The distance between neighbouring double-precision numbers from the
/// largest power of two not above `x` on, for `x` below 2^64: one up to 2^53,
/// and twice as much with every further bit.
pub open spec fn double_spacing(x: u64) -> u64 {
    if x < 0x20_0000_0000_0000 {
        1
    } else if x < 0x40_0000_0000_0000 {
        2
    } else if x < 0x80_0000_0000_0000 {
        4
    } else if x < 0x100_0000_0000_0000 {
        8
    } else if x < 0x200_0000_0000_0000 {
        16
    } else if x < 0x400_0000_0000_0000 {
        32
    } else if x < 0x800_0000_0000_0000 {
        64
    } else if x < 0x1000_0000_0000_0000 {
        128
    } else if x < 0x2000_0000_0000_0000 {
        256
    } else if x < 0x4000_0000_0000_0000 {
        512
    } else if x < 0x8000_0000_0000_0000 {
        1024
    } else {
        2048
    }
}

/// The double-precision number nearest to `x`; of two that are equally near,
/// the one with the even significand.
pub open spec fn nearest_double(x: u64) -> int {
    let unit = double_spacing(x) as int;
    let below = x as int / unit;
    let rest = x as int % unit;
    if 2 * rest < unit || (2 * rest == unit && below % 2 == 0) {
        below * unit
    } else {
        (below + 1) * unit
    }
}

/// Whether the quotient of two counts exceeds one half, when both counts and
/// the quotient are taken in double precision. The next such number above one
/// half is 2^-53 away, so the quotient has to lie above the middle between
/// the two: at the middle it is rounded down to one half.
pub open spec fn quotient_exceeds_half(part: u64, whole: u64) -> bool {
    nearest_double(part) * 0x40_0000_0000_0000 > nearest_double(whole) * 0x20_0000_0000_0001
}

/// How many of `sent` packets did not arrive.
pub open spec fn lost(sent: u64, received: u64) -> u64 {
    if sent >= received {
        (sent - received) as u64
    } else {
        0
    }
}

/// Whether a window lost more than half of its packets, and had enough of
/// them to tell.
pub open spec fn packet_drops(sent: u64, received: u64) -> bool {
    sent >= MIN_PACKETS_FOR_LOSS_CHECK && quotient_exceeds_half(lost(sent, received), sent)
}

/// What one window does to the strikes of a direction: a bad window adds a
/// strike and a good one takes one back, within the range of the counter. The
/// second value tells whether a bad window brought enough strikes together.
pub open spec fn strikes_after(strikes: u8, sent: u64, received: u64) -> (u8, bool) {
    if !packet_drops(sent, received) {
        (
            if strikes > 0 {
                (strikes - 1) as u8
            } else {
                0
            },
            false,
        )
    } else {
        let more = if strikes < 255 {
            (strikes + 1) as u8
        } else {
            255
        };
        (more, more >= EXPRESSLANE_DEGRADE_STRIKES)
    }
}

/// How far a counter that starts over after its last value has moved.
pub open spec fn counter_delta(now: u64, before: u64) -> u64 {
    if now >= before {
        (now - before) as u64
    } else {
        (now - before + 0x1_0000_0000_0000_0000) as u64
    }
}

/// One more, up to the largest value.
pub open spec fn one_more(count: u8) -> u8 {
    if count < 255 {
        (count + 1) as u8
    } else {
        255
    }
}

impl<AppState> ConnectionView<AppState> {
    /// The connection once a health check starts with what the peer reported.
    pub open spec fn checking_health(self, payload: Seq<u8>) -> Self {
        let expresslane = self.core.expresslane;
        if !self.core.spec_expresslane_ready() {
            self
        } else if payload.len() != PEER_COUNTERS_SIZE {
            let missing = one_more(expresslane.missing_peer_reports);
            let counted = self.with_expresslane(
                Expresslane { missing_peer_reports: missing, ..expresslane },
            );
            if missing >= EXPRESSLANE_MISSING_STATS_LIMIT {
                counted.degraded()
            } else {
                counted
            }
        } else {
            self.with_expresslane(Expresslane { missing_peer_reports: 0, ..expresslane }).emit(
                Action::ReadStats {
                    session_id: self.core.session_id,
                    purpose: StatsUse::Health {
                        peer_sent: be_value(payload.subrange(0, 8)),
                        peer_recv: be_value(payload.subrange(8, 16)),
                    },
                },
            )
        }
    }

    /// The connection once it knows that its own counters cannot be read.
    pub open spec fn without_reading(self) -> Self {
        let expresslane = self.core.expresslane;
        let missing = one_more(expresslane.missing_local_readings);
        let counted = self.with_expresslane(
            Expresslane { missing_local_readings: missing, ..expresslane },
        );
        if missing >= EXPRESSLANE_MISSING_STATS_LIMIT {
            counted.degraded()
        } else {
            counted
        }
    }

    /// The connection once it has compared the counters of both sides: the
    /// direction from the peer first, and the other one only if the first has
    /// not already settled the matter.
    pub open spec fn comparing(
        self,
        peer_sent: u64,
        peer_recv: u64,
        sent: u64,
        recv: u64,
    ) -> Self {
        let before = self.core.expresslane;
        let (inbound, inbound_bad) = strikes_after(
            before.inbound_strikes,
            counter_delta(peer_sent, before.prev_peer_sent),
            counter_delta(recv, before.last_snapshot_recv),
        );
        let (outbound, outbound_bad) = strikes_after(
            before.outbound_strikes,
            counter_delta(sent, before.last_snapshot_sent),
            counter_delta(peer_recv, before.prev_peer_recv),
        );
        let after = self.with_expresslane(
            Expresslane {
                missing_local_readings: 0,
                prev_peer_sent: peer_sent,
                prev_peer_recv: peer_recv,
                last_snapshot_sent: sent,
                last_snapshot_recv: recv,
                inbound_strikes: inbound,
                outbound_strikes: if inbound_bad {
                    before.outbound_strikes
                } else {
                    outbound
                },
                ..before
            },
        );
        if inbound_bad || outbound_bad {
            after.degraded()
        } else {
            after
        }
    }

    /// The connection once a health check has read the counters of this side.
    pub open spec fn health_checked(
        self,
        peer_sent: u64,
        peer_recv: u64,
        stats: Option<(u64, u64)>,
    ) -> Self {
        match stats {
            None => self.without_reading(),
            Some((sent, recv)) => self.comparing(peer_sent, peer_recv, sent, recv),
        }
    }
}

/// The distance between neighbouring double-precision numbers around `x`.
fn spacing_of_doubles(x: u64) -> (unit: u64)
    ensures
        unit == double_spacing(x),
        1 <= unit <= 2048,
{
    if x < 0x20_0000_0000_0000 {
        1
    } else if x < 0x40_0000_0000_0000 {
        2
    } else if x < 0x80_0000_0000_0000 {
        4
    } else if x < 0x100_0000_0000_0000 {
        8
    } else if x < 0x200_0000_0000_0000 {
        16
    } else if x < 0x400_0000_0000_0000 {
        32
    } else if x < 0x800_0000_0000_0000 {
        64
    } else if x < 0x1000_0000_0000_0000 {
        128
    } else if x < 0x2000_0000_0000_0000 {
        256
    } else if x < 0x4000_0000_0000_0000 {
        512
    } else if x < 0x8000_0000_0000_0000 {
        1024
    } else {
        2048
    }
}

/// `x` in double precision.
fn to_double(x: u64) -> (value: u128)
    ensures
        value == nearest_double(x),
        value <= 0x1_0000_0000_0000_0000,
{
    let unit = spacing_of_doubles(x);
    let below: u64 = x / unit;
    let rest: u64 = x % unit;
    proof {
        assert(below * unit + rest == x) by (nonlinear_arith)
            requires
                unit > 0,
                below == x as int / unit as int,
                rest == x as int % unit as int,
        ;
        assert(below * unit <= x);
        assert((below + 1) * unit == below * unit + unit) by (nonlinear_arith);
        assert(below + 1 <= 0x20_0000_0000_0000 || unit == 1) by (nonlinear_arith)
            requires
                below * unit <= x,
                unit == double_spacing(x),
        ;
        assert((below + 1) * unit <= 0x1_0000_0000_0000_0000) by (nonlinear_arith)
            requires
                below + 1 <= 0x20_0000_0000_0000 || unit == 1,
                unit <= 2048,
                below <= 0xffff_ffff_ffff_ffff,
        ;
    }
    if 2 * rest < unit || (2 * rest == unit && below % 2 == 0) {
        below as u128 * unit as u128
    } else {
        (below as u128 + 1) * unit as u128
    }
}

impl<AppState> Connection<AppState> {
    /// Check if packet drops exceed threshold
    /// Returns true if drops detected (sent >= min packets and loss ratio
    /// above one half)
    pub fn has_packet_drops(sent: u64, received: u64) -> (drops: bool)
        ensures
            drops == packet_drops(sent, received),
    {
        if sent < MIN_PACKETS_FOR_LOSS_CHECK {
            return false;
        }
        let packet_loss = sent.saturating_sub(received);
        to_double(packet_loss) * 0x40_0000_0000_0000 > to_double(sent) * 0x20_0000_0000_0001
    }

    /// Fold one keepalive window into a direction's strike counter, as a
    /// leaky bucket: a bad window adds one, a good window drains one.
    /// Draining rather than clearing is what stops an attacker from
    /// resetting the count with one clean window between drop bursts.
    /// Returns the updated count and whether it now warrants degrading.
    pub fn advance_strikes(strikes: u8, sent: u64, received: u64) -> (r: (u8, bool))
        ensures
            r == strikes_after(strikes, sent, received),
    {
        if !Self::has_packet_drops(sent, received) {
            return (strikes.saturating_sub(1), false);
        }
        let strikes = strikes.saturating_add(1);
        (strikes, strikes >= EXPRESSLANE_DEGRADE_STRIKES)
    }

    /// Check expresslane health from keepalive pong payload
    ///  and disable if packet drops detected
    pub(crate) fn check_expresslane_health(&mut self, payload: &[u8])
        ensures
            final(self)@ == old(self)@.checking_health(payload@),
    {
        if !self.core.expresslane_ready() {
            return;
        }
        // An empty payload while we are ready means the peer had no stats reading
        // this window. Tolerated briefly; a peer that has stopped observing its
        // own health cannot be trusted to detect a dead path, so degrade.

        if payload.len() != PEER_COUNTERS_SIZE {
            let missing = self.core.expresslane.missing_peer_reports.saturating_add(1);
            self.core.expresslane.missing_peer_reports = missing;
            if missing >= EXPRESSLANE_MISSING_STATS_LIMIT {
                self.set_expresslane_degraded();
            }
            return;
        }
        self.core.expresslane.missing_peer_reports = 0;
        let mut rest: &[u8] = payload;
        let peer_sent = get_u64(&mut rest);
        assert(rest@.subrange(0, 8) =~= payload@.subrange(8, 16));
        let peer_recv = get_u64(&mut rest);
        let session_id = self.core.session_id;
        self.emit(
            Action::ReadStats {
                session_id,
                purpose: StatsUse::Health { peer_sent, peer_recv },
            },
        );
    }

    /// The counters of this side are read, or could not be read.
    pub(crate) fn complete_health_check(
        &mut self,
        peer_sent: u64,
        peer_recv: u64,
        stats: Option<(u64, u64)>,
    )
        ensures
            final(self)@ == old(self)@.health_checked(peer_sent, peer_recv, stats),
    {
        // A failed reading skips the window: committing anything here would poison
        // the next window's deltas. Tolerated briefly, then fail safe - a
        // connection that cannot observe its own health must not keep flying blind.
        let (sent, recv) = match stats {
            Some(counters) => counters,
            None => {
                let missing = self.core.expresslane.missing_local_readings.saturating_add(1);
                self.core.expresslane.missing_local_readings = missing;
                if missing >= EXPRESSLANE_MISSING_STATS_LIMIT {
                    self.set_expresslane_degraded();
                }
                return;
            },
        };
        self.compare_counters(peer_sent, peer_recv, sent, recv);
    }

    /// Compare the counters of both sides with those of the last check.
    fn compare_counters(&mut self, peer_sent: u64, peer_recv: u64, sent: u64, recv: u64)
        ensures
            final(self)@ == old(self)@.comparing(peer_sent, peer_recv, sent, recv),
    {
        // Cumulative counters never decrease, unless a provider of them starts
        // over. The wrapped difference then reads as loss, so a reset that
        // persists degrades to DTLS as a safe default.
        let before = self.core.expresslane;
        let my_sent_delta = sent.wrapping_sub(before.last_snapshot_sent);
        let my_recv_delta = recv.wrapping_sub(before.last_snapshot_recv);
        let peer_sent_delta = peer_sent.wrapping_sub(before.prev_peer_sent);
        let peer_recv_delta = peer_recv.wrapping_sub(before.prev_peer_recv);
        // Inbound packet drops
        let (inbound_strikes, inbound_bad) = Self::advance_strikes(
            before.inbound_strikes,
            peer_sent_delta,
            my_recv_delta,
        );
        // Outbound packet drops
        let (outbound_strikes, outbound_bad) = if inbound_bad {
            (before.outbound_strikes, false)
        } else {
            Self::advance_strikes(before.outbound_strikes, my_sent_delta, peer_recv_delta)
        };
        // Update snapshots
        self.core.expresslane = Expresslane {
            missing_local_readings: 0,
            prev_peer_sent: peer_sent,
            prev_peer_recv: peer_recv,
            last_snapshot_sent: sent,
            last_snapshot_recv: recv,
            inbound_strikes,
            outbound_strikes,
            ..before
        };
        if inbound_bad || outbound_bad {
            self.set_expresslane_degraded();
        }
    }
}

/// As long as counts stay below 2^53, a window counts as bad exactly when it
/// had enough packets and lost more than half of them.
pub proof fn loss_is_exact_for_ordinary_counts(sent: u64, received: u64)
    requires
        sent < 0x20_0000_0000_0000,
    ensures
        packet_drops(sent, received) == (sent >= MIN_PACKETS_FOR_LOSS_CHECK && 2 * lost(
            sent,
            received,
        ) > sent),
{
    small_numbers_are_doubles(lost(sent, received));
    small_numbers_are_doubles(sent);
}

/// Numbers below 2^53 are doubles themselves.
proof fn small_numbers_are_doubles(x: u64)
    requires
        x < 0x20_0000_0000_0000,
    ensures
        nearest_double(x) == x,
{
    let unit = double_spacing(x) as int;
    let n = x as int;
    assert(n / unit == n && n % unit == 0 && n * unit == n) by (nonlinear_arith)
        requires
            unit == 1,
    ;
}

/// A window in which everything arrived is never bad, and one without
/// packets is not either.
pub proof fn complete_windows_are_good(sent: u64, received: u64)
    requires
        received >= sent || sent < MIN_PACKETS_FOR_LOSS_CHECK,
    ensures
        !packet_drops(sent, received),
{
    if received >= sent {
        small_numbers_are_doubles(0);
        nearest_double_is_positive(sent);
    }
}

/// Rounding keeps a number that is not zero above zero.
proof fn nearest_double_is_positive(x: u64)
    ensures
        x > 0 ==> nearest_double(x) > 0,
        nearest_double(x) >= 0,
{
    let unit = double_spacing(x) as int;
    let below = x as int / unit;
    assert(below >= 1 || x == 0) by (nonlinear_arith)
        requires
            below == x as int / unit,
            1 <= unit,
            unit <= x || unit == 1,
    ;
    assert(below * unit >= 1 || below < 1) by (nonlinear_arith)
        requires
            unit >= 1,
    ;
    assert((below + 1) * unit >= 1 || below < 0) by (nonlinear_arith)
        requires
            unit >= 1,
    ;
    assert(below >= 0 && below * unit >= 0) by (nonlinear_arith)
        requires
            below == x as int / unit,
            unit >= 1,
    ;
}

/// The strikes of a direction after a row of windows, each given by what was
/// sent and what arrived.
pub open spec fn strikes_over(strikes: u8, windows: Seq<(u64, u64)>) -> u8
    decreases windows.len(),
{
    if windows.len() == 0 {
        strikes
    } else {
        let (sent, received) = windows.last();
        strikes_after(strikes_over(strikes, windows.drop_last()), sent, received).0
    }
}

/// Whether one of the windows brought enough strikes together to give the
/// expresslane up.
pub open spec fn degrades_within(strikes: u8, windows: Seq<(u64, u64)>) -> bool
    decreases windows.len(),
{
    if windows.len() == 0 {
        false
    } else {
        let (sent, received) = windows.last();
        degrades_within(strikes, windows.drop_last()) || strikes_after(
            strikes_over(strikes, windows.drop_last()),
            sent,
            received,
        ).1
    }
}

/// How many more bad windows than good ones there are.
pub open spec fn bad_surplus(windows: Seq<(u64, u64)>) -> int
    decreases windows.len(),
{
    if windows.len() == 0 {
        0
    } else {
        bad_surplus(windows.drop_last()) + (if packet_drops(windows.last().0, windows.last().1) {
            1int
        } else {
            -1int
        })
    }
}

/// Good windows between bursts of loss do not help: as soon as there were
/// more bad windows than good ones by the number of strikes that a direction
/// may collect, the expresslane has been given up, in whatever order the
/// windows came.
pub proof fn pulsed_drops_degrade(strikes: u8, windows: Seq<(u64, u64)>)
    requires
        bad_surplus(windows) >= EXPRESSLANE_DEGRADE_STRIKES,
    ensures
        degrades_within(strikes, windows),
{
    strikes_cover_surplus(strikes, windows);
}

/// As long as no window gives the expresslane up, the strikes are no fewer
/// than the surplus of bad windows.
proof fn strikes_cover_surplus(strikes: u8, windows: Seq<(u64, u64)>)
    ensures
        degrades_within(strikes, windows) || bad_surplus(windows) <= 0 || (bad_surplus(windows)
            <= strikes_over(strikes, windows) < EXPRESSLANE_DEGRADE_STRIKES),
        degrades_within(strikes, windows) || bad_surplus(windows) <= strikes_over(strikes, windows),
    decreases windows.len(),
{
    if windows.len() > 0 {
        strikes_cover_surplus(strikes, windows.drop_last());
    }
}

/// Bad windows in a row give the expresslane up with the last strike that a
/// direction may collect, and not before.
pub proof fn consecutive_bad_windows_degrade(windows: Seq<(u64, u64)>)
    requires
        forall|i: int|
            0 <= i < windows.len() ==> packet_drops(
                (#[trigger] windows[i]).0,
                windows[i].1,
            ),
        windows.len() <= 255,
    ensures
        strikes_over(0, windows) == windows.len(),
        degrades_within(0, windows) == (windows.len() >= EXPRESSLANE_DEGRADE_STRIKES),
    decreases windows.len(),
{
    if windows.len() > 0 {
        let earlier = windows.drop_last();
        assert forall|i: int| 0 <= i < earlier.len() implies packet_drops(
            (#[trigger] earlier[i]).0,
            earlier[i].1,
        ) by {
            assert(earlier[i] == windows[i]);
        }
        consecutive_bad_windows_degrade(earlier);
        assert(packet_drops(windows[windows.len() - 1].0, windows[windows.len() - 1].1));
    }
}

/// One window moves the strikes by at most one.
pub proof fn strikes_move_by_one(strikes: u8, sent: u64, received: u64)
    ensures
        -1 <= strikes_after(strikes, sent, received).0 - strikes <= 1,
        strikes_after(strikes, sent, received).1 ==> packet_drops(sent, received),
{
}

/// A peer that keeps silent about its counters loses the expresslane after a
/// fixed number of keepalives in a row, and not before.
pub proof fn silent_peers_degrade<AppState>(conn: ConnectionView<AppState>, payload: Seq<u8>)
    requires
        conn.core.spec_expresslane_ready(),
        payload.len() != PEER_COUNTERS_SIZE,
    ensures
        (conn.checking_health(payload).core.expresslane.state is Degraded) == (
        conn.core.expresslane.missing_peer_reports + 1 >= EXPRESSLANE_MISSING_STATS_LIMIT),
{
}

/// After every check with a reading, the counters remembered for the next
/// window are those of this check, on both sides, and the reading ends a row
/// of missing ones. Nothing but the expresslane and the requests that come
/// with giving it up changes.
pub proof fn checks_remember_their_counters<AppState>(
    conn: ConnectionView<AppState>,
    peer_sent: u64,
    peer_recv: u64,
    sent: u64,
    recv: u64,
)
    ensures
        ({
            let after = conn.health_checked(peer_sent, peer_recv, Some((sent, recv)));
            let lane = after.core.expresslane;
            &&& lane.prev_peer_sent == peer_sent
            &&& lane.prev_peer_recv == peer_recv
            &&& lane.last_snapshot_sent == sent
            &&& lane.last_snapshot_recv == recv
            &&& lane.missing_local_readings == 0
            &&& after.core == (Core { expresslane: lane, ..conn.core })
            &&& after.actions.take(conn.actions.len() as int) == conn.actions
        }),
{
    let after = conn.health_checked(peer_sent, peer_recv, Some((sent, recv)));
    assert(after.actions.take(conn.actions.len() as int) =~= conn.actions);
}

/// A window in which nothing arrives of ten packets or more is bad, however
/// many they are.
proof fn total_loss_is_bad(sent: u64)
    requires
        sent >= 10,
    ensures
        packet_drops(sent, 0),
{
    nearest_double_is_positive(sent);
    let d = nearest_double(sent);
    assert(d * 0x40_0000_0000_0000 > d * 0x20_0000_0000_0001) by (nonlinear_arith)
        requires
            d > 0,
    ;
}

/// What a check does to a connection whose direction from the peer is dead.
proof fn dead_inbound_window<AppState>(
    conn: ConnectionView<AppState>,
    peer_sent: u64,
    peer_recv: u64,
    sent: u64,
    recv: u64,
)
    requires
        conn.core.expresslane.prev_peer_sent + 10 <= peer_sent,
        conn.core.expresslane.last_snapshot_recv == recv,
    ensures
        ({
            let before = conn.core.expresslane;
            let after = conn.comparing(peer_sent, peer_recv, sent, recv).core.expresslane;
            &&& before.inbound_strikes < 255 ==> after.inbound_strikes == before.inbound_strikes + 1
            &&& before.inbound_strikes >= 2 ==> after.state is Degraded
            &&& before.state is Degraded ==> after.state is Degraded
        }),
{
    total_loss_is_bad((peer_sent - conn.core.expresslane.prev_peer_sent) as u64);
}

/// What a check does to a connection whose direction to the peer is dead.
proof fn dead_outbound_window<AppState>(
    conn: ConnectionView<AppState>,
    peer_sent: u64,
    peer_recv: u64,
    sent: u64,
    recv: u64,
)
    requires
        conn.core.expresslane.last_snapshot_sent + 10 <= sent,
        conn.core.expresslane.prev_peer_recv == peer_recv,
    ensures
        ({
            let before = conn.core.expresslane;
            let after = conn.comparing(peer_sent, peer_recv, sent, recv).core.expresslane;
            &&& after.state is Degraded || before.outbound_strikes >= 255
                || after.outbound_strikes == before.outbound_strikes + 1
            &&& before.outbound_strikes >= 2 ==> after.state is Degraded
            &&& before.state is Degraded ==> after.state is Degraded
        }),
{
    total_loss_is_bad((sent - conn.core.expresslane.last_snapshot_sent) as u64);
}

/// A direction in which nothing arrives any more costs the expresslane after
/// three windows, whatever had arrived before and whatever the other direction
/// does: the peer goes on to send at least ten packets per window, while the
/// own count of packets received stands still. `first` is the check from which
/// on this is so, and each check is given by the two counters of the peer and
/// the two of this side, packets sent before packets received.
pub proof fn dead_inbound_is_given_up<AppState>(
    conn: ConnectionView<AppState>,
    first: (u64, u64, u64, u64),
    second: (u64, u64, u64, u64),
    third: (u64, u64, u64, u64),
    fourth: (u64, u64, u64, u64),
)
    requires
        first.0 + 10 <= second.0,
        second.0 + 10 <= third.0,
        third.0 + 10 <= fourth.0,
        first.3 == second.3,
        second.3 == third.3,
        third.3 == fourth.3,
    ensures
        conn.health_checked(first.0, first.1, Some((first.2, first.3))).health_checked(
            second.0,
            second.1,
            Some((second.2, second.3)),
        ).health_checked(third.0, third.1, Some((third.2, third.3))).health_checked(
            fourth.0,
            fourth.1,
            Some((fourth.2, fourth.3)),
        ).core.expresslane.state is Degraded,
{
    let c1 = conn.comparing(first.0, first.1, first.2, first.3);
    let c2 = c1.comparing(second.0, second.1, second.2, second.3);
    let c3 = c2.comparing(third.0, third.1, third.2, third.3);
    checks_remember_their_counters(conn, first.0, first.1, first.2, first.3);
    checks_remember_their_counters(c1, second.0, second.1, second.2, second.3);
    checks_remember_their_counters(c2, third.0, third.1, third.2, third.3);
    dead_inbound_window(c1, second.0, second.1, second.2, second.3);
    dead_inbound_window(c2, third.0, third.1, third.2, third.3);
    dead_inbound_window(c3, fourth.0, fourth.1, fourth.2, fourth.3);
}

/// The same in the other direction: this side goes on to send at least ten
/// packets per window, while what the peer reports to have received stands
/// still.
pub proof fn dead_outbound_is_given_up<AppState>(
    conn: ConnectionView<AppState>,
    first: (u64, u64, u64, u64),
    second: (u64, u64, u64, u64),
    third: (u64, u64, u64, u64),
    fourth: (u64, u64, u64, u64),
)
    requires
        first.2 + 10 <= second.2,
        second.2 + 10 <= third.2,
        third.2 + 10 <= fourth.2,
        first.1 == second.1,
        second.1 == third.1,
        third.1 == fourth.1,
    ensures
        conn.health_checked(first.0, first.1, Some((first.2, first.3))).health_checked(
            second.0,
            second.1,
            Some((second.2, second.3)),
        ).health_checked(third.0, third.1, Some((third.2, third.3))).health_checked(
            fourth.0,
            fourth.1,
            Some((fourth.2, fourth.3)),
        ).core.expresslane.state is Degraded,
{
    let c1 = conn.comparing(first.0, first.1, first.2, first.3);
    let c2 = c1.comparing(second.0, second.1, second.2, second.3);
    let c3 = c2.comparing(third.0, third.1, third.2, third.3);
    checks_remember_their_counters(conn, first.0, first.1, first.2, first.3);
    checks_remember_their_counters(c1, second.0, second.1, second.2, second.3);
    checks_remember_their_counters(c2, third.0, third.1, third.2, third.3);
    dead_outbound_window(c1, second.0, second.1, second.2, second.3);
    dead_outbound_window(c2, third.0, third.1, third.2, third.3);
    dead_outbound_window(c3, fourth.0, fourth.1, fourth.2, fourth.3);
}

/// A direction is good in a window if everything that was sent since the last
/// one arrived, or if fewer than ten packets were sent. A window that is good
/// in both directions takes one strike back in each and never costs the
/// expresslane: nothing is asked of the host.
pub proof fn good_windows_cost_nothing<AppState>(
    conn: ConnectionView<AppState>,
    peer_sent: u64,
    peer_recv: u64,
    sent: u64,
    recv: u64,
)
    requires
        ({
            let lane = conn.core.expresslane;
            &&& lane.prev_peer_sent <= peer_sent
            &&& lane.prev_peer_recv <= peer_recv
            &&& lane.last_snapshot_sent <= sent
            &&& lane.last_snapshot_recv <= recv
            &&& peer_sent - lane.prev_peer_sent < 10 || peer_sent - lane.prev_peer_sent <= recv
                - lane.last_snapshot_recv
            &&& sent - lane.last_snapshot_sent < 10 || sent - lane.last_snapshot_sent <= peer_recv
                - lane.prev_peer_recv
        }),
    ensures
        ({
            let before = conn.core.expresslane;
            let after = conn.health_checked(peer_sent, peer_recv, Some((sent, recv)));
            let lane = after.core.expresslane;
            &&& lane.state == before.state
            &&& lane.inbound_strikes == (if before.inbound_strikes > 0 {
                before.inbound_strikes - 1
            } else {
                0
            })
            &&& lane.outbound_strikes == (if before.outbound_strikes > 0 {
                before.outbound_strikes - 1
            } else {
                0
            })
            &&& after.actions == conn.actions
        }),
{
    let lane = conn.core.expresslane;
    complete_windows_are_good(
        (peer_sent - lane.prev_peer_sent) as u64,
        (recv - lane.last_snapshot_recv) as u64,
    );
    complete_windows_are_good(
        (sent - lane.last_snapshot_sent) as u64,
        (peer_recv - lane.prev_peer_recv) as u64,
    );
}

/// Of counts that a double holds exactly, a window is bad in a direction from
/// ten packets on and if less than half of them arrived; exactly half is still
/// good.
pub proof fn half_is_the_limit(sent: u64, received: u64)
    requires
        received <= sent < 0x20_0000_0000_0000,
    ensures
        packet_drops(sent, received) == (sent >= 10 && 2 * received < sent),
{
    loss_is_exact_for_ordinary_counts(sent, received);
}

/// A peer that reports no counters with three signs of life in a row, on an
/// expresslane in use, loses it with the third and not before. A report in
/// between starts the count again.
pub proof fn three_silences_degrade<AppState>(
    conn: ConnectionView<AppState>,
    first: Seq<u8>,
    second: Seq<u8>,
    third: Seq<u8>,
    report: Seq<u8>,
)
    requires
        conn.core.spec_expresslane_ready(),
        conn.core.expresslane.missing_peer_reports == 0,
        first.len() != 16,
        second.len() != 16,
        third.len() != 16,
        report.len() == 16,
    ensures
        ({
            let twice = conn.checking_health(first).checking_health(second);
            &&& conn.checking_health(first).core.expresslane.state is Active
            &&& twice.core.expresslane.state is Active
            &&& twice.checking_health(third).core.expresslane.state is Degraded
            &&& twice.checking_health(report).core.expresslane.state is Active
            &&& twice.checking_health(report).core.expresslane.missing_peer_reports == 0
        }),
{
}

/// The same for the counters of this side: with the third reading in a row
/// that fails the expresslane is given up, and not before.
pub proof fn three_failed_readings_degrade<AppState>(
    conn: ConnectionView<AppState>,
    peer_sent: u64,
    peer_recv: u64,
)
    requires
        conn.core.expresslane.state is Active,
        conn.core.expresslane.missing_local_readings == 0,
    ensures
        ({
            let twice = conn.health_checked(peer_sent, peer_recv, None).health_checked(
                peer_sent,
                peer_recv,
                None,
            );
            &&& twice.core.expresslane == (Expresslane {
                missing_local_readings: 2,
                ..conn.core.expresslane
            })
            &&& twice.actions == conn.actions
            &&& twice.health_checked(peer_sent, peer_recv, None).core.expresslane.state is Degraded
        }),
{
}

/// What the peer packed into its answer is what the check compares: the
/// answer to a sign of life on an expresslane in use asks for the counters of
/// this side, to hold them against exactly what the peer sent and received.
pub proof fn reports_reach_the_check<AppState>(
    conn: ConnectionView<AppState>,
    sent: u64,
    recv: u64,
)
    requires
        conn.core.spec_expresslane_ready(),
    ensures
        conn.checking_health(crate::control::counters_payload(Some((sent, recv)))).actions
            == conn.actions.push(
            Action::ReadStats {
                session_id: conn.core.session_id,
                purpose: StatsUse::Health { peer_sent: sent, peer_recv: recv },
            },
        ),
{
    crate::control::counters_read_back(sent, recv);
}

/// Rounding to a double moves a count by less than a tenth.
proof fn doubles_are_close(x: u64)
    ensures
        9 * x <= 10 * nearest_double(x) <= 11 * x,
{
    if x < 0x20_0000_0000_0000 {
        small_numbers_are_doubles(x);
    } else {
        let unit = double_spacing(x) as int;
        let below = x as int / unit;
        let rest = x as int % unit;
        assert(below * unit + rest == x && 0 <= rest < unit) by (nonlinear_arith)
            requires
                unit > 0,
                below == x as int / unit,
                rest == x as int % unit,
        ;
        assert((below + 1) * unit == below * unit + unit) by (nonlinear_arith);
    }
}

/// A window of any size that lost three quarters of its packets is bad, and
/// one that lost a quarter is not.
pub proof fn clear_cases_are_seen(sent: u64, received: u64)
    requires
        sent >= 10,
        received <= sent,
    ensures
        4 * received <= sent ==> packet_drops(sent, received),
        4 * received >= 3 * sent ==> !packet_drops(sent, received),
{
    doubles_are_close(sent);
    doubles_are_close((sent - received) as u64);
}

/// Strikes are counted one by one: the third one a direction has together
/// costs the expresslane, and none before it. A good window takes one back.
pub proof fn third_strike_counts(strikes: u8, sent: u64, received: u64)
    ensures
        ({
            let (after, enough) = strikes_after(strikes, sent, received);
            if packet_drops(sent, received) {
                &&& enough <==> strikes >= 2
                &&& after == (if strikes < 255 {
                    strikes + 1
                } else {
                    255
                })
            } else {
                &&& !enough
                &&& after == (if strikes > 0 {
                    strikes - 1
                } else {
                    0
                })
            }
        }),
{
}

/// A counter that starts over after its largest value is followed across that.
pub proof fn counters_are_followed_round(now: u64, before: u64)
    ensures
        before + counter_delta(now, before) == now || before + counter_delta(now, before) == now
            + 0x1_0000_0000_0000_0000,
{
}

/// An expresslane that is not in use is not watched.
pub proof fn idle_expresslanes_are_not_watched<AppState>(
    conn: ConnectionView<AppState>,
    payload: Seq<u8>,
)
    requires
        !conn.core.spec_expresslane_ready(),
    ensures
        conn.checking_health(payload) == conn,
{
}

} // verus!
