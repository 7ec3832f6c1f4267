//! The decision core of the Lightway tunnel.
//!
//! A [`connection::Connection`] holds everything the protocol decides on and
//! nothing that talks to the outside: every step takes what the transport,
//! the TLS session or the application reported and answers with a new state
//! and an ordered list of [`action::Action`]s. The host performs the actions
//! and feeds their outcomes back, in the order that an [`agenda::Agenda`]
//! keeps.

pub mod action;
pub mod agenda;
pub mod auth;
pub mod buffers;
pub mod codec;
pub mod connection;
pub mod control;
pub mod dns_manager;
pub mod error;
pub mod expresslane;
pub mod gso;
pub mod health;
pub mod inbound;
pub mod inside_ip;
pub mod laws;
pub mod lifecycle;
pub mod metrics;
pub mod net;
pub mod outbound;
pub mod pmtud;
pub mod queue;
pub mod random;
pub mod route;
pub mod route_manager;
pub mod time;
pub mod tls;
pub mod wire;

use crate::tls::LibraryRequest;
use crate::wire::{FromWireError, WireFrame};
use vstd::prelude::*;

verus! {

/// Default MTU size for a packet on the outside path (on the wire)
pub const MAX_OUTSIDE_MTU: usize = 1500;

/// Smallest outside MTU, as RFC 791 requires
pub const MIN_OUTSIDE_MTU: usize = 68;

/// The smallest supported inside MTU.
pub const MIN_INSIDE_MTU: usize = 1250;

/// The largest supported inside MTU.
pub const MAX_INSIDE_MTU: usize = 1500;

/// Size of an IPv4 header without options
pub const IPV4_HEADER_SIZE: usize = 20;

/// Size of a TCP header without options
pub const TCP_HEADER_SIZE: usize = 20;

/// Size of a UDP header
pub const UDP_HEADER_SIZE: usize = 8;

/// Size of the Lightway header in front of each datagram
pub const HEADER_WIRE_SIZE: usize = 16;

/// D/TLS headers and AES crypto fields
pub const MAX_DTLS_HEADER_SIZE: usize = 37;

/// What the outside path adds to an inside packet, from the IPv4 header down
/// to the D/TLS fields.
pub open spec fn outside_overhead() -> int {
    IPV4_HEADER_SIZE + UDP_HEADER_SIZE + HEADER_WIRE_SIZE + MAX_DTLS_HEADER_SIZE
}

/// The outside MTU that an inside MTU requires.
pub open spec fn required_outside_mtu(inside_mtu: int) -> int {
    inside_mtu + outside_overhead()
}

/// The payload that an outside MTU leaves to DTLS.
pub open spec fn dtls_payload(outside_mtu: int) -> int {
    outside_mtu - outside_overhead()
}

/// The minimum usable outside path (wire) MTU required for a given inside
/// path MTU.
pub fn dtls_required_outside_mtu(inside_mtu: usize) -> (outside_mtu: usize)
    requires
        inside_mtu + outside_overhead() <= usize::MAX,
    ensures
        outside_mtu == required_outside_mtu(inside_mtu as int),
{
    inside_mtu + IPV4_HEADER_SIZE + UDP_HEADER_SIZE + HEADER_WIRE_SIZE + MAX_DTLS_HEADER_SIZE
}

/// MTU for DTLS on the outside path: the outside MTU less the IPv4, UDP and
/// Lightway headers.
pub fn max_dtls_outside_mtu(outside_mtu: usize) -> (dtls_mtu: usize)
    requires
        IPV4_HEADER_SIZE + UDP_HEADER_SIZE + HEADER_WIRE_SIZE <= outside_mtu,
    ensures
        dtls_mtu == outside_mtu - IPV4_HEADER_SIZE - UDP_HEADER_SIZE - HEADER_WIRE_SIZE,
{
    outside_mtu - IPV4_HEADER_SIZE - UDP_HEADER_SIZE - HEADER_WIRE_SIZE
}

/// MTU for the DTLS payload: what [`max_dtls_outside_mtu`] leaves once the
/// DTLS fields are taken out.
pub fn max_dtls_mtu(outside_mtu: usize) -> (payload: usize)
    requires
        outside_overhead() <= outside_mtu,
    ensures
        payload == dtls_payload(outside_mtu as int),
{
    max_dtls_outside_mtu(outside_mtu) - MAX_DTLS_HEADER_SIZE
}

/// An inside MTU that fills the DTLS payload of an outside MTU requires exactly
/// that outside MTU, and the other way round.
pub proof fn mtus_are_inverse(mtu: int)
    ensures
        required_outside_mtu(dtls_payload(mtu)) == mtu,
        dtls_payload(required_outside_mtu(mtu)) == mtu,
{
}

/// In front of an inside packet travel 81 bytes: 20 of IPv4, 8 of UDP, 16 of
/// Lightway and 37 of DTLS.
pub proof fn overhead_is_fixed(mtu: int)
    ensures
        required_outside_mtu(mtu) == mtu + 81,
        dtls_payload(mtu) == mtu - 81,
{
}

/// Enable debug logging from the TLS library: what the host has to ask of it.
pub fn enable_tls_debug<C>() -> (request: LibraryRequest<C>)
    ensures
        request == LibraryRequest::<C>::EnableDebugging(true),
{
    LibraryRequest::EnableDebugging(true)
}

/// Sets the callback for the logs from the TLS library: what the host has to
/// ask of it.
pub fn set_logging_callback<C>(cb: C) -> (request: LibraryRequest<C>)
    ensures
        request == LibraryRequest::InstallLoggingCallback(cb),
{
    LibraryRequest::InstallLoggingCallback(cb)
}

/// What a fuzzer does with the outcome of parsing a frame.
#[derive(Clone, Copy, Debug, PartialEq, Eq, Structural)]
pub enum FuzzStep {
    /// Serialize the frame again and go on
    Reserialize,
    /// Go on
    Skip,
    /// Stop
    Stop,
}

/// Entry point for fuzzing: what to do with the outcome of parsing a frame.
/// As many frames as possible are parsed, and those that parse are serialized
/// again.
pub fn fuzz_frame_parse(parsed: &Result<WireFrame, FromWireError>) -> (step: FuzzStep)
    ensures
        step == (match *parsed {
            Ok(_) => FuzzStep::Reserialize,
            Err(FromWireError::InsufficientData) => FuzzStep::Stop,
            Err(_) => FuzzStep::Skip,
        }),
{
    match parsed {
        Ok(_) => FuzzStep::Reserialize,
        Err(FromWireError::InsufficientData) => FuzzStep::Stop,
        Err(_) => FuzzStep::Skip,
    }
}

} // verus!
