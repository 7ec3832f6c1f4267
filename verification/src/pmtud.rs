//! Path MTU discovery, as a connection sees it.

use crate::buffers::shared_bytes;
use crate::connection::ConnectionType;
use bytes::Bytes;
use vstd::prelude::*;

verus! {

/// Where discovery stands.
#[derive(Clone, Copy, Debug, PartialEq, Eq, Structural)]
pub enum PmtudState {
    /// Discovery has not begun
    Disabled,
    /// The base size is being confirmed
    Base,
    /// Larger sizes are being tried
    Searching,
    /// The largest size is known
    SearchComplete,
    /// Not even the base size gets through
    Error,
}

/// What discovery found so far.
#[derive(Clone, Copy, Debug, PartialEq, Eq, Structural)]
pub struct PmtudStatus {
    /// Where discovery stands
    pub state: PmtudState,
    /// Largest size known to get through, if any
    pub plpmtu: Option<u16>,
}

/// The largest inside packets that the path carries.
#[derive(Clone, Copy, Debug, PartialEq, Eq, Structural)]
pub struct PacketSizes {
    /// Largest packet in one frame
    pub data: usize,
    /// Largest slice in a frame of its own
    pub fragment: usize,
}

/// A reading of the discovery machine.
#[derive(Clone, Copy, Debug, PartialEq, Eq, Structural)]
pub struct PmtudReport {
    /// What discovery found so far
    pub status: PmtudStatus,
    /// Packet sizes, once discovery has settled on a size
    pub maximum_packet_sizes: Option<PacketSizes>,
}

impl PmtudReport {
    /// A path carries at least the headers of an inside packet, and slices
    /// are never empty.
    pub open spec fn wf(self) -> bool {
        self.maximum_packet_sizes matches Some(sizes) ==> {
            &&& sizes.data >= crate::IPV4_HEADER_SIZE + crate::TCP_HEADER_SIZE
            &&& sizes.fragment > 0
        }
    }
}

/// What the discovery machine is told.
#[derive(Debug)]
pub enum PmtudStep<B> {
    /// The connection came online
    Online,
    /// The timer expired
    Tick,
    /// A pong came
    PongReceived {
        /// Identifier of the pong
        id: u16,
        /// Payload of the pong
        payload: B,
    },
}

impl View for PmtudStep<Bytes> {
    type V = PmtudStep<Seq<u8>>;

    open spec fn view(&self) -> PmtudStep<Seq<u8>> {
        match *self {
            PmtudStep::Online => PmtudStep::Online,
            PmtudStep::Tick => PmtudStep::Tick,
            PmtudStep::PongReceived { id, payload } => PmtudStep::PongReceived {
                id,
                payload: shared_bytes(payload),
            },
        }
    }
}

/// What the discovery machine wants done.
#[derive(Clone, Copy, Debug, PartialEq, Eq, Structural)]
pub enum PmtudAction {
    /// Nothing
    Wait,
    /// Send a probe
    SendProbe {
        /// Identifier of the probe
        id: u16,
        /// Number of payload bytes
        size: u16,
    },
}

/// Size that discovery starts from unless another is configured
pub const BASE_PLPMTU: u16 = 1250;

/// The sizes between which discovery moves, where it takes place.
pub open spec fn discovery_limits(
    connection_type: ConnectionType,
    has_timer: bool,
    base_mtu: Option<u16>,
    outside_mtu: usize,
) -> Option<(u16, u16)> {
    if connection_type is Datagram && has_timer {
        Some(
            (
                match base_mtu {
                    Some(base) => base,
                    None => BASE_PLPMTU,
                },
                ((outside_mtu - crate::outside_overhead()) % 0x1_0000) as u16,
            ),
        )
    } else {
        None
    }
}

/// The sizes between which discovery moves, where it takes place, that is over
/// datagrams and with a timer: from the base, which `base_mtu` may override,
/// up to the largest DTLS payload on a path of the given outside MTU.
pub fn pmtud_limits(
    connection_type: ConnectionType,
    has_timer: bool,
    base_mtu: Option<u16>,
    outside_mtu: usize,
) -> (limits: Option<(u16, u16)>)
    requires
        connection_type is Datagram && has_timer ==> crate::outside_overhead() <= outside_mtu,
    ensures
        limits == discovery_limits(connection_type, has_timer, base_mtu, outside_mtu),
{
    if !connection_type.is_datagram() || !has_timer {
        return None;
    }
    let base = match base_mtu {
        Some(base) => base,
        None => BASE_PLPMTU,
    };
    Some((base, (crate::max_dtls_mtu(outside_mtu) % 0x1_0000) as u16))
}

/// Discovery takes place over datagrams and with a timer. It begins with the
/// size it is told, else with 1250, and goes no further than what fills the
/// outside MTU with the 81 bytes in front of it.
pub proof fn discovery_fills_the_path(
    connection_type: ConnectionType,
    has_timer: bool,
    base_mtu: Option<u16>,
    outside_mtu: usize,
)
    requires
        81 <= outside_mtu <= 0xffff + 81,
    ensures
        ({
            let limits = discovery_limits(connection_type, has_timer, base_mtu, outside_mtu);
            &&& limits is Some <==> connection_type is Datagram && has_timer
            &&& limits matches Some((base, max)) ==> {
                &&& base_mtu is Some ==> base == base_mtu->0
                &&& base_mtu is None ==> base == 1250
                &&& max + 81 == outside_mtu
            }
        }),
{
}

} // verus!
