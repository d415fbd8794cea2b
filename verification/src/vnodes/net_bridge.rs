//! The network bridge V-Node: takes the NIC's interrupts on its channel and
//! polls the kernel for received frames.
use vstd::prelude::*;
use crate::kernel::syscall::{E_ERROR, SUCCESS};

verus! {

/// The interrupt line of the VirtIO network device.
pub const VIRTIO_NET_IRQ: u64 = 11;

/// Size of the bridge's receive buffer: one Ethernet frame.
pub const RX_BUFFER_LEN: usize = 1536;

/// What a poll of the kernel for a received frame found.
#[derive(Debug, Clone, Copy, PartialEq, Eq, Structural)]
pub enum RxPollOutcome {
    /// A frame of the returned length arrived.
    Packet,
    /// No frame: the interrupt was spurious or already handled.
    NoPacket,
    /// The poll failed.
    Error,
    /// The poll returned a code that the bridge does not know.
    UnknownError,
}

/// How the bridge reads the code of `SYS_NET_RX_POLL`: any positive code is
/// a frame's length (the test for a frame comes first, so the error codes,
/// all positive, count as frames too), and zero means no frame.
pub open spec fn rx_poll_outcome(code: u64) -> RxPollOutcome {
    if code > SUCCESS {
        RxPollOutcome::Packet
    } else {
        RxPollOutcome::NoPacket
    }
}

/// Law: a poll code of 0 reads as no frame, and every other code as a frame
/// of that length.
pub proof fn law_rx_poll_codes(code: u64)
    ensures
        code == 0 <==> rx_poll_outcome(code) == RxPollOutcome::NoPacket,
        code != 0 <==> rx_poll_outcome(code) == RxPollOutcome::Packet,
{
}

/// Reads the code of a receive poll, as `rx_poll_outcome` says.
pub fn classify_rx_poll(code: u64) -> (r: RxPollOutcome)
    ensures
        r == rx_poll_outcome(code),
{
    if code > SUCCESS {
        RxPollOutcome::Packet
    } else if code == SUCCESS {
        RxPollOutcome::NoPacket
    } else if code == E_ERROR {
        RxPollOutcome::Error
    } else {
        RxPollOutcome::UnknownError
    }
}

/// Whether the kernel accepted the bridge's interrupt registration.
pub fn irq_registered(code: u64) -> (r: bool)
    ensures
        r == (code == SUCCESS),
{
    code == SUCCESS
}

} // verus!
