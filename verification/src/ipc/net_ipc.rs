//! Messages of the network stack V-Node (`svc://aethernet`).
use vstd::prelude::*;

verus! {

/// A request to the network stack.
#[derive(Debug)]
pub enum NetStackRequest {
    /// Open a socket: type 0 is TCP, 1 is UDP; a non-zero port is listened on (TCP) or bound (UDP).
    OpenSocket(u32, u16),
    /// Send on a TCP socket.
    Send(u32, Vec<u8>),
    /// Send a datagram on a UDP socket to an IPv4 address and port.
    SendTo(u32, [u8; 4], u16, Vec<u8>),
    /// Receive from a socket.
    Recv(u32),
    /// Close a socket.
    CloseSocket(u32),
}

/// The network stack's answer.
#[derive(Debug)]
pub enum NetStackResponse {
    SocketOpened(u32),
    Success,
    Data(Vec<u8>),
    Error(u32),
}

/// A message between the network bridge and the network stack.
#[derive(Debug)]
pub enum NetPacketMsg {
    /// A received frame waits in a DMA buffer.
    RxPacket { dma_handle: u64, len: usize },
    /// A frame to send waits in a DMA buffer.
    TxPacket { dma_handle: u64, len: usize },
    /// The bridge has sent a frame.
    TxPacketAck,
}

/// The model of a request to the network stack.
pub enum NetStackRequestView {
    OpenSocket(u32, u16),
    Send(u32, Seq<u8>),
    SendTo(u32, [u8; 4], u16, Seq<u8>),
    Recv(u32),
    CloseSocket(u32),
}

/// The model of the network stack's answer.
pub enum NetStackResponseView {
    SocketOpened(u32),
    Success,
    Data(Seq<u8>),
    Error(u32),
}

impl View for NetStackRequest {
    type V = NetStackRequestView;

    open spec fn view(&self) -> NetStackRequestView {
        match self {
            NetStackRequest::OpenSocket(t, p) => NetStackRequestView::OpenSocket(*t, *p),
            NetStackRequest::Send(h, d) => NetStackRequestView::Send(*h, d@),
            NetStackRequest::SendTo(h, a, p, d) => NetStackRequestView::SendTo(*h, *a, *p, d@),
            NetStackRequest::Recv(h) => NetStackRequestView::Recv(*h),
            NetStackRequest::CloseSocket(h) => NetStackRequestView::CloseSocket(*h),
        }
    }
}

impl View for NetStackResponse {
    type V = NetStackResponseView;

    open spec fn view(&self) -> NetStackResponseView {
        match self {
            NetStackResponse::SocketOpened(h) => NetStackResponseView::SocketOpened(*h),
            NetStackResponse::Success => NetStackResponseView::Success,
            NetStackResponse::Data(d) => NetStackResponseView::Data(d@),
            NetStackResponse::Error(c) => NetStackResponseView::Error(*c),
        }
    }
}

} // verus!
