//! The network stack V-Node (`svc://aethernet`): the table of its sockets,
//! and how it answers socket requests.
//!
//! The sockets themselves are smoltcp sockets in a socket set that the
//! V-Node's event loop owns and polls together with the network interface;
//! this table maps the stack's own socket numbers to smoltcp's handles and
//! decides, for each request, which socket operation it needs.
use vstd::prelude::*;
use std::collections::BTreeMap;
use smoltcp::iface::SocketHandle;
use crate::ipc::net_ipc::{NetStackRequest, NetStackRequestView, NetStackResponse, NetStackResponseView};

verus! {

broadcast use vstd::laws_cmp::group_laws_cmp;

/// `SocketHandle` of `smoltcp::iface`: names a socket in a smoltcp socket set.
#[verifier::external_type_specification]
#[verifier::external_body]
pub struct ExSocketHandle(SocketHandle);

/// Size of each socket buffer.
pub const SOCKET_BUFFER_LEN: usize = 2048;

/// Number of packet slots of each UDP buffer.
pub const UDP_PACKET_SLOTS: usize = 8;

/// The kind of a socket.
#[derive(Debug, Clone, Copy, PartialEq, Eq, Structural)]
pub enum NetSocketKind {
    Tcp,
    Udp,
}

/// A socket of the stack: smoltcp's handle and the socket's kind.
#[derive(Clone, Copy)]
pub struct NetSocket {
    pub socket: SocketHandle,
    pub kind: NetSocketKind,
}

/// The model of the table: the number the next socket gets, and the
/// sockets by number.
pub struct NetStackState {
    pub next_socket_handle: u32,
    pub sockets: Map<u32, NetSocket>,
}

/// Error code: a TCP socket cannot send now.
pub const E_CANNOT_SEND: u32 = 101;
/// Error code: no socket has the given number.
pub const E_NO_SOCKET: u32 = 103;
/// Error code: the request could not be decoded.
pub const E_BAD_REQUEST: u32 = 104;
/// Error code: the socket type is not supported.
pub const E_BAD_SOCKET_TYPE: u32 = 100;

/// The socket operation that a request needs, or the answer where it needs none.
pub enum NetStackAction {
    /// Answer at once.
    Reply(NetStackResponse),
    /// Open a TCP socket, listening on `local_port` unless it is 0, and
    /// register it under `handle`.
    OpenTcp { handle: u32, local_port: u16 },
    /// Open a UDP socket, bound to `local_port` unless it is 0, and register
    /// it under `handle`.
    OpenUdp { handle: u32, local_port: u16 },
    /// Send `data` on a TCP socket if it can send (see `tcp_send_reply`).
    TcpSend { socket: SocketHandle, data: Vec<u8> },
    /// Send `data` to `addr`:`port` on a UDP socket, then answer `Success`.
    UdpSendTo { socket: SocketHandle, addr: [u8; 4], port: u16, data: Vec<u8> },
    /// Receive into a buffer of `SOCKET_BUFFER_LEN` bytes (see `recv_reply`).
    Recv { socket: SocketHandle },
    /// Remove the socket from the socket set, then answer `Success`.
    Close { socket: SocketHandle },
}

/// The model of an action.
pub enum NetStackActionView {
    Reply(NetStackResponseView),
    OpenTcp { handle: u32, local_port: u16 },
    OpenUdp { handle: u32, local_port: u16 },
    TcpSend { socket: SocketHandle, data: Seq<u8> },
    UdpSendTo { socket: SocketHandle, addr: [u8; 4], port: u16, data: Seq<u8> },
    Recv { socket: SocketHandle },
    Close { socket: SocketHandle },
}

impl View for NetStackAction {
    type V = NetStackActionView;

    open spec fn view(&self) -> NetStackActionView {
        match self {
            NetStackAction::Reply(r) => NetStackActionView::Reply(r@),
            NetStackAction::OpenTcp { handle, local_port } => NetStackActionView::OpenTcp {
                handle: *handle,
                local_port: *local_port,
            },
            NetStackAction::OpenUdp { handle, local_port } => NetStackActionView::OpenUdp {
                handle: *handle,
                local_port: *local_port,
            },
            NetStackAction::TcpSend { socket, data } => NetStackActionView::TcpSend { socket: *socket, data: data@ },
            NetStackAction::UdpSendTo { socket, addr, port, data } => NetStackActionView::UdpSendTo {
                socket: *socket,
                addr: *addr,
                port: *port,
                data: data@,
            },
            NetStackAction::Recv { socket } => NetStackActionView::Recv { socket: *socket },
            NetStackAction::Close { socket } => NetStackActionView::Close { socket: *socket },
        }
    }
}

/// Every socket number was handed out before the next one.
pub open spec fn net_state_wf(s: NetStackState) -> bool {
    forall|h: u32| #[trigger] s.sockets.contains_key(h) ==> h < s.next_socket_handle
}

/// The requests that the stack can serve: an open needs a number left to
/// hand out, a TCP send or a receive needs a TCP socket, and a datagram send
/// needs a UDP socket (smoltcp's socket set refuses to hand out a socket as
/// the other kind).
pub open spec fn net_accepts(s: NetStackState, req: NetStackRequestView) -> bool {
    match req {
        NetStackRequestView::OpenSocket(..) => s.next_socket_handle < u32::MAX,
        NetStackRequestView::Send(h, _) => s.sockets.contains_key(h) ==> s.sockets[h].kind == NetSocketKind::Tcp,
        NetStackRequestView::Recv(h) => s.sockets.contains_key(h) ==> s.sockets[h].kind == NetSocketKind::Tcp,
        NetStackRequestView::SendTo(h, ..) => s.sockets.contains_key(h) ==> s.sockets[h].kind == NetSocketKind::Udp,
        _ => true,
    }
}

/// The action for a request in state `s`.
pub open spec fn net_action(s: NetStackState, req: NetStackRequestView) -> NetStackActionView {
    match req {
        NetStackRequestView::OpenSocket(ty, port) => if ty == 0 {
            NetStackActionView::OpenTcp { handle: s.next_socket_handle, local_port: port }
        } else if ty == 1 {
            NetStackActionView::OpenUdp { handle: s.next_socket_handle, local_port: port }
        } else {
            NetStackActionView::Reply(NetStackResponseView::Error(E_BAD_SOCKET_TYPE))
        },
        NetStackRequestView::Send(h, data) => if s.sockets.contains_key(h) {
            NetStackActionView::TcpSend { socket: s.sockets[h].socket, data }
        } else {
            NetStackActionView::Reply(NetStackResponseView::Error(E_NO_SOCKET))
        },
        NetStackRequestView::SendTo(h, addr, port, data) => if s.sockets.contains_key(h) {
            NetStackActionView::UdpSendTo { socket: s.sockets[h].socket, addr, port, data }
        } else {
            NetStackActionView::Reply(NetStackResponseView::Error(E_NO_SOCKET))
        },
        NetStackRequestView::Recv(h) => if s.sockets.contains_key(h) {
            NetStackActionView::Recv { socket: s.sockets[h].socket }
        } else {
            NetStackActionView::Reply(NetStackResponseView::Error(E_NO_SOCKET))
        },
        NetStackRequestView::CloseSocket(h) => if s.sockets.contains_key(h) {
            NetStackActionView::Close { socket: s.sockets[h].socket }
        } else {
            NetStackActionView::Reply(NetStackResponseView::Error(E_NO_SOCKET))
        },
    }
}

/// The table after a request: an open takes the next number (also for an
/// unsupported type), a close drops its socket.
pub open spec fn net_after(s: NetStackState, req: NetStackRequestView) -> NetStackState {
    match req {
        NetStackRequestView::OpenSocket(..) => NetStackState {
            next_socket_handle: (s.next_socket_handle + 1) as u32,
            ..s
        },
        NetStackRequestView::CloseSocket(h) => NetStackState { sockets: s.sockets.remove(h), ..s },
        _ => s,
    }
}

/// The answer to a TCP send, given whether the socket could send.
pub open spec fn tcp_send_answer(can_send: bool) -> NetStackResponseView {
    if can_send { NetStackResponseView::Success } else { NetStackResponseView::Error(E_CANNOT_SEND) }
}

/// The answer to a receive, given what the receive got (`None` where it
/// failed): the bytes received, or no bytes.
pub open spec fn recv_answer(received: Option<Seq<u8>>) -> NetStackResponseView {
    match received {
        Some(d) => NetStackResponseView::Data(d),
        None => NetStackResponseView::Data(Seq::empty()),
    }
}

/// The stack's socket table.
pub struct NetStackTable {
    next_socket_handle: u32,
    socket_map: BTreeMap<u32, NetSocket>,
}

impl View for NetStackTable {
    type V = NetStackState;

    closed spec fn view(&self) -> NetStackState {
        NetStackState { next_socket_handle: self.next_socket_handle, sockets: self.socket_map@ }
    }
}

impl NetStackTable {
    /// The model is well formed.
    pub closed spec fn wf(&self) -> bool {
        net_state_wf(self@)
    }

    /// No socket yet; the first number handed out is 1.
    pub fn new() -> (t: Self)
        ensures
            t.wf(),
            t@.next_socket_handle == 1,
            t@.sockets == Map::<u32, NetSocket>::empty(),
    {
        NetStackTable { next_socket_handle: 1, socket_map: BTreeMap::new() }
    }

    /// Whether the stack can serve `request` now (see `net_accepts`).
    pub fn accepts(&self, request: &NetStackRequest) -> (r: bool)
        ensures
            r == net_accepts(self@, request@),
    {
        match request {
            NetStackRequest::OpenSocket(..) => self.next_socket_handle < u32::MAX,
            NetStackRequest::Send(h, _) | NetStackRequest::Recv(h) => match self.socket_map.get(h) {
                Some(s) => s.kind == NetSocketKind::Tcp,
                None => true,
            },
            NetStackRequest::SendTo(h, ..) => match self.socket_map.get(h) {
                Some(s) => s.kind == NetSocketKind::Udp,
                None => true,
            },
            NetStackRequest::CloseSocket(_) => true,
        }
    }

    /// Decides how to serve a request, as `net_action` and `net_after` say.
    pub fn handle_request(&mut self, request: NetStackRequest) -> (a: NetStackAction)
        requires
            old(self).wf(),
            net_accepts(old(self)@, request@),
        ensures
            final(self).wf(),
            final(self)@ == net_after(old(self)@, request@),
            a@ == net_action(old(self)@, request@),
    {
        match request {
            NetStackRequest::OpenSocket(sock_type, local_port) => {
                let handle = self.next_socket_handle;
                self.next_socket_handle = self.next_socket_handle + 1;
                if sock_type == 0 {
                    NetStackAction::OpenTcp { handle, local_port }
                } else if sock_type == 1 {
                    NetStackAction::OpenUdp { handle, local_port }
                } else {
                    NetStackAction::Reply(NetStackResponse::Error(E_BAD_SOCKET_TYPE))
                }
            },
            NetStackRequest::Send(h, data) => match self.socket_map.get(&h) {
                Some(s) => NetStackAction::TcpSend { socket: s.socket, data },
                None => NetStackAction::Reply(NetStackResponse::Error(E_NO_SOCKET)),
            },
            NetStackRequest::SendTo(h, addr, port, data) => match self.socket_map.get(&h) {
                Some(s) => NetStackAction::UdpSendTo { socket: s.socket, addr, port, data },
                None => NetStackAction::Reply(NetStackResponse::Error(E_NO_SOCKET)),
            },
            NetStackRequest::Recv(h) => match self.socket_map.get(&h) {
                Some(s) => NetStackAction::Recv { socket: s.socket },
                None => NetStackAction::Reply(NetStackResponse::Error(E_NO_SOCKET)),
            },
            NetStackRequest::CloseSocket(h) => match self.socket_map.remove(&h) {
                Some(s) => NetStackAction::Close { socket: s.socket },
                None => NetStackAction::Reply(NetStackResponse::Error(E_NO_SOCKET)),
            },
        }
    }

    /// Registers the socket that an `OpenTcp` or `OpenUdp` action opened
    /// under its number, and answers `SocketOpened` with that number.
    pub fn register_socket(&mut self, handle: u32, socket: SocketHandle, kind: NetSocketKind) -> (r: NetStackResponse)
        requires
            old(self).wf(),
            handle < old(self)@.next_socket_handle,
        ensures
            final(self).wf(),
            final(self)@.next_socket_handle == old(self)@.next_socket_handle,
            final(self)@.sockets == old(self)@.sockets.insert(handle, NetSocket { socket, kind }),
            r@ == NetStackResponseView::SocketOpened(handle),
    {
        self.socket_map.insert(handle, NetSocket { socket, kind });
        assert forall|k: u32| #[trigger] self@.sockets.contains_key(k) implies k < self@.next_socket_handle by {
            if k != handle {
                assert(old(self)@.sockets.contains_key(k));
            }
        }
        NetStackResponse::SocketOpened(handle)
    }
}

/// The answer to a TCP send, as `tcp_send_answer` says.
pub fn tcp_send_reply(can_send: bool) -> (r: NetStackResponse)
    ensures
        r@ == tcp_send_answer(can_send),
{
    if can_send {
        NetStackResponse::Success
    } else {
        NetStackResponse::Error(E_CANNOT_SEND)
    }
}

/// The answer to a receive, as `recv_answer` says.
pub fn recv_reply(received: Option<Vec<u8>>) -> (r: NetStackResponse)
    ensures
        r@ == recv_answer(match received { Some(d) => Some(d@), None => None }),
{
    match received {
        Some(d) => NetStackResponse::Data(d),
        None => NetStackResponse::Data(Vec::new()),
    }
}

/// The answer to a request that could not be decoded.
pub fn undecodable_reply() -> (r: NetStackResponse)
    ensures
        r@ == NetStackResponseView::Error(E_BAD_REQUEST),
{
    NetStackResponse::Error(E_BAD_REQUEST)
}

/// Law: every request keeps every socket number below the next one, and an
/// open hands out a number that no socket has.
pub proof fn law_socket_numbers_are_fresh(s: NetStackState, req: NetStackRequestView)
    requires
        net_state_wf(s),
        net_accepts(s, req),
    ensures
        net_state_wf(net_after(s, req)),
        req is OpenSocket ==> !s.sockets.contains_key(s.next_socket_handle),
{
}

/// Law: a request naming a socket number that is not registered is answered
/// with error 103 and needs no socket operation.
pub proof fn law_unknown_socket_is_refused(s: NetStackState, req: NetStackRequestView)
    requires
        match req {
            NetStackRequestView::Send(h, _) => !s.sockets.contains_key(h),
            NetStackRequestView::SendTo(h, ..) => !s.sockets.contains_key(h),
            NetStackRequestView::Recv(h) => !s.sockets.contains_key(h),
            NetStackRequestView::CloseSocket(h) => !s.sockets.contains_key(h),
            _ => false,
        },
    ensures
        net_action(s, req) == NetStackActionView::Reply(NetStackResponseView::Error(E_NO_SOCKET)),
        net_after(s, req).sockets == s.sockets,
{
    match req {
        NetStackRequestView::CloseSocket(h) => {
            assert(s.sockets.remove(h) =~= s.sockets);
        },
        _ => {},
    }
}

/// Law: a request on a registered socket names that very socket to the
/// socket set, and the data and destination it carries are the request's
/// own: a TCP send carries exactly the request's bytes, a datagram send its
/// bytes, address and port; no request but a close changes the table's
/// sockets, and a close drops only its own socket.
pub proof fn law_registered_socket_requests(s: NetStackState, h: u32, data: Seq<u8>, addr: [u8; 4], port: u16, other: u32)
    requires
        s.sockets.contains_key(h),
    ensures
        net_action(s, NetStackRequestView::Send(h, data)) == (NetStackActionView::TcpSend {
            socket: s.sockets[h].socket,
            data,
        }),
        net_action(s, NetStackRequestView::SendTo(h, addr, port, data)) == (NetStackActionView::UdpSendTo {
            socket: s.sockets[h].socket,
            addr,
            port,
            data,
        }),
        net_action(s, NetStackRequestView::Recv(h)) == (NetStackActionView::Recv { socket: s.sockets[h].socket }),
        net_action(s, NetStackRequestView::CloseSocket(h)) == (NetStackActionView::Close { socket: s.sockets[h].socket }),
        net_after(s, NetStackRequestView::Send(h, data)) == s,
        net_after(s, NetStackRequestView::SendTo(h, addr, port, data)) == s,
        net_after(s, NetStackRequestView::Recv(h)) == s,
        !net_after(s, NetStackRequestView::CloseSocket(h)).sockets.contains_key(h),
        other != h ==> net_after(s, NetStackRequestView::CloseSocket(h)).sockets.contains_key(other)
            == s.sockets.contains_key(other),
{
}

/// Law: an open of type 0 asks for a TCP socket and of type 1 for a UDP
/// socket, either under the next number and on the requested port; any other
/// type is answered with error 100. Every open uses up one number.
pub proof fn law_open_socket_requests(s: NetStackState, ty: u32, port: u16)
    ensures
        net_action(s, NetStackRequestView::OpenSocket(ty, port)) == (if ty == 0 {
            NetStackActionView::OpenTcp { handle: s.next_socket_handle, local_port: port }
        } else if ty == 1 {
            NetStackActionView::OpenUdp { handle: s.next_socket_handle, local_port: port }
        } else {
            NetStackActionView::Reply(NetStackResponseView::Error(100))
        }),
        net_after(s, NetStackRequestView::OpenSocket(ty, port)).next_socket_handle == s.next_socket_handle + 1
            || s.next_socket_handle == u32::MAX,
        net_after(s, NetStackRequestView::OpenSocket(ty, port)).sockets == s.sockets,
{
}

/// Law: a TCP send is answered `Success` exactly when the socket could send,
/// and error 101 otherwise; a receive is answered with exactly the bytes it
/// got, or with no bytes where it got nothing.
pub proof fn law_send_and_receive_answers(can_send: bool, received: Option<Seq<u8>>)
    ensures
        tcp_send_answer(can_send) is Success <==> can_send,
        !can_send ==> tcp_send_answer(can_send) == NetStackResponseView::Error(101),
        received matches Some(d) ==> recv_answer(received) == NetStackResponseView::Data(d),
        received is None ==> recv_answer(received) == NetStackResponseView::Data(Seq::empty()),
{
}

} // verus!
