//! Messages between clients and the socket API V-Node.
use vstd::prelude::*;

verus! {

/// A socket descriptor of the socket API.
pub type SocketFd = u32;

/// A request to the socket API.
#[derive(Debug)]
pub enum SocketRequest {
    Socket { domain: i32, ty: i32, protocol: i32 },
    Bind { fd: SocketFd, addr: [u8; 4], port: u16 },
    Listen { fd: SocketFd, backlog: i32 },
    Accept { fd: SocketFd },
    Connect { fd: SocketFd, addr: [u8; 4], port: u16 },
    Send { fd: SocketFd, data: Vec<u8> },
    Recv { fd: SocketFd, len: usize },
    Close { fd: SocketFd },
}

/// The socket API's answer.
#[derive(Debug)]
pub enum SocketResponse {
    Success(i32),
    Data(Vec<u8>),
    Error(i32, String),
}

/// The model of an answer.
pub enum SocketResponseView {
    Success(i32),
    Data(Seq<u8>),
    Error(i32, Seq<char>),
}

impl View for SocketResponse {
    type V = SocketResponseView;

    open spec fn view(&self) -> SocketResponseView {
        match self {
            SocketResponse::Success(n) => SocketResponseView::Success(*n),
            SocketResponse::Data(d) => SocketResponseView::Data(d@),
            SocketResponse::Error(c, m) => SocketResponseView::Error(*c, m@),
        }
    }
}

/// The model of a request to the socket API.
pub enum SocketRequestView {
    Socket { domain: i32, ty: i32, protocol: i32 },
    Bind { fd: SocketFd, addr: [u8; 4], port: u16 },
    Listen { fd: SocketFd, backlog: i32 },
    Accept { fd: SocketFd },
    Connect { fd: SocketFd, addr: [u8; 4], port: u16 },
    Send { fd: SocketFd, data: Seq<u8> },
    Recv { fd: SocketFd, len: usize },
    Close { fd: SocketFd },
}

impl View for SocketRequest {
    type V = SocketRequestView;

    open spec fn view(&self) -> SocketRequestView {
        match self {
            SocketRequest::Socket { domain, ty, protocol } => SocketRequestView::Socket {
                domain: *domain,
                ty: *ty,
                protocol: *protocol,
            },
            SocketRequest::Bind { fd, addr, port } => SocketRequestView::Bind { fd: *fd, addr: *addr, port: *port },
            SocketRequest::Listen { fd, backlog } => SocketRequestView::Listen { fd: *fd, backlog: *backlog },
            SocketRequest::Accept { fd } => SocketRequestView::Accept { fd: *fd },
            SocketRequest::Connect { fd, addr, port } => SocketRequestView::Connect { fd: *fd, addr: *addr, port: *port },
            SocketRequest::Send { fd, data } => SocketRequestView::Send { fd: *fd, data: data@ },
            SocketRequest::Recv { fd, len } => SocketRequestView::Recv { fd: *fd, len: *len },
            SocketRequest::Close { fd } => SocketRequestView::Close { fd: *fd },
        }
    }
}

} // verus!
