//! The socket API V-Node: BSD-style socket descriptors for client V-Nodes,
//! each backed by a socket of the network stack V-Node.
//!
//! A request is handled in up to two steps: `SocketApi::handle_request`
//! either answers it or names a request for the network stack, and
//! `SocketApi::complete` turns the network stack's answer into the reply.
use vstd::prelude::*;
use std::collections::BTreeMap;
use crate::ipc::net_ipc::{NetStackRequest, NetStackRequestView, NetStackResponse, NetStackResponseView};
use crate::ipc::socket_ipc::{SocketFd, SocketRequest, SocketRequestView, SocketResponse, SocketResponseView};
use crate::text::owned;

verus! {

broadcast use vstd::laws_cmp::group_laws_cmp;

/// A socket of the socket API.
#[derive(Debug, Clone, Copy, PartialEq, Eq, Structural)]
pub struct SocketInfo {
    /// The network stack's handle of the backing socket.
    pub net_socket_handle: u32,
    /// The socket type that the client asked for.
    pub socket_type: i32,
    pub is_listening: bool,
}

/// The network stack's socket type for a socket API type: stream (1) is
/// TCP (0), datagram (2) is UDP (1); other types are not supported.
pub open spec fn socket_type_of(ty: i32) -> Option<u32> {
    if ty == 1 {
        Some(0u32)
    } else if ty == 2 {
        Some(1u32)
    } else {
        None
    }
}

/// Maps a socket API type to the network stack's socket type.
pub fn map_socket_type(ty: i32) -> (r: Option<u32>)
    ensures
        r == socket_type_of(ty),
{
    match ty {
        1 => Some(0),
        2 => Some(1),
        _ => None,
    }
}

/// The model of the socket API: the next descriptor and the sockets.
pub struct SocketApiState {
    pub next_fd: SocketFd,
    pub sockets: Map<SocketFd, SocketInfo>,
}

/// Descriptors are handed out from 1 up: every socket descriptor is at
/// least 1 and was handed out before the next one.
pub open spec fn socket_state_wf(s: SocketApiState) -> bool {
    &&& 1 <= s.next_fd
    &&& forall|fd: SocketFd| #[trigger] s.sockets.contains_key(fd) ==> 1 <= fd < s.next_fd
}

/// A request that waits for the network stack's answer.
#[derive(Debug, Clone, Copy, PartialEq, Eq, Structural)]
pub enum PendingSocketOp {
    Open { ty: i32 },
    Bind { fd: SocketFd },
    Connect,
    Send,
    Recv,
    Close,
}

/// What the socket API does with a request.
#[derive(Debug)]
pub enum SocketStep {
    Reply(SocketResponse),
    AskNet { request: NetStackRequest, pending: PendingSocketOp },
}

/// The model of a step.
pub enum SocketStepView {
    Reply(SocketResponseView),
    AskNet { request: NetStackRequestView, pending: PendingSocketOp },
}

impl View for SocketStep {
    type V = SocketStepView;

    open spec fn view(&self) -> SocketStepView {
        match self {
            SocketStep::Reply(r) => SocketStepView::Reply(r@),
            SocketStep::AskNet { request, pending } => SocketStepView::AskNet { request: request@, pending: *pending },
        }
    }
}

/// The error answer with `code` and `message`.
pub open spec fn err(code: i32, message: Seq<char>) -> SocketResponseView {
    SocketResponseView::Error(code, message)
}

/// The answer to a request on a descriptor that is not open.
pub open spec fn bad_fd_reply() -> SocketResponseView {
    err(-1i32, "Bad file descriptor"@)
}

/// The answer to a request for a socket type that is not supported.
pub open spec fn unsupported_reply() -> SocketResponseView {
    err(100, "Unsupported socket type"@)
}

/// The step for a request in state `s`.
pub open spec fn socket_step(s: SocketApiState, req: SocketRequestView) -> SocketStepView {
    match req {
        SocketRequestView::Socket { ty, .. } => match socket_type_of(ty) {
            Some(t) => SocketStepView::AskNet {
                request: NetStackRequestView::OpenSocket(t, 0),
                pending: PendingSocketOp::Open { ty },
            },
            None => SocketStepView::Reply(unsupported_reply()),
        },
        SocketRequestView::Bind { fd, port, .. } => if s.sockets.contains_key(fd) {
            match socket_type_of(s.sockets[fd].socket_type) {
                Some(t) => SocketStepView::AskNet {
                    request: NetStackRequestView::OpenSocket(t, port),
                    pending: PendingSocketOp::Bind { fd },
                },
                None => SocketStepView::Reply(unsupported_reply()),
            }
        } else {
            SocketStepView::Reply(bad_fd_reply())
        },
        SocketRequestView::Listen { fd, .. } => if s.sockets.contains_key(fd) {
            SocketStepView::Reply(SocketResponseView::Success(0))
        } else {
            SocketStepView::Reply(bad_fd_reply())
        },
        SocketRequestView::Accept { .. } => SocketStepView::Reply(
            err(11, "Operation would block (EWOULDBLOCK)"@),
        ),
        SocketRequestView::Connect { fd, addr, port } => if s.sockets.contains_key(fd) {
            SocketStepView::AskNet {
                request: NetStackRequestView::SendTo(s.sockets[fd].net_socket_handle, addr, port, Seq::empty()),
                pending: PendingSocketOp::Connect,
            }
        } else {
            SocketStepView::Reply(bad_fd_reply())
        },
        SocketRequestView::Send { fd, data } => if s.sockets.contains_key(fd) {
            SocketStepView::AskNet {
                request: NetStackRequestView::Send(s.sockets[fd].net_socket_handle, data),
                pending: PendingSocketOp::Send,
            }
        } else {
            SocketStepView::Reply(bad_fd_reply())
        },
        SocketRequestView::Recv { fd, .. } => if s.sockets.contains_key(fd) {
            SocketStepView::AskNet {
                request: NetStackRequestView::Recv(s.sockets[fd].net_socket_handle),
                pending: PendingSocketOp::Recv,
            }
        } else {
            SocketStepView::Reply(bad_fd_reply())
        },
        SocketRequestView::Close { fd } => if s.sockets.contains_key(fd) {
            SocketStepView::AskNet {
                request: NetStackRequestView::CloseSocket(s.sockets[fd].net_socket_handle),
                pending: PendingSocketOp::Close,
            }
        } else {
            SocketStepView::Reply(bad_fd_reply())
        },
    }
}

/// The state after the step for a request: a listen marks its socket, a
/// close drops its descriptor (whatever the network stack answers later).
pub open spec fn socket_after_step(s: SocketApiState, req: SocketRequestView) -> SocketApiState {
    match req {
        SocketRequestView::Listen { fd, .. } => if s.sockets.contains_key(fd) {
            SocketApiState {
                sockets: s.sockets.insert(fd, SocketInfo { is_listening: true, ..s.sockets[fd] }),
                ..s
            }
        } else {
            s
        },
        SocketRequestView::Close { fd } => SocketApiState { sockets: s.sockets.remove(fd), ..s },
        _ => s,
    }
}

/// The messages of a failed or unexpected answer, per pending operation.
pub open spec fn failure_message(p: PendingSocketOp) -> Seq<char> {
    match p {
        PendingSocketOp::Open { .. } => "Failed to open socket in AetherNet"@,
        PendingSocketOp::Bind { .. } => "Failed to bind socket in AetherNet"@,
        PendingSocketOp::Connect => "Failed to connect via AetherNet"@,
        PendingSocketOp::Send => "Failed to send via AetherNet"@,
        PendingSocketOp::Recv => "Failed to receive via AetherNet"@,
        PendingSocketOp::Close => "Failed to close socket in AetherNet"@,
    }
}

/// The message for an answer of the wrong kind, per pending operation.
pub open spec fn unexpected_message(p: PendingSocketOp) -> Seq<char> {
    match p {
        PendingSocketOp::Open { .. } => "Unexpected response from AetherNet during Socket open"@,
        PendingSocketOp::Bind { .. } => "Unexpected response from AetherNet during Bind"@,
        PendingSocketOp::Connect => "Unexpected response from AetherNet during Connect"@,
        PendingSocketOp::Send => "Unexpected response from AetherNet during Send"@,
        PendingSocketOp::Recv => "Unexpected response from AetherNet during Recv"@,
        PendingSocketOp::Close => "Unexpected response from AetherNet during Close"@,
    }
}

/// Whether `reply` is the answer that pending operation `p` hopes for.
pub open spec fn expected_reply(p: PendingSocketOp, reply: NetStackResponseView) -> bool {
    match p {
        PendingSocketOp::Open { .. } | PendingSocketOp::Bind { .. } => reply is SocketOpened,
        PendingSocketOp::Recv => reply is Data,
        _ => reply is Success,
    }
}

/// The reply to pending operation `p` in state `s`, given the network
/// stack's answer (`None` where the exchange failed).
pub open spec fn socket_complete_reply(s: SocketApiState, p: PendingSocketOp, reply: Option<NetStackResponseView>) -> SocketResponseView {
    match reply {
        Some(r) => if expected_reply(p, r) {
            match p {
                PendingSocketOp::Open { .. } => SocketResponseView::Success(s.next_fd as i32),
                PendingSocketOp::Recv => SocketResponseView::Data(r->Data_0),
                _ => SocketResponseView::Success(0),
            }
        } else if r is Error {
            err(r->Error_0 as i32, failure_message(p))
        } else {
            err(-1i32, unexpected_message(p))
        },
        None => err(-1i32, unexpected_message(p)),
    }
}

/// The state after pending operation `p` completes with the given answer:
/// an open registers a new descriptor, a bind moves its descriptor to the
/// new network socket.
pub open spec fn socket_after_complete(s: SocketApiState, p: PendingSocketOp, reply: Option<NetStackResponseView>) -> SocketApiState {
    match reply {
        Some(NetStackResponseView::SocketOpened(h)) => match p {
            PendingSocketOp::Open { ty } => SocketApiState {
                next_fd: (s.next_fd + 1) as u32,
                sockets: s.sockets.insert(s.next_fd, SocketInfo { net_socket_handle: h, socket_type: ty, is_listening: false }),
            },
            PendingSocketOp::Bind { fd } => if s.sockets.contains_key(fd) {
                SocketApiState {
                    sockets: s.sockets.insert(fd, SocketInfo { net_socket_handle: h, ..s.sockets[fd] }),
                    ..s
                }
            } else {
                s
            },
            _ => s,
        },
        _ => s,
    }
}

/// Completing an open needs a descriptor left to hand out.
pub open spec fn complete_accepts(s: SocketApiState, p: PendingSocketOp, reply: Option<NetStackResponseView>) -> bool {
    (p is Open && reply matches Some(NetStackResponseView::SocketOpened(_))) ==> s.next_fd < u32::MAX
}

/// The descriptor table of the socket API.
pub struct SocketApi {
    next_fd: SocketFd,
    sockets: BTreeMap<SocketFd, SocketInfo>,
}

impl View for SocketApi {
    type V = SocketApiState;

    closed spec fn view(&self) -> SocketApiState {
        SocketApiState { next_fd: self.next_fd, sockets: self.sockets@ }
    }
}

fn error_reply(code: i32, message: &str) -> (r: SocketResponse)
    ensures
        r@ == err(code, message@),
{
    SocketResponse::Error(code, owned(message))
}

fn failure_text(p: PendingSocketOp) -> (s: &'static str)
    ensures
        s@ == failure_message(p),
{
    match p {
        PendingSocketOp::Open { .. } => "Failed to open socket in AetherNet",
        PendingSocketOp::Bind { .. } => "Failed to bind socket in AetherNet",
        PendingSocketOp::Connect => "Failed to connect via AetherNet",
        PendingSocketOp::Send => "Failed to send via AetherNet",
        PendingSocketOp::Recv => "Failed to receive via AetherNet",
        PendingSocketOp::Close => "Failed to close socket in AetherNet",
    }
}

fn unexpected_text(p: PendingSocketOp) -> (s: &'static str)
    ensures
        s@ == unexpected_message(p),
{
    match p {
        PendingSocketOp::Open { .. } => "Unexpected response from AetherNet during Socket open",
        PendingSocketOp::Bind { .. } => "Unexpected response from AetherNet during Bind",
        PendingSocketOp::Connect => "Unexpected response from AetherNet during Connect",
        PendingSocketOp::Send => "Unexpected response from AetherNet during Send",
        PendingSocketOp::Recv => "Unexpected response from AetherNet during Recv",
        PendingSocketOp::Close => "Unexpected response from AetherNet during Close",
    }
}

impl SocketApi {
    /// The model is well formed.
    pub closed spec fn wf(&self) -> bool {
        socket_state_wf(self@)
    }

    /// No socket yet; the first descriptor handed out is 1.
    pub fn new() -> (s: Self)
        ensures
            s.wf(),
            s@.next_fd == 1,
            s@.sockets == Map::<SocketFd, SocketInfo>::empty(),
    {
        SocketApi { next_fd: 1, sockets: BTreeMap::new() }
    }

    /// First step of a request, as `socket_step` and `socket_after_step` say.
    pub fn handle_request(&mut self, request: SocketRequest) -> (step: SocketStep)
        requires
            old(self).wf(),
        ensures
            final(self).wf(),
            final(self)@ == socket_after_step(old(self)@, request@),
            step@ == socket_step(old(self)@, request@),
    {
        let ghost s = self@;
        match request {
            SocketRequest::Socket { domain: _, ty, protocol: _ } => {
                match map_socket_type(ty) {
                    Some(t) => SocketStep::AskNet {
                        request: NetStackRequest::OpenSocket(t, 0),
                        pending: PendingSocketOp::Open { ty },
                    },
                    None => SocketStep::Reply(error_reply(100, "Unsupported socket type")),
                }
            },
            SocketRequest::Bind { fd, addr: _, port } => {
                match self.sockets.get(&fd) {
                    Some(info) => match map_socket_type(info.socket_type) {
                        Some(t) => SocketStep::AskNet {
                            request: NetStackRequest::OpenSocket(t, port),
                            pending: PendingSocketOp::Bind { fd },
                        },
                        None => SocketStep::Reply(error_reply(100, "Unsupported socket type")),
                    },
                    None => SocketStep::Reply(error_reply(-1, "Bad file descriptor")),
                }
            },
            SocketRequest::Listen { fd, backlog: _ } => {
                match self.sockets.get(&fd) {
                    Some(info) => {
                        let updated = SocketInfo { is_listening: true, ..*info };
                        self.sockets.insert(fd, updated);
                        assert forall|k: SocketFd| #[trigger] self@.sockets.contains_key(k) implies 1 <= k < self@.next_fd by {
                            assert(old(self)@.sockets.contains_key(k));
                        }
                        SocketStep::Reply(SocketResponse::Success(0))
                    },
                    None => SocketStep::Reply(error_reply(-1, "Bad file descriptor")),
                }
            },
            SocketRequest::Accept { fd: _ } => {
                SocketStep::Reply(error_reply(11, "Operation would block (EWOULDBLOCK)"))
            },
            SocketRequest::Connect { fd, addr, port } => {
                match self.sockets.get(&fd) {
                    Some(info) => SocketStep::AskNet {
                        request: NetStackRequest::SendTo(info.net_socket_handle, addr, port, Vec::new()),
                        pending: PendingSocketOp::Connect,
                    },
                    None => SocketStep::Reply(error_reply(-1, "Bad file descriptor")),
                }
            },
            SocketRequest::Send { fd, data } => {
                match self.sockets.get(&fd) {
                    Some(info) => SocketStep::AskNet {
                        request: NetStackRequest::Send(info.net_socket_handle, data),
                        pending: PendingSocketOp::Send,
                    },
                    None => SocketStep::Reply(error_reply(-1, "Bad file descriptor")),
                }
            },
            SocketRequest::Recv { fd, len: _ } => {
                match self.sockets.get(&fd) {
                    Some(info) => SocketStep::AskNet {
                        request: NetStackRequest::Recv(info.net_socket_handle),
                        pending: PendingSocketOp::Recv,
                    },
                    None => SocketStep::Reply(error_reply(-1, "Bad file descriptor")),
                }
            },
            SocketRequest::Close { fd } => {
                match self.sockets.remove(&fd) {
                    Some(info) => SocketStep::AskNet {
                        request: NetStackRequest::CloseSocket(info.net_socket_handle),
                        pending: PendingSocketOp::Close,
                    },
                    None => SocketStep::Reply(error_reply(-1, "Bad file descriptor")),
                }
            },
        }
    }

    /// Whether `complete` can take the network stack's answer now (see
    /// `complete_accepts`).
    pub fn can_complete(&self, pending: PendingSocketOp, reply: &Result<NetStackResponse, ()>) -> (r: bool)
        ensures
            r == complete_accepts(self@, pending, match reply { Ok(v) => Some(v@), Err(_) => None }),
    {
        match (pending, reply) {
            (PendingSocketOp::Open { .. }, Ok(NetStackResponse::SocketOpened(_))) => self.next_fd < u32::MAX,
            _ => true,
        }
    }

    /// Second step of a request: the reply, given the network stack's answer,
    /// as `socket_complete_reply` and `socket_after_complete` say.
    pub fn complete(&mut self, pending: PendingSocketOp, reply: Result<NetStackResponse, ()>) -> (r: SocketResponse)
        requires
            old(self).wf(),
            complete_accepts(old(self)@, pending, match reply { Ok(v) => Some(v@), Err(_) => None }),
        ensures
            final(self).wf(),
            final(self)@ == socket_after_complete(old(self)@, pending, match reply { Ok(v) => Some(v@), Err(_) => None }),
            r@ == socket_complete_reply(old(self)@, pending, match reply { Ok(v) => Some(v@), Err(_) => None }),
    {
        match reply {
            Ok(NetStackResponse::SocketOpened(handle)) => {
                match pending {
                    PendingSocketOp::Open { ty } => {
                        let fd = self.next_fd;
                        self.next_fd = self.next_fd + 1;
                        self.sockets.insert(fd, SocketInfo { net_socket_handle: handle, socket_type: ty, is_listening: false });
                        assert forall|k: SocketFd| #[trigger] self@.sockets.contains_key(k) implies 1 <= k < self@.next_fd by {
                            if k != fd {
                                assert(old(self)@.sockets.contains_key(k));
                            }
                        }
                        SocketResponse::Success(fd as i32)
                    },
                    PendingSocketOp::Bind { fd } => {
                        match self.sockets.get(&fd) {
                            Some(info) => {
                                let updated = SocketInfo { net_socket_handle: handle, ..*info };
                                self.sockets.insert(fd, updated);
                                assert forall|k: SocketFd| #[trigger] self@.sockets.contains_key(k) implies 1 <= k < self@.next_fd by {
                                    assert(old(self)@.sockets.contains_key(k));
                                }
                            },
                            None => {},
                        }
                        SocketResponse::Success(0)
                    },
                    _ => error_reply(-1, unexpected_text(pending)),
                }
            },
            Ok(NetStackResponse::Success) => {
                match pending {
                    PendingSocketOp::Connect | PendingSocketOp::Send | PendingSocketOp::Close => SocketResponse::Success(0),
                    _ => error_reply(-1, unexpected_text(pending)),
                }
            },
            Ok(NetStackResponse::Data(data)) => {
                match pending {
                    PendingSocketOp::Recv => SocketResponse::Data(data),
                    _ => error_reply(-1, unexpected_text(pending)),
                }
            },
            Ok(NetStackResponse::Error(code)) => error_reply(code as i32, failure_text(pending)),
            Err(_) => error_reply(-1, unexpected_text(pending)),
        }
    }
}

/// Law: every step keeps every descriptor below the next one.
pub proof fn law_socket_descriptors_stay_below_next(
    s: SocketApiState,
    req: SocketRequestView,
    p: PendingSocketOp,
    reply: Option<NetStackResponseView>,
)
    requires
        socket_state_wf(s),
        complete_accepts(s, p, reply),
    ensures
        socket_state_wf(socket_after_step(s, req)),
        socket_state_wf(socket_after_complete(s, p, reply)),
{
}

/// Law: a socket opened by the network stack gets a descriptor that no
/// socket had, which then names the network stack's socket.
pub proof fn law_open_gives_fresh_descriptor(s: SocketApiState, ty: i32, handle: u32)
    requires
        socket_state_wf(s),
        s.next_fd < u32::MAX,
    ensures
        ({
            let reply = Some(NetStackResponseView::SocketOpened(handle));
            let p = PendingSocketOp::Open { ty };
            let s1 = socket_after_complete(s, p, reply);
            &&& !s.sockets.contains_key(s.next_fd)
            &&& socket_complete_reply(s, p, reply) == SocketResponseView::Success(s.next_fd as i32)
            &&& s1.sockets[s.next_fd].net_socket_handle == handle
            &&& s1.sockets[s.next_fd].socket_type == ty
        }),
{
}

/// Law: requests on a descriptor that is not open are answered "Bad file
/// descriptor", ask nothing of the network stack, and change nothing.
pub proof fn law_unknown_descriptor_is_refused(s: SocketApiState, req: SocketRequestView)
    requires
        match req {
            SocketRequestView::Bind { fd, .. } => !s.sockets.contains_key(fd),
            SocketRequestView::Listen { fd, .. } => !s.sockets.contains_key(fd),
            SocketRequestView::Connect { fd, .. } => !s.sockets.contains_key(fd),
            SocketRequestView::Send { fd, .. } => !s.sockets.contains_key(fd),
            SocketRequestView::Recv { fd, .. } => !s.sockets.contains_key(fd),
            SocketRequestView::Close { fd } => !s.sockets.contains_key(fd),
            _ => false,
        },
    ensures
        socket_step(s, req) == SocketStepView::Reply(bad_fd_reply()),
        socket_after_step(s, req) == s,
{
    match req {
        SocketRequestView::Close { fd } => {
            assert(s.sockets.remove(fd) =~= s.sockets);
        },
        _ => {},
    }
}

/// Law: a close drops the descriptor at once, whatever the network stack
/// answers afterwards; later requests on it are refused.
pub proof fn law_close_drops_descriptor(s: SocketApiState, fd: SocketFd, reply: Option<NetStackResponseView>)
    ensures
        !socket_after_step(s, SocketRequestView::Close { fd }).sockets.contains_key(fd),
        socket_after_complete(socket_after_step(s, SocketRequestView::Close { fd }), PendingSocketOp::Close, reply)
            == socket_after_step(s, SocketRequestView::Close { fd }),
{
}

/// One event of the socket API: a client request takes its first step, or
/// a pending operation completes with the network stack's answer.
pub enum SocketEvent {
    Request(SocketRequestView),
    Complete(PendingSocketOp, Option<NetStackResponseView>),
}

/// The state after one event.
pub open spec fn socket_event_next(s: SocketApiState, e: SocketEvent) -> SocketApiState {
    match e {
        SocketEvent::Request(req) => socket_after_step(s, req),
        SocketEvent::Complete(p, reply) => socket_after_complete(s, p, reply),
    }
}

/// Whether an event is an open that the network stack granted: the one kind
/// of event that hands out a descriptor.
pub open spec fn is_granted_open(e: SocketEvent) -> bool {
    e matches SocketEvent::Complete(PendingSocketOp::Open { .. }, Some(NetStackResponseView::SocketOpened(_)))
}

/// The state after the events `evs` in turn, from state `s`.
pub open spec fn socket_run(s: SocketApiState, evs: Seq<SocketEvent>) -> SocketApiState
    decreases evs.len(),
{
    if evs.len() == 0 {
        s
    } else {
        socket_event_next(socket_run(s, evs.drop_last()), evs.last())
    }
}

/// The number of granted opens among `evs`.
pub open spec fn granted_opens(evs: Seq<SocketEvent>) -> nat
    decreases evs.len(),
{
    if evs.len() == 0 {
        0
    } else {
        granted_opens(evs.drop_last()) + if is_granted_open(evs.last()) { 1nat } else { 0nat }
    }
}

/// Law: over any run of events whose granted opens all find a descriptor
/// (fewer than `u32::MAX` in all), every completion is one that `complete`
/// takes, descriptors stay in 1..next, and the next descriptor grows by
/// exactly one per granted open and is left alone by every other event.
pub proof fn law_socket_run_counts_opens(s: SocketApiState, evs: Seq<SocketEvent>)
    requires
        socket_state_wf(s),
        s.next_fd + granted_opens(evs) <= u32::MAX,
    ensures
        socket_state_wf(socket_run(s, evs)),
        socket_run(s, evs).next_fd == s.next_fd + granted_opens(evs),
        evs.len() > 0 ==> (evs.last() matches SocketEvent::Complete(p, reply) ==> complete_accepts(
            socket_run(s, evs.drop_last()),
            p,
            reply,
        )),
    decreases evs.len(),
{
    if evs.len() > 0 {
        law_socket_run_counts_opens(s, evs.drop_last());
        let prev = socket_run(s, evs.drop_last());
        match evs.last() {
            SocketEvent::Request(req) => {
                law_socket_descriptors_stay_below_next(prev, req, PendingSocketOp::Connect, None);
            },
            SocketEvent::Complete(p, reply) => {
                law_socket_descriptors_stay_below_next(prev, SocketRequestView::Accept { fd: 0 }, p, reply);
            },
        }
    }
}

/// A prefix has no more granted opens than a longer prefix.
proof fn lemma_granted_opens_prefix(evs: Seq<SocketEvent>, i: int, j: int)
    requires
        0 <= i <= j <= evs.len(),
    ensures
        granted_opens(evs.take(i)) <= granted_opens(evs.take(j)),
    decreases j - i,
{
    if i < j {
        lemma_granted_opens_prefix(evs, i, j - 1);
        assert(evs.take(j).drop_last() =~= evs.take(j - 1));
    }
}

/// Law: descriptors are never reused. In a run whose granted opens fit, the
/// granted open at position `i` is answered with the first descriptor plus
/// the number of granted opens before it (from a new table: 1, 2, 3, ...),
/// and a later granted open gets a larger one.
pub proof fn law_socket_descriptors_never_reused(s: SocketApiState, evs: Seq<SocketEvent>, i: int, j: int)
    requires
        socket_state_wf(s),
        s.next_fd + granted_opens(evs) <= u32::MAX,
        0 <= i < j < evs.len(),
        is_granted_open(evs[i]),
        is_granted_open(evs[j]),
    ensures
        ({
            let before = socket_run(s, evs.take(i));
            match evs[i] {
                SocketEvent::Complete(p, reply) => socket_complete_reply(before, p, reply)
                    == SocketResponseView::Success((s.next_fd + granted_opens(evs.take(i))) as i32),
                _ => false,
            }
        }),
        socket_run(s, evs.take(i)).next_fd < socket_run(s, evs.take(j)).next_fd,
{
    lemma_granted_opens_prefix(evs, i, evs.len() as int);
    lemma_granted_opens_prefix(evs, j, evs.len() as int);
    lemma_granted_opens_prefix(evs, i + 1, j);
    assert(evs.take(evs.len() as int) =~= evs);
    law_socket_run_counts_opens(s, evs.take(i));
    law_socket_run_counts_opens(s, evs.take(j));
    assert(evs.take(i + 1).drop_last() =~= evs.take(i));
    assert(evs.take(i + 1).last() == evs[i]);
}

/// Law: a descriptor that is not open and was handed out before stays
/// closed over any run whose granted opens fit: no open hands it out again,
/// so requests on it keep being refused.
pub proof fn law_socket_closed_descriptor_stays_closed(s: SocketApiState, evs: Seq<SocketEvent>, fd: SocketFd)
    requires
        socket_state_wf(s),
        s.next_fd + granted_opens(evs) <= u32::MAX,
        fd < s.next_fd,
        !s.sockets.contains_key(fd),
    ensures
        !socket_run(s, evs).sockets.contains_key(fd),
    decreases evs.len(),
{
    if evs.len() > 0 {
        law_socket_closed_descriptor_stays_closed(s, evs.drop_last(), fd);
        law_socket_run_counts_opens(s, evs.drop_last());
    }
}

/// Law: a request on an open descriptor is passed to the network stack for
/// that descriptor's network socket, with the client's own data: a send
/// forwards exactly the client's bytes, a connect the client's address and
/// port (with no data), and a receive and a close name the socket; only the
/// close changes the table, dropping that descriptor alone.
pub proof fn law_requests_forward_to_the_socket(
    s: SocketApiState,
    fd: SocketFd,
    data: Seq<u8>,
    addr: [u8; 4],
    port: u16,
    len: usize,
    other: SocketFd,
)
    requires
        s.sockets.contains_key(fd),
    ensures
        ({
            let h = s.sockets[fd].net_socket_handle;
            &&& socket_step(s, SocketRequestView::Send { fd, data }) == (SocketStepView::AskNet {
                request: NetStackRequestView::Send(h, data),
                pending: PendingSocketOp::Send,
            })
            &&& socket_step(s, SocketRequestView::Connect { fd, addr, port }) == (SocketStepView::AskNet {
                request: NetStackRequestView::SendTo(h, addr, port, Seq::empty()),
                pending: PendingSocketOp::Connect,
            })
            &&& socket_step(s, SocketRequestView::Recv { fd, len }) == (SocketStepView::AskNet {
                request: NetStackRequestView::Recv(h),
                pending: PendingSocketOp::Recv,
            })
            &&& socket_step(s, SocketRequestView::Close { fd }) == (SocketStepView::AskNet {
                request: NetStackRequestView::CloseSocket(h),
                pending: PendingSocketOp::Close,
            })
            &&& socket_after_step(s, SocketRequestView::Send { fd, data }) == s
            &&& socket_after_step(s, SocketRequestView::Connect { fd, addr, port }) == s
            &&& socket_after_step(s, SocketRequestView::Recv { fd, len }) == s
            &&& !socket_after_step(s, SocketRequestView::Close { fd }).sockets.contains_key(fd)
            &&& other != fd ==> socket_after_step(s, SocketRequestView::Close { fd }).sockets.contains_key(other)
                == s.sockets.contains_key(other)
        }),
{
}

/// Law: a socket request asks the network stack for a TCP socket (type 0)
/// for a stream (1) and a UDP socket (type 1) for a datagram (2), on no port;
/// other types are answered with error 100 at once. A bind asks for a new
/// socket of the descriptor's type on the requested port. A listen on an
/// open descriptor marks it listening and succeeds at once.
pub proof fn law_open_bind_listen_requests(
    s: SocketApiState,
    domain: i32,
    ty: i32,
    protocol: i32,
    fd: SocketFd,
    addr: [u8; 4],
    port: u16,
    backlog: i32,
)
    ensures
        socket_step(s, SocketRequestView::Socket { domain, ty, protocol }) == (if ty == 1 {
            SocketStepView::AskNet { request: NetStackRequestView::OpenSocket(0, 0), pending: PendingSocketOp::Open { ty } }
        } else if ty == 2 {
            SocketStepView::AskNet { request: NetStackRequestView::OpenSocket(1, 0), pending: PendingSocketOp::Open { ty } }
        } else {
            SocketStepView::Reply(SocketResponseView::Error(100, "Unsupported socket type"@))
        }),
        s.sockets.contains_key(fd) && (s.sockets[fd].socket_type == 1 || s.sockets[fd].socket_type == 2) ==> (
            socket_step(s, SocketRequestView::Bind { fd, addr, port }) == SocketStepView::AskNet {
                request: NetStackRequestView::OpenSocket((s.sockets[fd].socket_type - 1) as u32, port),
                pending: PendingSocketOp::Bind { fd },
            }),
        s.sockets.contains_key(fd) ==> ({
            &&& socket_step(s, SocketRequestView::Listen { fd, backlog }) == SocketStepView::Reply(
                SocketResponseView::Success(0),
            )
            &&& socket_after_step(s, SocketRequestView::Listen { fd, backlog }).sockets[fd] == (SocketInfo {
                is_listening: true,
                ..s.sockets[fd]
            })
        }),
{
}

/// Law: the network stack's answer decides the reply. A granted open is
/// answered with the next descriptor, which then names the granted socket
/// with the requested type, not listening; a receive is answered with
/// exactly the bytes received; an error code of the stack is passed on as
/// the reply's code; a connect, send or close that the stack confirms is
/// answered `Success(0)`; a granted bind moves the descriptor to the new
/// network socket, keeping its type and listening flag, and answers
/// `Success(0)`.
pub proof fn law_completion_replies(
    s: SocketApiState,
    ty: i32,
    h: u32,
    d: Seq<u8>,
    code: u32,
    p: PendingSocketOp,
    bfd: SocketFd,
)
    requires
        s.next_fd < u32::MAX,
    ensures
        socket_complete_reply(s, PendingSocketOp::Open { ty }, Some(NetStackResponseView::SocketOpened(h)))
            == SocketResponseView::Success(s.next_fd as i32),
        socket_after_complete(s, PendingSocketOp::Open { ty }, Some(NetStackResponseView::SocketOpened(h))).sockets
            == s.sockets.insert(s.next_fd, (SocketInfo { net_socket_handle: h, socket_type: ty, is_listening: false })),
        socket_complete_reply(s, PendingSocketOp::Recv, Some(NetStackResponseView::Data(d)))
            == SocketResponseView::Data(d),
        (socket_complete_reply(s, p, Some(NetStackResponseView::Error(code))) matches SocketResponseView::Error(c, _)
            && c == code as i32),
        (p is Connect || p is Send || p is Close) ==> socket_complete_reply(s, p, Some(NetStackResponseView::Success))
            == SocketResponseView::Success(0),
        socket_after_complete(s, p, Some(NetStackResponseView::Error(code))) == s,
        (p == PendingSocketOp::Bind { fd: bfd } && s.sockets.contains_key(bfd)) ==> {
            &&& socket_complete_reply(s, p, Some(NetStackResponseView::SocketOpened(h)))
                == SocketResponseView::Success(0)
            &&& socket_after_complete(s, p, Some(NetStackResponseView::SocketOpened(h))).sockets
                == s.sockets.insert(bfd, (SocketInfo { net_socket_handle: h, ..s.sockets[bfd] }))
            &&& socket_after_complete(s, p, Some(NetStackResponseView::SocketOpened(h))).next_fd == s.next_fd
        },
{
}

/// Law: the messages of the socket API's error replies. A descriptor that
/// is not open gets (-1, "Bad file descriptor"), an unsupported type (100,
/// "Unsupported socket type"), an accept (11, "Operation would block
/// (EWOULDBLOCK)"). An error of the network stack keeps its code and names
/// the operation that failed; an answer of the wrong kind, or none, gets -1
/// and names the operation during which it came.
pub proof fn law_error_replies(s: SocketApiState, fd: SocketFd, p: PendingSocketOp, code: u32)
    ensures
        bad_fd_reply() == SocketResponseView::Error(-1i32, "Bad file descriptor"@),
        unsupported_reply() == SocketResponseView::Error(100, "Unsupported socket type"@),
        socket_step(s, SocketRequestView::Accept { fd }) == SocketStepView::Reply(
            SocketResponseView::Error(11, "Operation would block (EWOULDBLOCK)"@),
        ),
        socket_complete_reply(s, p, Some(NetStackResponseView::Error(code))) == SocketResponseView::Error(
            code as i32,
            match p {
                PendingSocketOp::Open { .. } => "Failed to open socket in AetherNet"@,
                PendingSocketOp::Bind { .. } => "Failed to bind socket in AetherNet"@,
                PendingSocketOp::Connect => "Failed to connect via AetherNet"@,
                PendingSocketOp::Send => "Failed to send via AetherNet"@,
                PendingSocketOp::Recv => "Failed to receive via AetherNet"@,
                PendingSocketOp::Close => "Failed to close socket in AetherNet"@,
            },
        ),
        socket_complete_reply(s, p, None) == SocketResponseView::Error(
            -1i32,
            match p {
                PendingSocketOp::Open { .. } => "Unexpected response from AetherNet during Socket open"@,
                PendingSocketOp::Bind { .. } => "Unexpected response from AetherNet during Bind"@,
                PendingSocketOp::Connect => "Unexpected response from AetherNet during Connect"@,
                PendingSocketOp::Send => "Unexpected response from AetherNet during Send"@,
                PendingSocketOp::Recv => "Unexpected response from AetherNet during Recv"@,
                PendingSocketOp::Close => "Unexpected response from AetherNet during Close"@,
            },
        ),
        !(p is Recv) ==> socket_complete_reply(s, p, Some(NetStackResponseView::Data(Seq::empty()))) is Error,
{
}

} // verus!
