//! The V-Node side of a channel: a channel id and a receive buffer.
use vstd::prelude::*;
use crate::ipc::IpcSend;
use crate::kernel::ipc::KERNEL_CHANNEL_SLOTS;
use crate::kernel::syscall::{
    syscall_dispatch, kernel_after_recv, recv_code, recv_copy, Kernel, KernelView, SUCCESS, SYS_BLOCK_ON_CHAN,
    SYS_IPC_RECV, SYS_IPC_RECV_NONBLOCKING, SYS_IPC_SEND,
};

verus! {

/// Size of a V-Node's receive buffer.
pub const CHANNEL_BUFFER_LEN: usize = 4096;

/// A receive buffer: the bytes into which the kernel copies a message.
pub struct RecvBuffer {
    bytes: Vec<u8>,
}

impl View for RecvBuffer {
    type V = Seq<u8>;

    closed spec fn view(&self) -> Seq<u8> {
        self.bytes@
    }
}

/// A V-Node's end of a kernel channel.
pub struct VNodeChannel {
    pub id: u32,
    pub buffer: RecvBuffer,
}

/// The receive buffer after a receive that hands back `copy`: the copied
/// bytes at its start, the rest as it was.
pub open spec fn buffer_after_copy(buffer: Seq<u8>, copy: Option<Seq<u8>>) -> Seq<u8> {
    match copy {
        Some(d) => d + buffer.subrange(d.len() as int, buffer.len() as int),
        None => buffer,
    }
}

/// What a receive returns, given the syscall's code and the buffer after it:
/// the first `code` bytes of the buffer where the code is positive, nothing
/// where it is zero.
pub open spec fn recv_reply(code: u64, buffer: Seq<u8>) -> Option<Seq<u8>> {
    if code > 0 { Some(buffer.subrange(0, code as int)) } else { None }
}

/// Law: a receive on a channel whose oldest message is non-empty and fits
/// the receive buffer hands out exactly that message. An empty message
/// leaves the queue too, but reads as no message.
pub proof fn law_vnode_receive_returns_oldest_message(k: KernelView, id: u32, buffer: Seq<u8>)
    requires
        buffer.len() == CHANNEL_BUFFER_LEN,
        k.channels.len() == KERNEL_CHANNEL_SLOTS,
        (id as int) < KERNEL_CHANNEL_SLOTS,
        k.channels[id as int] matches Some(q) && q.len() > 0 && q[0].len() <= CHANNEL_BUFFER_LEN,
    ensures
        ({
            let q = k.channels[id as int].unwrap();
            let code = recv_code(k, id, CHANNEL_BUFFER_LEN);
            let after = buffer_after_copy(buffer, recv_copy(k, id, CHANNEL_BUFFER_LEN));
            &&& q[0].len() > 0 ==> recv_reply(code, after) == Some(q[0])
            &&& q[0].len() == 0 ==> recv_reply(code, after) is None
            &&& kernel_after_recv(k, id).channels[id as int] == Some(q.drop_first())
        }),
{
    let q = k.channels[id as int].unwrap();
    let after = buffer_after_copy(buffer, recv_copy(k, id, CHANNEL_BUFFER_LEN));
    assert(after.subrange(0, q[0].len() as int) =~= q[0]);
}

impl VNodeChannel {
    /// The receive buffer has its full size.
    pub open spec fn wf(&self) -> bool {
        self.buffer@.len() == CHANNEL_BUFFER_LEN
    }

    /// The kernel channel that this end uses.
    pub open spec fn channel(&self) -> u32 {
        self.id
    }

    /// The contents of the receive buffer.
    pub open spec fn buffer_view(&self) -> Seq<u8> {
        self.buffer@
    }

    /// A channel end for kernel channel `id`, with a zeroed receive buffer.
    pub fn new(id: u32) -> (c: Self)
        ensures
            c.channel() == id,
            c.wf(),
            c.buffer_view() == Seq::new(CHANNEL_BUFFER_LEN as nat, |i: int| 0u8),
    {
        let mut buffer: Vec<u8> = Vec::new();
        while buffer.len() < CHANNEL_BUFFER_LEN
            invariant
                buffer@.len() <= CHANNEL_BUFFER_LEN,
                forall|i: int| 0 <= i < buffer@.len() ==> buffer@[i] == 0u8,
            decreases CHANNEL_BUFFER_LEN - buffer@.len(),
        {
            buffer.push(0u8);
        }
        assert(buffer@ =~= Seq::new(CHANNEL_BUFFER_LEN as nat, |i: int| 0u8));
        VNodeChannel { id, buffer: RecvBuffer { bytes: buffer } }
    }

    /// Copies `data` to the start of the receive buffer.
    fn copy_into_buffer(&mut self, data: &Vec<u8>)
        requires
            old(self).wf(),
            data@.len() <= CHANNEL_BUFFER_LEN,
        ensures
            final(self).wf(),
            final(self).channel() == old(self).channel(),
            final(self).buffer_view() == buffer_after_copy(old(self).buffer_view(), Some(data@)),
    {
        let ghost orig = self.buffer@;
        let ghost id0 = self.id;
        let mut i: usize = 0;
        while i < data.len()
            invariant
                self.id == id0,
                i <= data@.len() <= CHANNEL_BUFFER_LEN,
                self.buffer@.len() == CHANNEL_BUFFER_LEN,
                orig.len() == CHANNEL_BUFFER_LEN,
                forall|j: int| 0 <= j < i ==> self.buffer@[j] == data@[j],
                forall|j: int| i <= j < CHANNEL_BUFFER_LEN ==> self.buffer@[j] == orig[j],
            decreases data@.len() - i,
        {
            self.buffer.bytes.set(i, data[i]);
            i = i + 1;
        }
        assert(self.buffer@ =~= buffer_after_copy(orig, Some(data@)));
    }

    /// Runs a receive syscall `n` for this channel into the receive buffer,
    /// and returns its code.
    fn receive_into_buffer(&mut self, kernel: &mut Kernel, n: u64) -> (code: u64)
        requires
            old(self).wf(),
            old(kernel).wf(),
            (old(self).channel() as int) < KERNEL_CHANNEL_SLOTS,
            n == SYS_IPC_RECV || n == SYS_IPC_RECV_NONBLOCKING,
        ensures
            final(self).wf(),
            final(self).channel() == old(self).channel(),
            final(kernel).wf(),
            final(kernel)@ == kernel_after_recv(old(kernel)@, old(self).channel()),
            code == recv_code(old(kernel)@, old(self).channel(), CHANNEL_BUFFER_LEN),
            final(self).buffer_view() == buffer_after_copy(
                old(self).buffer_view(),
                recv_copy(old(kernel)@, old(self).channel(), CHANNEL_BUFFER_LEN),
            ),
            code <= CHANNEL_BUFFER_LEN,
    {
        let outcome = syscall_dispatch(kernel, n, self.id as u64, 0, CHANNEL_BUFFER_LEN as u64, &[]);
        assert((self.id as u64) as u32 == self.id);
        match outcome.copy_out {
            Some(data) => {
                self.copy_into_buffer(&data);
            },
            None => {},
        }
        outcome.code
    }

    /// Receives one message, blocking on the channel when it is empty. This is
    /// one round: it returns the message where there is one, and otherwise
    /// blocks once and returns `None`; a receiver repeats it until it gets a
    /// message.
    pub fn recv_blocking(&mut self, kernel: &mut Kernel) -> (r: Result<Option<Vec<u8>>, ()>)
        requires
            old(self).wf(),
            old(kernel).wf(),
            (old(self).channel() as int) < KERNEL_CHANNEL_SLOTS,
        ensures
            final(self).wf(),
            final(self).channel() == old(self).channel(),
            final(kernel).wf(),
            final(kernel)@ == kernel_after_recv(old(kernel)@, old(self).channel()),
            final(self).buffer_view() == buffer_after_copy(
                old(self).buffer_view(),
                recv_copy(old(kernel)@, old(self).channel(), CHANNEL_BUFFER_LEN),
            ),
            r is Ok,
            match r.unwrap() {
                Some(v) => recv_reply(recv_code(old(kernel)@, old(self).channel(), CHANNEL_BUFFER_LEN), final(self).buffer_view()) == Some(v@),
                None => recv_reply(recv_code(old(kernel)@, old(self).channel(), CHANNEL_BUFFER_LEN), final(self).buffer_view()) is None,
            },
    {
        let len = self.receive_into_buffer(kernel, SYS_IPC_RECV);
        if len > 0 {
            let data = vstd::slice::slice_to_vec(vstd::slice::slice_subrange(self.buffer.bytes.as_slice(), 0, len as usize));
            Ok(Some(data))
        } else {
            let _ = syscall_dispatch(kernel, SYS_BLOCK_ON_CHAN, self.id as u64, 0, 0, &[]);
            Ok(None)
        }
    }

    /// Receives one message if the channel has one, without blocking.
    ///
    /// The code of the receive decides: a positive code hands out that many
    /// bytes of the receive buffer, zero hands out nothing. (A message that
    /// does not fit the buffer is dropped by the kernel, whose code `E_ERROR`
    /// then hands out the buffer's first byte.)
    pub fn recv_non_blocking(&mut self, kernel: &mut Kernel) -> (r: Result<Option<Vec<u8>>, ()>)
        requires
            old(self).wf(),
            old(kernel).wf(),
            (old(self).channel() as int) < KERNEL_CHANNEL_SLOTS,
        ensures
            final(self).wf(),
            final(self).channel() == old(self).channel(),
            final(kernel).wf(),
            final(kernel)@ == kernel_after_recv(old(kernel)@, old(self).channel()),
            final(self).buffer_view() == buffer_after_copy(
                old(self).buffer_view(),
                recv_copy(old(kernel)@, old(self).channel(), CHANNEL_BUFFER_LEN),
            ),
            r is Ok,
            match r.unwrap() {
                Some(v) => recv_reply(recv_code(old(kernel)@, old(self).channel(), CHANNEL_BUFFER_LEN), final(self).buffer_view()) == Some(v@),
                None => recv_reply(recv_code(old(kernel)@, old(self).channel(), CHANNEL_BUFFER_LEN), final(self).buffer_view()) is None,
            },
    {
        let len = self.receive_into_buffer(kernel, SYS_IPC_RECV_NONBLOCKING);
        if len > 0 {
            let data = vstd::slice::slice_to_vec(vstd::slice::slice_subrange(self.buffer.bytes.as_slice(), 0, len as usize));
            Ok(Some(data))
        } else {
            Ok(None)
        }
    }
}

impl IpcSend for VNodeChannel {
    open spec fn send_channel(&self) -> u32 {
        self.id
    }

    /// Sending leaves this channel end as it was: its id and its receive
    /// buffer.
    fn send_raw(&mut self, kernel: &mut Kernel, bytes: &[u8]) -> (r: Result<(), ()>)
        ensures
            *final(self) == *old(self),
    {
        let outcome = syscall_dispatch(kernel, SYS_IPC_SEND, self.id as u64, 0, bytes.len() as u64, bytes);
        assert((self.id as u64) as u32 == self.id);
        if outcome.code == SUCCESS {
            Ok(())
        } else {
            Err(())
        }
    }
}

} // verus!
