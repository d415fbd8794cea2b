//! The syscall dispatcher.
//!
//! A syscall is a number and three arguments. Where a syscall reads user
//! memory (the message of `SYS_LOG`, the payload of `SYS_IPC_SEND`), the
//! caller hands the bytes of that range in as `input`; `user_input_range`
//! says which range that is. Where it writes user memory (a received
//! message), the bytes come back in the outcome's `copy_out`, to be written
//! at the address in the second argument.
use vstd::prelude::*;
use vstd::utf8::valid_utf8;
use vstd::utf8::decode_utf8;
use crate::kernel::caps::Capability;
use crate::kernel::console;
use crate::kernel::dma::{self, DmaBuffers, DmaBuffersView, DmaView};
use crate::kernel::ipc::{self, KernelChannels, KERNEL_CHANNEL_SLOTS};
use crate::kernel::irq;
use crate::kernel::task::{self, task_holds};

pub use crate::kernel::error::{E_ACC_DENIED, E_ERROR, E_UNKNOWN_SYSCALL, SUCCESS};

verus! {

pub const SYS_LOG: u64 = 0;
pub const SYS_IPC_SEND: u64 = 1;
pub const SYS_IPC_RECV: u64 = 2;
pub const SYS_BLOCK_ON_CHAN: u64 = 3;
pub const SYS_TIME: u64 = 4;
pub const SYS_IRQ_REGISTER: u64 = 5;
pub const SYS_NET_RX_POLL: u64 = 6;
pub const SYS_NET_ALLOC_BUF: u64 = 7;
pub const SYS_NET_FREE_BUF: u64 = 8;
pub const SYS_NET_TX: u64 = 9;
pub const SYS_IRQ_ACK: u64 = 10;
pub const SYS_GET_DMA_BUF_PTR: u64 = 11;
pub const SYS_SET_DMA_BUF_LEN: u64 = 12;
pub const SYS_IPC_RECV_NONBLOCKING: u64 = 13;

/// Length of the frame that `SYS_NET_RX_POLL` delivers.
pub const RX_FRAME_LEN: usize = 42;

/// `Utf8Error` of `core::str`.
#[verifier::external_type_specification]
#[verifier::external_body]
pub struct ExUtf8Error(core::str::Utf8Error);

/// `core::str::from_utf8`: succeeds exactly on valid UTF-8, and then the
/// string holds the characters that the bytes encode.
#[verifier::external_body]
fn str_from_utf8(bytes: &[u8]) -> (r: Result<&str, core::str::Utf8Error>)
    ensures
        r is Ok <==> valid_utf8(bytes@),
        r matches Ok(s) ==> s@ == decode_utf8(bytes@),
{
    core::str::from_utf8(bytes)
}

/// The frame that `SYS_NET_RX_POLL` delivers: an ARP request from
/// 192.168.1.1 for 192.168.1.2, broadcast.
pub open spec fn rx_frame() -> Seq<u8> {
    seq![
        0xFFu8, 0xFF, 0xFF, 0xFF, 0xFF, 0xFF, 0x00, 0x00, 0x00, 0x00, 0x00, 0x01, 0x08,
        0x06, 0x00, 0x01, 0x08, 0x00, 0x06, 0x04, 0x00, 0x01, 0x00, 0x00, 0x00, 0x00,
        0x00, 0x01, 0xC0, 0xA8, 0x01, 0x01, 0x00, 0x00, 0x00, 0x00, 0x00, 0x00, 0xC0,
        0xA8, 0x01, 0x02,
    ]
}

fn make_rx_frame() -> (f: Vec<u8>)
    ensures
        f@ == rx_frame(),
{
    let f: Vec<u8> = vec![
        0xFFu8, 0xFF, 0xFF, 0xFF, 0xFF, 0xFF, 0x00, 0x00, 0x00, 0x00, 0x00, 0x01, 0x08,
        0x06, 0x00, 0x01, 0x08, 0x00, 0x06, 0x04, 0x00, 0x01, 0x00, 0x00, 0x00, 0x00,
        0x00, 0x01, 0xC0, 0xA8, 0x01, 0x01, 0x00, 0x00, 0x00, 0x00, 0x00, 0x00, 0xC0,
        0xA8, 0x01, 0x02,
    ];
    assert(f@ =~= rx_frame());
    f
}

/// The state that syscalls read and change: the channel table, the DMA
/// buffers and the tick counter.
pub struct Kernel {
    channels: KernelChannels,
    dma: DmaBuffers,
    ticks: u64,
}

/// The model of the kernel state.
pub struct KernelView {
    pub channels: Seq<Option<Seq<Seq<u8>>>>,
    pub dma: DmaBuffersView,
    pub ticks: u64,
}

impl View for Kernel {
    type V = KernelView;

    closed spec fn view(&self) -> KernelView {
        KernelView { channels: self.channels@, dma: self.dma@, ticks: self.ticks }
    }
}

/// What a syscall returns: its code, and the bytes to write to user memory.
pub struct SyscallOutcome {
    pub code: u64,
    pub copy_out: Option<Vec<u8>>,
}

/// The capability that syscall `n` asks of the task, if any.
pub open spec fn required_cap(n: u64) -> Option<Capability> {
    if n == SYS_LOG {
        Some(Capability::LogWrite)
    } else if n == SYS_TIME {
        Some(Capability::TimeRead)
    } else if n == SYS_IRQ_REGISTER || n == SYS_NET_RX_POLL || n == SYS_NET_ALLOC_BUF
        || n == SYS_NET_FREE_BUF || n == SYS_NET_TX || n == SYS_IRQ_ACK || n == SYS_GET_DMA_BUF_PTR
        || n == SYS_SET_DMA_BUF_LEN {
        Some(Capability::NetworkAccess)
    } else {
        None
    }
}

/// Whether syscall `n` names a channel in its first argument.
pub open spec fn uses_channel(n: u64) -> bool {
    n == SYS_IPC_SEND || n == SYS_IPC_RECV || n == SYS_IPC_RECV_NONBLOCKING
}

/// The inputs on which the dispatcher is defined: a syscall that names a
/// channel names one of the table's slots, and a DMA allocation asks for no
/// more than `isize::MAX` bytes.
pub open spec fn syscall_accepts(n: u64, a1: u64) -> bool {
    &&& uses_channel(n) ==> ((a1 as u32) as int) < KERNEL_CHANNEL_SLOTS
    &&& n == SYS_NET_ALLOC_BUF ==> (a1 as usize) <= isize::MAX
}

/// The kernel state after a receive on channel slot `id`: the oldest message
/// of the channel there, if any, leaves the queue.
pub open spec fn kernel_after_recv(pre: KernelView, id: u32) -> KernelView {
    match pre.channels[id as int] {
        Some(q) if q.len() > 0 => KernelView {
            channels: pre.channels.update(id as int, Some(q.drop_first())),
            ..pre
        },
        _ => pre,
    }
}

/// The code that a receive on slot `id` into a buffer of `cap` bytes returns:
/// the message's length where it fits, `E_ERROR` where it does not (the
/// message is dropped), and `SUCCESS` where there is no message.
pub open spec fn recv_code(pre: KernelView, id: u32, cap: usize) -> u64 {
    match pre.channels[id as int] {
        Some(q) if q.len() > 0 => if q[0].len() <= cap { q[0].len() as u64 } else { E_ERROR },
        _ => SUCCESS,
    }
}

/// The bytes that a receive on slot `id` into a buffer of `cap` bytes writes
/// to user memory.
pub open spec fn recv_copy(pre: KernelView, id: u32, cap: usize) -> Option<Seq<u8>> {
    match pre.channels[id as int] {
        Some(q) if q.len() > 0 => if q[0].len() <= cap { Some(q[0]) } else { None },
        _ => None,
    }
}

/// What syscall `n` does once its capability check has passed: how the kernel
/// state goes from `pre` to `post`, which code it returns and what it writes
/// back to user memory.
pub open spec fn syscall_effect(
    pre: KernelView,
    post: KernelView,
    n: u64,
    a1: u64,
    a2: u64,
    a3: u64,
    input: Seq<u8>,
    code: u64,
    out: Option<Seq<u8>>,
) -> bool {
    if n == SYS_LOG {
        &&& post == pre
        &&& out is None
        &&& code == (if valid_utf8(input) { SUCCESS } else { E_ERROR })
    } else if n == SYS_IPC_SEND {
        let id = (a1 as u32) as int;
        &&& out is None
        &&& match pre.channels[id] {
            Some(q) => code == SUCCESS && post == KernelView {
                channels: pre.channels.update(id, Some(q.push(input))),
                ..pre
            },
            None => code == E_ERROR && post == pre,
        }
    } else if n == SYS_IPC_RECV || n == SYS_IPC_RECV_NONBLOCKING {
        &&& post == kernel_after_recv(pre, a1 as u32)
        &&& code == recv_code(pre, a1 as u32, a3 as usize)
        &&& out == recv_copy(pre, a1 as u32, a3 as usize)
    } else if n == SYS_BLOCK_ON_CHAN || n == SYS_IRQ_REGISTER || n == SYS_NET_TX || n == SYS_IRQ_ACK {
        code == SUCCESS && out is None && post == pre
    } else if n == SYS_TIME {
        code == pre.ticks && out is None && post == pre
    } else if n == SYS_NET_RX_POLL {
        let fits = pre.dma.buffers.contains_key(a2) && RX_FRAME_LEN <= (a3 as usize)
            && RX_FRAME_LEN <= pre.dma.buffers[a2].capacity();
        &&& out is None
        &&& if fits {
            let b = pre.dma.buffers[a2];
            &&& code == RX_FRAME_LEN
            &&& post == KernelView {
                dma: DmaBuffersView {
                    buffers: pre.dma.buffers.insert(
                        a2,
                        DmaView {
                            bytes: rx_frame() + b.bytes.subrange(RX_FRAME_LEN as int, b.bytes.len() as int),
                            len: RX_FRAME_LEN as nat,
                            addr: b.addr,
                        },
                    ),
                    ..pre.dma
                },
                ..pre
            }
        } else {
            code == E_ERROR && post == pre
        }
    } else if n == SYS_NET_ALLOC_BUF {
        let h = pre.dma.next_handle;
        &&& out is None
        &&& code == h
        &&& post.channels == pre.channels
        &&& post.ticks == pre.ticks
        &&& post.dma.next_handle == dma::next_handle_after(h)
        &&& post.dma.buffers.contains_key(h)
        &&& dma::is_fresh_buffer(post.dma.buffers[h])
        &&& post.dma.buffers[h].capacity() >= (a1 as usize)
        &&& post.dma.buffers == pre.dma.buffers.insert(h, post.dma.buffers[h])
    } else if n == SYS_NET_FREE_BUF {
        &&& out is None
        &&& code == SUCCESS
        &&& post == KernelView {
            dma: DmaBuffersView { buffers: pre.dma.buffers.remove(a1), ..pre.dma },
            ..pre
        }
    } else if n == SYS_GET_DMA_BUF_PTR {
        &&& out is None
        &&& post == pre
        &&& code == (if pre.dma.buffers.contains_key(a1) { pre.dma.buffers[a1].addr } else { E_ERROR })
    } else if n == SYS_SET_DMA_BUF_LEN {
        &&& out is None
        &&& if pre.dma.buffers.contains_key(a1) && (a2 as usize) <= pre.dma.buffers[a1].capacity() {
            &&& code == SUCCESS
            &&& post == KernelView {
                dma: DmaBuffersView {
                    buffers: pre.dma.buffers.insert(
                        a1,
                        DmaView { len: (a2 as usize) as nat, ..pre.dma.buffers[a1] },
                    ),
                    ..pre.dma
                },
                ..pre
            }
        } else {
            code == E_ERROR && post == pre
        }
    } else {
        code == E_UNKNOWN_SYSCALL && out is None && post == pre
    }
}

impl Kernel {
    /// The channel table and the DMA registry are well formed.
    pub closed spec fn wf(&self) -> bool {
        self.channels.wf() && self.dma.wf()
    }

    /// A well-formed kernel's channel table has one entry per slot.
    pub proof fn lemma_channel_slots(&self)
        requires
            self.wf(),
        ensures
            self@.channels.len() == KERNEL_CHANNEL_SLOTS,
    {
        self.channels.lemma_slot_count();
    }

    /// The kernel at boot: every channel slot empty, no DMA buffer, the first
    /// DMA handle 1, and the tick counter at zero.
    pub fn new() -> (k: Self)
        ensures
            k.wf(),
            k@.channels == Seq::new(KERNEL_CHANNEL_SLOTS as nat, |i: int| None::<Seq<Seq<u8>>>),
            k@.dma.next_handle == 1,
            k@.dma.buffers == Map::<u64, DmaView>::empty(),
            dma::handles_below_next(k@.dma),
            k@.ticks == 0,
    {
        Kernel { channels: KernelChannels::new(), dma: DmaBuffers::new(), ticks: 0 }
    }
}

/// Whether the dispatcher is defined on syscall `n` with first argument `a1`
/// (see `syscall_accepts`).
pub fn syscall_accepted(n: u64, a1: u64) -> (r: bool)
    ensures
        r == syscall_accepts(n, a1),
{
    if n == SYS_IPC_SEND || n == SYS_IPC_RECV || n == SYS_IPC_RECV_NONBLOCKING {
        ((a1 as u32) as usize) < KERNEL_CHANNEL_SLOTS
    } else if n == SYS_NET_ALLOC_BUF {
        (a1 as usize) <= (isize::MAX as usize)
    } else {
        true
    }
}

/// The user memory range (address, length) that syscall `n` reads, if any.
pub fn user_input_range(n: u64, a1: u64, a2: u64, a3: u64) -> (r: Option<(u64, u64)>)
    ensures
        r == (if n == SYS_LOG {
            Some((a1, a2))
        } else if n == SYS_IPC_SEND {
            Some((a2, a3))
        } else {
            None::<(u64, u64)>
        }),
{
    if n == SYS_LOG {
        Some((a1, a2))
    } else if n == SYS_IPC_SEND {
        Some((a2, a3))
    } else {
        None
    }
}

/// Runs syscall `n` with arguments `a1`, `a2`, `a3` for the current task.
///
/// A syscall whose capability the task lacks returns `E_ACC_DENIED` and
/// changes nothing; otherwise it behaves as `syscall_effect` says.
pub fn syscall_dispatch(kernel: &mut Kernel, n: u64, a1: u64, a2: u64, a3: u64, input: &[u8]) -> (r: SyscallOutcome)
    requires
        old(kernel).wf(),
        syscall_accepts(n, a1),
    ensures
        final(kernel).wf(),
        match required_cap(n) {
            Some(cap) if !task_holds(cap) => r.code == E_ACC_DENIED && r.copy_out is None && final(kernel)@ == old(kernel)@,
            _ => syscall_effect(
                old(kernel)@,
                final(kernel)@,
                n,
                a1,
                a2,
                a3,
                input@,
                r.code,
                match r.copy_out { Some(v) => Some(v@), None => None },
            ),
        },
{
    let current_task = task::get_current_task();
    if n == SYS_LOG {
        if !current_task.has_cap(Capability::LogWrite) {
            return SyscallOutcome { code: E_ACC_DENIED, copy_out: None };
        }
        match str_from_utf8(input) {
            Ok(s) => {
                console::print("[V-Node Log] ");
                console::print(s);
                console::print("\n");
                SyscallOutcome { code: SUCCESS, copy_out: None }
            },
            Err(_) => SyscallOutcome { code: E_ERROR, copy_out: None },
        }
    } else if n == SYS_IPC_SEND {
        if ipc::kernel_send(&mut kernel.channels, a1 as u32, input).is_ok() {
            SyscallOutcome { code: SUCCESS, copy_out: None }
        } else {
            SyscallOutcome { code: E_ERROR, copy_out: None }
        }
    } else if n == SYS_IPC_RECV || n == SYS_IPC_RECV_NONBLOCKING {
        let out_cap = a3 as usize;
        match ipc::kernel_recv(&mut kernel.channels, a1 as u32) {
            Some(data) => {
                if data.len() <= out_cap {
                    let len = data.len() as u64;
                    SyscallOutcome { code: len, copy_out: Some(data) }
                } else {
                    SyscallOutcome { code: E_ERROR, copy_out: None }
                }
            },
            None => SyscallOutcome { code: SUCCESS, copy_out: None },
        }
    } else if n == SYS_BLOCK_ON_CHAN {
        task::block_current_on_channel(a1 as u32);
        SyscallOutcome { code: SUCCESS, copy_out: None }
    } else if n == SYS_TIME {
        if !current_task.has_cap(Capability::TimeRead) {
            return SyscallOutcome { code: E_ACC_DENIED, copy_out: None };
        }
        SyscallOutcome { code: kernel.ticks, copy_out: None }
    } else if n == SYS_IRQ_REGISTER {
        if !current_task.has_cap(Capability::NetworkAccess) {
            return SyscallOutcome { code: E_ACC_DENIED, copy_out: None };
        }
        irq::register_irq_handler(a1 as u8, a2 as u32);
        console::print("[Kernel] Registering IRQ ");
        console::print_u64(a1);
        console::print(" for channel ");
        console::print_u64(a2);
        console::print("\n");
        SyscallOutcome { code: SUCCESS, copy_out: None }
    } else if n == SYS_NET_RX_POLL {
        if !current_task.has_cap(Capability::NetworkAccess) {
            return SyscallOutcome { code: E_ACC_DENIED, copy_out: None };
        }
        let dma_handle = a2;
        let out_cap = a3 as usize;
        let frame = make_rx_frame();
        if frame.len() <= out_cap {
            if dma::fill_dma_buffer(&mut kernel.dma, dma_handle, frame.as_slice()).is_ok() {
                SyscallOutcome { code: RX_FRAME_LEN as u64, copy_out: None }
            } else {
                SyscallOutcome { code: E_ERROR, copy_out: None }
            }
        } else {
            SyscallOutcome { code: E_ERROR, copy_out: None }
        }
    } else if n == SYS_NET_ALLOC_BUF {
        if !current_task.has_cap(Capability::NetworkAccess) {
            return SyscallOutcome { code: E_ACC_DENIED, copy_out: None };
        }
        match dma::alloc_dma_buffer(&mut kernel.dma, a1 as usize) {
            Some(handle) => SyscallOutcome { code: handle, copy_out: None },
            None => SyscallOutcome { code: E_ERROR, copy_out: None },
        }
    } else if n == SYS_NET_FREE_BUF {
        if !current_task.has_cap(Capability::NetworkAccess) {
            return SyscallOutcome { code: E_ACC_DENIED, copy_out: None };
        }
        dma::free_dma_buffer(&mut kernel.dma, a1);
        SyscallOutcome { code: SUCCESS, copy_out: None }
    } else if n == SYS_NET_TX {
        if !current_task.has_cap(Capability::NetworkAccess) {
            return SyscallOutcome { code: E_ACC_DENIED, copy_out: None };
        }
        console::print("[Kernel] Queuing packet for TX, handle: ");
        console::print_hex(a2);
        console::print(", len: ");
        console::print_u64(a3);
        console::print("\n");
        SyscallOutcome { code: SUCCESS, copy_out: None }
    } else if n == SYS_IRQ_ACK {
        if !current_task.has_cap(Capability::NetworkAccess) {
            return SyscallOutcome { code: E_ACC_DENIED, copy_out: None };
        }
        irq::acknowledge_irq(a1 as u8);
        SyscallOutcome { code: SUCCESS, copy_out: None }
    } else if n == SYS_GET_DMA_BUF_PTR {
        if !current_task.has_cap(Capability::NetworkAccess) {
            return SyscallOutcome { code: E_ACC_DENIED, copy_out: None };
        }
        match dma::get_dma_buffer_ptr(&kernel.dma, a1) {
            Some(ptr) => SyscallOutcome { code: ptr, copy_out: None },
            None => SyscallOutcome { code: E_ERROR, copy_out: None },
        }
    } else if n == SYS_SET_DMA_BUF_LEN {
        if !current_task.has_cap(Capability::NetworkAccess) {
            return SyscallOutcome { code: E_ACC_DENIED, copy_out: None };
        }
        if dma::set_dma_buffer_len(&mut kernel.dma, a1, a2 as usize).is_ok() {
            SyscallOutcome { code: SUCCESS, copy_out: None }
        } else {
            SyscallOutcome { code: E_ERROR, copy_out: None }
        }
    } else {
        SyscallOutcome { code: E_UNKNOWN_SYSCALL, copy_out: None }
    }
}

/// Law: on an open channel with an empty queue, a message sent with
/// `SYS_IPC_SEND` is what the next `SYS_IPC_RECV` on that channel hands back
/// (where it fits the receive buffer), and the kernel is then as it was.
pub proof fn law_ipc_syscalls_round_trip(
    pre: KernelView,
    mid: KernelView,
    post: KernelView,
    chan: u64,
    data: Seq<u8>,
    send_a2: u64,
    recv_a2: u64,
    recv_cap: u64,
    send_code: u64,
    recv_code_out: u64,
    send_out: Option<Seq<u8>>,
    recv_out: Option<Seq<u8>>,
    recv_input: Seq<u8>,
)
    requires
        pre.channels.len() == KERNEL_CHANNEL_SLOTS,
        ((chan as u32) as int) < KERNEL_CHANNEL_SLOTS,
        pre.channels[(chan as u32) as int] == Some(Seq::<Seq<u8>>::empty()),
        data.len() <= (recv_cap as usize),
        syscall_effect(pre, mid, SYS_IPC_SEND, chan, send_a2, data.len() as u64, data, send_code, send_out),
        syscall_effect(mid, post, SYS_IPC_RECV, chan, recv_a2, recv_cap, recv_input, recv_code_out, recv_out),
    ensures
        send_code == SUCCESS,
        recv_code_out == data.len(),
        recv_out == Some(data),
        post == pre,
{
    let c = (chan as u32) as int;
    assert(mid.channels[c] == Some(seq![data])) by {
        assert(Seq::<Seq<u8>>::empty().push(data) =~= seq![data]);
    }
    assert(seq![data].drop_first() =~= Seq::<Seq<u8>>::empty());
    assert(post.channels =~= pre.channels);
}

/// Law: a syscall number that the kernel does not know is answered
/// `E_UNKNOWN_SYSCALL` and changes nothing.
pub proof fn law_unknown_syscall_changes_nothing(
    pre: KernelView,
    post: KernelView,
    n: u64,
    a1: u64,
    a2: u64,
    a3: u64,
    input: Seq<u8>,
    code: u64,
    out: Option<Seq<u8>>,
)
    requires
        n > SYS_IPC_RECV_NONBLOCKING,
        syscall_effect(pre, post, n, a1, a2, a3, input, code, out),
    ensures
        code == E_UNKNOWN_SYSCALL,
        out is None,
        post == pre,
{
}

/// Law: freeing the buffer that a DMA allocation just handed out leaves the
/// registry's buffers as they were (the handle was fresh: live handles lie
/// below the next one), and the next allocation gets the following handle.
pub proof fn law_dma_alloc_then_free(
    pre: KernelView,
    mid: KernelView,
    post: KernelView,
    size: u64,
    handle: u64,
    free_code: u64,
    a2: u64,
    a3: u64,
    input: Seq<u8>,
    out1: Option<Seq<u8>>,
    out2: Option<Seq<u8>>,
)
    requires
        dma::handles_below_next(pre.dma),
        pre.dma.next_handle < u64::MAX,
        syscall_effect(pre, mid, SYS_NET_ALLOC_BUF, size, a2, a3, input, handle, out1),
        syscall_effect(mid, post, SYS_NET_FREE_BUF, handle, a2, a3, input, free_code, out2),
    ensures
        handle == pre.dma.next_handle,
        free_code == SUCCESS,
        post.dma.buffers == pre.dma.buffers,
        post.dma.next_handle == dma::next_handle_after(pre.dma.next_handle),
        post.channels == pre.channels,
        post.ticks == pre.ticks,
{
    assert(post.dma.buffers =~= pre.dma.buffers);
}

/// Law: a buffer filled by `SYS_NET_RX_POLL` holds the received frame as its
/// data, and `SYS_SET_DMA_BUF_LEN` within its capacity changes only its
/// length.
pub proof fn law_rx_poll_fills_buffer(
    pre: KernelView,
    post: KernelView,
    a1: u64,
    handle: u64,
    cap: u64,
    input: Seq<u8>,
    code: u64,
    out: Option<Seq<u8>>,
)
    requires
        pre.dma.buffers.contains_key(handle),
        RX_FRAME_LEN <= (cap as usize),
        RX_FRAME_LEN <= pre.dma.buffers[handle].capacity(),
        syscall_effect(pre, post, SYS_NET_RX_POLL, a1, handle, cap, input, code, out),
    ensures
        code == RX_FRAME_LEN,
        post.dma.buffers[handle].data() == rx_frame(),
        post.dma.buffers[handle].capacity() == pre.dma.buffers[handle].capacity(),
{
    let b = pre.dma.buffers[handle];
    let nb = post.dma.buffers[handle];
    assert(nb.bytes.subrange(0, RX_FRAME_LEN as int) =~= rx_frame());
}

/// Law: a buffer allocated by `SYS_NET_ALLOC_BUF` with room for a frame
/// receives one: a following `SYS_NET_RX_POLL` into it, with a limit that
/// admits the frame, returns the frame's length and leaves the frame as the
/// buffer's data.
pub proof fn law_alloc_then_rx_poll(
    pre: KernelView,
    mid: KernelView,
    post: KernelView,
    size: u64,
    handle: u64,
    limit: u64,
    a1: u64,
    a2: u64,
    a3: u64,
    input: Seq<u8>,
    code: u64,
    out1: Option<Seq<u8>>,
    out2: Option<Seq<u8>>,
)
    requires
        RX_FRAME_LEN <= (size as usize),
        RX_FRAME_LEN <= (limit as usize),
        syscall_effect(pre, mid, SYS_NET_ALLOC_BUF, size, a2, a3, input, handle, out1),
        syscall_effect(mid, post, SYS_NET_RX_POLL, a1, handle, limit, input, code, out2),
    ensures
        handle == pre.dma.next_handle,
        code == RX_FRAME_LEN,
        post.dma.buffers[handle].data() == rx_frame(),
{
    law_rx_poll_fills_buffer(mid, post, a1, handle, limit, input, code, out2);
}

/// Law: every syscall keeps each live DMA handle in 1..next, as long as the
/// handles have not reached the top of `u64`. So an allocation hands out a
/// handle that no live buffer has, handles only grow, and every live buffer
/// other than one that the syscall frees stays, with the capacity and the
/// storage address it had.
pub proof fn law_dma_handles_stay_fresh(
    pre: KernelView,
    post: KernelView,
    n: u64,
    a1: u64,
    a2: u64,
    a3: u64,
    input: Seq<u8>,
    code: u64,
    out: Option<Seq<u8>>,
    h: u64,
)
    requires
        dma::handles_below_next(pre.dma),
        pre.dma.next_handle < u64::MAX,
        syscall_effect(pre, post, n, a1, a2, a3, input, code, out),
    ensures
        dma::handles_below_next(post.dma),
        pre.dma.next_handle <= post.dma.next_handle,
        n == SYS_NET_ALLOC_BUF ==> !pre.dma.buffers.contains_key(code),
        pre.dma.buffers.contains_key(h) && !(n == SYS_NET_FREE_BUF && a1 == h) ==> {
            &&& post.dma.buffers.contains_key(h)
            &&& post.dma.buffers[h].capacity() == pre.dma.buffers[h].capacity()
            &&& post.dma.buffers[h].addr == pre.dma.buffers[h].addr
        },
{
    if n == SYS_NET_ALLOC_BUF {
        let nh = pre.dma.next_handle;
        assert(post.dma.next_handle == nh + 1);
        assert forall|k: u64| #[trigger] post.dma.buffers.contains_key(k) implies 1 <= k < post.dma.next_handle by {
            if k != nh {
                assert(pre.dma.buffers.contains_key(k));
            }
        }
        if pre.dma.buffers.contains_key(h) {
            assert(h != nh);
        }
    } else if n == SYS_NET_FREE_BUF {
        assert forall|k: u64| #[trigger] post.dma.buffers.contains_key(k) implies 1 <= k < post.dma.next_handle by {
            assert(pre.dma.buffers.contains_key(k));
        }
    } else if n == SYS_NET_RX_POLL || n == SYS_SET_DMA_BUF_LEN {
        assert forall|k: u64| #[trigger] post.dma.buffers.contains_key(k) implies 1 <= k < post.dma.next_handle by {
            assert(pre.dma.buffers.contains_key(k));
        }
    }
}

/// Law: `SYS_GET_DMA_BUF_PTR` answers, for a handle with a live buffer, the
/// address of that buffer's storage, and `E_ERROR` for a handle without one;
/// it changes nothing.
pub proof fn law_get_dma_buf_ptr_answers_the_address(
    pre: KernelView,
    post: KernelView,
    a1: u64,
    a2: u64,
    a3: u64,
    input: Seq<u8>,
    code: u64,
    out: Option<Seq<u8>>,
)
    requires
        syscall_effect(pre, post, SYS_GET_DMA_BUF_PTR, a1, a2, a3, input, code, out),
    ensures
        post == pre,
        out is None,
        pre.dma.buffers.contains_key(a1) ==> code == pre.dma.buffers[a1].addr,
        !pre.dma.buffers.contains_key(a1) ==> code == E_ERROR,
{
}

/// Law: the address that `SYS_GET_DMA_BUF_PTR` answers for a live buffer
/// does not move: two queries for it, with any syscall between them that
/// does not free it, answer the same address.
pub proof fn law_dma_address_is_stable(
    k0: KernelView,
    k1: KernelView,
    k2: KernelView,
    k3: KernelView,
    h: u64,
    n: u64,
    b1: u64,
    b2: u64,
    b3: u64,
    input: Seq<u8>,
    code1: u64,
    code_mid: u64,
    code2: u64,
    out1: Option<Seq<u8>>,
    out_mid: Option<Seq<u8>>,
    out2: Option<Seq<u8>>,
)
    requires
        dma::handles_below_next(k0.dma),
        k0.dma.next_handle < u64::MAX,
        k0.dma.buffers.contains_key(h),
        syscall_effect(k0, k1, SYS_GET_DMA_BUF_PTR, h, 0, 0, input, code1, out1),
        syscall_effect(k1, k2, n, b1, b2, b3, input, code_mid, out_mid),
        !(n == SYS_NET_FREE_BUF && b1 == h),
        syscall_effect(k2, k3, SYS_GET_DMA_BUF_PTR, h, 0, 0, input, code2, out2),
    ensures
        code1 == k0.dma.buffers[h].addr,
        code2 == code1,
{
    law_dma_handles_stay_fresh(k1, k2, n, b1, b2, b3, input, code_mid, out_mid, h);
}

/// Law: which capability each syscall asks for, and which the running task
/// holds. Logging needs `LogWrite`, the clock `TimeRead`, the interrupt and
/// DMA syscalls `NetworkAccess`; IPC, blocking and unknown syscalls need
/// none. The task holds every capability but `StorageAccess`, so no syscall
/// is refused for a capability.
pub proof fn law_syscall_capabilities(n: u64)
    ensures
        n == SYS_LOG ==> required_cap(n) == Some(Capability::LogWrite),
        n == SYS_TIME ==> required_cap(n) == Some(Capability::TimeRead),
        (n == SYS_IRQ_REGISTER || n == SYS_NET_RX_POLL || n == SYS_NET_ALLOC_BUF || n == SYS_NET_FREE_BUF
            || n == SYS_NET_TX || n == SYS_IRQ_ACK || n == SYS_GET_DMA_BUF_PTR || n == SYS_SET_DMA_BUF_LEN)
            ==> required_cap(n) == Some(Capability::NetworkAccess),
        (n == SYS_IPC_SEND || n == SYS_IPC_RECV || n == SYS_IPC_RECV_NONBLOCKING || n == SYS_BLOCK_ON_CHAN
            || n > SYS_IPC_RECV_NONBLOCKING) ==> required_cap(n) is None,
        task_holds(Capability::LogWrite),
        task_holds(Capability::TimeRead),
        task_holds(Capability::NetworkAccess),
        !task_holds(Capability::StorageAccess),
{
}

/// Law: the syscalls that only report: `SYS_LOG` succeeds exactly on valid
/// UTF-8 and answers `E_ERROR` otherwise; `SYS_TIME` answers the tick
/// counter; blocking, interrupt registration and acknowledgement and
/// `SYS_NET_TX` succeed. None of them changes the kernel or writes to user
/// memory.
pub proof fn law_reporting_syscalls(
    pre: KernelView,
    post: KernelView,
    n: u64,
    a1: u64,
    a2: u64,
    a3: u64,
    input: Seq<u8>,
    code: u64,
    out: Option<Seq<u8>>,
)
    requires
        n == SYS_LOG || n == SYS_TIME || n == SYS_BLOCK_ON_CHAN || n == SYS_IRQ_REGISTER || n == SYS_NET_TX
            || n == SYS_IRQ_ACK,
        syscall_effect(pre, post, n, a1, a2, a3, input, code, out),
    ensures
        post == pre,
        out is None,
        n == SYS_LOG ==> (code == 0 <==> valid_utf8(input)) && (code == 0 || code == 1),
        n == SYS_TIME ==> code == pre.ticks,
        (n == SYS_BLOCK_ON_CHAN || n == SYS_IRQ_REGISTER || n == SYS_NET_TX || n == SYS_IRQ_ACK) ==> code == 0,
{
}

/// Law: an IPC send on an open channel appends exactly the sent bytes to the
/// end of that channel's queue and answers 0, leaving every other channel
/// and the DMA buffers alone; on a slot without a channel it answers
/// `E_ERROR` (1) and changes nothing.
pub proof fn law_ipc_send(
    pre: KernelView,
    post: KernelView,
    a1: u64,
    a2: u64,
    a3: u64,
    input: Seq<u8>,
    code: u64,
    out: Option<Seq<u8>>,
    other: int,
)
    requires
        ((a1 as u32) as int) < pre.channels.len(),
        0 <= other < pre.channels.len(),
        syscall_effect(pre, post, SYS_IPC_SEND, a1, a2, a3, input, code, out),
    ensures
        ({
            let id = (a1 as u32) as int;
            &&& out is None
            &&& pre.channels[id] is None ==> code == 1 && post == pre
            &&& pre.channels[id] matches Some(q) ==> {
                &&& code == 0
                &&& post.channels[id] == Some(q.push(input))
                &&& post.channels[id].unwrap().len() == q.len() + 1
                &&& post.channels[id].unwrap().last() == input
                &&& other != id ==> post.channels[other] == pre.channels[other]
                &&& post.dma == pre.dma
                &&& post.ticks == pre.ticks
            }
        }),
{
}

/// Law: an IPC receive (blocking or not) takes the oldest message of the
/// channel. If it fits the caller's limit, its length is answered and its
/// bytes are written to user memory; if not, `E_ERROR` (1) is answered,
/// nothing is written, and the message is dropped all the same. With no
/// message, 0 is answered and nothing changes.
pub proof fn law_ipc_receive(
    pre: KernelView,
    post: KernelView,
    n: u64,
    a1: u64,
    a2: u64,
    a3: u64,
    input: Seq<u8>,
    code: u64,
    out: Option<Seq<u8>>,
)
    requires
        n == SYS_IPC_RECV || n == SYS_IPC_RECV_NONBLOCKING,
        ((a1 as u32) as int) < pre.channels.len(),
        syscall_effect(pre, post, n, a1, a2, a3, input, code, out),
    ensures
        ({
            let id = (a1 as u32) as int;
            match pre.channels[id] {
                Some(q) => if q.len() > 0 {
                    &&& post.channels == pre.channels.update(id, Some(q.drop_first()))
                    &&& post.dma == pre.dma
                    &&& q[0].len() <= a3 as usize ==> code == q[0].len() && out == Some(q[0])
                    &&& q[0].len() > a3 as usize ==> code == 1 && out is None
                } else {
                    code == 0 && out is None && post == pre
                },
                None => code == 0 && out is None && post == pre,
            }
        }),
{
}

/// Law: the frame that `SYS_NET_RX_POLL` delivers is a 42-byte broadcast ARP
/// request: destination all ones, EtherType 0x0806, asking from 192.168.1.1
/// for 192.168.1.2. A poll into a live buffer that holds the frame, with a
/// limit that admits it, answers 42; any other poll answers `E_ERROR` (1)
/// and changes nothing.
pub proof fn law_rx_poll_frame(
    pre: KernelView,
    post: KernelView,
    a1: u64,
    a2: u64,
    a3: u64,
    input: Seq<u8>,
    code: u64,
    out: Option<Seq<u8>>,
)
    requires
        syscall_effect(pre, post, SYS_NET_RX_POLL, a1, a2, a3, input, code, out),
    ensures
        rx_frame().len() == 42,
        forall|i: int| 0 <= i < 6 ==> rx_frame()[i] == 0xFFu8,
        rx_frame()[12] == 0x08u8 && rx_frame()[13] == 0x06u8,
        rx_frame().subrange(28, 32) == seq![192u8, 168u8, 1u8, 1u8],
        rx_frame().subrange(38, 42) == seq![192u8, 168u8, 1u8, 2u8],
        out is None,
        (pre.dma.buffers.contains_key(a2) && 42 <= a3 as usize && 42 <= pre.dma.buffers[a2].capacity()) ==> {
            &&& code == 42
            &&& post.dma.buffers[a2].data() == rx_frame()
            &&& post.dma.buffers[a2].capacity() == pre.dma.buffers[a2].capacity()
            &&& post.channels == pre.channels
        },
        !(pre.dma.buffers.contains_key(a2) && 42 <= a3 as usize && 42 <= pre.dma.buffers[a2].capacity()) ==> code == 1
            && post == pre,
{
    assert(rx_frame().subrange(28, 32) =~= seq![192u8, 168u8, 1u8, 1u8]);
    assert(rx_frame().subrange(38, 42) =~= seq![192u8, 168u8, 1u8, 2u8]);
    if pre.dma.buffers.contains_key(a2) && 42 <= a3 as usize && 42 <= pre.dma.buffers[a2].capacity() {
        law_rx_poll_fills_buffer(pre, post, a1, a2, a3, input, code, out);
    }
}

/// Law: the DMA syscalls. An allocation answers the next handle and
/// registers there a buffer of length 0, all zero, of at least the requested
/// size; a free answers 0 and drops only that handle's buffer; setting a
/// length within a live buffer's capacity answers 0 and changes only that
/// length, and any other length or handle answers `E_ERROR` (1) and changes
/// nothing.
pub proof fn law_dma_syscalls(
    pre: KernelView,
    post: KernelView,
    n: u64,
    a1: u64,
    a2: u64,
    a3: u64,
    input: Seq<u8>,
    code: u64,
    out: Option<Seq<u8>>,
    other: u64,
)
    requires
        n == SYS_NET_ALLOC_BUF || n == SYS_NET_FREE_BUF || n == SYS_SET_DMA_BUF_LEN,
        syscall_effect(pre, post, n, a1, a2, a3, input, code, out),
    ensures
        out is None,
        post.channels == pre.channels,
        n == SYS_NET_ALLOC_BUF ==> {
            &&& code == pre.dma.next_handle
            &&& post.dma.buffers.contains_key(code)
            &&& post.dma.buffers[code].len == 0
            &&& post.dma.buffers[code].capacity() >= a1 as usize
            &&& forall|i: int| 0 <= i < post.dma.buffers[code].bytes.len() ==> post.dma.buffers[code].bytes[i] == 0u8
            &&& post.dma.next_handle == (if pre.dma.next_handle == u64::MAX { 0 } else { pre.dma.next_handle + 1 })
            &&& other != code ==> post.dma.buffers.contains_key(other) == pre.dma.buffers.contains_key(other)
            &&& other != code && pre.dma.buffers.contains_key(other) ==> post.dma.buffers[other] == pre.dma.buffers[other]
        },
        n == SYS_NET_FREE_BUF ==> {
            &&& code == 0
            &&& !post.dma.buffers.contains_key(a1)
            &&& other != a1 ==> post.dma.buffers.contains_key(other) == pre.dma.buffers.contains_key(other)
            &&& other != a1 && pre.dma.buffers.contains_key(other) ==> post.dma.buffers[other] == pre.dma.buffers[other]
        },
        n == SYS_SET_DMA_BUF_LEN && pre.dma.buffers.contains_key(a1) && a2 as usize <= pre.dma.buffers[a1].capacity() ==> {
            &&& code == 0
            &&& post.dma.buffers[a1].len == a2 as usize
            &&& post.dma.buffers[a1].bytes == pre.dma.buffers[a1].bytes
            &&& post.dma.buffers[a1].addr == pre.dma.buffers[a1].addr
            &&& post.dma.buffers.dom() == pre.dma.buffers.dom()
        },
        n == SYS_SET_DMA_BUF_LEN && !(pre.dma.buffers.contains_key(a1) && a2 as usize <= pre.dma.buffers[a1].capacity())
            ==> code == 1 && post == pre,
{
    if n == SYS_SET_DMA_BUF_LEN && pre.dma.buffers.contains_key(a1) && a2 as usize <= pre.dma.buffers[a1].capacity() {
        assert(post.dma.buffers.dom() =~= pre.dma.buffers.dom());
    }
}

} // verus!
