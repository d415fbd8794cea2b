//! # Inter-Process Communication (IPC)
//!
//! Message passing between V-Node processes over kernel-managed channels.
//! Each channel holds a FIFO queue of messages; a message is copied in on
//! send and handed out whole on receive.
use vstd::prelude::*;
use std::collections::VecDeque;
use crate::kernel::config::IPC_CHANNEL_COUNT;
use crate::kernel::error::{KernelError, Result};
use crate::kernel::syscall::Kernel;
use crate::kernel::ipc::KERNEL_CHANNEL_SLOTS;

pub mod dns_ipc;
pub mod file_manager_ipc;
pub mod net_ipc;
pub mod socket_ipc;
pub mod vfs_ipc;
pub mod vnode;

verus! {

/// Message queue for a single IPC channel.
pub type MessageQueue = VecDeque<Vec<u8>>;

/// IPC send trait used by V-Node channel wrappers.
pub trait IpcSend {
    /// The kernel channel that this wrapper sends on.
    spec fn send_channel(&self) -> u32;

    /// Sends a raw payload into the wrapper's channel. It succeeds exactly
    /// where the kernel has a channel open in that slot, and then appends the
    /// payload to it; a failed send changes nothing.
    fn send_raw(&mut self, kernel: &mut Kernel, bytes: &[u8]) -> (r: core::result::Result<(), ()>)
        requires
            old(kernel).wf(),
            (old(self).send_channel() as int) < KERNEL_CHANNEL_SLOTS,
        ensures
            final(kernel).wf(),
            final(self).send_channel() == old(self).send_channel(),
            match old(kernel)@.channels[old(self).send_channel() as int] {
                Some(q) => r is Ok && final(kernel)@.channels == old(kernel)@.channels.update(
                    old(self).send_channel() as int,
                    Some(q.push(bytes@)),
                ) && final(kernel)@.dma == old(kernel)@.dma && final(kernel)@.ticks == old(kernel)@.ticks,
                None => r is Err && final(kernel)@ == old(kernel)@,
            },
    ;
}

/// The channels of the IPC layer, `IPC_CHANNEL_COUNT` of them.
pub struct IpcChannels {
    queues: Vec<MessageQueue>,
}

impl View for IpcChannels {
    type V = Seq<Seq<Seq<u8>>>;

    /// For each channel, its queued messages, oldest first.
    closed spec fn view(&self) -> Seq<Seq<Seq<u8>>> {
        self.queues@.map_values(|q: MessageQueue| q@.map_values(|m: Vec<u8>| m@))
    }
}

/// Whether `channel_id` names a channel.
pub open spec fn valid_channel(channel_id: u32) -> bool {
    channel_id < IPC_CHANNEL_COUNT
}

/// The channels after `data` is sent on `channel_id`.
pub open spec fn after_send(v: Seq<Seq<Seq<u8>>>, channel_id: u32, data: Seq<u8>) -> Seq<Seq<Seq<u8>>> {
    if valid_channel(channel_id) {
        v.update(channel_id as int, v[channel_id as int].push(data))
    } else {
        v
    }
}

/// The message that a receive on `channel_id` hands out: the oldest one.
pub open spec fn next_message(v: Seq<Seq<Seq<u8>>>, channel_id: u32) -> Option<Seq<u8>> {
    if valid_channel(channel_id) && v[channel_id as int].len() > 0 {
        Some(v[channel_id as int][0])
    } else {
        None
    }
}

/// The channels after a receive on `channel_id`.
pub open spec fn after_recv(v: Seq<Seq<Seq<u8>>>, channel_id: u32) -> Seq<Seq<Seq<u8>>> {
    if valid_channel(channel_id) && v[channel_id as int].len() > 0 {
        v.update(channel_id as int, v[channel_id as int].drop_first())
    } else {
        v
    }
}

impl IpcChannels {
    /// There is one queue per channel.
    pub closed spec fn wf(&self) -> bool {
        self.queues@.len() == IPC_CHANNEL_COUNT
    }

    /// Every channel, each with an empty queue.
    pub fn new() -> (c: Self)
        ensures
            c.wf(),
            c@ == Seq::new(IPC_CHANNEL_COUNT as nat, |i: int| Seq::<Seq<u8>>::empty()),
    {
        let mut queues: Vec<MessageQueue> = Vec::new();
        let mut i: u32 = 0;
        while i < IPC_CHANNEL_COUNT
            invariant
                i <= IPC_CHANNEL_COUNT,
                queues@.len() == i,
                forall|j: int| 0 <= j < i ==> (#[trigger] queues@[j])@.len() == 0,
            decreases IPC_CHANNEL_COUNT - i,
        {
            queues.push(VecDeque::new());
            i = i + 1;
        }
        let c = IpcChannels { queues };
        assert(c@ =~= Seq::new(IPC_CHANNEL_COUNT as nat, |i: int| Seq::<Seq<u8>>::empty())) by {
            assert forall|j: int| 0 <= j < IPC_CHANNEL_COUNT implies c@[j] =~= Seq::<Seq<u8>>::empty() by {
                assert(queues@[j]@.len() == 0);
            }
        }
        c
    }
}

/// Sends a message through an IPC channel: a copy of `data` joins the end of
/// the channel's queue.
///
/// # Errors
/// Returns [`KernelError::InvalidChannelId`] if `channel_id >= IPC_CHANNEL_COUNT`,
/// and then changes nothing.
pub fn kernel_send(channels: &mut IpcChannels, channel_id: u32, data: &[u8]) -> (r: Result<()>)
    requires
        old(channels).wf(),
    ensures
        final(channels).wf(),
        final(channels)@ == after_send(old(channels)@, channel_id, data@),
        r == (if valid_channel(channel_id) {
            Ok::<(), KernelError>(())
        } else {
            Err(KernelError::InvalidChannelId(channel_id))
        }),
{
    if channel_id >= IPC_CHANNEL_COUNT {
        return Err(KernelError::InvalidChannelId(channel_id));
    }
    let ghost before = channels@;
    let q = &mut channels.queues[channel_id as usize];
    let ghost q0 = q@;
    q.push_back(vstd::slice::slice_to_vec(data));
    proof {
        assert(q@.map_values(|m: Vec<u8>| m@) =~= before[channel_id as int].push(data@));
    }
    assert(channels@ =~= after_send(before, channel_id, data@));
    Ok(())
}

/// Receives a message from an IPC channel (non-blocking): the oldest queued
/// message leaves the queue and is returned; `None` where the queue is empty.
///
/// # Errors
/// Returns [`KernelError::InvalidChannelId`] if `channel_id >= IPC_CHANNEL_COUNT`,
/// and then changes nothing.
pub fn kernel_recv(channels: &mut IpcChannels, channel_id: u32) -> (r: Result<Option<Vec<u8>>>)
    requires
        old(channels).wf(),
    ensures
        final(channels).wf(),
        final(channels)@ == after_recv(old(channels)@, channel_id),
        valid_channel(channel_id) ==> r is Ok && match r.unwrap() {
            Some(m) => next_message(old(channels)@, channel_id) == Some(m@),
            None => next_message(old(channels)@, channel_id) is None,
        },
        !valid_channel(channel_id) ==> r == Err::<Option<Vec<u8>>, KernelError>(KernelError::InvalidChannelId(channel_id)),
{
    if channel_id >= IPC_CHANNEL_COUNT {
        return Err(KernelError::InvalidChannelId(channel_id));
    }
    let ghost before = channels@;
    let q = &mut channels.queues[channel_id as usize];
    let m = q.pop_front();
    proof {
        if before[channel_id as int].len() > 0 {
            assert(q@.map_values(|m: Vec<u8>| m@) =~= before[channel_id as int].drop_first());
        } else {
            assert(q@.map_values(|m: Vec<u8>| m@) =~= before[channel_id as int]);
        }
    }
    assert(channels@ =~= after_recv(before, channel_id));
    Ok(m)
}

/// Returns the number of queued messages on a channel.
///
/// # Errors
/// Returns [`KernelError::InvalidChannelId`] if `channel_id >= IPC_CHANNEL_COUNT`.
pub fn channel_message_count(channels: &IpcChannels, channel_id: u32) -> (r: Result<usize>)
    requires
        channels.wf(),
    ensures
        r == (if valid_channel(channel_id) {
            Ok::<usize, KernelError>(channels@[channel_id as int].len() as usize)
        } else {
            Err(KernelError::InvalidChannelId(channel_id))
        }),
{
    if channel_id >= IPC_CHANNEL_COUNT {
        return Err(KernelError::InvalidChannelId(channel_id));
    }
    Ok(channels.queues[channel_id as usize].len())
}

/// Law: a message sent on an empty channel is the next one received there,
/// and receiving it leaves every channel as it was before the send.
pub proof fn law_send_then_recv_round_trip(v: Seq<Seq<Seq<u8>>>, channel_id: u32, data: Seq<u8>)
    requires
        v.len() == IPC_CHANNEL_COUNT,
        valid_channel(channel_id),
        v[channel_id as int].len() == 0,
    ensures
        next_message(after_send(v, channel_id, data), channel_id) == Some(data),
        after_recv(after_send(v, channel_id, data), channel_id) == v,
{
    let s = after_send(v, channel_id, data);
    let c = channel_id as int;
    assert(s[c] =~= seq![data]);
    assert(s[c].drop_first() =~= v[c]);
    assert(after_recv(s, channel_id) =~= v.update(c, v[c]));
    assert(v.update(c, v[c]) =~= v);
}

/// Law: messages leave a channel in the order in which they were sent. A send
/// does not change which message a receive on a non-empty channel hands out,
/// and a receive and a send commute there.
pub proof fn law_fifo_order(v: Seq<Seq<Seq<u8>>>, channel_id: u32, data: Seq<u8>)
    requires
        v.len() == IPC_CHANNEL_COUNT,
        valid_channel(channel_id),
        v[channel_id as int].len() > 0,
    ensures
        next_message(after_send(v, channel_id, data), channel_id) == next_message(v, channel_id),
        after_recv(after_send(v, channel_id, data), channel_id) == after_send(after_recv(v, channel_id), channel_id, data),
{
    let c = channel_id as int;
    assert(after_send(v, channel_id, data)[c][0] == v[c][0]);
    assert(v[c].push(data).drop_first() =~= v[c].drop_first().push(data));
    assert(after_recv(after_send(v, channel_id, data), channel_id) =~= after_send(after_recv(v, channel_id), channel_id, data));
}

/// Law: sending adds one message to the channel's count, and a receive on a
/// non-empty channel takes one away.
pub proof fn law_message_count(v: Seq<Seq<Seq<u8>>>, channel_id: u32, data: Seq<u8>)
    requires
        v.len() == IPC_CHANNEL_COUNT,
        valid_channel(channel_id),
    ensures
        after_send(v, channel_id, data)[channel_id as int].len() == v[channel_id as int].len() + 1,
        v[channel_id as int].len() > 0 ==> after_recv(v, channel_id)[channel_id as int].len() == v[channel_id as int].len() - 1,
{
}

/// Law: traffic on one channel leaves every other channel as it was.
pub proof fn law_channels_isolated(v: Seq<Seq<Seq<u8>>>, channel_id: u32, other: u32, data: Seq<u8>)
    requires
        v.len() == IPC_CHANNEL_COUNT,
        valid_channel(other),
        other != channel_id,
    ensures
        after_send(v, channel_id, data)[other as int] == v[other as int],
        after_recv(v, channel_id)[other as int] == v[other as int],
{
}

/// Law: an operation on an id that names no channel changes no channel.
pub proof fn law_invalid_channel_changes_nothing(v: Seq<Seq<Seq<u8>>>, channel_id: u32, data: Seq<u8>)
    requires
        !valid_channel(channel_id),
    ensures
        after_send(v, channel_id, data) == v,
        after_recv(v, channel_id) == v,
        next_message(v, channel_id) is None,
{
}

} // verus!
