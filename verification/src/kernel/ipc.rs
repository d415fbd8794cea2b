//! The kernel's own channel table, which the syscall layer uses.
//!
//! The table has a fixed number of slots; a slot holds a channel once one is
//! opened there. No operation of the syscall layer opens a channel.
use vstd::prelude::*;
use std::collections::VecDeque;

verus! {

/// Identifier of a kernel channel.
pub type ChannelId = u32;

/// Number of slots in the kernel's channel table.
pub const KERNEL_CHANNEL_SLOTS: usize = 32;

/// One queued message.
pub struct Message {
    pub data: Vec<u8>,
}

/// A FIFO queue of messages.
pub struct KernelChannel {
    queue: VecDeque<Message>,
}

impl View for KernelChannel {
    type V = Seq<Seq<u8>>;

    /// The queued payloads, oldest first.
    closed spec fn view(&self) -> Seq<Seq<u8>> {
        self.queue@.map_values(|m: Message| m.data@)
    }
}

/// The table of channel slots.
pub struct KernelChannels {
    slots: Vec<Option<KernelChannel>>,
}

/// The model of a slot: the queued payloads of its channel, if one is open.
pub open spec fn slot_view(slot: Option<KernelChannel>) -> Option<Seq<Seq<u8>>> {
    match slot {
        Some(c) => Some(c@),
        None => None,
    }
}

impl View for KernelChannels {
    type V = Seq<Option<Seq<Seq<u8>>>>;

    closed spec fn view(&self) -> Seq<Option<Seq<Seq<u8>>>> {
        self.slots@.map_values(|s: Option<KernelChannel>| slot_view(s))
    }
}

impl KernelChannels {
    /// The table has its fixed number of slots.
    pub closed spec fn wf(&self) -> bool {
        self.slots@.len() == KERNEL_CHANNEL_SLOTS
    }

    /// A well-formed table has one entry per slot in its model.
    pub proof fn lemma_slot_count(&self)
        requires
            self.wf(),
        ensures
            self@.len() == KERNEL_CHANNEL_SLOTS,
    {
    }

    /// A table with every slot empty.
    pub fn new() -> (t: Self)
        ensures
            t.wf(),
            t@ == Seq::new(KERNEL_CHANNEL_SLOTS as nat, |i: int| None::<Seq<Seq<u8>>>),
    {
        let mut slots: Vec<Option<KernelChannel>> = Vec::new();
        let mut i: usize = 0;
        while i < KERNEL_CHANNEL_SLOTS
            invariant
                i <= KERNEL_CHANNEL_SLOTS,
                slots@.len() == i,
                forall|j: int| 0 <= j < i ==> slots@[j] is None,
            decreases KERNEL_CHANNEL_SLOTS - i,
        {
            slots.push(None);
            i = i + 1;
        }
        let t = KernelChannels { slots };
        assert(t@ =~= Seq::new(KERNEL_CHANNEL_SLOTS as nat, |i: int| None::<Seq<Seq<u8>>>));
        t
    }
}

/// Appends a copy of `data` to the channel in slot `id`.
///
/// Fails with "Channel not found", changing nothing, where the slot holds no channel.
pub fn kernel_send(chans: &mut KernelChannels, id: ChannelId, data: &[u8]) -> (r: Result<(), &'static str>)
    requires
        old(chans).wf(),
        (id as int) < KERNEL_CHANNEL_SLOTS,
    ensures
        final(chans).wf(),
        match old(chans)@[id as int] {
            Some(q) => r is Ok && final(chans)@ == old(chans)@.update(id as int, Some(q.push(data@))),
            None => r == Err::<(), &'static str>("Channel not found") && final(chans)@ == old(chans)@,
        },
{
    let idx = id as usize;
    let ghost before = chans@;
    let slot = &mut chans.slots[idx];
    match slot {
        Some(chan) => {
            let m = Message { data: vstd::slice::slice_to_vec(data) };
            chan.queue.push_back(m);
            proof {
                assert(chan@ =~= before[id as int].unwrap().push(data@));
            }
            assert(chans@ =~= before.update(id as int, Some(before[id as int].unwrap().push(data@))));
            Ok(())
        },
        None => Err("Channel not found"),
    }
}

/// Takes the oldest message from the channel in slot `id`, if there is one.
pub fn kernel_recv(chans: &mut KernelChannels, id: ChannelId) -> (r: Option<Vec<u8>>)
    requires
        old(chans).wf(),
        (id as int) < KERNEL_CHANNEL_SLOTS,
    ensures
        final(chans).wf(),
        match old(chans)@[id as int] {
            Some(q) => if q.len() > 0 {
                r is Some && r.unwrap()@ == q[0] && final(chans)@ == old(chans)@.update(id as int, Some(q.drop_first()))
            } else {
                r is None && final(chans)@ == old(chans)@
            },
            None => r is None && final(chans)@ == old(chans)@,
        },
{
    let idx = id as usize;
    let ghost before = chans@;
    let slot = &mut chans.slots[idx];
    match slot {
        Some(chan) => {
            let ghost q = chan.queue@;
            match chan.queue.pop_front() {
                Some(m) => {
                    proof {
                        assert(chan@ =~= before[id as int].unwrap().drop_first());
                    }
                    assert(chans@ =~= before.update(id as int, Some(before[id as int].unwrap().drop_first())));
                    Some(m.data)
                },
                None => {
                    assert(chans@ =~= before);
                    None
                },
            }
        },
        None => None,
    }
}

} // verus!
