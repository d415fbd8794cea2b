//! DMA buffer registry: buffers that the kernel hands to network drivers,
//! named by a handle.
use vstd::prelude::*;
use std::collections::BTreeMap;

verus! {

broadcast use vstd::laws_cmp::group_laws_cmp;

/// The number of bytes that `v` can hold without reallocating
/// (`Vec::capacity`). Its documentation promises no less than the length;
/// the exact figure is the allocator's and is left unsaid.
#[verifier::external_body]
fn vec_capacity(v: &Vec<u8>) -> (cap: usize)
    ensures
        cap >= v@.len(),
{
    v.capacity()
}

/// The address of the first byte of `v`'s storage (`Vec::as_ptr`), as an
/// integer. Which address the allocator chose is left unsaid.
#[verifier::external_body]
fn vec_address(v: &Vec<u8>) -> u64 {
    v.as_ptr() as usize as u64
}

/// One DMA buffer: storage of its full capacity, a length that says how
/// much of it holds valid data, and the address of the storage. The address
/// is taken once the storage has its full size; the storage is never grown
/// or reallocated afterwards, so it stays the storage's address.
pub struct DmaBuffer {
    storage: Vec<u8>,
    len: usize,
    addr: u64,
}

/// The model of a DMA buffer: every byte of its storage (as many as its
/// capacity), its length, and the address of its storage.
pub struct DmaView {
    pub bytes: Seq<u8>,
    pub len: nat,
    pub addr: u64,
}

impl DmaView {
    /// The capacity of the buffer.
    pub open spec fn capacity(self) -> nat {
        self.bytes.len()
    }

    /// The valid data of the buffer.
    pub open spec fn data(self) -> Seq<u8> {
        self.bytes.subrange(0, self.len as int)
    }
}

impl View for DmaBuffer {
    type V = DmaView;

    closed spec fn view(&self) -> DmaView {
        DmaView { bytes: self.storage@, len: self.len as nat, addr: self.addr }
    }
}

impl DmaBuffer {
    /// The length never exceeds the capacity.
    pub closed spec fn wf(&self) -> bool {
        self.len <= self.storage@.len()
    }
}

/// The registry of DMA buffers, and the handle that the next allocation gets.
pub struct DmaBuffers {
    next_handle: u64,
    buffers: BTreeMap<u64, DmaBuffer>,
}

/// The model of the registry.
pub struct DmaBuffersView {
    pub next_handle: u64,
    pub buffers: Map<u64, DmaView>,
}

impl View for DmaBuffers {
    type V = DmaBuffersView;

    closed spec fn view(&self) -> DmaBuffersView {
        DmaBuffersView {
            next_handle: self.next_handle,
            buffers: self.buffers@.map_values(|b: DmaBuffer| b@),
        }
    }
}

/// The handle that follows `h`; handles wrap around at the top of `u64`.
pub open spec fn next_handle_after(h: u64) -> u64 {
    if h == u64::MAX { 0 } else { (h + 1) as u64 }
}

/// Every live handle was handed out before the next one: it lies in
/// 1..next. This holds from the start and is kept by every operation until
/// the handles wrap around at the top of `u64`.
pub open spec fn handles_below_next(d: DmaBuffersView) -> bool {
    &&& 1 <= d.next_handle
    &&& forall|h: u64| #[trigger] d.buffers.contains_key(h) ==> 1 <= h < d.next_handle
}

/// A fresh buffer: length zero, every byte zero.
pub open spec fn is_fresh_buffer(b: DmaView) -> bool {
    &&& b.len == 0
    &&& forall|i: int| 0 <= i < b.bytes.len() ==> b.bytes[i] == 0u8
}

impl DmaBuffers {
    /// Every buffer's length is within its capacity.
    pub closed spec fn wf(&self) -> bool {
        forall|h: u64| #[trigger] self.buffers@.contains_key(h) ==> self.buffers@[h].wf()
    }

    /// An empty registry whose first handle is 1.
    pub fn new() -> (d: Self)
        ensures
            d.wf(),
            d@.next_handle == 1,
            d@.buffers == Map::<u64, DmaView>::empty(),
            handles_below_next(d@),
    {
        let d = DmaBuffers { next_handle: 1, buffers: BTreeMap::new() };
        assert(d@.buffers =~= Map::<u64, DmaView>::empty());
        d
    }
}

/// Allocates a buffer of at least `size` bytes under the next handle and
/// returns that handle. A buffer already registered under the same handle
/// (after the handles wrapped around) is replaced.
pub fn alloc_dma_buffer(dma: &mut DmaBuffers, size: usize) -> (r: Option<u64>)
    requires
        old(dma).wf(),
        size <= isize::MAX,
    ensures
        final(dma).wf(),
        r == Some(old(dma)@.next_handle),
        final(dma)@.next_handle == next_handle_after(old(dma)@.next_handle),
        final(dma)@.buffers.contains_key(old(dma)@.next_handle),
        is_fresh_buffer(final(dma)@.buffers[old(dma)@.next_handle]),
        final(dma)@.buffers[old(dma)@.next_handle].capacity() >= size,
        handles_below_next(old(dma)@) && old(dma)@.next_handle < u64::MAX ==> {
            &&& !old(dma)@.buffers.contains_key(old(dma)@.next_handle)
            &&& handles_below_next(final(dma)@)
        },
        final(dma)@.buffers == old(dma)@.buffers.insert(
            old(dma)@.next_handle,
            final(dma)@.buffers[old(dma)@.next_handle],
        ),
{
    let handle = dma.next_handle;
    dma.next_handle = dma.next_handle.wrapping_add(1);
    let mut storage: Vec<u8> = Vec::with_capacity(size);
    let cap = vec_capacity(&storage);
    let target: usize = if cap < size { size } else { cap };
    while storage.len() < target
        invariant
            storage@.len() <= target,
            target >= size,
            forall|i: int| 0 <= i < storage@.len() ==> storage@[i] == 0u8,
        decreases target - storage@.len(),
    {
        storage.push(0u8);
    }
    let addr = vec_address(&storage);
    let buffer = DmaBuffer { storage, len: 0, addr };
    dma.buffers.insert(handle, buffer);
    assert(dma@.buffers =~= old(dma)@.buffers.insert(handle, buffer@));
    proof {
        if handles_below_next(old(dma)@) && old(dma)@.next_handle < u64::MAX {
            assert(dma@.next_handle == old(dma)@.next_handle + 1);
            assert forall|k: u64| #[trigger] dma@.buffers.contains_key(k) implies 1 <= k < dma@.next_handle by {
                if k != handle {
                    assert(old(dma)@.buffers.contains_key(k));
                }
            }
        }
    }
    Some(handle)
}

/// Releases the buffer registered under `handle`, if there is one.
pub fn free_dma_buffer(dma: &mut DmaBuffers, handle: u64)
    requires
        old(dma).wf(),
    ensures
        final(dma).wf(),
        final(dma)@.next_handle == old(dma)@.next_handle,
        final(dma)@.buffers == old(dma)@.buffers.remove(handle),
        handles_below_next(old(dma)@) ==> handles_below_next(final(dma)@),
{
    dma.buffers.remove(&handle);
    assert(dma@.buffers =~= old(dma)@.buffers.remove(handle));
}

/// The address of the storage of the buffer under `handle`, or `None` where
/// no buffer is registered under it.
pub fn get_dma_buffer_ptr(dma: &DmaBuffers, handle: u64) -> (r: Option<u64>)
    ensures
        match r {
            Some(a) => dma@.buffers.contains_key(handle) && a == dma@.buffers[handle].addr,
            None => !dma@.buffers.contains_key(handle),
        },
{
    match dma.buffers.get(&handle) {
        Some(buf) => Some(buf.addr),
        None => None,
    }
}

/// The capacity of the buffer under `handle`, or `None` where no buffer is
/// registered under it.
pub fn get_dma_buffer_capacity(dma: &DmaBuffers, handle: u64) -> (r: Option<usize>)
    ensures
        match r {
            Some(c) => dma@.buffers.contains_key(handle) && c == dma@.buffers[handle].capacity(),
            None => !dma@.buffers.contains_key(handle),
        },
{
    match dma.buffers.get(&handle) {
        Some(buf) => Some(buf.storage.len()),
        None => None,
    }
}

/// Sets the length of the valid data of the buffer under `handle`.
///
/// Fails with "DMA handle not found" where no buffer is registered under
/// `handle`, and with "Length exceeds capacity" where `len` is larger than its
/// capacity; a failure changes nothing.
pub fn set_dma_buffer_len(dma: &mut DmaBuffers, handle: u64, len: usize) -> (r: Result<(), &'static str>)
    requires
        old(dma).wf(),
    ensures
        final(dma).wf(),
        final(dma)@.next_handle == old(dma)@.next_handle,
        !old(dma)@.buffers.contains_key(handle) ==> r == Err::<(), &'static str>("DMA handle not found")
            && final(dma)@ == old(dma)@,
        old(dma)@.buffers.contains_key(handle) && len > old(dma)@.buffers[handle].capacity()
            ==> r == Err::<(), &'static str>("Length exceeds capacity") && final(dma)@ == old(dma)@,
        old(dma)@.buffers.contains_key(handle) && len <= old(dma)@.buffers[handle].capacity()
            ==> r is Ok && final(dma)@.buffers == old(dma)@.buffers.insert(
                handle,
                DmaView { len: len as nat, ..old(dma)@.buffers[handle] },
            ),
{
    match dma.buffers.remove(&handle) {
        Some(buf) => {
            if len <= buf.storage.len() {
                let updated = DmaBuffer { storage: buf.storage, len, addr: buf.addr };
                dma.buffers.insert(handle, updated);
                assert(dma@.buffers =~= old(dma)@.buffers.insert(handle, updated@));
                Ok(())
            } else {
                dma.buffers.insert(handle, buf);
                assert(dma@.buffers =~= old(dma)@.buffers);
                Err("Length exceeds capacity")
            }
        },
        None => {
            assert(dma@.buffers =~= old(dma)@.buffers);
            Err("DMA handle not found")
        },
    }
}

/// Copies `data` to the start of the buffer under `handle` and sets the
/// buffer's length to the length of `data`.
///
/// Fails with "DMA handle not found" where no buffer is registered under
/// `handle`, and with "Length exceeds capacity" where `data` does not fit;
/// a failure changes nothing.
pub fn fill_dma_buffer(dma: &mut DmaBuffers, handle: u64, data: &[u8]) -> (r: Result<(), &'static str>)
    requires
        old(dma).wf(),
    ensures
        final(dma).wf(),
        final(dma)@.next_handle == old(dma)@.next_handle,
        !old(dma)@.buffers.contains_key(handle) ==> r == Err::<(), &'static str>("DMA handle not found")
            && final(dma)@ == old(dma)@,
        old(dma)@.buffers.contains_key(handle) && data@.len() > old(dma)@.buffers[handle].capacity()
            ==> r == Err::<(), &'static str>("Length exceeds capacity") && final(dma)@ == old(dma)@,
        old(dma)@.buffers.contains_key(handle) && data@.len() <= old(dma)@.buffers[handle].capacity()
            ==> r is Ok && final(dma)@.buffers == old(dma)@.buffers.insert(
                handle,
                DmaView {
                    bytes: data@ + old(dma)@.buffers[handle].bytes.subrange(
                        data@.len() as int,
                        old(dma)@.buffers[handle].bytes.len() as int,
                    ),
                    len: data@.len(),
                    addr: old(dma)@.buffers[handle].addr,
                },
            ),
{
    match dma.buffers.remove(&handle) {
        Some(buf) => {
            if data.len() <= buf.storage.len() {
                let mut storage = buf.storage;
                let ghost orig = storage@;
                let mut i: usize = 0;
                while i < data.len()
                    invariant
                        i <= data@.len() <= orig.len(),
                        storage@.len() == orig.len(),
                        forall|j: int| 0 <= j < i ==> storage@[j] == data@[j],
                        forall|j: int| i <= j < orig.len() ==> storage@[j] == orig[j],
                    decreases data@.len() - i,
                {
                    storage.set(i, data[i]);
                    i = i + 1;
                }
                let updated = DmaBuffer { storage, len: data.len(), addr: buf.addr };
                assert(updated@.bytes =~= data@ + orig.subrange(data@.len() as int, orig.len() as int));
                dma.buffers.insert(handle, updated);
                assert(dma@.buffers =~= old(dma)@.buffers.insert(handle, updated@));
                Ok(())
            } else {
                dma.buffers.insert(handle, buf);
                assert(dma@.buffers =~= old(dma)@.buffers);
                Err("Length exceeds capacity")
            }
        },
        None => {
            assert(dma@.buffers =~= old(dma)@.buffers);
            Err("DMA handle not found")
        },
    }
}

} // verus!
