use aetheros_kernel::ipc::vnode::VNodeChannel;
use aetheros_kernel::ipc::IpcSend;
use aetheros_kernel::kernel::caps::Capability;
use aetheros_kernel::kernel::dma::{
    alloc_dma_buffer, fill_dma_buffer, free_dma_buffer, get_dma_buffer_capacity, get_dma_buffer_ptr,
    set_dma_buffer_len, DmaBuffers,
};
use aetheros_kernel::kernel::ipc::{kernel_recv, kernel_send, KernelChannels};
use aetheros_kernel::kernel::syscall::{
    syscall_dispatch, user_input_range, Kernel, E_ERROR, E_UNKNOWN_SYSCALL, RX_FRAME_LEN, SUCCESS,
    SYS_BLOCK_ON_CHAN, SYS_GET_DMA_BUF_PTR, SYS_IPC_RECV, SYS_IPC_RECV_NONBLOCKING, SYS_IPC_SEND,
    SYS_IRQ_ACK, SYS_IRQ_REGISTER, SYS_LOG, SYS_NET_ALLOC_BUF, SYS_NET_FREE_BUF, SYS_NET_RX_POLL,
    SYS_NET_TX, SYS_SET_DMA_BUF_LEN, SYS_TIME,
};
use aetheros_kernel::kernel::task::get_current_task;

#[test]
fn log_accepts_utf8_only() {
    let mut k = Kernel::new();
    let ok = syscall_dispatch(&mut k, SYS_LOG, 0, 5, 0, b"hello");
    assert_eq!(ok.code, SUCCESS);
    let ok2 = syscall_dispatch(&mut k, SYS_LOG, 0, 4, 0, "héé".as_bytes());
    assert_eq!(ok2.code, SUCCESS);
    let bad = syscall_dispatch(&mut k, SYS_LOG, 0, 2, 0, &[0xC3, 0x28]);
    assert_eq!(bad.code, E_ERROR);
    assert!(bad.copy_out.is_none());
}

#[test]
fn time_reads_ticks() {
    let mut k = Kernel::new();
    assert_eq!(syscall_dispatch(&mut k, SYS_TIME, 0, 0, 0, &[]).code, 0);
}

#[test]
fn kernel_channels_start_closed() {
    let mut k = Kernel::new();
    assert_eq!(syscall_dispatch(&mut k, SYS_IPC_SEND, 1, 0, 3, b"abc").code, E_ERROR);
    let r = syscall_dispatch(&mut k, SYS_IPC_RECV, 1, 0, 4096, &[]);
    assert_eq!(r.code, SUCCESS);
    assert!(r.copy_out.is_none());
    let r = syscall_dispatch(&mut k, SYS_IPC_RECV_NONBLOCKING, 31, 0, 4096, &[]);
    assert_eq!(r.code, SUCCESS);
}

#[test]
fn kernel_channel_table_without_channels() {
    let mut chans = KernelChannels::new();
    assert_eq!(kernel_send(&mut chans, 0, b"x"), Err("Channel not found"));
    assert_eq!(kernel_recv(&mut chans, 0), None);
}

#[test]
fn plain_syscalls_succeed() {
    let mut k = Kernel::new();
    for n in [SYS_BLOCK_ON_CHAN, SYS_IRQ_REGISTER, SYS_NET_TX, SYS_IRQ_ACK] {
        assert_eq!(syscall_dispatch(&mut k, n, 11, 2, 0, &[]).code, SUCCESS);
    }
}

#[test]
fn unknown_syscall_is_refused() {
    let mut k = Kernel::new();
    assert_eq!(syscall_dispatch(&mut k, 14, 0, 0, 0, &[]).code, E_UNKNOWN_SYSCALL);
    assert_eq!(syscall_dispatch(&mut k, u64::MAX, 1, 2, 3, &[]).code, E_UNKNOWN_SYSCALL);
}

#[test]
fn dma_alloc_poll_and_free() {
    let mut k = Kernel::new();
    let h = syscall_dispatch(&mut k, SYS_NET_ALLOC_BUF, 128, 0, 0, &[]).code;
    assert_eq!(h, 1);
    let h2 = syscall_dispatch(&mut k, SYS_NET_ALLOC_BUF, 16, 0, 0, &[]).code;
    assert_eq!(h2, 2);
    // The frame does not fit the caller's limit.
    assert_eq!(syscall_dispatch(&mut k, SYS_NET_RX_POLL, 0, h, 10, &[]).code, E_ERROR);
    // It fits the buffer and the limit.
    assert_eq!(syscall_dispatch(&mut k, SYS_NET_RX_POLL, 0, h, 1536, &[]).code, RX_FRAME_LEN as u64);
    // An unknown handle.
    assert_eq!(syscall_dispatch(&mut k, SYS_NET_RX_POLL, 0, 99, 1536, &[]).code, E_ERROR);
    let ptr = syscall_dispatch(&mut k, SYS_GET_DMA_BUF_PTR, h, 0, 0, &[]).code;
    assert_ne!(ptr, 0);
    assert_eq!(syscall_dispatch(&mut k, SYS_SET_DMA_BUF_LEN, h, 64, 0, &[]).code, SUCCESS);
    assert_eq!(syscall_dispatch(&mut k, SYS_SET_DMA_BUF_LEN, h, 1 << 40, 0, &[]).code, E_ERROR);
    assert_eq!(syscall_dispatch(&mut k, SYS_NET_FREE_BUF, h, 0, 0, &[]).code, SUCCESS);
    assert_eq!(syscall_dispatch(&mut k, SYS_GET_DMA_BUF_PTR, h, 0, 0, &[]).code, E_ERROR);
    assert_eq!(syscall_dispatch(&mut k, SYS_SET_DMA_BUF_LEN, h, 1, 0, &[]).code, E_ERROR);
}

#[test]
fn dma_alloc_then_rx_poll_fills_the_buffer() {
    let mut k = Kernel::new();
    let h = syscall_dispatch(&mut k, SYS_NET_ALLOC_BUF, 64, 0, 0, &[]).code;
    assert_eq!(syscall_dispatch(&mut k, SYS_NET_RX_POLL, 0, h, 42, &[]).code, 42);
    // A buffer allocated with room for the frame.
    let h = syscall_dispatch(&mut k, SYS_NET_ALLOC_BUF, 42, 0, 0, &[]).code;
    assert_eq!(syscall_dispatch(&mut k, SYS_NET_RX_POLL, 0, h, 42, &[]).code, 42);
}

#[test]
fn dma_capacity_covers_the_requested_size() {
    let mut d = DmaBuffers::new();
    for size in [0usize, 1, 42, 64, 1000, 4096] {
        let h = alloc_dma_buffer(&mut d, size).unwrap();
        assert!(get_dma_buffer_capacity(&d, h).unwrap() >= size);
        assert_eq!(set_dma_buffer_len(&mut d, h, size), Ok(()));
    }
}

#[test]
fn dma_handles_are_fresh_and_capacities_kept() {
    let mut d = DmaBuffers::new();
    let a = alloc_dma_buffer(&mut d, 100).unwrap();
    let b = alloc_dma_buffer(&mut d, 200).unwrap();
    free_dma_buffer(&mut d, a);
    // A freed handle is not handed out again.
    let c = alloc_dma_buffer(&mut d, 10).unwrap();
    assert_eq!((a, b, c), (1, 2, 3));
    let cap_b = get_dma_buffer_capacity(&d, b).unwrap();
    assert!(cap_b >= 200);
    assert_eq!(fill_dma_buffer(&mut d, b, &[9; 50]), Ok(()));
    assert_eq!(set_dma_buffer_len(&mut d, b, 7), Ok(()));
    free_dma_buffer(&mut d, c);
    assert_eq!(get_dma_buffer_capacity(&d, b), Some(cap_b));
    assert_eq!(get_dma_buffer_capacity(&d, a), None);
}

#[test]
fn dma_registry_functions() {
    let mut d = DmaBuffers::new();
    let h = alloc_dma_buffer(&mut d, 64).unwrap();
    assert_eq!(h, 1);
    let cap = get_dma_buffer_capacity(&d, h).unwrap();
    assert!(cap >= 64);
    assert!(get_dma_buffer_ptr(&d, h).is_some());
    assert_eq!(set_dma_buffer_len(&mut d, h, cap), Ok(()));
    assert_eq!(set_dma_buffer_len(&mut d, h, cap + 1), Err("Length exceeds capacity"));
    assert_eq!(set_dma_buffer_len(&mut d, 77, 0), Err("DMA handle not found"));
    assert_eq!(fill_dma_buffer(&mut d, h, &[1, 2, 3]), Ok(()));
    assert_eq!(fill_dma_buffer(&mut d, 77, &[1]), Err("DMA handle not found"));
    free_dma_buffer(&mut d, h);
    assert_eq!(get_dma_buffer_capacity(&d, h), None);
    assert!(get_dma_buffer_ptr(&d, h).is_none());
    assert_eq!(alloc_dma_buffer(&mut d, 0), Some(2));
}

#[test]
fn capabilities_of_the_task() {
    let t = get_current_task();
    assert!(t.has_cap(Capability::LogWrite));
    assert!(t.has_cap(Capability::TimeRead));
    assert!(t.has_cap(Capability::NetworkAccess));
    assert!(!t.has_cap(Capability::StorageAccess));
}

#[test]
fn user_ranges() {
    assert_eq!(user_input_range(SYS_LOG, 10, 20, 30), Some((10, 20)));
    assert_eq!(user_input_range(SYS_IPC_SEND, 10, 20, 30), Some((20, 30)));
    assert_eq!(user_input_range(SYS_TIME, 10, 20, 30), None);
}

#[test]
fn vnode_channel_without_kernel_channel() {
    let mut k = Kernel::new();
    let mut chan = VNodeChannel::new(3);
    assert_eq!(chan.id, 3);
    assert_eq!(chan.recv_non_blocking(&mut k), Ok(None));
    assert_eq!(chan.recv_blocking(&mut k), Ok(None));
    assert_eq!(chan.send_raw(&mut k, b"hi"), Err(()));
}
