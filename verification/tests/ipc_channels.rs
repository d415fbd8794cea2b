use aetheros_kernel::ipc::{channel_message_count, kernel_recv, kernel_send, IpcChannels};
use aetheros_kernel::kernel::config::IPC_CHANNEL_COUNT;
use aetheros_kernel::kernel::error::{KernelError, E_ACC_DENIED, E_ERROR};

#[test]
fn test_send_recv_basic() {
    let mut channels = IpcChannels::new();
    let data = b"test message";
    kernel_send(&mut channels, 1, data).unwrap();

    let received = kernel_recv(&mut channels, 1).unwrap();
    assert_eq!(received, Some(data.to_vec()));
}

#[test]
fn test_invalid_channel() {
    let mut channels = IpcChannels::new();
    let invalid_channel = IPC_CHANNEL_COUNT;
    let result = kernel_send(&mut channels, invalid_channel, b"data");
    assert_eq!(result, Err(KernelError::InvalidChannelId(invalid_channel)));
}

#[test]
fn test_empty_channel() {
    let mut channels = IpcChannels::new();
    let received = kernel_recv(&mut channels, 5).unwrap();
    assert_eq!(received, None);
}

#[test]
fn test_channel_message_count() {
    let mut channels = IpcChannels::new();
    let channel = 6;
    assert_eq!(channel_message_count(&channels, channel).unwrap(), 0);
    kernel_send(&mut channels, channel, b"one").unwrap();
    kernel_send(&mut channels, channel, b"two").unwrap();
    assert_eq!(channel_message_count(&channels, channel).unwrap(), 2);
    let _ = kernel_recv(&mut channels, channel).unwrap();
    assert_eq!(channel_message_count(&channels, channel).unwrap(), 1);
}

#[test]
fn test_vnode_ipc_communication() {
    let mut channels = IpcChannels::new();
    let channel_id = 2;
    let test_msg = "Hello from V-Node 1";

    kernel_send(&mut channels, channel_id, test_msg.as_bytes()).expect("send failed");

    match kernel_recv(&mut channels, channel_id) {
        Ok(Some(data)) => {
            let received = String::from_utf8(data).expect("invalid utf8");
            assert_eq!(received, test_msg);
        }
        _ => panic!("Expected message, got nothing"),
    }
}

#[test]
fn fifo_order_is_kept() {
    let mut channels = IpcChannels::new();
    kernel_send(&mut channels, 3, b"first").unwrap();
    kernel_send(&mut channels, 3, b"second").unwrap();
    kernel_send(&mut channels, 3, b"third").unwrap();
    assert_eq!(kernel_recv(&mut channels, 3).unwrap(), Some(b"first".to_vec()));
    kernel_send(&mut channels, 3, b"fourth").unwrap();
    assert_eq!(kernel_recv(&mut channels, 3).unwrap(), Some(b"second".to_vec()));
    assert_eq!(kernel_recv(&mut channels, 3).unwrap(), Some(b"third".to_vec()));
    assert_eq!(kernel_recv(&mut channels, 3).unwrap(), Some(b"fourth".to_vec()));
    assert_eq!(kernel_recv(&mut channels, 3).unwrap(), None);
}

#[test]
fn round_trip_leaves_channel_empty() {
    let mut channels = IpcChannels::new();
    kernel_send(&mut channels, 0, b"x").unwrap();
    assert_eq!(kernel_recv(&mut channels, 0).unwrap(), Some(b"x".to_vec()));
    assert_eq!(channel_message_count(&channels, 0).unwrap(), 0);
}

#[test]
fn channels_are_isolated() {
    let mut channels = IpcChannels::new();
    kernel_send(&mut channels, 7, b"seven").unwrap();
    assert_eq!(kernel_recv(&mut channels, 8).unwrap(), None);
    assert_eq!(channel_message_count(&channels, 8).unwrap(), 0);
    assert_eq!(channel_message_count(&channels, 7).unwrap(), 1);
}

#[test]
fn empty_message_is_delivered() {
    let mut channels = IpcChannels::new();
    kernel_send(&mut channels, 9, b"").unwrap();
    assert_eq!(channel_message_count(&channels, 9).unwrap(), 1);
    assert_eq!(kernel_recv(&mut channels, 9).unwrap(), Some(Vec::new()));
}

#[test]
fn invalid_channel_is_refused_everywhere() {
    let mut channels = IpcChannels::new();
    let last = IPC_CHANNEL_COUNT - 1;
    assert_eq!(kernel_send(&mut channels, last, b"ok"), Ok(()));
    assert_eq!(kernel_recv(&mut channels, IPC_CHANNEL_COUNT), Err(KernelError::InvalidChannelId(IPC_CHANNEL_COUNT)));
    assert_eq!(channel_message_count(&channels, u32::MAX), Err(KernelError::InvalidChannelId(u32::MAX)));
    assert_eq!(channel_message_count(&channels, last).unwrap(), 1);
}

#[test]
fn error_codes_for_userspace() {
    assert_eq!(KernelError::PermissionDenied.to_syscall_code(), E_ACC_DENIED);
    assert_eq!(KernelError::InvalidChannelId(3).to_syscall_code(), E_ERROR);
    assert_eq!(KernelError::BufferTooSmall { required: 10, provided: 4 }.to_syscall_code(), E_ERROR);
    assert_eq!(KernelError::OutOfMemory.to_syscall_code(), E_ERROR);
    assert_eq!(KernelError::InvalidFd.to_syscall_code(), E_ERROR);
}
