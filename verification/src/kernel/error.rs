//! Kernel-wide error types used by syscall handlers and IPC primitives.
use vstd::prelude::*;

verus! {

/// Syscall return code for a refused capability check.
pub const E_ACC_DENIED: u64 = 0xFFFF_FFFF_FFFF_FFFE;

/// Syscall return code for an unknown syscall number.
pub const E_UNKNOWN_SYSCALL: u64 = 0xFFFF_FFFF_FFFF_FFFF;

/// Generic syscall failure code.
pub const E_ERROR: u64 = 1;

/// Syscall success code.
pub const SUCCESS: u64 = 0;

/// Strongly typed kernel errors surfaced by internal APIs.
#[derive(Debug, Clone, Copy, PartialEq, Eq, Structural)]
pub enum KernelError {
    /// The provided IPC channel id is outside the configured channel range.
    InvalidChannelId(u32),
    /// The output buffer is too small for the received message.
    BufferTooSmall { required: usize, provided: usize },
    /// The current task lacks required capability.
    PermissionDenied,
    /// Memory allocation failed.
    OutOfMemory,
    /// Invalid file descriptor.
    InvalidFd,
}

/// Result type of the kernel's internal APIs.
pub type Result<T> = core::result::Result<T, KernelError>;

/// The userspace code that stands for an internal error.
pub open spec fn syscall_code_of(e: KernelError) -> u64 {
    match e {
        KernelError::PermissionDenied => E_ACC_DENIED,
        _ => E_ERROR,
    }
}

/// Law: a refused permission is reported as `E_ACC_DENIED`, and every other
/// internal error as `E_ERROR` (1).
pub proof fn law_error_codes(e: KernelError)
    ensures
        e is PermissionDenied ==> syscall_code_of(e) == 0xFFFF_FFFF_FFFF_FFFEu64,
        !(e is PermissionDenied) ==> syscall_code_of(e) == 1,
{
}

impl KernelError {
    /// Converts an internal error to userspace syscall return code.
    pub fn to_syscall_code(self) -> (code: u64)
        ensures
            code == syscall_code_of(self),
    {
        match self {
            KernelError::PermissionDenied => E_ACC_DENIED,
            _ => E_ERROR,
        }
    }
}

} // verus!
