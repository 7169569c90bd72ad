//! What the loader hands to the kernel when it starts it.

use vstd::prelude::*;
use crate::bytes::{le_u64, read_u64};

verus! {

/// Number of bytes of the argument block.
pub const KERNEL_ARGS_SIZE: usize = 48;

/// The argument block of the loader: where the kernel, its stack and its
/// environment lie, and how large each is. In memory the six numbers lie
/// one behind the other, eight bytes each, the lowest byte first.
#[derive(Debug, Copy, Clone, PartialEq, Eq, Structural)]
pub struct KernelArgs {
    pub kernel_base: u64,
    pub kernel_size: u64,
    pub stack_base: u64,
    pub stack_size: u64,
    pub env_base: u64,
    pub env_size: u64,
}

impl KernelArgs {
    /// The argument block that lies in the given bytes.
    pub fn from_bytes(bytes: &[u8; KERNEL_ARGS_SIZE]) -> (args: KernelArgs)
        ensures
            args == (KernelArgs {
                kernel_base: le_u64(bytes@, 0),
                kernel_size: le_u64(bytes@, 8),
                stack_base: le_u64(bytes@, 16),
                stack_size: le_u64(bytes@, 24),
                env_base: le_u64(bytes@, 32),
                env_size: le_u64(bytes@, 40),
            }),
    {
        let bytes: &[u8] = bytes.as_slice();
        KernelArgs {
            kernel_base: read_u64(bytes, 0),
            kernel_size: read_u64(bytes, 8),
            stack_base: read_u64(bytes, 16),
            stack_size: read_u64(bytes, 24),
            env_base: read_u64(bytes, 32),
            env_size: read_u64(bytes, 40),
        }
    }
}

} // verus!
