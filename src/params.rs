//! The parameter record exchanged with the kernel at setup, field for field,
//! reserved words included.
use vstd::prelude::*;

verus! {

/// Byte offsets of the submission ring's fields within its header mapping.
#[derive(Debug, Clone, Copy, PartialEq, Eq)]
pub struct IoSqRingOffsets {
    pub head: u32,
    pub tail: u32,
    pub ring_mask: u32,
    pub ring_entries: u32,
    pub flags: u32,
    pub dropped: u32,
    pub array: u32,
    pub resv1: u32,
    pub user_addr: u64,
}

/// Byte offsets of the completion ring's fields within its header mapping.
#[derive(Debug, Clone, Copy, PartialEq, Eq)]
pub struct IoCqRingOffsets {
    pub head: u32,
    pub tail: u32,
    pub ring_mask: u32,
    pub ring_entries: u32,
    pub overflow: u32,
    pub cqes: u32,
    pub flags: u32,
    pub resv1: u32,
    pub user_addr: u64,
}

/// On input: the requested flags and hints. On output: the granted entry
/// counts, the feature flags and both offset tables.
#[derive(Debug, Clone, Copy, PartialEq, Eq)]
pub struct IoUringParams {
    pub sq_entries: u32,
    pub cq_entries: u32,
    pub flags: u32,
    pub sq_thread_cpu: u32,
    pub sq_thread_idle: u32,
    pub features: u32,
    pub wq_fd: u32,
    pub resv: [u32; 3],
    pub sq_off: IoSqRingOffsets,
    pub cq_off: IoCqRingOffsets,
}

} // verus!
