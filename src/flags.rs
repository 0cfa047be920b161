//! Setup flags (chosen by the caller) and feature flags (reported by the
//! kernel), as closed bit sets over `u32`.
use vstd::prelude::*;

verus! {

/// The context is polled.
pub const SETUP_IOPOLL: u32 = 1;
/// A kernel thread polls the submission ring.
pub const SETUP_SQPOLL: u32 = 2;
/// `sq_thread_cpu` is valid.
pub const SETUP_SQ_AFF: u32 = 4;
/// The caller chooses the completion ring size.
pub const SETUP_CQSIZE: u32 = 8;
/// Ring sizes are clamped to the maximum.
pub const SETUP_CLAMP: u32 = 16;
/// Attach to an existing worker pool.
pub const SETUP_ATTACH_WQ: u32 = 32;
/// Start with the ring disabled.
pub const SETUP_R_DISABLED: u32 = 64;
/// Continue submitting after an error.
pub const SETUP_SUBMIT_ALL: u32 = 128;
/// Cooperative task running.
pub const SETUP_COOP_TASKRUN: u32 = 256;
/// Report pending task work in the submission ring flags.
pub const SETUP_TASKRUN_FLAG: u32 = 512;
/// Submission entries are 128 bytes.
pub const SETUP_SQE128: u32 = 1024;
/// Completion entries are 32 bytes.
pub const SETUP_CQE32: u32 = 2048;
/// Only one task submits.
pub const SETUP_SINGLE_ISSUER: u32 = 4096;
/// Task work is deferred until events are waited for.
pub const SETUP_DEFER_TASKRUN: u32 = 8192;
/// The application provides the ring memory.
pub const SETUP_NO_MMAP: u32 = 16384;
/// Return a registered ring index rather than a file descriptor.
pub const SETUP_REGISTERED_FD_ONLY: u32 = 32768;
/// Every setup flag above.
pub const SETUP_KNOWN: u32 = 0xffff;

/// Submission and completion headers share one mapping.
pub const FEAT_SINGLE_MMAP: u32 = 1;
pub const FEAT_NODROP: u32 = 2;
pub const FEAT_SUBMIT_STABLE: u32 = 4;
pub const FEAT_RW_CUR_POS: u32 = 8;
pub const FEAT_CUR_PERSONALITY: u32 = 16;
pub const FEAT_FAST_POLL: u32 = 32;
pub const FEAT_POLL_32BITS: u32 = 64;
pub const FEAT_SQPOLL_NONFIXED: u32 = 128;
pub const FEAT_EXT_ARG: u32 = 256;
pub const FEAT_NATIVE_WORKERS: u32 = 512;
pub const FEAT_RSRC_TAGS: u32 = 1024;
pub const FEAT_CQE_SKIP: u32 = 2048;
pub const FEAT_LINKED_FILE: u32 = 4096;
pub const FEAT_REG_REG_RING: u32 = 8192;

/// Mapping offset that selects the submission ring header.
pub const OFF_SQ_RING: u64 = 0;
/// Mapping offset that selects the completion ring header.
pub const OFF_CQ_RING: u64 = 0x8000000;
/// Mapping offset that selects the submission entry array.
pub const OFF_SQES: u64 = 0x10000000;

/// Every bit of `flag` is set in `bits`.
pub open spec fn has_flag(bits: u32, flag: u32) -> bool {
    bits & flag == flag
}

/// `bits` sets no bit outside the known setup flags.
pub open spec fn only_known_setup_flags(bits: u32) -> bool {
    bits & !SETUP_KNOWN == 0
}

/// The one combination refused before asking the kernel: a registered ring
/// index instead of a descriptor only makes sense with caller-provided memory.
pub open spec fn refused_combination(bits: u32) -> bool {
    has_flag(bits, SETUP_REGISTERED_FD_ONLY) && !has_flag(bits, SETUP_NO_MMAP)
}

pub fn contains_flag(bits: u32, flag: u32) -> (r: bool)
    ensures
        r == has_flag(bits, flag),
{
    bits & flag == flag
}

/// A caller mistake in the requested configuration.
#[derive(Debug, Clone, Copy, PartialEq, Eq)]
pub enum IoUringError {
    /// The flags ask for a combination that cannot work.
    InvalidArgument,
    /// The flags set a bit that is no known setup flag.
    UnknownFlags,
}

impl IoUringError {
    pub open spec fn text(self) -> Seq<char> {
        match self {
            IoUringError::InvalidArgument => "Invalid Argument"@,
            IoUringError::UnknownFlags => "Unknown Flags"@,
        }
    }

    /// A short human-readable description.
    pub fn description(&self) -> (r: &'static str)
        ensures
            r@ == self.text(),
    {
        match self {
            IoUringError::InvalidArgument => "Invalid Argument",
            IoUringError::UnknownFlags => "Unknown Flags",
        }
    }
}

/// Checks the requested setup flags before any call into the kernel.
/// Unknown bits and the refused combination are errors; every other
/// combination is handed on unchanged.
pub fn validate_setup_flags(bits: u32) -> (r: Result<u32, IoUringError>)
    ensures
        !only_known_setup_flags(bits) ==> r == Err::<u32, IoUringError>(IoUringError::UnknownFlags),
        only_known_setup_flags(bits) && refused_combination(bits) ==> r == Err::<u32, IoUringError>(
            IoUringError::InvalidArgument,
        ),
        only_known_setup_flags(bits) && !refused_combination(bits) ==> r == Ok::<u32, IoUringError>(bits),
{
    if bits & !SETUP_KNOWN != 0 {
        Err(IoUringError::UnknownFlags)
    } else if contains_flag(bits, SETUP_REGISTERED_FD_ONLY) && !contains_flag(bits, SETUP_NO_MMAP) {
        Err(IoUringError::InvalidArgument)
    } else {
        Ok(bits)
    }
}

} // verus!
