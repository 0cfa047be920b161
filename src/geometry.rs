//! Byte lengths of the three regions that a ring pair is mapped from.
use vstd::prelude::*;
use crate::flags::{contains_flag, has_flag, FEAT_SINGLE_MMAP, SETUP_CQE32, SETUP_SQE128};
use crate::params::IoUringParams;

verus! {

/// Size of a completion entry in its small layout.
pub const CQE_SIZE: u64 = 16;
/// Size of a submission entry in its small layout.
pub const SQE_SIZE: u64 = 64;
/// Size of one slot of the submission ring's index array.
pub const SQ_INDEX_SIZE: u64 = 4;

/// The byte lengths to map: the two ring headers and the submission entries.
#[derive(Debug, Clone, Copy, PartialEq, Eq)]
pub struct RingSizes {
    pub submission_bytes: u64,
    pub completion_bytes: u64,
    pub sqe_array_bytes: u64,
}

pub open spec fn cqe_size(setup_flags: u32) -> int {
    if has_flag(setup_flags, SETUP_CQE32) {
        2 * CQE_SIZE
    } else {
        CQE_SIZE as int
    }
}

pub open spec fn sqe_size(setup_flags: u32) -> int {
    if has_flag(setup_flags, SETUP_SQE128) {
        SQE_SIZE + 64
    } else {
        SQE_SIZE as int
    }
}

/// The kernel reports that both ring headers live in one mapping.
pub open spec fn single_mapping(p: IoUringParams) -> bool {
    has_flag(p.features, FEAT_SINGLE_MMAP)
}

/// Header bytes that the submission ring needs: up to the end of its index array.
pub open spec fn sq_ring_bytes(p: IoUringParams) -> int {
    p.sq_off.array + p.sq_entries * SQ_INDEX_SIZE
}

/// Header bytes that the completion ring needs: up to the end of its entries.
pub open spec fn cq_ring_bytes(p: IoUringParams) -> int {
    p.cq_off.cqes + p.cq_entries * cqe_size(p.flags)
}

pub open spec fn max_int(a: int, b: int) -> int {
    if a >= b { a } else { b }
}

pub open spec fn submission_bytes(p: IoUringParams) -> int {
    if single_mapping(p) {
        max_int(sq_ring_bytes(p), cq_ring_bytes(p))
    } else {
        sq_ring_bytes(p)
    }
}

pub open spec fn completion_bytes(p: IoUringParams) -> int {
    if single_mapping(p) {
        max_int(sq_ring_bytes(p), cq_ring_bytes(p))
    } else {
        cq_ring_bytes(p)
    }
}

pub open spec fn sqe_array_bytes(p: IoUringParams) -> int {
    p.sq_entries * sqe_size(p.flags)
}

pub fn completion_entry_size(setup_flags: u32) -> (r: u64)
    ensures
        r == cqe_size(setup_flags),
{
    if contains_flag(setup_flags, SETUP_CQE32) {
        CQE_SIZE + CQE_SIZE
    } else {
        CQE_SIZE
    }
}

pub fn submission_entry_size(setup_flags: u32) -> (r: u64)
    ensures
        r == sqe_size(setup_flags),
{
    if contains_flag(setup_flags, SETUP_SQE128) {
        SQE_SIZE + 64
    } else {
        SQE_SIZE
    }
}

/// Computes the region lengths from negotiated parameters. Under the single
/// mapping feature both headers get the larger of the two lengths; the
/// submission entries always have a mapping of their own.
pub fn compute_sizes(params: &IoUringParams) -> (r: RingSizes)
    ensures
        r.submission_bytes == submission_bytes(*params),
        r.completion_bytes == completion_bytes(*params),
        r.sqe_array_bytes == sqe_array_bytes(*params),
{
    let cqe = completion_entry_size(params.flags);
    let sqe = submission_entry_size(params.flags);
    let mut sq_bytes: u64 = params.sq_off.array as u64 + params.sq_entries as u64 * SQ_INDEX_SIZE;
    assert(params.cq_entries * cqe <= 0xffff_ffffu64 * 32) by (nonlinear_arith)
        requires
            cqe <= 32,
            params.cq_entries <= 0xffff_ffffu64,
    ;
    assert(params.sq_entries * sqe <= 0xffff_ffffu64 * 128) by (nonlinear_arith)
        requires
            sqe <= 128,
            params.sq_entries <= 0xffff_ffffu64,
    ;
    let mut cq_bytes: u64 = params.cq_off.cqes as u64 + params.cq_entries as u64 * cqe;
    if contains_flag(params.features, FEAT_SINGLE_MMAP) {
        if cq_bytes > sq_bytes {
            sq_bytes = cq_bytes;
        }
        cq_bytes = sq_bytes;
    }
    RingSizes {
        submission_bytes: sq_bytes,
        completion_bytes: cq_bytes,
        sqe_array_bytes: params.sq_entries as u64 * sqe,
    }
}

/// Asking for 32-byte completion entries never shrinks the completion region.
pub proof fn lemma_cqe32_never_shrinks(p: IoUringParams)
    ensures
        completion_bytes(IoUringParams { flags: p.flags | SETUP_CQE32, ..p }) >= completion_bytes(p),
{
    let q = IoUringParams { flags: p.flags | SETUP_CQE32, ..p };
    let f = p.flags;
    assert((f | 2048u32) & 2048u32 == 2048u32) by (bit_vector);
    assert(cqe_size(q.flags) == 2 * CQE_SIZE);
    assert(p.cq_entries * cqe_size(p.flags) <= q.cq_entries * cqe_size(q.flags)) by (nonlinear_arith)
        requires
            q.cq_entries == p.cq_entries,
            cqe_size(p.flags) <= cqe_size(q.flags),
    ;
}

/// Where the headers are mapped apart, asking for 32-byte completion entries
/// strictly grows the completion region of a ring with at least one entry.
pub proof fn lemma_cqe32_grows_completion_region(p: IoUringParams)
    requires
        !has_flag(p.flags, SETUP_CQE32),
        p.cq_entries > 0,
        !single_mapping(p),
    ensures
        completion_bytes(IoUringParams { flags: p.flags | SETUP_CQE32, ..p }) > completion_bytes(p),
{
    let q = IoUringParams { flags: p.flags | SETUP_CQE32, ..p };
    let f = p.flags;
    assert((f | 2048u32) & 2048u32 == 2048u32) by (bit_vector);
    assert(p.cq_entries * cqe_size(p.flags) < q.cq_entries * cqe_size(q.flags)) by (nonlinear_arith)
        requires
            q.cq_entries == p.cq_entries,
            p.cq_entries > 0,
            cqe_size(p.flags) == 16,
            cqe_size(q.flags) == 32,
    ;
}

} // verus!
