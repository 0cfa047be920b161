//! Resolution of kernel-reported byte offsets against a mapped header region.
//! An address is only handed out when the field it names lies wholly inside
//! the region.
use vstd::prelude::*;
use crate::geometry::{completion_entry_size, cqe_size, SQ_INDEX_SIZE};
use crate::params::{IoCqRingOffsets, IoSqRingOffsets, IoUringParams};

verus! {

/// Size of each shared counter or status word in a ring header.
pub const FIELD_SIZE: u64 = 4;

/// A mapped region: its base address and byte length.
#[derive(Debug, Clone, Copy, PartialEq, Eq)]
pub struct Region {
    pub base: u64,
    pub len: u64,
}

impl Region {
    /// The region does not wrap around the address space.
    pub open spec fn wf(self) -> bool {
        self.base + self.len <= u64::MAX
    }

    pub fn is_wf(&self) -> (r: bool)
        ensures
            r == self.wf(),
    {
        self.len <= u64::MAX - self.base
    }
}

/// The field of a ring header whose offset fell outside the mapping.
#[derive(Debug, Clone, Copy, PartialEq, Eq)]
pub enum RingField {
    Head,
    Tail,
    RingMask,
    RingEntries,
    Flags,
    Array,
    Cqes,
}

/// The completion header region: mapped for the completion ring alone, or
/// the submission ring's mapping viewed without owning it.
#[derive(Debug, Clone, Copy, PartialEq, Eq)]
pub enum IoUringQueueOwnership {
    Owns(Region),
    Refers(Region),
}

impl IoUringQueueOwnership {
    pub open spec fn region_spec(self) -> Region {
        match self {
            IoUringQueueOwnership::Owns(r) => r,
            IoUringQueueOwnership::Refers(r) => r,
        }
    }

    pub fn region(&self) -> (r: Region)
        ensures
            r == self.region_spec(),
    {
        match self {
            IoUringQueueOwnership::Owns(r) => *r,
            IoUringQueueOwnership::Refers(r) => *r,
        }
    }
}

/// Resolved addresses of the submission ring, with its two mappings.
#[derive(Debug, Clone, Copy, PartialEq, Eq)]
pub struct IoUringSendQueue {
    pub head: u64,
    pub tail: u64,
    pub mask: u64,
    pub entries: u64,
    pub flags: u64,
    pub array: u64,
    pub ring: Region,
    pub sqes: Region,
}

/// Resolved addresses of the completion ring, with its header region.
#[derive(Debug, Clone, Copy, PartialEq, Eq)]
pub struct IoUringCompleteQueue {
    pub head: u64,
    pub tail: u64,
    pub mask: u64,
    pub entries: u64,
    pub flags: u64,
    pub cqes: u64,
    pub ring: IoUringQueueOwnership,
}

/// `span` bytes from `offset` stay within a region of `len` bytes.
pub open spec fn fits(offset: u32, span: int, len: u64) -> bool {
    offset + span <= len
}

/// Bytes of an array of `count` elements that must be mapped: at least one element.
pub open spec fn array_span(count: u32, elem: int) -> int {
    if count == 0 {
        elem
    } else {
        count * elem
    }
}

/// The first submission header field, in resolution order, that escapes the region.
pub open spec fn sq_bad_field(off: IoSqRingOffsets, entries: u32, len: u64) -> Option<RingField> {
    if !fits(off.head, FIELD_SIZE as int, len) {
        Some(RingField::Head)
    } else if !fits(off.tail, FIELD_SIZE as int, len) {
        Some(RingField::Tail)
    } else if !fits(off.ring_mask, FIELD_SIZE as int, len) {
        Some(RingField::RingMask)
    } else if !fits(off.ring_entries, FIELD_SIZE as int, len) {
        Some(RingField::RingEntries)
    } else if !fits(off.flags, FIELD_SIZE as int, len) {
        Some(RingField::Flags)
    } else if !fits(off.array, array_span(entries, SQ_INDEX_SIZE as int), len) {
        Some(RingField::Array)
    } else {
        None
    }
}

/// The first completion header field, in resolution order, that escapes the region.
pub open spec fn cq_bad_field(off: IoCqRingOffsets, entries: u32, entry_size: int, len: u64) -> Option<RingField> {
    if !fits(off.head, FIELD_SIZE as int, len) {
        Some(RingField::Head)
    } else if !fits(off.tail, FIELD_SIZE as int, len) {
        Some(RingField::Tail)
    } else if !fits(off.ring_mask, FIELD_SIZE as int, len) {
        Some(RingField::RingMask)
    } else if !fits(off.ring_entries, FIELD_SIZE as int, len) {
        Some(RingField::RingEntries)
    } else if !fits(off.flags, FIELD_SIZE as int, len) {
        Some(RingField::Flags)
    } else if !fits(off.cqes, array_span(entries, entry_size), len) {
        Some(RingField::Cqes)
    } else {
        None
    }
}

pub open spec fn at(region: Region, offset: u32) -> u64 {
    (region.base + offset) as u64
}

pub open spec fn send_queue_at(p: IoUringParams, ring: Region, sqes: Region) -> IoUringSendQueue {
    IoUringSendQueue {
        head: at(ring, p.sq_off.head),
        tail: at(ring, p.sq_off.tail),
        mask: at(ring, p.sq_off.ring_mask),
        entries: at(ring, p.sq_off.ring_entries),
        flags: at(ring, p.sq_off.flags),
        array: at(ring, p.sq_off.array),
        ring,
        sqes,
    }
}

pub open spec fn complete_queue_at(p: IoUringParams, ring: IoUringQueueOwnership) -> IoUringCompleteQueue {
    let r = ring.region_spec();
    IoUringCompleteQueue {
        head: at(r, p.cq_off.head),
        tail: at(r, p.cq_off.tail),
        mask: at(r, p.cq_off.ring_mask),
        entries: at(r, p.cq_off.ring_entries),
        flags: at(r, p.cq_off.flags),
        cqes: at(r, p.cq_off.cqes),
        ring,
    }
}

/// The address `offset` bytes into `region`, if `span` bytes from there stay inside it.
pub fn locate(region: &Region, offset: u32, span: u64, field: RingField) -> (r: Result<u64, RingField>)
    requires
        region.wf(),
    ensures
        fits(offset, span as int, region.len) ==> r == Ok::<u64, RingField>(at(*region, offset)),
        !fits(offset, span as int, region.len) ==> r == Err::<u64, RingField>(field),
{
    if span <= region.len && offset as u64 <= region.len - span {
        Ok(region.base + offset as u64)
    } else {
        Err(field)
    }
}

/// Bytes spanned by `count` elements of `elem` bytes, at least one element.
pub fn array_bytes(count: u32, elem: u64) -> (r: u64)
    requires
        elem <= 128,
    ensures
        r == array_span(count, elem as int),
{
    if count == 0 {
        elem
    } else {
        assert(count * elem <= 0xffff_ffffu64 * 128) by (nonlinear_arith)
            requires
                elem <= 128,
                count <= 0xffff_ffffu64,
        ;
        count as u64 * elem
    }
}

/// Resolves the submission ring's fields against its header region. Fails
/// with the first field whose bytes would leave the region.
pub fn resolve_send_queue(params: &IoUringParams, ring: Region, sqes: Region) -> (r: Result<IoUringSendQueue, RingField>)
    requires
        ring.wf(),
    ensures
        match sq_bad_field(params.sq_off, params.sq_entries, ring.len) {
            Some(f) => r == Err::<IoUringSendQueue, RingField>(f),
            None => r == Ok::<IoUringSendQueue, RingField>(send_queue_at(*params, ring, sqes)),
        },
{
    let off = &params.sq_off;
    let head = locate(&ring, off.head, FIELD_SIZE, RingField::Head)?;
    let tail = locate(&ring, off.tail, FIELD_SIZE, RingField::Tail)?;
    let mask = locate(&ring, off.ring_mask, FIELD_SIZE, RingField::RingMask)?;
    let entries = locate(&ring, off.ring_entries, FIELD_SIZE, RingField::RingEntries)?;
    let flags = locate(&ring, off.flags, FIELD_SIZE, RingField::Flags)?;
    let span = array_bytes(params.sq_entries, SQ_INDEX_SIZE);
    let array = locate(&ring, off.array, span, RingField::Array)?;
    Ok(IoUringSendQueue { head, tail, mask, entries, flags, array, ring, sqes })
}

/// Resolves the completion ring's fields against its header region, owned or
/// shared. Fails with the first field whose bytes would leave the region.
pub fn resolve_complete_queue(params: &IoUringParams, ring: IoUringQueueOwnership) -> (r: Result<IoUringCompleteQueue, RingField>)
    requires
        ring.region_spec().wf(),
    ensures
        match cq_bad_field(params.cq_off, params.cq_entries, cqe_size(params.flags), ring.region_spec().len) {
            Some(f) => r == Err::<IoUringCompleteQueue, RingField>(f),
            None => r == Ok::<IoUringCompleteQueue, RingField>(complete_queue_at(*params, ring)),
        },
{
    let region = ring.region();
    let off = &params.cq_off;
    let head = locate(&region, off.head, FIELD_SIZE, RingField::Head)?;
    let tail = locate(&region, off.tail, FIELD_SIZE, RingField::Tail)?;
    let mask = locate(&region, off.ring_mask, FIELD_SIZE, RingField::RingMask)?;
    let entries = locate(&region, off.ring_entries, FIELD_SIZE, RingField::RingEntries)?;
    let flags = locate(&region, off.flags, FIELD_SIZE, RingField::Flags)?;
    let span = array_bytes(params.cq_entries, completion_entry_size(params.flags));
    let cqes = locate(&region, off.cqes, span, RingField::Cqes)?;
    Ok(IoUringCompleteQueue { head, tail, mask, entries, flags, cqes, ring })
}

} // verus!
