use uring::flags::{
    IoUringError, FEAT_SINGLE_MMAP, OFF_CQ_RING, OFF_SQES, OFF_SQ_RING, SETUP_CQE32,
    SETUP_NO_MMAP, SETUP_REGISTERED_FD_ONLY, SETUP_SQE128,
};
use uring::geometry::compute_sizes;
use uring::params::{IoCqRingOffsets, IoSqRingOffsets, IoUringParams};
use uring::queues::{
    resolve_complete_queue, resolve_send_queue, IoUringQueueOwnership, Region, RingField,
};
use uring::setup::{
    mapping_plan, Action, Event, MapRequest, MapTarget, Phase, RingCounts, RingLayout, RingSetup,
    SetupError,
};

fn zero_params() -> IoUringParams {
    IoUringParams {
        sq_entries: 0,
        cq_entries: 0,
        flags: 0,
        sq_thread_cpu: 0,
        sq_thread_idle: 0,
        features: 0,
        wq_fd: 0,
        resv: [0, 0, 0],
        sq_off: IoSqRingOffsets {
            head: 0,
            tail: 0,
            ring_mask: 0,
            ring_entries: 0,
            flags: 0,
            dropped: 0,
            array: 0,
            resv1: 0,
            user_addr: 0,
        },
        cq_off: IoCqRingOffsets {
            head: 0,
            tail: 0,
            ring_mask: 0,
            ring_entries: 0,
            overflow: 0,
            cqes: 0,
            flags: 0,
            resv1: 0,
            user_addr: 0,
        },
    }
}

/// What a kernel reports for a ring of `sq` submission and `cq` completion entries.
fn granted(sq: u32, cq: u32, flags: u32, features: u32) -> IoUringParams {
    let mut p = zero_params();
    p.sq_entries = sq;
    p.cq_entries = cq;
    p.flags = flags;
    p.features = features;
    let cqe = if flags & SETUP_CQE32 != 0 { 32 } else { 16 };
    p.sq_off = IoSqRingOffsets {
        head: 0,
        tail: 64,
        ring_mask: 256,
        ring_entries: 264,
        flags: 276,
        dropped: 272,
        array: 320 + cq * cqe,
        resv1: 0,
        user_addr: 0,
    };
    p.cq_off = IoCqRingOffsets {
        head: 128,
        tail: 192,
        ring_mask: 260,
        ring_entries: 268,
        overflow: 284,
        cqes: 320,
        flags: 280,
        resv1: 0,
        user_addr: 0,
    };
    p
}

fn region_for(req: &MapRequest, base: u64) -> Region {
    Region { base, len: req.len }
}

/// Drives a setup whose calls all succeed; returns the actions in order.
fn run_to_end(entries: u32, requested: IoUringParams, answer: IoUringParams, counts: (RingCounts, RingCounts)) -> Vec<Action> {
    let (mut machine, first) = RingSetup::start(entries, requested);
    let mut actions = vec![first.clone()];
    let mut next = first;
    let mut base: u64 = 0x7000_0000;
    loop {
        let ev = match &next {
            Action::Setup { .. } => Event::Negotiated(answer),
            Action::MapRegion(req) => {
                base += 0x10_0000;
                Event::Mapped(region_for(req, base))
            }
            Action::ReadCounts { .. } => Event::Counts { sq: counts.0, cq: counts.1 },
            Action::UnmapRegion(_) => Event::Unmapped,
            Action::Ready(_) | Action::Fail(_) => return actions,
        };
        assert!(machine.accepts(&ev));
        next = machine.on_event(ev);
        actions.push(next.clone());
    }
}

fn ready_layout(actions: &[Action]) -> RingLayout {
    match actions.last() {
        Some(Action::Ready(layout)) => *layout,
        other => panic!("setup did not complete: {:?}", other),
    }
}

fn counts(entries: u32) -> RingCounts {
    RingCounts { mask: entries - 1, entries }
}

#[test]
fn io_uring_io_uring_setup_does_not_throw() {
    let actions = run_to_end(1, zero_params(), granted(1, 2, 0, 0), (counts(1), counts(2)));
    assert!(matches!(actions.last(), Some(Action::Ready(_))));
}

#[test]
fn lib_io_uring_setup_does_not_throw() {
    let (machine, first) = RingSetup::start(1, zero_params());
    assert_eq!(first, Action::Setup { entries: 1, params: zero_params() });
    assert_eq!(machine.phase(), Phase::Negotiating);
}

#[test]
fn one_entry_rings_are_mapped_apart() {
    let actions = run_to_end(1, zero_params(), granted(1, 1, 0, 0), (counts(1), counts(1)));
    let maps: Vec<MapRequest> = actions
        .iter()
        .filter_map(|a| match a {
            Action::MapRegion(r) => Some(*r),
            _ => None,
        })
        .collect();
    assert_eq!(maps.len(), 3);
    assert_eq!(maps[0], MapRequest { target: MapTarget::SubmissionRing, offset: OFF_SQ_RING, len: 336 + 4 });
    assert_eq!(maps[1], MapRequest { target: MapTarget::CompletionRing, offset: OFF_CQ_RING, len: 320 + 16 });
    assert_eq!(maps[2], MapRequest { target: MapTarget::SubmissionEntries, offset: OFF_SQES, len: 64 });
    let layout = ready_layout(&actions);
    assert_eq!(layout.sq_counts.entries, 1);
    assert_eq!(layout.cq_counts.entries, 1);
    assert!(matches!(layout.complete_queue.ring, IoUringQueueOwnership::Owns(_)));
    assert_ne!(layout.complete_queue.ring.region().base, layout.send_queue.ring.base);
}

#[test]
fn mask_is_one_less_than_entries_after_setup() {
    for n in [1u32, 2, 4, 8, 64, 4096] {
        for features in [0u32, FEAT_SINGLE_MMAP, 0x3fff] {
            let actions = run_to_end(n, zero_params(), granted(n, 2 * n, 0, features), (counts(n), counts(2 * n)));
            let layout = ready_layout(&actions);
            assert_eq!(layout.sq_counts.mask + 1, layout.sq_counts.entries);
            assert_eq!(layout.cq_counts.mask + 1, layout.cq_counts.entries);
        }
    }
}

#[test]
fn inconsistent_counts_unwind_everything() {
    let bad = RingCounts { mask: 2, entries: 3 };
    let actions = run_to_end(4, zero_params(), granted(4, 8, 0, 0), (counts(4), bad));
    let unmaps: Vec<Region> = actions
        .iter()
        .filter_map(|a| match a {
            Action::UnmapRegion(r) => Some(*r),
            _ => None,
        })
        .collect();
    assert_eq!(unmaps.len(), 3);
    assert_eq!(unmaps[0].base, 0x7030_0000);
    assert_eq!(unmaps[1].base, 0x7020_0000);
    assert_eq!(unmaps[2].base, 0x7010_0000);
    assert_eq!(actions.last(), Some(&Action::Fail(SetupError::InconsistentCounts)));
}

#[test]
fn counts_other_than_negotiated_are_refused() {
    let actions = run_to_end(4, zero_params(), granted(4, 8, 0, 0), (counts(4), counts(4)));
    assert_eq!(actions.last(), Some(&Action::Fail(SetupError::InconsistentCounts)));
}

#[test]
fn registered_fd_only_without_no_mmap_is_refused_before_any_call() {
    let mut p = zero_params();
    p.flags = SETUP_REGISTERED_FD_ONLY;
    let (machine, first) = RingSetup::start(1, p);
    assert_eq!(first, Action::Fail(SetupError::Config(IoUringError::InvalidArgument)));
    assert_eq!(machine.phase(), Phase::Failed);
    assert!(!machine.accepts(&Event::Negotiated(granted(1, 2, 0, 0))));
    assert!(!machine.accepts(&Event::Mapped(Region { base: 4096, len: 4096 })));
}

#[test]
fn registered_fd_only_with_no_mmap_goes_to_the_kernel() {
    let mut p = zero_params();
    p.flags = SETUP_REGISTERED_FD_ONLY | SETUP_NO_MMAP;
    let (_, first) = RingSetup::start(1, p);
    assert_eq!(first, Action::Setup { entries: 1, params: p });
}

#[test]
fn unknown_setup_flags_are_refused() {
    let mut p = zero_params();
    p.flags = 1 << 20;
    let (_, first) = RingSetup::start(1, p);
    assert_eq!(first, Action::Fail(SetupError::Config(IoUringError::UnknownFlags)));
}

#[test]
fn single_mapping_shares_the_header() {
    let actions = run_to_end(8, zero_params(), granted(8, 16, 0, FEAT_SINGLE_MMAP), (counts(8), counts(16)));
    let maps: Vec<MapRequest> = actions
        .iter()
        .filter_map(|a| match a {
            Action::MapRegion(r) => Some(*r),
            _ => None,
        })
        .collect();
    assert_eq!(maps.len(), 2);
    assert_eq!(maps[0].target, MapTarget::SubmissionRing);
    assert_eq!(maps[1].target, MapTarget::SubmissionEntries);
    let layout = ready_layout(&actions);
    let base = layout.send_queue.ring.base;
    assert_eq!(layout.complete_queue.ring, IoUringQueueOwnership::Refers(layout.send_queue.ring));
    assert_eq!(layout.complete_queue.head, base + 128);
    assert_eq!(layout.complete_queue.cqes, base + 320);
    assert_eq!(layout.send_queue.head, base);
    assert_eq!(layout.release_order(), vec![layout.send_queue.sqes, layout.send_queue.ring]);
}

#[test]
fn separate_mappings_are_each_released_once() {
    let actions = run_to_end(8, zero_params(), granted(8, 16, 0, 0), (counts(8), counts(16)));
    let layout = ready_layout(&actions);
    let cq = match layout.complete_queue.ring {
        IoUringQueueOwnership::Owns(r) => r,
        IoUringQueueOwnership::Refers(_) => panic!("completion header not owned"),
    };
    let order = layout.release_order();
    assert_eq!(order, vec![layout.send_queue.sqes, cq, layout.send_queue.ring]);
    assert_ne!(order[0], order[1]);
    assert_ne!(order[1], order[2]);
}

#[test]
fn cqe32_sizes_the_completion_region() {
    let p = granted(8, 8, SETUP_CQE32, 0);
    let sizes = compute_sizes(&p);
    assert_eq!(sizes.completion_bytes, p.cq_off.cqes as u64 + 8 * (16 * 2));
    assert_eq!(sizes.sqe_array_bytes, 8 * 64);
    assert_eq!(sizes.submission_bytes, p.sq_off.array as u64 + 8 * 4);
}

#[test]
fn cqe32_grows_the_completion_region() {
    for n in [1u32, 3, 8, 1024] {
        let small = compute_sizes(&granted(n, n, 0, 0)).completion_bytes;
        let mut big_params = granted(n, n, 0, 0);
        big_params.flags = SETUP_CQE32;
        let big = compute_sizes(&big_params).completion_bytes;
        assert!(big > small);
        assert_eq!(big - small, 16 * n as u64);
    }
}

#[test]
fn sqe128_doubles_the_entry_array() {
    let p = granted(16, 32, SETUP_SQE128, 0);
    assert_eq!(compute_sizes(&p).sqe_array_bytes, 16 * 128);
}

#[test]
fn single_mapping_uses_the_larger_header_for_both() {
    let p = granted(4, 64, 0, FEAT_SINGLE_MMAP);
    let sizes = compute_sizes(&p);
    let sq = p.sq_off.array as u64 + 4 * 4;
    let cq = p.cq_off.cqes as u64 + 64 * 16;
    assert_eq!(sizes.submission_bytes, sq.max(cq));
    assert_eq!(sizes.completion_bytes, sq.max(cq));
    assert_eq!(mapping_plan(&p).len(), 2);
}

#[test]
fn zero_entries_give_header_only_sizes() {
    let p = granted(0, 0, 0, 0);
    let sizes = compute_sizes(&p);
    assert_eq!(sizes.submission_bytes, 320);
    assert_eq!(sizes.completion_bytes, 320);
    assert_eq!(sizes.sqe_array_bytes, 0);
}

#[test]
fn cqes_past_the_mapping_is_an_offset_error() {
    let p = granted(1, 1, 0, 0);
    let region = Region { base: 0x1000_0000, len: p.cq_off.cqes as u64 + 15 };
    let r = resolve_complete_queue(&p, IoUringQueueOwnership::Owns(region));
    assert_eq!(r, Err(RingField::Cqes));
    let exact = Region { base: 0x1000_0000, len: p.cq_off.cqes as u64 + 16 };
    let q = resolve_complete_queue(&p, IoUringQueueOwnership::Owns(exact)).unwrap();
    assert_eq!(q.cqes, 0x1000_0000 + 320);
    assert_eq!(q.tail, 0x1000_0000 + 192);
}

#[test]
fn cqes_past_the_mapping_fails_setup_and_unwinds() {
    // No completion entries: the completion header ends where the entries begin.
    let actions = run_to_end(1, zero_params(), granted(1, 0, 0, 0), (counts(1), counts(1)));
    let n = actions.len();
    assert_eq!(actions[n - 1], Action::Fail(SetupError::Offset(RingField::Cqes)));
    assert_eq!(actions[n - 2], Action::UnmapRegion(Region { base: 0x7010_0000, len: 324 }));
    assert_eq!(actions[n - 3], Action::UnmapRegion(Region { base: 0x7020_0000, len: 320 }));
    assert_eq!(actions[n - 4], Action::UnmapRegion(Region { base: 0x7030_0000, len: 64 }));
}

#[test]
fn head_past_the_mapping_is_an_offset_error() {
    let p = granted(2, 4, 0, 0);
    let region = Region { base: 0x4000, len: 2 };
    assert_eq!(resolve_send_queue(&p, region, region), Err(RingField::Head));
    let mut q = p;
    q.sq_off.array = 1000;
    let ring = Region { base: 0x4000, len: 1004 };
    assert_eq!(resolve_send_queue(&q, ring, region), Err(RingField::Array));
    let ring = Region { base: 0x4000, len: 1008 };
    let s = resolve_send_queue(&q, ring, region).unwrap();
    assert_eq!(s.array, 0x4000 + 1000);
    assert_eq!(s.flags, 0x4000 + 276);
}

#[test]
fn setup_call_failure_is_reported() {
    let (mut machine, _) = RingSetup::start(1, zero_params());
    let ev = Event::SetupFailed(12);
    assert!(machine.accepts(&ev));
    assert_eq!(machine.on_event(ev), Action::Fail(SetupError::Syscall(12)));
    assert_eq!(machine.phase(), Phase::Failed);
}

#[test]
fn mapping_failure_unwinds_in_reverse() {
    let (mut machine, _) = RingSetup::start(1, zero_params());
    let a = machine.on_event(Event::Negotiated(granted(1, 2, 0, 0)));
    let req = match a {
        Action::MapRegion(r) => r,
        other => panic!("unexpected {:?}", other),
    };
    let first = region_for(&req, 0x5000_0000);
    let b = machine.on_event(Event::Mapped(first));
    assert!(matches!(b, Action::MapRegion(MapRequest { target: MapTarget::CompletionRing, .. })));
    let c = machine.on_event(Event::MapFailed("Cannot allocate memory".to_string()));
    assert_eq!(c, Action::UnmapRegion(first));
    assert_eq!(machine.phase(), Phase::Unwinding);
    let d = machine.on_event(Event::Unmapped);
    assert_eq!(d, Action::Fail(SetupError::OsResource("Cannot allocate memory".to_string())));
}

#[test]
fn first_mapping_failure_fails_at_once() {
    let (mut machine, _) = RingSetup::start(1, zero_params());
    machine.on_event(Event::Negotiated(granted(1, 2, 0, 0)));
    let r = machine.on_event(Event::MapFailed("Invalid argument".to_string()));
    assert_eq!(r, Action::Fail(SetupError::OsResource("Invalid argument".to_string())));
}

#[test]
fn wrong_length_mapping_is_not_accepted() {
    let (mut machine, _) = RingSetup::start(1, zero_params());
    machine.on_event(Event::Negotiated(granted(1, 2, 0, 0)));
    assert!(!machine.accepts(&Event::Mapped(Region { base: 0x1000, len: 1 })));
    assert!(!machine.accepts(&Event::Mapped(Region { base: u64::MAX, len: 356 })));
    assert!(!machine.accepts(&Event::Unmapped));
}

#[test]
fn error_descriptions() {
    assert_eq!(IoUringError::InvalidArgument.description(), "Invalid Argument");
    assert_eq!(IoUringError::UnknownFlags.description(), "Unknown Flags");
}
