//! The setup sequence as a state machine. The caller performs each action
//! (the setup call, a mapping, an unmapping, reading two counters) and hands
//! back what happened; the machine decides the next step. Setup is
//! all-or-nothing: a failure unmaps whatever was mapped, newest first, before
//! the error is reported.
use vstd::prelude::*;
use crate::flags::{
    only_known_setup_flags, refused_combination, validate_setup_flags, IoUringError, OFF_CQ_RING,
    OFF_SQES, OFF_SQ_RING,
};
use crate::geometry::{
    completion_bytes, compute_sizes, cqe_size, single_mapping, sqe_array_bytes, submission_bytes,
};
use crate::params::IoUringParams;
use crate::queues::{
    complete_queue_at, cq_bad_field, resolve_complete_queue, resolve_send_queue, send_queue_at,
    sq_bad_field, IoUringCompleteQueue, IoUringQueueOwnership, IoUringSendQueue, Region, RingField,
};
use crate::flags::{contains_flag, FEAT_SINGLE_MMAP};

verus! {

/// Why setup failed.
#[derive(Debug, Clone, PartialEq, Eq)]
pub enum SetupError {
    /// The requested flags were refused before any call into the kernel.
    Config(IoUringError),
    /// The kernel refused the setup call, with this error number.
    Syscall(i32),
    /// A mapping could not be established; the platform's message.
    OsResource(String),
    /// A reported offset places this field outside its mapping.
    Offset(RingField),
    /// A ring's mask and entry count disagree with each other or with the
    /// negotiated count.
    InconsistentCounts,
}

/// Which region a mapping request is for.
#[derive(Debug, Clone, Copy, PartialEq, Eq)]
pub enum MapTarget {
    SubmissionRing,
    CompletionRing,
    SubmissionEntries,
}

/// One mapping of the ring descriptor: at `offset`, `len` bytes.
#[derive(Debug, Clone, Copy, PartialEq, Eq)]
pub struct MapRequest {
    pub target: MapTarget,
    pub offset: u64,
    pub len: u64,
}

/// The mappings to make, in order: the submission header, the completion
/// header unless the headers share one mapping, and the submission entries.
pub open spec fn mapping_plan_spec(p: IoUringParams) -> Seq<MapRequest> {
    let sq = MapRequest { target: MapTarget::SubmissionRing, offset: OFF_SQ_RING, len: submission_bytes(p) as u64 };
    let cq = MapRequest { target: MapTarget::CompletionRing, offset: OFF_CQ_RING, len: completion_bytes(p) as u64 };
    let sqes = MapRequest { target: MapTarget::SubmissionEntries, offset: OFF_SQES, len: sqe_array_bytes(p) as u64 };
    if single_mapping(p) {
        seq![sq, sqes]
    } else {
        seq![sq, cq, sqes]
    }
}

pub fn mapping_plan(params: &IoUringParams) -> (r: Vec<MapRequest>)
    ensures
        r@ == mapping_plan_spec(*params),
{
    let sizes = compute_sizes(params);
    let mut plan: Vec<MapRequest> = Vec::new();
    plan.push(MapRequest { target: MapTarget::SubmissionRing, offset: OFF_SQ_RING, len: sizes.submission_bytes });
    if !contains_flag(params.features, FEAT_SINGLE_MMAP) {
        plan.push(MapRequest { target: MapTarget::CompletionRing, offset: OFF_CQ_RING, len: sizes.completion_bytes });
    }
    plan.push(MapRequest { target: MapTarget::SubmissionEntries, offset: OFF_SQES, len: sizes.sqe_array_bytes });
    assert(plan@ =~= mapping_plan_spec(*params));
    plan
}

/// A ring's mask and entry count, as read from its header.
#[derive(Debug, Clone, Copy, PartialEq, Eq)]
pub struct RingCounts {
    pub mask: u32,
    pub entries: u32,
}

impl RingCounts {
    /// The mask is one less than the entry count, and the two share no bit:
    /// the entry count is a power of two.
    pub open spec fn consistent(self) -> bool {
        self.mask + 1 == self.entries && self.entries & self.mask == 0
    }

    pub fn is_consistent(&self) -> (r: bool)
        ensures
            r == self.consistent(),
    {
        self.mask as u64 + 1 == self.entries as u64 && self.entries & self.mask == 0
    }
}

/// A ring pair ready for use: resolved addresses, verified counts, and the
/// parameters the kernel granted.
#[derive(Debug, Clone, Copy, PartialEq, Eq)]
pub struct RingLayout {
    pub send_queue: IoUringSendQueue,
    pub complete_queue: IoUringCompleteQueue,
    pub sq_counts: RingCounts,
    pub cq_counts: RingCounts,
    pub params: IoUringParams,
}

impl RingLayout {
    pub open spec fn wf(self) -> bool {
        let p = self.params;
        &&& self.sq_counts.consistent()
        &&& self.sq_counts.entries == p.sq_entries
        &&& self.cq_counts.consistent()
        &&& self.cq_counts.entries == p.cq_entries
        &&& self.send_queue.ring.wf()
        &&& self.complete_queue.ring.region_spec().wf()
        &&& self.send_queue == send_queue_at(p, self.send_queue.ring, self.send_queue.sqes)
        &&& self.complete_queue == complete_queue_at(p, self.complete_queue.ring)
        &&& sq_bad_field(p.sq_off, p.sq_entries, self.send_queue.ring.len) is None
        &&& cq_bad_field(p.cq_off, p.cq_entries, cqe_size(p.flags), self.complete_queue.ring.region_spec().len) is None
        &&& single_mapping(p) ==> self.complete_queue.ring == IoUringQueueOwnership::Refers(self.send_queue.ring)
        &&& !single_mapping(p) ==> self.complete_queue.ring is Owns
    }

    /// The mappings this layout owns, in the order they were made.
    pub open spec fn owned_regions(self) -> Seq<Region> {
        match self.complete_queue.ring {
            IoUringQueueOwnership::Owns(c) => seq![self.send_queue.ring, c, self.send_queue.sqes],
            IoUringQueueOwnership::Refers(_) => seq![self.send_queue.ring, self.send_queue.sqes],
        }
    }

    /// The mappings to release, each once: the entry array first, the
    /// header that owns the shared view last. The descriptor is closed after.
    pub fn release_order(&self) -> (r: Vec<Region>)
        ensures
            r@ == self.owned_regions().reverse(),
    {
        let mut out: Vec<Region> = Vec::new();
        out.push(self.send_queue.sqes);
        match self.complete_queue.ring {
            IoUringQueueOwnership::Owns(c) => out.push(c),
            IoUringQueueOwnership::Refers(_) => {},
        }
        out.push(self.send_queue.ring);
        assert(out@ =~= self.owned_regions().reverse());
        out
    }
}

/// Where the machine stands.
#[derive(Debug, Clone, Copy, PartialEq, Eq)]
pub enum Phase {
    Negotiating,
    Mapping,
    Verifying,
    Unwinding,
    Ready,
    Failed,
}

/// What the caller is to do next.
#[derive(Debug, Clone, PartialEq, Eq)]
pub enum Action {
    /// Make the setup call with these values.
    Setup { entries: u32, params: IoUringParams },
    /// Make this mapping of the ring descriptor.
    MapRegion(MapRequest),
    /// Read the mask and entry count of both rings at these addresses.
    ReadCounts { send_queue: IoUringSendQueue, complete_queue: IoUringCompleteQueue },
    /// Release this mapping.
    UnmapRegion(Region),
    /// Setup is done; the caller now owns the layout's mappings.
    Ready(RingLayout),
    /// Setup failed; nothing is left mapped. The descriptor, if any, is closed.
    Fail(SetupError),
}

/// What happened to the last action.
#[derive(Debug, Clone, PartialEq, Eq)]
pub enum Event {
    Negotiated(IoUringParams),
    SetupFailed(i32),
    Mapped(Region),
    MapFailed(String),
    Counts { sq: RingCounts, cq: RingCounts },
    Unmapped,
}

/// The state of a setup sequence, as contracts see it.
pub struct SetupView {
    pub phase: Phase,
    pub params: IoUringParams,
    pub plan: Seq<MapRequest>,
    pub acquired: Seq<Region>,
    pub queues: Option<(IoUringSendQueue, IoUringCompleteQueue)>,
    pub error: Option<SetupError>,
}

/// How the completion header is reached once all mappings are made.
pub open spec fn cq_ownership(p: IoUringParams, acquired: Seq<Region>) -> IoUringQueueOwnership {
    if single_mapping(p) {
        IoUringQueueOwnership::Refers(acquired[0])
    } else {
        IoUringQueueOwnership::Owns(acquired[1])
    }
}

/// Both rings resolved against the regions mapped for them.
pub open spec fn resolved_queues(p: IoUringParams, acquired: Seq<Region>) -> (IoUringSendQueue, IoUringCompleteQueue) {
    (send_queue_at(p, acquired[0], acquired.last()), complete_queue_at(p, cq_ownership(p, acquired)))
}

/// The first offset that escapes its mapping, once all mappings are made.
pub open spec fn offset_failure(p: IoUringParams, acquired: Seq<Region>) -> Option<RingField> {
    match sq_bad_field(p.sq_off, p.sq_entries, acquired[0].len) {
        Some(f) => Some(f),
        None => cq_bad_field(p.cq_off, p.cq_entries, cqe_size(p.flags), cq_ownership(p, acquired).region_spec().len),
    }
}

impl SetupView {
    /// The regions mapped so far follow the plan, one for each of its first requests.
    pub open spec fn acquired_follow_plan(self) -> bool {
        &&& self.acquired.len() <= self.plan.len()
        &&& forall|i: int| 0 <= i < self.acquired.len() ==> (#[trigger] self.acquired[i]).wf()
            && self.acquired[i].len == self.plan[i].len
    }

    pub open spec fn wf(self) -> bool {
        &&& self.acquired_follow_plan()
        &&& match self.phase {
            Phase::Negotiating => self.acquired.len() == 0,
            Phase::Mapping => self.plan == mapping_plan_spec(self.params) && self.acquired.len() < self.plan.len(),
            Phase::Verifying => {
                &&& self.plan == mapping_plan_spec(self.params)
                &&& self.acquired.len() == self.plan.len()
                &&& offset_failure(self.params, self.acquired) is None
                &&& self.queues == Some(resolved_queues(self.params, self.acquired))
            },
            Phase::Unwinding => self.error is Some,
            Phase::Ready => true,
            Phase::Failed => self.acquired.len() == 0,
        }
    }

    /// The event answers the action this state asked for.
    pub open spec fn accepts(self, ev: Event) -> bool {
        match ev {
            Event::Negotiated(_) => self.phase == Phase::Negotiating,
            Event::SetupFailed(_) => self.phase == Phase::Negotiating,
            Event::Mapped(g) => {
                &&& self.phase == Phase::Mapping
                &&& g.wf()
                &&& self.acquired.len() < self.plan.len()
                &&& g.len == self.plan[self.acquired.len() as int].len
            },
            Event::MapFailed(_) => self.phase == Phase::Mapping,
            Event::Counts { .. } => self.phase == Phase::Verifying,
            Event::Unmapped => self.phase == Phase::Unwinding,
        }
    }
}

/// The setup sequence of one ring pair.
pub struct RingSetup {
    phase: Phase,
    params: IoUringParams,
    plan: Vec<MapRequest>,
    acquired: Vec<Region>,
    queues: Option<(IoUringSendQueue, IoUringCompleteQueue)>,
    error: Option<SetupError>,
}

impl View for RingSetup {
    type V = SetupView;

    closed spec fn view(&self) -> SetupView {
        SetupView {
            phase: self.phase,
            params: self.params,
            plan: self.plan@,
            acquired: self.acquired@,
            queues: self.queues,
            error: self.error,
        }
    }
}

impl RingSetup {
    /// Checks the requested flags and, if they pass, asks for the setup call.
    /// A refused configuration fails at once, before any call.
    pub fn start(entries: u32, params: IoUringParams) -> (r: (RingSetup, Action))
        ensures
            r.0@.wf(),
            !only_known_setup_flags(params.flags) ==> r.1 == Action::Fail(SetupError::Config(IoUringError::UnknownFlags))
                && r.0@.phase == Phase::Failed,
            only_known_setup_flags(params.flags) && refused_combination(params.flags) ==> r.1 == Action::Fail(
                SetupError::Config(IoUringError::InvalidArgument),
            ) && r.0@.phase == Phase::Failed,
            only_known_setup_flags(params.flags) && !refused_combination(params.flags) ==> r.1 == (Action::Setup {
                entries,
                params,
            }) && r.0@.phase == Phase::Negotiating && r.0@.params == params,
    {
        let (phase, action) = match validate_setup_flags(params.flags) {
            Ok(_) => (Phase::Negotiating, Action::Setup { entries, params }),
            Err(e) => (Phase::Failed, Action::Fail(SetupError::Config(e))),
        };
        let machine = RingSetup {
            phase,
            params,
            plan: Vec::new(),
            acquired: Vec::new(),
            queues: None,
            error: None,
        };
        (machine, action)
    }

    pub fn phase(&self) -> (r: Phase)
        ensures
            r == self@.phase,
    {
        self.phase
    }

    /// Whether `ev` answers the action this machine asked for.
    pub fn accepts(&self, ev: &Event) -> (r: bool)
        ensures
            r == self@.accepts(*ev),
    {
        match ev {
            Event::Negotiated(_) => matches!(self.phase, Phase::Negotiating),
            Event::SetupFailed(_) => matches!(self.phase, Phase::Negotiating),
            Event::Mapped(g) => {
                matches!(self.phase, Phase::Mapping) && g.is_wf() && self.acquired.len() < self.plan.len()
                    && g.len == self.plan[self.acquired.len()].len
            },
            Event::MapFailed(_) => matches!(self.phase, Phase::Mapping),
            Event::Counts { .. } => matches!(self.phase, Phase::Verifying),
            Event::Unmapped => matches!(self.phase, Phase::Unwinding),
        }
    }

    /// Records the error and releases the newest mapping, or fails if none is left.
    fn unwind(&mut self, e: SetupError) -> (r: Action)
        requires
            old(self)@.acquired_follow_plan(),
            old(self).phase is Mapping || old(self).phase is Verifying,
        ensures
            final(self)@.wf(),
            final(self).params == old(self).params,
            final(self).plan@ == old(self).plan@,
            old(self).acquired@.len() == 0 ==> r == Action::Fail(e) && final(self).phase == Phase::Failed
                && final(self).acquired@.len() == 0,
            old(self).acquired@.len() > 0 ==> {
                &&& r == Action::UnmapRegion(old(self).acquired@.last())
                &&& final(self).acquired@ == old(self).acquired@.drop_last()
                &&& final(self).phase == Phase::Unwinding
                &&& final(self).error == Some(e)
            },
    {
        match self.acquired.pop() {
            Some(g) => {
                self.error = Some(e);
                self.phase = Phase::Unwinding;
                Action::UnmapRegion(g)
            },
            None => {
                self.phase = Phase::Failed;
                Action::Fail(e)
            },
        }
    }

    /// All mappings are made: resolves both rings, or unwinds on a bad offset.
    fn resolve_all(&mut self) -> (r: Action)
        requires
            old(self)@.acquired_follow_plan(),
            old(self).phase == Phase::Mapping,
            old(self).acquired@.len() == old(self).plan@.len(),
            old(self).plan@ == mapping_plan_spec(old(self).params),
        ensures
            final(self)@.wf(),
            final(self).params == old(self).params,
            match offset_failure(old(self).params, old(self).acquired@) {
                None => {
                    let q = resolved_queues(old(self).params, old(self).acquired@);
                    &&& final(self).acquired@ == old(self).acquired@
                    &&& final(self).phase == Phase::Verifying
                    &&& r == (Action::ReadCounts { send_queue: q.0, complete_queue: q.1 })
                },
                Some(f) => {
                    &&& final(self).acquired@ == old(self).acquired@.drop_last()
                    &&& final(self).phase == Phase::Unwinding
                    &&& final(self).error == Some(SetupError::Offset(f))
                    &&& r == Action::UnmapRegion(old(self).acquired@.last())
                },
            },
    {
        let n = self.acquired.len();
        let sq_ring = self.acquired[0];
        let sqes = self.acquired[n - 1];
        let cq_ring = if contains_flag(self.params.features, FEAT_SINGLE_MMAP) {
            IoUringQueueOwnership::Refers(sq_ring)
        } else {
            IoUringQueueOwnership::Owns(self.acquired[1])
        };
        assert(cq_ring == cq_ownership(self.params, self.acquired@));
        match resolve_send_queue(&self.params, sq_ring, sqes) {
            Err(f) => self.unwind(SetupError::Offset(f)),
            Ok(s) => match resolve_complete_queue(&self.params, cq_ring) {
                Err(f) => self.unwind(SetupError::Offset(f)),
                Ok(c) => {
                    self.queues = Some((s, c));
                    self.phase = Phase::Verifying;
                    Action::ReadCounts { send_queue: s, complete_queue: c }
                },
            },
        }
    }

    /// Takes the outcome of the last action and returns the next one.
    pub fn on_event(&mut self, ev: Event) -> (r: Action)
        requires
            old(self)@.wf(),
            old(self)@.accepts(ev),
        ensures
            final(self)@.wf(),
            !(r is Setup),
            r matches Action::MapRegion(q) ==> final(self)@.phase == Phase::Mapping
                && q == final(self)@.plan[final(self)@.acquired.len() as int],
            r is ReadCounts ==> final(self)@.phase == Phase::Verifying,
            r is UnmapRegion ==> final(self)@.phase == Phase::Unwinding,
            r matches Action::Ready(layout) ==> {
                &&& final(self)@.phase == Phase::Ready
                &&& layout.wf()
                &&& layout.params == final(self)@.params
                &&& layout.owned_regions() == final(self)@.acquired
            },
            r is Fail ==> final(self)@.phase == Phase::Failed && final(self)@.acquired.len() == 0,
            match ev {
                Event::Negotiated(p) => {
                    &&& final(self)@.params == p
                    &&& final(self)@.plan == mapping_plan_spec(p)
                    &&& r == Action::MapRegion(mapping_plan_spec(p)[0])
                },
                Event::SetupFailed(e) => r == Action::Fail(SetupError::Syscall(e)),
                Event::Mapped(g) => {
                    let old_v = old(self)@;
                    let all = old_v.acquired.push(g);
                    if all.len() < old_v.plan.len() {
                        final(self)@.acquired == all && r == Action::MapRegion(old_v.plan[all.len() as int])
                    } else {
                        match offset_failure(old_v.params, all) {
                            None => {
                                let q = resolved_queues(old_v.params, all);
                                &&& final(self)@.acquired == all
                                &&& r == (Action::ReadCounts { send_queue: q.0, complete_queue: q.1 })
                            },
                            Some(f) => {
                                &&& final(self)@.acquired == old_v.acquired
                                &&& final(self)@.error == Some(SetupError::Offset(f))
                                &&& r == Action::UnmapRegion(g)
                            },
                        }
                    }
                },
                Event::MapFailed(msg) => if old(self)@.acquired.len() == 0 {
                    r == Action::Fail(SetupError::OsResource(msg))
                } else {
                    &&& r == Action::UnmapRegion(old(self)@.acquired.last())
                    &&& final(self)@.error == Some(SetupError::OsResource(msg))
                },
                Event::Counts { sq, cq } => {
                    let old_v = old(self)@;
                    let p = old_v.params;
                    if sq.consistent() && sq.entries == p.sq_entries && cq.consistent() && cq.entries == p.cq_entries {
                        let q = resolved_queues(p, old_v.acquired);
                        r == Action::Ready(RingLayout { send_queue: q.0, complete_queue: q.1, sq_counts: sq, cq_counts: cq, params: p })
                    } else {
                        &&& r == Action::UnmapRegion(old_v.acquired.last())
                        &&& final(self)@.error == Some(SetupError::InconsistentCounts)
                    }
                },
                Event::Unmapped => if old(self)@.acquired.len() == 0 {
                    match old(self)@.error {
                        Some(e) => r == Action::Fail(e),
                        None => false,
                    }
                } else {
                    r == Action::UnmapRegion(old(self)@.acquired.last())
                },
            },
    {
        match ev {
            Event::Negotiated(p) => {
                self.params = p;
                self.plan = mapping_plan(&p);
                self.phase = Phase::Mapping;
                Action::MapRegion(self.plan[0])
            },
            Event::SetupFailed(e) => {
                self.phase = Phase::Failed;
                Action::Fail(SetupError::Syscall(e))
            },
            Event::Mapped(g) => {
                self.acquired.push(g);
                if self.acquired.len() < self.plan.len() {
                    Action::MapRegion(self.plan[self.acquired.len()])
                } else {
                    self.resolve_all()
                }
            },
            Event::MapFailed(msg) => self.unwind(SetupError::OsResource(msg)),
            Event::Counts { sq, cq } => {
                if sq.is_consistent() && sq.entries == self.params.sq_entries && cq.is_consistent()
                    && cq.entries == self.params.cq_entries {
                    match self.queues {
                        Some((s, c)) => {
                            let layout = RingLayout { send_queue: s, complete_queue: c, sq_counts: sq, cq_counts: cq, params: self.params };
                            proof {
                                let a = self.acquired@;
                                assert(a[0].wf());
                                assert(a[1].wf());
                                assert(layout.owned_regions() =~= a);
                            }
                            self.phase = Phase::Ready;
                            Action::Ready(layout)
                        },
                        None => self.unwind(SetupError::InconsistentCounts),
                    }
                } else {
                    self.unwind(SetupError::InconsistentCounts)
                }
            },
            Event::Unmapped => match self.acquired.pop() {
                Some(g) => Action::UnmapRegion(g),
                None => {
                    self.phase = Phase::Failed;
                    match self.error.take() {
                        Some(e) => Action::Fail(e),
                        None => Action::Fail(SetupError::InconsistentCounts),
                    }
                },
            },
        }
    }
}

/// Every ring handed out by a completed setup has a mask one less than its
/// entry count, on both sides, whatever features the kernel reported.
pub proof fn lemma_ready_mask_matches_entries(layout: RingLayout)
    requires
        layout.wf(),
    ensures
        layout.sq_counts.mask + 1 == layout.sq_counts.entries,
        layout.cq_counts.mask + 1 == layout.cq_counts.entries,
        layout.sq_counts.entries == layout.params.sq_entries,
        layout.cq_counts.entries == layout.params.cq_entries,
{
}

/// A setup that has failed, a refused configuration included, asks for
/// nothing more: no call, no mapping.
pub proof fn lemma_failed_setup_is_final(v: SetupView, ev: Event)
    requires
        v.phase == Phase::Failed,
    ensures
        !v.accepts(ev),
{
}

/// Under the single mapping feature one header mapping is made, and the
/// completion ring is resolved against the submission ring's base without
/// owning it.
pub proof fn lemma_single_mapping_shares_header(layout: RingLayout)
    requires
        layout.wf(),
        single_mapping(layout.params),
    ensures
        mapping_plan_spec(layout.params).len() == 2,
        mapping_plan_spec(layout.params)[0].target == MapTarget::SubmissionRing,
        mapping_plan_spec(layout.params)[1].target == MapTarget::SubmissionEntries,
        layout.complete_queue.ring == IoUringQueueOwnership::Refers(layout.send_queue.ring),
        layout.complete_queue.head == layout.send_queue.ring.base + layout.params.cq_off.head,
        layout.complete_queue.tail == layout.send_queue.ring.base + layout.params.cq_off.tail,
        layout.complete_queue.cqes == layout.send_queue.ring.base + layout.params.cq_off.cqes,
        layout.owned_regions() == seq![layout.send_queue.ring, layout.send_queue.sqes],
{
    let r = layout.send_queue.ring;
    let off = layout.params.cq_off;
    assert(off.head + 4 <= r.len);
    assert(off.tail + 4 <= r.len);
    assert(off.cqes <= r.len);
}

/// Without the single mapping feature two header mappings and one entry
/// mapping are made, and releasing the layout unmaps each of the three once,
/// entries first.
pub proof fn lemma_separate_mappings_released_once(layout: RingLayout)
    requires
        layout.wf(),
        !single_mapping(layout.params),
    ensures
        mapping_plan_spec(layout.params).len() == 3,
        mapping_plan_spec(layout.params)[0].target == MapTarget::SubmissionRing,
        mapping_plan_spec(layout.params)[1].target == MapTarget::CompletionRing,
        mapping_plan_spec(layout.params)[2].target == MapTarget::SubmissionEntries,
        layout.owned_regions() == seq![
            layout.send_queue.ring,
            layout.complete_queue.ring.region_spec(),
            layout.send_queue.sqes,
        ],
        layout.owned_regions().reverse() == seq![
            layout.send_queue.sqes,
            layout.complete_queue.ring.region_spec(),
            layout.send_queue.ring,
        ],
{
    let o = layout.owned_regions();
    assert(o.reverse() =~= seq![o[2], o[1], o[0]]);
}

} // verus!
