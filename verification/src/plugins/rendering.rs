//! The frame: three stages in a fixed order, the queue that collects finished
//! command buffers for one ordered submission, and the resize records that
//! are applied before anything is drawn.

use vstd::prelude::*;
use crate::application::ResizeEvent;
use crate::plugins::events::CommandAggregator;
use crate::plugins::events::ResizeInbox;

verus! {

/// A phase of a frame. The stages run in the order in which they are listed,
/// and a stage ends before the next one begins.
#[derive(Clone, Copy, PartialEq, Eq, Structural, Debug, Hash)]
pub enum RenderStage {
    /// Resize records are applied, then the frame's surfaces are acquired.
    Prepare,
    /// Command buffers are recorded and handed to the aggregator.
    Render,
    /// The aggregator is drained and submitted, then the surfaces are
    /// presented.
    Flush,
}

impl RenderStage {
    /// Position of the stage in a frame.
    pub open spec fn rank(self) -> nat {
        match self {
            RenderStage::Prepare => 0,
            RenderStage::Render => 1,
            RenderStage::Flush => 2,
        }
    }

    /// Position of the stage in a frame.
    pub fn index(&self) -> (index: u8)
        ensures
            index == self.rank(),
    {
        match self {
            RenderStage::Prepare => 0,
            RenderStage::Render => 1,
            RenderStage::Flush => 2,
        }
    }

    /// The stage that follows, `None` after the last one.
    pub fn next(&self) -> (next: Option<RenderStage>)
        ensures
            match next {
                Some(stage) => stage.rank() == self.rank() + 1,
                None => *self == RenderStage::Flush,
            },
    {
        match self {
            RenderStage::Prepare => Some(RenderStage::Render),
            RenderStage::Render => Some(RenderStage::Flush),
            RenderStage::Flush => None,
        }
    }
}

/// Where a frame stands. A frame starts and ends in `Idle`.
#[derive(Clone, Copy, PartialEq, Eq, Structural, Debug)]
pub enum FramePhase {
    Idle,
    Preparing,
    Rendering,
    Flushing,
}

impl FramePhase {
    /// The phase that comes after this one: the stages in their order, then
    /// `Idle` again.
    pub open spec fn successor(self) -> FramePhase {
        match self {
            FramePhase::Idle => FramePhase::Preparing,
            FramePhase::Preparing => FramePhase::Rendering,
            FramePhase::Rendering => FramePhase::Flushing,
            FramePhase::Flushing => FramePhase::Idle,
        }
    }

    /// The stage that runs in this phase, `None` between frames.
    pub open spec fn running(self) -> Option<RenderStage> {
        match self {
            FramePhase::Idle => None,
            FramePhase::Preparing => Some(RenderStage::Prepare),
            FramePhase::Rendering => Some(RenderStage::Render),
            FramePhase::Flushing => Some(RenderStage::Flush),
        }
    }

    /// The phase in which `stage` runs.
    pub open spec fn of(stage: RenderStage) -> FramePhase {
        match stage {
            RenderStage::Prepare => FramePhase::Preparing,
            RenderStage::Render => FramePhase::Rendering,
            RenderStage::Flush => FramePhase::Flushing,
        }
    }

    /// The phase in which `stage` runs.
    pub fn for_stage(stage: RenderStage) -> (phase: FramePhase)
        ensures
            phase == FramePhase::of(stage),
            phase.running() == Some(stage),
    {
        match stage {
            RenderStage::Prepare => FramePhase::Preparing,
            RenderStage::Render => FramePhase::Rendering,
            RenderStage::Flush => FramePhase::Flushing,
        }
    }

    /// The phase that comes after this one.
    pub fn advance(&self) -> (next: FramePhase)
        ensures
            next == self.successor(),
    {
        match self {
            FramePhase::Idle => FramePhase::Preparing,
            FramePhase::Preparing => FramePhase::Rendering,
            FramePhase::Rendering => FramePhase::Flushing,
            FramePhase::Flushing => FramePhase::Idle,
        }
    }

    /// The stage that runs in this phase, `None` between frames.
    pub fn stage(&self) -> (stage: Option<RenderStage>)
        ensures
            stage == self.running(),
    {
        match self {
            FramePhase::Idle => None,
            FramePhase::Preparing => Some(RenderStage::Prepare),
            FramePhase::Rendering => Some(RenderStage::Render),
            FramePhase::Flushing => Some(RenderStage::Flush),
        }
    }
}

/// A frame that leaves `Idle` passes through the three stages in their order
/// and is back in `Idle` after the fourth step.
pub proof fn lemma_frame_cycle()
    ensures
        FramePhase::Idle.successor().running() == Some(RenderStage::Prepare),
        FramePhase::Idle.successor().successor().running() == Some(RenderStage::Render),
        FramePhase::Idle.successor().successor().successor().running() == Some(RenderStage::Flush),
        FramePhase::Idle.successor().successor().successor().successor() == FramePhase::Idle,
{
}

/// Names a system. The systems themselves are kept by whoever runs the frame.
pub type SystemId = u32;

/// Applies the pending resize records to the surface configuration and to
/// the cameras.
pub const RECONFIGURE_DEVICE_ON_RESIZE_SYSTEM: SystemId = 0;

/// Acquires the surface that each camera draws into in this frame.
pub const PREPARE_RENDER_SYSTEM: SystemId = 1;

/// Submits the finished command buffers and presents the surfaces.
pub const FLUSH_RENDER_SYSTEM: SystemId = 2;

/// A unit of work bound to a stage.
#[derive(Clone, Copy, PartialEq, Eq, Structural, Debug)]
pub struct SystemEntry {
    pub system: SystemId,
    pub stage: RenderStage,
    /// Whether the system continues a chain: it must then run after the entry
    /// registered just before it. A system that starts a chain, or stands
    /// alone, is not ordered against the others of its stage.
    pub chained: bool,
}

/// The entries of `entries` that belong to `stage`, in their order.
pub open spec fn of_stage(entries: Seq<SystemEntry>, stage: RenderStage) -> Seq<SystemEntry> {
    entries.filter(|entry: SystemEntry| entry.stage == stage)
}

/// The order in which the systems of a frame run: stage by stage, and within
/// a stage in the order of registration.
pub open spec fn frame_order(entries: Seq<SystemEntry>) -> Seq<SystemEntry> {
    of_stage(entries, RenderStage::Prepare) + of_stage(entries, RenderStage::Render) + of_stage(
        entries,
        RenderStage::Flush,
    )
}

/// The entries of a chain of `systems` in `stage`: all but the first are
/// chained to the one before.
pub open spec fn chain_entries(systems: Seq<SystemId>, stage: RenderStage) -> Seq<SystemEntry> {
    Seq::new(
        systems.len(),
        |i: int| SystemEntry { system: systems[i], stage, chained: i > 0 },
    )
}

/// The systems of a frame, each bound to its stage.
pub struct RenderSchedule {
    entries: Vec<SystemEntry>,
}

impl View for RenderSchedule {
    type V = Seq<SystemEntry>;

    closed spec fn view(&self) -> Seq<SystemEntry> {
        self.entries@
    }
}

/// Appends to `out` the entries of `entries` that belong to `stage`.
fn append_stage(entries: &Vec<SystemEntry>, stage: RenderStage, out: &mut Vec<SystemEntry>)
    ensures
        final(out)@ == old(out)@ + of_stage(entries@, stage),
{
    let ghost before = out@;
    let mut i: usize = 0;
    proof {
        reveal(Seq::filter);
        assert(entries@.take(0) =~= Seq::<SystemEntry>::empty());
        assert(out@ =~= before + of_stage(entries@.take(0), stage));
    }
    while i < entries.len()
        invariant
            i <= entries.len(),
            out@ == before + of_stage(entries@.take(i as int), stage),
        decreases entries.len() - i,
    {
        let entry = entries[i];
        proof {
            let seen = entries@.take(i as int);
            assert(entries@.take(i + 1) =~= seen.push(entry));
            seen.lemma_filter_push(entry, |entry: SystemEntry| entry.stage == stage);
        }
        if entry.stage == stage {
            out.push(entry);
        }
        i = i + 1;
        assert(out@ =~= before + of_stage(entries@.take(i as int), stage));
    }
    assert(entries@.take(i as int) =~= entries@);
}

impl RenderSchedule {
    /// A schedule without systems.
    pub fn new() -> (schedule: Self)
        ensures
            schedule@ == Seq::<SystemEntry>::empty(),
    {
        RenderSchedule { entries: Vec::new() }
    }

    /// Registers a system that stands alone in `stage`.
    pub fn add_system(&mut self, system: SystemId, stage: RenderStage)
        ensures
            final(self)@ == old(self)@.push(SystemEntry { system, stage, chained: false }),
    {
        self.entries.push(SystemEntry { system, stage, chained: false });
    }

    /// Registers a chain in `stage`: the systems run one after the other, in
    /// the order given.
    pub fn add_chain(&mut self, systems: &Vec<SystemId>, stage: RenderStage)
        ensures
            final(self)@ == old(self)@ + chain_entries(systems@, stage),
    {
        let mut i: usize = 0;
        assert(self@ =~= old(self)@ + chain_entries(systems@, stage).take(0));
        while i < systems.len()
            invariant
                i <= systems.len(),
                self@ == old(self)@ + chain_entries(systems@, stage).take(i as int),
            decreases systems.len() - i,
        {
            self.entries.push(SystemEntry { system: systems[i], stage, chained: i > 0 });
            i = i + 1;
            assert(self@ =~= old(self)@ + chain_entries(systems@, stage).take(i as int));
        }
        assert(chain_entries(systems@, stage).take(i as int) =~= chain_entries(systems@, stage));
    }

    /// The number of systems registered.
    pub fn len(&self) -> (len: usize)
        ensures
            len == self@.len(),
    {
        self.entries.len()
    }

    /// The order in which the systems of a frame run.
    pub fn order(&self) -> (order: Vec<SystemEntry>)
        ensures
            order@ == frame_order(self@),
    {
        let mut order: Vec<SystemEntry> = Vec::new();
        append_stage(&self.entries, RenderStage::Prepare, &mut order);
        append_stage(&self.entries, RenderStage::Render, &mut order);
        append_stage(&self.entries, RenderStage::Flush, &mut order);
        assert(order@ =~= frame_order(self@));
        order
    }
}

/// How far a frame has come.
pub struct FrameProgress {
    /// The systems of the frame in the order in which they run.
    pub order: Seq<SystemEntry>,
    /// How many of them were handed out to be run.
    pub next: nat,
    /// Where the frame stands.
    pub phase: FramePhase,
}

impl FrameProgress {
    /// The progress once the next system was asked for: if one is left, it
    /// is handed out and the frame is in the phase of its stage; if none is
    /// left, the frame is over.
    pub open spec fn step(self) -> FrameProgress {
        if self.next < self.order.len() {
            FrameProgress {
                next: self.next + 1,
                phase: FramePhase::of(self.order[self.next as int].stage),
                ..self
            }
        } else {
            FrameProgress { phase: FramePhase::Idle, ..self }
        }
    }
}

/// One pass through the systems of a frame. The caller runs each system that
/// it is handed before it asks for the next.
pub struct FrameRun {
    order: Vec<SystemEntry>,
    next: usize,
    phase: FramePhase,
}

impl View for FrameRun {
    type V = FrameProgress;

    closed spec fn view(&self) -> FrameProgress {
        FrameProgress { order: self.order@, next: self.next as nat, phase: self.phase }
    }
}

impl FrameRun {
    #[verifier::type_invariant]
    spec fn within_order(&self) -> bool {
        self.next <= self.order@.len()
    }

    /// A frame of `schedule` of which nothing has run yet.
    pub fn begin(schedule: &RenderSchedule) -> (run: Self)
        ensures
            run@ == (FrameProgress {
                order: frame_order(schedule@),
                next: 0,
                phase: FramePhase::Idle,
            }),
    {
        FrameRun { order: schedule.order(), next: 0, phase: FramePhase::Idle }
    }

    /// Hands out the system that is to run next, `None` when the frame is
    /// over.
    pub fn next_system(&mut self) -> (entry: Option<SystemEntry>)
        ensures
            final(self)@ == old(self)@.step(),
            entry == (if old(self)@.next < old(self)@.order.len() {
                Some(old(self)@.order[old(self)@.next as int])
            } else {
                None
            }),
    {
        proof {
            use_type_invariant(&*self);
        }
        if self.next < self.order.len() {
            let entry = self.order[self.next];
            self.next = self.next + 1;
            self.phase = FramePhase::for_stage(entry.stage);
            Some(entry)
        } else {
            self.phase = FramePhase::Idle;
            None
        }
    }

    /// Where the frame stands.
    pub fn phase(&self) -> (phase: FramePhase)
        ensures
            phase == self@.phase,
    {
        self.phase
    }
}

/// Filtering for a stage what was filtered for a stage: the same again for
/// the same stage, nothing for another.
proof fn lemma_of_stage_twice(entries: Seq<SystemEntry>, first: RenderStage, second: RenderStage)
    ensures
        of_stage(of_stage(entries, first), second) == if first == second {
            of_stage(entries, first)
        } else {
            Seq::<SystemEntry>::empty()
        },
    decreases entries.len(),
{
    reveal(Seq::filter);
    if entries.len() > 0 {
        let rest = entries.drop_last();
        let last = entries.last();
        lemma_of_stage_twice(rest, first, second);
        assert(entries =~= rest.push(last));
        rest.lemma_filter_push(last, |entry: SystemEntry| entry.stage == first);
        of_stage(rest, first).lemma_filter_push(last, |entry: SystemEntry| entry.stage == second);
    }
}

/// The items of two sequences joined are the items of the one and of the
/// other.
proof fn lemma_joined_items(a: Seq<SystemEntry>, b: Seq<SystemEntry>)
    ensures
        (a + b).to_multiset() == a.to_multiset().add(b.to_multiset()),
    decreases b.len(),
{
    broadcast use vstd::seq_lib::group_to_multiset_ensures;

    if b.len() == 0 {
        assert(a + b =~= a);
        assert(a.to_multiset().add(b.to_multiset()) =~= a.to_multiset());
    } else {
        let rest = b.drop_last();
        let last = b.last();
        lemma_joined_items(a, rest);
        assert(b =~= rest.push(last));
        assert(a + b =~= (a + rest).push(last));
        assert((a + b).to_multiset() =~= a.to_multiset().add(b.to_multiset()));
    }
}

/// Two entries of one stage stand in the stage's part in the order in which
/// they were registered.
proof fn lemma_of_stage_keeps_order(entries: Seq<SystemEntry>, stage: RenderStage, i: int, j: int)
    requires
        0 <= i < j < entries.len(),
        entries[i].stage == stage,
        entries[j].stage == stage,
    ensures
        exists|a: int, b: int|
            0 <= a < b < of_stage(entries, stage).len() && of_stage(entries, stage)[a]
                == entries[i] && of_stage(entries, stage)[b] == entries[j],
    decreases entries.len(),
{
    let rest = entries.drop_last();
    let last = entries.last();
    let wanted = |entry: SystemEntry| entry.stage == stage;
    assert(entries =~= rest.push(last));
    rest.lemma_filter_push(last, wanted);
    if j == entries.len() - 1 {
        rest.lemma_filter_contains(wanted, i);
        let a = choose|a: int| 0 <= a < rest.filter(wanted).len() && rest.filter(wanted)[a] == rest[i];
        let b = rest.filter(wanted).len() as int;
        assert(of_stage(entries, stage)[a] == entries[i] && of_stage(entries, stage)[b]
            == entries[j]);
    } else {
        lemma_of_stage_keeps_order(rest, stage, i, j);
        let (a, b) = choose|a: int, b: int|
            0 <= a < b < of_stage(rest, stage).len() && of_stage(rest, stage)[a] == rest[i]
                && of_stage(rest, stage)[b] == rest[j];
        assert(of_stage(entries, stage)[a] == entries[i] && of_stage(entries, stage)[b]
            == entries[j]);
    }
}

/// A stage is a barrier: whatever runs earlier in a frame belongs to the same
/// stage or to an earlier one.
pub proof fn lemma_frame_order_is_staged(entries: Seq<SystemEntry>, i: int, j: int)
    requires
        0 <= i <= j < frame_order(entries).len(),
    ensures
        frame_order(entries)[i].stage.rank() <= frame_order(entries)[j].stage.rank(),
{
    let prepare = of_stage(entries, RenderStage::Prepare);
    let render = of_stage(entries, RenderStage::Render);
    let flush = of_stage(entries, RenderStage::Flush);
    assert forall|k: int| 0 <= k < prepare.len() implies prepare[k].stage
        == RenderStage::Prepare by {
        entries.lemma_filter_pred(|entry: SystemEntry| entry.stage == RenderStage::Prepare, k);
    }
    assert forall|k: int| 0 <= k < render.len() implies render[k].stage == RenderStage::Render by {
        entries.lemma_filter_pred(|entry: SystemEntry| entry.stage == RenderStage::Render, k);
    }
    assert forall|k: int| 0 <= k < flush.len() implies flush[k].stage == RenderStage::Flush by {
        entries.lemma_filter_pred(|entry: SystemEntry| entry.stage == RenderStage::Flush, k);
    }
}

/// A frame runs every registered system exactly once.
pub proof fn lemma_frame_order_runs_each_once(entries: Seq<SystemEntry>)
    ensures
        frame_order(entries).to_multiset() == entries.to_multiset(),
    decreases entries.len(),
{
    broadcast use vstd::seq_lib::group_to_multiset_ensures;

    let prepare = of_stage(entries, RenderStage::Prepare);
    let render = of_stage(entries, RenderStage::Render);
    let flush = of_stage(entries, RenderStage::Flush);
    lemma_joined_items(prepare, render);
    lemma_joined_items(prepare + render, flush);
    if entries.len() == 0 {
        reveal(Seq::filter);
        assert(frame_order(entries) =~= entries);
    } else {
        let rest = entries.drop_last();
        let last = entries.last();
        lemma_frame_order_runs_each_once(rest);
        lemma_joined_items(of_stage(rest, RenderStage::Prepare), of_stage(rest, RenderStage::Render));
        lemma_joined_items(
            of_stage(rest, RenderStage::Prepare) + of_stage(rest, RenderStage::Render),
            of_stage(rest, RenderStage::Flush),
        );
        assert(entries =~= rest.push(last));
        rest.lemma_filter_push(last, |entry: SystemEntry| entry.stage == RenderStage::Prepare);
        rest.lemma_filter_push(last, |entry: SystemEntry| entry.stage == RenderStage::Render);
        rest.lemma_filter_push(last, |entry: SystemEntry| entry.stage == RenderStage::Flush);
        assert(frame_order(entries).to_multiset() =~= entries.to_multiset());
    }
}

/// Within a stage a frame keeps the order of registration: the part of the
/// frame's order that belongs to a stage is the part of the registered
/// entries that belongs to it.
pub proof fn lemma_frame_order_keeps_stage_order(entries: Seq<SystemEntry>, stage: RenderStage)
    ensures
        of_stage(frame_order(entries), stage) == of_stage(entries, stage),
{
    let prepare = of_stage(entries, RenderStage::Prepare);
    let render = of_stage(entries, RenderStage::Render);
    let flush = of_stage(entries, RenderStage::Flush);
    let wanted = |entry: SystemEntry| entry.stage == stage;
    Seq::filter_distributes_over_add(prepare, render, wanted);
    Seq::filter_distributes_over_add(prepare + render, flush, wanted);
    lemma_of_stage_twice(entries, RenderStage::Prepare, stage);
    lemma_of_stage_twice(entries, RenderStage::Render, stage);
    lemma_of_stage_twice(entries, RenderStage::Flush, stage);
    assert(of_stage(frame_order(entries), stage) =~= of_stage(entries, stage));
}

/// Of two systems registered in one stage, the one registered first runs
/// first. So a chain runs in the order in which it was given.
pub proof fn lemma_frame_order_keeps_chains(entries: Seq<SystemEntry>, i: int, j: int)
    requires
        0 <= i < j < entries.len(),
        entries[i].stage == entries[j].stage,
    ensures
        exists|a: int, b: int|
            0 <= a < b < frame_order(entries).len() && frame_order(entries)[a] == entries[i]
                && frame_order(entries)[b] == entries[j],
{
    let stage = entries[i].stage;
    let prepare = of_stage(entries, RenderStage::Prepare);
    let render = of_stage(entries, RenderStage::Render);
    lemma_of_stage_keeps_order(entries, stage, i, j);
    let (a, b) = choose|a: int, b: int|
        0 <= a < b < of_stage(entries, stage).len() && of_stage(entries, stage)[a] == entries[i]
            && of_stage(entries, stage)[b] == entries[j];
    let shift: int = match stage {
        RenderStage::Prepare => 0,
        RenderStage::Render => prepare.len() as int,
        RenderStage::Flush => (prepare.len() + render.len()) as int,
    };
    assert(frame_order(entries)[a + shift] == entries[i] && frame_order(entries)[b + shift]
        == entries[j]);
}

/// The entries that every frame needs: the resize records are applied before
/// the surfaces are acquired, both in the prepare stage, and the flush stage
/// submits and presents.
pub open spec fn frame_entries() -> Seq<SystemEntry> {
    chain_entries(
        seq![RECONFIGURE_DEVICE_ON_RESIZE_SYSTEM, PREPARE_RENDER_SYSTEM],
        RenderStage::Prepare,
    ).push(SystemEntry { system: FLUSH_RENDER_SYSTEM, stage: RenderStage::Flush, chained: false })
}

/// Registers the systems that every frame needs.
pub fn init_render_schedule(schedule: &mut RenderSchedule)
    ensures
        final(schedule)@ == old(schedule)@ + frame_entries(),
{
    let mut prepare: Vec<SystemId> = Vec::new();
    prepare.push(RECONFIGURE_DEVICE_ON_RESIZE_SYSTEM);
    prepare.push(PREPARE_RENDER_SYSTEM);
    assert(prepare@ =~= seq![RECONFIGURE_DEVICE_ON_RESIZE_SYSTEM, PREPARE_RENDER_SYSTEM]);
    schedule.add_chain(&prepare, RenderStage::Prepare);
    schedule.add_system(FLUSH_RENDER_SYSTEM, RenderStage::Flush);
    assert(schedule@ =~= old(schedule)@ + frame_entries());
}

/// `first` runs before `second`, and `second` before `third`, in `order`.
pub open spec fn run_one_after_another(
    order: Seq<SystemEntry>,
    first: SystemEntry,
    second: SystemEntry,
    third: SystemEntry,
) -> bool {
    exists|a: int, b: int, c: int|
        0 <= a < b < c < order.len() && #[trigger] order[a] == first && #[trigger] order[b]
            == second && #[trigger] order[c] == third
}

/// Whatever else is registered, before or after: in every frame the resize
/// records are applied before any surface is acquired, and the surfaces are
/// acquired before the flush.
pub proof fn lemma_resize_before_acquire_before_flush(
    before: Seq<SystemEntry>,
    after: Seq<SystemEntry>,
)
    ensures
        run_one_after_another(
            frame_order(before + frame_entries() + after),
            frame_entries()[0],
            frame_entries()[1],
            frame_entries()[2],
        ),
{
    let entries = before + frame_entries() + after;
    let order = frame_order(entries);
    let at = before.len() as int;
    assert(entries[at] == frame_entries()[0]);
    assert(entries[at + 1] == frame_entries()[1]);
    assert(entries[at + 2] == frame_entries()[2]);
    lemma_of_stage_keeps_order(entries, RenderStage::Prepare, at, at + 1);
    let prepare = of_stage(entries, RenderStage::Prepare);
    let render = of_stage(entries, RenderStage::Render);
    let flush = of_stage(entries, RenderStage::Flush);
    let (a, b) = choose|a: int, b: int|
        0 <= a < b < prepare.len() && prepare[a] == entries[at] && prepare[b] == entries[at + 1];
    entries.lemma_filter_contains(|entry: SystemEntry| entry.stage == RenderStage::Flush, at + 2);
    let f = choose|f: int| 0 <= f < flush.len() && flush[f] == entries[at + 2];
    let c = prepare.len() + render.len() + f;
    assert(order[a] == frame_entries()[0] && order[b] == frame_entries()[1] && order[c]
        == frame_entries()[2]);
}

/// The adapter that the device was requested from.
pub struct WgpuAdapter(pub ::wgpu::Adapter);

/// The surface that the frames are presented on.
pub struct WgpuSurface(pub ::wgpu::Surface<'static>);

/// The device that records the command buffers.
pub struct WgpuDevice(pub ::wgpu::Device);

/// The queue that the command buffers are submitted to.
pub struct WgpuQueue(pub ::wgpu::Queue);

/// The layout of the bind group that carries a camera's projection.
pub struct CameraBindGroupLayout(pub ::wgpu::BindGroupLayout);

/// A finished command buffer, ready for submission. The buffer itself stays
/// with the graphics backend; `0` is the ticket under which its owner finds
/// it again.
#[derive(Clone, Copy, PartialEq, Eq, Structural, Debug)]
pub struct CommandBufferFinishedEvent(pub u64);

/// The part of the surface configuration that a resize changes.
#[derive(Clone, Copy, PartialEq, Eq, Structural, Debug)]
pub struct WgpuConfig {
    pub width: u32,
    pub height: u32,
}

impl WgpuConfig {
    /// Takes the dimensions of `record`. A record without width or height is
    /// refused, and the configuration stays as it is.
    pub fn apply(&mut self, record: ResizeEvent) -> (applied: Result<(), ResizeError>)
        ensures
            is_drawable(record) ==> applied is Ok && *final(self) == config_after(
                *old(self),
                seq![record],
            ),
            !is_drawable(record) ==> applied == Err::<(), ResizeError>(
                ResizeError::EmptySurface(record),
            ) && *final(self) == *old(self),
    {
        if record.width == 0 || record.height == 0 {
            return Err(ResizeError::EmptySurface(record));
        }
        self.width = record.width;
        self.height = record.height;
        Ok(())
    }
}

/// The ratio of a width to a height, kept as the two numbers.
#[derive(Clone, Copy, PartialEq, Eq, Structural, Debug)]
pub struct AspectRatio {
    pub width: u32,
    pub height: u32,
}

/// An output target. `output` is the surface that the camera draws into in
/// the running frame: acquired in the prepare stage, presented in the flush
/// stage, and absent between frames.
pub struct Camera<O> {
    pub aspect: AspectRatio,
    pub output: Option<O>,
}

impl<O> Camera<O> {
    /// A camera between frames: it holds no surface.
    pub fn new(aspect: AspectRatio) -> (camera: Self)
        ensures
            camera.aspect == aspect,
            camera.output is None,
    {
        Camera { aspect, output: None }
    }

    /// Gives the camera the surface acquired for the running frame. Returns
    /// the surface that it still held, if any.
    pub fn acquire(&mut self, output: O) -> (stale: Option<O>)
        ensures
            final(self).output == Some(output),
            final(self).aspect == old(self).aspect,
            stale == old(self).output,
    {
        let stale = self.output.take();
        self.output = Some(output);
        stale
    }

    /// Takes the camera's surface from it, to be presented.
    pub fn release(&mut self) -> (held: Option<O>)
        ensures
            final(self).output is None,
            final(self).aspect == old(self).aspect,
            held == old(self).output,
    {
        self.output.take()
    }
}

/// Why the resize records could not all be applied.
#[derive(Clone, Copy, PartialEq, Eq, Structural, Debug)]
pub enum ResizeError {
    /// The record asks for a surface without width or without height.
    EmptySurface(ResizeEvent),
}

/// Whether a surface of these dimensions can be drawn into.
pub open spec fn is_drawable(record: ResizeEvent) -> bool {
    record.width > 0 && record.height > 0
}

/// The configuration once `applied` were applied in their order: it has the
/// dimensions of the last one.
pub open spec fn config_after(config: WgpuConfig, applied: Seq<ResizeEvent>) -> WgpuConfig {
    if applied.len() > 0 {
        WgpuConfig { width: applied.last().width, height: applied.last().height }
    } else {
        config
    }
}

/// A camera's aspect ratio once `applied` were applied in their order: width
/// to height of the last one.
pub open spec fn aspect_after(aspect: AspectRatio, applied: Seq<ResizeEvent>) -> AspectRatio {
    if applied.len() > 0 {
        AspectRatio { width: applied.last().width, height: applied.last().height }
    } else {
        aspect
    }
}

/// The cameras once `applied` were applied: each has the new aspect ratio
/// and the output that it had.
pub open spec fn cameras_after<O>(cameras: Seq<Camera<O>>, applied: Seq<ResizeEvent>) -> Seq<
    Camera<O>,
> {
    Seq::new(
        cameras.len(),
        |i: int| Camera { aspect: aspect_after(cameras[i].aspect, applied), output: cameras[i].output },
    )
}

/// `at` is the first record of `records` that cannot be drawn into.
pub open spec fn is_first_empty(records: Seq<ResizeEvent>, at: int) -> bool {
    &&& 0 <= at < records.len()
    &&& !is_drawable(records[at])
    &&& forall|i: int| 0 <= i < at ==> is_drawable(#[trigger] records[i])
}

/// Gives every camera the aspect ratio of `record`.
fn set_aspect<O>(cameras: &mut Vec<Camera<O>>, record: ResizeEvent)
    ensures
        final(cameras)@ == cameras_after(old(cameras)@, seq![record]),
{
    let mut i: usize = 0;
    while i < cameras.len()
        invariant
            i <= cameras.len(),
            cameras@.len() == old(cameras)@.len(),
            forall|k: int|
                0 <= k < i ==> cameras@[k] == cameras_after(old(cameras)@, seq![record])[k],
            forall|k: int| i <= k < cameras@.len() ==> cameras@[k] == old(cameras)@[k],
        decreases cameras.len() - i,
    {
        cameras[i].aspect = AspectRatio { width: record.width, height: record.height };
        i = i + 1;
    }
    assert(cameras@ =~= cameras_after(old(cameras)@, seq![record]));
}

/// Takes every pending resize record, in the order of arrival, and applies
/// each to the surface configuration and to the cameras, so that both end
/// with the dimensions of the last record. A record without width or height
/// stops it at once: the records before it stay applied, and the error names
/// the record. The inbox is empty afterwards either way.
///
/// Returns the records applied; the backend is to be configured with each,
/// in this order, before any surface is acquired.
pub fn reconfigure_device_on_resize_system<O>(
    resizes: &mut ResizeInbox,
    config: &mut WgpuConfig,
    cameras: &mut Vec<Camera<O>>,
) -> (applied: Result<Vec<ResizeEvent>, ResizeError>)
    requires
        old(resizes).wf(),
    ensures
        final(resizes).wf(),
        final(resizes)@ == old(resizes)@.cleared(),
        match applied {
            Ok(records) => {
                &&& records@ == old(resizes)@.pending
                &&& forall|i: int| 0 <= i < records@.len() ==> is_drawable(#[trigger] records@[i])
                &&& *final(config) == config_after(*old(config), records@)
                &&& final(cameras)@ == cameras_after(old(cameras)@, records@)
            },
            Err(ResizeError::EmptySurface(record)) => exists|at: int|
                {
                    &&& #[trigger] is_first_empty(old(resizes)@.pending, at)
                    &&& record == old(resizes)@.pending[at]
                    &&& *final(config) == config_after(
                        *old(config),
                        old(resizes)@.pending.take(at),
                    )
                    &&& final(cameras)@ == cameras_after(
                        old(cameras)@,
                        old(resizes)@.pending.take(at),
                    )
                },
        },
{
    let records = resizes.drain();
    let mut i: usize = 0;
    assert(cameras@ =~= cameras_after(old(cameras)@, records@.take(0)));
    while i < records.len()
        invariant
            i <= records.len(),
            resizes.wf(),
            resizes@ == old(resizes)@.cleared(),
            records@ == old(resizes)@.pending,
            forall|k: int| 0 <= k < i ==> is_drawable(#[trigger] records@[k]),
            *config == config_after(*old(config), records@.take(i as int)),
            cameras@ == cameras_after(old(cameras)@, records@.take(i as int)),
        decreases records.len() - i,
    {
        let record = records[i];
        if let Err(refused) = config.apply(record) {
            assert(is_first_empty(records@, i as int));
            return Err(refused);
        }
        set_aspect(cameras, record);
        i = i + 1;
        assert(records@.take(i as int).last() == record);
        assert(cameras@ =~= cameras_after(old(cameras)@, records@.take(i as int)));
    }
    assert(records@.take(i as int) =~= records@);
    Ok(records)
}

/// One thing that the flush stage asks of the backend.
pub enum BackendAction<O> {
    /// Submit these finished command buffers, in this order, as one
    /// submission.
    Submit(Vec<CommandBufferFinishedEvent>),
    /// Present this surface.
    Present(O),
}

/// A backend action as the contracts speak of it.
pub enum BackendStep<O> {
    Submit(Seq<CommandBufferFinishedEvent>),
    Present(O),
}

impl<O> View for BackendAction<O> {
    type V = BackendStep<O>;

    open spec fn view(&self) -> BackendStep<O> {
        match *self {
            BackendAction::Submit(buffers) => BackendStep::Submit(buffers@),
            BackendAction::Present(surface) => BackendStep::Present(surface),
        }
    }
}

/// The steps that `actions` stand for, in their order.
pub open spec fn steps_of<O>(actions: Seq<BackendAction<O>>) -> Seq<BackendStep<O>> {
    actions.map_values(|action: BackendAction<O>| action@)
}

/// The surfaces that `cameras` hold, in the order of the cameras.
pub open spec fn outstanding<O>(cameras: Seq<Camera<O>>) -> Seq<O> {
    cameras.filter_map(|camera: Camera<O>| camera.output)
}

/// The cameras once their surfaces were taken from them.
pub open spec fn released<O>(cameras: Seq<Camera<O>>) -> Seq<Camera<O>> {
    Seq::new(cameras.len(), |i: int| Camera { aspect: cameras[i].aspect, output: None })
}

/// What the flush stage asks of the backend, in the order in which it is to
/// be done: first the one submission of everything that waits, then one
/// present for each surface that a camera holds, in the order of the
/// cameras.
pub open spec fn flush_steps<O>(
    pending: Seq<CommandBufferFinishedEvent>,
    cameras: Seq<Camera<O>>,
) -> Seq<BackendStep<O>> {
    seq![BackendStep::Submit(pending)] + outstanding(cameras).map_values(
        |surface: O| BackendStep::Present(surface),
    )
}

/// The submission comes before every present: the first step of a flush is
/// the submission, and every step after it presents a surface.
pub proof fn lemma_flush_submits_before_it_presents<O>(
    pending: Seq<CommandBufferFinishedEvent>,
    cameras: Seq<Camera<O>>,
)
    ensures
        flush_steps(pending, cameras).len() == 1 + outstanding(cameras).len(),
        flush_steps(pending, cameras)[0] == BackendStep::<O>::Submit(pending),
        forall|i: int|
            1 <= i < flush_steps(pending, cameras).len() ==> #[trigger] flush_steps(
                pending,
                cameras,
            )[i] == BackendStep::Present(outstanding(cameras)[i - 1]),
{
}

/// Ends a frame: takes every finished command buffer out of the aggregator,
/// in the order in which they were sent, and every surface that a camera
/// still holds, whether or not anything was drawn into it. The aggregator is
/// empty afterwards and no camera holds a surface.
///
/// Returns what the backend is to do, in this order: the submission first,
/// then the presents.
pub fn flush_render_system<O>(commands: &mut CommandAggregator, cameras: &mut Vec<Camera<O>>) -> (actions:
    Vec<BackendAction<O>>)
    requires
        old(commands).wf(),
    ensures
        final(commands).wf(),
        final(commands)@ == old(commands)@.cleared(),
        steps_of(actions@) == flush_steps(old(commands)@.pending, old(cameras)@),
        final(cameras)@ == released(old(cameras)@),
{
    let submit = commands.drain();
    let ghost pending = submit@;
    let ghost present = |surface: O| BackendStep::Present(surface);
    let mut actions: Vec<BackendAction<O>> = Vec::new();
    actions.push(BackendAction::Submit(submit));
    let mut i: usize = 0;
    assert(steps_of(actions@) =~= seq![BackendStep::Submit(pending)] + outstanding(
        old(cameras)@.take(0),
    ).map_values(present));
    while i < cameras.len()
        invariant
            i <= cameras.len(),
            cameras@.len() == old(cameras)@.len(),
            present == |surface: O| BackendStep::Present(surface),
            steps_of(actions@) == seq![BackendStep::Submit(pending)] + outstanding(
                old(cameras)@.take(i as int),
            ).map_values(present),
            forall|k: int| 0 <= k < i ==> cameras@[k] == released(old(cameras)@)[k],
            forall|k: int| i <= k < cameras@.len() ==> cameras@[k] == old(cameras)@[k],
        decreases cameras.len() - i,
    {
        proof {
            old(cameras)@.lemma_filter_map_take_succ(|camera: Camera<O>| camera.output, i as int);
        }
        let ghost before = actions@;
        let output = cameras[i].release();
        if let Some(surface) = output {
            actions.push(BackendAction::Present(surface));
            assert(steps_of(actions@) =~= steps_of(before).push(BackendStep::Present(surface)));
        }
        i = i + 1;
        assert(steps_of(actions@) =~= seq![BackendStep::Submit(pending)] + outstanding(
            old(cameras)@.take(i as int),
        ).map_values(present));
    }
    assert(old(cameras)@.take(i as int) =~= old(cameras)@);
    assert(cameras@ =~= released(old(cameras)@));
    actions
}

} // verus!
