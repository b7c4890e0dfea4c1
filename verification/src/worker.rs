//! The single-slot mailbox handoff protocol and the orchestrator.
//!
//! The running system has exactly two threads: the primary thread, which
//! owns the orchestrator, and one worker, which loops forever taking one job
//! per wake from the mailbox, running the layout engine, and posting one
//! result message back. The mailbox is modelled as a capacity-one move-only
//! channel that owns its slot, so the job descriptor's ownership transfer is
//! type-checked rather than a raw-address convention; the engine stays with
//! the orchestrator and the worker step borrows it for the job's duration.
//! Exclusive access while a job is in flight is the calling convention of the
//! whole design, and it is enforced here by preconditions: every operation of
//! the primary thread other than settling the pending result demands that no
//! completion handler is live.

use vstd::prelude::*;

use crate::layout::Dimension;
use crate::layout::Layout;
use crate::layout::Transform;
use crate::layout::MAX_ITEMS;
use crate::layout::resize_rel;
use crate::layout::grid_extent;
use crate::layout::grid_transform;
use crate::layout::horizontal_extent;
use crate::layout::horizontal_transform;
use crate::layout::vertical_extent;
use crate::layout::vertical_transform;

verus! {

/// The three placement variants.
#[derive(Clone, Copy, PartialEq, Eq, Structural, Debug)]
pub enum MasonryType {
    Vertical,
    Horizontal,
    Grid,
}

/// Per-job configuration: the variant to dispatch on, the nominal cell size,
/// and the gap between neighbouring items.
#[derive(Clone, Copy, PartialEq, Eq, Structural, Debug)]
pub struct MasonryConfig {
    pub kind: MasonryType,
    pub thumbnail_size: u16,
    pub padding: u16,
}

/// Cell size a fresh orchestrator starts with.
pub const DEFAULT_THUMBNAIL_SIZE: u16 = 300;

/// Gap a fresh orchestrator starts with.
pub const DEFAULT_PADDING: u16 = 8;

/// A job descriptor: one requested layout computation. It is a one-shot
/// owned value whose ownership moves through the mailbox to the worker; the
/// layout engine itself is not part of it — the worker borrows the engine
/// from the orchestrator for the duration of the job.
#[derive(Clone, Copy, PartialEq, Eq, Structural, Debug)]
pub struct Computation {
    pub width: u16,
    pub config: MasonryConfig,
}

/// The mailbox cell: two words shared by the two threads. The first is the
/// signal flag, the second carries the job. The slot is meaningful only
/// while the signal is set, and exactly one consumer takes and clears it per
/// signal.
pub struct MailboxCell {
    signal: bool,
    slot: Option<Computation>,
}

impl MailboxCell {
    /// The signal word: true means a job is pending.
    pub closed spec fn signal(&self) -> bool {
        self.signal
    }

    /// The job word: the pending job, if any.
    pub closed spec fn slot(&self) -> Option<Computation> {
        self.slot
    }

    /// The cell's invariant: the job word holds a job exactly while the
    /// signal word is set.
    pub open spec fn wf(&self) -> bool {
        self.signal() == self.slot() is Some
    }

    pub fn new() -> (m: MailboxCell)
        ensures
            m.wf(),
            !m.signal(),
    {
        MailboxCell { signal: false, slot: None }
    }

    /// Store a job and raise the signal, waking the consumer. Only the
    /// single producer calls this, and the at-most-one-in-flight rule means
    /// the cell is idle when it does.
    pub fn publish(&mut self, job: Computation)
        requires
            old(self).wf(),
            !old(self).signal(),
        ensures
            final(self).wf(),
            final(self).signal(),
            final(self).slot() == Some(job),
    {
        self.slot = Some(job);
        self.signal = true;
    }

    /// Take the pending job and reset the signal. In the running system the
    /// consumer blocks until the signal is set; here that wait is the
    /// precondition.
    pub fn wait_and_take(&mut self) -> (job: Computation)
        requires
            old(self).wf(),
            old(self).signal(),
        ensures
            final(self).wf(),
            !final(self).signal(),
            Some(job) == old(self).slot(),
    {
        let job = self.slot.unwrap();
        self.slot = None;
        self.signal = false;
        job
    }
}

/// The transform the layout engine assigns to item `i` for a job, by the
/// job's variant.
pub open spec fn job_transform(
    dims: Seq<Dimension>,
    width: u16,
    config: MasonryConfig,
    i: int,
) -> Transform {
    match config.kind {
        MasonryType::Vertical => vertical_transform(dims, config.padding, i),
        MasonryType::Horizontal => horizontal_transform(dims, config.padding, i),
        MasonryType::Grid => grid_transform(width, config.thumbnail_size, config.padding, i),
    }
}

/// The total extent the layout engine reports for a job over `n` items, by
/// the job's variant.
pub open spec fn job_extent(
    dims: Seq<Dimension>,
    n: int,
    width: u16,
    config: MasonryConfig,
) -> int {
    match config.kind {
        MasonryType::Vertical => vertical_extent(dims, config.padding, n),
        MasonryType::Horizontal => horizontal_extent(dims, config.padding, n),
        MasonryType::Grid => grid_extent(width, config.thumbnail_size, config.padding, n),
    }
}

/// Run one job against the layout engine: apply the job's cell size and gap,
/// dispatch on its variant, and report the total extent.
///
/// The result message is optional because a worker whose borrowed engine
/// reference is no longer valid reports no result rather than proceeding.
/// Here the borrow is checked by type, that case cannot arise, and the
/// message always carries the extent.
pub fn execute(computation: Computation, layout: &mut Layout) -> (result: Option<u64>)
    requires
        old(layout).wf(),
        old(layout).len() <= MAX_ITEMS,
    ensures
        final(layout).wf(),
        final(layout).len() == old(layout).len(),
        final(layout).dims() == old(layout).dims(),
        final(layout).thumbnail_size() == computation.config.thumbnail_size,
        final(layout).padding() == computation.config.padding,
        final(layout).transforms().len() == old(layout).transforms().len(),
        forall|i: int|
            0 <= i < old(layout).len() ==> final(layout).transforms()[i] == job_transform(
                old(layout).dims(),
                computation.width,
                computation.config,
                i,
            ),
        forall|i: int|
            old(layout).len() <= i < old(layout).transforms().len() ==> final(layout).transforms()[i] == old(layout).transforms()[i],
        result == Some(
            job_extent(
                old(layout).dims(),
                old(layout).len() as int,
                computation.width,
                computation.config,
            ) as u64,
        ),
{
    layout.set_thumbnail_size(computation.config.thumbnail_size);
    layout.set_padding(computation.config.padding);
    let extent = match computation.config.kind {
        MasonryType::Vertical => layout.compute_vertical(computation.width),
        MasonryType::Horizontal => layout.compute_horizontal(computation.width),
        MasonryType::Grid => layout.compute_grid(computation.width),
    };
    Some(extent)
}

/// The orchestrator: owns the layout engine, the mailbox, and the pending
/// completion state. `handler_live` is the liveness of the single registered
/// completion handler, created right before a job is published and destroyed
/// right after its result is consumed — its liveness is the in-flight
/// marker. `result_slot` is the worker's posted result message while it is
/// on its way to the handler. `worker_alive` is the worker's execution
/// context, torn down forcibly by `destroy`.
pub struct MasonryWorker {
    layout: Layout,
    mailbox: MailboxCell,
    result_slot: Option<Option<u64>>,
    handler_live: bool,
    worker_alive: bool,
}

impl MasonryWorker {
    /// The layout engine instance, owned for the orchestrator's lifetime.
    pub closed spec fn layout(&self) -> Layout {
        self.layout
    }

    /// The mailbox cell shared with the worker.
    pub closed spec fn mailbox(&self) -> MailboxCell {
        self.mailbox
    }

    /// The result message posted by the worker and not yet consumed, if any.
    pub closed spec fn posted_result(&self) -> Option<Option<u64>> {
        self.result_slot
    }

    /// Whether the single completion handler is live, i.e. a job is in
    /// flight.
    pub closed spec fn handler_live(&self) -> bool {
        self.handler_live
    }

    /// Whether the worker's execution context still runs.
    pub closed spec fn worker_alive(&self) -> bool {
        self.worker_alive
    }

    /// No job is in flight: the caller may publish or touch the engine.
    pub open spec fn idle(&self) -> bool {
        !self.handler_live()
    }

    /// Protocol invariant: the engine and the mailbox are well-formed, any
    /// message anywhere in the system belongs to a live completion handler,
    /// and at most one message exists at a time.
    pub open spec fn wf(&self) -> bool {
        &&& self.layout().wf()
        &&& self.mailbox().wf()
        &&& (self.mailbox().signal() || self.posted_result() is Some) ==> self.handler_live()
        &&& !(self.mailbox().signal() && self.posted_result() is Some)
    }

    /// `compute` may run: nothing is in flight and the worker exists.
    pub open spec fn compute_enabled(&self) -> bool {
        self.wf() && self.idle() && self.worker_alive()
    }

    /// The worker may run one loop iteration: it is alive and a job is
    /// pending.
    pub open spec fn worker_step_enabled(&self) -> bool {
        self.wf() && self.worker_alive() && self.mailbox().signal() && self.layout().len()
            <= MAX_ITEMS
    }

    /// The completion bridge may resolve: a handler is live and a result
    /// message has arrived.
    pub open spec fn settle_enabled(&self) -> bool {
        self.wf() && self.handler_live() && self.posted_result() is Some
    }

    /// The engine accessors may run: nothing is in flight and the worker
    /// exists.
    pub open spec fn passthrough_enabled(&self) -> bool {
        self.wf() && self.idle() && self.worker_alive()
    }

    /// The orchestrator has been destroyed: the worker is gone, any job
    /// still in the mailbox is discarded, and no result message survives.
    pub open spec fn torn_down(&self) -> bool {
        &&& !self.worker_alive()
        &&& !self.mailbox().signal()
        &&& self.posted_result() is None
    }

    /// Create an orchestrator over a fresh engine of `num_items` zeroed
    /// items with the default configuration, an idle mailbox, no live
    /// handler, and a running worker.
    pub fn new(num_items: usize) -> (w: MasonryWorker)
        ensures
            w.wf(),
            w.idle(),
            w.worker_alive(),
            !w.mailbox().signal(),
            w.posted_result() is None,
            w.layout().len() == num_items,
            w.layout().dims().len() == num_items,
            w.layout().transforms().len() == num_items,
            forall|i: int|
                0 <= i < num_items ==> w.layout().dims()[i] == (Dimension { width: 0, height: 0 }),
            forall|i: int|
                0 <= i < num_items ==> w.layout().transforms()[i] == (Transform {
                    width: 0,
                    height: 0,
                    top: 0,
                    left: 0,
                }),
            w.layout().thumbnail_size() == DEFAULT_THUMBNAIL_SIZE,
            w.layout().padding() == DEFAULT_PADDING,
    {
        MasonryWorker {
            layout: Layout::new(num_items, DEFAULT_THUMBNAIL_SIZE, DEFAULT_PADDING),
            mailbox: MailboxCell::new(),
            result_slot: None,
            handler_live: false,
            worker_alive: true,
        }
    }

    /// Request one layout computation: register a fresh completion handler
    /// and publish the job descriptor. Returns immediately — the primary
    /// thread never blocks; the caller awaits the settled result and must
    /// not call `compute` or any engine accessor again before that.
    pub fn compute(&mut self, width: u16, kind: MasonryType, thumbnail_size: u16, padding: u16)
        requires
            old(self).compute_enabled(),
        ensures
            final(self).wf(),
            final(self).handler_live(),
            final(self).worker_alive(),
            final(self).mailbox().signal(),
            final(self).mailbox().slot() == Some(
                Computation { width, config: MasonryConfig { kind, thumbnail_size, padding } },
            ),
            final(self).posted_result() is None,
            final(self).layout() == old(self).layout(),
    {
        self.handler_live = true;
        self.mailbox.publish(
            Computation { width, config: MasonryConfig { kind, thumbnail_size, padding } },
        );
    }

    /// One iteration of the worker loop: block on the mailbox (the wait is
    /// the precondition), take the job, run it against the borrowed engine,
    /// and post the result message toward the completion bridge.
    pub fn worker_step(&mut self)
        requires
            old(self).worker_step_enabled(),
        ensures
            final(self).wf(),
            final(self).worker_alive(),
            final(self).handler_live() == old(self).handler_live(),
            !final(self).mailbox().signal(),
            old(self).mailbox().slot() matches Some(job) ==> {
                &&& final(self).layout().len() == old(self).layout().len()
                &&& final(self).layout().dims() == old(self).layout().dims()
                &&& final(self).layout().thumbnail_size() == job.config.thumbnail_size
                &&& final(self).layout().padding() == job.config.padding
                &&& final(self).layout().transforms().len() == old(self).layout().transforms().len()
                &&& forall|i: int|
                    0 <= i < old(self).layout().len() ==> final(self).layout().transforms()[i]
                        == job_transform(old(self).layout().dims(), job.width, job.config, i)
                &&& forall|i: int|
                    old(self).layout().len() <= i < old(self).layout().transforms().len()
                        ==> final(self).layout().transforms()[i] == old(self).layout().transforms()[i]
                &&& final(self).posted_result() == Some(
                    Some(
                        job_extent(
                            old(self).layout().dims(),
                            old(self).layout().len() as int,
                            job.width,
                            job.config,
                        ) as u64,
                    ),
                )
            },
    {
        let job = self.mailbox.wait_and_take();
        let result = execute(job, &mut self.layout);
        self.result_slot = Some(result);
    }

    /// Resolve the pending completion: consume the worker's result message,
    /// deliver it, and free the handler. The handler's death makes the
    /// orchestrator idle again, so the future settles exactly once.
    pub fn settle(&mut self) -> (r: Option<u64>)
        requires
            old(self).settle_enabled(),
        ensures
            final(self).wf(),
            final(self).idle(),
            final(self).posted_result() is None,
            Some(r) == old(self).posted_result(),
            final(self).layout() == old(self).layout(),
            final(self).mailbox() == old(self).mailbox(),
            final(self).worker_alive() == old(self).worker_alive(),
    {
        let r = self.result_slot.unwrap();
        self.result_slot = None;
        self.handler_live = false;
        r
    }

    /// Grow the logical item count of the engine. Forbidden while a job is
    /// in flight.
    pub fn resize(&mut self, new_len: usize)
        requires
            old(self).passthrough_enabled(),
        ensures
            final(self).wf(),
            final(self).idle(),
            final(self).worker_alive(),
            final(self).posted_result() is None,
            !final(self).mailbox().signal(),
            resize_rel(old(self).layout(), final(self).layout(), new_len),
    {
        self.layout.resize(new_len);
    }

    /// Record the source dimensions of one item. Forbidden while a job is in
    /// flight; an index at or past the last `resize` argument is a fatal
    /// bounds violation and is excluded here.
    pub fn set_dimension(&mut self, index: usize, src_width: u32, src_height: u32)
        requires
            old(self).passthrough_enabled(),
            index < old(self).layout().len(),
        ensures
            final(self).wf(),
            final(self).idle(),
            final(self).worker_alive(),
            final(self).posted_result() is None,
            !final(self).mailbox().signal(),
            final(self).layout().len() == old(self).layout().len(),
            final(self).layout().dims() == old(self).layout().dims().update(
                index as int,
                Dimension { width: src_width, height: src_height },
            ),
            final(self).layout().transforms() == old(self).layout().transforms(),
            final(self).layout().thumbnail_size() == old(self).layout().thumbnail_size(),
            final(self).layout().padding() == old(self).layout().padding(),
    {
        self.layout.set_dimension(index, src_width, src_height);
    }

    /// Read back the transform of one item. Forbidden while a job is in
    /// flight; an index at or past the last `resize` argument is a fatal
    /// bounds violation and is excluded here.
    pub fn get_transform(&self, index: usize) -> (t: Transform)
        requires
            self.passthrough_enabled(),
            index < self.layout().len(),
        ensures
            t == self.layout().transforms()[index as int],
    {
        self.layout.get_transform(index)
    }

    /// Tear the orchestrator down: forcibly terminate the worker's execution
    /// context, whether or not a job is mid-flight. The mailbox owns the
    /// job slot, so a job still in it is dropped deterministically, and any
    /// posted result message is discarded — nothing can be delivered to the
    /// primary side afterwards.
    pub fn destroy(&mut self)
        requires
            old(self).wf(),
        ensures
            final(self).wf(),
            final(self).torn_down(),
            final(self).layout() == old(self).layout(),
            final(self).handler_live() == old(self).handler_live(),
    {
        self.worker_alive = false;
        self.mailbox = MailboxCell::new();
        self.result_slot = None;
    }

    /// Sequential usage of the whole pipeline: publish one job, let the
    /// worker run it, and settle the result — the await-then-call pattern
    /// the protocol is designed for.
    pub fn compute_and_wait(
        &mut self,
        width: u16,
        kind: MasonryType,
        thumbnail_size: u16,
        padding: u16,
    ) -> (r: Option<u64>)
        requires
            old(self).compute_enabled(),
            old(self).layout().len() <= MAX_ITEMS,
        ensures
            round_rel(*old(self), *final(self), r, width, kind, thumbnail_size, padding),
    {
        self.compute(width, kind, thumbnail_size, padding);
        self.worker_step();
        self.settle()
    }
}

/// How one full round — `compute`, one worker iteration, settling the
/// result — relates the orchestrator's state before and after, and the
/// delivered value, to the requested job.
pub open spec fn round_rel(
    pre: MasonryWorker,
    post: MasonryWorker,
    delivered: Option<u64>,
    width: u16,
    kind: MasonryType,
    thumbnail_size: u16,
    padding: u16,
) -> bool {
    let config = MasonryConfig { kind, thumbnail_size, padding };
    &&& post.wf()
    &&& post.idle()
    &&& post.worker_alive()
    &&& !post.mailbox().signal()
    &&& post.posted_result() is None
    &&& post.layout().len() == pre.layout().len()
    &&& post.layout().dims() == pre.layout().dims()
    &&& post.layout().thumbnail_size() == thumbnail_size
    &&& post.layout().padding() == padding
    &&& post.layout().transforms().len() == pre.layout().transforms().len()
    &&& forall|i: int|
        0 <= i < pre.layout().len() ==> post.layout().transforms()[i] == job_transform(
            pre.layout().dims(),
            width,
            config,
            i,
        )
    &&& forall|i: int|
        pre.layout().len() <= i < pre.layout().transforms().len() ==> post.layout().transforms()[i]
            == pre.layout().transforms()[i]
    &&& delivered == Some(
        job_extent(pre.layout().dims(), pre.layout().len() as int, width, config) as u64,
    )
}

/// Law (idempotence): for fixed item dimensions, width and configuration,
/// two successive awaited rounds deliver the same extent and leave the same
/// transform on every live item, because a round never changes the item
/// dimensions it computes from.
pub proof fn lemma_round_idempotent(
    s0: MasonryWorker,
    s1: MasonryWorker,
    s2: MasonryWorker,
    d1: Option<u64>,
    d2: Option<u64>,
    width: u16,
    kind: MasonryType,
    thumbnail_size: u16,
    padding: u16,
)
    requires
        round_rel(s0, s1, d1, width, kind, thumbnail_size, padding),
        round_rel(s1, s2, d2, width, kind, thumbnail_size, padding),
    ensures
        d1 == d2,
        s2.layout().transforms() == s1.layout().transforms(),
{
    assert(s2.layout().transforms() =~= s1.layout().transforms());
}

/// Law (sequential determinism): from one starting state, an awaited round
/// with the same request delivers one possible value and one possible set of
/// transforms.
pub proof fn lemma_round_deterministic(
    s: MasonryWorker,
    post1: MasonryWorker,
    post2: MasonryWorker,
    d1: Option<u64>,
    d2: Option<u64>,
    width: u16,
    kind: MasonryType,
    thumbnail_size: u16,
    padding: u16,
)
    requires
        round_rel(s, post1, d1, width, kind, thumbnail_size, padding),
        round_rel(s, post2, d2, width, kind, thumbnail_size, padding),
    ensures
        d1 == d2,
        post1.layout().transforms() == post2.layout().transforms(),
{
    assert(post1.layout().transforms() =~= post2.layout().transforms());
}

/// Law (teardown safety): once the orchestrator is torn down, no worker
/// iteration, no resolution of a completion, no new request and no engine
/// access is enabled — no late result can ever reach the primary side.
pub proof fn lemma_teardown_safety(s: MasonryWorker)
    requires
        s.torn_down(),
    ensures
        !s.worker_step_enabled(),
        !s.settle_enabled(),
        !s.compute_enabled(),
        !s.passthrough_enabled(),
{
}

} // verus!
