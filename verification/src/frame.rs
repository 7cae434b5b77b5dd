//! The frame driver: the per-frame protocol that orders GPU command
//! submission against presentable-image availability.
//!
//! One frame runs: wait on the current slot's fence, acquire an image, wait
//! on whatever fence the image table records for that image, record the new
//! owner, submit gated on the "image acquired" semaphore, present gated on
//! the "render complete" semaphore, then advance the slot cursor. The
//! blocking waits, the acquisition and the queue calls happen outside this
//! crate; the driver decides, for every outcome they report, which handles
//! to wait on and signal, whether the swapchain must be rebuilt, and when
//! the cursor advances.

use vstd::prelude::*;

use crate::swapchain::Extent2D;
use crate::synchronous::RenderSync;

verus! {

/// The handles one frame's submission must be ordered by.
#[derive(Clone, Copy, Debug, PartialEq, Eq, Structural)]
pub struct FramePlan {
    /// The acquired presentable image.
    pub image_index: usize,
    /// The fence recorded for that image by an earlier slot, or 0 when no
    /// submission has used the image yet; must be waited on before
    /// submitting.
    pub prior_image_fence: u64,
    /// The current slot's "image acquired" semaphore the submission waits
    /// on.
    pub wait_semaphore: u64,
    /// The current slot's "render complete" semaphore the submission
    /// signals, and presentation waits on.
    pub signal_semaphore: u64,
    /// The current slot's frame fence the submission signals; it is reset
    /// before the submission is issued.
    pub submit_fence: u64,
}

/// What the acquisition call reported.
#[derive(Clone, Copy, Debug, PartialEq, Eq, Structural)]
pub enum AcquireResult {
    /// An image was acquired.
    Acquired { image_index: usize },
    /// The surface no longer matches the swapchain; rebuild, submit nothing.
    OutOfDate,
    /// Any other acquisition failure: fatal.
    Failure,
}

/// What the driver decides after acquisition.
#[derive(Clone, Copy, Debug, PartialEq, Eq, Structural)]
pub enum AcquireAction {
    /// Wait, submit and present as the plan says.
    Proceed(FramePlan),
    /// Rebuild the swapchain; no submission or present was planned.
    Rebuild,
    /// Unrecoverable; abort the frame loop.
    Fatal,
}

/// What the presentation call reported.
#[derive(Clone, Copy, Debug, PartialEq, Eq, Structural)]
pub enum PresentResult {
    /// Presented, and the swapchain still matches the surface.
    Success,
    /// Presented, but the swapchain no longer matches the surface well.
    Suboptimal,
    /// The surface no longer matches the swapchain.
    OutOfDate,
    /// Any other presentation failure: fatal.
    Failure,
}

/// How one frame ended.
#[derive(Clone, Copy, Debug, PartialEq, Eq, Structural)]
pub enum FrameOutcome {
    /// The frame was submitted and presented; nothing else to do.
    Rendered,
    /// The frame completed but the swapchain must be rebuilt.
    RebuildNeeded,
    /// Unrecoverable; abort the frame loop.
    Fatal,
}

/// The driver's abstract state: the per-slot handle lists, the slot cursor,
/// the per-image fence table, and the window flags.
#[verifier::ext_equal]
pub ghost struct DriverView {
    /// Per slot: the "image acquired" semaphore.
    pub acquire_semaphores: Seq<u64>,
    /// Per slot: the "render complete" semaphore.
    pub submit_semaphores: Seq<u64>,
    /// Per slot: the frame fence.
    pub fences: Seq<u64>,
    /// The current in-flight slot.
    pub cursor: int,
    /// Per presentable image: the fence that last used it, or 0.
    pub table: Seq<u64>,
    /// The sticky flag a resize notification sets.
    pub resized: bool,
    /// Whether the window currently has zero area.
    pub minimized: bool,
}

impl DriverView {
    /// The number of in-flight slots, F.
    pub open spec fn frames(self) -> int {
        self.fences.len() as int
    }

    /// The number of presentable images, N.
    pub open spec fn image_count(self) -> int {
        self.table.len() as int
    }

    /// The invariant: one semaphore pair and one distinct nonzero fence per
    /// slot, the cursor in [0, F), and every table entry either the "none"
    /// sentinel or one of the slot fences.
    pub open spec fn inv(self) -> bool {
        &&& self.acquire_semaphores.len() == self.fences.len()
        &&& self.submit_semaphores.len() == self.fences.len()
        &&& self.fences.len() >= 1
        &&& 0 <= self.cursor < self.frames()
        &&& forall|i: int| 0 <= i < self.fences.len() ==> self.fences[i] != 0
        &&& forall|i: int, j: int|
            0 <= i < j < self.fences.len() ==> self.fences[i] != self.fences[j]
        &&& forall|k: int|
            0 <= k < self.table.len() ==> (self.table[k] == 0 || self.fences.contains(
                #[trigger] self.table[k],
            ))
    }
}

/// A successful acquisition of `image`: the current slot's fence becomes the
/// image's recorded owner; nothing else changes.
pub open spec fn spec_begin(v: DriverView, image: int) -> DriverView
    recommends
        0 <= image < v.table.len(),
{
    DriverView { table: v.table.update(image, v.fences[v.cursor]), ..v }
}

/// The end of a frame: on a fatal presentation failure nothing changes; on
/// every other outcome the cursor advances modulo F and the sticky resize
/// flag is consumed.
pub open spec fn spec_finish(v: DriverView, present: PresentResult) -> DriverView {
    if present is Failure {
        v
    } else {
        DriverView { cursor: (v.cursor + 1) % (v.fences.len() as int), resized: false, ..v }
    }
}

/// A swapchain rebuild: the table is reset to `image_count` "none" entries;
/// the slots, their handles and the cursor persist.
pub open spec fn spec_rebuild(v: DriverView, image_count: nat) -> DriverView {
    DriverView { table: Seq::new(image_count, |k: int| 0u64), resized: false, ..v }
}

/// A resize notification: a zero-area size marks the window minimized; any
/// other size clears that mark and sets the sticky resize flag.
pub open spec fn spec_resize(v: DriverView, window: Extent2D) -> DriverView {
    if window.width == 0 || window.height == 0 {
        DriverView { minimized: true, ..v }
    } else {
        DriverView { minimized: false, resized: true, ..v }
    }
}

/// Everything that can happen to the driver's state.
pub ghost enum DriverEvent {
    /// A successful acquisition of `image`.
    Begin { image: int },
    /// A frame ending with the given presentation outcome.
    Finish { present: PresentResult },
    /// A swapchain rebuild with a new image count.
    Rebuild { image_count: nat },
    /// A resize notification.
    Resize { window: Extent2D },
}

/// One step of the driver's state machine. An out-of-range acquisition
/// never occurs (the presentation engine returns indices below N); it is
/// read as a stutter so that `spec_run` is total.
pub open spec fn spec_step(v: DriverView, e: DriverEvent) -> DriverView {
    match e {
        DriverEvent::Begin { image } => if 0 <= image < v.table.len() {
            spec_begin(v, image)
        } else {
            v
        },
        DriverEvent::Finish { present } => spec_finish(v, present),
        DriverEvent::Rebuild { image_count } => spec_rebuild(v, image_count),
        DriverEvent::Resize { window } => spec_resize(v, window),
    }
}

/// The state after a whole sequence of events.
pub open spec fn spec_run(v: DriverView, events: Seq<DriverEvent>) -> DriverView
    decreases events.len(),
{
    if events.len() == 0 {
        v
    } else {
        spec_run(spec_step(v, events[0]), events.skip(1))
    }
}

/// Each step preserves the invariant, and never touches the slots: F and
/// every per-slot handle persist across acquisitions, frame ends, rebuilds
/// and resizes.
pub proof fn lemma_step_preserves_inv(v: DriverView, e: DriverEvent)
    requires
        v.inv(),
    ensures
        spec_step(v, e).inv(),
        spec_step(v, e).fences == v.fences,
        spec_step(v, e).acquire_semaphores == v.acquire_semaphores,
        spec_step(v, e).submit_semaphores == v.submit_semaphores,
{
    let w = spec_step(v, e);
    match e {
        DriverEvent::Begin { image } => {
            if 0 <= image < v.table.len() {
                assert(v.fences.contains(v.fences[v.cursor]));
                assert(forall|k: int|
                    0 <= k < w.table.len() && k != image ==> w.table[k] == v.table[k]);
            }
        },
        DriverEvent::Finish { present } => {},
        DriverEvent::Rebuild { image_count } => {},
        DriverEvent::Resize { window } => {},
    }
}

/// After any sequence of events from a well-formed state, the invariant
/// still holds — in particular the in-flight cursor is always in [0, F) —
/// and the F in-flight slots are unchanged.
pub proof fn lemma_run_preserves_inv(v: DriverView, events: Seq<DriverEvent>)
    requires
        v.inv(),
    ensures
        spec_run(v, events).inv(),
        0 <= spec_run(v, events).cursor < spec_run(v, events).frames(),
        spec_run(v, events).fences == v.fences,
        spec_run(v, events).acquire_semaphores == v.acquire_semaphores,
        spec_run(v, events).submit_semaphores == v.submit_semaphores,
    decreases events.len(),
{
    if events.len() > 0 {
        lemma_step_preserves_inv(v, events[0]);
        lemma_run_preserves_inv(spec_step(v, events[0]), events.skip(1));
    }
}

/// Rebuilding twice in a row (two resizes before a frame completes) leaves
/// exactly the state one rebuild leaves: N' fresh "none" entries, F and the
/// cursor unchanged.
pub proof fn lemma_rebuild_idempotent(v: DriverView, n1: nat, n2: nat)
    requires
        v.inv(),
    ensures
        spec_rebuild(spec_rebuild(v, n1), n2) == spec_rebuild(v, n2),
        spec_rebuild(v, n2).inv(),
        spec_rebuild(v, n2).fences == v.fences,
        spec_rebuild(v, n2).cursor == v.cursor,
        spec_rebuild(v, n2).table.len() == n2,
        forall|k: int| 0 <= k < n2 ==> spec_rebuild(v, n2).table[k] == 0,
{
    assert(spec_rebuild(spec_rebuild(v, n1), n2) =~= spec_rebuild(v, n2));
}

/// One GPU-facing action of the protocol, in the order the driver instructs
/// the caller to perform them.
pub ghost enum GpuOp {
    /// Block until the fence is signaled.
    WaitFence { fence: u64 },
    /// Submit the command buffer recorded for `image`, signaling `fence` on
    /// completion.
    Submit { image: int, fence: u64 },
    /// Present `image`.
    Present { image: int },
}

/// Whether `op` submits the command buffer of `image`.
pub open spec fn is_submit_to(op: GpuOp, image: int) -> bool {
    op is Submit && op->Submit_image == image
}

/// The actions one successfully completed frame performs from state `v`
/// after acquiring `image`: wait on the current slot's fence; wait on the
/// fence the table records for the image, when one is recorded; submit,
/// signaling the slot's fence; present. This is exactly the order the plan
/// returned by `FrameDriver::handle_acquire` instructs.
pub open spec fn frame_ops(v: DriverView, image: int) -> Seq<GpuOp>
    recommends
        0 <= image < v.table.len(),
{
    seq![GpuOp::WaitFence { fence: v.fences[v.cursor] }] + (if v.table[image] != 0 {
        seq![GpuOp::WaitFence { fence: v.table[image] }]
    } else {
        Seq::<GpuOp>::empty()
    }) + seq![GpuOp::Submit { image, fence: v.fences[v.cursor] }, GpuOp::Present { image }]
}

/// Where the submission stands in `frame_ops`.
pub open spec fn submit_position(v: DriverView, image: int) -> int {
    if v.table[image] != 0 {
        2
    } else {
        1
    }
}

/// The driver state after one successfully completed frame on `image`.
pub open spec fn frame_step(v: DriverView, image: int) -> DriverView {
    spec_finish(spec_begin(v, image), PresentResult::Success)
}

/// Every acquired index is below N.
pub open spec fn valid_images(v: DriverView, images: Seq<int>) -> bool {
    forall|k: int| 0 <= k < images.len() ==> 0 <= #[trigger] images[k] < v.table.len()
}

/// The concatenated actions of a run of successfully completed frames, one
/// per acquired image index.
pub open spec fn run_ops(v: DriverView, images: Seq<int>) -> Seq<GpuOp>
    decreases images.len(),
{
    if images.len() == 0 {
        Seq::<GpuOp>::empty()
    } else {
        frame_ops(v, images[0]) + run_ops(frame_step(v, images[0]), images.skip(1))
    }
}

/// The two models agree: one successfully completed frame is exactly one
/// `Begin` step followed by one `Finish` step with a successful
/// presentation.
pub proof fn lemma_frame_step_is_a_run(v: DriverView, image: int)
    requires
        0 <= image < v.table.len(),
    ensures
        frame_step(v, image) == spec_run(
            v,
            seq![
                DriverEvent::Begin { image },
                DriverEvent::Finish { present: PresentResult::Success },
            ],
        ),
{
    let events = seq![
        DriverEvent::Begin { image },
        DriverEvent::Finish { present: PresentResult::Success },
    ];
    let after_begin = spec_begin(v, image);
    let after_finish = spec_finish(after_begin, PresentResult::Success);
    let tail = events.skip(1);
    assert(spec_step(v, events[0]) == after_begin);
    assert(spec_run(v, events) == spec_run(after_begin, tail));
    assert(tail.len() == 1 && tail[0] == (DriverEvent::Finish {
        present: PresentResult::Success,
    }));
    assert(spec_run(after_begin, tail) == spec_run(after_finish, tail.skip(1)));
    assert(tail.skip(1).len() == 0);
    assert(spec_run(after_finish, tail.skip(1)) == after_finish);
}

/// The shape of one frame's actions: exactly one submission, standing at
/// `submit_position`, carrying the current slot's fence; and when the table
/// records a fence for the image, the wait on that fence stands right
/// before the submission.
pub proof fn lemma_frame_ops_shape(v: DriverView, image: int)
    requires
        v.inv(),
        0 <= image < v.table.len(),
    ensures
        frame_ops(v, image).len() == submit_position(v, image) + 2,
        frame_ops(v, image)[submit_position(v, image)] == (GpuOp::Submit {
            image,
            fence: v.fences[v.cursor],
        }),
        forall|q: int|
            0 <= q < frame_ops(v, image).len() && q != submit_position(v, image) ==> !(
            #[trigger] frame_ops(v, image)[q] is Submit),
        v.table[image] != 0 ==> frame_ops(v, image)[1] == (GpuOp::WaitFence {
            fence: v.table[image],
        }),
{
    let ops = frame_ops(v, image);
    if v.table[image] != 0 {
        assert(ops[0] == (GpuOp::WaitFence { fence: v.fences[v.cursor] }));
        assert(ops[1] == (GpuOp::WaitFence { fence: v.table[image] }));
        assert(ops[2] == (GpuOp::Submit { image, fence: v.fences[v.cursor] }));
        assert(ops[3] == (GpuOp::Present { image }));
    } else {
        assert(ops[0] == (GpuOp::WaitFence { fence: v.fences[v.cursor] }));
        assert(ops[1] == (GpuOp::Submit { image, fence: v.fences[v.cursor] }));
        assert(ops[2] == (GpuOp::Present { image }));
    }
}

/// One completed frame preserves the invariant, keeps the slots and N, and
/// records the current slot's fence as the acquired image's owner while
/// leaving every other image's record alone.
pub proof fn lemma_frame_step_facts(v: DriverView, image: int)
    requires
        v.inv(),
        0 <= image < v.table.len(),
    ensures
        frame_step(v, image).inv(),
        frame_step(v, image).fences == v.fences,
        frame_step(v, image).table.len() == v.table.len(),
        frame_step(v, image).table[image] == v.fences[v.cursor],
        frame_step(v, image).table[image] != 0,
        forall|k: int|
            0 <= k < v.table.len() && k != image ==> frame_step(v, image).table[k] == v.table[k],
{
    assert(spec_step(v, DriverEvent::Begin { image }) == spec_begin(v, image));
    lemma_step_preserves_inv(v, DriverEvent::Begin { image });
    lemma_step_preserves_inv(
        spec_begin(v, image),
        DriverEvent::Finish { present: PresentResult::Success },
    );
}

/// A run's acquired indices stay valid across one completed frame.
proof fn lemma_valid_images_step(v: DriverView, images: Seq<int>)
    requires
        v.inv(),
        valid_images(v, images),
        images.len() > 0,
    ensures
        valid_images(frame_step(v, images[0]), images.skip(1)),
{
    lemma_frame_step_facts(v, images[0]);
    assert forall|k: int| 0 <= k < images.skip(1).len() implies 0 <= #[trigger] images.skip(1)[k]
        < frame_step(v, images[0]).table.len() by {
        assert(images.skip(1)[k] == images[k + 1]);
    }
}

/// The first submission a run makes to an image whose table entry is a
/// recorded fence is preceded by a wait on exactly that fence.
pub proof fn lemma_first_submit_gated(v: DriverView, images: Seq<int>, image: int, p: int)
    requires
        v.inv(),
        valid_images(v, images),
        0 <= image < v.table.len(),
        v.table[image] != 0,
        0 <= p < run_ops(v, images).len(),
        is_submit_to(run_ops(v, images)[p], image),
        forall|q: int| 0 <= q < p ==> !is_submit_to(#[trigger] run_ops(v, images)[q], image),
    ensures
        exists|q: int|
            0 <= q < p && run_ops(v, images)[q] == (GpuOp::WaitFence { fence: v.table[image] }),
    decreases images.len(),
{
    let ops = run_ops(v, images);
    let j0 = images[0];
    let t0 = frame_ops(v, j0);
    let w = frame_step(v, j0);
    let rest = run_ops(w, images.skip(1));
    lemma_frame_ops_shape(v, j0);
    lemma_frame_step_facts(v, j0);
    lemma_valid_images_step(v, images);
    if p < t0.len() {
        assert(ops[p] == t0[p]);
        assert(p == submit_position(v, j0));
        assert(j0 == image);
        assert(submit_position(v, image) == 2);
        assert(ops[1] == t0[1]);
        assert(ops[1] == (GpuOp::WaitFence { fence: v.table[image] }));
    } else {
        let sp = submit_position(v, j0);
        assert(ops[sp] == t0[sp]);
        assert(!is_submit_to(ops[sp], image));
        assert(j0 != image);
        assert(w.table[image] == v.table[image]);
        let pr = p - t0.len();
        assert(ops[p] == rest[pr]);
        assert forall|q: int| 0 <= q < pr implies !is_submit_to(#[trigger] rest[q], image) by {
            assert(rest[q] == ops[q + t0.len()]);
        }
        lemma_first_submit_gated(w, images.skip(1), image, pr);
        let qr = choose|q: int|
            0 <= q < pr && rest[q] == (GpuOp::WaitFence { fence: w.table[image] });
        assert(ops[qr + t0.len()] == rest[qr]);
        assert(0 <= qr + t0.len() < p && ops[qr + t0.len()] == (GpuOp::WaitFence {
            fence: v.table[image],
        }));
    }
}

/// No two submissions overlap on one presentable image: between any two
/// consecutive submissions a run makes to the same image, the protocol
/// waits on the fence the earlier submission signals — so the later command
/// buffer for that image is never submitted while the previously recorded
/// fence for it is unsignaled.
pub proof fn lemma_image_submissions_gated(
    v: DriverView,
    images: Seq<int>,
    image: int,
    p1: int,
    p2: int,
)
    requires
        v.inv(),
        valid_images(v, images),
        0 <= p1 < p2 < run_ops(v, images).len(),
        is_submit_to(run_ops(v, images)[p1], image),
        is_submit_to(run_ops(v, images)[p2], image),
        forall|q: int| p1 < q < p2 ==> !is_submit_to(#[trigger] run_ops(v, images)[q], image),
    ensures
        exists|q: int|
            p1 < q < p2 && run_ops(v, images)[q] == (GpuOp::WaitFence {
                fence: run_ops(v, images)[p1]->Submit_fence,
            }),
    decreases images.len(),
{
    let ops = run_ops(v, images);
    let j0 = images[0];
    let t0 = frame_ops(v, j0);
    let w = frame_step(v, j0);
    let rest = run_ops(w, images.skip(1));
    lemma_frame_ops_shape(v, j0);
    lemma_frame_step_facts(v, j0);
    lemma_valid_images_step(v, images);
    if p2 < t0.len() {
        assert(ops[p1] == t0[p1]);
        assert(ops[p2] == t0[p2]);
        assert(p1 == submit_position(v, j0) && p2 == submit_position(v, j0));
        assert(false);
    } else if p1 >= t0.len() {
        let p1r = p1 - t0.len();
        let p2r = p2 - t0.len();
        assert(ops[p1] == rest[p1r]);
        assert(ops[p2] == rest[p2r]);
        assert forall|q: int| p1r < q < p2r implies !is_submit_to(#[trigger] rest[q], image) by {
            assert(rest[q] == ops[q + t0.len()]);
        }
        lemma_image_submissions_gated(w, images.skip(1), image, p1r, p2r);
        let qr = choose|q: int|
            p1r < q < p2r && rest[q] == (GpuOp::WaitFence { fence: rest[p1r]->Submit_fence });
        assert(ops[qr + t0.len()] == rest[qr]);
        assert(p1 < qr + t0.len() < p2 && ops[qr + t0.len()] == (GpuOp::WaitFence {
            fence: ops[p1]->Submit_fence,
        }));
    } else {
        assert(ops[p1] == t0[p1]);
        assert(p1 == submit_position(v, j0));
        assert(j0 == image);
        assert(ops[p1]->Submit_fence == v.fences[v.cursor]);
        assert(w.table[image] == v.fences[v.cursor]);
        let p2r = p2 - t0.len();
        assert(ops[p2] == rest[p2r]);
        assert forall|q: int| 0 <= q < p2r implies !is_submit_to(#[trigger] rest[q], image) by {
            assert(rest[q] == ops[q + t0.len()]);
            assert(p1 < q + t0.len() < p2);
        }
        lemma_first_submit_gated(w, images.skip(1), image, p2r);
        let qr = choose|q: int|
            0 <= q < p2r && rest[q] == (GpuOp::WaitFence { fence: w.table[image] });
        assert(ops[qr + t0.len()] == rest[qr]);
        assert(p1 < qr + t0.len() < p2 && ops[qr + t0.len()] == (GpuOp::WaitFence {
            fence: ops[p1]->Submit_fence,
        }));
    }
}

/// The driver: the synchronization state plus the sticky window flags.
pub struct FrameDriver {
    /// The per-slot synchronization objects and the per-image fence table.
    pub sync: RenderSync,
    /// Set by a non-zero-area resize; consumed when a frame ends or the
    /// swapchain is rebuilt.
    pub resized: bool,
    /// Set while the window has zero area; frames are suppressed then.
    pub minimized: bool,
}

impl View for FrameDriver {
    type V = DriverView;

    open spec fn view(&self) -> DriverView {
        DriverView {
            acquire_semaphores: self.sync.image_available@,
            submit_semaphores: self.sync.render_completed@,
            fences: self.sync.in_flight@,
            cursor: self.sync.frame as int,
            table: self.sync.images_in_flight@,
            resized: self.resized,
            minimized: self.minimized,
        }
    }
}

impl FrameDriver {
    /// Well-formedness: the synchronization state is well-formed.
    pub open spec fn wf(&self) -> bool {
        self.sync.wf()
    }

    /// Starts the driver over freshly built synchronization state, with no
    /// resize pending and the window assumed visible.
    pub fn new(sync: RenderSync) -> (r: Self)
        requires
            sync.wf(),
        ensures
            r.wf(),
            r@.inv(),
            r.sync == sync,
            !r.resized,
            !r.minimized,
    {
        FrameDriver { sync, resized: false, minimized: false }
    }

    /// The fence the frame must wait on before anything else: the current
    /// slot's frame fence, signaled when the GPU finished the frame that
    /// last used this slot.
    pub fn frame_fence(&self) -> (r: u64)
        requires
            self.wf(),
        ensures
            r == self@.fences[self@.cursor],
            r != 0,
    {
        self.sync.get_in_flight_fence()
    }

    /// Whether a frame should run at all: a minimized (zero-area) window
    /// suppresses frame submission entirely.
    pub fn should_render(&self) -> (r: bool)
        ensures
            r == !self.minimized,
    {
        !self.minimized
    }

    /// Takes a resize notification.
    pub fn on_resize(&mut self, window: Extent2D)
        ensures
            final(self)@ == spec_resize(old(self)@, window),
            final(self).sync == old(self).sync,
            old(self).wf() ==> final(self).wf(),
    {
        if window.width == 0 || window.height == 0 {
            self.minimized = true;
        } else {
            self.minimized = false;
            self.resized = true;
        }
    }

    /// Decides what follows acquisition. On success the current slot's
    /// fence is recorded as the acquired image's owner and the plan names,
    /// in order: the fence previously recorded for that image (to be waited
    /// on first when it is not the "none" sentinel), and the current slot's
    /// semaphore pair and fence for the submission. On an out-of-date
    /// surface nothing is planned and nothing changes — in particular the
    /// cursor — and the swapchain must be rebuilt. Any other failure is
    /// fatal and changes nothing.
    pub fn handle_acquire(&mut self, acquired: AcquireResult) -> (a: AcquireAction)
        requires
            old(self).wf(),
            acquired matches AcquireResult::Acquired { image_index } ==> image_index < old(
                self,
            ).sync.images_in_flight@.len(),
        ensures
            final(self).wf(),
            acquired matches AcquireResult::Acquired { image_index } ==> {
                &&& final(self)@ == spec_begin(old(self)@, image_index as int)
                &&& a matches AcquireAction::Proceed(plan)
                &&& plan.image_index == image_index
                &&& plan.prior_image_fence == old(self)@.table[image_index as int]
                &&& plan.wait_semaphore == old(self)@.acquire_semaphores[old(self)@.cursor]
                &&& plan.signal_semaphore == old(self)@.submit_semaphores[old(self)@.cursor]
                &&& plan.submit_fence == old(self)@.fences[old(self)@.cursor]
            },
            acquired is OutOfDate ==> *final(self) == *old(self) && a is Rebuild,
            acquired is Failure ==> *final(self) == *old(self) && a is Fatal,
    {
        match acquired {
            AcquireResult::Acquired { image_index } => {
                let prior_image_fence = self.sync.images_in_flight[image_index];
                let wait_semaphore = self.sync.get_image_available();
                let signal_semaphore = self.sync.get_render_completed();
                let submit_fence = self.sync.get_in_flight_fence();
                self.sync.update_image_in_flight(image_index);
                assert(self@ =~= spec_begin(old(self)@, image_index as int));
                AcquireAction::Proceed(
                    FramePlan {
                        image_index,
                        prior_image_fence,
                        wait_semaphore,
                        signal_semaphore,
                        submit_fence,
                    },
                )
            },
            AcquireResult::OutOfDate => AcquireAction::Rebuild,
            AcquireResult::Failure => AcquireAction::Fatal,
        }
    }

    /// Ends a frame once presentation reported its outcome. A fatal failure
    /// changes nothing and aborts the loop. On every other outcome the
    /// cursor advances exactly once, the sticky resize flag is consumed,
    /// and a rebuild is ordered exactly when that flag was set or
    /// presentation reported a suboptimal or out-of-date surface.
    pub fn finish_frame(&mut self, present: PresentResult) -> (o: FrameOutcome)
        requires
            old(self).wf(),
        ensures
            final(self).wf(),
            final(self)@ == spec_finish(old(self)@, present),
            o is Fatal <==> present is Failure,
            o is RebuildNeeded <==> !(present is Failure) && (old(self).resized || present
                is Suboptimal || present is OutOfDate),
            o is Rendered <==> present is Success && !old(self).resized,
    {
        match present {
            PresentResult::Failure => FrameOutcome::Fatal,
            _ => {
                let rebuild_needed = self.resized || matches!(present, PresentResult::Suboptimal)
                    || matches!(present, PresentResult::OutOfDate);
                self.resized = false;
                self.sync.increment_frame();
                if rebuild_needed {
                    FrameOutcome::RebuildNeeded
                } else {
                    FrameOutcome::Rendered
                }
            },
        }
    }

    /// Rebuilds the driver's view of the swapchain after the caller has
    /// drained the device and recreated the image chain: the ownership
    /// table is reset to `image_count` "none" entries, the resize flag is
    /// consumed, and the F in-flight slots and the cursor persist.
    pub fn rebuild(&mut self, image_count: usize)
        requires
            old(self).wf(),
        ensures
            final(self).wf(),
            final(self)@ == spec_rebuild(old(self)@, image_count as nat),
    {
        self.sync.reset_images_in_flight(image_count);
        self.resized = false;
        assert(self@ =~= spec_rebuild(old(self)@, image_count as nat));
    }
}

} // verus!
