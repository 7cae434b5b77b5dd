//! Per-frame synchronization state: the in-flight slot cursor, each slot's
//! semaphore pair and fence, and the table recording which fence last used
//! each presentable image.
//!
//! Semaphores and fences are created and waited on outside this crate; here
//! they are raw nonzero handles. The handle `0` is the "none" sentinel in
//! the image table, marking an image no submission has used yet.

use vstd::prelude::*;

verus! {

/// The fixed number of in-flight frames a renderer conventionally runs with.
pub const MAX_FRAMES_IN_FLIGHT: usize = 2;

/// Synchronization objects for F in-flight slots plus the per-image
/// ownership table for N presentable images; F is fixed at construction and
/// independent of N.
pub struct RenderSync {
    /// Per slot: the semaphore signaled when an image is acquired.
    pub image_available: Vec<u64>,
    /// Per slot: the semaphore signaled when rendering completes.
    pub render_completed: Vec<u64>,
    /// Per slot: the fence signaled when the slot's frame completes.
    pub in_flight: Vec<u64>,
    /// Per presentable image: the fence of the slot that last used it, or 0.
    pub images_in_flight: Vec<u64>,
    /// The current in-flight slot, always below the slot count.
    pub frame: usize,
}

impl RenderSync {
    /// Well-formedness: one semaphore pair and one distinct nonzero fence
    /// per slot, the cursor in range, and every image-table entry either the
    /// "none" sentinel or one of the slot fences.
    pub open spec fn wf(&self) -> bool {
        &&& self.image_available@.len() == self.in_flight@.len()
        &&& self.render_completed@.len() == self.in_flight@.len()
        &&& self.in_flight@.len() >= 1
        &&& self.frame < self.in_flight@.len()
        &&& forall|i: int| 0 <= i < self.in_flight@.len() ==> self.in_flight@[i] != 0
        &&& forall|i: int, j: int|
            0 <= i < j < self.in_flight@.len() ==> self.in_flight@[i] != self.in_flight@[j]
        &&& forall|k: int|
            0 <= k < self.images_in_flight@.len() ==> (self.images_in_flight@[k] == 0
                || self.in_flight@.contains(#[trigger] self.images_in_flight@[k]))
    }

    /// The number of in-flight slots, F.
    pub open spec fn spec_max_frames(&self) -> nat {
        self.in_flight@.len()
    }

    /// Builds the synchronization state over handles created by the caller:
    /// one semaphore pair and one fence per slot (the fences pre-signaled,
    /// so the first wait on each slot does not block), with every one of the
    /// `image_count` image-table entries set to the "none" sentinel.
    pub fn new(
        image_available: Vec<u64>,
        render_completed: Vec<u64>,
        in_flight: Vec<u64>,
        image_count: usize,
    ) -> (r: Self)
        requires
            image_available@.len() == in_flight@.len(),
            render_completed@.len() == in_flight@.len(),
            in_flight@.len() >= 1,
            forall|i: int| 0 <= i < in_flight@.len() ==> in_flight@[i] != 0,
            forall|i: int, j: int|
                0 <= i < j < in_flight@.len() ==> in_flight@[i] != in_flight@[j],
        ensures
            r.wf(),
            r.image_available@ == image_available@,
            r.render_completed@ == render_completed@,
            r.in_flight@ == in_flight@,
            r.images_in_flight@ == Seq::new(image_count as nat, |k: int| 0u64),
            r.frame == 0,
    {
        let images_in_flight = none_sentinels(image_count);
        RenderSync { image_available, render_completed, in_flight, images_in_flight, frame: 0 }
    }

    /// The number of in-flight slots, F.
    pub fn max_frames_in_flight(&self) -> (r: usize)
        ensures
            r == self.spec_max_frames(),
    {
        self.in_flight.len()
    }

    /// The number of presentable images the table currently covers, N.
    pub fn image_count(&self) -> (r: usize)
        ensures
            r == self.images_in_flight@.len(),
    {
        self.images_in_flight.len()
    }

    /// The current slot's cursor value.
    pub fn current_frame(&self) -> (r: usize)
        ensures
            r == self.frame,
    {
        self.frame
    }

    /// The current slot's "image acquired" semaphore.
    pub fn get_image_available(&self) -> (r: u64)
        requires
            self.wf(),
        ensures
            r == self.image_available@[self.frame as int],
    {
        self.image_available[self.frame]
    }

    /// The current slot's "render complete" semaphore.
    pub fn get_render_completed(&self) -> (r: u64)
        requires
            self.wf(),
        ensures
            r == self.render_completed@[self.frame as int],
    {
        self.render_completed[self.frame]
    }

    /// The current slot's frame fence.
    pub fn get_in_flight_fence(&self) -> (r: u64)
        requires
            self.wf(),
        ensures
            r == self.in_flight@[self.frame as int],
            r != 0,
    {
        self.in_flight[self.frame]
    }

    /// Advances the cursor to the next slot, wrapping modulo F; everything
    /// else is untouched.
    pub fn increment_frame(&mut self)
        requires
            old(self).wf(),
        ensures
            final(self).wf(),
            final(self).frame == (old(self).frame + 1) % (old(self).spec_max_frames() as int),
            final(self).image_available@ == old(self).image_available@,
            final(self).render_completed@ == old(self).render_completed@,
            final(self).in_flight@ == old(self).in_flight@,
            final(self).images_in_flight@ == old(self).images_in_flight@,
    {
        assert(self.frame < self.in_flight@.len());
        let count = self.in_flight.len();
        self.frame = (self.frame + 1) % count;
    }

    /// Records that the current slot's fence now owns presentable image
    /// `index`; everything else is untouched.
    pub fn update_image_in_flight(&mut self, index: usize)
        requires
            old(self).wf(),
            index < old(self).images_in_flight@.len(),
        ensures
            final(self).wf(),
            final(self).images_in_flight@ == old(self).images_in_flight@.update(
                index as int,
                old(self).in_flight@[old(self).frame as int],
            ),
            final(self).image_available@ == old(self).image_available@,
            final(self).render_completed@ == old(self).render_completed@,
            final(self).in_flight@ == old(self).in_flight@,
            final(self).frame == old(self).frame,
    {
        let fence = self.in_flight[self.frame];
        self.images_in_flight.set(index, fence);
        assert(self.in_flight@.contains(fence));
    }

    /// Resets the ownership table for a rebuilt swapchain of `image_count`
    /// images: every entry returns to the "none" sentinel, while the slots,
    /// their handles and the cursor persist.
    pub fn reset_images_in_flight(&mut self, image_count: usize)
        requires
            old(self).wf(),
        ensures
            final(self).wf(),
            final(self).images_in_flight@ == Seq::new(image_count as nat, |k: int| 0u64),
            final(self).image_available@ == old(self).image_available@,
            final(self).render_completed@ == old(self).render_completed@,
            final(self).in_flight@ == old(self).in_flight@,
            final(self).frame == old(self).frame,
    {
        self.images_in_flight = none_sentinels(image_count);
    }
}

/// A table of `count` "none" sentinels.
fn none_sentinels(count: usize) -> (r: Vec<u64>)
    ensures
        r@ == Seq::new(count as nat, |k: int| 0u64),
{
    let mut table: Vec<u64> = Vec::new();
    let mut i: usize = 0;
    while i < count
        invariant
            0 <= i <= count,
            table@ =~= Seq::new(i as nat, |k: int| 0u64),
        decreases count - i,
    {
        table.push(0);
        i = i + 1;
    }
    assert(table@ =~= Seq::new(count as nat, |k: int| 0u64));
    table
}

} // verus!
