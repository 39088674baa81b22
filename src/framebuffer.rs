//! Frame resources: per swap image a framebuffer, an image view, a command pool
//! with its reusable command buffers and an in-flight fence; per frame slot an
//! acquire and a present semaphore.
//!
//! Slots and images are two independent index spaces: the slot is chosen before
//! the image index is known, because the acquire semaphore is handed to the
//! acquisition itself.

use vstd::prelude::*;

verus! {

/// The reusable command-buffer lists after the last buffer of list `i` is taken,
/// and the buffer taken, if the list held any.
pub open spec fn take_buffer_spec<C>(lists: Seq<Seq<C>>, i: int) -> (Option<C>, Seq<Seq<C>>) {
    if lists[i].len() == 0 {
        (None, lists)
    } else {
        (Some(lists[i].last()), lists.update(i, lists[i].drop_last()))
    }
}

/// The reusable command-buffer lists after `buffer` is put back on list `i`.
pub open spec fn return_buffer_spec<C>(lists: Seq<Seq<C>>, i: int, buffer: C) -> Seq<Seq<C>> {
    lists.update(i, lists[i].push(buffer))
}

/// One more at index `i`.
pub open spec fn bump(counts: Seq<nat>, i: int) -> Seq<nat> {
    counts.update(i, counts[i] + 1)
}

/// The slot after `slot` in a ring of `n`.
pub open spec fn next_slot(slot: nat, n: nat) -> nat {
    ((slot + 1) as int % (n as int)) as nat
}

/// The handles of a frame resource pool, given back for destruction or reuse.
pub struct FrameResourceParts<Fb, View, Pool, Cb, Fence, Sem> {
    pub framebuffers: Vec<Fb>,
    pub image_views: Vec<View>,
    pub command_pools: Vec<Pool>,
    pub command_buffer_lists: Vec<Vec<Cb>>,
    pub in_flight_fences: Vec<Fence>,
    pub acquire_semaphores: Vec<Sem>,
    pub present_semaphores: Vec<Sem>,
}

/// The frame resources of one swapchain. The type parameters are the handle
/// types of the device: framebuffer, image view, command pool, command buffer,
/// fence and semaphore.
pub struct FramebufferState<Fb, View, Pool, Cb, Fence, Sem> {
    framebuffers: Vec<Fb>,
    image_views: Vec<View>,
    command_pools: Vec<Pool>,
    command_buffer_lists: Vec<Vec<Cb>>,
    in_flight_fences: Vec<Fence>,
    acquire_semaphores: Vec<Sem>,
    present_semaphores: Vec<Sem>,
    /// Whether a submission guarded by the image's fence may still be executing.
    in_flight: Vec<bool>,
    number_of_frames: usize,
    next_semaphore_index: usize,
    fence_waits: Ghost<Seq<nat>>,
    fence_resets: Ghost<Seq<nat>>,
}

impl<Fb, View, Pool, Cb, Fence, Sem> FramebufferState<Fb, View, Pool, Cb, Fence, Sem> {
    /// Number of swap images, and of frame slots.
    pub closed spec fn spec_frames(&self) -> nat {
        self.number_of_frames as nat
    }

    /// The slot that the next frame uses.
    pub closed spec fn spec_next_slot(&self) -> nat {
        self.next_semaphore_index as nat
    }

    pub closed spec fn spec_framebuffers(&self) -> Seq<Fb> {
        self.framebuffers@
    }

    pub closed spec fn spec_image_views(&self) -> Seq<View> {
        self.image_views@
    }

    pub closed spec fn spec_command_pools(&self) -> Seq<Pool> {
        self.command_pools@
    }

    pub closed spec fn spec_fences(&self) -> Seq<Fence> {
        self.in_flight_fences@
    }

    pub closed spec fn spec_acquire_semaphores(&self) -> Seq<Sem> {
        self.acquire_semaphores@
    }

    pub closed spec fn spec_present_semaphores(&self) -> Seq<Sem> {
        self.present_semaphores@
    }

    /// The reusable command buffers of each image.
    pub closed spec fn spec_command_buffers(&self) -> Seq<Seq<Cb>> {
        self.command_buffer_lists@.map_values(|l: Vec<Cb>| l@)
    }

    /// For each image, whether work guarded by its fence may still be executing.
    pub closed spec fn spec_in_flight(&self) -> Seq<bool> {
        self.in_flight@
    }

    /// For each image, how many fence waits have been asked for: one per
    /// `reclaim_image`, after which the caller must wait on the fence.
    pub closed spec fn spec_fence_waits(&self) -> Seq<nat> {
        self.fence_waits@
    }

    /// For each image, how many fence resets have been asked for: one per
    /// `reclaim_image`, after which the caller must reset the fence once the
    /// wait has returned.
    pub closed spec fn spec_fence_resets(&self) -> Seq<nat> {
        self.fence_resets@
    }

    /// Every per-image and per-slot list has one entry for each of the
    /// (at least one) images, and the next slot is one of them.
    pub open spec fn wf(&self) -> bool {
        let n = self.spec_frames();
        &&& n > 0
        &&& self.spec_framebuffers().len() == n
        &&& self.spec_image_views().len() == n
        &&& self.spec_command_pools().len() == n
        &&& self.spec_command_buffers().len() == n
        &&& self.spec_fences().len() == n
        &&& self.spec_acquire_semaphores().len() == n
        &&& self.spec_present_semaphores().len() == n
        &&& self.spec_in_flight().len() == n
        &&& self.spec_fence_waits().len() == n
        &&& self.spec_fence_resets().len() == n
        &&& self.spec_next_slot() < n
    }

    /// Nothing but the bookkeeping of the image's fence and buffers changed.
    pub open spec fn same_handles(&self, other: &Self) -> bool {
        &&& other.spec_frames() == self.spec_frames()
        &&& other.spec_framebuffers() == self.spec_framebuffers()
        &&& other.spec_image_views() == self.spec_image_views()
        &&& other.spec_command_pools() == self.spec_command_pools()
        &&& other.spec_fences() == self.spec_fences()
        &&& other.spec_acquire_semaphores() == self.spec_acquire_semaphores()
        &&& other.spec_present_semaphores() == self.spec_present_semaphores()
    }

    /// Builds the pool from one image view, framebuffer, fence (created signaled),
    /// acquire semaphore, present semaphore and command pool per swap image. Every
    /// reusable command-buffer list starts empty and the first slot is zero.
    pub fn new(
        image_views: Vec<View>,
        framebuffers: Vec<Fb>,
        in_flight_fences: Vec<Fence>,
        acquire_semaphores: Vec<Sem>,
        present_semaphores: Vec<Sem>,
        command_pools: Vec<Pool>,
    ) -> (r: Self)
        requires
            image_views@.len() > 0,
            framebuffers@.len() == image_views@.len(),
            in_flight_fences@.len() == image_views@.len(),
            acquire_semaphores@.len() == image_views@.len(),
            present_semaphores@.len() == image_views@.len(),
            command_pools@.len() == image_views@.len(),
        ensures
            r.wf(),
            r.spec_frames() == image_views@.len(),
            r.spec_next_slot() == 0,
            r.spec_image_views() == image_views@,
            r.spec_framebuffers() == framebuffers@,
            r.spec_fences() == in_flight_fences@,
            r.spec_acquire_semaphores() == acquire_semaphores@,
            r.spec_present_semaphores() == present_semaphores@,
            r.spec_command_pools() == command_pools@,
            forall|i: int| 0 <= i < r.spec_frames() ==> (#[trigger] r.spec_command_buffers()[i]).len() == 0,
            forall|i: int| 0 <= i < r.spec_frames() ==> !(#[trigger] r.spec_in_flight()[i]),
            forall|i: int| 0 <= i < r.spec_frames() ==> (#[trigger] r.spec_fence_waits()[i]) == 0,
            forall|i: int| 0 <= i < r.spec_frames() ==> (#[trigger] r.spec_fence_resets()[i]) == 0,
    {
        let number_of_frames = image_views.len();
        let mut command_buffer_lists: Vec<Vec<Cb>> = Vec::new();
        let mut in_flight: Vec<bool> = Vec::new();
        let mut k: usize = 0;
        while k < number_of_frames
            invariant
                k <= number_of_frames,
                command_buffer_lists@.len() == k,
                in_flight@.len() == k,
                forall|i: int| 0 <= i < k ==> (#[trigger] command_buffer_lists@[i])@.len() == 0,
                forall|i: int| 0 <= i < k ==> !(#[trigger] in_flight@[i]),
            decreases number_of_frames - k,
        {
            command_buffer_lists.push(Vec::new());
            in_flight.push(false);
            k = k + 1;
        }
        FramebufferState {
            framebuffers,
            image_views,
            command_pools,
            command_buffer_lists,
            in_flight_fences,
            acquire_semaphores,
            present_semaphores,
            in_flight,
            number_of_frames,
            next_semaphore_index: 0,
            fence_waits: Ghost(Seq::new(number_of_frames as nat, |i: int| 0nat)),
            fence_resets: Ghost(Seq::new(number_of_frames as nat, |i: int| 0nat)),
        }
    }

    /// Returns the number of swap images, which is also the number of slots.
    pub fn number_of_frames(&self) -> (r: usize)
        ensures
            r == self.spec_frames(),
    {
        self.number_of_frames
    }

    /// Returns the slot that the next frame uses.
    pub fn next_semaphore_index(&self) -> (r: usize)
        ensures
            r == self.spec_next_slot(),
    {
        self.next_semaphore_index
    }

    /// Returns whether work guarded by the swap image's fence may still be executing.
    pub fn is_in_flight(&self, swap_image_index: usize) -> (r: bool)
        requires
            self.wf(),
            swap_image_index < self.spec_frames(),
        ensures
            r == self.spec_in_flight()[swap_image_index as int],
    {
        self.in_flight[swap_image_index]
    }

    /// Returns the current slot and moves on to the next one, round robin.
    pub fn advance_semaphore_index(&mut self) -> (r: usize)
        requires
            old(self).wf(),
        ensures
            final(self).wf(),
            r == old(self).spec_next_slot(),
            r < old(self).spec_frames(),
            final(self).spec_next_slot() == next_slot(old(self).spec_next_slot(), old(self).spec_frames()),
            old(self).same_handles(&*final(self)),
            final(self).spec_command_buffers() == old(self).spec_command_buffers(),
            final(self).spec_in_flight() == old(self).spec_in_flight(),
            final(self).spec_fence_waits() == old(self).spec_fence_waits(),
            final(self).spec_fence_resets() == old(self).spec_fence_resets(),
    {
        let current_semaphore_index = self.next_semaphore_index;
        self.next_semaphore_index = (self.next_semaphore_index + 1) % self.number_of_frames;
        current_semaphore_index
    }

    /// Returns the framebuffer of the swap image.
    pub fn framebuffer(&self, swap_image_index: usize) -> (r: &Fb)
        requires
            self.wf(),
            swap_image_index < self.spec_frames(),
        ensures
            *r == self.spec_framebuffers()[swap_image_index as int],
    {
        &self.framebuffers[swap_image_index]
    }

    /// Returns the in-flight fence of the swap image.
    pub fn in_flight_fence(&self, swap_image_index: usize) -> (r: &Fence)
        requires
            self.wf(),
            swap_image_index < self.spec_frames(),
        ensures
            *r == self.spec_fences()[swap_image_index as int],
    {
        &self.in_flight_fences[swap_image_index]
    }

    /// Returns the acquire semaphore of the slot.
    pub fn acquire_semaphore(&self, semaphore_index: usize) -> (r: &Sem)
        requires
            self.wf(),
            semaphore_index < self.spec_frames(),
        ensures
            *r == self.spec_acquire_semaphores()[semaphore_index as int],
    {
        &self.acquire_semaphores[semaphore_index]
    }

    /// Returns the present semaphore of the slot.
    pub fn present_semaphore(&self, semaphore_index: usize) -> (r: &Sem)
        requires
            self.wf(),
            semaphore_index < self.spec_frames(),
        ensures
            *r == self.spec_present_semaphores()[semaphore_index as int],
    {
        &self.present_semaphores[semaphore_index]
    }

    /// Returns the reusable command buffers of the swap image.
    pub fn command_buffers(&self, swap_image_index: usize) -> (r: &Vec<Cb>)
        requires
            self.wf(),
            swap_image_index < self.spec_frames(),
        ensures
            r@ == self.spec_command_buffers()[swap_image_index as int],
    {
        &self.command_buffer_lists[swap_image_index]
    }

    /// Returns the command pool of the swap image, to be reset or allocated from.
    pub fn command_pool_mut(&mut self, swap_image_index: usize) -> (r: &mut Pool)
        requires
            old(self).wf(),
            swap_image_index < old(self).spec_frames(),
        ensures
            *r == old(self).spec_command_pools()[swap_image_index as int],
            final(self).wf(),
            final(self).spec_command_pools() == old(self).spec_command_pools().update(
                swap_image_index as int,
                *final(r),
            ),
            final(self).spec_frames() == old(self).spec_frames(),
            final(self).spec_next_slot() == old(self).spec_next_slot(),
            final(self).spec_framebuffers() == old(self).spec_framebuffers(),
            final(self).spec_image_views() == old(self).spec_image_views(),
            final(self).spec_fences() == old(self).spec_fences(),
            final(self).spec_acquire_semaphores() == old(self).spec_acquire_semaphores(),
            final(self).spec_present_semaphores() == old(self).spec_present_semaphores(),
            final(self).spec_command_buffers() == old(self).spec_command_buffers(),
            final(self).spec_in_flight() == old(self).spec_in_flight(),
            final(self).spec_fence_waits() == old(self).spec_fence_waits(),
            final(self).spec_fence_resets() == old(self).spec_fence_resets(),
    {
        &mut self.command_pools[swap_image_index]
    }

    /// Claims the swap image's resources for a new frame and hands out the last
    /// reusable command buffer of the image, if any. The claim counts one fence
    /// wait and one fence reset for the image and marks it as no longer in
    /// flight: the caller must wait on the image's fence, with no time limit, and
    /// then reset it, before it records into the buffer or resets the image's
    /// command pool.
    pub fn reclaim_image(&mut self, swap_image_index: usize) -> (r: Option<Cb>)
        requires
            old(self).wf(),
            swap_image_index < old(self).spec_frames(),
        ensures
            final(self).wf(),
            old(self).same_handles(&*final(self)),
            final(self).spec_next_slot() == old(self).spec_next_slot(),
            (r, final(self).spec_command_buffers()) == take_buffer_spec(
                old(self).spec_command_buffers(),
                swap_image_index as int,
            ),
            final(self).spec_in_flight() == old(self).spec_in_flight().update(
                swap_image_index as int,
                false,
            ),
            final(self).spec_fence_waits() == bump(old(self).spec_fence_waits(), swap_image_index as int),
            final(self).spec_fence_resets() == bump(old(self).spec_fence_resets(), swap_image_index as int),
    {
        let i = swap_image_index;
        self.in_flight.set(i, false);
        proof {
            self.fence_waits@ = bump(self.fence_waits@, i as int);
            self.fence_resets@ = bump(self.fence_resets@, i as int);
        }
        let ghost before = self.command_buffer_lists@;
        let r = self.command_buffer_lists[i].pop();
        proof {
            let lists = before.map_values(|l: Vec<Cb>| l@);
            assert(self.command_buffer_lists@ == before.update(i as int, self.command_buffer_lists@[i as int]));
            if lists[i as int].len() == 0 {
                assert(self.spec_command_buffers() =~= lists);
            } else {
                assert(self.spec_command_buffers() =~= lists.update(i as int, lists[i as int].drop_last()));
            }
        }
        r
    }

    /// Records that the command buffer was submitted for the swap image, with the
    /// image's fence to be signaled on completion, and puts the buffer back on the
    /// image's reusable list.
    pub fn submitted(&mut self, swap_image_index: usize, command_buffer: Cb)
        requires
            old(self).wf(),
            swap_image_index < old(self).spec_frames(),
        ensures
            final(self).wf(),
            old(self).same_handles(&*final(self)),
            final(self).spec_next_slot() == old(self).spec_next_slot(),
            final(self).spec_command_buffers() == return_buffer_spec(
                old(self).spec_command_buffers(),
                swap_image_index as int,
                command_buffer,
            ),
            final(self).spec_in_flight() == old(self).spec_in_flight().update(
                swap_image_index as int,
                true,
            ),
            final(self).spec_fence_waits() == old(self).spec_fence_waits(),
            final(self).spec_fence_resets() == old(self).spec_fence_resets(),
    {
        let i = swap_image_index;
        self.in_flight.set(i, true);
        let ghost before = self.command_buffer_lists@;
        self.command_buffer_lists[i].push(command_buffer);
        proof {
            let lists = before.map_values(|l: Vec<Cb>| l@);
            assert(self.command_buffer_lists@ == before.update(i as int, self.command_buffer_lists@[i as int]));
            assert(self.spec_command_buffers() =~= return_buffer_spec(lists, i as int, command_buffer));
        }
    }

    /// Gives up the pool, handing back every handle for destruction or reuse.
    pub fn into_parts(self) -> (r: FrameResourceParts<Fb, View, Pool, Cb, Fence, Sem>)
        ensures
            r.framebuffers@ == self.spec_framebuffers(),
            r.image_views@ == self.spec_image_views(),
            r.command_pools@ == self.spec_command_pools(),
            r.command_buffer_lists@.map_values(|l: Vec<Cb>| l@) == self.spec_command_buffers(),
            r.in_flight_fences@ == self.spec_fences(),
            r.acquire_semaphores@ == self.spec_acquire_semaphores(),
            r.present_semaphores@ == self.spec_present_semaphores(),
    {
        FrameResourceParts {
            framebuffers: self.framebuffers,
            image_views: self.image_views,
            command_pools: self.command_pools,
            command_buffer_lists: self.command_buffer_lists,
            in_flight_fences: self.in_flight_fences,
            acquire_semaphores: self.acquire_semaphores,
            present_semaphores: self.present_semaphores,
        }
    }
}

/// A kind of device resource that teardown destroys.
#[derive(Clone, Copy, Debug, PartialEq, Eq, Structural)]
pub enum ResourceKind {
    Fence,
    CommandPool,
    AcquireSemaphore,
    PresentSemaphore,
    Framebuffer,
    ImageView,
}

/// One step of tearing resources down, in the order the steps are to be taken.
#[derive(Clone, Copy, Debug, PartialEq, Eq, Structural)]
pub enum TeardownStep {
    /// Wait until the device has finished all submitted work.
    WaitDeviceIdle,
    /// Wait, with no time limit, on the in-flight fence of the image. A failed
    /// wait is fatal: nothing can safely be destroyed afterwards.
    WaitFence(usize),
    /// Destroy the resource of the given kind at the given index; for a command
    /// pool, its command buffers are freed first.
    Destroy(ResourceKind, usize),
    DestroyRenderPass,
    DestroySwapchain,
}

impl TeardownStep {
    /// The step destroys something.
    pub open spec fn is_destroy(&self) -> bool {
        ||| self is Destroy
        ||| self is DestroyRenderPass
        ||| self is DestroySwapchain
    }
}

/// A wait on each of the `n` fences, in order.
pub open spec fn fence_waits_spec(n: nat) -> Seq<TeardownStep> {
    Seq::new(n, |i: int| TeardownStep::WaitFence(i as usize))
}

/// The destruction of each of the `n` resources of a kind, in order.
pub open spec fn destroys_spec(kind: ResourceKind, n: nat) -> Seq<TeardownStep> {
    Seq::new(n, |i: int| TeardownStep::Destroy(kind, i as usize))
}

/// The teardown of a frame resource pool of `n` images: wait on every fence,
/// then destroy every fence, every command pool (its buffers freed first), every
/// semaphore unless they are kept for reuse, every framebuffer and every image
/// view. The images belong to the swapchain and are not destroyed here.
pub open spec fn pool_teardown_spec(n: nat, keep_semaphores: bool) -> Seq<TeardownStep> {
    fence_waits_spec(n) + pool_destroys_spec(n, keep_semaphores)
}

/// What the teardown of a frame resource pool destroys once every fence has
/// been waited on, in order.
pub open spec fn pool_destroys_spec(n: nat, keep_semaphores: bool) -> Seq<TeardownStep> {
    destroys_spec(ResourceKind::Fence, n) + destroys_spec(
        ResourceKind::CommandPool,
        n,
    ) + (if keep_semaphores {
        Seq::empty()
    } else {
        destroys_spec(ResourceKind::AcquireSemaphore, n) + destroys_spec(
            ResourceKind::PresentSemaphore,
            n,
        )
    }) + destroys_spec(ResourceKind::Framebuffer, n) + destroys_spec(ResourceKind::ImageView, n)
}

/// Appends a wait on each of the `n` fences.
fn push_fence_waits(plan: &mut Vec<TeardownStep>, n: usize)
    ensures
        final(plan)@ == old(plan)@ + fence_waits_spec(n as nat),
{
    let ghost start = plan@;
    let mut i: usize = 0;
    while i < n
        invariant
            i <= n,
            plan@ == start + fence_waits_spec(i as nat),
        decreases n - i,
    {
        plan.push(TeardownStep::WaitFence(i));
        i = i + 1;
        assert(plan@ =~= start + fence_waits_spec(i as nat));
    }
}

/// Appends the destruction of each of the `n` resources of a kind.
fn push_destroys(plan: &mut Vec<TeardownStep>, kind: ResourceKind, n: usize)
    ensures
        final(plan)@ == old(plan)@ + destroys_spec(kind, n as nat),
{
    let ghost start = plan@;
    let mut i: usize = 0;
    while i < n
        invariant
            i <= n,
            plan@ == start + destroys_spec(kind, i as nat),
        decreases n - i,
    {
        plan.push(TeardownStep::Destroy(kind, i));
        i = i + 1;
        assert(plan@ =~= start + destroys_spec(kind, i as nat));
    }
}

/// Appends the teardown of a frame resource pool of `n` images.
pub fn push_pool_teardown(plan: &mut Vec<TeardownStep>, n: usize, keep_semaphores: bool)
    ensures
        final(plan)@ == old(plan)@ + pool_teardown_spec(n as nat, keep_semaphores),
{
    let ghost start = plan@;
    push_fence_waits(plan, n);
    push_destroys(plan, ResourceKind::Fence, n);
    push_destroys(plan, ResourceKind::CommandPool, n);
    if !keep_semaphores {
        push_destroys(plan, ResourceKind::AcquireSemaphore, n);
        push_destroys(plan, ResourceKind::PresentSemaphore, n);
    }
    push_destroys(plan, ResourceKind::Framebuffer, n);
    push_destroys(plan, ResourceKind::ImageView, n);
    assert(plan@ =~= start + pool_teardown_spec(n as nat, keep_semaphores));
}

/// Everything the pool teardown does after its fence waits is a destruction.
pub proof fn lemma_pool_destroys_only_destroy(n: nat, keep_semaphores: bool)
    ensures
        forall|k: int|
            0 <= k < pool_destroys_spec(n, keep_semaphores).len() ==> (#[trigger] pool_destroys_spec(
                n,
                keep_semaphores,
            )[k]) is Destroy,
{
    let f = destroys_spec(ResourceKind::Fence, n);
    let c = destroys_spec(ResourceKind::CommandPool, n);
    let a = destroys_spec(ResourceKind::AcquireSemaphore, n);
    let p = destroys_spec(ResourceKind::PresentSemaphore, n);
    let fb = destroys_spec(ResourceKind::Framebuffer, n);
    let v = destroys_spec(ResourceKind::ImageView, n);
    let sems: Seq<TeardownStep> = if keep_semaphores {
        Seq::empty()
    } else {
        a + p
    };
    let all = f + c + sems + fb + v;
    assert(all =~= pool_destroys_spec(n, keep_semaphores));
    assert forall|k: int| 0 <= k < all.len() implies (#[trigger] all[k]) is Destroy by {
        if k < n {
            assert(all[k] == f[k]);
        } else if k < 2 * n {
            assert(all[k] == c[k - n]);
        } else if k < 2 * n + sems.len() {
            assert(all[k] == sems[k - 2 * n]);
            if !keep_semaphores {
                if k < 3 * n {
                    assert(sems[k - 2 * n] == a[k - 2 * n]);
                } else {
                    assert(sems[k - 2 * n] == p[k - 3 * n]);
                }
            }
        } else if k < 3 * n + sems.len() {
            assert(all[k] == fb[k - 2 * n - sems.len()]);
        } else {
            assert(all[k] == v[k - 3 * n - sems.len()]);
        }
    }
}

/// The teardown of a frame resource pool of `n` images, as a list of steps.
pub fn pool_teardown_plan(n: usize, keep_semaphores: bool) -> (r: Vec<TeardownStep>)
    ensures
        r@ == pool_teardown_spec(n as nat, keep_semaphores),
{
    let mut plan: Vec<TeardownStep> = Vec::new();
    push_pool_teardown(&mut plan, n, keep_semaphores);
    assert(plan@ =~= pool_teardown_spec(n as nat, keep_semaphores));
    plan
}

/// A frame on image `i` that takes the image's last reusable command buffer (or
/// records into `fresh`, newly allocated, when there is none) and puts the
/// recorded buffer back.
pub open spec fn reuse_frame<C>(lists: Seq<Seq<C>>, i: int, fresh: C) -> Seq<Seq<C>> {
    let taken = take_buffer_spec(lists, i);
    return_buffer_spec(
        taken.1,
        i,
        match taken.0 {
            Some(c) => c,
            None => fresh,
        },
    )
}

/// Frames drawn in turn, each on an image with a buffer to allocate if needed.
pub open spec fn reuse_frames<C>(lists: Seq<Seq<C>>, frames: Seq<(int, C)>) -> Seq<Seq<C>>
    decreases frames.len(),
{
    if frames.len() == 0 {
        lists
    } else {
        reuse_frames(reuse_frame(lists, frames[0].0, frames[0].1), frames.drop_first())
    }
}

/// Frames on images other than `i` leave the buffers of `i` as they are.
proof fn lemma_other_frames_keep_list<C>(lists: Seq<Seq<C>>, i: int, frames: Seq<(int, C)>)
    requires
        0 <= i < lists.len(),
        forall|k: int|
            0 <= k < frames.len() ==> 0 <= (#[trigger] frames[k]).0 < lists.len() && frames[k].0
                != i,
    ensures
        reuse_frames(lists, frames).len() == lists.len(),
        reuse_frames(lists, frames)[i] == lists[i],
    decreases frames.len(),
{
    if frames.len() > 0 {
        let next = reuse_frame(lists, frames[0].0, frames[0].1);
        let rest = frames.drop_first();
        assert forall|k: int| 0 <= k < rest.len() implies 0 <= (#[trigger] rest[k]).0 < next.len()
            && rest[k].0 != i by {
            assert(rest[k] == frames[k + 1]);
        }
        lemma_other_frames_keep_list(next, i, rest);
    }
}

/// The command buffer put back after a frame on an image is the one handed out
/// at the next frame on that image, whatever frames on other images come between:
/// buffers are reused, not allocated anew.
pub proof fn lemma_command_buffer_reused<C>(
    lists: Seq<Seq<C>>,
    i: int,
    buffer: C,
    between: Seq<(int, C)>,
)
    requires
        0 <= i < lists.len(),
        forall|k: int|
            0 <= k < between.len() ==> 0 <= (#[trigger] between[k]).0 < lists.len() && between[k].0
                != i,
    ensures
        take_buffer_spec(reuse_frames(return_buffer_spec(lists, i, buffer), between), i).0 == Some(
            buffer,
        ),
{
    let start = return_buffer_spec(lists, i, buffer);
    lemma_other_frames_keep_list(start, i, between);
}

/// The counts after frames on the given images, one more for each frame's image.
pub open spec fn counts_after(counts: Seq<nat>, images: Seq<int>) -> Seq<nat>
    decreases images.len(),
{
    if images.len() == 0 {
        counts
    } else {
        counts_after(bump(counts, images[0]), images.drop_first())
    }
}

/// Over frames on distinct images, an image's count grows by one if a frame was
/// on it, and stays as it was if not.
proof fn lemma_counts_after_distinct(counts: Seq<nat>, images: Seq<int>, i: int)
    requires
        0 <= i < counts.len(),
        images.no_duplicates(),
        forall|k: int| 0 <= k < images.len() ==> 0 <= #[trigger] images[k] < counts.len(),
    ensures
        counts_after(counts, images).len() == counts.len(),
        counts_after(counts, images)[i] == counts[i] + if images.contains(i) {
            1nat
        } else {
            0nat
        },
    decreases images.len(),
{
    if images.len() > 0 {
        let rest = images.drop_first();
        assert forall|k: int| 0 <= k < rest.len() implies 0 <= #[trigger] rest[k] < counts.len() by {
            assert(rest[k] == images[k + 1]);
        }
        assert(rest.no_duplicates()) by {
            assert forall|a: int, b: int| 0 <= a < b < rest.len() implies rest[a] != rest[b] by {
                assert(rest[a] == images[a + 1] && rest[b] == images[b + 1]);
            }
        }
        lemma_counts_after_distinct(bump(counts, images[0]), rest, i);
        if images[0] == i {
            assert(images.contains(i));
            assert(!rest.contains(i)) by {
                if rest.contains(i) {
                    let k = choose|k: int| 0 <= k < rest.len() && rest[k] == i;
                    assert(images[k + 1] == images[0]);
                }
            }
        } else {
            assert(images.contains(i) == rest.contains(i)) by {
                if images.contains(i) {
                    let k = choose|k: int| 0 <= k < images.len() && images[k] == i;
                    assert(k > 0 && rest[k - 1] == i);
                }
                if rest.contains(i) {
                    let k = choose|k: int| 0 <= k < rest.len() && rest[k] == i;
                    assert(images[k + 1] == i);
                }
            }
        }
    }
}

/// Over as many frames as there are images, on pairwise distinct images (a full
/// cycle of the swapchain), every image's fence is asked to be waited on exactly
/// once and reset exactly once: each frame adds one wait and one reset at its own image.
pub proof fn lemma_cycle_waits_each_fence_once(waits: Seq<nat>, resets: Seq<nat>, images: Seq<int>)
    requires
        waits.len() == resets.len(),
        images.len() == waits.len(),
        images.no_duplicates(),
        forall|k: int| 0 <= k < images.len() ==> 0 <= #[trigger] images[k] < waits.len(),
    ensures
        forall|i: int|
            0 <= i < waits.len() ==> #[trigger] counts_after(waits, images)[i] == waits[i] + 1
                && counts_after(resets, images)[i] == resets[i] + 1,
{
    let n = waits.len() as int;
    let range = vstd::set_lib::set_int_range(0, n);
    vstd::set_lib::lemma_int_range(0, n);
    images.unique_seq_to_set();
    assert(images.to_set().subset_of(range));
    vstd::set_lib::lemma_subset_equality(images.to_set(), range);
    assert forall|i: int| 0 <= i < n implies #[trigger] counts_after(waits, images)[i] == waits[i]
        + 1 && counts_after(resets, images)[i] == resets[i] + 1 by {
        assert(range.contains(i));
        assert(images.to_set().contains(i));
        lemma_counts_after_distinct(waits, images, i);
        lemma_counts_after_distinct(resets, images, i);
    }
}

} // verus!
