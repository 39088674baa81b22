//! The frame orchestrator: the decisions of drawing a frame and of recreating
//! the swapchain.
//!
//! The device work of a frame is done by the caller between the steps:
//! 1. `begin_frame`: either the swapchain must be recreated first, or a slot is
//!    chosen and an image is to be acquired with that slot's acquire semaphore
//!    (`acquire_inputs`), with no time limit. To recreate, `start_recreation`
//!    hands out the swapchain, render pass and frame resources with their
//!    teardown plan; the caller tears them down, builds a new swapchain, render
//!    pass and frame resources in that order, hands them to
//!    `finish_recreation`, and calls `begin_frame` again.
//! 2. `image_acquired` with the outcome: on failure the frame ends without an
//!    error and the next frame recreates the swapchain; on success the image's
//!    fence is to be waited on and reset, its command pool reset, and the
//!    command buffer handed out (or a new one) recorded: one clear of the
//!    image's framebuffer over the viewport.
//! 3. `frame_submitted` once the buffer is submitted, waiting on the slot's
//!    acquire semaphore and signaling its present semaphore and the image's fence.
//! 4. `frame_presented` with the outcome of presenting the image, waiting on the
//!    present semaphore: a failure again only asks for recreation.

use crate::framebuffer::{
    bump, fence_waits_spec, lemma_pool_destroys_only_destroy, next_slot, pool_destroys_spec,
    pool_teardown_spec, push_pool_teardown, return_buffer_spec, take_buffer_spec,
    FramebufferState, TeardownStep,
};
use crate::render_pass::{describes_clear_pass, RenderPassState};
use crate::swapchain::{Extent2D, SwapchainState};
use vstd::prelude::*;

verus! {

/// Whether the swapchain can be drawn to, or must first be rebuilt.
#[derive(Clone, Copy, Debug, PartialEq, Eq, Structural)]
pub enum FrameStatus {
    Ready,
    NeedsSwapchainRecreation,
}

/// Where the orchestrator stands within a frame.
#[derive(Clone, Copy, Debug, PartialEq, Eq, Structural)]
pub enum FramePhase {
    /// Between frames.
    Idle,
    /// The swapchain and everything built on it are being rebuilt.
    Recreating,
    /// An image is being acquired with the slot's acquire semaphore.
    Acquiring { slot: usize },
    /// The image's command buffer is being recorded and submitted.
    Recording { slot: usize, image: usize },
    /// The image is being presented.
    Presenting { slot: usize, image: usize },
}

/// How a frame starts.
#[derive(Clone, Copy, Debug, PartialEq, Eq, Structural)]
pub enum FrameStart {
    /// The swapchain must be recreated before anything is acquired.
    RecreateSwapchain,
    /// Acquire an image with the acquire semaphore of the slot.
    Acquire { slot: usize },
}

/// The image a frame draws to, its slot, and the command buffer to record into,
/// if one can be reused; with none, a new primary buffer is allocated from the
/// image's command pool.
pub struct FrameTarget<Cb> {
    pub slot: usize,
    pub image: usize,
    pub command_buffer: Option<Cb>,
}

/// A rectangle in pixels.
#[derive(Clone, Copy, Debug, PartialEq, Eq, Structural)]
pub struct Rect {
    pub x: i16,
    pub y: i16,
    pub w: i16,
    pub h: i16,
}

/// The viewport rectangle of an extent: from the origin, the extent's width and
/// height taken as 16-bit signed values (exact up to 32767 pixels).
pub open spec fn viewport_of(extent: Extent2D) -> Rect {
    Rect { x: 0, y: 0, w: extent.width as i16, h: extent.height as i16 }
}

/// The status after acquiring an image: unchanged on success, else recreation.
pub open spec fn status_after_acquire(status: FrameStatus, acquired: bool) -> FrameStatus {
    if acquired {
        status
    } else {
        FrameStatus::NeedsSwapchainRecreation
    }
}

/// The status after presenting an image: unchanged on success, else recreation.
pub open spec fn status_after_present(status: FrameStatus, presented: bool) -> FrameStatus {
    if presented {
        status
    } else {
        FrameStatus::NeedsSwapchainRecreation
    }
}

/// How a frame starts in a status.
pub open spec fn start_in(status: FrameStatus, slot: usize) -> FrameStart {
    match status {
        FrameStatus::NeedsSwapchainRecreation => FrameStart::RecreateSwapchain,
        FrameStatus::Ready => FrameStart::Acquire { slot },
    }
}

/// The viewport for an extent.
pub fn create_viewport(extent: Extent2D) -> (r: Rect)
    ensures
        r == viewport_of(extent),
        r.x == 0 && r.y == 0,
        extent.width <= 32767 ==> r.w as int == extent.width as int,
        extent.height <= 32767 ==> r.h as int == extent.height as int,
{
    Rect { x: 0, y: 0, w: extent.width as i16, h: extent.height as i16 }
}

/// What frames are drawn with: the swapchain, the render pass built for its
/// format, and the frame resources built on its images. The type parameters are
/// the device's handle types: swapchain, image, render pass, framebuffer, image
/// view, command pool, command buffer, fence and semaphore.
pub struct FrameResources<S, I, R, Fb, View, Pool, Cb, Fence, Sem> {
    pub swapchain: SwapchainState<S, I>,
    pub render_pass: RenderPassState<R>,
    pub pool: FramebufferState<Fb, View, Pool, Cb, Fence, Sem>,
}

impl<S, I, R, Fb, View, Pool, Cb, Fence, Sem> FrameResources<S, I, R, Fb, View, Pool, Cb, Fence, Sem> {
    /// The parts belong together: the render pass is the clear pass for the
    /// swapchain's format, the swapchain's images have been handed on, and the
    /// pool holds one set of resources for each of them.
    pub open spec fn agree(&self) -> bool {
        &&& describes_clear_pass(self.render_pass.spec_desc())
        &&& self.render_pass.spec_format() == self.swapchain.spec_format()
        &&& self.swapchain.spec_backbuffer() is None
        &&& self.pool.wf()
        &&& self.pool.spec_frames() == self.swapchain.spec_image_count()
    }
}

/// The decisions of the frame loop over the swapchain, render pass and frame
/// resources it draws with.
pub struct FrameOrchestrator<S, I, R, Fb, View, Pool, Cb, Fence, Sem> {
    status: FrameStatus,
    phase: FramePhase,
    resources: Option<FrameResources<S, I, R, Fb, View, Pool, Cb, Fence, Sem>>,
    viewport: Rect,
}

impl<S, I, R, Fb, View, Pool, Cb, Fence, Sem> FrameOrchestrator<S, I, R, Fb, View, Pool, Cb, Fence, Sem> {
    pub closed spec fn spec_status(&self) -> FrameStatus {
        self.status
    }

    pub closed spec fn spec_phase(&self) -> FramePhase {
        self.phase
    }

    /// What frames are drawn with; absent only while it is being rebuilt.
    pub closed spec fn spec_resources(&self) -> Option<
        FrameResources<S, I, R, Fb, View, Pool, Cb, Fence, Sem>,
    > {
        self.resources
    }

    pub closed spec fn spec_viewport(&self) -> Rect {
        self.viewport
    }

    /// The resources of a well-formed orchestrator outside recreation.
    pub open spec fn the_resources(&self) -> FrameResources<S, I, R, Fb, View, Pool, Cb, Fence, Sem> {
        self.spec_resources()->Some_0
    }

    /// The frame resource pool of a well-formed orchestrator outside recreation.
    pub open spec fn the_pool(&self) -> FramebufferState<Fb, View, Pool, Cb, Fence, Sem> {
        self.the_resources().pool
    }

    /// The resources are present, agree, and give the viewport, except during
    /// recreation; a frame in progress names a slot and an image of the pool.
    pub open spec fn wf(&self) -> bool {
        &&& (self.spec_phase() is Recreating) == (self.spec_resources() is None)
        &&& self.spec_resources() matches Some(res) ==> {
            &&& res.agree()
            &&& self.spec_viewport() == viewport_of(res.swapchain.spec_extent())
            &&& match self.spec_phase() {
                FramePhase::Acquiring { slot } => slot < res.pool.spec_frames(),
                FramePhase::Recording { slot, image } => slot < res.pool.spec_frames() && image
                    < res.pool.spec_frames(),
                FramePhase::Presenting { slot, image } => slot < res.pool.spec_frames() && image
                    < res.pool.spec_frames(),
                _ => true,
            }
        }
    }

    /// The swapchain and the render pass are those of `other`, and resources are present.
    pub open spec fn same_presentation(&self, other: &Self) -> bool {
        &&& self.spec_resources() is Some
        &&& self.the_resources().swapchain == other.the_resources().swapchain
        &&& self.the_resources().render_pass == other.the_resources().render_pass
    }

    /// Starts in the ready state, between frames, with resources that agree.
    pub fn new(resources: FrameResources<S, I, R, Fb, View, Pool, Cb, Fence, Sem>) -> (r: Self)
        requires
            resources.agree(),
        ensures
            r.wf(),
            r.spec_status() == FrameStatus::Ready,
            r.spec_phase() == FramePhase::Idle,
            r.spec_resources() == Some(resources),
            r.spec_viewport() == viewport_of(resources.swapchain.spec_extent()),
    {
        let viewport = create_viewport(resources.swapchain.extent());
        FrameOrchestrator {
            status: FrameStatus::Ready,
            phase: FramePhase::Idle,
            resources: Some(resources),
            viewport,
        }
    }

    /// Returns the status.
    pub fn status(&self) -> (r: FrameStatus)
        ensures
            r == self.spec_status(),
    {
        self.status
    }

    /// Returns the phase.
    pub fn phase(&self) -> (r: FramePhase)
        ensures
            r == self.spec_phase(),
    {
        self.phase
    }

    /// Returns the viewport of the current swapchain.
    pub fn viewport(&self) -> (r: Rect)
        ensures
            r == self.spec_viewport(),
    {
        self.viewport
    }

    /// Returns the frame resources.
    pub fn pool(&self) -> (r: &FramebufferState<Fb, View, Pool, Cb, Fence, Sem>)
        requires
            self.wf(),
            !(self.spec_phase() is Recreating),
        ensures
            *r == self.the_pool(),
    {
        &self.resources.as_ref().unwrap().pool
    }

    /// Returns the swapchain.
    pub fn swapchain(&self) -> (r: &SwapchainState<S, I>)
        requires
            self.wf(),
            !(self.spec_phase() is Recreating),
        ensures
            *r == self.the_resources().swapchain,
    {
        &self.resources.as_ref().unwrap().swapchain
    }

    /// Returns the render pass.
    pub fn render_pass(&self) -> (r: &RenderPassState<R>)
        requires
            self.wf(),
            !(self.spec_phase() is Recreating),
        ensures
            *r == self.the_resources().render_pass,
    {
        &self.resources.as_ref().unwrap().render_pass
    }

    /// Returns what an acquisition needs: the swapchain, and the acquire semaphore
    /// of the frame's slot.
    pub fn acquire_inputs(&mut self) -> (r: (&mut S, &Sem))
        requires
            old(self).wf(),
            old(self).spec_phase() is Acquiring,
        ensures
            *r.0 == old(self).the_resources().swapchain.spec_swapchain(),
            *r.1 == old(self).the_pool().spec_acquire_semaphores()[old(
                self,
            ).spec_phase()->Acquiring_slot as int],
            final(self).wf(),
            final(self).spec_status() == old(self).spec_status(),
            final(self).spec_phase() == old(self).spec_phase(),
            final(self).spec_viewport() == old(self).spec_viewport(),
            final(self).spec_resources() is Some,
            final(self).the_pool() == old(self).the_pool(),
            final(self).the_resources().render_pass == old(self).the_resources().render_pass,
            final(self).the_resources().swapchain.spec_swapchain() == *final(r.0),
            final(self).the_resources().swapchain.spec_backbuffer() == old(
                self,
            ).the_resources().swapchain.spec_backbuffer(),
            final(self).the_resources().swapchain.spec_image_count() == old(
                self,
            ).the_resources().swapchain.spec_image_count(),
            final(self).the_resources().swapchain.spec_config() == old(
                self,
            ).the_resources().swapchain.spec_config(),
    {
        let slot = match self.phase {
            FramePhase::Acquiring { slot } => slot,
            _ => 0,
        };
        let resources = self.resources.as_mut().unwrap();
        let semaphore = resources.pool.acquire_semaphore(slot);
        let swapchain = resources.swapchain.swapchain_mut();
        (swapchain, semaphore)
    }

    /// Returns the command pool of the image, to be reset or allocated from.
    pub fn command_pool_mut(&mut self, swap_image_index: usize) -> (r: &mut Pool)
        requires
            old(self).wf(),
            !(old(self).spec_phase() is Recreating),
            swap_image_index < old(self).the_pool().spec_frames(),
        ensures
            *r == old(self).the_pool().spec_command_pools()[swap_image_index as int],
            final(self).wf(),
            final(self).spec_status() == old(self).spec_status(),
            final(self).spec_phase() == old(self).spec_phase(),
            final(self).spec_viewport() == old(self).spec_viewport(),
            final(self).same_presentation(&*old(self)),
            final(self).the_pool().spec_command_pools() == old(
                self,
            ).the_pool().spec_command_pools().update(swap_image_index as int, *final(r)),
            final(self).the_pool().spec_frames() == old(self).the_pool().spec_frames(),
            final(self).the_pool().spec_next_slot() == old(self).the_pool().spec_next_slot(),
            final(self).the_pool().spec_framebuffers() == old(self).the_pool().spec_framebuffers(),
            final(self).the_pool().spec_image_views() == old(self).the_pool().spec_image_views(),
            final(self).the_pool().spec_fences() == old(self).the_pool().spec_fences(),
            final(self).the_pool().spec_acquire_semaphores() == old(
                self,
            ).the_pool().spec_acquire_semaphores(),
            final(self).the_pool().spec_present_semaphores() == old(
                self,
            ).the_pool().spec_present_semaphores(),
            final(self).the_pool().spec_command_buffers() == old(
                self,
            ).the_pool().spec_command_buffers(),
            final(self).the_pool().spec_in_flight() == old(self).the_pool().spec_in_flight(),
            final(self).the_pool().spec_fence_waits() == old(self).the_pool().spec_fence_waits(),
            final(self).the_pool().spec_fence_resets() == old(self).the_pool().spec_fence_resets(),
    {
        self.resources.as_mut().unwrap().pool.command_pool_mut(swap_image_index)
    }
}

impl<S, I, R, Fb, View, Pool, Cb, Fence, Sem> FrameOrchestrator<S, I, R, Fb, View, Pool, Cb, Fence, Sem> {
    /// Starts a frame. If the swapchain must be recreated, nothing changes and the
    /// caller is asked to recreate it first; else the next slot is taken, round
    /// robin, and an image is to be acquired with it.
    pub fn begin_frame(&mut self) -> (r: FrameStart)
        requires
            old(self).wf(),
            old(self).spec_phase() == FramePhase::Idle,
        ensures
            final(self).wf(),
            r == start_in(old(self).spec_status(), old(self).the_pool().spec_next_slot() as usize),
            final(self).spec_status() == old(self).spec_status(),
            final(self).spec_viewport() == old(self).spec_viewport(),
            old(self).spec_status() == FrameStatus::NeedsSwapchainRecreation ==> *final(self) == *old(
                self,
            ),
            old(self).spec_status() == FrameStatus::Ready ==> {
                let p = old(self).the_pool();
                let q = final(self).the_pool();
                &&& final(self).spec_phase() == FramePhase::Acquiring {
                    slot: p.spec_next_slot() as usize,
                }
                &&& final(self).same_presentation(&*old(self))
                &&& p.same_handles(&q)
                &&& q.spec_next_slot() == next_slot(p.spec_next_slot(), p.spec_frames())
                &&& q.spec_command_buffers() == p.spec_command_buffers()
                &&& q.spec_in_flight() == p.spec_in_flight()
                &&& q.spec_fence_waits() == p.spec_fence_waits()
                &&& q.spec_fence_resets() == p.spec_fence_resets()
            },
    {
        match self.status {
            FrameStatus::NeedsSwapchainRecreation => FrameStart::RecreateSwapchain,
            FrameStatus::Ready => {
                let slot = self.resources.as_mut().unwrap().pool.advance_semaphore_index();
                self.phase = FramePhase::Acquiring { slot };
                FrameStart::Acquire { slot }
            },
        }
    }

    /// Takes the outcome of acquiring an image: its index, or `None` if the
    /// acquisition failed. A failure, or an index outside the swapchain, ends the
    /// frame without an error and asks for the swapchain to be recreated. On
    /// success the image is claimed: the caller must wait on the image's fence and
    /// reset it before anything is recorded for the image; its last reusable
    /// command buffer, if any, is handed out.
    pub fn image_acquired(&mut self, acquired: Option<u32>) -> (r: Option<FrameTarget<Cb>>)
        requires
            old(self).wf(),
            old(self).spec_phase() is Acquiring,
        ensures
            final(self).wf(),
            final(self).spec_viewport() == old(self).spec_viewport(),
            final(self).spec_status() == status_after_acquire(
                old(self).spec_status(),
                acquired is Some && (acquired->Some_0 as int) < old(self).the_pool().spec_frames(),
            ),
            ({
                let slot = old(self).spec_phase()->Acquiring_slot;
                let p = old(self).the_pool();
                let q = final(self).the_pool();
                if acquired is Some && (acquired->Some_0 as int) < p.spec_frames() {
                    let i = acquired->Some_0 as int;
                    &&& r matches Some(t) && t.slot == slot && t.image == i && (
                    t.command_buffer, q.spec_command_buffers()) == take_buffer_spec(
                        p.spec_command_buffers(),
                        i,
                    )
                    &&& final(self).spec_status() == old(self).spec_status()
                    &&& final(self).spec_phase() == FramePhase::Recording {
                        slot,
                        image: i as usize,
                    }
                    &&& final(self).same_presentation(&*old(self))
                    &&& p.same_handles(&q)
                    &&& q.spec_next_slot() == p.spec_next_slot()
                    &&& q.spec_in_flight() == p.spec_in_flight().update(i, false)
                    &&& q.spec_fence_waits() == bump(p.spec_fence_waits(), i)
                    &&& q.spec_fence_resets() == bump(p.spec_fence_resets(), i)
                } else {
                    &&& r is None
                    &&& final(self).spec_status() == FrameStatus::NeedsSwapchainRecreation
                    &&& final(self).spec_phase() == FramePhase::Idle
                    &&& final(self).spec_resources() == old(self).spec_resources()
                }
            }),
    {
        let slot = match self.phase {
            FramePhase::Acquiring { slot } => slot,
            _ => 0,
        };
        let n = self.resources.as_ref().unwrap().pool.number_of_frames();
        match acquired {
            Some(index) if (index as usize) < n => {
                let image = index as usize;
                let command_buffer = self.resources.as_mut().unwrap().pool.reclaim_image(image);
                self.phase = FramePhase::Recording { slot, image };
                Some(FrameTarget { slot, image, command_buffer })
            },
            _ => {
                self.status = FrameStatus::NeedsSwapchainRecreation;
                self.phase = FramePhase::Idle;
                None
            },
        }
    }

    /// Records that the frame's command buffer was submitted and puts it back on
    /// its image's reusable list; the image is to be presented next.
    pub fn frame_submitted(&mut self, command_buffer: Cb)
        requires
            old(self).wf(),
            old(self).spec_phase() is Recording,
        ensures
            final(self).wf(),
            final(self).spec_status() == old(self).spec_status(),
            final(self).spec_viewport() == old(self).spec_viewport(),
            ({
                let slot = old(self).spec_phase()->Recording_slot;
                let image = old(self).spec_phase()->Recording_image;
                let p = old(self).the_pool();
                let q = final(self).the_pool();
                &&& final(self).spec_phase() == FramePhase::Presenting { slot, image }
                &&& final(self).same_presentation(&*old(self))
                &&& p.same_handles(&q)
                &&& q.spec_next_slot() == p.spec_next_slot()
                &&& q.spec_command_buffers() == return_buffer_spec(
                    p.spec_command_buffers(),
                    image as int,
                    command_buffer,
                )
                &&& q.spec_in_flight() == p.spec_in_flight().update(image as int, true)
                &&& q.spec_fence_waits() == p.spec_fence_waits()
                &&& q.spec_fence_resets() == p.spec_fence_resets()
            }),
    {
        let (slot, image) = match self.phase {
            FramePhase::Recording { slot, image } => (slot, image),
            _ => (0, 0),
        };
        self.resources.as_mut().unwrap().pool.submitted(image, command_buffer);
        self.phase = FramePhase::Presenting { slot, image };
    }

    /// Takes the outcome of presenting the frame's image and ends the frame. A
    /// failure is no error: the next frame recreates the swapchain.
    pub fn frame_presented(&mut self, presented: bool)
        requires
            old(self).wf(),
            old(self).spec_phase() is Presenting,
        ensures
            final(self).wf(),
            final(self).spec_status() == status_after_present(old(self).spec_status(), presented),
            final(self).spec_phase() == FramePhase::Idle,
            final(self).spec_resources() == old(self).spec_resources(),
            final(self).spec_viewport() == old(self).spec_viewport(),
    {
        if !presented {
            self.status = FrameStatus::NeedsSwapchainRecreation;
        }
        self.phase = FramePhase::Idle;
    }

    /// Starts recreating the swapchain: hands out the swapchain, render pass and
    /// frame resources together with the order in which they are to be torn down
    /// (device idle first, semaphores kept). Nothing can be drawn until
    /// `finish_recreation` hands in new ones.
    pub fn start_recreation(&mut self) -> (r: (
        FrameResources<S, I, R, Fb, View, Pool, Cb, Fence, Sem>,
        Vec<TeardownStep>,
    ))
        requires
            old(self).wf(),
            old(self).spec_phase() == FramePhase::Idle,
            old(self).spec_status() == FrameStatus::NeedsSwapchainRecreation,
        ensures
            final(self).wf(),
            old(self).spec_resources() == Some(r.0),
            r.0.agree(),
            r.1@ == recreation_spec(r.0.pool.spec_frames()),
            final(self).spec_resources() is None,
            final(self).spec_phase() == FramePhase::Recreating,
            final(self).spec_status() == old(self).spec_status(),
    {
        self.phase = FramePhase::Recreating;
        let resources = self.resources.take().unwrap();
        let plan = recreation_plan(resources.pool.number_of_frames());
        (resources, plan)
    }

    /// Ends recreating the swapchain with a rebuilt swapchain, render pass and
    /// frame resources that agree: the viewport follows the new extent and frames
    /// can be drawn again.
    pub fn finish_recreation(
        &mut self,
        resources: FrameResources<S, I, R, Fb, View, Pool, Cb, Fence, Sem>,
    )
        requires
            old(self).wf(),
            old(self).spec_phase() == FramePhase::Recreating,
            resources.agree(),
        ensures
            final(self).wf(),
            final(self).spec_status() == FrameStatus::Ready,
            final(self).spec_phase() == FramePhase::Idle,
            final(self).spec_resources() == Some(resources),
            final(self).spec_viewport() == viewport_of(resources.swapchain.spec_extent()),
    {
        self.viewport = create_viewport(resources.swapchain.extent());
        self.resources = Some(resources);
        self.status = FrameStatus::Ready;
        self.phase = FramePhase::Idle;
    }

    /// Gives up the orchestrator between frames: hands back the swapchain, render
    /// pass and frame resources, and the order in which everything is to be torn
    /// down.
    pub fn dispose(self) -> (r: (
        FrameResources<S, I, R, Fb, View, Pool, Cb, Fence, Sem>,
        Vec<TeardownStep>,
    ))
        requires
            self.wf(),
            self.spec_phase() == FramePhase::Idle,
        ensures
            self.spec_resources() == Some(r.0),
            r.1@ == dispose_spec(r.0.pool.spec_frames()),
    {
        let resources = self.resources.unwrap();
        let plan = dispose_plan(resources.pool.number_of_frames());
        (resources, plan)
    }
}

/// Tearing everything down: wait until the device is idle, tear the frame
/// resources down (semaphores included), then destroy the render pass and then
/// the swapchain.
pub open spec fn dispose_spec(n: nat) -> Seq<TeardownStep> {
    seq![TeardownStep::WaitDeviceIdle] + pool_teardown_spec(n, false) + seq![
        TeardownStep::DestroyRenderPass,
        TeardownStep::DestroySwapchain,
    ]
}

/// Tearing down for a recreation: as for disposal, but the semaphores are kept,
/// since they do not depend on the swapchain's images.
pub open spec fn recreation_spec(n: nat) -> Seq<TeardownStep> {
    seq![TeardownStep::WaitDeviceIdle] + pool_teardown_spec(n, true) + seq![
        TeardownStep::DestroyRenderPass,
        TeardownStep::DestroySwapchain,
    ]
}

/// The steps of tearing everything down for `n` swap images.
pub fn dispose_plan(n: usize) -> (r: Vec<TeardownStep>)
    ensures
        r@ == dispose_spec(n as nat),
{
    let mut plan: Vec<TeardownStep> = Vec::new();
    plan.push(TeardownStep::WaitDeviceIdle);
    push_pool_teardown(&mut plan, n, false);
    plan.push(TeardownStep::DestroyRenderPass);
    plan.push(TeardownStep::DestroySwapchain);
    assert(plan@ =~= dispose_spec(n as nat));
    plan
}

/// The steps of tearing down the swapchain and what is built on it, for `n`
/// swap images, before a recreation.
pub fn recreation_plan(n: usize) -> (r: Vec<TeardownStep>)
    ensures
        r@ == recreation_spec(n as nat),
{
    let mut plan: Vec<TeardownStep> = Vec::new();
    plan.push(TeardownStep::WaitDeviceIdle);
    push_pool_teardown(&mut plan, n, true);
    plan.push(TeardownStep::DestroyRenderPass);
    plan.push(TeardownStep::DestroySwapchain);
    assert(plan@ =~= recreation_spec(n as nat));
    plan
}

/// Whether the semaphores of the old frame resources can serve the new ones:
/// only if the number of swap images did not change.
pub fn semaphores_reusable(old_count: usize, new_count: usize) -> (r: bool)
    ensures
        r == (old_count == new_count),
{
    old_count == new_count
}

/// A failed acquisition or presentation raises no error; the frame that follows
/// starts by recreating the swapchain instead of acquiring, and once the swapchain
/// is rebuilt (status ready) frames acquire again.
pub proof fn lemma_failure_forces_recreation(status: FrameStatus, slot: usize)
    ensures
        start_in(status_after_acquire(status, false), slot) == FrameStart::RecreateSwapchain,
        start_in(status_after_present(status, false), slot) == FrameStart::RecreateSwapchain,
        start_in(FrameStatus::Ready, slot) == (FrameStart::Acquire { slot }),
{
}

/// Disposal first waits until the device is idle and then on every fence, and
/// destroys nothing before the last of those waits: no semaphore, framebuffer,
/// render pass or swapchain goes while work may still use it. The swapchain is
/// destroyed last.
pub proof fn lemma_dispose_waits_before_destroying(n: nat)
    ensures
        dispose_spec(n).len() == 7 * n + 3,
        dispose_spec(n)[0] == TeardownStep::WaitDeviceIdle,
        forall|i: int| 0 <= i < n ==> #[trigger] dispose_spec(n)[i + 1] == TeardownStep::WaitFence(i as usize),
        forall|k: int| n < k < dispose_spec(n).len() ==> (#[trigger] dispose_spec(n)[k]).is_destroy(),
        forall|a: int, b: int|
            0 <= a < b < dispose_spec(n).len() && (#[trigger] dispose_spec(n)[b]) is WaitFence ==> !(
            #[trigger] dispose_spec(n)[a]).is_destroy(),
        dispose_spec(n)[7 * n + 1 as int] == TeardownStep::DestroyRenderPass,
        dispose_spec(n).last() == TeardownStep::DestroySwapchain,
{
    let plan = dispose_spec(n);
    let w = fence_waits_spec(n);
    let d = pool_destroys_spec(n, false);
    let tail = seq![TeardownStep::DestroyRenderPass, TeardownStep::DestroySwapchain];
    let all = seq![TeardownStep::WaitDeviceIdle] + w + d + tail;
    assert(plan =~= all);
    lemma_pool_destroys_only_destroy(n, false);
    assert forall|k: int| 0 <= k < plan.len() implies (k == 0 ==> plan[k] is WaitDeviceIdle) && (1
        <= k <= n ==> plan[k] == TeardownStep::WaitFence((k - 1) as usize)) && (k > n ==> (
    #[trigger] plan[k]).is_destroy()) by {
        if 1 <= k <= n {
            assert(plan[k] == w[k - 1]);
        } else if n < k < 1 + n + d.len() {
            assert(plan[k] == d[k - 1 - n]);
        } else if k >= 1 + n + d.len() {
            assert(plan[k] == tail[k - 1 - n - d.len()]);
        }
    }
    assert forall|i: int| 0 <= i < n implies #[trigger] plan[i + 1] == TeardownStep::WaitFence(
        i as usize,
    ) by {
        assert(1 <= i + 1 <= n);
    }
}

} // verus!
