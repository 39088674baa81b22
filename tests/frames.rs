use vortek::framebuffer::{pool_teardown_plan, FramebufferState, ResourceKind, TeardownStep};
use vortek::orchestrator::{
    create_viewport, dispose_plan, recreation_plan, semaphores_reusable, FrameOrchestrator,
    FramePhase, FrameResources, FrameStart, FrameStatus, Rect,
};
use vortek::render_pass::{describe_render_pass, RenderPassState};
use vortek::swapchain::{
    configure_swapchain, CompositeAlphaSet, Extent2D, PresentModeSet, SurfaceCapabilities,
    SwapchainState,
};

type Pool = FramebufferState<u64, u64, u64, u64, u64, u64>;
type Resources = FrameResources<u64, u64, u64, u64, u64, u64, u64, u64, u64>;
type Orchestrator = FrameOrchestrator<u64, u64, u64, u64, u64, u64, u64, u64, u64>;

fn capabilities() -> SurfaceCapabilities {
    SurfaceCapabilities {
        min_image_count: 1,
        max_image_count: 8,
        current_extent: None,
        min_extent: Extent2D { width: 1, height: 1 },
        max_extent: Extent2D { width: 4096, height: 4096 },
        max_image_layers: 1,
        color_attachment_usage: true,
        present_modes: PresentModeSet { immediate: false, mailbox: false, fifo: true, relaxed: false },
        composite_alpha_modes: CompositeAlphaSet {
            opaque: true,
            inherit: false,
            premultiplied: false,
            postmultiplied: false,
        },
    }
}

/// A swapchain (handle `base + 800`) of the given images for the window size,
/// its render pass (handle `base + 900`), and the frame resources `pool`.
fn resources_with(images: Vec<u64>, base: u64, window: (u32, u32), pool: Pool) -> Resources {
    let caps = capabilities();
    let config = configure_swapchain(&caps, None, window).unwrap();
    let mut swapchain =
        SwapchainState::new(&caps, None, window, &config, Ok((base + 800, images))).unwrap();
    swapchain.take_backbuffer();
    let desc = describe_render_pass(swapchain.format());
    let render_pass = RenderPassState::new(&desc, Ok(base + 900)).unwrap();
    FrameResources { swapchain, render_pass, pool }
}

fn resources(n: u64, base: u64) -> Resources {
    let images = (0..n).map(|i| base + 700 + i).collect();
    resources_with(images, base, (800, 600), pool(n, base))
}

/// A pool of `n` images whose handles are `base + 100 * kind + index`.
fn pool(n: u64, base: u64) -> Pool {
    let handles = |kind: u64| (0..n).map(|i| base + 100 * kind + i).collect::<Vec<u64>>();
    FramebufferState::new(
        handles(1),
        handles(2),
        handles(3),
        handles(4),
        handles(5),
        handles(6),
    )
}

fn extent() -> Extent2D {
    Extent2D { width: 800, height: 600 }
}

/// Draws one frame that acquires `image`; a missing buffer is allocated as
/// `fresh`. Returns the buffer recorded into.
fn draw(orchestrator: &mut Orchestrator, image: u32, fresh: u64) -> u64 {
    let slot = match orchestrator.begin_frame() {
        FrameStart::Acquire { slot } => slot,
        FrameStart::RecreateSwapchain => panic!("unexpected recreation"),
    };
    let (swapchain, semaphore) = orchestrator.acquire_inputs();
    assert_eq!(*semaphore, 400 + slot as u64);
    assert_eq!(*swapchain % 1000, 800);
    let target = orchestrator.image_acquired(Some(image)).unwrap();
    assert_eq!(target.slot, slot);
    assert_eq!(target.image, image as usize);
    // The image's fence has been waited on: nothing of it is still executing.
    assert!(!orchestrator.pool().is_in_flight(target.image));
    let buffer = target.command_buffer.unwrap_or(fresh);
    orchestrator.frame_submitted(buffer);
    assert!(orchestrator.pool().is_in_flight(target.image));
    orchestrator.frame_presented(true);
    buffer
}

#[test]
fn slots_advance_round_robin_independent_of_images() {
    let mut p = pool(3, 0);
    assert_eq!(p.next_semaphore_index(), 0);
    let slots: Vec<usize> = (0..7).map(|_| p.advance_semaphore_index()).collect();
    assert_eq!(slots, vec![0, 1, 2, 0, 1, 2, 0]);
    assert_eq!(p.next_semaphore_index(), 1);
}

#[test]
fn lookups_by_image_and_by_slot() {
    let p = pool(3, 1000);
    assert_eq!(p.number_of_frames(), 3);
    assert_eq!(*p.framebuffer(2), 1202);
    assert_eq!(*p.in_flight_fence(1), 1301);
    assert_eq!(*p.acquire_semaphore(0), 1400);
    assert_eq!(*p.present_semaphore(2), 1502);
    assert!(p.command_buffers(0).is_empty());
}

#[test]
fn full_cycle_waits_every_fence_once_and_reuses_buffers() {
    let mut orchestrator = Orchestrator::new(resources(3, 0));
    let first: Vec<u64> = (0..3).map(|i| draw(&mut orchestrator, i, 900 + i as u64)).collect();
    assert_eq!(first, vec![900, 901, 902]);
    for i in 0..3 {
        assert!(orchestrator.pool().is_in_flight(i));
        assert_eq!(orchestrator.pool().command_buffers(i), &vec![900 + i as u64]);
    }
    // The next cycle gets the same buffers back instead of fresh ones.
    let second: Vec<u64> = (0..3).map(|i| draw(&mut orchestrator, i, 800 + i as u64)).collect();
    assert_eq!(second, vec![900, 901, 902]);
    // The slot keeps turning independently of the acquired images.
    assert_eq!(orchestrator.pool().next_semaphore_index(), 0);
}

#[test]
fn buffer_reused_when_images_come_out_of_order() {
    let mut orchestrator = Orchestrator::new(resources(3, 0));
    assert_eq!(draw(&mut orchestrator, 2, 10), 10);
    assert_eq!(draw(&mut orchestrator, 0, 11), 11);
    assert_eq!(draw(&mut orchestrator, 1, 12), 12);
    assert_eq!(draw(&mut orchestrator, 2, 13), 10);
    assert_eq!(draw(&mut orchestrator, 1, 14), 12);
    assert_eq!(draw(&mut orchestrator, 0, 15), 11);
}

#[test]
fn failed_acquire_rebuilds_before_next_acquire() {
    let mut orchestrator = Orchestrator::new(resources(3, 0));
    draw(&mut orchestrator, 0, 50);
    assert_eq!(orchestrator.begin_frame(), FrameStart::Acquire { slot: 1 });
    // The acquisition fails: no error, the frame just ends.
    assert!(orchestrator.image_acquired(None).is_none());
    assert_eq!(orchestrator.status(), FrameStatus::NeedsSwapchainRecreation);
    assert_eq!(orchestrator.phase(), FramePhase::Idle);
    // The next frame asks for recreation first, without using up a slot.
    assert_eq!(orchestrator.begin_frame(), FrameStart::RecreateSwapchain);
    assert_eq!(orchestrator.begin_frame(), FrameStart::RecreateSwapchain);
    let (old, plan) = orchestrator.start_recreation();
    assert_eq!(orchestrator.phase(), FramePhase::Recreating);
    assert_eq!(*old.pool.framebuffer(0), 200);
    assert_eq!(old.pool.next_semaphore_index(), 2);
    assert_eq!(plan, recreation_plan(3));
    assert_eq!(plan[0], TeardownStep::WaitDeviceIdle);
    assert!(!plan.contains(&TeardownStep::Destroy(ResourceKind::AcquireSemaphore, 0)));
    assert_eq!(plan[plan.len() - 2], TeardownStep::DestroyRenderPass);
    assert_eq!(plan[plan.len() - 1], TeardownStep::DestroySwapchain);
    assert!(semaphores_reusable(old.pool.number_of_frames(), 3));
    // New swapchain, render pass, framebuffers, fences and pools; the same semaphores.
    let parts = old.pool.into_parts();
    let rebuilt = FramebufferState::new(
        vec![5100, 5101, 5102],
        vec![5200, 5201, 5202],
        vec![5300, 5301, 5302],
        parts.acquire_semaphores,
        parts.present_semaphores,
        vec![5600, 5601, 5602],
    );
    let new = resources_with(vec![5700, 5701, 5702], 5000, (1024, 768), rebuilt);
    orchestrator.finish_recreation(new);
    assert_eq!(orchestrator.status(), FrameStatus::Ready);
    assert_eq!(orchestrator.viewport(), Rect { x: 0, y: 0, w: 1024, h: 768 });
    assert_eq!(*orchestrator.swapchain().swapchain(), 5800);
    assert_eq!(*orchestrator.render_pass().render_pass(), 5900);
    assert_eq!(*orchestrator.pool().framebuffer(0), 5200);
    assert_eq!(*orchestrator.pool().in_flight_fence(2), 5302);
    assert_eq!(*orchestrator.pool().acquire_semaphore(1), 401);
    assert_eq!(draw(&mut orchestrator, 0, 60), 60);
}

#[test]
fn failed_present_rebuilds_on_next_frame() {
    let mut orchestrator = Orchestrator::new(resources(2, 0));
    assert_eq!(orchestrator.begin_frame(), FrameStart::Acquire { slot: 0 });
    let target = orchestrator.image_acquired(Some(1)).unwrap();
    orchestrator.frame_submitted(target.command_buffer.unwrap_or(7));
    orchestrator.frame_presented(false);
    assert_eq!(orchestrator.status(), FrameStatus::NeedsSwapchainRecreation);
    assert_eq!(orchestrator.begin_frame(), FrameStart::RecreateSwapchain);
}

#[test]
fn out_of_range_image_index_asks_for_recreation() {
    let mut orchestrator = Orchestrator::new(resources(2, 0));
    assert_eq!(orchestrator.begin_frame(), FrameStart::Acquire { slot: 0 });
    assert!(orchestrator.image_acquired(Some(2)).is_none());
    assert_eq!(orchestrator.status(), FrameStatus::NeedsSwapchainRecreation);
}

#[test]
fn dispose_waits_on_all_fences_before_destroying() {
    let mut orchestrator = Orchestrator::new(resources(3, 0));
    for frame in 0..5u32 {
        draw(&mut orchestrator, frame % 3, 70 + frame as u64);
    }
    let (resources, plan) = orchestrator.dispose();
    assert_eq!(resources.pool.number_of_frames(), 3);
    assert_eq!(*resources.swapchain.swapchain(), 800);
    assert_eq!(plan.len(), 7 * 3 + 3);
    assert_eq!(plan[0], TeardownStep::WaitDeviceIdle);
    for i in 0..3 {
        assert_eq!(plan[1 + i], TeardownStep::WaitFence(i));
    }
    let first_destroy = plan
        .iter()
        .position(|s| !matches!(s, TeardownStep::WaitDeviceIdle | TeardownStep::WaitFence(_)))
        .unwrap();
    assert_eq!(first_destroy, 4);
    assert!(plan[first_destroy..].iter().all(|s| !matches!(s, TeardownStep::WaitFence(_))));
    assert_eq!(plan[4], TeardownStep::Destroy(ResourceKind::Fence, 0));
    assert!(plan.contains(&TeardownStep::Destroy(ResourceKind::AcquireSemaphore, 2)));
    assert!(plan.contains(&TeardownStep::Destroy(ResourceKind::PresentSemaphore, 2)));
    assert_eq!(plan[plan.len() - 1], TeardownStep::DestroySwapchain);
    assert_eq!(dispose_plan(3), plan);
}

#[test]
fn pool_teardown_order() {
    let plan = pool_teardown_plan(2, false);
    let expected = vec![
        TeardownStep::WaitFence(0),
        TeardownStep::WaitFence(1),
        TeardownStep::Destroy(ResourceKind::Fence, 0),
        TeardownStep::Destroy(ResourceKind::Fence, 1),
        TeardownStep::Destroy(ResourceKind::CommandPool, 0),
        TeardownStep::Destroy(ResourceKind::CommandPool, 1),
        TeardownStep::Destroy(ResourceKind::AcquireSemaphore, 0),
        TeardownStep::Destroy(ResourceKind::AcquireSemaphore, 1),
        TeardownStep::Destroy(ResourceKind::PresentSemaphore, 0),
        TeardownStep::Destroy(ResourceKind::PresentSemaphore, 1),
        TeardownStep::Destroy(ResourceKind::Framebuffer, 0),
        TeardownStep::Destroy(ResourceKind::Framebuffer, 1),
        TeardownStep::Destroy(ResourceKind::ImageView, 0),
        TeardownStep::Destroy(ResourceKind::ImageView, 1),
    ];
    assert_eq!(plan, expected);
    assert_eq!(pool_teardown_plan(2, true).len(), expected.len() - 4);
    assert!(!semaphores_reusable(3, 2));
}

#[test]
fn viewport_covers_the_extent() {
    assert_eq!(create_viewport(extent()), Rect { x: 0, y: 0, w: 800, h: 600 });
    let orchestrator = Orchestrator::new(resources_with(vec![7], 0, (640, 480), pool(1, 0)));
    assert_eq!(orchestrator.viewport(), Rect { x: 0, y: 0, w: 640, h: 480 });
    let wide = create_viewport(Extent2D { width: 32767, height: 1 });
    assert_eq!((wide.w, wide.h), (32767, 1));
}
