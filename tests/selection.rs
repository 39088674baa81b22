use vortek::adapter::{
    select_adapter, select_queue_family, select_queue_group, AdapterInfo, AdapterState,
    QueueFamilyInfo, QueueGroupInfo, QueueKind,
};
use vortek::error::ErrorKind;
use vortek::format::{ColorFormat, FORMAT_CODE_END, RGBA8_SRGB_CODE};
use vortek::render_pass::{
    describe_render_pass, ImageLayout, LoadOp, RenderPassState, StoreOp, SubpassRef,
};
use vortek::swapchain::{
    compute_image_count, configure_swapchain, determine_extent, select_composite_alpha_mode,
    select_format, select_image_usage, select_present_mode, CompositeAlphaMode,
    CompositeAlphaSet, Extent2D, ImageUsage, PresentMode, PresentModeSet, SurfaceCapabilities,
    SwapchainState,
};

fn modes(immediate: bool, mailbox: bool, fifo: bool, relaxed: bool) -> PresentModeSet {
    PresentModeSet { immediate, mailbox, fifo, relaxed }
}

fn capabilities() -> SurfaceCapabilities {
    SurfaceCapabilities {
        min_image_count: 1,
        max_image_count: 8,
        current_extent: None,
        min_extent: Extent2D { width: 1, height: 1 },
        max_extent: Extent2D { width: 4096, height: 4096 },
        max_image_layers: 1,
        color_attachment_usage: true,
        present_modes: modes(true, true, true, true),
        composite_alpha_modes: CompositeAlphaSet {
            opaque: true,
            inherit: true,
            premultiplied: true,
            postmultiplied: true,
        },
    }
}

fn format(code: u32) -> ColorFormat {
    ColorFormat::from_code(code).unwrap()
}

// Rgba8Unorm and Bgra8Unorm in the native table; Rgba8Srgb and Bgra8Srgb.
const RGBA8_UNORM: u32 = 37;
const BGRA8_UNORM: u32 = 44;
const BGRA8_SRGB: u32 = 50;

#[test]
fn present_mode_prefers_mailbox_then_fifo_then_relaxed_then_immediate() {
    let mut caps = capabilities();
    let cases = [
        (modes(true, true, true, true), PresentMode::Mailbox),
        (modes(true, false, true, true), PresentMode::Fifo),
        (modes(true, false, false, true), PresentMode::Relaxed),
        (modes(true, false, false, false), PresentMode::Immediate),
        (modes(false, true, false, false), PresentMode::Mailbox),
        (modes(true, true, false, false), PresentMode::Mailbox),
        (modes(false, false, true, true), PresentMode::Fifo),
    ];
    for (set, expected) in cases {
        caps.present_modes = set;
        assert_eq!(select_present_mode(&caps).unwrap(), expected);
        // Deterministic: the same set gives the same mode again.
        assert_eq!(select_present_mode(&caps).unwrap(), expected);
    }
}

#[test]
fn present_mode_fails_with_no_supported_mode() {
    let mut caps = capabilities();
    caps.present_modes = modes(false, false, false, false);
    let err = select_present_mode(&caps).unwrap_err();
    assert_eq!(err.kind(), ErrorKind::NoPresentMode);
    assert_eq!(err.message(), "No present modes specified.");
}

#[test]
fn composite_alpha_prefers_opaque_then_inherit_then_premultiplied() {
    let mut caps = capabilities();
    assert_eq!(select_composite_alpha_mode(&caps).unwrap(), CompositeAlphaMode::Opaque);
    caps.composite_alpha_modes.opaque = false;
    assert_eq!(select_composite_alpha_mode(&caps).unwrap(), CompositeAlphaMode::Inherit);
    caps.composite_alpha_modes.inherit = false;
    assert_eq!(select_composite_alpha_mode(&caps).unwrap(), CompositeAlphaMode::Premultiplied);
    caps.composite_alpha_modes.premultiplied = false;
    assert_eq!(select_composite_alpha_mode(&caps).unwrap(), CompositeAlphaMode::Postmultiplied);
    caps.composite_alpha_modes.postmultiplied = false;
    let err = select_composite_alpha_mode(&caps).unwrap_err();
    assert_eq!(err.kind(), ErrorKind::NoCompositeAlpha);
    assert_eq!(err.message(), "No composite alpha modes specified.");
}

#[test]
fn srgb_channel_comes_from_the_format_table() {
    assert!(format(RGBA8_SRGB_CODE).srgb());
    assert!(format(BGRA8_SRGB).srgb());
    assert!(!format(RGBA8_UNORM).srgb());
    assert!(!format(BGRA8_UNORM).srgb());
    assert!(ColorFormat::from_code(0).is_none());
    assert!(ColorFormat::from_code(FORMAT_CODE_END).is_none());
    assert_eq!(ColorFormat::from_code(FORMAT_CODE_END - 1).unwrap().code(), FORMAT_CODE_END - 1);
}

#[test]
fn format_with_srgb_entry_picks_it() {
    let list = vec![format(RGBA8_UNORM), format(BGRA8_SRGB), format(RGBA8_SRGB_CODE)];
    assert_eq!(select_format(Some(&list)).unwrap().code(), BGRA8_SRGB);
}

#[test]
fn format_without_srgb_entry_picks_first() {
    let list = vec![format(BGRA8_UNORM), format(RGBA8_UNORM)];
    assert_eq!(select_format(Some(&list)).unwrap().code(), BGRA8_UNORM);
}

#[test]
fn format_without_list_defaults_to_rgba8_srgb() {
    assert_eq!(select_format(None).unwrap().code(), RGBA8_SRGB_CODE);
    assert_eq!(ColorFormat::rgba8_srgb().code(), 43);
}

#[test]
fn format_empty_list_is_an_error() {
    let list: Vec<ColorFormat> = Vec::new();
    let err = select_format(Some(&list)).unwrap_err();
    assert_eq!(err.kind(), ErrorKind::EmptyFormatList);
    assert_eq!(err.message(), "Supported format list was empty.");
}

#[test]
fn image_count_is_three_for_mailbox_two_otherwise() {
    let caps = capabilities();
    assert_eq!(compute_image_count(&caps, PresentMode::Mailbox), 3);
    assert_eq!(compute_image_count(&caps, PresentMode::Fifo), 2);
    assert_eq!(compute_image_count(&caps, PresentMode::Relaxed), 2);
    assert_eq!(compute_image_count(&caps, PresentMode::Immediate), 2);
}

#[test]
fn image_count_is_clamped_to_surface_bounds() {
    let mut caps = capabilities();
    caps.min_image_count = 4;
    caps.max_image_count = 6;
    assert_eq!(compute_image_count(&caps, PresentMode::Mailbox), 4);
    assert_eq!(compute_image_count(&caps, PresentMode::Fifo), 4);
    caps.min_image_count = 1;
    caps.max_image_count = 2;
    assert_eq!(compute_image_count(&caps, PresentMode::Mailbox), 2);
    caps.max_image_count = 1;
    assert_eq!(compute_image_count(&caps, PresentMode::Fifo), 1);
    for min in 1..5u32 {
        for max in min..7u32 {
            caps.min_image_count = min;
            caps.max_image_count = max;
            for mode in [PresentMode::Mailbox, PresentMode::Fifo] {
                let count = compute_image_count(&caps, mode);
                assert!(min <= count && count <= max);
            }
        }
    }
}

#[test]
fn extent_follows_window_without_current_extent() {
    let caps = capabilities();
    assert_eq!(determine_extent((800, 600), &caps), Extent2D { width: 800, height: 600 });
}

#[test]
fn extent_is_current_extent_when_reported() {
    let mut caps = capabilities();
    caps.current_extent = Some(Extent2D { width: 640, height: 480 });
    assert_eq!(determine_extent((800, 600), &caps), Extent2D { width: 640, height: 480 });
    assert_eq!(determine_extent((10, 20000), &caps), Extent2D { width: 640, height: 480 });
}

#[test]
fn extent_is_clamped_per_component() {
    let mut caps = capabilities();
    caps.min_extent = Extent2D { width: 100, height: 200 };
    caps.max_extent = Extent2D { width: 1000, height: 2000 };
    assert_eq!(determine_extent((5000, 50), &caps), Extent2D { width: 1000, height: 200 });
    assert_eq!(determine_extent((0, 5000), &caps), Extent2D { width: 100, height: 2000 });
}

#[test]
fn image_usage_needs_color_attachment() {
    let mut caps = capabilities();
    assert_eq!(select_image_usage(&caps).unwrap(), ImageUsage::ColorAttachment);
    caps.color_attachment_usage = false;
    let err = select_image_usage(&caps).unwrap_err();
    assert_eq!(err.kind(), ErrorKind::UnsupportedColorUsage);
    assert_eq!(err.message(), "Surface does not support color.");
}

#[test]
fn swapchain_config_combines_the_choices() {
    let mut caps = capabilities();
    caps.present_modes = modes(true, false, true, false);
    caps.composite_alpha_modes.opaque = false;
    let list = vec![format(RGBA8_UNORM)];
    let config = configure_swapchain(&caps, Some(&list), (800, 600)).unwrap();
    assert_eq!(config.present_mode, PresentMode::Fifo);
    assert_eq!(config.composite_alpha_mode, CompositeAlphaMode::Inherit);
    assert_eq!(config.format.code(), RGBA8_UNORM);
    assert_eq!(config.extent, Extent2D { width: 800, height: 600 });
    assert_eq!(config.image_count, 2);
    assert_eq!(config.image_layers, 1);
    assert_eq!(config.image_usage, ImageUsage::ColorAttachment);
}

#[test]
fn swapchain_config_reports_first_failing_check() {
    let mut caps = capabilities();
    caps.color_attachment_usage = false;
    let empty: Vec<ColorFormat> = Vec::new();
    assert_eq!(
        configure_swapchain(&caps, Some(&empty), (1, 1)).unwrap_err().kind(),
        ErrorKind::EmptyFormatList
    );
    assert_eq!(
        configure_swapchain(&caps, None, (1, 1)).unwrap_err().kind(),
        ErrorKind::UnsupportedColorUsage
    );
    caps.present_modes = modes(false, false, false, false);
    assert_eq!(
        configure_swapchain(&caps, Some(&empty), (1, 1)).unwrap_err().kind(),
        ErrorKind::NoPresentMode
    );
}

fn family(id: usize, kind: QueueKind, surface_support: bool) -> QueueFamilyInfo {
    QueueFamilyInfo { id, kind, surface_support }
}

#[test]
fn queue_family_needs_graphics_and_surface_support() {
    let families = vec![
        family(0, QueueKind::Compute, true),
        family(1, QueueKind::Graphics, false),
        family(2, QueueKind::General, true),
        family(3, QueueKind::Graphics, true),
    ];
    assert_eq!(select_queue_family(&families).unwrap(), 2);
    let none = vec![family(0, QueueKind::Transfer, true), family(1, QueueKind::Graphics, false)];
    let err = select_queue_family(&none).unwrap_err();
    assert_eq!(err.kind(), ErrorKind::NoSupportedQueueFamily);
    assert_eq!(err.message(), "Could not find supported queue family with graphics.");
}

#[test]
fn adapter_selection_takes_first_match() {
    let adapters = vec![
        AdapterInfo { queue_families: vec![family(0, QueueKind::Compute, true)] },
        AdapterInfo { queue_families: vec![family(0, QueueKind::Graphics, true)] },
        AdapterInfo { queue_families: vec![family(0, QueueKind::General, true)] },
    ];
    assert_eq!(select_adapter(&adapters).unwrap(), 1);
    let mut state = AdapterState::new(vec!["a", "b", "c"], &adapters).unwrap();
    assert_eq!(state.take_adapter(), "b");
    let unusable = vec![AdapterInfo { queue_families: vec![] }];
    let err = select_adapter(&unusable).unwrap_err();
    assert_eq!(err.kind(), ErrorKind::NoSupportedAdapter);
    assert_eq!(err.message(), "Could not find a supported graphical adapter.");
    assert!(AdapterState::new(vec![7u8], &unusable).is_err());
}

#[test]
fn queue_group_must_exist_and_hold_queues() {
    let groups = vec![
        QueueGroupInfo { family: 4, queue_count: 1 },
        QueueGroupInfo { family: 2, queue_count: 1 },
        QueueGroupInfo { family: 3, queue_count: 0 },
    ];
    assert_eq!(select_queue_group(&groups, 2).unwrap(), 1);
    let empty = select_queue_group(&groups, 3).unwrap_err();
    assert_eq!(empty.kind(), ErrorKind::QueueGroupUnavailable);
    assert_eq!(empty.message(), "Queue group did not have any command queues available.");
    let absent = select_queue_group(&groups, 9).unwrap_err();
    assert_eq!(absent.kind(), ErrorKind::QueueGroupUnavailable);
    assert_eq!(absent.message(), "Could not take ownership of queue group.");
}

#[test]
fn render_pass_clears_and_presents_one_attachment() {
    let desc = describe_render_pass(format(BGRA8_SRGB));
    assert_eq!(desc.attachment.format.code(), BGRA8_SRGB);
    assert_eq!(desc.attachment.samples, 1);
    assert_eq!(desc.attachment.load, LoadOp::Clear);
    assert_eq!(desc.attachment.store, StoreOp::Store);
    assert_eq!(desc.attachment.initial_layout, ImageLayout::Undefined);
    assert_eq!(desc.attachment.final_layout, ImageLayout::Present);
    assert_eq!(desc.subpass.color_attachment, 0);
    assert_eq!(desc.subpass.color_layout, ImageLayout::ColorAttachmentOptimal);
    assert_eq!(desc.dependency.source, SubpassRef::External);
    assert_eq!(desc.dependency.target, SubpassRef::Pass(0));
    assert!(desc.dependency.color_output_stage);
    assert!(!desc.dependency.source_access.color_attachment_write);
    assert!(desc.dependency.target_access.color_attachment_read);
    assert!(desc.dependency.target_access.color_attachment_write);
}

#[test]
fn swapchain_state_records_its_creation() {
    let caps = capabilities();
    let config = configure_swapchain(&caps, None, (800, 600)).unwrap();
    let mut state =
        SwapchainState::new(&caps, None, (800, 600), &config, Ok((9u64, vec![1u64, 2, 3]))).unwrap();
    assert_eq!(state.image_count(), 3);
    assert_eq!(state.config(), config);
    assert_eq!(state.extent(), Extent2D { width: 800, height: 600 });
    assert_eq!(state.format().code(), RGBA8_SRGB_CODE);
    assert!(state.has_backbuffer());
    assert_eq!(state.take_backbuffer(), vec![1, 2, 3]);
    assert!(!state.has_backbuffer());
    assert_eq!(state.into_swapchain(), 9);
}

#[test]
fn swapchain_creation_failure_is_wrapped() {
    let caps = capabilities();
    let config = configure_swapchain(&caps, None, (800, 600)).unwrap();
    let created: Result<(u64, Vec<u64>), String> = Err(String::from("surface lost"));
    let err = SwapchainState::new(&caps, None, (800, 600), &config, created)
        .err()
        .unwrap();
    assert_eq!(err.kind(), ErrorKind::SwapchainCreateFailed);
    assert_eq!(err.message(), "Could not create swapchain: surface lost");
}

#[test]
fn render_pass_state_records_its_description() {
    let desc = describe_render_pass(format(BGRA8_SRGB));
    let state = RenderPassState::new(&desc, Ok(5u64)).unwrap();
    assert_eq!(*state.render_pass(), 5);
    assert_eq!(state.format().code(), BGRA8_SRGB);
    let failed = RenderPassState::<u64>::new(&desc, Err(String::from("out of memory")))
        .err()
        .unwrap();
    assert_eq!(failed.kind(), ErrorKind::RenderPassCreateFailed);
    assert_eq!(failed.message(), "Could not create render pass: out of memory");
}
