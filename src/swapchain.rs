//! Swapchain configuration and the state that owns a swapchain.

use crate::error::{outcome, ErrorKind, RenderingError, VortekError, VortekResult};
use crate::format::{ColorFormat, RGBA8_SRGB_CODE};
use vstd::prelude::*;

verus! {

/// A presentation mode of a swapchain.
#[derive(Clone, Copy, Debug, PartialEq, Eq, Structural)]
pub enum PresentMode {
    Immediate,
    Mailbox,
    Fifo,
    Relaxed,
}

/// Rank of a present mode in the order of preference; smaller is preferred.
pub open spec fn present_priority(mode: PresentMode) -> int {
    match mode {
        PresentMode::Mailbox => 0,
        PresentMode::Fifo => 1,
        PresentMode::Relaxed => 2,
        PresentMode::Immediate => 3,
    }
}

/// The set of present modes that a surface supports.
#[derive(Clone, Copy, Debug, PartialEq, Eq, Structural)]
pub struct PresentModeSet {
    pub immediate: bool,
    pub mailbox: bool,
    pub fifo: bool,
    pub relaxed: bool,
}

impl PresentModeSet {
    /// Whether the set holds the mode.
    pub open spec fn has(&self, mode: PresentMode) -> bool {
        match mode {
            PresentMode::Immediate => self.immediate,
            PresentMode::Mailbox => self.mailbox,
            PresentMode::Fifo => self.fifo,
            PresentMode::Relaxed => self.relaxed,
        }
    }

    /// Returns whether the set holds the mode.
    pub fn contains(&self, mode: PresentMode) -> (r: bool)
        ensures
            r == self.has(mode),
    {
        match mode {
            PresentMode::Immediate => self.immediate,
            PresentMode::Mailbox => self.mailbox,
            PresentMode::Fifo => self.fifo,
            PresentMode::Relaxed => self.relaxed,
        }
    }
}

/// How the alpha channel of presented images is composited.
#[derive(Clone, Copy, Debug, PartialEq, Eq, Structural)]
pub enum CompositeAlphaMode {
    Opaque,
    Inherit,
    Premultiplied,
    Postmultiplied,
}

/// Rank of a composite alpha mode in the order of preference; smaller is preferred.
pub open spec fn alpha_priority(mode: CompositeAlphaMode) -> int {
    match mode {
        CompositeAlphaMode::Opaque => 0,
        CompositeAlphaMode::Inherit => 1,
        CompositeAlphaMode::Premultiplied => 2,
        CompositeAlphaMode::Postmultiplied => 3,
    }
}

/// The set of composite alpha modes that a surface supports.
#[derive(Clone, Copy, Debug, PartialEq, Eq, Structural)]
pub struct CompositeAlphaSet {
    pub opaque: bool,
    pub inherit: bool,
    pub premultiplied: bool,
    pub postmultiplied: bool,
}

impl CompositeAlphaSet {
    /// Whether the set holds the mode.
    pub open spec fn has(&self, mode: CompositeAlphaMode) -> bool {
        match mode {
            CompositeAlphaMode::Opaque => self.opaque,
            CompositeAlphaMode::Inherit => self.inherit,
            CompositeAlphaMode::Premultiplied => self.premultiplied,
            CompositeAlphaMode::Postmultiplied => self.postmultiplied,
        }
    }

    /// Returns whether the set holds the mode.
    pub fn contains(&self, mode: CompositeAlphaMode) -> (r: bool)
        ensures
            r == self.has(mode),
    {
        match mode {
            CompositeAlphaMode::Opaque => self.opaque,
            CompositeAlphaMode::Inherit => self.inherit,
            CompositeAlphaMode::Premultiplied => self.premultiplied,
            CompositeAlphaMode::Postmultiplied => self.postmultiplied,
        }
    }
}

/// A two-dimensional size in pixels.
#[derive(Clone, Copy, Debug, PartialEq, Eq, Structural)]
pub struct Extent2D {
    pub width: u32,
    pub height: u32,
}

/// What a surface reports it can do for a swapchain built on it.
#[derive(Clone, Copy, Debug, PartialEq, Eq, Structural)]
pub struct SurfaceCapabilities {
    pub min_image_count: u32,
    pub max_image_count: u32,
    pub current_extent: Option<Extent2D>,
    pub min_extent: Extent2D,
    pub max_extent: Extent2D,
    pub max_image_layers: u16,
    pub color_attachment_usage: bool,
    pub present_modes: PresentModeSet,
    pub composite_alpha_modes: CompositeAlphaSet,
}

/// `value` brought into `[low, high]`: raised to `low`, then lowered to `high`.
pub open spec fn clamp(value: int, low: int, high: int) -> int {
    let raised = if value < low { low } else { value };
    if raised > high { high } else { raised }
}

/// Number of images wanted for a present mode before the surface's bounds apply.
pub open spec fn preferred_image_count(mode: PresentMode) -> int {
    if mode == PresentMode::Mailbox { 3 } else { 2 }
}

/// The outcome of selecting from a set of present modes: the first of mailbox,
/// FIFO, relaxed FIFO and immediate that the set holds, or the error for an
/// empty set. It depends on the set alone.
pub open spec fn present_mode_outcome(modes: PresentModeSet) -> Result<
    PresentMode,
    (ErrorKind, Seq<char>),
> {
    if modes.mailbox {
        Ok(PresentMode::Mailbox)
    } else if modes.fifo {
        Ok(PresentMode::Fifo)
    } else if modes.relaxed {
        Ok(PresentMode::Relaxed)
    } else if modes.immediate {
        Ok(PresentMode::Immediate)
    } else {
        Err((ErrorKind::NoPresentMode, "No present modes specified."@))
    }
}

/// `m` is the most preferred present mode of the set.
pub open spec fn present_mode_choice(modes: PresentModeSet, m: PresentMode) -> bool {
    &&& modes.has(m)
    &&& forall|o: PresentMode| #[trigger] modes.has(o) ==> present_priority(m) <= present_priority(o)
}

/// `m` is the most preferred composite alpha mode of the set.
pub open spec fn alpha_choice(modes: CompositeAlphaSet, m: CompositeAlphaMode) -> bool {
    &&& modes.has(m)
    &&& forall|o: CompositeAlphaMode| #[trigger] modes.has(o) ==> alpha_priority(m) <= alpha_priority(
        o,
    )
}

/// `f` is the format chosen from the supported list: its first sRGB entry, else
/// its first entry; with no list, the 8-bit sRGB RGBA format.
pub open spec fn format_choice(formats: Option<Seq<ColorFormat>>, f: ColorFormat) -> bool {
    match formats {
        None => f.spec_code() == RGBA8_SRGB_CODE,
        Some(s) => {
            ||| exists|i: int| first_srgb_at(s, i) && f == s[i]
            ||| s.len() > 0 && (forall|i: int| 0 <= i < s.len() ==> !(#[trigger] s[i]).is_srgb())
                && f == s[0]
        },
    }
}

/// A format list that a format can be chosen from: none at all, or a non-empty one.
pub open spec fn format_list_usable(formats: Option<Seq<ColorFormat>>) -> bool {
    match formats {
        None => true,
        Some(s) => s.len() > 0,
    }
}

/// The view of an optional borrowed format list.
pub open spec fn format_list_view(formats: Option<&Vec<ColorFormat>>) -> Option<Seq<ColorFormat>> {
    match formats {
        None => None,
        Some(v) => Some(v@),
    }
}

/// The swapchain extent for a window size: the surface's current extent if it
/// reports one, else the window size clamped component-wise into the supported range.
pub open spec fn extent_choice(window_size: (u32, u32), capabilities: SurfaceCapabilities) -> Extent2D {
    match capabilities.current_extent {
        Some(e) => e,
        None => Extent2D {
            width: clamp(
                window_size.0 as int,
                capabilities.min_extent.width as int,
                capabilities.max_extent.width as int,
            ) as u32,
            height: clamp(
                window_size.1 as int,
                capabilities.min_extent.height as int,
                capabilities.max_extent.height as int,
            ) as u32,
        },
    }
}

/// The number of images for a present mode, within the surface's bounds.
pub open spec fn image_count_choice(capabilities: SurfaceCapabilities, mode: PresentMode) -> int {
    clamp(
        preferred_image_count(mode),
        capabilities.min_image_count as int,
        capabilities.max_image_count as int,
    )
}

/// `formats[i]` is the first sRGB entry of the list.
pub open spec fn first_srgb_at(formats: Seq<ColorFormat>, i: int) -> bool {
    &&& 0 <= i < formats.len()
    &&& formats[i].is_srgb()
    &&& forall|j: int| 0 <= j < i ==> !(#[trigger] formats[j]).is_srgb()
}

/// Image usage of a swapchain's images.
#[derive(Clone, Copy, Debug, PartialEq, Eq, Structural)]
pub enum ImageUsage {
    ColorAttachment,
}

/// Selects the most preferred present mode that the surface supports:
/// mailbox, then FIFO, then relaxed FIFO, then immediate.
pub fn select_present_mode(capabilities: &SurfaceCapabilities) -> (r: VortekResult<PresentMode>)
    ensures
        outcome(r) == present_mode_outcome(capabilities.present_modes),
        r is Ok <==> exists|m: PresentMode| capabilities.present_modes.has(m),
        r matches Ok(m) ==> {
            &&& capabilities.present_modes.has(m)
            &&& forall|o: PresentMode| #[trigger]
                capabilities.present_modes.has(o) ==> present_priority(m) <= present_priority(o)
        },
        r matches Err(e) ==> e.spec_kind() == ErrorKind::NoPresentMode && e.spec_message()
            == "No present modes specified."@,
{
    let modes = capabilities.present_modes;
    if modes.contains(PresentMode::Mailbox) {
        Ok(PresentMode::Mailbox)
    } else if modes.contains(PresentMode::Fifo) {
        Ok(PresentMode::Fifo)
    } else if modes.contains(PresentMode::Relaxed) {
        Ok(PresentMode::Relaxed)
    } else if modes.contains(PresentMode::Immediate) {
        Ok(PresentMode::Immediate)
    } else {
        proof {
            assert forall|m: PresentMode| !modes.has(m) by {
                match m {
                    PresentMode::Immediate => {},
                    PresentMode::Mailbox => {},
                    PresentMode::Fifo => {},
                    PresentMode::Relaxed => {},
                }
            }
        }
        Err(VortekError::rendering(ErrorKind::NoPresentMode, "No present modes specified."))
    }
}

/// Selects the most preferred composite alpha mode that the surface supports:
/// opaque, then inherit, then premultiplied, then postmultiplied.
pub fn select_composite_alpha_mode(capabilities: &SurfaceCapabilities) -> (r: VortekResult<
    CompositeAlphaMode,
>)
    ensures
        r is Ok <==> exists|m: CompositeAlphaMode| capabilities.composite_alpha_modes.has(m),
        r matches Ok(m) ==> {
            &&& capabilities.composite_alpha_modes.has(m)
            &&& forall|o: CompositeAlphaMode| #[trigger]
                capabilities.composite_alpha_modes.has(o) ==> alpha_priority(m) <= alpha_priority(
                    o,
                )
        },
        r matches Err(e) ==> e.spec_kind() == ErrorKind::NoCompositeAlpha && e.spec_message()
            == "No composite alpha modes specified."@,
{
    let modes = capabilities.composite_alpha_modes;
    if modes.contains(CompositeAlphaMode::Opaque) {
        Ok(CompositeAlphaMode::Opaque)
    } else if modes.contains(CompositeAlphaMode::Inherit) {
        Ok(CompositeAlphaMode::Inherit)
    } else if modes.contains(CompositeAlphaMode::Premultiplied) {
        Ok(CompositeAlphaMode::Premultiplied)
    } else if modes.contains(CompositeAlphaMode::Postmultiplied) {
        Ok(CompositeAlphaMode::Postmultiplied)
    } else {
        proof {
            assert forall|m: CompositeAlphaMode| !modes.has(m) by {
                match m {
                    CompositeAlphaMode::Opaque => {},
                    CompositeAlphaMode::Inherit => {},
                    CompositeAlphaMode::Premultiplied => {},
                    CompositeAlphaMode::Postmultiplied => {},
                }
            }
        }
        Err(
            VortekError::rendering(
                ErrorKind::NoCompositeAlpha,
                "No composite alpha modes specified.",
            ),
        )
    }
}

/// Selects the first sRGB format of the supported list, or else the list's first
/// format; with no list (no restriction), the 8-bit sRGB RGBA format.
pub fn select_format(supported_formats: Option<&Vec<ColorFormat>>) -> (r: VortekResult<ColorFormat>)
    ensures
        r is Ok <==> format_list_usable(format_list_view(supported_formats)),
        r matches Ok(f) ==> format_choice(format_list_view(supported_formats), f),
        supported_formats is None ==> (r matches Ok(f) && f.spec_code() == RGBA8_SRGB_CODE),
        supported_formats matches Some(v) ==> {
            let s = v@;
            &&& s.len() == 0 ==> (r matches Err(e) && e.spec_kind() == ErrorKind::EmptyFormatList
                && e.spec_message() == "Supported format list was empty."@)
            &&& (exists|i: int| first_srgb_at(s, i)) ==> (r matches Ok(f) && exists|i: int|
                first_srgb_at(s, i) && f == s[i])
            &&& (s.len() > 0 && forall|i: int| 0 <= i < s.len() ==> !(#[trigger] s[i]).is_srgb())
                ==> r == Ok::<ColorFormat, VortekError>(s[0])
        },
{
    match supported_formats {
        None => Ok(ColorFormat::rgba8_srgb()),
        Some(formats) => {
            let mut i: usize = 0;
            while i < formats.len()
                invariant
                    supported_formats == Some(formats),
                    0 <= i <= formats@.len(),
                    forall|j: int| 0 <= j < i ==> !(#[trigger] formats@[j]).is_srgb(),
                decreases formats@.len() - i,
            {
                if formats[i].srgb() {
                    proof {
                        assert(first_srgb_at(formats@, i as int));
                    }
                    return Ok(formats[i]);
                }
                i = i + 1;
            }
            if formats.len() == 0 {
                Err(
                    VortekError::rendering(
                        ErrorKind::EmptyFormatList,
                        "Supported format list was empty.",
                    ),
                )
            } else {
                proof {
                    assert forall|k: int| !first_srgb_at(formats@, k) by {
                        if 0 <= k < formats@.len() {
                            assert(!formats@[k].is_srgb());
                        }
                    }
                }
                Ok(formats[0])
            }
        }
    }
}

/// Determines the swapchain extent: the surface's current extent if it reports
/// one, else the window size brought component-wise into the supported range.
pub fn determine_extent(window_size: (u32, u32), capabilities: &SurfaceCapabilities) -> (r: Extent2D)
    ensures
        r == extent_choice(window_size, *capabilities),
        capabilities.current_extent matches Some(e) ==> r == e,
        capabilities.current_extent is None ==> {
            &&& r.width == clamp(
                window_size.0 as int,
                capabilities.min_extent.width as int,
                capabilities.max_extent.width as int,
            )
            &&& r.height == clamp(
                window_size.1 as int,
                capabilities.min_extent.height as int,
                capabilities.max_extent.height as int,
            )
        },
{
    match capabilities.current_extent {
        Some(extent) => extent,
        None => {
            let (window_width, window_height) = window_size;
            let width = clamp_u32(
                window_width,
                capabilities.min_extent.width,
                capabilities.max_extent.width,
            );
            let height = clamp_u32(
                window_height,
                capabilities.min_extent.height,
                capabilities.max_extent.height,
            );
            Extent2D { width, height }
        },
    }
}

/// `value` raised to `low`, then lowered to `high`.
pub fn clamp_u32(value: u32, low: u32, high: u32) -> (r: u32)
    ensures
        r == clamp(value as int, low as int, high as int),
{
    let raised = if value < low {
        low
    } else {
        value
    };
    if raised > high {
        high
    } else {
        raised
    }
}

/// Computes the number of swapchain images: three for mailbox, two otherwise,
/// brought into the surface's supported range.
pub fn compute_image_count(capabilities: &SurfaceCapabilities, present_mode: PresentMode) -> (r:
    u32)
    ensures
        r == clamp(
            preferred_image_count(present_mode),
            capabilities.min_image_count as int,
            capabilities.max_image_count as int,
        ),
        capabilities.min_image_count <= capabilities.max_image_count ==> capabilities.min_image_count
            <= r <= capabilities.max_image_count,
{
    let preferred: u32 = if present_mode == PresentMode::Mailbox {
        3
    } else {
        2
    };
    clamp_u32(preferred, capabilities.min_image_count, capabilities.max_image_count)
}

/// The images are used as colour attachments; fails if the surface does not allow it.
pub fn select_image_usage(capabilities: &SurfaceCapabilities) -> (r: VortekResult<ImageUsage>)
    ensures
        r is Ok <==> capabilities.color_attachment_usage,
        r matches Ok(u) ==> u == ImageUsage::ColorAttachment,
        r matches Err(e) ==> e.spec_kind() == ErrorKind::UnsupportedColorUsage && e.spec_message()
            == "Surface does not support color."@,
{
    if capabilities.color_attachment_usage {
        Ok(ImageUsage::ColorAttachment)
    } else {
        Err(
            VortekError::rendering(
                ErrorKind::UnsupportedColorUsage,
                "Surface does not support color.",
            ),
        )
    }
}

/// `c` is the configuration negotiated from the surface's capabilities, its
/// supported formats and the window's size.
pub open spec fn negotiated(
    capabilities: SurfaceCapabilities,
    formats: Option<Seq<ColorFormat>>,
    window_size: (u32, u32),
    c: SwapchainConfig,
) -> bool {
    &&& present_mode_choice(capabilities.present_modes, c.present_mode)
    &&& alpha_choice(capabilities.composite_alpha_modes, c.composite_alpha_mode)
    &&& format_choice(formats, c.format)
    &&& c.extent == extent_choice(window_size, capabilities)
    &&& c.image_count == image_count_choice(capabilities, c.present_mode)
    &&& c.image_layers == 1
    &&& c.image_usage == ImageUsage::ColorAttachment
}

/// Everything a swapchain is created with.
#[derive(Clone, Copy, Debug, PartialEq, Eq, Structural)]
pub struct SwapchainConfig {
    pub present_mode: PresentMode,
    pub composite_alpha_mode: CompositeAlphaMode,
    pub format: ColorFormat,
    pub extent: Extent2D,
    pub image_count: u32,
    pub image_layers: u16,
    pub image_usage: ImageUsage,
}

/// Negotiates the swapchain configuration from what the surface supports and the
/// window's size in pixels. The checks are made in this order: present mode,
/// composite alpha, format, image usage; the first that fails gives the error.
pub fn configure_swapchain(
    capabilities: &SurfaceCapabilities,
    supported_formats: Option<&Vec<ColorFormat>>,
    window_size: (u32, u32),
) -> (r: VortekResult<SwapchainConfig>)
    ensures
        r is Ok <==> {
            &&& exists|m: PresentMode| capabilities.present_modes.has(m)
            &&& exists|m: CompositeAlphaMode| capabilities.composite_alpha_modes.has(m)
            &&& format_list_usable(format_list_view(supported_formats))
            &&& capabilities.color_attachment_usage
        },
        r matches Ok(c) ==> negotiated(
            *capabilities,
            format_list_view(supported_formats),
            window_size,
            c,
        ),
        r matches Err(e) ==> e.spec_kind() == if !exists|m: PresentMode|
            capabilities.present_modes.has(m) {
            ErrorKind::NoPresentMode
        } else if !exists|m: CompositeAlphaMode| capabilities.composite_alpha_modes.has(m) {
            ErrorKind::NoCompositeAlpha
        } else if !format_list_usable(format_list_view(supported_formats)) {
            ErrorKind::EmptyFormatList
        } else {
            ErrorKind::UnsupportedColorUsage
        },
{
    let present_mode = select_present_mode(capabilities)?;
    let composite_alpha_mode = select_composite_alpha_mode(capabilities)?;
    let format = select_format(supported_formats)?;
    let extent = determine_extent(window_size, capabilities);
    let image_count = compute_image_count(capabilities, present_mode);
    let image_layers: u16 = 1;
    let image_usage = select_image_usage(capabilities)?;
    Ok(
        SwapchainConfig {
            present_mode,
            composite_alpha_mode,
            format,
            extent,
            image_count,
            image_layers,
            image_usage,
        },
    )
}

/// A swapchain handle of type `S`, the images of type `I` it was created with
/// (until they are taken), their number, and the configuration it was created
/// with, whose extent and format never change: a new extent or format needs a
/// new swapchain.
pub struct SwapchainState<S, I> {
    swapchain: S,
    backbuffer: Option<Vec<I>>,
    image_count: usize,
    config: SwapchainConfig,
}

impl<S, I> SwapchainState<S, I> {
    /// The swapchain handle.
    pub closed spec fn spec_swapchain(&self) -> S {
        self.swapchain
    }

    /// The images, while they have not been taken.
    pub closed spec fn spec_backbuffer(&self) -> Option<Seq<I>> {
        match self.backbuffer {
            Some(v) => Some(v@),
            None => None,
        }
    }

    /// The number of images the swapchain was created with.
    pub closed spec fn spec_image_count(&self) -> nat {
        self.image_count as nat
    }

    /// The configuration the swapchain was created with.
    pub closed spec fn spec_config(&self) -> SwapchainConfig {
        self.config
    }

    /// The extent of the swapchain's images.
    pub open spec fn spec_extent(&self) -> Extent2D {
        self.spec_config().extent
    }

    /// The format of the swapchain's images.
    pub open spec fn spec_format(&self) -> ColorFormat {
        self.spec_config().format
    }

    /// Wraps the outcome of creating a swapchain with `config`, the configuration
    /// negotiated for the capabilities, supported formats and window size: the
    /// swapchain and its images, or the driver's error text, which fails with
    /// `SwapchainCreateFailed`.
    pub fn new(
        capabilities: &SurfaceCapabilities,
        supported_formats: Option<&Vec<ColorFormat>>,
        window_size: (u32, u32),
        config: &SwapchainConfig,
        created: Result<(S, Vec<I>), String>,
    ) -> (r: VortekResult<Self>)
        requires
            negotiated(*capabilities, format_list_view(supported_formats), window_size, *config),
        ensures
            r is Ok <==> created is Ok,
            r matches Ok(s) ==> {
                &&& created matches Ok(c) && s.spec_swapchain() == c.0 && s.spec_backbuffer()
                    == Some(c.1@) && s.spec_image_count() == c.1@.len()
                &&& s.spec_config() == *config
                &&& negotiated(
                    *capabilities,
                    format_list_view(supported_formats),
                    window_size,
                    s.spec_config(),
                )
            },
            r matches Err(e) ==> created matches Err(text) && e.spec_kind()
                == ErrorKind::SwapchainCreateFailed && e.spec_message()
                == "Could not create swapchain: "@ + text@,
    {
        match created {
            Ok((swapchain, backbuffer)) => {
                let image_count = backbuffer.len();
                Ok(
                    SwapchainState {
                        swapchain,
                        backbuffer: Some(backbuffer),
                        image_count,
                        config: *config,
                    },
                )
            },
            Err(text) => Err(
                VortekError::RenderingError(
                    RenderingError::from_error(
                        ErrorKind::SwapchainCreateFailed,
                        "Could not create swapchain: ",
                        text.as_str(),
                    ),
                ),
            ),
        }
    }

    /// Returns the number of images the swapchain was created with.
    pub fn image_count(&self) -> (r: usize)
        ensures
            r == self.spec_image_count(),
    {
        self.image_count
    }

    /// Returns the configuration the swapchain was created with.
    pub fn config(&self) -> (r: SwapchainConfig)
        ensures
            r == self.spec_config(),
    {
        self.config
    }

    /// Returns a reference to the swapchain.
    pub fn swapchain(&self) -> (r: &S)
        ensures
            *r == self.spec_swapchain(),
    {
        &self.swapchain
    }

    /// Returns a mutable reference to the swapchain.
    pub fn swapchain_mut(&mut self) -> (r: &mut S)
        ensures
            *r == old(self).spec_swapchain(),
            final(self).spec_swapchain() == *final(r),
            final(self).spec_backbuffer() == old(self).spec_backbuffer(),
            final(self).spec_image_count() == old(self).spec_image_count(),
            final(self).spec_config() == old(self).spec_config(),
    {
        &mut self.swapchain
    }

    /// Returns the extent of the swapchain's images.
    pub fn extent(&self) -> (r: Extent2D)
        ensures
            r == self.spec_extent(),
    {
        self.config.extent
    }

    /// Returns the format of the swapchain's images.
    pub fn format(&self) -> (r: ColorFormat)
        ensures
            r == self.spec_format(),
    {
        self.config.format
    }

    /// Returns whether the images are still held.
    pub fn has_backbuffer(&self) -> (r: bool)
        ensures
            r == self.spec_backbuffer() is Some,
    {
        self.backbuffer.is_some()
    }

    /// Moves the images out; they can be taken once.
    pub fn take_backbuffer(&mut self) -> (r: Vec<I>)
        requires
            old(self).spec_backbuffer() is Some,
        ensures
            old(self).spec_backbuffer() == Some(r@),
            final(self).spec_backbuffer() is None,
            final(self).spec_swapchain() == old(self).spec_swapchain(),
            final(self).spec_image_count() == old(self).spec_image_count(),
            final(self).spec_config() == old(self).spec_config(),
    {
        self.backbuffer.take().unwrap()
    }

    /// Gives up the state, handing back the swapchain so that it can be destroyed.
    pub fn into_swapchain(self) -> (r: S)
        ensures
            r == self.spec_swapchain(),
    {
        self.swapchain
    }
}

} // verus!
