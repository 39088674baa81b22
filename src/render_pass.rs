//! The render pass: one colour attachment, one subpass, one dependency.

use crate::error::{ErrorKind, RenderingError, VortekError, VortekResult};
use crate::format::ColorFormat;
use vstd::prelude::*;

verus! {

/// What happens to an attachment's contents when the subpass starts.
#[derive(Clone, Copy, Debug, PartialEq, Eq, Structural)]
pub enum LoadOp {
    Load,
    Clear,
    DontCare,
}

/// What happens to an attachment's contents when the subpass ends.
#[derive(Clone, Copy, Debug, PartialEq, Eq, Structural)]
pub enum StoreOp {
    Store,
    DontCare,
}

/// Layout of an image in memory.
#[derive(Clone, Copy, Debug, PartialEq, Eq, Structural)]
pub enum ImageLayout {
    Undefined,
    ColorAttachmentOptimal,
    Present,
}

/// An attachment of the render pass.
#[derive(Clone, Copy, Debug, PartialEq, Eq, Structural)]
pub struct AttachmentDesc {
    pub format: ColorFormat,
    pub samples: u8,
    pub load: LoadOp,
    pub store: StoreOp,
    pub stencil_load: LoadOp,
    pub stencil_store: StoreOp,
    pub initial_layout: ImageLayout,
    pub final_layout: ImageLayout,
}

/// The subpass: it writes the one colour attachment.
#[derive(Clone, Copy, Debug, PartialEq, Eq, Structural)]
pub struct SubpassDesc {
    pub color_attachment: usize,
    pub color_layout: ImageLayout,
}

/// One end of a subpass dependency.
#[derive(Clone, Copy, Debug, PartialEq, Eq, Structural)]
pub enum SubpassRef {
    External,
    Pass(usize),
}

/// Accesses that a dependency orders.
#[derive(Clone, Copy, Debug, PartialEq, Eq, Structural)]
pub struct AccessSet {
    pub color_attachment_read: bool,
    pub color_attachment_write: bool,
}

/// The dependency that orders the implicit layout transition before the clear.
#[derive(Clone, Copy, Debug, PartialEq, Eq, Structural)]
pub struct SubpassDependencyDesc {
    pub source: SubpassRef,
    pub target: SubpassRef,
    /// The colour-attachment-output stage waits on itself on both ends.
    pub color_output_stage: bool,
    pub source_access: AccessSet,
    pub target_access: AccessSet,
}

/// The whole render pass.
#[derive(Clone, Copy, Debug, PartialEq, Eq, Structural)]
pub struct RenderPassDesc {
    pub attachment: AttachmentDesc,
    pub subpass: SubpassDesc,
    pub dependency: SubpassDependencyDesc,
}

/// The attachment: the given format, one sample, cleared at the start and
/// stored at the end, going from an undefined layout to the present layout.
pub open spec fn spec_attachment(format: ColorFormat) -> AttachmentDesc {
    AttachmentDesc {
        format,
        samples: 1,
        load: LoadOp::Clear,
        store: StoreOp::Store,
        stencil_load: LoadOp::DontCare,
        stencil_store: StoreOp::DontCare,
        initial_layout: ImageLayout::Undefined,
        final_layout: ImageLayout::Present,
    }
}

/// The subpass uses attachment zero in the colour-attachment-optimal layout.
pub open spec fn spec_subpass() -> SubpassDesc {
    SubpassDesc { color_attachment: 0, color_layout: ImageLayout::ColorAttachmentOptimal }
}

/// From outside the pass to subpass zero, on the colour-attachment-output stage,
/// from no access to colour reads and writes.
pub open spec fn spec_dependency() -> SubpassDependencyDesc {
    SubpassDependencyDesc {
        source: SubpassRef::External,
        target: SubpassRef::Pass(0),
        color_output_stage: true,
        source_access: AccessSet { color_attachment_read: false, color_attachment_write: false },
        target_access: AccessSet { color_attachment_read: true, color_attachment_write: true },
    }
}

/// Describes the attachment for the given format.
pub fn create_attachement(format: ColorFormat) -> (r: AttachmentDesc)
    ensures
        r == spec_attachment(format),
{
    AttachmentDesc {
        format,
        samples: 1,
        load: LoadOp::Clear,
        store: StoreOp::Store,
        stencil_load: LoadOp::DontCare,
        stencil_store: StoreOp::DontCare,
        initial_layout: ImageLayout::Undefined,
        final_layout: ImageLayout::Present,
    }
}

/// Describes the subpass.
pub fn create_subpass_description() -> (r: SubpassDesc)
    ensures
        r == spec_subpass(),
{
    SubpassDesc { color_attachment: 0, color_layout: ImageLayout::ColorAttachmentOptimal }
}

/// Describes the dependency.
pub fn create_subpass_dependency() -> (r: SubpassDependencyDesc)
    ensures
        r == spec_dependency(),
{
    SubpassDependencyDesc {
        source: SubpassRef::External,
        target: SubpassRef::Pass(0),
        color_output_stage: true,
        source_access: AccessSet { color_attachment_read: false, color_attachment_write: false },
        target_access: AccessSet { color_attachment_read: true, color_attachment_write: true },
    }
}

/// Describes the render pass for the swapchain's format. Nothing but the format
/// goes into it.
pub fn describe_render_pass(format: ColorFormat) -> (r: RenderPassDesc)
    ensures
        describes_clear_pass(r),
        r.attachment.format == format,
        r.attachment == spec_attachment(format),
        r.subpass == spec_subpass(),
        r.dependency == spec_dependency(),
{
    RenderPassDesc {
        attachment: create_attachement(format),
        subpass: create_subpass_description(),
        dependency: create_subpass_dependency(),
    }
}

/// A render pass handle of type `R`, with the description it was built from.
pub struct RenderPassState<R> {
    render_pass: R,
    desc: RenderPassDesc,
}

/// `desc` is the render pass described for its attachment's format.
pub open spec fn describes_clear_pass(desc: RenderPassDesc) -> bool {
    &&& desc.attachment == spec_attachment(desc.attachment.format)
    &&& desc.subpass == spec_subpass()
    &&& desc.dependency == spec_dependency()
}

impl<R> RenderPassState<R> {
    /// The render pass handle.
    pub closed spec fn spec_render_pass(&self) -> R {
        self.render_pass
    }

    /// The description the render pass was built from.
    pub closed spec fn spec_desc(&self) -> RenderPassDesc {
        self.desc
    }

    /// The format the render pass was built for.
    pub open spec fn spec_format(&self) -> ColorFormat {
        self.spec_desc().attachment.format
    }

    /// Wraps the outcome of creating a render pass from `desc`, as
    /// `describe_render_pass` gives it: the render pass, or the driver's error
    /// text, which fails with `RenderPassCreateFailed`.
    pub fn new(desc: &RenderPassDesc, created: Result<R, String>) -> (r: VortekResult<Self>)
        requires
            describes_clear_pass(*desc),
        ensures
            r is Ok <==> created is Ok,
            r matches Ok(s) ==> created == Ok::<R, String>(s.spec_render_pass()) && s.spec_desc()
                == *desc && describes_clear_pass(s.spec_desc()),
            r matches Err(e) ==> created matches Err(text) && e.spec_kind()
                == ErrorKind::RenderPassCreateFailed && e.spec_message()
                == "Could not create render pass: "@ + text@,
    {
        match created {
            Ok(render_pass) => Ok(RenderPassState { render_pass, desc: *desc }),
            Err(text) => Err(
                VortekError::RenderingError(
                    RenderingError::from_error(
                        ErrorKind::RenderPassCreateFailed,
                        "Could not create render pass: ",
                        text.as_str(),
                    ),
                ),
            ),
        }
    }

    /// Returns a reference to the render pass.
    pub fn render_pass(&self) -> (r: &R)
        ensures
            *r == self.spec_render_pass(),
    {
        &self.render_pass
    }

    /// Returns the format the render pass was built for.
    pub fn format(&self) -> (r: ColorFormat)
        ensures
            r == self.spec_format(),
    {
        self.desc.attachment.format
    }

    /// Gives up the state, handing back the render pass so that it can be destroyed.
    pub fn into_render_pass(self) -> (r: R)
        ensures
            r == self.spec_render_pass(),
    {
        self.render_pass
    }
}

} // verus!
