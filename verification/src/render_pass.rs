//! The render-pass descriptor: one color attachment matching the
//! negotiated swapchain format, and one subpass writing it.

use vstd::prelude::*;

use crate::swapchain::Format;

verus! {

/// What happens to an attachment's contents when a pass begins.
#[derive(Debug, Clone, Copy, PartialEq, Eq, Structural)]
pub enum AttachmentLoadOp {
    Clear,
    Load,
    DontCare,
}

/// What happens to an attachment's contents when a pass ends.
#[derive(Debug, Clone, Copy, PartialEq, Eq, Structural)]
pub enum AttachmentStoreOp {
    Store,
    DontCare,
}

/// The layout an attachment's image is in at a given point of the pass.
#[derive(Debug, Clone, Copy, PartialEq, Eq, Structural)]
pub enum ImageLayout {
    Undefined,
    ColorAttachmentOptimal,
    PresentSrc,
}

/// One attachment of the render pass: its format, its load and store
/// behaviour, and the layout it ends the pass in.
#[derive(Debug, Clone, Copy, PartialEq, Eq, Structural)]
pub struct AttachmentDescription {
    pub format: Format,
    pub load_op: AttachmentLoadOp,
    pub store_op: AttachmentStoreOp,
    pub initial_layout: ImageLayout,
    pub final_layout: ImageLayout,
}

/// A subpass's reference to one attachment, by position, with the layout
/// the subpass uses it in.
#[derive(Debug, Clone, Copy, PartialEq, Eq, Structural)]
pub struct AttachmentReference {
    pub attachment: u32,
    pub layout: ImageLayout,
}

/// One subpass: the attachments it writes as color outputs.
#[derive(Debug, Clone)]
pub struct SubpassDescription {
    pub color_attachments: Vec<AttachmentReference>,
}

/// The full render-pass declaration: its attachments and its subpasses.
#[derive(Debug, Clone)]
pub struct RenderPassDescription {
    pub attachments: Vec<AttachmentDescription>,
    pub subpasses: Vec<SubpassDescription>,
}

/// The single color attachment the pass declares for a given swapchain
/// format: cleared on load, stored on completion, ending ready for
/// presentation.
pub open spec fn color_attachment_for(format: Format) -> AttachmentDescription {
    AttachmentDescription {
        format,
        load_op: AttachmentLoadOp::Clear,
        store_op: AttachmentStoreOp::Store,
        initial_layout: ImageLayout::Undefined,
        final_layout: ImageLayout::PresentSrc,
    }
}

/// The shape of the render pass built for a given swapchain format: one
/// color attachment as `color_attachment_for` describes, and one subpass
/// whose sole color output is that attachment, in the optimal color
/// layout.
pub open spec fn render_pass_matches(pass: RenderPassDescription, format: Format) -> bool {
    &&& pass.attachments@ =~= seq![color_attachment_for(format)]
    &&& pass.subpasses@.len() == 1
    &&& pass.subpasses@[0].color_attachments@ =~= seq![
        AttachmentReference { attachment: 0, layout: ImageLayout::ColorAttachmentOptimal },
    ]
}

/// Declare the render pass for the negotiated swapchain format: one
/// cleared-and-stored color attachment ending in a presentable layout, and
/// one subpass referencing it as its sole color output.
pub fn create_render_pass(format: Format) -> (r: RenderPassDescription)
    ensures
        render_pass_matches(r, format),
{
    let color_attachment = AttachmentDescription {
        format,
        load_op: AttachmentLoadOp::Clear,
        store_op: AttachmentStoreOp::Store,
        initial_layout: ImageLayout::Undefined,
        final_layout: ImageLayout::PresentSrc,
    };
    let color_attachment_ref = AttachmentReference {
        attachment: 0,
        layout: ImageLayout::ColorAttachmentOptimal,
    };
    let subpass = SubpassDescription { color_attachments: vec![color_attachment_ref] };
    RenderPassDescription { attachments: vec![color_attachment], subpasses: vec![subpass] }
}

} // verus!
