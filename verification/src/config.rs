//! The surface configuration: which presentable images the swapchain hands
//! out. Negotiated once at startup; a resize afterwards may change the
//! dimensions and nothing else.

use vstd::prelude::*;

verus! {

/// The usage bit a render target needs (the swapchain images are only ever
/// drawn into).
pub const TEXTURE_USAGE_RENDER_ATTACHMENT: u32 = 16;

/// An opaque handle for a texture format the surface advertised. The viewer
/// never looks inside a format; it only carries the first advertised one
/// through to the pipeline and the configuration.
#[derive(Clone, Copy, PartialEq, Eq, Structural, Debug)]
pub struct TextureFormatId(pub u32);

/// An opaque handle for an alpha compositing mode the surface advertised.
#[derive(Clone, Copy, PartialEq, Eq, Structural, Debug)]
pub struct AlphaModeId(pub u32);

/// How presentation is paced. The viewer always picks `Fifo` (vsync-locked).
#[derive(Clone, Copy, PartialEq, Eq, Structural, Debug)]
pub enum PresentMode {
    AutoVsync,
    AutoNoVsync,
    Fifo,
    FifoRelaxed,
    Immediate,
    Mailbox,
}

/// The surface configuration the viewer keeps and reapplies.
pub struct SurfaceConfig {
    pub usage: u32,
    pub format: TextureFormatId,
    pub width: u32,
    pub height: u32,
    pub present_mode: PresentMode,
    pub alpha_mode: AlphaModeId,
    pub view_formats: Vec<TextureFormatId>,
}

/// A resize replaces the dimensions and touches nothing else.
pub open spec fn spec_resize(c: SurfaceConfig, width: u32, height: u32) -> SurfaceConfig {
    SurfaceConfig { width, height, ..c }
}

impl SurfaceConfig {
    /// The fields settled by startup negotiation: everything but the
    /// dimensions.
    pub open spec fn same_negotiation(self, other: SurfaceConfig) -> bool {
        &&& self.usage == other.usage
        &&& self.format == other.format
        &&& self.present_mode == other.present_mode
        &&& self.alpha_mode == other.alpha_mode
        &&& self.view_formats@ == other.view_formats@
    }

    /// The startup configuration: render-attachment usage, the negotiated
    /// format and alpha mode, vsync-locked presentation, no extra view
    /// formats, and the initial window dimensions.
    pub fn new(format: TextureFormatId, alpha_mode: AlphaModeId, width: u32, height: u32) -> (c:
        SurfaceConfig)
        ensures
            c.usage == TEXTURE_USAGE_RENDER_ATTACHMENT,
            c.format == format,
            c.width == width,
            c.height == height,
            c.present_mode == PresentMode::Fifo,
            c.alpha_mode == alpha_mode,
            c.view_formats@ == Seq::<TextureFormatId>::empty(),
    {
        SurfaceConfig {
            usage: TEXTURE_USAGE_RENDER_ATTACHMENT,
            format,
            width,
            height,
            present_mode: PresentMode::Fifo,
            alpha_mode,
            view_formats: Vec::new(),
        }
    }

    /// Update the stored dimensions in place, leaving every negotiated field
    /// as it was.
    pub fn resize(&mut self, width: u32, height: u32)
        ensures
            *final(self) == spec_resize(*old(self), width, height),
    {
        self.width = width;
        self.height = height;
    }
}

/// Applying the same resize twice in a row is the same as applying it once.
pub proof fn lemma_resize_idempotent(c: SurfaceConfig, width: u32, height: u32)
    ensures
        spec_resize(spec_resize(c, width, height), width, height) == spec_resize(c, width, height),
{
}

/// A resize sets the dimensions and preserves every negotiated field.
pub proof fn lemma_resize_preserves_negotiation(c: SurfaceConfig, width: u32, height: u32)
    ensures
        spec_resize(c, width, height).same_negotiation(c),
        spec_resize(c, width, height).width == width,
        spec_resize(c, width, height).height == height,
{
}

} // verus!
