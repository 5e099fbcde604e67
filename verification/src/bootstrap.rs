//! Startup negotiation: what the viewer decides between the one-time
//! graphics calls. Every setup failure is surfaced as a typed error, and the
//! caller stops on the first one — the fail-fast posture of the design.

use vstd::prelude::*;

verus! {

use crate::config::{SurfaceConfig, TextureFormatId, AlphaModeId, PresentMode,
    TEXTURE_USAGE_RENDER_ATTACHMENT};
use crate::plans::{BufferPlan, BindGroupLayoutPlan, BindGroupPlan, PipelineLayoutPlan,
    RenderPipelinePlan, ShaderEntry, PrimitiveTopology, BindingKind, plan_uniform_buffer,
    plan_bind_group, plan_pipeline_layout, plan_render_pipeline};
use crate::uniforms::{Uniforms, valid_dim, uniform_bytes};

/// Why startup stopped. Each variant names the step that failed.
#[derive(Clone, Copy, PartialEq, Eq, Structural, Debug)]
pub enum SetupError {
    NoAdapter,
    DeviceRefused,
    NoSurfaceFormat,
    NoAlphaMode,
    ResolutionOutOfRange,
}

impl SetupError {
    /// The diagnostic the top-level handler prints before exiting.
    pub fn message(&self) -> (r: &'static str)
        ensures
            *self is NoAdapter ==> r@ == "Failed to find an appropriate adapter"@,
            *self is DeviceRefused ==> r@ == "Failed to create device"@,
            *self is NoSurfaceFormat ==> r@ == "surface advertises no texture format"@,
            *self is NoAlphaMode ==> r@ == "surface advertises no alpha mode"@,
            *self is ResolutionOutOfRange ==> r@ == "window dimensions out of range"@,
    {
        match self {
            SetupError::NoAdapter => "Failed to find an appropriate adapter",
            SetupError::DeviceRefused => "Failed to create device",
            SetupError::NoSurfaceFormat => "surface advertises no texture format",
            SetupError::NoAlphaMode => "surface advertises no alpha mode",
            SetupError::ResolutionOutOfRange => "window dimensions out of range",
        }
    }
}

/// The resolution limits an adapter reports; the only part of its limits the
/// viewer reads.
#[derive(Clone, Copy, PartialEq, Eq, Structural, Debug)]
pub struct AdapterLimits {
    pub max_texture_dimension_1d: u32,
    pub max_texture_dimension_2d: u32,
    pub max_texture_dimension_3d: u32,
}

/// What the adapter request came back with.
#[derive(Clone, Copy, PartialEq, Eq, Structural, Debug)]
pub enum AdapterResponse {
    Found(AdapterLimits),
    NotFound,
}

/// The named baseline the device request starts from.
#[derive(Clone, Copy, PartialEq, Eq, Structural, Debug)]
pub enum LimitsBaseline {
    Default,
    Downlevel,
    DownlevelWebgl2,
}

/// The limits to request a device with: a conservative baseline, with the
/// resolution limits raised to what the adapter actually supports.
#[derive(Clone, Copy, PartialEq, Eq, Structural, Debug)]
pub struct DeviceLimitsPlan {
    pub baseline: LimitsBaseline,
    pub max_texture_dimension_1d: u32,
    pub max_texture_dimension_2d: u32,
    pub max_texture_dimension_3d: u32,
}

/// Decide on the adapter request's outcome: no adapter is fatal, before
/// anything further is built; a found adapter fixes the device limits to
/// request — the web baseline, using the adapter's resolution limits.
pub fn on_adapter_response(response: &AdapterResponse) -> (r: Result<DeviceLimitsPlan, SetupError>)
    ensures
        match *response {
            AdapterResponse::NotFound => r == Err::<DeviceLimitsPlan, SetupError>(
                SetupError::NoAdapter,
            ),
            AdapterResponse::Found(l) => r == Ok::<DeviceLimitsPlan, SetupError>(
                DeviceLimitsPlan {
                    baseline: LimitsBaseline::DownlevelWebgl2,
                    max_texture_dimension_1d: l.max_texture_dimension_1d,
                    max_texture_dimension_2d: l.max_texture_dimension_2d,
                    max_texture_dimension_3d: l.max_texture_dimension_3d,
                },
            ),
        },
{
    match response {
        AdapterResponse::NotFound => Err(SetupError::NoAdapter),
        AdapterResponse::Found(l) => Ok(
            DeviceLimitsPlan {
                baseline: LimitsBaseline::DownlevelWebgl2,
                max_texture_dimension_1d: l.max_texture_dimension_1d,
                max_texture_dimension_2d: l.max_texture_dimension_2d,
                max_texture_dimension_3d: l.max_texture_dimension_3d,
            },
        ),
    }
}

/// Decide on the device request's outcome: a refusal is fatal.
pub fn on_device_response(granted: bool) -> (r: Result<(), SetupError>)
    ensures
        granted <==> r is Ok,
        !granted ==> r == Err::<(), SetupError>(SetupError::DeviceRefused),
{
    if granted {
        Ok(())
    } else {
        Err(SetupError::DeviceRefused)
    }
}

/// What the surface advertises once an adapter is bound to it.
pub struct SurfaceCaps {
    pub formats: Vec<TextureFormatId>,
    pub present_modes: Vec<PresentMode>,
    pub alpha_modes: Vec<AlphaModeId>,
}

/// The negotiated swapchain choices: the first advertised format and the
/// first advertised alpha mode, with no further ranking.
#[derive(Clone, Copy, PartialEq, Eq, Structural, Debug)]
pub struct Negotiated {
    pub format: TextureFormatId,
    pub alpha_mode: AlphaModeId,
}

/// Pick the swapchain format and alpha mode: the first of each that the
/// surface advertises, an error if it advertises none.
pub fn negotiate_surface(caps: &SurfaceCaps) -> (r: Result<Negotiated, SetupError>)
    ensures
        caps.formats@.len() == 0 ==> r == Err::<Negotiated, SetupError>(SetupError::NoSurfaceFormat),
        caps.formats@.len() > 0 && caps.alpha_modes@.len() == 0 ==> r == Err::<
            Negotiated,
            SetupError,
        >(SetupError::NoAlphaMode),
        caps.formats@.len() > 0 && caps.alpha_modes@.len() > 0 ==> r == Ok::<
            Negotiated,
            SetupError,
        >(Negotiated { format: caps.formats@[0], alpha_mode: caps.alpha_modes@[0] }),
{
    if caps.formats.len() == 0 {
        return Err(SetupError::NoSurfaceFormat);
    }
    if caps.alpha_modes.len() == 0 {
        return Err(SetupError::NoAlphaMode);
    }
    Ok(Negotiated { format: caps.formats[0], alpha_mode: caps.alpha_modes[0] })
}

/// Everything startup builds, ready for the graphics layer to realize in
/// order.
pub struct StartupPlan {
    pub uniforms: Uniforms,
    pub uniform_buffer: BufferPlan,
    pub bind_group_layout: BindGroupLayoutPlan,
    pub bind_group: BindGroupPlan,
    pub pipeline_layout: PipelineLayoutPlan,
    pub render_pipeline: RenderPipelinePlan,
    pub config: SurfaceConfig,
}

impl StartupPlan {
    /// The plan's pieces refer to each other correctly: the bind group fills
    /// the layout it was made with, its one entry binds the uniform buffer
    /// just written, the pipeline layout carries that bind group layout, and
    /// the pipeline targets the configured format through that layout.
    pub open spec fn wf(self) -> bool {
        &&& self.bind_group.layout_id == self.bind_group_layout.id
        &&& self.bind_group.entries@.len() == 1
        &&& self.bind_group.entries@[0].binding == 0
        &&& self.bind_group.entries@[0].buffer_id == self.uniform_buffer.id
        &&& self.bind_group_layout.entries@.len() == 1
        &&& self.bind_group_layout.entries@[0].binding == 0
        &&& self.bind_group_layout.entries@[0].kind == BindingKind::UniformBuffer
        &&& self.bind_group_layout.entries@[0].visible_to_fragment
        &&& !self.bind_group_layout.entries@[0].visible_to_vertex
        &&& self.pipeline_layout.bind_group_layout_ids@ == seq![self.bind_group_layout.id]
        &&& self.pipeline_layout.push_constant_range_count == 0
        &&& self.render_pipeline.layout_id == self.pipeline_layout.id
        &&& self.render_pipeline.fragment_target_format == self.config.format
        &&& self.render_pipeline.vertex_entry == ShaderEntry::VsMain
        &&& self.render_pipeline.fragment_entry == ShaderEntry::FsMain
        &&& self.render_pipeline.vertex_buffer_count == 0
        &&& self.render_pipeline.topology == PrimitiveTopology::TriangleList
        &&& !self.render_pipeline.depth_stencil
        &&& self.render_pipeline.sample_count == 1
        &&& !self.render_pipeline.multiview
    }
}

/// Build everything startup needs once the device is granted and the
/// surface's capabilities are known: negotiate the swapchain, write the
/// uniform record, and lay out buffer, bind group, pipeline and surface
/// configuration. Errors come in checking order: no format, no alpha mode,
/// then a resolution outside the stated range.
pub fn plan_startup(caps: &SurfaceCaps, width: u32, height: u32) -> (r: Result<
    StartupPlan,
    SetupError,
>)
    ensures
        caps.formats@.len() == 0 ==> r == Err::<StartupPlan, SetupError>(
            SetupError::NoSurfaceFormat,
        ),
        caps.formats@.len() > 0 && caps.alpha_modes@.len() == 0 ==> r == Err::<
            StartupPlan,
            SetupError,
        >(SetupError::NoAlphaMode),
        caps.formats@.len() > 0 && caps.alpha_modes@.len() > 0 && !(valid_dim(width) && valid_dim(
            height,
        )) ==> r == Err::<StartupPlan, SetupError>(SetupError::ResolutionOutOfRange),
        caps.formats@.len() > 0 && caps.alpha_modes@.len() > 0 && valid_dim(width) && valid_dim(
            height,
        ) ==> (r matches Ok(p) && {
            &&& p.wf()
            &&& p.uniforms.encodes(width, height)
            &&& p.uniform_buffer.contents@ == uniform_bytes(width as nat, height as nat)
            &&& p.uniform_buffer.usage_uniform
            &&& p.uniform_buffer.usage_copy_dst
            &&& p.config.format == caps.formats@[0]
            &&& p.config.alpha_mode == caps.alpha_modes@[0]
            &&& p.config.width == width
            &&& p.config.height == height
            &&& p.config.present_mode == PresentMode::Fifo
            &&& p.config.usage == TEXTURE_USAGE_RENDER_ATTACHMENT
            &&& p.config.view_formats@.len() == 0
        }),
{
    let negotiated = match negotiate_surface(caps) {
        Ok(n) => n,
        Err(e) => {
            return Err(e);
        },
    };
    if !(width >= 1 && width <= 16384 && height >= 1 && height <= 16384) {
        return Err(SetupError::ResolutionOutOfRange);
    }
    let uniforms = Uniforms::new(width, height);
    let uniform_buffer = plan_uniform_buffer(0, &uniforms);
    let (bind_group_layout, bind_group) = plan_bind_group(1, 2, 0);
    let pipeline_layout = plan_pipeline_layout(3, 1);
    let render_pipeline = plan_render_pipeline(4, 3, negotiated.format);
    let config = SurfaceConfig::new(negotiated.format, negotiated.alpha_mode, width, height);
    Ok(
        StartupPlan {
            uniforms,
            uniform_buffer,
            bind_group_layout,
            bind_group,
            pipeline_layout,
            render_pipeline,
            config,
        },
    )
}

} // verus!
