use shader_viewer::bootstrap::{
    negotiate_surface, on_adapter_response, on_device_response, plan_startup, AdapterLimits,
    AdapterResponse, LimitsBaseline, Negotiated, SetupError, SurfaceCaps,
};
use shader_viewer::config::{AlphaModeId, PresentMode, TextureFormatId};
use shader_viewer::plans::{BindingKind, PrimitiveTopology, ShaderEntry};

fn advertised_caps() -> SurfaceCaps {
    SurfaceCaps {
        formats: vec![TextureFormatId(7), TextureFormatId(3)],
        present_modes: vec![PresentMode::Fifo, PresentMode::Immediate],
        alpha_modes: vec![AlphaModeId(2), AlphaModeId(1)],
    }
}

#[test]
fn no_adapter_is_fatal_before_anything_is_built() {
    let r = on_adapter_response(&AdapterResponse::NotFound);
    assert_eq!(r, Err(SetupError::NoAdapter));
}

#[test]
fn adapter_limits_cap_the_web_baseline() {
    let limits = AdapterLimits {
        max_texture_dimension_1d: 8192,
        max_texture_dimension_2d: 16384,
        max_texture_dimension_3d: 2048,
    };
    let plan = on_adapter_response(&AdapterResponse::Found(limits)).unwrap();
    assert_eq!(plan.baseline, LimitsBaseline::DownlevelWebgl2);
    assert_eq!(plan.max_texture_dimension_1d, 8192);
    assert_eq!(plan.max_texture_dimension_2d, 16384);
    assert_eq!(plan.max_texture_dimension_3d, 2048);
}

#[test]
fn device_refusal_is_fatal() {
    assert_eq!(on_device_response(false), Err(SetupError::DeviceRefused));
    assert!(on_device_response(true).is_ok());
}

#[test]
fn negotiation_takes_the_first_advertised_choices() {
    let caps = advertised_caps();
    assert_eq!(
        negotiate_surface(&caps),
        Ok(Negotiated { format: TextureFormatId(7), alpha_mode: AlphaModeId(2) })
    );
}

#[test]
fn negotiation_fails_without_formats_or_alpha_modes() {
    let mut caps = advertised_caps();
    caps.formats = Vec::new();
    assert_eq!(negotiate_surface(&caps), Err(SetupError::NoSurfaceFormat));
    let mut caps = advertised_caps();
    caps.alpha_modes = Vec::new();
    assert_eq!(negotiate_surface(&caps), Err(SetupError::NoAlphaMode));
}

#[test]
fn startup_plan_is_linked_together() {
    let plan = plan_startup(&advertised_caps(), 800, 600).unwrap();
    // The bind group fills the layout it was planned with, at binding 0,
    // with exactly the buffer the uniform record was just written to.
    assert_eq!(plan.bind_group.layout_id, plan.bind_group_layout.id);
    assert_eq!(plan.bind_group.entries.len(), 1);
    assert_eq!(plan.bind_group.entries[0].binding, 0);
    assert_eq!(plan.bind_group.entries[0].buffer_id, plan.uniform_buffer.id);
    // The layout exposes one uniform-buffer slot to the fragment stage only.
    assert_eq!(plan.bind_group_layout.entries.len(), 1);
    assert_eq!(plan.bind_group_layout.entries[0].kind, BindingKind::UniformBuffer);
    assert!(plan.bind_group_layout.entries[0].visible_to_fragment);
    assert!(!plan.bind_group_layout.entries[0].visible_to_vertex);
    // The pipeline goes through that layout to the negotiated format.
    assert_eq!(plan.pipeline_layout.bind_group_layout_ids, vec![plan.bind_group_layout.id]);
    assert_eq!(plan.pipeline_layout.push_constant_range_count, 0);
    assert_eq!(plan.render_pipeline.layout_id, plan.pipeline_layout.id);
    assert_eq!(plan.render_pipeline.fragment_target_format, TextureFormatId(7));
    assert_eq!(plan.render_pipeline.vertex_entry, ShaderEntry::VsMain);
    assert_eq!(plan.render_pipeline.fragment_entry, ShaderEntry::FsMain);
    assert_eq!(plan.render_pipeline.vertex_buffer_count, 0);
    assert_eq!(plan.render_pipeline.topology, PrimitiveTopology::TriangleList);
    assert!(!plan.render_pipeline.depth_stencil);
    assert_eq!(plan.render_pipeline.sample_count, 1);
    // The configuration carries the negotiated fields and the window size.
    assert_eq!(plan.config.format, TextureFormatId(7));
    assert_eq!(plan.config.alpha_mode, AlphaModeId(2));
    assert_eq!(plan.config.present_mode, PresentMode::Fifo);
    assert_eq!(plan.config.width, 800);
    assert_eq!(plan.config.height, 600);
    assert!(plan.config.view_formats.is_empty());
    // The uniform buffer starts life holding the resolution's bytes.
    let expected: Vec<u8> = [800f32, 600f32]
        .iter()
        .flat_map(|f| f.to_le_bytes())
        .collect();
    assert_eq!(plan.uniform_buffer.contents, expected);
    assert!(plan.uniform_buffer.usage_uniform);
    assert!(plan.uniform_buffer.usage_copy_dst);
}

#[test]
fn startup_rejects_out_of_range_resolutions() {
    assert!(matches!(
        plan_startup(&advertised_caps(), 0, 600),
        Err(SetupError::ResolutionOutOfRange)
    ));
    assert!(matches!(
        plan_startup(&advertised_caps(), 800, 16385),
        Err(SetupError::ResolutionOutOfRange)
    ));
}

#[test]
fn entry_points_and_messages_are_spelled_out() {
    assert_eq!(ShaderEntry::VsMain.as_str(), "vs_main");
    assert_eq!(ShaderEntry::FsMain.as_str(), "fs_main");
    assert!(!SetupError::NoAdapter.message().is_empty());
    assert!(!SetupError::DeviceRefused.message().is_empty());
}
