use shader_viewer::config::{AlphaModeId, PresentMode, SurfaceConfig, TextureFormatId};
use shader_viewer::events::{
    handle_event, ClearColor, DrawCall, LoadOp, ViewerAction, ViewerEvent, ViewerState,
};

fn startup_state() -> ViewerState {
    ViewerState {
        config: SurfaceConfig::new(TextureFormatId(0), AlphaModeId(0), 640, 480),
        pipeline_id: 4,
        bind_group_id: 2,
        exiting: false,
    }
}

fn redraw_requests(actions: &[ViewerAction]) -> usize {
    actions
        .iter()
        .filter(|a| matches!(a, ViewerAction::RequestRedraw))
        .count()
}

#[test]
fn resize_updates_dimensions_and_requests_one_redraw() {
    let mut s = startup_state();
    let out = handle_event(&mut s, ViewerEvent::Resized { width: 800, height: 600 });
    assert_eq!(s.config.width, 800);
    assert_eq!(s.config.height, 600);
    assert_eq!(out.len(), 2);
    assert!(matches!(out[0], ViewerAction::ConfigureSurface));
    assert!(matches!(out[1], ViewerAction::RequestRedraw));
    assert_eq!(redraw_requests(&out), 1);
}

#[test]
fn resize_twice_is_resize_once() {
    let mut once = startup_state();
    let mut twice = startup_state();
    handle_event(&mut once, ViewerEvent::Resized { width: 1024, height: 768 });
    let first = handle_event(&mut twice, ViewerEvent::Resized { width: 1024, height: 768 });
    let second = handle_event(&mut twice, ViewerEvent::Resized { width: 1024, height: 768 });
    assert_eq!(once.config.width, twice.config.width);
    assert_eq!(once.config.height, twice.config.height);
    assert_eq!(once.config.format, twice.config.format);
    assert_eq!(once.config.present_mode, twice.config.present_mode);
    assert_eq!(once.config.alpha_mode, twice.config.alpha_mode);
    assert_eq!(once.config.usage, twice.config.usage);
    assert_eq!(once.config.view_formats, twice.config.view_formats);
    // Each application asks for exactly one more redraw, not zero, not more.
    assert_eq!(redraw_requests(&first), 1);
    assert_eq!(redraw_requests(&second), 1);
}

#[test]
fn negotiated_fields_survive_any_resizes() {
    let mut s = startup_state();
    let format = s.config.format;
    let present = s.config.present_mode;
    let alpha = s.config.alpha_mode;
    let sizes: [(u32, u32); 5] = [(1, 1), (3840, 2160), (800, 600), (800, 600), (16384, 16384)];
    for &(w, h) in sizes.iter() {
        handle_event(&mut s, ViewerEvent::Resized { width: w, height: h });
        handle_event(&mut s, ViewerEvent::RedrawRequested);
    }
    assert_eq!(s.config.format, format);
    assert_eq!(s.config.present_mode, present);
    assert_eq!(s.config.alpha_mode, alpha);
    assert_eq!(s.config.present_mode, PresentMode::Fifo);
    assert!(s.config.view_formats.is_empty());
    assert_eq!(s.config.width, 16384);
    assert_eq!(s.config.height, 16384);
}

#[test]
fn redraw_issues_one_pass_with_one_full_quad_draw() {
    for &(w, h) in [(640u32, 480u32), (1, 1), (16384, 16384)].iter() {
        let mut s = startup_state();
        handle_event(&mut s, ViewerEvent::Resized { width: w, height: h });
        let out = handle_event(&mut s, ViewerEvent::RedrawRequested);
        assert_eq!(out.len(), 1);
        match &out[0] {
            ViewerAction::Render(pass) => {
                assert_eq!(pass.load, LoadOp::Clear(ClearColor::Black));
                assert!(pass.store);
                assert_eq!(pass.pipeline_id, s.pipeline_id);
                assert_eq!(pass.bind_group_slot, 0);
                assert_eq!(pass.bind_group_id, s.bind_group_id);
                assert_eq!(pass.draws.len(), 1);
                assert_eq!(
                    pass.draws[0],
                    DrawCall {
                        first_vertex: 0,
                        vertex_count: 6,
                        first_instance: 0,
                        instance_count: 1
                    }
                );
            }
            _ => panic!("a redraw must render"),
        }
    }
}

#[test]
fn close_requested_exits() {
    let mut s = startup_state();
    let out = handle_event(&mut s, ViewerEvent::CloseRequested);
    assert!(s.exiting);
    assert_eq!(out.len(), 1);
    assert!(matches!(out[0], ViewerAction::Exit));
}

#[test]
fn other_events_are_ignored() {
    let mut s = startup_state();
    let out = handle_event(&mut s, ViewerEvent::Other);
    assert!(out.is_empty());
    assert!(!s.exiting);
    assert_eq!(s.config.width, 640);
    assert_eq!(s.config.height, 480);
}
