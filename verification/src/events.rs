//! The frame loop's decisions: what each window event does to the viewer's
//! state and which actions it asks the graphics layer to carry out. The loop
//! that waits for events and talks to the window system performs these
//! actions; everything it decides is decided here.

use vstd::prelude::*;

verus! {

use crate::config::{SurfaceConfig, spec_resize};

/// The events the viewer reacts to. Everything else the window system
/// delivers falls under `Other` and is ignored.
#[derive(Clone, Copy, PartialEq, Eq, Structural, Debug)]
pub enum ViewerEvent {
    Resized { width: u32, height: u32 },
    RedrawRequested,
    CloseRequested,
    Other,
}

/// One draw call: a vertex range and an instance range.
#[derive(Clone, Copy, PartialEq, Eq, Structural, Debug)]
pub struct DrawCall {
    pub first_vertex: u32,
    pub vertex_count: u32,
    pub first_instance: u32,
    pub instance_count: u32,
}

/// The one color the viewer ever clears the target to.
#[derive(Clone, Copy, PartialEq, Eq, Structural, Debug)]
pub enum ClearColor {
    Black,
}

/// What happens to the color attachment when the render pass opens.
#[derive(Clone, Copy, PartialEq, Eq, Structural, Debug)]
pub enum LoadOp {
    Clear(ClearColor),
    Load,
}

/// One render pass: its load/store behaviour, what it binds, and the draw
/// calls recorded in it.
pub struct RenderPassPlan {
    pub load: LoadOp,
    pub store: bool,
    pub pipeline_id: u32,
    pub bind_group_slot: u32,
    pub bind_group_id: u32,
    pub draws: Vec<DrawCall>,
}

/// What the frame loop asks the graphics layer to do. `ConfigureSurface`
/// reapplies the configuration the state now holds.
pub enum ViewerAction {
    ConfigureSurface,
    RequestRedraw,
    Render(RenderPassPlan),
    Exit,
}

/// The mutable state the event loop owns, together with the names of the two
/// immutable objects every frame binds.
pub struct ViewerState {
    pub config: SurfaceConfig,
    pub pipeline_id: u32,
    pub bind_group_id: u32,
    pub exiting: bool,
}

/// The full-screen quad: six vertices (two triangles), one instance.
pub open spec fn full_quad_draw() -> DrawCall {
    DrawCall { first_vertex: 0, vertex_count: 6, first_instance: 0, instance_count: 1 }
}

/// A well-shaped frame: cleared to solid black, stored, the state's render
/// pipeline and bind group bound at slot 0, and exactly one draw call
/// covering the full-screen quad.
pub open spec fn render_pass_ok(s: ViewerState, p: RenderPassPlan) -> bool {
    &&& p.load == LoadOp::Clear(ClearColor::Black)
    &&& p.store == true
    &&& p.pipeline_id == s.pipeline_id
    &&& p.bind_group_slot == 0
    &&& p.bind_group_id == s.bind_group_id
    &&& p.draws@.len() == 1
    &&& p.draws@[0] == full_quad_draw()
}

/// How many redraw requests a run of actions makes.
pub open spec fn count_redraw_requests(out: Seq<ViewerAction>) -> nat
    decreases out.len(),
{
    if out.len() == 0 {
        0
    } else {
        count_redraw_requests(out.drop_last()) + if out.last() is RequestRedraw {
            1nat
        } else {
            0nat
        }
    }
}

/// How many render passes a run of actions opens.
pub open spec fn count_render_passes(out: Seq<ViewerAction>) -> nat
    decreases out.len(),
{
    if out.len() == 0 {
        0
    } else {
        count_render_passes(out.drop_last()) + if out.last() is Render {
            1nat
        } else {
            0nat
        }
    }
}

/// The state each event leaves behind: a resize updates the stored
/// dimensions, a close request marks the loop as exiting, and nothing else
/// changes anything.
pub open spec fn next_state(s: ViewerState, e: ViewerEvent) -> ViewerState {
    match e {
        ViewerEvent::Resized { width, height } => ViewerState {
            config: spec_resize(s.config, width, height),
            ..s
        },
        ViewerEvent::CloseRequested => ViewerState { exiting: true, ..s },
        _ => s,
    }
}

/// The actions each event emits, in order.
///
/// A resize reconfigures the surface and then asks for exactly one redraw; a
/// redraw request renders exactly one well-shaped pass, whatever the state
/// and window size; a close request exits; anything else is ignored.
pub open spec fn emitted_ok(s: ViewerState, e: ViewerEvent, out: Seq<ViewerAction>) -> bool {
    match e {
        ViewerEvent::Resized { .. } => {
            &&& out.len() == 2
            &&& out[0] is ConfigureSurface
            &&& out[1] is RequestRedraw
            &&& count_redraw_requests(out) == 1
        },
        ViewerEvent::RedrawRequested => {
            &&& out.len() == 1
            &&& out[0] matches ViewerAction::Render(p) && render_pass_ok(s, p)
            &&& count_render_passes(out) == 1
            &&& count_redraw_requests(out) == 0
        },
        ViewerEvent::CloseRequested => {
            &&& out.len() == 1
            &&& out[0] is Exit
            &&& count_redraw_requests(out) == 0
        },
        ViewerEvent::Other => out.len() == 0,
    }
}

/// Handle one event: update the state and hand back the actions to perform,
/// in order.
pub fn handle_event(s: &mut ViewerState, event: ViewerEvent) -> (out: Vec<ViewerAction>)
    ensures
        *final(s) == next_state(*old(s), event),
        emitted_ok(*old(s), event, out@),
{
    match event {
        ViewerEvent::Resized { width, height } => {
            s.config.resize(width, height);
            let mut out: Vec<ViewerAction> = Vec::new();
            out.push(ViewerAction::ConfigureSurface);
            out.push(ViewerAction::RequestRedraw);
            proof {
                reveal_with_fuel(count_redraw_requests, 3);
                assert(out@.drop_last() =~= seq![ViewerAction::ConfigureSurface]);
                assert(out@.drop_last().drop_last() =~= Seq::<ViewerAction>::empty());
            }
            out
        },
        ViewerEvent::RedrawRequested => {
            let mut draws: Vec<DrawCall> = Vec::new();
            draws.push(
                DrawCall { first_vertex: 0, vertex_count: 6, first_instance: 0, instance_count: 1 },
            );
            let pass = RenderPassPlan {
                load: LoadOp::Clear(ClearColor::Black),
                store: true,
                pipeline_id: s.pipeline_id,
                bind_group_slot: 0,
                bind_group_id: s.bind_group_id,
                draws,
            };
            let mut out: Vec<ViewerAction> = Vec::new();
            out.push(ViewerAction::Render(pass));
            proof {
                reveal_with_fuel(count_redraw_requests, 2);
                reveal_with_fuel(count_render_passes, 2);
                assert(out@.drop_last() =~= Seq::<ViewerAction>::empty());
            }
            out
        },
        ViewerEvent::CloseRequested => {
            s.exiting = true;
            let mut out: Vec<ViewerAction> = Vec::new();
            out.push(ViewerAction::Exit);
            proof {
                reveal_with_fuel(count_redraw_requests, 2);
                assert(out@.drop_last() =~= Seq::<ViewerAction>::empty());
            }
            out
        },
        ViewerEvent::Other => Vec::new(),
    }
}

/// The state left by a whole run of events, handled in delivery order.
pub open spec fn run_events(s: ViewerState, evs: Seq<ViewerEvent>) -> ViewerState
    decreases evs.len(),
{
    if evs.len() == 0 {
        s
    } else {
        run_events(next_state(s, evs[0]), evs.subrange(1, evs.len() as int))
    }
}

/// Handling the same resize twice in a row leaves exactly the state that
/// handling it once leaves.
pub proof fn lemma_resize_idempotent(s: ViewerState, width: u32, height: u32)
    ensures
        next_state(next_state(s, ViewerEvent::Resized { width, height }), ViewerEvent::Resized {
            width,
            height,
        }) == next_state(s, ViewerEvent::Resized { width, height }),
{
    crate::config::lemma_resize_idempotent(s.config, width, height);
}

/// After any sequence of events, the negotiated surface fields — format,
/// present mode, alpha mode, usage, view formats — are exactly what startup
/// chose; only the dimensions vary.
pub proof fn lemma_negotiation_preserved(s: ViewerState, evs: Seq<ViewerEvent>)
    ensures
        run_events(s, evs).config.same_negotiation(s.config),
    decreases evs.len(),
{
    if evs.len() > 0 {
        let s1 = next_state(s, evs[0]);
        assert(s1.config.same_negotiation(s.config));
        lemma_negotiation_preserved(s1, evs.subrange(1, evs.len() as int));
    }
}

} // verus!
