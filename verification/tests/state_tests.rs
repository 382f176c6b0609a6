use triangle_renderer::chain::PixelFormat;
use triangle_renderer::frame::ClearColor;
use triangle_renderer::frame::FrameStage;
use triangle_renderer::frame::LoadOp;
use triangle_renderer::frame::StoreOp;
use triangle_renderer::geometry::Vertex;
use triangle_renderer::input::Action;
use triangle_renderer::input::InputEffects;
use triangle_renderer::input::Key;
use triangle_renderer::input::WindowEvent;
use triangle_renderer::overlay::CursorShape;
use triangle_renderer::overlay::ImguiState;
use triangle_renderer::pipeline::PipelineState;
use triangle_renderer::state::WgpuState;

fn quiet() -> InputEffects {
    InputEffects {
        handled: false,
        forward_to_overlay: false,
        close_window: false,
        rebuild_chain: false,
    }
}

#[test]
fn new_state_is_configured_for_the_window() {
    let state = WgpuState::new((1280, 720));
    assert_eq!(state.size, (1280, 720));
    assert_eq!(state.chain.dimensions(), (1280, 720));
    assert_eq!(state.chain.format, PixelFormat::Bgra8UnormSrgb);
    assert_eq!(state.num_indices, 3);
    assert_eq!(state.imgui, ImguiState { last_cursor: None, should_render: false });
    assert_eq!(state.frame, FrameStage::Idle);
    assert_eq!(
        state.render_pipeline,
        PipelineState::build(PixelFormat::Bgra8UnormSrgb, Vertex::desc())
    );
    assert!(!state.render_pipeline.needs_rebuild(state.chain.format));
}

#[test]
fn clear_color_is_fixed() {
    let state = WgpuState::new((1280, 720));
    let ClearColor { r, g, b, a } = state.clear_color;
    assert_eq!(f64::from_bits(r), 0.1);
    assert_eq!(f64::from_bits(g), 0.2);
    assert_eq!(f64::from_bits(b), 0.3);
    assert_eq!(f64::from_bits(a), 0.2);
}

#[test]
fn resize_reconfigures_the_chain_only() {
    let mut state = WgpuState::new((1280, 720));
    let before = WgpuState::new((1280, 720));
    state.resize((640, 480));
    assert_eq!(state.size, (640, 480));
    assert_eq!(state.chain.dimensions(), (640, 480));
    assert_eq!(state.chain.format, before.chain.format);
    assert_eq!(state.render_pipeline, before.render_pipeline);
    assert_eq!(state.num_indices, before.num_indices);
    assert_eq!(state.clear_color, before.clear_color);
    assert_eq!(state.imgui, before.imgui);
    assert_eq!(state.frame, before.frame);
    assert!(!state.render_pipeline.needs_rebuild(state.chain.format));
}

#[test]
fn resize_is_idempotent() {
    let mut state = WgpuState::new((1280, 720));
    state.resize((640, 480));
    let once = WgpuState::new((640, 480));
    assert_eq!(state, once);
    state.resize((640, 480));
    assert_eq!(state, once);
}

#[test]
fn size_event_resizes_and_asks_for_a_rebuild() {
    let mut state = WgpuState::new((1280, 720));
    let effects = state.input(&WindowEvent::Size(800, 600));
    assert_eq!(effects, InputEffects { rebuild_chain: true, ..quiet() });
    assert_eq!(state.size, (800, 600));
    assert_eq!(state.chain.dimensions(), (800, 600));
}

#[test]
fn escape_press_asks_to_close() {
    let mut state = WgpuState::new((1280, 720));
    let effects = state.input(&WindowEvent::Key(Key::Escape, Action::Press));
    assert_eq!(effects, InputEffects { close_window: true, ..quiet() });
    assert_eq!(state, WgpuState::new((1280, 720)));
}

#[test]
fn releases_repeats_and_other_events_do_nothing() {
    let mut state = WgpuState::new((1280, 720));
    let events = [
        WindowEvent::Key(Key::Escape, Action::Release),
        WindowEvent::Key(Key::Escape, Action::Repeat),
        WindowEvent::Key(Key::F3, Action::Release),
        WindowEvent::Key(Key::F3, Action::Repeat),
        WindowEvent::Key(Key::Other, Action::Press),
        WindowEvent::Other,
    ];
    for event in events.iter() {
        assert_eq!(state.input(event), quiet());
        assert_eq!(state, WgpuState::new((1280, 720)));
    }
}

#[test]
fn f3_press_toggles_the_overlay() {
    let mut state = WgpuState::new((1280, 720));
    let effects = state.input(&WindowEvent::Key(Key::F3, Action::Press));
    assert_eq!(effects, quiet());
    assert!(state.imgui.should_render);
    let effects = state.input(&WindowEvent::Key(Key::F3, Action::Press));
    assert_eq!(effects, InputEffects { forward_to_overlay: true, ..quiet() });
    assert!(!state.imgui.should_render);
    assert_eq!(state, WgpuState::new((1280, 720)));
}

#[test]
fn events_go_to_the_overlay_only_while_it_is_shown() {
    let mut state = WgpuState::new((1280, 720));
    assert!(!state.input(&WindowEvent::Other).forward_to_overlay);
    state.input(&WindowEvent::Key(Key::F3, Action::Press));
    assert!(state.input(&WindowEvent::Other).forward_to_overlay);
    assert!(state.input(&WindowEvent::Size(10, 10)).forward_to_overlay);
    assert!(state.input(&WindowEvent::Key(Key::Escape, Action::Press)).forward_to_overlay);
    state.input(&WindowEvent::Key(Key::F3, Action::Press));
    assert!(!state.input(&WindowEvent::Other).forward_to_overlay);
}

#[test]
fn no_event_is_reported_as_handled() {
    let mut state = WgpuState::new((1280, 720));
    assert!(!state.input(&WindowEvent::Key(Key::F3, Action::Press)).handled);
    assert!(!state.input(&WindowEvent::Key(Key::Escape, Action::Press)).handled);
    assert!(!state.input(&WindowEvent::Size(1, 2)).handled);
    assert!(!state.input(&WindowEvent::Other).handled);
}

#[test]
fn update_changes_nothing() {
    let mut state = WgpuState::new((1280, 720));
    state.imgui.last_cursor = Some(CursorShape::Hand);
    state.update();
    let mut expected = WgpuState::new((1280, 720));
    expected.imgui.last_cursor = Some(CursorShape::Hand);
    assert_eq!(state, expected);
}

#[test]
fn geometry_pass_draws_one_triangle_once() {
    let state = WgpuState::new((1280, 720));
    let pass = state.render_triangle();
    assert_eq!(pass.load_op, LoadOp::Clear);
    assert_eq!(pass.store_op, StoreOp::Store);
    assert_eq!(pass.clear_color, state.clear_color);
    assert!(!pass.has_resolve_target);
    assert!(!pass.has_depth_stencil);
    assert_eq!((pass.vertex_slot, pass.vertex_offset, pass.vertex_size), (0, 0, 0));
    assert_eq!((pass.index_offset, pass.index_size), (0, 0));
    assert_eq!((pass.index_start, pass.index_end), (0, 3));
    assert_eq!(pass.base_vertex, 0);
    assert_eq!((pass.instance_start, pass.instance_end), (0, 1));
}

#[test]
fn geometry_pass_does_not_depend_on_overlay_or_size() {
    let mut state = WgpuState::new((1280, 720));
    let pass = state.render_triangle();
    state.input(&WindowEvent::Key(Key::F3, Action::Press));
    assert_eq!(state.render_triangle(), pass);
    state.input(&WindowEvent::Size(640, 480));
    assert_eq!(state.render_triangle(), pass);
    state.input(&WindowEvent::Key(Key::F3, Action::Press));
    assert_eq!(state.render_triangle(), pass);
}
