use triangle_renderer::overlay::same_cursor;
use triangle_renderer::overlay::CursorShape;
use triangle_renderer::overlay::ImguiState;

#[test]
fn overlay_starts_hidden_without_cursor() {
    let state = ImguiState::new();
    assert_eq!(state, ImguiState { last_cursor: None, should_render: false });
    assert!(!state.handle_event());
}

#[test]
fn toggle_flips_visibility() {
    let mut state = ImguiState::new();
    state.toggle();
    assert!(state.should_render);
    assert!(state.handle_event());
    state.toggle();
    assert!(!state.should_render);
    assert!(!state.handle_event());
}

#[test]
fn toggle_twice_restores_the_state() {
    let mut state = ImguiState { last_cursor: Some(CursorShape::Hand), should_render: true };
    let before = state;
    state.toggle();
    assert_eq!(state.last_cursor, Some(CursorShape::Hand));
    state.toggle();
    assert_eq!(state, before);
}

#[test]
fn observe_cursor_reports_changes_only() {
    let mut state = ImguiState::new();
    assert!(!state.observe_cursor(None));
    assert!(state.observe_cursor(Some(CursorShape::Arrow)));
    assert_eq!(state.last_cursor, Some(CursorShape::Arrow));
    assert!(!state.observe_cursor(Some(CursorShape::Arrow)));
    assert!(state.observe_cursor(Some(CursorShape::TextInput)));
    assert_eq!(state.last_cursor, Some(CursorShape::TextInput));
    assert!(state.observe_cursor(None));
    assert_eq!(state.last_cursor, None);
    assert!(!state.should_render);
}

#[test]
fn same_cursor_compares_shapes() {
    assert!(same_cursor(None, None));
    assert!(same_cursor(Some(CursorShape::ResizeNS), Some(CursorShape::ResizeNS)));
    assert!(!same_cursor(Some(CursorShape::ResizeNS), Some(CursorShape::ResizeEW)));
    assert!(!same_cursor(None, Some(CursorShape::NotAllowed)));
    assert!(!same_cursor(Some(CursorShape::ResizeAll), None));
    assert!(!same_cursor(Some(CursorShape::ResizeNESW), Some(CursorShape::ResizeNWSE)));
}
