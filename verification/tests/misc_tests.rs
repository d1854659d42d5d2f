use std::sync::Arc;
use ui::binding::Binding;
use ui::editor::{click_selection, next_blink_offset, next_click_count, blink_visible, ClickSelection, EditorState};
use ui::image::ImageSource;
use ui::shader::{has_user_inputs, shader_cache_action, texture_extent, ShaderCacheAction, ShaderEntryInfo};
use ui::toggle::ToggleState;
use ui::ClickState;

#[derive(Clone, Default)]
struct AppState {
    toggle: ToggleState,
    count: i32,
}

#[test]
fn binding_reads_and_writes_a_field() {
    let b = Binding::new(|s: &AppState| s.toggle, |s: &mut AppState, v| s.toggle = v);
    let mut state = AppState::default();
    b.set(&mut state, ToggleState::on());
    assert!(b.get(&state).on);
    b.update(&mut state, |t| *t = t.after_click(ClickState::Completed));
    assert!(!state.toggle.on);
    let c = b.clone();
    c.update(&mut state, |t| t.hovered = true);
    assert!(b.get(&state).hovered);
}

#[test]
fn constant_binding_ignores_writes() {
    let b = Binding::constant(7i32);
    let mut state = AppState { toggle: ToggleState::off(), count: 3 };
    b.set(&mut state, 11);
    assert_eq!(b.get(&state), 7);
    assert_eq!(state.count, 3);
    b.update(&mut state, |v| *v += 1);
    assert_eq!(b.get(&state), 7);
}

#[test]
fn click_counts_cycle() {
    assert_eq!(next_click_count(0, None), 1);
    assert_eq!(next_click_count(1, Some(true)), 2);
    assert_eq!(next_click_count(2, Some(true)), 3);
    assert_eq!(next_click_count(3, Some(true)), 0);
    assert_eq!(next_click_count(2, Some(false)), 1);
    let mut c = 2;
    for _ in 0..4 {
        c = next_click_count(c, Some(true));
    }
    assert_eq!(c, 2);
}

#[test]
fn click_selection_by_count() {
    assert_eq!(click_selection(1), ClickSelection::Point);
    assert_eq!(click_selection(2), ClickSelection::Word);
    assert_eq!(click_selection(3), ClickSelection::Line);
    assert_eq!(click_selection(0), ClickSelection::Point);
}

#[test]
fn blink_arithmetic() {
    assert_eq!(next_blink_offset(0, 500_000_000), 500_000_000);
    assert_eq!(next_blink_offset(1_250_000_000, 500_000_000), 1_500_000_000);
    assert_eq!(next_blink_offset(1_000_000_000, 500_000_000), 1_500_000_000);
    assert!(blink_visible(0, 500));
    assert!(blink_visible(499, 500));
    assert!(!blink_visible(500, 500));
    assert!(blink_visible(1000, 500));
}

#[test]
fn editor_state_press_and_release() {
    let mut s = EditorState::new();
    assert_eq!(s.click_count(), 0);
    assert!(!s.cursor_visible());
    assert!(s.next_blink_time().is_none());
    assert_eq!(s.press(true), None);
    assert!(s.cursor_visible());
    assert!(!s.pointer_down());
    assert_eq!(s.press(false), Some(ClickSelection::Point));
    assert!(s.pointer_down());
    assert_eq!(s.click_count(), 1);
    assert!(s.next_blink_time().is_some());
    assert!(s.drag_select(true, false));
    assert!(!s.drag_select(false, false));
    s.mouse_released();
    assert!(!s.pointer_down());
    assert!(!s.drag_select(true, false));
    s.disable_blink();
    assert!(s.next_blink_time().is_none());
    s.cursor_blink();
    assert!(!s.cursor_visible());
}

#[test]
fn editor_state_double_click() {
    let mut s = EditorState::new();
    assert_eq!(s.press(false), Some(ClickSelection::Point));
    // Two presses in a row within a quarter second make a double click.
    assert_eq!(s.press(false), Some(ClickSelection::Word));
    assert_eq!(s.click_count(), 2);
}

#[test]
fn editor_state_modifiers() {
    let mut s = EditorState::new();
    assert_eq!(s.modifiers(), None);
    let m = ui::keys::Modifiers { shift: true, control: false, alt: false, super_key: false };
    s.set_modifiers(Some(m));
    assert_eq!(s.modifiers(), Some(m));
}

#[test]
fn image_sources() {
    match ImageSource::from("a.png".to_string()) {
        ImageSource::Path(p) => assert_eq!(p, "a.png"),
        _ => panic!("expected a path"),
    }
    match ImageSource::path("b.png") {
        ImageSource::Path(p) => assert_eq!(p, "b.png"),
        _ => panic!("expected a path"),
    }
    match ImageSource::from_bytes(vec![1, 2, 3]) {
        ImageSource::Bytes(b) => assert_eq!(*b, vec![1, 2, 3]),
        _ => panic!("expected bytes"),
    }
    let shared = Arc::new(vec![9u8]);
    match ImageSource::from(shared.clone()) {
        ImageSource::Bytes(b) => assert!(Arc::ptr_eq(&b, &shared)),
        _ => panic!("expected bytes"),
    }
}

#[test]
fn shader_bookkeeping() {
    assert_eq!(texture_extent(0, 0), (1, 1));
    assert_eq!(texture_extent(640, 0), (640, 1));
    let info = ShaderEntryInfo { width: 640, height: 480, user_buffer_size: 16 };
    assert_eq!(shader_cache_action(Some(info), 640, 480, 16), ShaderCacheAction::Reuse);
    assert_eq!(shader_cache_action(Some(info), 640, 481, 16), ShaderCacheAction::Replace);
    assert_eq!(shader_cache_action(Some(info), 640, 480, 0), ShaderCacheAction::Replace);
    assert_eq!(shader_cache_action(None, 1, 1, 0), ShaderCacheAction::Create);
    assert!(has_user_inputs(4));
    assert!(!has_user_inputs(0));
}

#[test]
fn default_font_size() {
    assert_eq!(ui::DEFAULT_FONT_SIZE, 14);
}

#[test]
fn press_counts_only_presses_within_a_quarter_second() {
    let now = std::time::Instant::now();
    let mut s = EditorState::new();
    assert_eq!(s.press_after_gap(false, now, None), Some(ClickSelection::Point));
    assert_eq!(s.press_after_gap(false, now, Some(249_999_999)), Some(ClickSelection::Word));
    assert_eq!(s.press_after_gap(false, now, Some(1)), Some(ClickSelection::Line));
    assert_eq!(s.click_count(), 3);
    assert_eq!(s.press_after_gap(false, now, Some(250_000_000)), Some(ClickSelection::Point));
    assert_eq!(s.click_count(), 1);
    assert_eq!(s.press_after_gap(true, now, Some(0)), None);
    assert_eq!(s.click_count(), 1);
}

#[test]
fn caret_blinks_by_elapsed_time() {
    let mut s = EditorState::new();
    s.cursor_blink_at(0);
    assert!(!s.cursor_visible());
    assert_eq!(s.next_blink_offset_at(100), None);
    s.cursor_reset();
    s.cursor_blink_at(499);
    assert!(s.cursor_visible());
    s.cursor_blink_at(500);
    assert!(!s.cursor_visible());
    s.cursor_blink_at(1000);
    assert!(s.cursor_visible());
    assert_eq!(s.next_blink_offset_at(0), Some(500_000_000));
    assert_eq!(s.next_blink_offset_at(700_000_000), Some(1_000_000_000));
}
