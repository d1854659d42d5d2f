use std::sync::Arc;
use ui::dispatch::{editor_takes_press, gesture_after_press, press_plan, release_plan, scroll_target, EditorProbe, GestureState, HandlerProbe};
use ui::dropdown::dropdown_fires;
use ui::gestures::{EditInteraction, InteractionType};
use ui::image::{load_image, DecodedImage, ImageLoadError, ImageSource};
use ui::redraw::{register_handlers, HandlerSlot, RedrawSteps, StartState};
use ui::windows::{OpenPlan, OpenWindows, Window, WindowPlatform, WindowRegistry};
use ui::segment_picker::{segment_fires, segment_marks, SegmentMark};
use ui::shader::{ShaderCache, ShaderCacheAction, ShaderEntryInfo};
use ui::text_field::{begin_editing, EditSession, FieldKeyAction, TextState};
use ui::ClickState;

fn field(text: &str, editing: bool) -> TextState {
    TextState { text: text.to_string(), editing }
}

#[test]
fn ending_key_closes_and_keeps_text() {
    let (s, notice) = field("abc", true).after_key(FieldKeyAction::EndEditing, "zzz".to_string());
    assert_eq!(s, field("abc", false));
    assert_eq!(notice, Some(EditInteraction::End));
}

#[test]
fn editing_key_reports_then_stores_text() {
    let (s, notice) = field("ab", true).after_key(FieldKeyAction::Edit, "abc".to_string());
    assert_eq!(s, field("abc", true));
    assert_eq!(notice, Some(EditInteraction::Update("abc".to_string())));
}

#[test]
fn ignored_key_changes_nothing() {
    let (s, notice) = field("ab", false).after_key(FieldKeyAction::Ignore, "x".to_string());
    assert_eq!(s, field("ab", false));
    assert_eq!(notice, None);
}

#[test]
fn click_starts_editing_on_bound_text() {
    let (s, begin) = field("hi", false).after_field_click(false);
    assert_eq!(s, field("hi", true));
    assert_eq!(begin, Some("hi".to_string()));
    let (s, begin) = field("hi", false).after_field_click(true);
    assert_eq!(s, field("hi", false));
    assert_eq!(begin, None);
    let (s, begin) = field("hi", true).after_field_click(false);
    assert_eq!(s, field("hi", true));
    assert_eq!(begin, None);
}

#[test]
fn click_outside_ends_own_editing_only() {
    let (s, notice) = field("t", true).after_click_outside(Some(4), 4);
    assert_eq!(s, field("t", false));
    assert_eq!(notice, Some(EditInteraction::End));
    let (s, notice) = field("t", true).after_click_outside(Some(5), 4);
    assert_eq!(s, field("t", true));
    assert_eq!(notice, None);
}

#[test]
fn first_editor_wins() {
    let opened = begin_editing(None, true, 3, "abc".to_string(), 1u8, 2u8);
    assert_eq!(
        opened,
        Some(EditSession { id: 3, editing: true, text: "abc".to_string(), cursor_fill: 1, highlight_fill: 2 })
    );
    let again = begin_editing(opened.clone(), true, 9, "x".to_string(), 0u8, 0u8);
    assert_eq!(again, opened);
    assert_eq!(begin_editing(None::<EditSession<u8>>, false, 3, "abc".to_string(), 1, 2), None);
}

#[test]
fn selection_callbacks_fire_on_completed_clicks() {
    assert!(dropdown_fires(ClickState::Completed, true));
    assert!(!dropdown_fires(ClickState::Completed, false));
    assert!(!dropdown_fires(ClickState::Started, true));
    assert!(segment_fires(ClickState::Completed));
    assert!(!segment_fires(ClickState::Started));
    assert!(!segment_fires(ClickState::Cancelled));
}

#[test]
fn segment_marks_follow_selection_and_hover() {
    let marks = segment_marks(3, 1, Some(2));
    assert_eq!(
        marks,
        vec![
            SegmentMark { selected: false, hovered: false },
            SegmentMark { selected: true, hovered: false },
            SegmentMark { selected: false, hovered: true },
        ]
    );
    assert!(segment_marks(0, 0, None).is_empty());
}

#[test]
fn release_always_ends_the_gesture() {
    let p = HandlerProbe {
        id: 7,
        kinds: InteractionType { click: true, ..InteractionType::none() },
        has_handler: true,
        inside: true,
        near: true,
        start_near: true,
    };
    let plan = release_plan(&vec![p], GestureState::Dragging { capturer: 7 }, None, true);
    assert_eq!(plan.next_gesture, GestureState::Idle);
    assert_eq!(plan.dispatches.len(), 1);
    let editor = Some(EditorProbe { id: 1, inside: false, near: false });
    let plan = release_plan(&vec![p], GestureState::Dragging { capturer: 7 }, editor, false);
    assert_eq!(plan.next_gesture, GestureState::Idle);
    assert!(plan.dispatches.is_empty());
    assert!(!plan.editor_released && !plan.end_editing && !plan.redraw);
}

#[test]
fn editor_takes_press_when_near() {
    assert!(editor_takes_press(Some(EditorProbe { id: 1, inside: false, near: true })));
    assert!(!editor_takes_press(Some(EditorProbe { id: 1, inside: false, near: false })));
    assert!(!editor_takes_press(None));
}

#[test]
fn shader_cache_creates_reuses_and_replaces() {
    let mut cache = ShaderCache::new();
    assert_eq!(cache.ensure_entry(1, 0, 20, 0), ShaderCacheAction::Create);
    assert_eq!(cache.get(1), Some(ShaderEntryInfo { width: 1, height: 20, user_buffer_size: 0 }));
    assert_eq!(cache.ensure_entry(1, 0, 20, 0), ShaderCacheAction::Reuse);
    assert_eq!(cache.ensure_entry(2, 5, 5, 16), ShaderCacheAction::Create);
    assert_eq!(cache.ensure_entry(1, 30, 20, 0), ShaderCacheAction::Replace);
    assert_eq!(cache.get(1), Some(ShaderEntryInfo { width: 30, height: 20, user_buffer_size: 0 }));
    assert_eq!(cache.get(2), Some(ShaderEntryInfo { width: 5, height: 5, user_buffer_size: 16 }));
    assert_eq!(cache.get(3), None);
}

#[test]
fn raw_buffers_need_four_bytes_per_pixel() {
    let ok = load_image(&ImageSource::Buffer(2, 1, Arc::new(vec![1, 2, 3, 4, 5, 6, 7, 8])), None);
    assert_eq!(ok, Ok(DecodedImage { width: 2, height: 1, rgba: vec![1, 2, 3, 4, 5, 6, 7, 8] }));
    let short = load_image(&ImageSource::Buffer(2, 2, Arc::new(vec![0; 15])), None);
    assert_eq!(short, Err(ImageLoadError::InvalidBuffer));
    let huge = load_image(&ImageSource::Buffer(u32::MAX, u32::MAX, Arc::new(vec![])), None);
    assert_eq!(huge, Err(ImageLoadError::InvalidBuffer));
}

#[test]
fn encoded_bytes_are_decoded() {
    let mut png = Vec::new();
    image::RgbaImage::from_raw(1, 1, vec![10, 20, 30, 255])
        .unwrap()
        .write_to(&mut std::io::Cursor::new(&mut png), image::ImageFormat::Png)
        .unwrap();
    let decoded = load_image(&ImageSource::Bytes(Arc::new(png.clone())), None);
    assert_eq!(decoded, Ok(DecodedImage { width: 1, height: 1, rgba: vec![10, 20, 30, 255] }));
    let from_file = load_image(&ImageSource::Path("x.png".to_string()), Some(png));
    assert_eq!(from_file, decoded);
    assert_eq!(load_image(&ImageSource::Bytes(Arc::new(vec![1, 2, 3])), None), Err(ImageLoadError::Decode));
    assert_eq!(load_image(&ImageSource::Path("missing.png".to_string()), None), Err(ImageLoadError::Unreadable));
}

#[test]
fn start_callback_runs_once_before_frames() {
    let mut s = StartState::new();
    assert_eq!(s.begin_redraw(false), RedrawSteps { run_on_start: true, draw_frame: false });
    assert_eq!(s.begin_redraw(true), RedrawSteps { run_on_start: false, draw_frame: true });
    assert_eq!(s.begin_redraw(true), RedrawSteps { run_on_start: false, draw_frame: true });
    assert!(s.started);
    let mut t = StartState::new();
    assert_eq!(t.begin_redraw(true), RedrawSteps { run_on_start: true, draw_frame: true });
}

#[test]
fn press_without_position_does_nothing() {
    let p = HandlerProbe {
        id: 7,
        kinds: InteractionType { click: true, click_outside: true, ..InteractionType::none() },
        has_handler: true,
        inside: true,
        near: true,
        start_near: true,
    };
    let plan = press_plan(&vec![p], Some(EditorProbe { id: 1, inside: true, near: true }), false);
    assert!(plan.dispatches.is_empty());
    assert_eq!(plan.capturer, None);
    assert!(!plan.editor_pressed && !plan.redraw);
    assert_eq!(gesture_after_press(GestureState::Dragging { capturer: 3 }, plan.capturer), GestureState::Dragging { capturer: 3 });
    let scroller = HandlerProbe { kinds: InteractionType { scroll: true, ..InteractionType::none() }, ..p };
    assert_eq!(scroll_target(&vec![scroller], true), Some(0));
    assert_eq!(scroll_target(&vec![scroller], false), None);
}

#[test]
fn open_windows_never_repeat_a_name() {
    let mut open = OpenWindows::new();
    assert!(open.add("main"));
    assert!(open.add("tools"));
    assert!(!open.add("main"));
    assert_eq!(open.open_names(), &vec!["main", "tools"]);
    let r = WindowRegistry::new(Window::new("main", ()));
    assert_eq!(open.plan(&r, "main", WindowPlatform::Other), OpenPlan::Focus(0));
    open.remove(0);
    assert_eq!(open.open_names(), &vec!["tools"]);
    assert_eq!(open.len(), 1);
    assert!(open.add("main"));
}

#[test]
fn handlers_register_in_drawing_order() {
    let slots = register_handlers(&vec![(10, 2), (11, 0), (12, 1)]);
    assert_eq!(
        slots,
        vec![
            HandlerSlot { view_id: 10, item: 0, handler: 0 },
            HandlerSlot { view_id: 10, item: 0, handler: 1 },
            HandlerSlot { view_id: 12, item: 2, handler: 0 },
        ]
    );
}

#[test]
fn press_starts_a_drag_only_when_taken() {
    assert_eq!(gesture_after_press(GestureState::Idle, Some(4)), GestureState::Dragging { capturer: 4 });
    assert_eq!(gesture_after_press(GestureState::Idle, None), GestureState::Idle);
}
