use ui::dispatch::{
    exit_targets, key_targets, move_plan, press_plan, release_plan, scroll_target, Dispatch, EditorProbe,
    GestureState, HandlerProbe, Signal,
};
use ui::gestures::InteractionType;
use ui::ClickState;

fn probe(id: u64, kinds: InteractionType, inside: bool, near: bool) -> HandlerProbe {
    HandlerProbe { id, kinds, has_handler: true, inside, near, start_near: near }
}

fn d(handler: usize, signal: Signal) -> Dispatch {
    Dispatch { handler, signal }
}

#[test]
fn press_goes_to_topmost_clickable_under_pointer() {
    let probes = vec![
        probe(1, InteractionType::click_only(), true, true),
        probe(2, InteractionType::hover_only(), true, true),
        probe(3, InteractionType::drag_only(), true, true),
        probe(4, InteractionType::click_only(), false, true),
    ];
    let plan = press_plan(&probes, None, true);
    assert_eq!(plan.dispatches, vec![d(2, Signal::DragBegan)]);
    assert_eq!(plan.capturer, Some(3));
    assert!(plan.redraw);
    assert!(!plan.editor_pressed);
}

#[test]
fn press_falls_back_to_slop() {
    let probes = vec![
        probe(1, InteractionType::click_only(), false, true),
        probe(2, InteractionType::click_only(), false, false),
    ];
    let plan = press_plan(&probes, None, true);
    assert_eq!(plan.dispatches, vec![d(0, Signal::Click(ClickState::Started))]);
    assert_eq!(plan.capturer, Some(1));
}

#[test]
fn press_on_nothing() {
    let probes = vec![probe(1, InteractionType::click_only(), false, false)];
    let plan = press_plan(&probes, Some(EditorProbe { id: 9, inside: false, near: true }), true);
    assert!(plan.dispatches.is_empty());
    assert_eq!(plan.capturer, None);
    assert!(!plan.redraw);
    assert!(plan.editor_pressed);
}

#[test]
fn press_without_handler_still_captures() {
    let mut p = probe(5, InteractionType::click_only(), true, true);
    p.has_handler = false;
    let plan = press_plan(&vec![p], None, true);
    assert!(plan.dispatches.is_empty());
    assert_eq!(plan.capturer, Some(5));
    assert!(plan.redraw);
}

#[test]
fn press_tells_far_click_outside_handlers_last_first() {
    let probes = vec![
        probe(1, InteractionType::click_outside_only(), false, false),
        probe(2, InteractionType::click_outside_only(), false, true),
        probe(3, InteractionType::click_outside_only(), false, false),
        probe(4, InteractionType::click_only(), true, true),
    ];
    let plan = press_plan(&probes, None, true);
    assert_eq!(
        plan.dispatches,
        vec![
            d(2, Signal::ClickOutside(ClickState::Started)),
            d(0, Signal::ClickOutside(ClickState::Started)),
            d(3, Signal::Click(ClickState::Started)),
        ]
    );
}

#[test]
fn release_completes_or_cancels_the_capturer() {
    let both = InteractionType { click: true, drag: true, ..InteractionType::none() };
    let probes = vec![
        probe(7, both, true, true),
        probe(8, InteractionType::click_only(), true, true),
        probe(7, InteractionType::click_only(), false, false),
    ];
    let plan = release_plan(&probes, GestureState::Dragging { capturer: 7 }, None, true);
    assert_eq!(
        plan.dispatches,
        vec![
            d(0, Signal::Click(ClickState::Completed)),
            d(0, Signal::DragCompleted),
            d(2, Signal::Click(ClickState::Cancelled)),
        ]
    );
    assert!(plan.redraw);
    assert!(!plan.editor_released && !plan.end_editing);
}

#[test]
fn release_without_press_sends_nothing() {
    let probes = vec![probe(7, InteractionType::click_only(), true, true)];
    let plan = release_plan(&probes, GestureState::Idle, None, true);
    assert!(plan.dispatches.is_empty());
    assert!(!plan.redraw);
}

#[test]
fn release_click_outside_needs_press_and_release_away() {
    let mut away = probe(1, InteractionType::click_outside_only(), false, false);
    away.start_near = false;
    let mut pressed_near = probe(2, InteractionType::click_outside_only(), false, false);
    pressed_near.start_near = true;
    let plan = release_plan(&vec![away, pressed_near], GestureState::Dragging { capturer: 99 }, None, true);
    assert_eq!(plan.dispatches, vec![d(0, Signal::ClickOutside(ClickState::Completed))]);
}

#[test]
fn release_ends_editing_off_the_field() {
    let editor = Some(EditorProbe { id: 3, inside: false, near: false });
    let plan = release_plan(&vec![], GestureState::Idle, editor, true);
    assert!(plan.editor_released && plan.end_editing && plan.redraw);
    let plan = release_plan(&vec![], GestureState::Dragging { capturer: 3 }, editor, true);
    assert!(plan.editor_released && !plan.end_editing);
    let plan = release_plan(&vec![], GestureState::Dragging { capturer: 4 }, editor, true);
    assert!(plan.end_editing);
    let inside = Some(EditorProbe { id: 3, inside: true, near: true });
    assert!(!release_plan(&vec![], GestureState::Idle, inside, true).end_editing);
}

#[test]
fn move_hovers_and_drags() {
    let probes = vec![
        probe(1, InteractionType::hover_only(), true, true),
        probe(2, InteractionType::drag_only(), false, false),
        probe(1, InteractionType::hover_only(), false, false),
    ];
    let plan = move_plan(&probes, GestureState::Dragging { capturer: 2 }, false);
    assert_eq!(
        plan.dispatches,
        vec![d(0, Signal::Hover(true)), d(2, Signal::Hover(false)), d(1, Signal::DragUpdated)]
    );
    assert!(plan.redraw);
    let idle = move_plan(&probes, GestureState::Idle, true);
    assert_eq!(idle.dispatches, vec![d(0, Signal::Hover(true)), d(2, Signal::Hover(false))]);
    assert!(idle.editor_moved);
}

#[test]
fn move_redraws_for_detached_drag_capturer() {
    let mut p = probe(2, InteractionType::drag_only(), false, false);
    p.has_handler = false;
    let plan = move_plan(&vec![p], GestureState::Dragging { capturer: 2 }, false);
    assert!(plan.dispatches.is_empty());
    assert!(plan.redraw);
    let quiet = move_plan(&vec![p], GestureState::Idle, false);
    assert!(!quiet.redraw);
}

#[test]
fn scroll_goes_to_topmost_scroller_if_attached() {
    let mut top = probe(2, InteractionType::scroll_only(), true, true);
    let probes = vec![probe(1, InteractionType::scroll_only(), true, true), top];
    assert_eq!(scroll_target(&probes, true), Some(1));
    top.has_handler = false;
    let probes = vec![probe(1, InteractionType::scroll_only(), true, true), top];
    assert_eq!(scroll_target(&probes, true), None);
    let probes = vec![probe(1, InteractionType::scroll_only(), false, true)];
    assert_eq!(scroll_target(&probes, true), None);
}

#[test]
fn keys_and_exit_reach_every_attached_handler() {
    let mut detached = probe(3, InteractionType::key_only(), false, false);
    detached.has_handler = false;
    let probes = vec![
        probe(1, InteractionType::key_only(), false, false),
        probe(2, InteractionType::hover_only(), true, true),
        detached,
        probe(4, InteractionType { key: true, hover: true, ..InteractionType::none() }, false, false),
    ];
    assert_eq!(key_targets(&probes), vec![0, 3]);
    assert_eq!(exit_targets(&probes), vec![1, 3]);
}
