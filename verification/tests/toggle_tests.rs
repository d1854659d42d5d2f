use ui::button::{button_fires, ButtonState};
use ui::toggle::ToggleState;
use ui::ClickState;

#[test]
fn toggle_on_and_off_constructors() {
    assert_eq!(ToggleState::on(), ToggleState { hovered: false, depressed: false, on: true });
    assert_eq!(ToggleState::off(), ToggleState { hovered: false, depressed: false, on: false });
}

#[test]
fn toggle_hover_sets_only_hovered() {
    let s = ToggleState::on().after_hover(true);
    assert_eq!(s, ToggleState { hovered: true, depressed: false, on: true });
    assert_eq!(s.after_hover(false), ToggleState::on());
}

#[test]
fn toggle_press_holds_and_completion_flips() {
    let s = ToggleState::off().after_click(ClickState::Started);
    assert!(s.depressed && !s.on);
    let s = s.after_click(ClickState::Completed);
    assert_eq!(s, ToggleState::on());
}

#[test]
fn toggle_cancel_keeps_value() {
    let s = ToggleState::off().after_click(ClickState::Started).after_click(ClickState::Cancelled);
    assert_eq!(s, ToggleState::off());
}

#[test]
fn toggle_twice_restores() {
    let s = ToggleState { hovered: true, depressed: true, on: true };
    let t = s.after_click(ClickState::Completed).after_click(ClickState::Completed);
    assert_eq!(t, ToggleState { hovered: true, depressed: false, on: true });
}

#[test]
fn toggle_reports_new_value_on_completion_only() {
    let s = ToggleState::off();
    assert_eq!(s.toggled_value(ClickState::Completed), Some(true));
    assert_eq!(s.toggled_value(ClickState::Started), None);
    assert_eq!(s.toggled_value(ClickState::Cancelled), None);
    assert_eq!(ToggleState::on().toggled_value(ClickState::Completed), Some(false));
}

#[test]
fn button_press_and_release() {
    let s = ButtonState::default().after_hover(true);
    assert_eq!(s, ButtonState { hovered: true, depressed: false });
    let pressed = s.after_click(ClickState::Started);
    assert!(pressed.depressed);
    assert_eq!(pressed.after_click(ClickState::Completed), s);
    assert_eq!(pressed.after_click(ClickState::Cancelled), s);
}

#[test]
fn button_fires_on_completion_only() {
    assert!(button_fires(ClickState::Completed));
    assert!(!button_fires(ClickState::Started));
    assert!(!button_fires(ClickState::Cancelled));
}

#[test]
fn toggle_default_is_off() {
    assert_eq!(ToggleState::default(), ToggleState::off());
}
