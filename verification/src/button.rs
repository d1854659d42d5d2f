//! The push button's state and how pointer events change it.
use vstd::prelude::*;
use crate::gestures::ClickState;

verus! {

/// The state a button is drawn from.
#[derive(Debug, Clone, Copy, Default, PartialEq, Eq, Structural)]
pub struct ButtonState {
    pub hovered: bool,
    pub depressed: bool,
}

impl ButtonState {
    /// The state after the pointer entered (`true`) or left the button.
    pub fn after_hover(self, hovered: bool) -> (s: Self)
        ensures
            s == (ButtonState { hovered, ..self }),
    {
        ButtonState { hovered, ..self }
    }

    pub open spec fn spec_after_click(self, click: ClickState) -> Self {
        ButtonState { depressed: click == ClickState::Started, ..self }
    }

    /// The state after a click phase: held down while pressed, released when
    /// the click is cancelled or completed.
    pub fn after_click(self, click: ClickState) -> (s: Self)
        ensures
            s == self.spec_after_click(click),
    {
        match click {
            ClickState::Started => ButtonState { depressed: true, ..self },
            _ => ButtonState { depressed: false, ..self },
        }
    }
}

/// A press followed by a cancel or a completion leaves a button released,
/// as it was before the press apart from being held.
pub proof fn lemma_button_press_release(s: ButtonState, end: ClickState)
    requires
        end != ClickState::Started,
    ensures
        s.spec_after_click(ClickState::Started).spec_after_click(end) == (ButtonState { depressed: false, ..s }),
{
}

/// Whether a click phase runs the button's action: only a completed click.
pub fn button_fires(click: ClickState) -> (fires: bool)
    ensures
        fires == (click == ClickState::Completed),
{
    match click {
        ClickState::Completed => true,
        _ => false,
    }
}

} // verus!
