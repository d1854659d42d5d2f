//! The on/off toggle's state and how pointer events change it.
use vstd::prelude::*;
use crate::gestures::ClickState;

verus! {

/// The state a toggle is drawn from.
#[derive(Debug, Clone, Copy, PartialEq, Eq, Structural)]
pub struct ToggleState {
    pub hovered: bool,
    pub depressed: bool,
    pub on: bool,
}

impl Default for ToggleState {
    /// The default toggle is off, neither hovered nor pressed.
    fn default() -> (s: Self)
        ensures
            s == (ToggleState { hovered: false, depressed: false, on: false }),
    {
        ToggleState::off()
    }
}

impl ToggleState {
    /// A toggle that is on, neither hovered nor pressed.
    pub fn on() -> (s: Self)
        ensures
            s == (ToggleState { hovered: false, depressed: false, on: true }),
    {
        ToggleState { hovered: false, depressed: false, on: true }
    }

    /// A toggle that is off, neither hovered nor pressed.
    pub fn off() -> (s: Self)
        ensures
            s == (ToggleState { hovered: false, depressed: false, on: false }),
    {
        ToggleState { hovered: false, depressed: false, on: false }
    }

    /// The state after the pointer entered (`true`) or left the toggle.
    pub fn after_hover(self, hovered: bool) -> (s: Self)
        ensures
            s == (ToggleState { hovered, ..self }),
    {
        ToggleState { hovered, ..self }
    }

    pub open spec fn spec_after_click(self, click: ClickState) -> Self {
        match click {
            ClickState::Started => ToggleState { depressed: true, ..self },
            ClickState::Cancelled => ToggleState { depressed: false, ..self },
            ClickState::Completed => ToggleState { on: !self.on, depressed: false, ..self },
        }
    }

    /// The state after a click phase: pressing holds the knob down,
    /// cancelling releases it, completing releases it and flips the toggle.
    pub fn after_click(self, click: ClickState) -> (s: Self)
        ensures
            s == self.spec_after_click(click),
    {
        match click {
            ClickState::Started => ToggleState { depressed: true, ..self },
            ClickState::Cancelled => ToggleState { depressed: false, ..self },
            ClickState::Completed => ToggleState { on: !self.on, depressed: false, ..self },
        }
    }

    /// The value the toggle's change callback is given for a click phase:
    /// on completion, the value the toggle is about to take.
    pub fn toggled_value(self, click: ClickState) -> (v: Option<bool>)
        ensures
            v == (if click == ClickState::Completed { Some(!self.on) } else { None::<bool> }),
    {
        match click {
            ClickState::Completed => Some(!self.on),
            _ => None,
        }
    }
}

/// A press that is cancelled leaves the toggle's value as it was.
pub proof fn lemma_toggle_cancel_keeps_value(s: ToggleState)
    ensures
        s.spec_after_click(ClickState::Started).spec_after_click(ClickState::Cancelled)
            == (ToggleState { depressed: false, ..s }),
{
}

/// Two completed clicks leave a toggle as it was, released.
pub proof fn lemma_toggle_twice(s: ToggleState)
    ensures
        s.spec_after_click(ClickState::Completed).spec_after_click(ClickState::Completed)
            == (ToggleState { depressed: false, ..s }),
{
}

} // verus!
