//! Gestures: what a pointer or key event means for each registered handler.
use vstd::prelude::*;

verus! {

/// The phase of a click on a view.
#[derive(Debug, Clone, Copy, PartialEq, Eq, Structural)]
pub enum ClickState {
    /// The pointer went down on the view.
    Started,
    /// The pointer went up outside the view it went down on.
    Cancelled,
    /// The pointer went up on the view it went down on.
    Completed,
}

/// A change made in a text field's editor.
#[derive(Debug, Clone, PartialEq, Eq)]
pub enum EditInteraction {
    /// The text now reads this.
    Update(String),
    /// Editing ended.
    End,
}

/// The kinds of interaction a gesture handler asks for.
#[derive(Debug, Clone, Copy, Default, PartialEq, Eq, Structural)]
pub struct InteractionType {
    pub edit: bool,
    pub click: bool,
    pub click_outside: bool,
    pub drag: bool,
    pub hover: bool,
    pub key: bool,
    pub scroll: bool,
}

impl InteractionType {
    /// No interaction asked for.
    pub fn none() -> (t: Self)
        ensures
            !t.edit && !t.click && !t.click_outside && !t.drag && !t.hover && !t.key && !t.scroll,
    {
        InteractionType {
            edit: false,
            click: false,
            click_outside: false,
            drag: false,
            hover: false,
            key: false,
            scroll: false,
        }
    }

    /// Only clicks on the view.
    pub fn click_only() -> (t: Self)
        ensures
            t == (InteractionType { click: true, ..Self::none_spec() }),
    {
        InteractionType { click: true, ..Self::none() }
    }

    /// Only clicks outside the view.
    pub fn click_outside_only() -> (t: Self)
        ensures
            t == (InteractionType { click_outside: true, ..Self::none_spec() }),
    {
        InteractionType { click_outside: true, ..Self::none() }
    }

    /// Only drags that start on the view.
    pub fn drag_only() -> (t: Self)
        ensures
            t == (InteractionType { drag: true, ..Self::none_spec() }),
    {
        InteractionType { drag: true, ..Self::none() }
    }

    /// Only hover changes.
    pub fn hover_only() -> (t: Self)
        ensures
            t == (InteractionType { hover: true, ..Self::none_spec() }),
    {
        InteractionType { hover: true, ..Self::none() }
    }

    /// Only key presses.
    pub fn key_only() -> (t: Self)
        ensures
            t == (InteractionType { key: true, ..Self::none_spec() }),
    {
        InteractionType { key: true, ..Self::none() }
    }

    /// Only scrolling over the view.
    pub fn scroll_only() -> (t: Self)
        ensures
            t == (InteractionType { scroll: true, ..Self::none_spec() }),
    {
        InteractionType { scroll: true, ..Self::none() }
    }

    pub open spec fn none_spec() -> Self {
        InteractionType {
            edit: false,
            click: false,
            click_outside: false,
            drag: false,
            hover: false,
            key: false,
            scroll: false,
        }
    }
}

} // verus!
