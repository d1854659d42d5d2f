//! The drop-down's state: the selected option, the hovered row and whether
//! the list is open, and which rows it shows.
use vstd::prelude::*;
use crate::gestures::ClickState;

verus! {

/// The state a drop-down is drawn from.
#[derive(Debug, Clone)]
pub struct DropdownState<T> {
    pub selected: T,
    pub hovered: Option<usize>,
    pub expanded: bool,
}

impl<T: Default> Default for DropdownState<T> {
    fn default() -> (s: Self)
        ensures
            s.hovered is None,
            !s.expanded,
    {
        DropdownState { selected: T::default(), hovered: None, expanded: false }
    }
}

/// How a row of the drop-down is filled.
#[derive(Debug, Clone, Copy, PartialEq, Eq, Structural)]
pub enum RowFill {
    /// The selected row of an open list.
    Highlight,
    /// The row under the pointer.
    Hovered,
    Plain,
}

impl<T> DropdownState<T> {
    /// The state after a click phase on the row of `option`, for a list that
    /// was `expanded` when drawn: a completed click on an open list selects
    /// the option and closes the list; on a closed list it opens it.
    pub fn after_row_click(self, click: ClickState, expanded: bool, option: T) -> (s: Self)
        ensures
            click != ClickState::Completed ==> s == self,
            click == ClickState::Completed && expanded ==> s == (DropdownState { selected: option, hovered: self.hovered, expanded: false }),
            click == ClickState::Completed && !expanded ==> s == (DropdownState { expanded: true, ..self }),
    {
        match click {
            ClickState::Completed => if expanded {
                DropdownState { selected: option, hovered: self.hovered, expanded: false }
            } else {
                DropdownState { expanded: true, ..self }
            },
            _ => self,
        }
    }

    /// The state after the pointer entered (`true`) or left row `index` of
    /// a list that was `expanded` when drawn: entering a row of an open list
    /// marks it hovered.
    pub fn after_row_hover(self, index: usize, hovered: bool, expanded: bool) -> (s: Self)
        ensures
            s == (if expanded && hovered { DropdownState { hovered: Some(index), ..self } } else { self }),
    {
        if expanded && hovered {
            DropdownState { hovered: Some(index), ..self }
        } else {
            self
        }
    }

    /// The state after the pointer entered (`true`) or left the drop-down:
    /// leaving clears the hovered row.
    pub fn after_hover(self, hovered: bool) -> (s: Self)
        ensures
            s == (if hovered { self } else { DropdownState { hovered: None, ..self } }),
    {
        if hovered {
            self
        } else {
            DropdownState { hovered: None, ..self }
        }
    }

    /// The state after a click phase outside the drop-down: a completed
    /// click closes the list.
    pub fn after_click_outside(self, click: ClickState) -> (s: Self)
        ensures
            s == (if click == ClickState::Completed { DropdownState { expanded: false, ..self } } else { self }),
    {
        match click {
            ClickState::Completed => DropdownState { expanded: false, ..self },
            _ => self,
        }
    }
}

/// A row of the drop-down: the row's position and the option it shows.
#[derive(Debug, Clone, Copy, PartialEq, Eq, Structural)]
pub struct Row {
    pub index: usize,
    pub option: usize,
}

/// The rows shown: every option in order when open; otherwise only the
/// selected option, in row 0.
pub open spec fn spec_visible_rows(option_count: nat, expanded: bool, selected_index: nat) -> Seq<Row> {
    if expanded {
        Seq::new(option_count, |i: int| Row { index: i as usize, option: i as usize })
    } else {
        seq![Row { index: 0, option: selected_index as usize }]
    }
}

/// The rows a drop-down shows. A closed list shows its selected option,
/// which must exist.
pub fn visible_rows(option_count: usize, expanded: bool, selected_index: usize) -> (rows: Vec<Row>)
    requires
        expanded || selected_index < option_count,
    ensures
        rows@ == spec_visible_rows(option_count as nat, expanded, selected_index as nat),
{
    let mut rows: Vec<Row> = Vec::new();
    if expanded {
        let mut i: usize = 0;
        while i < option_count
            invariant
                i <= option_count,
                rows@ == Seq::new(i as nat, |k: int| Row { index: k as usize, option: k as usize }),
            decreases option_count - i,
        {
            rows.push(Row { index: i, option: i });
            i = i + 1;
        }
    } else {
        rows.push(Row { index: 0, option: selected_index });
    }
    rows
}

/// How row `index` is filled: the selected row of an open list is
/// highlighted, else the hovered row is marked, else the row is plain.
pub fn row_fill(index: usize, expanded: bool, selected_index: usize, hovered: Option<usize>) -> (fill: RowFill)
    ensures
        fill == (if expanded && selected_index == index {
            RowFill::Highlight
        } else if hovered == Some(index) {
            RowFill::Hovered
        } else {
            RowFill::Plain
        }),
{
    if expanded && selected_index == index {
        RowFill::Highlight
    } else {
        match hovered {
            Some(h) => if h == index { RowFill::Hovered } else { RowFill::Plain },
            None => RowFill::Plain,
        }
    }
}

/// Whether a click phase on the row of an option calls the drop-down's
/// `on_select`: once, with the option, on a completed click on a list that
/// was open when drawn, before the option is selected and the list closes;
/// never on a closed list or on a started or cancelled click.
pub fn dropdown_fires(click: ClickState, expanded: bool) -> (fires: bool)
    ensures
        fires == (click == ClickState::Completed && expanded),
{
    match click {
        ClickState::Completed => expanded,
        _ => false,
    }
}

/// Whether row `index` carries the open/closed arrow: only the first row.
pub fn row_has_arrow(index: usize) -> (arrow: bool)
    ensures
        arrow == (index == 0),
{
    index == 0
}

} // verus!
