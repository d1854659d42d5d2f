//! The segment picker's state: the selected option and the hovered segment.
use vstd::prelude::*;
use crate::gestures::ClickState;
use vstd::std_specs::cmp::PartialEqSpec;

verus! {

/// How the segments are laid out.
#[derive(Debug, Clone, Copy, PartialEq, Eq, Structural)]
pub enum Orientation {
    Horizontal,
    Vertical,
}

impl Default for Orientation {
    fn default() -> (o: Self)
        ensures
            o == Orientation::Horizontal,
    {
        Orientation::Horizontal
    }
}

/// The state a segment picker is drawn from.
#[derive(Debug, Clone)]
pub struct SegmentPickerState<T> {
    pub selected: T,
    pub hovered: Option<usize>,
}

impl<T> SegmentPickerState<T> {
    /// A picker with `selected` chosen and no segment hovered.
    pub fn new(selected: T) -> (s: Self)
        ensures
            s.selected == selected,
            s.hovered is None,
    {
        SegmentPickerState { selected, hovered: None }
    }

    /// The state after the pointer entered (`true`) or left segment `index`:
    /// entering marks it hovered; leaving a segment changes nothing.
    pub fn after_segment_hover(self, index: usize, hovered: bool) -> (s: Self)
        ensures
            s.selected == self.selected,
            s.hovered == (if hovered { Some(index) } else { self.hovered }),
    {
        if hovered {
            SegmentPickerState { selected: self.selected, hovered: Some(index) }
        } else {
            self
        }
    }

    /// The state after the pointer entered (`true`) or left the whole picker:
    /// leaving clears the hovered segment.
    pub fn after_picker_hover(self, hovered: bool) -> (s: Self)
        ensures
            s.selected == self.selected,
            s.hovered == (if hovered { self.hovered } else { None }),
    {
        if hovered {
            self
        } else {
            SegmentPickerState { selected: self.selected, hovered: None }
        }
    }

    /// The state after a click phase on the segment of `option`: a completed
    /// click selects it.
    pub fn after_segment_click(self, click: ClickState, option: T) -> (s: Self)
        ensures
            s.hovered == self.hovered,
            s.selected == (if click == ClickState::Completed { option } else { self.selected }),
    {
        match click {
            ClickState::Completed => SegmentPickerState { selected: option, hovered: self.hovered },
            _ => self,
        }
    }
}

/// The index of the first element of `s` that `==` (by its specification)
/// takes to be equal to `v`, if any.
pub open spec fn first_match<T: PartialEq>(s: Seq<T>, v: T, hi: int) -> Option<int>
    decreases hi,
{
    if hi <= 0 {
        None
    } else {
        match first_match(s, v, hi - 1) {
            Some(i) => Some(i),
            None => if s[hi - 1].eq_spec(&v) { Some(hi - 1) } else { None },
        }
    }
}

/// The index of the selected option: the first option equal to
/// `selected`, or 0 when none is. Where `T`'s `==` follows its
/// specification, the index is pinned down exactly.
pub fn selected_index<T: PartialEq>(options: &Vec<T>, selected: &T) -> (i: usize)
    ensures
        T::obeys_eq_spec() ==> i == match first_match(options@, *selected, options@.len() as int) {
            Some(j) => j as usize,
            None => 0usize,
        },
        options@.len() > 0 ==> i < options@.len(),
{
    let mut k: usize = 0;
    while k < options.len()
        invariant
            k <= options@.len(),
            T::obeys_eq_spec() ==> first_match(options@, *selected, k as int) is None,
        decreases options@.len() - k,
    {
        if options[k] == *selected {
            proof {
                if T::obeys_eq_spec() {
                    assert(first_match(options@, *selected, (k + 1) as int) == Some(k as int));
                    lemma_first_match_stable(options@, *selected, (k + 1) as int, options@.len() as int);
                }
            }
            return k;
        }
        k = k + 1;
    }
    0
}

/// Once an element matches below `lo`, the first match stays the same for
/// every larger bound.
pub proof fn lemma_first_match_stable<T: PartialEq>(s: Seq<T>, v: T, lo: int, hi: int)
    requires
        lo <= hi,
        first_match(s, v, lo) is Some,
    ensures
        first_match(s, v, hi) == first_match(s, v, lo),
    decreases hi - lo,
{
    if hi > lo {
        lemma_first_match_stable(s, v, lo, hi - 1);
    }
}

/// Whether a click phase on a segment calls the picker's `on_select`: once,
/// with the segment's option, on a completed click, before the option is
/// selected; never on a started or cancelled one.
pub fn segment_fires(click: ClickState) -> (fires: bool)
    ensures
        fires == (click == ClickState::Completed),
{
    match click {
        ClickState::Completed => true,
        _ => false,
    }
}

/// How one segment is drawn: with the selected fill (and selected text
/// fill), and with the hover highlight.
#[derive(Debug, Clone, Copy, PartialEq, Eq, Structural)]
pub struct SegmentMark {
    pub selected: bool,
    pub hovered: bool,
}

/// The segments a picker over `count` options draws, one per option in
/// order: the one at `selected_index` is marked selected, the one at
/// `hovered` is marked hovered.
pub fn segment_marks(count: usize, selected_index: usize, hovered: Option<usize>) -> (marks: Vec<SegmentMark>)
    ensures
        marks@.len() == count,
        forall|i: int| 0 <= i < count ==> #[trigger] marks@[i] == (SegmentMark {
            selected: i == selected_index,
            hovered: hovered == Some(i as usize),
        }),
{
    let mut marks: Vec<SegmentMark> = Vec::new();
    let mut i: usize = 0;
    while i < count
        invariant
            i <= count,
            marks@.len() == i,
            forall|j: int| 0 <= j < i ==> #[trigger] marks@[j] == (SegmentMark {
                selected: j == selected_index,
                hovered: hovered == Some(j as usize),
            }),
        decreases count - i,
    {
        let is_hovered = match hovered {
            Some(h) => h == i,
            None => false,
        };
        marks.push(SegmentMark { selected: i == selected_index, hovered: is_hovered });
        i = i + 1;
    }
    marks
}

/// The label shown for segment `index`: its label if there is one, else the
/// empty string.
pub fn segment_label(labels: &Vec<String>, index: usize) -> (label: String)
    ensures
        label@ == (if index < labels@.len() { labels@[index as int]@ } else { Seq::<char>::empty() }),
{
    if index < labels.len() {
        labels[index].clone()
    } else {
        String::new()
    }
}

} // verus!
