//! Routing of pointer and key events to the gesture handlers registered
//! during the last draw. The caller hit-tests each handler's area against
//! the pointer and hands over the results; these functions decide which
//! handlers receive which signal, in which order, and whether to redraw.
use vstd::prelude::*;
use crate::gestures::{ClickState, InteractionType};

verus! {

/// One registered gesture handler, as seen by a pointer event.
#[derive(Debug, Clone, Copy, PartialEq, Eq, Structural)]
pub struct HandlerProbe {
    /// The id of the view that registered the handler.
    pub id: u64,
    /// The interactions the handler asks for.
    pub kinds: InteractionType,
    /// Whether a handler function is attached.
    pub has_handler: bool,
    /// The pointer lies inside the view's area.
    pub inside: bool,
    /// The pointer lies inside the view's area grown by the click slop on
    /// every side.
    pub near: bool,
    /// The point where the current press started lies inside the grown
    /// area (only read on release).
    pub start_near: bool,
}

/// The pointer gesture in progress.
#[derive(Debug, Clone, Copy, PartialEq, Eq, Structural)]
pub enum GestureState {
    /// No press is held.
    Idle,
    /// A press is held; `capturer` is the id of the view that took it.
    Dragging { capturer: u64 },
}

/// The text editor, as seen by a pointer event: present only while a text
/// field is being edited and its area is known.
#[derive(Debug, Clone, Copy, PartialEq, Eq, Structural)]
pub struct EditorProbe {
    /// The id of the text field being edited.
    pub id: u64,
    /// The pointer lies inside the field's area.
    pub inside: bool,
    /// The pointer lies inside the field's area grown by the click slop.
    pub near: bool,
}

/// What a handler is told.
#[derive(Debug, Clone, Copy, PartialEq, Eq, Structural)]
pub enum Signal {
    ClickOutside(ClickState),
    Click(ClickState),
    DragBegan,
    DragUpdated,
    DragCompleted,
    Hover(bool),
}

/// A signal for the handler at index `handler`.
#[derive(Debug, Clone, Copy, PartialEq, Eq, Structural)]
pub struct Dispatch {
    pub handler: usize,
    pub signal: Signal,
}

/// What to do for a pointer press.
#[derive(Debug, Clone, PartialEq, Eq)]
pub struct PressPlan {
    /// Signals to deliver, in order.
    pub dispatches: Vec<Dispatch>,
    /// The view that takes the press, if any; the gesture becomes
    /// `Dragging` with it.
    pub capturer: Option<u64>,
    /// Whether the text editor receives the press.
    pub editor_pressed: bool,
    pub redraw: bool,
}

/// What to do for a pointer release.
#[derive(Debug, Clone, PartialEq, Eq)]
pub struct ReleasePlan {
    /// The text editor is told that the pointer went up.
    pub editor_released: bool,
    /// Editing ends (done before the signals are delivered).
    pub end_editing: bool,
    /// Signals to deliver, in order.
    pub dispatches: Vec<Dispatch>,
    pub redraw: bool,
    /// The gesture after the release.
    pub next_gesture: GestureState,
}

/// What to do for a pointer move.
#[derive(Debug, Clone, PartialEq, Eq)]
pub struct MovePlan {
    /// The text editor is told where the pointer is.
    pub editor_moved: bool,
    /// Signals to deliver, in order.
    pub dispatches: Vec<Dispatch>,
    pub redraw: bool,
}

// ---- press ----

pub open spec fn outside_press_item(s: Seq<HandlerProbe>, i: int) -> Seq<Dispatch> {
    let p = s[i];
    if p.kinds.click_outside && !p.near && p.has_handler {
        seq![Dispatch { handler: i as usize, signal: Signal::ClickOutside(ClickState::Started) }]
    } else {
        seq![]
    }
}

/// Click-outside signals for the handlers in `[lo, s.len())`, the last
/// registered first.
pub open spec fn outside_press(s: Seq<HandlerProbe>, lo: int) -> Seq<Dispatch>
    decreases s.len() - lo,
{
    if lo >= s.len() || lo < 0 {
        seq![]
    } else {
        outside_press(s, lo + 1) + outside_press_item(s, lo)
    }
}

pub open spec fn captures(p: HandlerProbe, near: bool) -> bool {
    (if near { p.near } else { p.inside }) && (p.kinds.click || p.kinds.drag)
}

/// The last handler below `hi` that can take a press: one that asks for
/// clicks or drags, under the pointer (or, with `near`, within the slop).
pub open spec fn last_capture(s: Seq<HandlerProbe>, hi: int, near: bool) -> Option<int>
    decreases hi,
{
    if hi <= 0 {
        None
    } else if captures(s[hi - 1], near) {
        Some(hi - 1)
    } else {
        last_capture(s, hi - 1, near)
    }
}

/// The handler that takes a press: the last one under the pointer, else the
/// last one within the slop.
pub open spec fn press_capture(s: Seq<HandlerProbe>) -> Option<int> {
    match last_capture(s, s.len() as int, false) {
        Some(i) => Some(i),
        None => last_capture(s, s.len() as int, true),
    }
}

/// If some handler below `hi` can take a press, the last such one does.
pub proof fn lemma_last_capture_finds(s: Seq<HandlerProbe>, hi: int, near: bool, i: int)
    requires
        0 <= i < hi <= s.len(),
        captures(s[i], near),
    ensures
        last_capture(s, hi, near) matches Some(c) && i <= c < hi && captures(s[c], near)
            && forall|j: int| c < j < hi ==> !#[trigger] captures(s[j], near),
    decreases hi,
{
    if !captures(s[hi - 1], near) {
        lemma_last_capture_finds(s, hi - 1, near, i);
    }
}

/// A press under a handler that takes clicks or drags goes to the last
/// registered such handler under the pointer, never to one merely within
/// the slop.
pub proof fn lemma_press_goes_to_topmost(s: Seq<HandlerProbe>, i: int)
    requires
        0 <= i < s.len(),
        s[i].inside,
        s[i].kinds.click || s[i].kinds.drag,
    ensures
        press_capture(s) matches Some(c) && i <= c < s.len() && s[c].inside
            && (s[c].kinds.click || s[c].kinds.drag)
            && forall|j: int| c < j < s.len() ==> !(#[trigger] s[j].inside && (s[j].kinds.click || s[j].kinds.drag)),
{
    lemma_last_capture_finds(s, s.len() as int, false, i);
    assert forall|j: int| (last_capture(s, s.len() as int, false) matches Some(c) && c < j < s.len()) implies
        !(#[trigger] s[j].inside && (s[j].kinds.click || s[j].kinds.drag)) by {
        assert(!captures(s[j], false));
    }
}

pub open spec fn capture_item(s: Seq<HandlerProbe>, i: int) -> Seq<Dispatch> {
    let p = s[i];
    if p.kinds.click && p.has_handler {
        seq![Dispatch { handler: i as usize, signal: Signal::Click(ClickState::Started) }]
    } else if p.kinds.drag && p.has_handler {
        seq![Dispatch { handler: i as usize, signal: Signal::DragBegan }]
    } else {
        seq![]
    }
}

pub open spec fn spec_press_plan(s: Seq<HandlerProbe>, editor: Option<EditorProbe>) -> (Seq<Dispatch>, Option<u64>, bool, bool) {
    let out = outside_press(s, 0);
    match press_capture(s) {
        Some(c) => (out + capture_item(s, c), Some(s[c].id), editor matches Some(e) && e.near, true),
        None => (out, None, editor matches Some(e) && e.near, false),
    }
}

/// The gesture after a press that `capturer` (from `press_plan`) took: a
/// drag held by that view; a press that no view took leaves the gesture as
/// it was.
pub fn gesture_after_press(current: GestureState, capturer: Option<u64>) -> (g: GestureState)
    ensures
        g == match capturer {
            Some(c) => GestureState::Dragging { capturer: c },
            None => current,
        },
{
    match capturer {
        Some(c) => GestureState::Dragging { capturer: c },
        None => current,
    }
}

/// Whether the open text editor receives a press: it is open and the
/// pointer is within the slop of its field. It is asked after the press's
/// signals were delivered, so an editor that a click just opened takes the
/// press.
pub fn editor_takes_press(editor: Option<EditorProbe>) -> (pressed: bool)
    ensures
        pressed == (editor matches Some(e) && e.near),
{
    match editor {
        Some(e) => e.near,
        None => false,
    }
}

fn find_last_capture(probes: &Vec<HandlerProbe>, near: bool) -> (r: Option<usize>)
    ensures
        match r {
            Some(i) => i < probes@.len() && last_capture(probes@, probes@.len() as int, near) == Some(i as int),
            None => last_capture(probes@, probes@.len() as int, near) is None,
        },
{
    let mut i = probes.len();
    while i > 0
        invariant
            i <= probes@.len(),
            last_capture(probes@, probes@.len() as int, near) == last_capture(probes@, i as int, near),
        decreases i,
    {
        let p = probes[i - 1];
        let hit = if near { p.near } else { p.inside };
        if hit && (p.kinds.click || p.kinds.drag) {
            return Some(i - 1);
        }
        i = i - 1;
    }
    None
}

/// Plans a press of the primary pointer button: click-outside signals
/// (last registered first) to handlers away from the pointer, then
/// `Click(Started)` or `DragBegan` to the handler that takes the press.
/// When the pointer's position is not known, nothing is told to anyone and
/// no view takes the press (the gesture stays as it was).
pub fn press_plan(probes: &Vec<HandlerProbe>, editor: Option<EditorProbe>, position_known: bool) -> (plan: PressPlan)
    ensures
        position_known ==> (plan.dispatches@, plan.capturer, plan.editor_pressed, plan.redraw) == spec_press_plan(probes@, editor),
        !position_known ==> plan.dispatches@.len() == 0 && plan.capturer is None && !plan.editor_pressed && !plan.redraw,
{
    if !position_known {
        return PressPlan { dispatches: Vec::new(), capturer: None, editor_pressed: false, redraw: false };
    }
    let mut dispatches: Vec<Dispatch> = Vec::new();
    let mut i = probes.len();
    while i > 0
        invariant
            i <= probes@.len(),
            dispatches@ == outside_press(probes@, i as int),
        decreases i,
    {
        let p = probes[i - 1];
        if p.kinds.click_outside && !p.near && p.has_handler {
            dispatches.push(Dispatch { handler: i - 1, signal: Signal::ClickOutside(ClickState::Started) });
        }
        i = i - 1;
    }
    let editor_pressed = editor_takes_press(editor);
    let capture = match find_last_capture(probes, false) {
        Some(c) => Some(c),
        None => find_last_capture(probes, true),
    };
    match capture {
        Some(c) => {
            let p = probes[c];
            if p.kinds.click && p.has_handler {
                dispatches.push(Dispatch { handler: c, signal: Signal::Click(ClickState::Started) });
            } else if p.kinds.drag && p.has_handler {
                dispatches.push(Dispatch { handler: c, signal: Signal::DragBegan });
            }
            PressPlan { dispatches, capturer: Some(p.id), editor_pressed, redraw: true }
        },
        None => PressPlan { dispatches, capturer: None, editor_pressed, redraw: false },
    }
}

// ---- release ----

pub open spec fn capturer_item(s: Seq<HandlerProbe>, i: int, capturer: u64) -> Seq<Dispatch> {
    let p = s[i];
    if p.id != capturer {
        seq![]
    } else {
        let click = if p.kinds.click && p.has_handler {
            seq![Dispatch {
                handler: i as usize,
                signal: Signal::Click(if p.inside { ClickState::Completed } else { ClickState::Cancelled }),
            }]
        } else {
            seq![]
        };
        let drag = if p.kinds.drag && p.has_handler {
            seq![Dispatch { handler: i as usize, signal: Signal::DragCompleted }]
        } else {
            seq![]
        };
        click + drag
    }
}

/// End-of-press signals for the handlers of the capturing view among the
/// first `hi`, in order: a completed click if the pointer is back on the
/// view, else a cancelled one; and a completed drag.
pub open spec fn capturer_release(s: Seq<HandlerProbe>, hi: int, capturer: u64) -> Seq<Dispatch>
    decreases hi,
{
    if hi <= 0 {
        seq![]
    } else {
        capturer_release(s, hi - 1, capturer) + capturer_item(s, hi - 1, capturer)
    }
}

pub open spec fn outside_release_item(s: Seq<HandlerProbe>, i: int) -> Seq<Dispatch> {
    let p = s[i];
    if p.kinds.click_outside && !p.near && !p.start_near && p.has_handler {
        seq![Dispatch { handler: i as usize, signal: Signal::ClickOutside(ClickState::Completed) }]
    } else {
        seq![]
    }
}

/// Completed click-outside signals, in order, to the handlers among the
/// first `hi` that neither the press nor the release came near.
pub open spec fn outside_release(s: Seq<HandlerProbe>, hi: int) -> Seq<Dispatch>
    decreases hi,
{
    if hi <= 0 {
        seq![]
    } else {
        outside_release(s, hi - 1) + outside_release_item(s, hi - 1)
    }
}

pub open spec fn spec_release_plan(s: Seq<HandlerProbe>, gesture: GestureState, editor: Option<EditorProbe>, position_known: bool) -> (bool, bool, Seq<Dispatch>, bool) {
    if !position_known {
        (false, false, seq![], false)
    } else {
        spec_release_at(s, gesture, editor)
    }
}

pub open spec fn spec_release_at(s: Seq<HandlerProbe>, gesture: GestureState, editor: Option<EditorProbe>) -> (bool, bool, Seq<Dispatch>, bool) {
    let end_editing = match editor {
        Some(e) => !e.inside && match gesture {
            GestureState::Dragging { capturer } => capturer != e.id,
            GestureState::Idle => true,
        },
        None => false,
    };
    let dispatches = match gesture {
        GestureState::Dragging { capturer } =>
            capturer_release(s, s.len() as int, capturer) + outside_release(s, s.len() as int),
        GestureState::Idle => seq![],
    };
    (editor is Some, end_editing, dispatches, editor is Some || dispatches.len() > 0)
}

/// Plans a release of the primary pointer button. The editor is told of the
/// release, and editing ends when the pointer is off the field unless the
/// field itself took the press. If a press was held, the capturing view's
/// handlers get a completed or cancelled click and a completed drag, then
/// click-outside handlers that neither the press nor the release came near
/// get a completed click-outside. Without a held press, no signal is sent.
/// When the pointer's position is not known, nothing is told to anyone.
/// Either way the gesture is over afterwards.
pub fn release_plan(probes: &Vec<HandlerProbe>, gesture: GestureState, editor: Option<EditorProbe>, position_known: bool) -> (plan: ReleasePlan)
    ensures
        (plan.editor_released, plan.end_editing, plan.dispatches@, plan.redraw) == spec_release_plan(probes@, gesture, editor, position_known),
        plan.next_gesture == GestureState::Idle,
{
    if !position_known {
        return ReleasePlan {
            editor_released: false,
            end_editing: false,
            dispatches: Vec::new(),
            redraw: false,
            next_gesture: GestureState::Idle,
        };
    }
    let end_editing = match editor {
        Some(e) => !e.inside && match gesture {
            GestureState::Dragging { capturer } => capturer != e.id,
            GestureState::Idle => true,
        },
        None => false,
    };
    let mut dispatches: Vec<Dispatch> = Vec::new();
    if let GestureState::Dragging { capturer } = gesture {
        let mut i: usize = 0;
        while i < probes.len()
            invariant
                i <= probes@.len(),
                dispatches@ == capturer_release(probes@, i as int, capturer),
            decreases probes@.len() - i,
        {
            let p = probes[i];
            if p.id == capturer {
                if p.kinds.click && p.has_handler {
                    let state = if p.inside { ClickState::Completed } else { ClickState::Cancelled };
                    dispatches.push(Dispatch { handler: i, signal: Signal::Click(state) });
                }
                if p.kinds.drag && p.has_handler {
                    dispatches.push(Dispatch { handler: i, signal: Signal::DragCompleted });
                }
            }
            i = i + 1;
        }
        let ghost first = dispatches@;
        let mut j: usize = 0;
        while j < probes.len()
            invariant
                j <= probes@.len(),
                dispatches@ == first + outside_release(probes@, j as int),
            decreases probes@.len() - j,
        {
            let p = probes[j];
            if p.kinds.click_outside && !p.near && !p.start_near && p.has_handler {
                dispatches.push(Dispatch { handler: j, signal: Signal::ClickOutside(ClickState::Completed) });
            }
            j = j + 1;
        }
    }
    let redraw = editor.is_some() || dispatches.len() > 0;
    ReleasePlan { editor_released: editor.is_some(), end_editing, dispatches, redraw, next_gesture: GestureState::Idle }
}

// ---- move ----

pub open spec fn hover_item(s: Seq<HandlerProbe>, i: int) -> Seq<Dispatch> {
    let p = s[i];
    if p.kinds.hover && p.has_handler {
        seq![Dispatch { handler: i as usize, signal: Signal::Hover(p.inside) }]
    } else {
        seq![]
    }
}

/// Hover signals, in order, to the hover handlers among the first `hi`:
/// whether the pointer is inside each one's area.
pub open spec fn hover_moves(s: Seq<HandlerProbe>, hi: int) -> Seq<Dispatch>
    decreases hi,
{
    if hi <= 0 {
        seq![]
    } else {
        hover_moves(s, hi - 1) + hover_item(s, hi - 1)
    }
}

pub open spec fn drag_item(s: Seq<HandlerProbe>, i: int, capturer: u64) -> Seq<Dispatch> {
    let p = s[i];
    if p.id == capturer && p.kinds.drag && p.has_handler {
        seq![Dispatch { handler: i as usize, signal: Signal::DragUpdated }]
    } else {
        seq![]
    }
}

/// Drag updates, in order, to the capturing view's drag handlers among the
/// first `hi`.
pub open spec fn drag_moves(s: Seq<HandlerProbe>, hi: int, capturer: u64) -> Seq<Dispatch>
    decreases hi,
{
    if hi <= 0 {
        seq![]
    } else {
        drag_moves(s, hi - 1, capturer) + drag_item(s, hi - 1, capturer)
    }
}

/// Some handler among the first `hi` belongs to the capturing view and asks
/// for drags (attached or not).
pub open spec fn has_drag_capturer(s: Seq<HandlerProbe>, hi: int, capturer: u64) -> bool {
    exists|i: int| 0 <= i < hi && #[trigger] s[i].id == capturer && s[i].kinds.drag
}

pub open spec fn spec_move_plan(s: Seq<HandlerProbe>, gesture: GestureState, editor: bool) -> (bool, Seq<Dispatch>, bool) {
    let hovers = hover_moves(s, s.len() as int);
    match gesture {
        GestureState::Dragging { capturer } => (
            editor,
            hovers + drag_moves(s, s.len() as int, capturer),
            editor || hovers.len() > 0 || has_drag_capturer(s, s.len() as int, capturer),
        ),
        GestureState::Idle => (editor, hovers, editor || hovers.len() > 0),
    }
}

/// Every signal a move sends to hover handlers is a hover signal, to one
/// of the first `hi` handlers.
proof fn lemma_hover_moves_are_hovers(s: Seq<HandlerProbe>, hi: int)
    requires
        0 <= hi <= s.len() <= usize::MAX,
    ensures
        forall|k: int| 0 <= k < hover_moves(s, hi).len() ==>
            (#[trigger] hover_moves(s, hi)[k]).signal is Hover && hover_moves(s, hi)[k].handler < hi,
    decreases hi,
{
    if hi > 0 {
        lemma_hover_moves_are_hovers(s, hi - 1);
        assert forall|k: int| 0 <= k < hover_moves(s, hi).len() implies
            (#[trigger] hover_moves(s, hi)[k]).signal is Hover && hover_moves(s, hi)[k].handler < hi by {
            if k >= hover_moves(s, hi - 1).len() {
                assert(hover_moves(s, hi)[k] == hover_item(s, hi - 1)[k - hover_moves(s, hi - 1).len()]);
            } else {
                assert(hover_moves(s, hi)[k] == hover_moves(s, hi - 1)[k]);
            }
        }
    }
}

/// Every drag update among the first `hi` handlers goes to a drag handler
/// of the capturing view.
proof fn lemma_drag_moves_to_capturer(s: Seq<HandlerProbe>, hi: int, capturer: u64)
    requires
        0 <= hi <= s.len() <= usize::MAX,
    ensures
        forall|k: int| 0 <= k < drag_moves(s, hi, capturer).len() ==> {
            let d = #[trigger] drag_moves(s, hi, capturer)[k];
            &&& d.signal == Signal::DragUpdated
            &&& d.handler < hi
            &&& s[d.handler as int].id == capturer
            &&& s[d.handler as int].kinds.drag
            &&& s[d.handler as int].has_handler
        },
    decreases hi,
{
    if hi > 0 {
        lemma_drag_moves_to_capturer(s, hi - 1, capturer);
        assert forall|k: int| 0 <= k < drag_moves(s, hi, capturer).len() implies {
            let d = #[trigger] drag_moves(s, hi, capturer)[k];
            &&& d.signal == Signal::DragUpdated
            &&& d.handler < hi
            &&& s[d.handler as int].id == capturer
            &&& s[d.handler as int].kinds.drag
            &&& s[d.handler as int].has_handler
        } by {
            if k >= drag_moves(s, hi - 1, capturer).len() {
                assert(drag_moves(s, hi, capturer)[k] == drag_item(s, hi - 1, capturer)[k - drag_moves(s, hi - 1, capturer).len()]);
            } else {
                assert(drag_moves(s, hi, capturer)[k] == drag_moves(s, hi - 1, capturer)[k]);
            }
        }
    }
}

/// A pointer move drags only the view that took the press: every drag
/// update it sends goes to a drag handler of the capturing view, so a
/// handler of any other view never gets one; without a held press no drag
/// update is sent at all. Every other signal of a move is a hover signal.
pub proof fn lemma_move_drags_only_capturer(s: Seq<HandlerProbe>, gesture: GestureState, editor: bool)
    requires
        s.len() <= usize::MAX,
    ensures
        forall|k: int| 0 <= k < spec_move_plan(s, gesture, editor).1.len() ==> {
            let d = #[trigger] spec_move_plan(s, gesture, editor).1[k];
            &&& d.handler < s.len()
            &&& (d.signal == Signal::DragUpdated ==> (gesture matches GestureState::Dragging { capturer }
                    && s[d.handler as int].id == capturer && s[d.handler as int].kinds.drag))
            &&& (d.signal != Signal::DragUpdated ==> d.signal is Hover)
        },
{
    let n = s.len() as int;
    lemma_hover_moves_are_hovers(s, n);
    let hovers = hover_moves(s, n);
    match gesture {
        GestureState::Dragging { capturer } => {
            lemma_drag_moves_to_capturer(s, n, capturer);
            let all = hovers + drag_moves(s, n, capturer);
            assert forall|k: int| 0 <= k < all.len() implies {
                let d = #[trigger] all[k];
                &&& d.handler < s.len()
                &&& (d.signal == Signal::DragUpdated ==> (gesture matches GestureState::Dragging { capturer }
                        && s[d.handler as int].id == capturer && s[d.handler as int].kinds.drag))
                &&& (d.signal != Signal::DragUpdated ==> d.signal is Hover)
            } by {
                if k < hovers.len() {
                    assert(all[k] == hovers[k]);
                } else {
                    assert(all[k] == drag_moves(s, n, capturer)[k - hovers.len()]);
                }
            }
        },
        GestureState::Idle => {},
    }
}

/// Plans a pointer move: the editor (if editing) follows the pointer; every
/// hover handler learns whether the pointer is inside its view; during a
/// held press the capturing view's drag handlers get a drag update.
pub fn move_plan(probes: &Vec<HandlerProbe>, gesture: GestureState, editor: bool) -> (plan: MovePlan)
    ensures
        (plan.editor_moved, plan.dispatches@, plan.redraw) == spec_move_plan(probes@, gesture, editor),
{
    let mut dispatches: Vec<Dispatch> = Vec::new();
    let mut i: usize = 0;
    while i < probes.len()
        invariant
            i <= probes@.len(),
            dispatches@ == hover_moves(probes@, i as int),
        decreases probes@.len() - i,
    {
        let p = probes[i];
        if p.kinds.hover && p.has_handler {
            dispatches.push(Dispatch { handler: i, signal: Signal::Hover(p.inside) });
        }
        i = i + 1;
    }
    let mut redraw = editor || dispatches.len() > 0;
    if let GestureState::Dragging { capturer } = gesture {
        let ghost first = dispatches@;
        let mut found = false;
        let mut j: usize = 0;
        while j < probes.len()
            invariant
                j <= probes@.len(),
                dispatches@ == first + drag_moves(probes@, j as int, capturer),
                found == has_drag_capturer(probes@, j as int, capturer),
            decreases probes@.len() - j,
        {
            let p = probes[j];
            if p.id == capturer && p.kinds.drag {
                found = true;
                if p.has_handler {
                    dispatches.push(Dispatch { handler: j, signal: Signal::DragUpdated });
                }
            }
            proof {
                if has_drag_capturer(probes@, (j + 1) as int, capturer) && !has_drag_capturer(probes@, j as int, capturer) {
                    let k = choose|k: int| 0 <= k < j + 1 && #[trigger] probes@[k].id == capturer && probes@[k].kinds.drag;
                    assert(k == j);
                }
                if has_drag_capturer(probes@, j as int, capturer) {
                    let k = choose|k: int| 0 <= k < j && #[trigger] probes@[k].id == capturer && probes@[k].kinds.drag;
                    assert(0 <= k < j + 1 && probes@[k].id == capturer);
                }
            }
            j = j + 1;
        }
        redraw = redraw || found;
    }
    MovePlan { editor_moved: editor, dispatches, redraw }
}

// ---- scroll, keys, pointer exit ----

/// The last handler below `hi` under the pointer that asks for scrolling.
pub open spec fn last_scroll(s: Seq<HandlerProbe>, hi: int) -> Option<int>
    decreases hi,
{
    if hi <= 0 {
        None
    } else if s[hi - 1].inside && s[hi - 1].kinds.scroll {
        Some(hi - 1)
    } else {
        last_scroll(s, hi - 1)
    }
}

/// The handler that receives a scroll: the last one under the pointer that
/// asks for scrolling, provided a handler function is attached to it; none
/// when the pointer's position is not known.
pub fn scroll_target(probes: &Vec<HandlerProbe>, position_known: bool) -> (r: Option<usize>)
    ensures
        !position_known ==> r is None,
        position_known ==> match last_scroll(probes@, probes@.len() as int) {
            Some(i) => if probes@[i].has_handler { r == Some(i as usize) } else { r is None },
            None => r is None,
        },
{
    if !position_known {
        return None;
    }
    let mut i = probes.len();
    while i > 0
        invariant
            i <= probes@.len(),
            last_scroll(probes@, probes@.len() as int) == last_scroll(probes@, i as int),
            position_known,
        decreases i,
    {
        let p = probes[i - 1];
        if p.inside && p.kinds.scroll {
            if p.has_handler {
                return Some(i - 1);
            } else {
                return None;
            }
        }
        i = i - 1;
    }
    None
}

/// The indices below `hi`, in order, whose handler is attached and asks
/// for `kind`.
pub open spec fn handlers_asking(s: Seq<HandlerProbe>, hi: int, key: bool) -> Seq<usize>
    decreases hi,
{
    if hi <= 0 {
        seq![]
    } else {
        let p = s[hi - 1];
        let asks = if key { p.kinds.key } else { p.kinds.hover };
        handlers_asking(s, hi - 1, key) + if asks && p.has_handler { seq![(hi - 1) as usize] } else { seq![] }
    }
}

fn collect_handlers(probes: &Vec<HandlerProbe>, key: bool) -> (r: Vec<usize>)
    ensures
        r@ == handlers_asking(probes@, probes@.len() as int, key),
{
    let mut r: Vec<usize> = Vec::new();
    let mut i: usize = 0;
    while i < probes.len()
        invariant
            i <= probes@.len(),
            r@ == handlers_asking(probes@, i as int, key),
        decreases probes@.len() - i,
    {
        let p = probes[i];
        let asks = if key { p.kinds.key } else { p.kinds.hover };
        if asks && p.has_handler {
            r.push(i);
        }
        i = i + 1;
    }
    r
}

/// The handlers that receive a key press, in order: every attached handler
/// that asks for keys. A redraw follows when there is any.
pub fn key_targets(probes: &Vec<HandlerProbe>) -> (r: Vec<usize>)
    ensures
        r@ == handlers_asking(probes@, probes@.len() as int, true),
{
    collect_handlers(probes, true)
}

/// The handlers told `Hover(false)` when the pointer leaves the window, in
/// order: every attached handler that asks for hovering. A redraw follows
/// when there is any.
pub fn exit_targets(probes: &Vec<HandlerProbe>) -> (r: Vec<usize>)
    ensures
        r@ == handlers_asking(probes@, probes@.len() as int, false),
{
    collect_handlers(probes, false)
}

} // verus!
