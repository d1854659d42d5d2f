//! The bookkeeping of a redraw, apart from the drawing itself: the start
//! callback runs before the first redraw only, and the gesture handlers of
//! a window are those the drawn views carry, in drawing order.
use vstd::prelude::*;

verus! {

/// Whether the application has started, that is, whether its start
/// callback has run.
#[derive(Debug, Clone, Copy, PartialEq, Eq, Structural)]
pub struct StartState {
    pub started: bool,
}

impl StartState {
    /// Before any redraw.
    pub fn new() -> (s: Self)
        ensures
            !s.started,
    {
        StartState { started: false }
    }

    /// The start of a redraw of a window that is open (`window_open`) or
    /// not: the start callback runs first if the application has not
    /// started, whether or not the window is open; then, for an open
    /// window only, its views are drawn and the frame callback runs. The
    /// application has started afterwards.
    pub fn begin_redraw(&mut self, window_open: bool) -> (steps: RedrawSteps)
        ensures
            steps == redraw_step(old(self).started, window_open),
            final(self).started,
    {
        let run = !self.started;
        self.started = true;
        RedrawSteps { run_on_start: run, draw_frame: window_open }
    }
}

/// What one redraw runs: the start callback first, if at all, then the
/// drawing of the window and the frame callback, if at all.
#[derive(Debug, Clone, Copy, PartialEq, Eq, Structural)]
pub struct RedrawSteps {
    pub run_on_start: bool,
    pub draw_frame: bool,
}

pub open spec fn redraw_step(started: bool, window_open: bool) -> RedrawSteps {
    RedrawSteps { run_on_start: !started, draw_frame: window_open }
}

/// The steps of successive redraws, from a state that has `started` or
/// not, of windows that are open or not as `opens` says.
pub open spec fn redraw_trace(started: bool, opens: Seq<bool>) -> Seq<RedrawSteps>
    decreases opens.len(),
{
    if opens.len() == 0 {
        seq![]
    } else {
        seq![redraw_step(started, opens[0])] + redraw_trace(true, opens.drop_first())
    }
}

/// Over any run of redraws from the start, the start callback runs exactly
/// once, in the first redraw and so before any frame callback; the frame
/// callback runs once in each redraw of an open window and never for a
/// window that is not open.
pub proof fn lemma_redraw_trace(opens: Seq<bool>)
    ensures
        redraw_trace(false, opens).len() == opens.len(),
        forall|i: int| 0 <= i < opens.len() ==> #[trigger] redraw_trace(false, opens)[i]
            == (RedrawSteps { run_on_start: i == 0, draw_frame: opens[i] }),
{
    lemma_started_trace(opens.drop_first());
    if opens.len() > 0 {
        assert forall|i: int| 0 <= i < opens.len() implies #[trigger] redraw_trace(false, opens)[i]
            == (RedrawSteps { run_on_start: i == 0, draw_frame: opens[i] }) by {
            if i > 0 {
                assert(redraw_trace(false, opens)[i] == redraw_trace(true, opens.drop_first())[i - 1]);
            }
        }
    }
}

/// Once started, no redraw runs the start callback again.
pub proof fn lemma_started_trace(opens: Seq<bool>)
    ensures
        redraw_trace(true, opens).len() == opens.len(),
        forall|i: int| 0 <= i < opens.len() ==> #[trigger] redraw_trace(true, opens)[i]
            == (RedrawSteps { run_on_start: false, draw_frame: opens[i] }),
    decreases opens.len(),
{
    if opens.len() > 0 {
        lemma_started_trace(opens.drop_first());
        assert forall|i: int| 0 <= i < opens.len() implies #[trigger] redraw_trace(true, opens)[i]
            == (RedrawSteps { run_on_start: false, draw_frame: opens[i] }) by {
            if i > 0 {
                assert(redraw_trace(true, opens)[i] == redraw_trace(true, opens.drop_first())[i - 1]);
            }
        }
    }
}

/// Where one registered handler comes from: the id of its view, the
/// position of the view's item among the drawn items, and the handler's
/// position among that view's handlers.
#[derive(Debug, Clone, Copy, PartialEq, Eq, Structural)]
pub struct HandlerSlot {
    pub view_id: u64,
    pub item: usize,
    pub handler: usize,
}

/// The slots of the first `count` handlers of item `item`.
pub open spec fn item_slots(view_id: u64, item: int, count: int) -> Seq<HandlerSlot>
    decreases count,
{
    if count <= 0 {
        seq![]
    } else {
        item_slots(view_id, item, count - 1).push(HandlerSlot { view_id, item: item as usize, handler: (count - 1) as usize })
    }
}

/// The slots of all handlers of the first `n` drawn views, given for each
/// drawn view its id and how many handlers it carries: view by view in
/// drawing order, and each view's handlers in their order.
pub open spec fn registered_slots(views: Seq<(u64, usize)>, n: int) -> Seq<HandlerSlot>
    decreases n,
{
    if n <= 0 {
        seq![]
    } else {
        registered_slots(views, n - 1) + item_slots(views[n - 1].0, n - 1, views[n - 1].1 as int)
    }
}

/// The handlers a window holds after a redraw (the earlier ones are
/// cleared): for each drawn view (its id and handler count), its handlers
/// in order, the views in drawing order.
pub fn register_handlers(views: &Vec<(u64, usize)>) -> (slots: Vec<HandlerSlot>)
    ensures
        slots@ == registered_slots(views@, views@.len() as int),
{
    let mut slots: Vec<HandlerSlot> = Vec::new();
    let mut i: usize = 0;
    while i < views.len()
        invariant
            i <= views@.len(),
            slots@ == registered_slots(views@, i as int),
        decreases views@.len() - i,
    {
        let (view_id, count) = views[i];
        let ghost before = slots@;
        let mut j: usize = 0;
        while j < count
            invariant
                j <= count,
                slots@ == before + item_slots(view_id, i as int, j as int),
            decreases count - j,
        {
            slots.push(HandlerSlot { view_id, item: i, handler: j });
            proof {
                assert(item_slots(view_id, i as int, (j + 1) as int) == item_slots(view_id, i as int, j as int).push(
                    HandlerSlot { view_id, item: i, handler: j }));
                assert(slots@ =~= before + item_slots(view_id, i as int, (j + 1) as int));
            }
            j = j + 1;
        }
        i = i + 1;
    }
    slots
}

} // verus!
