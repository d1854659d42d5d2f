//! The interaction state of the text editor behind a text field: the held
//! modifiers, the pointer and click count, and the caret blink.
use vstd::prelude::*;
use std::time::{Duration, Instant};
use crate::keys::Modifiers;

verus! {

#[verifier::external_type_specification]
#[verifier::external_body]
pub struct ExInstant(Instant);

/// The largest number of nanoseconds a `Duration` holds:
/// `u64::MAX` seconds and 999,999,999 nanoseconds.
pub const MAX_DURATION_NANOS: u128 = 18446744073709551615999999999u128;

/// The caret blink period set when the caret is reset, in milliseconds.
pub const BLINK_PERIOD_MS: u64 = 500u64;

/// The longest gap between two presses that still counts them as one
/// multi-click, in nanoseconds (a quarter second).
pub const MULTI_CLICK_NANOS: u128 = 250000000u128;

/// `Instant::now`: the current time; nothing is claimed of it.
#[verifier::external_body]
fn instant_now() -> Instant {
    Instant::now()
}

/// `Instant::duration_since`: the time from `earlier` to `later`, zero when
/// `earlier` is later; nothing is claimed of it.
#[verifier::external_body]
fn duration_since(later: &Instant, earlier: &Instant) -> Duration {
    later.duration_since(*earlier)
}

/// `Duration::as_nanos`: a duration's whole nanoseconds, which never exceed
/// those of `Duration::MAX`.
#[verifier::external_body]
fn duration_as_nanos(d: &Duration) -> (n: u128)
    ensures
        n <= MAX_DURATION_NANOS,
{
    d.as_nanos()
}

/// `Duration::as_millis`: a duration's whole milliseconds, which never
/// exceed those of `Duration::MAX`.
#[verifier::external_body]
fn duration_as_millis(d: &Duration) -> (n: u128)
    ensures
        n <= MAX_DURATION_NANOS / 1000000,
{
    d.as_millis()
}

/// `Duration::from_nanos`: a duration of `n` nanoseconds; nothing is
/// claimed of the opaque result.
#[verifier::external_body]
fn duration_from_nanos(n: u64) -> Duration {
    Duration::from_nanos(n)
}

/// `Instant::checked_add`: `at + d`, or `None` where the platform cannot
/// represent it; nothing is claimed of the opaque result.
#[verifier::external_body]
fn instant_checked_add(at: &Instant, d: Duration) -> Option<Instant> {
    at.checked_add(d)
}

/// How a press selects text, by the number of presses in quick succession.
#[derive(Debug, Clone, Copy, PartialEq, Eq, Structural)]
pub enum ClickSelection {
    /// Place the caret at the pointer.
    Point,
    /// Select the word at the pointer (double click).
    Word,
    /// Select the line at the pointer (triple click).
    Line,
}

/// The click count after a press. `quick` is `None` for the first press,
/// else whether the press came within the multi-click gap of the last one.
/// Counts run 1, 2, 3, 0, 1, ... while presses come quickly.
pub open spec fn spec_next_click_count(count: u32, quick: Option<bool>) -> u32 {
    match quick {
        Some(true) => ((count + 1) % 4) as u32,
        _ => 1,
    }
}

/// Whether a press came within the multi-click gap of the previous one,
/// given the gap in nanoseconds (`None` for a first press).
pub open spec fn spec_quick(gap_nanos: Option<u128>) -> Option<bool> {
    match gap_nanos {
        Some(g) => Some(g < MULTI_CLICK_NANOS),
        None => None,
    }
}

pub fn next_click_count(count: u32, quick: Option<bool>) -> (next: u32)
    requires
        count < 4,
    ensures
        next == spec_next_click_count(count, quick),
        next < 4,
{
    match quick {
        Some(true) => (count + 1) % 4,
        _ => 1,
    }
}

pub open spec fn spec_click_selection(count: u32) -> ClickSelection {
    if count == 2 {
        ClickSelection::Word
    } else if count == 3 {
        ClickSelection::Line
    } else {
        ClickSelection::Point
    }
}

/// Four presses in quick succession bring the click count back to where it
/// was.
pub proof fn lemma_click_count_cycles(count: u32)
    requires
        count < 4,
    ensures
        spec_next_click_count(spec_next_click_count(spec_next_click_count(spec_next_click_count(count, Some(true)), Some(true)), Some(true)), Some(true)) == count,
{
}

/// After a slow or first press the count is 1, after a quick second press
/// 2, after a quick third press 3: a single, double and triple click select
/// at the caret, the word and the line.
pub proof fn lemma_click_sequence(first: Option<bool>)
    requires
        first != Some(true),
    ensures
        spec_click_selection(spec_next_click_count(0, first)) == ClickSelection::Point,
        spec_click_selection(spec_next_click_count(spec_next_click_count(0, first), Some(true))) == ClickSelection::Word,
        spec_click_selection(spec_next_click_count(spec_next_click_count(spec_next_click_count(0, first), Some(true)), Some(true))) == ClickSelection::Line,
{
}

/// A press made a quarter second or more after the previous one, or with no
/// previous one, starts the count afresh at 1 and places the caret; a press
/// made less than a quarter second after the previous one continues the
/// count: the second selects a word, the third a line, the fourth places
/// the caret and the count starts over.
pub proof fn lemma_press_gap_rule(count: u32, gap_nanos: Option<u128>)
    requires
        count < 4,
    ensures
        (gap_nanos matches Some(g) && g >= 250000000) || gap_nanos is None ==>
            spec_next_click_count(count, spec_quick(gap_nanos)) == 1
            && spec_click_selection(spec_next_click_count(count, spec_quick(gap_nanos))) == ClickSelection::Point,
        gap_nanos matches Some(g) && g < 250000000 ==>
            spec_next_click_count(count, spec_quick(gap_nanos)) == (if count == 3 { 0 } else { count + 1 }),
        gap_nanos matches Some(g) && g < 250000000 && count == 1 ==>
            spec_click_selection(spec_next_click_count(count, spec_quick(gap_nanos))) == ClickSelection::Word,
        gap_nanos matches Some(g) && g < 250000000 && count == 2 ==>
            spec_click_selection(spec_next_click_count(count, spec_quick(gap_nanos))) == ClickSelection::Line,
{
}

/// What a press with the given click count selects.
pub fn click_selection(count: u32) -> (sel: ClickSelection)
    ensures
        sel == spec_click_selection(count),
{
    if count == 2 {
        ClickSelection::Word
    } else if count == 3 {
        ClickSelection::Line
    } else {
        ClickSelection::Point
    }
}

/// The offset from the blink start of the next caret blink: the first whole
/// multiple of the period after `elapsed`, truncated to 64 bits.
pub open spec fn spec_next_blink_offset(elapsed_ns: u128, period_ns: u128) -> u64 {
    ((elapsed_ns / period_ns + 1) * period_ns) as u64
}

pub fn next_blink_offset(elapsed_ns: u128, period_ns: u128) -> (offset: u64)
    requires
        0 < period_ns,
        elapsed_ns <= MAX_DURATION_NANOS,
        period_ns <= MAX_DURATION_NANOS,
    ensures
        offset == spec_next_blink_offset(elapsed_ns, period_ns),
{
    let q = elapsed_ns / period_ns;
    proof {
        assert(q * period_ns <= elapsed_ns) by (nonlinear_arith)
            requires q == elapsed_ns / period_ns, 0 < period_ns;
        assert((q + 1) * period_ns == q * period_ns + period_ns) by (nonlinear_arith);
    }
    let next = (q + 1) * period_ns;
    #[verifier::truncate]
    (next as u64)
}

/// The caret shows during even blink periods and hides during odd ones.
pub open spec fn spec_blink_visible(elapsed_ms: u128, period_ms: u128) -> bool {
    (elapsed_ms / period_ms) % 2 == 0
}

/// Whether the caret shows `elapsed_ms` after the blink started: it shows
/// during even periods and hides during odd ones.
pub fn blink_visible(elapsed_ms: u128, period_ms: u128) -> (visible: bool)
    requires
        0 < period_ms,
    ensures
        visible == ((elapsed_ms / period_ms) % 2 == 0),
{
    (elapsed_ms / period_ms) % 2 == 0
}

/// The key, pointer and caret state of a text editor.
pub struct EditorState {
    last_click_time: Option<Instant>,
    click_count: u32,
    pointer_down: bool,
    cursor_visible: bool,
    modifiers: Option<Modifiers>,
    start_time: Option<Instant>,
    blink_period_ms: u64,
}

impl Clone for EditorState {
    /// A copy of every field.
    fn clone(&self) -> (c: Self)
        ensures
            c == *self,
    {
        proof {
            use_type_invariant(self);
        }
        EditorState {
            last_click_time: self.last_click_time,
            click_count: self.click_count,
            pointer_down: self.pointer_down,
            cursor_visible: self.cursor_visible,
            modifiers: self.modifiers,
            start_time: self.start_time,
            blink_period_ms: self.blink_period_ms,
        }
    }
}

impl EditorState {
    #[verifier::type_invariant]
    spec fn inv(self) -> bool {
        &&& self.click_count < 4
        &&& self.start_time is Some ==> self.blink_period_ms > 0
    }

    pub closed spec fn spec_click_count(self) -> u32 {
        self.click_count
    }

    pub closed spec fn spec_pointer_down(self) -> bool {
        self.pointer_down
    }

    pub closed spec fn spec_cursor_visible(self) -> bool {
        self.cursor_visible
    }

    pub closed spec fn spec_modifiers(self) -> Option<Modifiers> {
        self.modifiers
    }

    /// The caret blinks (it was reset and not disabled since).
    pub closed spec fn spec_blinking(self) -> bool {
        self.start_time is Some
    }

    pub closed spec fn spec_blink_period_ms(self) -> u64 {
        self.blink_period_ms
    }

    pub closed spec fn spec_has_clicked(self) -> bool {
        self.last_click_time is Some
    }

    /// A fresh editor state: no click yet, pointer up, caret hidden and not
    /// blinking with a zero blink period, no modifiers known.
    pub fn new() -> (s: Self)
        ensures
            s.spec_click_count() == 0,
            !s.spec_pointer_down(),
            !s.spec_cursor_visible(),
            s.spec_modifiers() is None,
            !s.spec_blinking(),
            s.spec_blink_period_ms() == 0,
            !s.spec_has_clicked(),
    {
        EditorState {
            last_click_time: None,
            click_count: 0,
            pointer_down: false,
            cursor_visible: false,
            modifiers: None,
            start_time: None,
            blink_period_ms: 0,
        }
    }

    pub fn click_count(&self) -> (c: u32)
        ensures
            c == self.spec_click_count(),
            c < 4,
    {
        proof { use_type_invariant(self); }
        self.click_count
    }

    pub fn pointer_down(&self) -> (down: bool)
        ensures
            down == self.spec_pointer_down(),
    {
        self.pointer_down
    }

    pub fn cursor_visible(&self) -> (visible: bool)
        ensures
            visible == self.spec_cursor_visible(),
    {
        self.cursor_visible
    }

    pub fn modifiers(&self) -> (mods: Option<Modifiers>)
        ensures
            mods == self.spec_modifiers(),
    {
        self.modifiers
    }

    /// Records the modifier keys held for the next key press.
    pub fn set_modifiers(&mut self, modifiers: Option<Modifiers>)
        ensures
            final(self).spec_modifiers() == modifiers,
            final(self).spec_click_count() == old(self).spec_click_count(),
            final(self).spec_pointer_down() == old(self).spec_pointer_down(),
            final(self).spec_cursor_visible() == old(self).spec_cursor_visible(),
            final(self).spec_blinking() == old(self).spec_blinking(),
            final(self).spec_blink_period_ms() == old(self).spec_blink_period_ms(),
            final(self).spec_has_clicked() == old(self).spec_has_clicked(),
    {
        proof { use_type_invariant(&*self); }
        self.modifiers = modifiers;
    }

    /// Restarts the caret blink now, with the caret shown.
    pub fn cursor_reset(&mut self)
        ensures
            final(self).spec_blinking(),
            final(self).spec_blink_period_ms() == BLINK_PERIOD_MS,
            final(self).spec_cursor_visible(),
            final(self).spec_click_count() == old(self).spec_click_count(),
            final(self).spec_pointer_down() == old(self).spec_pointer_down(),
            final(self).spec_modifiers() == old(self).spec_modifiers(),
            final(self).spec_has_clicked() == old(self).spec_has_clicked(),
    {
        proof { use_type_invariant(&*self); }
        let now = instant_now();
        self.blink_period_ms = BLINK_PERIOD_MS;
        self.start_time = Some(now);
        self.cursor_visible = true;
    }

    /// Stops the caret blink.
    pub fn disable_blink(&mut self)
        ensures
            !final(self).spec_blinking(),
            final(self).spec_blink_period_ms() == old(self).spec_blink_period_ms(),
            final(self).spec_cursor_visible() == old(self).spec_cursor_visible(),
            final(self).spec_click_count() == old(self).spec_click_count(),
            final(self).spec_pointer_down() == old(self).spec_pointer_down(),
            final(self).spec_modifiers() == old(self).spec_modifiers(),
            final(self).spec_has_clicked() == old(self).spec_has_clicked(),
    {
        proof { use_type_invariant(&*self); }
        self.start_time = None;
    }

    /// The offset from the blink start at which the caret next changes
    /// between shown and hidden, `elapsed_ns` nanoseconds after the blink
    /// start: the first whole blink period after it. `None` when the caret
    /// does not blink.
    pub fn next_blink_offset_at(&self, elapsed_ns: u128) -> (offset: Option<u64>)
        requires
            elapsed_ns <= MAX_DURATION_NANOS,
        ensures
            offset == (if self.spec_blinking() {
                Some(spec_next_blink_offset(elapsed_ns, (self.spec_blink_period_ms() * 1000000) as u128))
            } else {
                None
            }),
    {
        proof { use_type_invariant(self); }
        match &self.start_time {
            Some(_) => {
                let period: u128 = (self.blink_period_ms as u128) * 1000000u128;
                Some(next_blink_offset(elapsed_ns, period))
            },
            None => None,
        }
    }

    /// When the caret next changes between shown and hidden: the blink
    /// start plus `next_blink_offset_at` of the time elapsed since it.
    /// `None` when the caret does not blink (or the time cannot be
    /// represented).
    pub fn next_blink_time(&self) -> (t: Option<Instant>)
        ensures
            !self.spec_blinking() ==> t is None,
    {
        proof { use_type_invariant(self); }
        match &self.start_time {
            Some(start) => {
                let now = instant_now();
                let phase = duration_since(&now, start);
                let elapsed = duration_as_nanos(&phase);
                match self.next_blink_offset_at(elapsed) {
                    Some(offset) => instant_checked_add(start, duration_from_nanos(offset)),
                    None => None,
                }
            },
            None => None,
        }
    }

    /// Shows or hides the caret `elapsed_ms` milliseconds after the blink
    /// start: shown during even blink periods, hidden during odd ones and
    /// when the caret does not blink.
    pub fn cursor_blink_at(&mut self, elapsed_ms: u128)
        ensures
            final(self).spec_cursor_visible() == (old(self).spec_blinking()
                && spec_blink_visible(elapsed_ms, old(self).spec_blink_period_ms() as u128)),
            final(self).spec_blinking() == old(self).spec_blinking(),
            final(self).spec_blink_period_ms() == old(self).spec_blink_period_ms(),
            final(self).spec_click_count() == old(self).spec_click_count(),
            final(self).spec_pointer_down() == old(self).spec_pointer_down(),
            final(self).spec_modifiers() == old(self).spec_modifiers(),
            final(self).spec_has_clicked() == old(self).spec_has_clicked(),
    {
        proof { use_type_invariant(&*self); }
        let visible = match &self.start_time {
            Some(_) => blink_visible(elapsed_ms, self.blink_period_ms as u128),
            None => false,
        };
        self.cursor_visible = visible;
    }

    /// Shows or hides the caret by the blink phase now (`cursor_blink_at`
    /// of the milliseconds elapsed since the blink start).
    pub fn cursor_blink(&mut self)
        ensures
            !old(self).spec_blinking() ==> !final(self).spec_cursor_visible(),
            old(self).spec_blinking() ==> exists|ms: u128| final(self).spec_cursor_visible()
                == #[trigger] spec_blink_visible(ms, old(self).spec_blink_period_ms() as u128),
            final(self).spec_blinking() == old(self).spec_blinking(),
            final(self).spec_blink_period_ms() == old(self).spec_blink_period_ms(),
            final(self).spec_click_count() == old(self).spec_click_count(),
            final(self).spec_pointer_down() == old(self).spec_pointer_down(),
            final(self).spec_modifiers() == old(self).spec_modifiers(),
            final(self).spec_has_clicked() == old(self).spec_has_clicked(),
    {
        proof { use_type_invariant(&*self); }
        let ms: u128 = match &self.start_time {
            Some(start) => {
                let now = instant_now();
                let elapsed = duration_since(&now, start);
                duration_as_millis(&elapsed)
            },
            None => 0,
        };
        self.cursor_blink_at(ms);
        proof {
            if old(self).spec_blinking() {
                assert(final(self).spec_cursor_visible() == spec_blink_visible(ms, old(self).spec_blink_period_ms() as u128));
            }
        }
    }

    /// A press of the pointer on the editor, `gap_nanos` nanoseconds after
    /// the previous press (`None` when there was none), at `now`. The caret
    /// blink restarts. Unless an input method is composing, the pointer is
    /// held down, the press is remembered at `now`, and the click count
    /// advances: a press less than a quarter second after the previous one
    /// continues the count, any other starts it at 1. The result says what
    /// the press selects; `None` while composing.
    pub fn press_after_gap(&mut self, composing: bool, now: Instant, gap_nanos: Option<u128>) -> (sel: Option<ClickSelection>)
        ensures
            final(self).spec_blinking(),
            final(self).spec_blink_period_ms() == BLINK_PERIOD_MS,
            final(self).spec_cursor_visible(),
            final(self).spec_modifiers() == old(self).spec_modifiers(),
            composing ==> sel is None
                && final(self).spec_click_count() == old(self).spec_click_count()
                && final(self).spec_pointer_down() == old(self).spec_pointer_down()
                && final(self).spec_has_clicked() == old(self).spec_has_clicked(),
            !composing ==> final(self).spec_pointer_down()
                && final(self).spec_has_clicked()
                && final(self).spec_click_count() == spec_next_click_count(old(self).spec_click_count(), spec_quick(gap_nanos))
                && sel == Some(spec_click_selection(final(self).spec_click_count())),
    {
        proof { use_type_invariant(&*self); }
        self.cursor_reset();
        if composing {
            return None;
        }
        self.pointer_down = true;
        let quick = match gap_nanos {
            Some(g) => Some(g < MULTI_CLICK_NANOS),
            None => None,
        };
        let count = next_click_count(self.click_count, quick);
        self.click_count = count;
        self.last_click_time = Some(now);
        Some(click_selection(count))
    }

    /// A press of the pointer on the editor now: `press_after_gap` with the
    /// time since the previous press, if there was one.
    pub fn press(&mut self, composing: bool) -> (sel: Option<ClickSelection>)
        ensures
            final(self).spec_blinking(),
            final(self).spec_blink_period_ms() == BLINK_PERIOD_MS,
            final(self).spec_cursor_visible(),
            final(self).spec_modifiers() == old(self).spec_modifiers(),
            composing ==> sel is None
                && final(self).spec_click_count() == old(self).spec_click_count()
                && final(self).spec_pointer_down() == old(self).spec_pointer_down()
                && final(self).spec_has_clicked() == old(self).spec_has_clicked(),
            !composing ==> final(self).spec_pointer_down()
                && final(self).spec_has_clicked()
                && sel == Some(spec_click_selection(final(self).spec_click_count()))
                && exists|gap: Option<u128>|
                    (gap is None <==> !old(self).spec_has_clicked())
                    && final(self).spec_click_count() == #[trigger] spec_next_click_count(old(self).spec_click_count(), spec_quick(gap)),
    {
        proof { use_type_invariant(&*self); }
        let now = instant_now();
        let gap = match &self.last_click_time {
            Some(last) => {
                let d = duration_since(&now, last);
                Some(duration_as_nanos(&d))
            },
            None => None,
        };
        self.press_after_gap(composing, now, gap)
    }

    /// The pointer went up.
    pub fn mouse_released(&mut self)
        ensures
            !final(self).spec_pointer_down(),
            final(self).spec_click_count() == old(self).spec_click_count(),
            final(self).spec_cursor_visible() == old(self).spec_cursor_visible(),
            final(self).spec_blinking() == old(self).spec_blinking(),
            final(self).spec_blink_period_ms() == old(self).spec_blink_period_ms(),
            final(self).spec_modifiers() == old(self).spec_modifiers(),
            final(self).spec_has_clicked() == old(self).spec_has_clicked(),
    {
        proof { use_type_invariant(&*self); }
        self.pointer_down = false;
    }

    /// A move of the pointer to a new spot (`moved`) extends the selection
    /// while the pointer is held and no input method is composing; then the
    /// caret blink restarts. The result says whether to extend.
    pub fn drag_select(&mut self, moved: bool, composing: bool) -> (extend: bool)
        ensures
            extend == (old(self).spec_pointer_down() && moved && !composing),
            extend ==> final(self).spec_blinking() && final(self).spec_cursor_visible()
                && final(self).spec_blink_period_ms() == BLINK_PERIOD_MS,
            !extend ==> final(self).spec_blinking() == old(self).spec_blinking()
                && final(self).spec_cursor_visible() == old(self).spec_cursor_visible()
                && final(self).spec_blink_period_ms() == old(self).spec_blink_period_ms(),
            final(self).spec_click_count() == old(self).spec_click_count(),
            final(self).spec_pointer_down() == old(self).spec_pointer_down(),
            final(self).spec_modifiers() == old(self).spec_modifiers(),
            final(self).spec_has_clicked() == old(self).spec_has_clicked(),
    {
        proof { use_type_invariant(&*self); }
        let extend = self.pointer_down && moved && !composing;
        if extend {
            self.cursor_reset();
        }
        extend
    }
}

} // verus!
