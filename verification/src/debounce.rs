//! The debouncer: turns a high-frequency stream of filesystem change events
//! into a low-frequency stream of publish triggers. It keeps one
//! reset-on-activity deadline: every change event re-arms the deadline a
//! quiet window past the event's time, and a poll at or after the deadline
//! fires exactly one trigger and disarms it. Time is a plain millisecond
//! counter supplied by the caller, so the component is a pure state machine.

use vstd::prelude::*;

verus! {

/// The mathematical state of a debouncer: the width of the quiet window,
/// and the armed deadline, if any.
pub struct DebounceState {
    /// How long the stream must stay quiet before a trigger fires.
    pub quiet: u64,
    /// The instant at which a trigger is due, or `None` when disarmed.
    pub deadline: Option<u64>,
}

/// A change event at instant `now` re-arms the deadline one quiet window
/// later, discarding any earlier deadline.
pub open spec fn on_change_spec(d: DebounceState, now: u64) -> DebounceState
    recommends
        now + d.quiet <= u64::MAX,
{
    DebounceState { quiet: d.quiet, deadline: Some((now + d.quiet) as u64) }
}

/// A poll at instant `now` fires exactly when an armed deadline has been
/// reached, and disarms it; otherwise it changes nothing.
pub open spec fn poll_spec(d: DebounceState, now: u64) -> (DebounceState, bool) {
    match d.deadline {
        Some(t) => if now >= t {
            (DebounceState { quiet: d.quiet, deadline: None }, true)
        } else {
            (d, false)
        },
        None => (d, false),
    }
}

/// The state after a whole burst of change events, applied in order.
pub open spec fn after_changes(d: DebounceState, times: Seq<u64>) -> DebounceState
    decreases times.len(),
{
    if times.len() == 0 {
        d
    } else {
        on_change_spec(after_changes(d, times.drop_last()), times.last())
    }
}

/// A burst leaves the quiet window unchanged and the deadline armed one
/// quiet window past the burst's last event.
pub proof fn lemma_after_changes(d: DebounceState, times: Seq<u64>)
    requires
        times.len() > 0,
    ensures
        after_changes(d, times).quiet == d.quiet,
        after_changes(d, times).deadline == Some(
            (times.last() + d.quiet) as u64,
        ),
    decreases times.len(),
{
    reveal_with_fuel(after_changes, 2);
    if times.len() > 1 {
        lemma_after_changes(d, times.drop_last());
    }
}

/// Debounce coalescing: a burst of change events, however many and however
/// spaced, yields exactly one trigger. No poll strictly inside the quiet
/// window after the last event fires; the first poll at or past the
/// deadline fires; and once it has fired, every further poll without new
/// events stays silent.
pub proof fn lemma_debounce_coalescing(
    d: DebounceState,
    times: Seq<u64>,
    early: u64,
    now: u64,
    later: u64,
)
    requires
        times.len() > 0,
        times.last() + d.quiet <= u64::MAX,
        early < times.last() + d.quiet,
        now >= times.last() + d.quiet,
    ensures
        poll_spec(after_changes(d, times), early).1 == false,
        poll_spec(after_changes(d, times), early).0 == after_changes(d, times),
        poll_spec(after_changes(d, times), now).1 == true,
        poll_spec(poll_spec(after_changes(d, times), now).0, later).1 == false,
{
    lemma_after_changes(d, times);
}

/// Coalesces bursts of change events into single publish triggers by means
/// of a reset-on-activity deadline.
pub struct Debouncer {
    quiet: u64,
    deadline: Option<u64>,
}

impl View for Debouncer {
    type V = DebounceState;

    closed spec fn view(&self) -> DebounceState {
        DebounceState { quiet: self.quiet, deadline: self.deadline }
    }
}

impl Debouncer {
    /// A disarmed debouncer with the given quiet window, in milliseconds of
    /// whatever clock the caller supplies.
    pub fn new(quiet: u64) -> (r: Self)
        ensures
            r@ == (DebounceState { quiet, deadline: None }),
    {
        Debouncer { quiet, deadline: None }
    }

    /// Notes a change event at instant `now`: the deadline is re-armed one
    /// quiet window later.
    pub fn on_change(&mut self, now: u64)
        requires
            now + old(self)@.quiet <= u64::MAX,
        ensures
            final(self)@ == on_change_spec(old(self)@, now),
    {
        self.deadline = Some(now + self.quiet);
    }

    /// Polls at instant `now`: returns whether a trigger fires, disarming
    /// the deadline if it does.
    pub fn poll(&mut self, now: u64) -> (fired: bool)
        ensures
            (final(self)@, fired) == poll_spec(old(self)@, now),
    {
        match self.deadline {
            Some(t) => {
                if now >= t {
                    self.deadline = None;
                    true
                } else {
                    false
                }
            },
            None => false,
        }
    }

    /// The armed deadline, if any: the instant at which the next poll will
    /// fire a trigger.
    pub fn deadline(&self) -> (r: Option<u64>)
        ensures
            r == self@.deadline,
    {
        self.deadline
    }
}

} // verus!
