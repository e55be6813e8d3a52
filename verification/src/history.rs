//! What holds of the manager over every sequence of triggers and
//! acknowledgments.

use crate::gate::{elapsed_between, GateState};
use vstd::prelude::*;

verus! {

/// What the host loop can do to the manager.
pub enum GateEvent {
    /// A render trigger at `now`, in nanoseconds on the manager's clock.
    Trigger { now: nat },
    /// The acknowledgment of a delivered result.
    Complete,
}

impl GateState {
    /// The state after one event.
    pub open spec fn apply(self, event: GateEvent) -> GateState {
        match event {
            GateEvent::Trigger { now } => self.trigger(now),
            GateEvent::Complete => self.complete(),
        }
    }
}

/// The state that `start` is in after the first `n` of `events`.
pub open spec fn state_after(start: GateState, events: Seq<GateEvent>, n: nat) -> GateState
    decreases n,
{
    if n == 0 {
        start
    } else {
        state_after(start, events, (n - 1) as nat).apply(events[n - 1])
    }
}

/// The event at `index` is a trigger, and the manager admits it when it has
/// seen the events before it.
pub open spec fn admitted_at(start: GateState, events: Seq<GateEvent>, index: int) -> bool {
    &&& 0 <= index < events.len()
    &&& events[index] matches GateEvent::Trigger { now }
    &&& state_after(start, events, index as nat).admits(now)
}

/// The time of the trigger at `index`.
pub open spec fn trigger_time(events: Seq<GateEvent>, index: int) -> nat {
    match events[index] {
        GateEvent::Trigger { now } => now,
        GateEvent::Complete => 0,
    }
}

/// No event changes what the manager was configured with.
pub proof fn lemma_configuration_is_fixed(start: GateState, events: Seq<GateEvent>, n: nat)
    requires
        n <= events.len(),
    ensures
        state_after(start, events, n).command == start.command,
        state_after(start, events, n).update_interval_ms == start.update_interval_ms,
        state_after(start, events, n).timeout_ms == start.timeout_ms,
        state_after(start, events, n).debounce_nanos() == start.debounce_nanos(),
    decreases n,
{
    if n > 0 {
        lemma_configuration_is_fixed(start, events, (n - 1) as nat);
    }
}

/// The guard stays up until an acknowledgment arrives.
proof fn lemma_guard_holds(start: GateState, events: Seq<GateEvent>, from: nat, to: nat)
    requires
        from <= to <= events.len(),
        state_after(start, events, from).in_flight,
        forall|k: int| from <= k < to ==> !(events[k] is Complete),
    ensures
        state_after(start, events, to).in_flight,
    decreases to - from,
{
    if from < to {
        lemma_guard_holds(start, events, from, (to - 1) as nat);
        assert(!(events[to - 1] is Complete));
    }
}

/// Once an attempt started at `since`, every later state remembers a start
/// that is no earlier, unless the manager does not debounce at all.
proof fn lemma_last_start_advances(
    start: GateState,
    events: Seq<GateEvent>,
    from: nat,
    to: nat,
    since: nat,
)
    requires
        from <= to <= events.len(),
        state_after(start, events, from).last_started_at == Some(since),
    ensures
        state_after(start, events, to).last_started_at matches Some(last) && (last >= since
            || start.debounce_nanos() == 0),
    decreases to - from,
{
    if from < to {
        lemma_last_start_advances(start, events, from, (to - 1) as nat, since);
        lemma_configuration_is_fixed(start, events, (to - 1) as nat);
    }
}

/// Single flight: between two admitted triggers of any history lies an
/// acknowledgment. No second attempt starts while one is in flight.
pub proof fn law_single_flight(start: GateState, events: Seq<GateEvent>, first: int, second: int)
    requires
        first < second,
        admitted_at(start, events, first),
        admitted_at(start, events, second),
    ensures
        exists|k: int| first < k < second && events[k] is Complete,
{
    if forall|k: int| first < k < second ==> !(events[k] is Complete) {
        assert(state_after(start, events, (first + 1) as nat).in_flight);
        lemma_guard_holds(start, events, (first + 1) as nat, second as nat);
    }
}

/// Debounce: two admitted triggers of any history lie at least the debounce
/// interval apart, whether or not the earlier attempt was acknowledged in
/// between.
pub proof fn law_debounce(start: GateState, events: Seq<GateEvent>, first: int, second: int)
    requires
        first < second,
        admitted_at(start, events, first),
        admitted_at(start, events, second),
    ensures
        elapsed_between(trigger_time(events, first), trigger_time(events, second))
            >= start.debounce_nanos(),
{
    let began = trigger_time(events, first);
    assert(state_after(start, events, (first + 1) as nat).last_started_at == Some(began));
    lemma_last_start_advances(start, events, (first + 1) as nat, second as nat, began);
    lemma_configuration_is_fixed(start, events, second as nat);
}

/// Debounce reaches back before a history: its admitted triggers lie at least
/// the debounce interval after the last start that the manager remembered when
/// the history began.
pub proof fn law_debounce_from_start(
    start: GateState,
    events: Seq<GateEvent>,
    index: int,
    since: nat,
)
    requires
        start.last_started_at == Some(since),
        admitted_at(start, events, index),
    ensures
        elapsed_between(since, trigger_time(events, index)) >= start.debounce_nanos(),
{
    lemma_last_start_advances(start, events, 0, index as nat, since);
    lemma_configuration_is_fixed(start, events, index as nat);
}

/// A trigger that arrives while an attempt is in flight changes nothing,
/// whatever its time.
pub proof fn law_busy_trigger_is_dropped(state: GateState, now: nat)
    requires
        state.in_flight,
    ensures
        !state.admits(now),
        state.trigger(now) == state,
{
}

/// Acknowledging with no attempt in flight changes nothing, and a second
/// acknowledgment adds nothing to the first.
pub proof fn law_complete_is_idempotent(state: GateState)
    ensures
        !state.in_flight ==> state.complete() == state,
        state.complete().complete() == state.complete(),
{
}

/// After an acknowledgment the manager admits again as soon as the debounce
/// interval has passed since the last start, and not before.
pub proof fn law_admits_after_interval(state: GateState, now: nat)
    ensures
        state.complete().admits(now) <==> (state.last_started_at matches Some(last)
            ==> elapsed_between(last, now) >= state.debounce_nanos()),
{
}

} // verus!
