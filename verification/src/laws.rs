//! What holds of every guard, proved from the states that the contracts of the
//! guards speak of: what `owed`, `release` and `due` return is what these
//! states owe.
//!
//! The counters and gauges are shared, so the laws that speak of a metric's
//! value take the value it held as a parameter and say what one guard's own
//! operations make of it.

use crate::guards::{DeferredAddState, DeferredAddWithLabelsState, GaugeGuardState};
use crate::handles::{
    int_counter_after_add, int_gauge_after_add, int_gauge_after_sub, IntCounter, IntGauge,
};
use crate::labels::{IntCounterWithLabels, Labels};
use crate::metric::{CounterMetric, GaugeMetric};
use vstd::prelude::*;

verus! {

/// The value of an integer counter that held `before`, once a guard that owed
/// `due` was released.
pub open spec fn int_counter_after_release(before: u64, due: Option<u64>) -> u64 {
    match due {
        Some(amount) => int_counter_after_add(before, amount),
        None => before,
    }
}

/// The release of a gauge guard subtracts the amount that its making added.
pub proof fn gauge_guard_owes_what_was_added<G: GaugeMetric>(gauge: G, v: G::Amount)
    ensures
        GaugeGuardState::acquired(gauge, v).owed() == v,
        GaugeGuardState::acquired(gauge, v).gauge == gauge,
{
}

/// Making a guard on an integer gauge and releasing it leaves the gauge at
/// the value it had, for every amount, negative ones and ones that make the
/// gauge wrap included.
pub proof fn int_gauge_guard_balance(gauge: IntGauge, before: i64, v: i64)
    ensures
        int_gauge_after_sub(
            int_gauge_after_add(before, v),
            GaugeGuardState::acquired(gauge, v).owed(),
        ) == before,
{
}

/// A deferred increment of `v` owes exactly `v`, and after its release it owes
/// nothing: no second release adds anything.
pub proof fn deferred_add_exactly_once<C: CounterMetric>(metric: C, v: C::Amount)
    ensures
        DeferredAddState::deferred(metric, v).due() == Some(v),
        DeferredAddState::deferred(metric, v).release().due() is None,
{
}

/// The same for a labeled counter: the increment is owed under the labels it
/// was made with, once.
pub proof fn deferred_add_with_labels_exactly_once<L: Labels>(
    metric: IntCounterWithLabels<L>,
    v: u64,
    labels: L,
)
    ensures
        DeferredAddWithLabelsState::deferred(metric, v, labels).due() == Some((v, labels)),
        DeferredAddWithLabelsState::deferred(metric, v, labels).release().due() is None,
{
}

/// Releasing a deferred increment of `v` raises an integer counter by `v`, and
/// a release after that leaves the counter where it is.
pub proof fn int_counter_raised_once(metric: IntCounter, before: u64, v: u64)
    ensures
        int_counter_after_release(before, DeferredAddState::deferred(metric, v).due())
            == int_counter_after_add(before, v),
        int_counter_after_release(
            int_counter_after_add(before, v),
            DeferredAddState::deferred(metric, v).release().due(),
        ) == int_counter_after_add(before, v),
{
}

/// A canceled guard owes nothing: its release leaves the counter unchanged.
pub proof fn cancel_suppresses<C: CounterMetric>(guard: DeferredAddState<C>)
    ensures
        guard.cancel().due() is None,
        guard.cancel().release() == guard.cancel(),
{
}

/// A canceled guard of a labeled counter owes nothing, and stays so when its
/// labels are replaced afterwards.
pub proof fn cancel_with_labels_suppresses<L: Labels>(
    guard: DeferredAddWithLabelsState<L>,
    new_labels: L,
)
    ensures
        guard.cancel().due() is None,
        guard.cancel().with_labels(new_labels).due() is None,
{
}

/// The counter that a canceled guard is released on keeps its value.
pub proof fn int_counter_unchanged_by_canceled(guard: DeferredAddState<IntCounter>, before: u64)
    ensures
        int_counter_after_release(before, guard.cancel().due()) == before,
{
}

/// Canceling a canceled guard changes nothing.
pub proof fn cancel_is_idempotent<C: CounterMetric>(guard: DeferredAddState<C>)
    ensures
        guard.cancel().cancel() == guard.cancel(),
{
}

/// Canceling a canceled guard of a labeled counter changes nothing.
pub proof fn cancel_with_labels_is_idempotent<L: Labels>(guard: DeferredAddWithLabelsState<L>)
    ensures
        guard.cancel().cancel() == guard.cancel(),
{
}

/// Of the labels given to a guard the last ones count: the increment is owed
/// under them, whatever the labels were before, and the amount stays.
pub proof fn last_labels_win<L: Labels>(
    guard: DeferredAddWithLabelsState<L>,
    first: L,
    last: L,
)
    ensures
        guard.with_labels(first).with_labels(last) == guard.with_labels(last),
        guard.with_labels(last).due() == match guard.pending {
            Some(v) => Some((v, last)),
            None => None,
        },
{
}

/// A release, early or at the end of the scope, hands over what is owed and
/// leaves a guard that owes nothing, on which a release changes nothing.
pub proof fn release_is_final<C: CounterMetric>(guard: DeferredAddState<C>)
    ensures
        guard.release().due() is None,
        guard.release().release() == guard.release(),
{
}

/// The same for a guard of a labeled counter.
pub proof fn release_with_labels_is_final<L: Labels>(guard: DeferredAddWithLabelsState<L>)
    ensures
        guard.release().due() is None,
        guard.release().release() == guard.release(),
{
}

} // verus!
