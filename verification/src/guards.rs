//! The guards and the traits that hand them out.

use crate::handles::IntGauge;
use crate::labels::{IntCounterWithLabels, Labels};
use crate::metric::{CounterMetric, GaugeMetric};
use vstd::prelude::*;

verus! {

/// A guard for an [`IntGauge`].
pub type IntGaugeGuard = GenericGaugeGuard<IntGauge>;

/// What a gauge guard is, as a value: the gauge it is bound to and the amount
/// that was added to the gauge when the guard was made.
pub struct GaugeGuardState<G: GaugeMetric> {
    pub gauge: G,
    pub value: G::Amount,
}

impl<G: GaugeMetric> GaugeGuardState<G> {
    /// The guard that `guarded_add(v)` on `gauge` returns.
    pub open spec fn acquired(gauge: G, v: G::Amount) -> Self {
        GaugeGuardState { gauge, value: v }
    }

    /// The amount that the release of the guard subtracts from its gauge.
    pub open spec fn owed(self) -> G::Amount {
        self.value
    }
}

/// A guard that keeps a gauge raised while it exists.
///
/// It is made by the methods of [`GuardedGauge`], which raise the gauge. When
/// it is dropped it lowers the gauge by the amount it was raised by.
pub struct GenericGaugeGuard<G: GaugeMetric + 'static> {
    value: G::Amount,
    gauge: &'static G,
}

impl<G: GaugeMetric + 'static> View for GenericGaugeGuard<G> {
    type V = GaugeGuardState<G>;

    closed spec fn view(&self) -> GaugeGuardState<G> {
        GaugeGuardState { gauge: *self.gauge, value: self.value }
    }
}

impl<G: GaugeMetric + 'static> GenericGaugeGuard<G> {
    /// The amount that the gauge was raised by when the guard was made, which
    /// is the amount that the release of the guard lowers it by.
    pub fn owed(&self) -> (amount: G::Amount)
        ensures
            amount == self@.owed(),
        opens_invariants none
        no_unwind
    {
        self.value
    }
}

impl<G: GaugeMetric + 'static> Drop for GenericGaugeGuard<G> {
    /// Releases the guard: lowers the gauge by what the guard owes. The guard
    /// itself stays as it was.
    fn drop(&mut self)
        ensures
            final(self)@ == old(self)@,
        opens_invariants none
        no_unwind
    {
        let amount = self.owed();
        self.gauge.sub(amount);
    }
}

/// Hands out guards that keep a gauge raised.
pub trait GuardedGauge: GaugeMetric + Sized + 'static {
    /// Raises the gauge by one unit for as long as the guard exists.
    #[must_use]
    fn guarded_inc(&'static self) -> (guard: GenericGaugeGuard<Self>)
        ensures
            guard@ == GaugeGuardState::acquired(*self, Self::unit()),
    ;

    /// Raises the gauge by `v` for as long as the guard exists.
    #[must_use]
    fn guarded_add(&'static self, v: Self::Amount) -> (guard: GenericGaugeGuard<Self>)
        ensures
            guard@ == GaugeGuardState::acquired(*self, v),
    ;
}

impl<G: GaugeMetric + 'static> GuardedGauge for G {
    fn guarded_inc(&'static self) -> (guard: GenericGaugeGuard<G>) {
        let one = G::one();
        self.add(one);
        GenericGaugeGuard { value: one, gauge: self }
    }

    fn guarded_add(&'static self, v: G::Amount) -> (guard: GenericGaugeGuard<G>) {
        self.add(v);
        GenericGaugeGuard { value: v, gauge: self }
    }
}

/// What a deferred increment is, as a value: the counter it is bound to and
/// the amount that is still to be added, if any.
pub struct DeferredAddState<C: CounterMetric> {
    pub metric: C,
    pub pending: Option<C::Amount>,
}

impl<C: CounterMetric> DeferredAddState<C> {
    /// The guard that `deferred_add(v)` on `metric` returns.
    pub open spec fn deferred(metric: C, v: C::Amount) -> Self {
        DeferredAddState { metric, pending: Some(v) }
    }

    /// The guard after `cancel`.
    pub open spec fn cancel(self) -> Self {
        DeferredAddState { metric: self.metric, pending: None }
    }

    /// The amount that the release of the guard adds to its counter; `None`
    /// where it adds nothing.
    pub open spec fn due(self) -> Option<C::Amount> {
        self.pending
    }

    /// The guard after its release.
    pub open spec fn release(self) -> Self {
        DeferredAddState { metric: self.metric, pending: None }
    }
}

/// A guard that adds to a counter when it is dropped, unless it was canceled.
///
/// It is made by the methods of [`DeferredCounter`], which leave the counter
/// as it is.
pub struct DeferredAdd<'a, C: CounterMetric> {
    value: Option<C::Amount>,
    metric: &'a C,
}

impl<'a, C: CounterMetric> View for DeferredAdd<'a, C> {
    type V = DeferredAddState<C>;

    closed spec fn view(&self) -> DeferredAddState<C> {
        DeferredAddState { metric: *self.metric, pending: self.value }
    }
}

impl<'a, C: CounterMetric> DeferredAdd<'a, C> {
    /// Releases the guard: adds what is due to the counter and leaves nothing
    /// due, so that a second release adds nothing. Returns the amount that was
    /// added; `None` where nothing was due and the counter was left alone.
    pub fn release(&mut self) -> (applied: Option<C::Amount>)
        ensures
            applied == old(self)@.due(),
            final(self)@ == old(self)@.release(),
        opens_invariants none
        no_unwind
    {
        let due = self.value;
        self.value = None;
        if let Some(amount) = due {
            self.metric.inc_by(amount);
        }
        due
    }

    /// Releases the guard now and consumes it. Returns the amount that was
    /// added to the counter; `None` where the guard was canceled. The guard
    /// that goes out of scope here owes nothing more.
    pub fn complete_add(self) -> (applied: Option<C::Amount>)
        ensures
            applied == self@.due(),
    {
        let mut guard = self;
        guard.release()
    }

    /// Cancels the increment: the release of the guard adds nothing.
    pub fn cancel(&mut self)
        ensures
            final(self)@ == old(self)@.cancel(),
    {
        self.value = None;
    }
}

impl<'a, C: CounterMetric> Drop for DeferredAdd<'a, C> {
    /// Releases the guard, as [`DeferredAdd::release`] does.
    fn drop(&mut self)
        ensures
            final(self)@ == old(self)@.release(),
        opens_invariants none
        no_unwind
    {
        self.release();
    }
}

/// Hands out guards that add to a counter when they are dropped.
pub trait DeferredCounter: CounterMetric + Sized + 'static {
    /// Raises the counter by one unit when the guard is dropped.
    #[must_use]
    fn deferred_inc(&'static self) -> (guard: DeferredAdd<'static, Self>)
        ensures
            guard@ == DeferredAddState::deferred(*self, Self::unit()),
    ;

    /// Raises the counter by `v` when the guard is dropped.
    #[must_use]
    fn deferred_add(&'static self, v: Self::Amount) -> (guard: DeferredAdd<'static, Self>)
        ensures
            guard@ == DeferredAddState::deferred(*self, v),
    ;
}

impl<C: CounterMetric + 'static> DeferredCounter for C {
    fn deferred_inc(&'static self) -> (guard: DeferredAdd<'static, C>) {
        self.deferred_add(C::one())
    }

    fn deferred_add(&'static self, v: C::Amount) -> (guard: DeferredAdd<'static, C>) {
        DeferredAdd { value: Some(v), metric: self }
    }
}

/// What a deferred increment of a labeled counter is, as a value: the counter
/// it is bound to, the amount that is still to be added, if any, and the
/// labels that the amount will be added under.
pub struct DeferredAddWithLabelsState<L: Labels> {
    pub metric: IntCounterWithLabels<L>,
    pub pending: Option<u64>,
    pub labels: L,
}

impl<L: Labels> DeferredAddWithLabelsState<L> {
    /// The guard that `deferred_add(v, labels)` on `metric` returns.
    pub open spec fn deferred(metric: IntCounterWithLabels<L>, v: u64, labels: L) -> Self {
        DeferredAddWithLabelsState { metric, pending: Some(v), labels }
    }

    /// The guard after `with_labels(new_labels)`.
    pub open spec fn with_labels(self, new_labels: L) -> Self {
        DeferredAddWithLabelsState { metric: self.metric, pending: self.pending, labels: new_labels }
    }

    /// The guard after `cancel`.
    pub open spec fn cancel(self) -> Self {
        DeferredAddWithLabelsState { metric: self.metric, pending: None, labels: self.labels }
    }

    /// The amount that the release of the guard adds to its counter, and the
    /// labels it adds it under; `None` where it adds nothing.
    pub open spec fn due(self) -> Option<(u64, L)> {
        match self.pending {
            Some(v) => Some((v, self.labels)),
            None => None,
        }
    }

    /// The guard after its release.
    pub open spec fn release(self) -> Self {
        DeferredAddWithLabelsState { metric: self.metric, pending: None, labels: self.labels }
    }
}

/// A guard that adds to a labeled counter when it is dropped, unless it was
/// canceled. Until then the labels can be replaced.
pub struct DeferredAddWithLabels<'a, L: Labels> {
    value: Option<u64>,
    metric: &'a IntCounterWithLabels<L>,
    labels: L,
}

impl<'a, L: Labels> View for DeferredAddWithLabels<'a, L> {
    type V = DeferredAddWithLabelsState<L>;

    closed spec fn view(&self) -> DeferredAddWithLabelsState<L> {
        DeferredAddWithLabelsState { metric: *self.metric, pending: self.value, labels: self.labels }
    }
}

impl<'a, L: Labels> DeferredAddWithLabels<'a, L> {
    /// Makes a guard that adds `value` to the counter of `labels` when it is
    /// dropped. The counter is left as it is.
    pub fn new(metric: &'a IntCounterWithLabels<L>, value: u64, labels: L) -> (guard: Self)
        ensures
            guard@ == DeferredAddWithLabelsState::deferred(*metric, value, labels),
    {
        DeferredAddWithLabels { value: Some(value), metric, labels }
    }

    /// What the release of the guard adds to its counter: the amount and the
    /// labels it goes under; `None` where the release adds nothing.
    pub fn due(&self) -> (due: Option<(u64, &L)>)
        ensures
            due is None <==> self@.due() is None,
            due matches Some(pair) ==> self@.due() == Some((pair.0, *pair.1)),
        opens_invariants none
        no_unwind
    {
        match self.value {
            Some(amount) => Some((amount, &self.labels)),
            None => None,
        }
    }

    /// Releases the guard: adds what is due to the counter of the labels and
    /// leaves nothing due, so that a second release adds nothing.
    ///
    /// Returns `None` where nothing was due and the counter was left alone.
    /// Else it returns the amount that was due, and whether the counter of
    /// the labels was found and raised: it is not found where the labels have
    /// not as many values as the counter is split by labels, and the amount is
    /// then added nowhere.
    pub fn release(&mut self) -> (applied: Option<(u64, bool)>)
        ensures
            applied is None <==> old(self)@.due() is None,
            applied matches Some(pair) ==> old(self)@.pending == Some(pair.0),
            final(self)@ == old(self)@.release(),
        opens_invariants none
        no_unwind
    {
        let applied = match self.due() {
            Some((amount, labels)) => Some((amount, self.metric.add(amount, labels))),
            None => None,
        };
        self.value = None;
        applied
    }

    /// Replaces the labels that the increment will be added under.
    pub fn with_labels(self, new_labels: L) -> (guard: DeferredAddWithLabels<'a, L>)
        ensures
            guard@ == self@.with_labels(new_labels),
    {
        let mut guard = self;
        guard.labels = new_labels;
        guard
    }

    /// Releases the guard now and consumes it. Returns what
    /// [`DeferredAddWithLabels::release`] returns: `None` where the guard was
    /// canceled, else the amount that was due and whether the counter of the
    /// labels was found and raised. The guard that goes out of scope here owes
    /// nothing more.
    pub fn complete_add(self) -> (applied: Option<(u64, bool)>)
        ensures
            applied is None <==> self@.due() is None,
            applied matches Some(pair) ==> self@.pending == Some(pair.0),
    {
        let mut guard = self;
        guard.release()
    }

    /// Cancels the increment: the release of the guard adds nothing.
    pub fn cancel(&mut self)
        ensures
            final(self)@ == old(self)@.cancel(),
    {
        self.value = None;
    }
}

impl<'a, L: Labels> Drop for DeferredAddWithLabels<'a, L> {
    /// Releases the guard, as [`DeferredAddWithLabels::release`] does. An
    /// amount whose labels find no counter is added nowhere.
    fn drop(&mut self)
        ensures
            final(self)@ == old(self)@.release(),
        opens_invariants none
        no_unwind
    {
        self.release();
    }
}

} // verus!
