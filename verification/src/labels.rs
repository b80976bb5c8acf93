//! Counters that are split by a tuple of labels.

use crate::guards::{DeferredAddWithLabels, DeferredAddWithLabelsState};
use crate::handles::{are_label_names, is_metric_name, label_count, texts, IntCounterVec};
use crate::metric::CounterMetric;
use std::marker::PhantomData;
use vstd::prelude::*;

verus! {

/// A tuple of labels: the names that a counter is split by, and the values
/// that pick one counter of the split.
pub trait Labels {
    /// The names of the labels, in the order of the values.
    fn label_names() -> Vec<&'static str>;

    /// The values of the labels, in the order of the names. A guard asks for
    /// them while it is dropped, so this must not panic.
    fn label_values(&self) -> Vec<&str>
        opens_invariants none
        no_unwind when true
    ;
}

/// An integer counter for each value of the label tuple `L`.
pub struct IntCounterWithLabels<L: Labels> {
    metric: IntCounterVec,
    _labels: PhantomData<L>,
}

impl<L: Labels> IntCounterWithLabels<L> {
    /// The number of labels that the counters are split by.
    pub closed spec fn label_count(&self) -> nat {
        label_count(self.metric)
    }

    /// Makes the counters of `name`, split by `label_names`.
    ///
    /// They are made exactly when `name` is a metric name, `help` is not empty,
    /// each label is a label name and no label occurs twice.
    pub fn with_label_names(name: &str, help: &str, label_names: &Vec<&str>) -> (made: Option<Self>)
        ensures
            made is Some <==> (is_metric_name(name@) && help@.len() > 0 && are_label_names(
                texts(label_names@),
            )),
            made matches Some(counters) ==> counters.label_count() == label_names@.len(),
    {
        match IntCounterVec::create(name, help, label_names) {
            Some(metric) => Some(IntCounterWithLabels { metric, _labels: PhantomData }),
            None => None,
        }
    }

    /// Makes the counters of `name`, split by the label names of `L`.
    ///
    /// Whatever names `L` gives, nothing is made of a `name` that is no metric
    /// name or of an empty `help`.
    pub fn new(name: &str, help: &str) -> (made: Option<Self>)
        ensures
            made is Some ==> is_metric_name(name@) && help@.len() > 0,
    {
        let label_names = L::label_names();
        Self::with_label_names(name, help, &label_names)
    }

    /// The value that the counter of `label_values` holds now. There is such a
    /// counter exactly when there are as many values as the counters are split
    /// by labels. Other holders may change the value at any time, so nothing
    /// is known of it.
    pub fn get_at(&self, label_values: &Vec<&str>) -> (value: Option<u64>)
        ensures
            value is Some <==> label_values@.len() == self.label_count(),
    {
        match self.metric.child(label_values) {
            Some(counter) => Some(counter.get()),
            None => None,
        }
    }

    /// The value that the counter of `labels` holds now; `None` where `labels`
    /// has not as many values as the counters are split by labels.
    pub fn get(&self, labels: &L) -> Option<u64> {
        let label_values = labels.label_values();
        self.get_at(&label_values)
    }

    /// Raises the counter of `label_values` by `v`, and says whether there is
    /// such a counter: there is exactly when there are as many values as the
    /// counters are split by labels.
    pub fn add_at(&self, v: u64, label_values: &Vec<&str>) -> (found: bool)
        ensures
            found <==> label_values@.len() == self.label_count(),
        opens_invariants none
        no_unwind
    {
        match self.metric.child(label_values) {
            Some(counter) => {
                counter.inc_by(v);
                true
            },
            None => false,
        }
    }

    /// Raises the counter of `labels` by `v`, and says whether there is such a
    /// counter. There is none, and nothing is raised, where `labels` has not
    /// as many values as the counters are split by labels.
    pub fn add(&self, v: u64, labels: &L) -> (found: bool)
        opens_invariants none
        no_unwind
    {
        let label_values = labels.label_values();
        self.add_at(v, &label_values)
    }

    /// Raises the counter of `labels` by one, and says whether there is such a
    /// counter.
    pub fn inc(&self, labels: &L) -> (found: bool) {
        self.add(1, labels)
    }

    /// Hands the counters to `registry`, which exports them from then on, and
    /// says whether the registry took them. Whether it does depends on what
    /// the registry holds, so nothing is known of the answer.
    pub fn register(&self, registry: &prometheus::Registry) -> (registered: bool) {
        self.metric.enroll(registry)
    }

    /// Raises the counter of `labels` by one when the guard is dropped.
    #[must_use]
    pub fn deferred_inc<'a>(&'a self, labels: L) -> (guard: DeferredAddWithLabels<'a, L>)
        ensures
            guard@ == DeferredAddWithLabelsState::deferred(*self, 1, labels),
    {
        DeferredAddWithLabels::new(self, 1, labels)
    }

    /// Raises the counter of `labels` by `v` when the guard is dropped.
    #[must_use]
    pub fn deferred_add<'a>(&'a self, v: u64, labels: L) -> (guard: DeferredAddWithLabels<'a, L>)
        ensures
            guard@ == DeferredAddWithLabelsState::deferred(*self, v, labels),
    {
        DeferredAddWithLabels::new(self, v, labels)
    }
}

} // verus!
