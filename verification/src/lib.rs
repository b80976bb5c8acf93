//! Scope-bound guards for Prometheus metrics.
//!
//! A [`GenericGaugeGuard`] raises a gauge when it is made and lowers it by the
//! same amount when it is dropped. A [`DeferredAdd`] or a
//! [`DeferredAddWithLabels`] holds an increment back until it is dropped or
//! completed, and can be canceled before that.
//!
//! The metrics are shared between threads and changed through shared
//! references, so no contract here speaks of a metric's value or of the calls
//! that reach a metric. What is proved is the life of each guard: the amount
//! and the labels it holds, how `cancel` and `with_labels` change them, what a
//! release takes out of the guard to hand to the metric (`owed`, `release`,
//! `due`), and that a guard owes nothing once it was released.

pub mod balance;
pub mod guards;
pub mod handles;
pub mod labels;
pub mod laws;
pub mod metric;

pub use guards::{
    DeferredAdd, DeferredAddState, DeferredAddWithLabels, DeferredAddWithLabelsState,
    DeferredCounter, GaugeGuardState, GenericGaugeGuard, GuardedGauge, IntGaugeGuard,
};
pub use handles::{IntCounter, IntGauge};
pub use labels::{IntCounterWithLabels, Labels};
pub use metric::{CounterMetric, GaugeMetric};
