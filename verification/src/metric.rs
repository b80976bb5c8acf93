//! What a guard needs from the metric it is bound to.

use vstd::prelude::*;

verus! {

/// A metric that moves up and down by an amount.
///
/// The operations change a value that every holder of the metric shares; they
/// go through a shared reference and cannot fail. A guard lowers the gauge
/// while it is dropped, so none of them may panic.
pub trait GaugeMetric {
    /// The numbers that the gauge counts in.
    type Amount: Copy;

    /// The amount that stands for one unit.
    spec fn unit() -> Self::Amount;

    /// Gives the amount that stands for one unit.
    fn one() -> (amount: Self::Amount)
        ensures
            amount == Self::unit(),
        opens_invariants none
        no_unwind when true
    ;

    /// Raises the gauge by `amount`.
    fn add(&self, amount: Self::Amount)
        opens_invariants none
        no_unwind when true
    ;

    /// Lowers the gauge by `amount`.
    fn sub(&self, amount: Self::Amount)
        opens_invariants none
        no_unwind when true
    ;
}

/// A metric that only moves up, by an amount.
///
/// The operation changes a value that every holder of the metric shares; it
/// goes through a shared reference and cannot fail. A guard raises the
/// counter while it is dropped, so it may not panic.
pub trait CounterMetric {
    /// The numbers that the counter counts in.
    type Amount: Copy;

    /// The amount that stands for one unit.
    spec fn unit() -> Self::Amount;

    /// Gives the amount that stands for one unit.
    fn one() -> (amount: Self::Amount)
        ensures
            amount == Self::unit(),
        opens_invariants none
        no_unwind when true
    ;

    /// Raises the counter by `amount`.
    fn inc_by(&self, amount: Self::Amount)
        opens_invariants none
        no_unwind when true
    ;
}

} // verus!
