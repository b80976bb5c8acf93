//! Many guards on one integer gauge: whatever the order in which they are made
//! and released, the gauge ends where it began once every guard is released.

use crate::handles::{int_gauge_after_add, int_gauge_after_sub};
use vstd::prelude::*;
use vstd::seq_lib::{to_multiset_build, to_multiset_contains, to_multiset_len, to_multiset_remove};

verus! {

/// What one guard does to its gauge at one end of its life.
pub enum GaugeStep {
    /// A guard of this amount is made: the amount is added.
    Acquire(i64),
    /// A guard of this amount is released: the amount is subtracted.
    Release(i64),
}

/// The value of an integer gauge that held `before`, once `steps` were taken
/// in their order.
pub open spec fn int_gauge_after_steps(before: i64, steps: Seq<GaugeStep>) -> i64
    decreases steps.len(),
{
    if steps.len() == 0 {
        before
    } else {
        let earlier = int_gauge_after_steps(before, steps.drop_last());
        match steps.last() {
            GaugeStep::Acquire(v) => int_gauge_after_add(earlier, v),
            GaugeStep::Release(v) => int_gauge_after_sub(earlier, v),
        }
    }
}

/// The amounts of the guards made in `steps`, in their order.
pub open spec fn acquired(steps: Seq<GaugeStep>) -> Seq<i64>
    decreases steps.len(),
{
    if steps.len() == 0 {
        Seq::empty()
    } else {
        match steps.last() {
            GaugeStep::Acquire(v) => acquired(steps.drop_last()).push(v),
            GaugeStep::Release(_) => acquired(steps.drop_last()),
        }
    }
}

/// The amounts of the guards released in `steps`, in their order.
pub open spec fn released(steps: Seq<GaugeStep>) -> Seq<i64>
    decreases steps.len(),
{
    if steps.len() == 0 {
        Seq::empty()
    } else {
        match steps.last() {
            GaugeStep::Acquire(_) => released(steps.drop_last()),
            GaugeStep::Release(v) => released(steps.drop_last()).push(v),
        }
    }
}

/// Whether `steps` release what they acquire: each amount is released as often
/// as it is acquired.
pub open spec fn is_balanced(steps: Seq<GaugeStep>) -> bool {
    acquired(steps).to_multiset() == released(steps).to_multiset()
}

/// The sum of `amounts`.
pub open spec fn total(amounts: Seq<i64>) -> int
    decreases amounts.len(),
{
    if amounts.len() == 0 {
        0
    } else {
        total(amounts.drop_last()) + amounts.last()
    }
}

/// Taking one amount out of a sequence lowers its sum by that amount.
proof fn lemma_total_remove(amounts: Seq<i64>, i: int)
    requires
        0 <= i < amounts.len(),
    ensures
        total(amounts) == total(amounts.remove(i)) + amounts[i],
    decreases amounts.len(),
{
    if i == amounts.len() - 1 {
        assert(amounts.remove(i) =~= amounts.drop_last());
    } else {
        lemma_total_remove(amounts.drop_last(), i);
        assert(amounts.remove(i).drop_last() =~= amounts.drop_last().remove(i));
        assert(amounts.remove(i).last() == amounts.last());
    }
}

/// Two sequences that hold the same amounts equally often have the same sum.
proof fn lemma_total_of_rearranged(a: Seq<i64>, b: Seq<i64>)
    requires
        a.to_multiset() == b.to_multiset(),
    ensures
        total(a) == total(b),
    decreases a.len(),
{
    to_multiset_len(a);
    to_multiset_len(b);
    if a.len() > 0 {
        let x = a.last();
        let shorter = a.drop_last();
        assert(a =~= shorter.push(x));
        to_multiset_build(shorter, x);
        to_multiset_contains(b, x);
        let i = choose|i: int| 0 <= i < b.len() && b[i] == x;
        to_multiset_remove(b, i);
        assert(shorter.to_multiset() =~= b.remove(i).to_multiset());
        lemma_total_of_rearranged(shorter, b.remove(i));
        lemma_total_remove(b, i);
    }
}

/// The gauge differs from where it began by what was acquired less what was
/// released, up to the multiple `wraps` of two to the 64th that wrapping took
/// away.
proof fn lemma_after_steps(before: i64, steps: Seq<GaugeStep>) -> (wraps: int)
    ensures
        int_gauge_after_steps(before, steps) == before + total(acquired(steps)) - total(
            released(steps),
        ) + wraps * 0x1_0000_0000_0000_0000,
    decreases steps.len(),
{
    if steps.len() == 0 {
        0
    } else {
        let earlier_wraps = lemma_after_steps(before, steps.drop_last());
        let earlier = int_gauge_after_steps(before, steps.drop_last());
        match steps.last() {
            GaugeStep::Acquire(v) => {
                assert(acquired(steps).drop_last() =~= acquired(steps.drop_last()));
                if earlier + v > i64::MAX {
                    earlier_wraps - 1
                } else if earlier + v < i64::MIN {
                    earlier_wraps + 1
                } else {
                    earlier_wraps
                }
            },
            GaugeStep::Release(v) => {
                assert(released(steps).drop_last() =~= released(steps.drop_last()));
                if earlier - v > i64::MAX {
                    earlier_wraps - 1
                } else if earlier - v < i64::MIN {
                    earlier_wraps + 1
                } else {
                    earlier_wraps
                }
            },
        }
    }
}

/// Guards on an integer gauge, made and released in any order and with any
/// amounts, leave the gauge at the value it had before the first was made,
/// once each of them is released. This holds also where the gauge wraps on
/// the way.
pub proof fn int_gauge_guards_balance(before: i64, steps: Seq<GaugeStep>)
    requires
        is_balanced(steps),
    ensures
        int_gauge_after_steps(before, steps) == before,
{
    let wraps = lemma_after_steps(before, steps);
    lemma_total_of_rearranged(acquired(steps), released(steps));
}

} // verus!
