//! Integer metrics of the `prometheus` crate, held behind types of this crate.

use crate::metric::{CounterMetric, GaugeMetric};
use vstd::prelude::*;

verus! {

/// Whether `c` may stand anywhere in a metric name: a letter of ASCII, `_` or `:`.
pub open spec fn is_name_char(c: char) -> bool {
    ('a' <= c && c <= 'z') || ('A' <= c && c <= 'Z') || c == '_' || c == ':'
}

/// Whether `name` is a metric name: a name character first, then name
/// characters and digits.
pub open spec fn is_metric_name(name: Seq<char>) -> bool {
    &&& name.len() > 0
    &&& is_name_char(name[0])
    &&& forall|i: int|
        0 <= i < name.len() ==> is_name_char(#[trigger] name[i]) || ('0' <= name[i] && name[i] <= '9')
}

/// Whether `name` is a label name: a metric name without `:`.
pub open spec fn is_label_name(name: Seq<char>) -> bool {
    is_metric_name(name) && !name.contains(':')
}

/// The texts of `names`, one for one.
pub open spec fn texts(names: Seq<&str>) -> Seq<Seq<char>> {
    Seq::new(names.len(), |i: int| names[i]@)
}

/// Whether `names` can be the labels of one metric: each is a label name and
/// none occurs twice.
pub open spec fn are_label_names(names: Seq<Seq<char>>) -> bool {
    &&& forall|i: int| 0 <= i < names.len() ==> is_label_name(#[trigger] names[i])
    &&& forall|i: int, j: int| 0 <= i < j < names.len() ==> names[i] != names[j]
}

/// The value of an integer gauge that held `before`, once `amount` is added:
/// the sum, wrapped into the 64 bits of the gauge.
pub open spec fn int_gauge_after_add(before: i64, amount: i64) -> i64 {
    if before + amount > i64::MAX {
        (before + amount - 0x1_0000_0000_0000_0000) as i64
    } else if before + amount < i64::MIN {
        (before + amount + 0x1_0000_0000_0000_0000) as i64
    } else {
        (before + amount) as i64
    }
}

/// The value of an integer gauge that held `before`, once `amount` is
/// subtracted: the difference, wrapped into the 64 bits of the gauge.
pub open spec fn int_gauge_after_sub(before: i64, amount: i64) -> i64 {
    if before - amount > i64::MAX {
        (before - amount - 0x1_0000_0000_0000_0000) as i64
    } else if before - amount < i64::MIN {
        (before - amount + 0x1_0000_0000_0000_0000) as i64
    } else {
        (before - amount) as i64
    }
}

/// The value of an integer counter that held `before`, once `amount` is added:
/// the sum, wrapped into the 64 bits of the counter.
pub open spec fn int_counter_after_add(before: u64, amount: u64) -> u64 {
    if before + amount > u64::MAX {
        (before + amount - 0x1_0000_0000_0000_0000) as u64
    } else {
        (before + amount) as u64
    }
}

/// `prometheus::Registry`: the metrics that are gathered for export. Nothing
/// here looks inside one.
#[verifier::external_type_specification]
#[verifier::external_body]
pub struct ExRegistry(prometheus::Registry);

/// A `prometheus::IntGauge`: a signed 64-bit gauge shared by all its holders.
#[verifier::external_body]
pub struct IntGauge {
    inner: prometheus::IntGauge,
}

impl IntGauge {
    /// Calls `prometheus::IntGauge::new`. It describes the metric by `name` and
    /// `help` alone, and refuses exactly an empty help text and a name that is
    /// no metric name.
    #[verifier::external_body]
    fn create(name: &str, help: &str) -> (made: Option<IntGauge>)
        ensures
            made is Some <==> (is_metric_name(name@) && help@.len() > 0),
    {
        match prometheus::IntGauge::new(name, help) {
            Ok(inner) => Some(IntGauge { inner }),
            Err(_) => None,
        }
    }

    /// Calls `GenericGauge::add`, an atomic add that wraps and cannot fail.
    #[verifier::external_body]
    fn raise(&self, amount: i64)
        opens_invariants none
        no_unwind
    {
        self.inner.add(amount)
    }

    /// Calls `GenericGauge::sub`, an atomic subtraction that wraps and cannot fail.
    #[verifier::external_body]
    fn lower(&self, amount: i64)
        opens_invariants none
        no_unwind
    {
        self.inner.sub(amount)
    }

    /// Calls `GenericGauge::get`, which loads the value that the gauge holds at
    /// that moment.
    #[verifier::external_body]
    fn load(&self) -> i64 {
        self.inner.get()
    }

    /// Calls `Registry::register` on a clone of the gauge, which shares its
    /// value. What the registry answers depends on what it holds: it refuses a
    /// metric that it holds already, and a name that it holds with another
    /// help text or other labels.
    #[verifier::external_body]
    fn enroll(&self, registry: &prometheus::Registry) -> bool {
        match registry.register(Box::new(self.inner.clone())) {
            Ok(()) => true,
            Err(_) => false,
        }
    }

    /// Makes a gauge that starts at zero.
    ///
    /// The gauge is made exactly when `name` is a metric name and `help` is
    /// not empty.
    pub fn new(name: &str, help: &str) -> (made: Option<IntGauge>)
        ensures
            made is Some <==> (is_metric_name(name@) && help@.len() > 0),
    {
        IntGauge::create(name, help)
    }

    /// The value that the gauge holds now. Other holders may change it at any
    /// time, so nothing is known of it.
    pub fn get(&self) -> i64 {
        self.load()
    }

    /// Hands the gauge to `registry`, which exports it from then on, and says
    /// whether the registry took it. Whether it does depends on what the
    /// registry holds, so nothing is known of the answer.
    pub fn register(&self, registry: &prometheus::Registry) -> (registered: bool) {
        self.enroll(registry)
    }
}

impl GaugeMetric for IntGauge {
    type Amount = i64;

    open spec fn unit() -> i64 {
        1i64
    }

    fn one() -> (amount: i64) {
        1i64
    }

    fn add(&self, amount: i64) {
        self.raise(amount)
    }

    fn sub(&self, amount: i64) {
        self.lower(amount)
    }
}

/// A `prometheus::IntCounter`: an unsigned 64-bit counter shared by all its
/// holders.
#[verifier::external_body]
pub struct IntCounter {
    inner: prometheus::IntCounter,
}

impl IntCounter {
    /// Calls `prometheus::IntCounter::new`. It describes the metric by `name`
    /// and `help` alone, and refuses exactly an empty help text and a name that
    /// is no metric name.
    #[verifier::external_body]
    fn create(name: &str, help: &str) -> (made: Option<IntCounter>)
        ensures
            made is Some <==> (is_metric_name(name@) && help@.len() > 0),
    {
        match prometheus::IntCounter::new(name, help) {
            Ok(inner) => Some(IntCounter { inner }),
            Err(_) => None,
        }
    }

    /// Calls `GenericCounter::inc_by`, an atomic add that wraps. Its one check
    /// is that the amount is not negative, which holds of every `u64`.
    #[verifier::external_body]
    fn raise(&self, amount: u64)
        opens_invariants none
        no_unwind
    {
        self.inner.inc_by(amount)
    }

    /// Calls `GenericCounter::get`, which loads the value that the counter
    /// holds at that moment.
    #[verifier::external_body]
    fn load(&self) -> u64 {
        self.inner.get()
    }

    /// Calls `Registry::register` on a clone of the counter, which shares its
    /// value. What the registry answers depends on what it holds: it refuses a
    /// metric that it holds already, and a name that it holds with another
    /// help text or other labels.
    #[verifier::external_body]
    fn enroll(&self, registry: &prometheus::Registry) -> bool {
        match registry.register(Box::new(self.inner.clone())) {
            Ok(()) => true,
            Err(_) => false,
        }
    }

    /// Makes a counter that starts at zero.
    ///
    /// The counter is made exactly when `name` is a metric name and `help` is
    /// not empty.
    pub fn new(name: &str, help: &str) -> (made: Option<IntCounter>)
        ensures
            made is Some <==> (is_metric_name(name@) && help@.len() > 0),
    {
        IntCounter::create(name, help)
    }

    /// The value that the counter holds now. Other holders may change it at
    /// any time, so nothing is known of it.
    pub fn get(&self) -> u64 {
        self.load()
    }

    /// Hands the counter to `registry`, which exports it from then on, and says
    /// whether the registry took it. Whether it does depends on what the
    /// registry holds, so nothing is known of the answer.
    pub fn register(&self, registry: &prometheus::Registry) -> (registered: bool) {
        self.enroll(registry)
    }
}

impl CounterMetric for IntCounter {
    type Amount = u64;

    open spec fn unit() -> u64 {
        1u64
    }

    fn one() -> (amount: u64) {
        1u64
    }

    fn inc_by(&self, amount: u64) {
        self.raise(amount)
    }
}

/// A `prometheus::IntCounterVec`: the counters of one name, one for each
/// tuple of label values.
#[verifier::external_body]
pub struct IntCounterVec {
    inner: prometheus::IntCounterVec,
}

/// The number of label names that `vec` was made with.
pub uninterp spec fn label_count(vec: IntCounterVec) -> nat;

impl IntCounterVec {
    /// Calls `prometheus::IntCounterVec::new` on the options that
    /// `prometheus::Opts::new` makes of `name` and `help`. It refuses exactly an
    /// empty help text, a name that is no metric name, a label that is no label
    /// name, and a label that occurs twice; what it makes keeps the label names
    /// one for one.
    #[verifier::external_body]
    pub(crate) fn create(name: &str, help: &str, label_names: &Vec<&str>) -> (made: Option<
        IntCounterVec,
    >)
        ensures
            made is Some <==> (is_metric_name(name@) && help@.len() > 0 && are_label_names(
                texts(label_names@),
            )),
            made matches Some(vec) ==> label_count(vec) == label_names@.len(),
    {
        let opts = prometheus::Opts::new(name, help);
        match prometheus::IntCounterVec::new(opts, label_names.as_slice()) {
            Ok(inner) => Some(IntCounterVec { inner }),
            Err(_) => None,
        }
    }

    /// Calls `Registry::register` on a clone of the counters, which shares
    /// their values. What the registry answers depends on what it holds: it
    /// refuses a metric that it holds already, and a name that it holds with
    /// another help text or other labels.
    #[verifier::external_body]
    pub(crate) fn enroll(&self, registry: &prometheus::Registry) -> bool {
        match registry.register(Box::new(self.inner.clone())) {
            Ok(()) => true,
            Err(_) => false,
        }
    }

    /// Calls `MetricVec::get_metric_with_label_values`, which finds the counter
    /// of `label_values`, or makes it. It refuses exactly a tuple that has not
    /// as many values as there are label names.
    #[verifier::external_body]
    pub(crate) fn child(&self, label_values: &Vec<&str>) -> (found: Option<IntCounter>)
        ensures
            found is Some <==> label_values@.len() == label_count(*self),
        opens_invariants none
        no_unwind
    {
        match self.inner.get_metric_with_label_values(label_values.as_slice()) {
            Ok(inner) => Some(IntCounter { inner }),
            Err(_) => None,
        }
    }
}

} // verus!
