use metric_guards::{DeferredAddWithLabels, IntCounterWithLabels, Labels};

#[derive(Clone, Copy, Debug, PartialEq, Eq)]
enum Status {
    Pending,
    Success,
    Failed,
}

impl Labels for Status {
    fn label_names() -> Vec<&'static str> {
        vec!["status"]
    }

    fn label_values(&self) -> Vec<&str> {
        match self {
            Status::Pending => vec!["pending"],
            Status::Success => vec!["ok"],
            Status::Failed => vec!["failed"],
        }
    }
}

struct Route {
    method: String,
    path: String,
}

impl Labels for Route {
    fn label_names() -> Vec<&'static str> {
        vec!["method", "path"]
    }

    fn label_values(&self) -> Vec<&str> {
        vec![self.method.as_str(), self.path.as_str()]
    }
}

struct Lopsided;

impl Labels for Lopsided {
    fn label_names() -> Vec<&'static str> {
        vec!["one", "two"]
    }

    fn label_values(&self) -> Vec<&str> {
        vec!["only"]
    }
}

struct Doubled;

impl Labels for Doubled {
    fn label_names() -> Vec<&'static str> {
        vec!["same", "same"]
    }

    fn label_values(&self) -> Vec<&str> {
        vec!["a", "b"]
    }
}

fn route(method: &str, path: &str) -> Route {
    Route { method: method.to_string(), path: path.to_string() }
}

fn outcomes(name: &str) -> IntCounterWithLabels<Status> {
    IntCounterWithLabels::new(name, "outcomes in a test").expect("the name is a metric name")
}

#[test]
fn relabeled_deferred_inc_counts_under_the_last_labels() {
    let outcomes_total = outcomes("outcomes_total");
    assert_eq!(outcomes_total.get(&Status::Success), Some(0));
    assert_eq!(outcomes_total.get(&Status::Pending), Some(0));
    let guard = outcomes_total.deferred_inc(Status::Pending);
    let guard = guard.with_labels(Status::Success);
    drop(guard);
    assert_eq!(outcomes_total.get(&Status::Success), Some(1));
    assert_eq!(outcomes_total.get(&Status::Pending), Some(0));
}

#[test]
fn labeled_deferred_add_waits_for_the_end_of_the_scope() {
    let counter = outcomes("waits_total");
    {
        let _guard = counter.deferred_add(5, Status::Failed);
        assert_eq!(counter.get(&Status::Failed), Some(0));
    }
    assert_eq!(counter.get(&Status::Failed), Some(5));
    assert_eq!(counter.get(&Status::Success), Some(0));
}

#[test]
fn new_guard_adds_its_value_under_its_labels() {
    let counter = outcomes("direct_total");
    let guard = DeferredAddWithLabels::new(&counter, 8, Status::Success);
    assert_eq!(counter.get(&Status::Success), Some(0));
    drop(guard);
    assert_eq!(counter.get(&Status::Success), Some(8));
}

#[test]
fn labels_can_be_replaced_more_than_once() {
    let counter = outcomes("replaced_total");
    counter
        .deferred_add(2, Status::Pending)
        .with_labels(Status::Failed)
        .with_labels(Status::Pending)
        .with_labels(Status::Success)
        .complete_add();
    assert_eq!(counter.get(&Status::Success), Some(2));
    assert_eq!(counter.get(&Status::Failed), Some(0));
    assert_eq!(counter.get(&Status::Pending), Some(0));
}

#[test]
fn labeled_complete_add_adds_at_once_and_only_once() {
    let counter = outcomes("complete_total");
    let guard = counter.deferred_add(3, Status::Success);
    guard.complete_add();
    assert_eq!(counter.get(&Status::Success), Some(3));
}

#[test]
fn labeled_cancel_suppresses_the_add() {
    let counter = outcomes("canceled_total");
    let mut guard = counter.deferred_add(5, Status::Success);
    guard.cancel();
    guard.cancel();
    drop(guard);
    assert_eq!(counter.get(&Status::Success), Some(0));
}

#[test]
fn with_labels_after_cancel_stays_inert() {
    let counter = outcomes("inert_total");
    let mut guard = counter.deferred_inc(Status::Pending);
    guard.cancel();
    let guard = guard.with_labels(Status::Success);
    guard.complete_add();
    assert_eq!(counter.get(&Status::Success), Some(0));
    assert_eq!(counter.get(&Status::Pending), Some(0));
}

#[test]
fn cancel_after_with_labels_suppresses_the_add() {
    let counter = outcomes("late_cancel_total");
    let mut guard = counter.deferred_inc(Status::Pending).with_labels(Status::Failed);
    guard.cancel();
    drop(guard);
    assert_eq!(counter.get(&Status::Failed), Some(0));
    assert_eq!(counter.get(&Status::Pending), Some(0));
}

#[test]
fn add_and_inc_raise_the_counter_of_the_labels() {
    let counter = outcomes("plain_total");
    counter.inc(&Status::Success);
    counter.add(4, &Status::Success);
    counter.add(10, &Status::Failed);
    assert_eq!(counter.get(&Status::Success), Some(5));
    assert_eq!(counter.get(&Status::Failed), Some(10));
    assert_eq!(counter.get(&Status::Pending), Some(0));
}

#[test]
fn counters_are_split_by_every_label() {
    let routes: IntCounterWithLabels<Route> =
        IntCounterWithLabels::new("route_total", "requests by route").expect("valid");
    routes.deferred_inc(route("GET", "/")).complete_add();
    routes.deferred_add(2, route("GET", "/")).with_labels(route("POST", "/")).complete_add();
    assert_eq!(routes.get(&route("GET", "/")), Some(1));
    assert_eq!(routes.get(&route("POST", "/")), Some(2));
    assert_eq!(routes.get(&route("POST", "/x")), Some(0));
}

#[test]
fn labels_of_another_length_find_no_counter() {
    let lopsided: IntCounterWithLabels<Lopsided> =
        IntCounterWithLabels::new("lopsided_total", "two names, one value").expect("valid");
    assert_eq!(lopsided.get(&Lopsided), None);
    lopsided.add(3, &Lopsided);
    lopsided.deferred_inc(Lopsided).complete_add();
    assert_eq!(lopsided.get(&Lopsided), None);
}

#[test]
fn labeled_counter_refuses_bad_names_and_empty_help() {
    assert!(IntCounterWithLabels::<Status>::new("outcomes_total", "").is_none());
    assert!(IntCounterWithLabels::<Status>::new("", "help").is_none());
    assert!(IntCounterWithLabels::<Status>::new("1st", "help").is_none());
    assert!(IntCounterWithLabels::<Status>::new("outcomes_total", "help").is_some());
}

#[test]
fn labeled_counter_refuses_a_label_that_occurs_twice() {
    assert!(IntCounterWithLabels::<Doubled>::new("doubled_total", "help").is_none());
    let names = vec!["same", "other", "same"];
    assert!(IntCounterWithLabels::<Status>::with_label_names("d_total", "help", &names).is_none());
}

#[test]
fn labeled_counter_refuses_what_is_no_label_name() {
    let colon = vec!["a:b"];
    let empty = vec![""];
    let digit = vec!["2nd"];
    let fine = vec!["_ok1", "Other"];
    assert!(IntCounterWithLabels::<Status>::with_label_names("c_total", "help", &colon).is_none());
    assert!(IntCounterWithLabels::<Status>::with_label_names("c_total", "help", &empty).is_none());
    assert!(IntCounterWithLabels::<Status>::with_label_names("c_total", "help", &digit).is_none());
    assert!(IntCounterWithLabels::<Status>::with_label_names("c_total", "help", &fine).is_some());
}

#[test]
fn labeled_counter_can_be_made_without_labels() {
    let none: Vec<&str> = Vec::new();
    assert!(IntCounterWithLabels::<Status>::with_label_names("bare_total", "help", &none).is_some());
}

#[test]
fn get_at_finds_a_counter_for_as_many_values_as_labels() {
    let names = vec!["method", "path"];
    let routes: IntCounterWithLabels<Route> =
        IntCounterWithLabels::with_label_names("at_total", "requests by route", &names)
            .expect("valid");
    assert_eq!(routes.get_at(&vec!["GET", "/"]), Some(0));
    assert_eq!(routes.get_at(&vec!["GET"]), None);
    assert_eq!(routes.get_at(&vec!["GET", "/", "extra"]), None);
    assert_eq!(routes.get_at(&Vec::new()), None);
}

#[test]
fn add_at_says_whether_it_found_the_counter() {
    let names = vec!["method", "path"];
    let routes: IntCounterWithLabels<Route> =
        IntCounterWithLabels::with_label_names("add_at_total", "requests by route", &names)
            .expect("valid");
    assert!(routes.add_at(6, &vec!["PUT", "/a"]));
    assert!(routes.add_at(1, &vec!["PUT", "/a"]));
    assert!(!routes.add_at(9, &vec!["PUT"]));
    assert!(!routes.add_at(9, &vec!["PUT", "/a", "b"]));
    assert_eq!(routes.get_at(&vec!["PUT", "/a"]), Some(7));
    assert_eq!(routes.get(&route("PUT", "/a")), Some(7));
}

#[test]
fn counters_without_labels_are_found_by_the_empty_tuple() {
    let none: Vec<&str> = Vec::new();
    let bare: IntCounterWithLabels<Status> =
        IntCounterWithLabels::with_label_names("bare_at_total", "help", &none).expect("valid");
    assert!(bare.add_at(2, &none));
    assert_eq!(bare.get_at(&none), Some(2));
    assert_eq!(bare.get(&Status::Success), None);
}

#[test]
fn due_gives_the_amount_and_the_last_labels() {
    let counter = outcomes("due_total");
    let guard = counter.deferred_add(5, Status::Pending);
    assert_eq!(guard.due(), Some((5, &Status::Pending)));
    let mut guard = guard.with_labels(Status::Failed).with_labels(Status::Success);
    assert_eq!(guard.due(), Some((5, &Status::Success)));
    guard.cancel();
    assert_eq!(guard.due(), None);
    let guard = guard.with_labels(Status::Pending);
    assert_eq!(guard.due(), None);
    assert_eq!(counter.get(&Status::Success), Some(0));
}

#[test]
fn labeled_release_returns_what_it_added_and_adds_once() {
    let counter = outcomes("release_total");
    let mut guard = counter.deferred_add(5, Status::Pending).with_labels(Status::Success);
    assert_eq!(guard.release(), Some((5, true)));
    assert_eq!(guard.due(), None);
    assert_eq!(counter.get(&Status::Success), Some(5));
    assert_eq!(guard.release(), None);
    drop(guard);
    assert_eq!(counter.get(&Status::Success), Some(5));
    assert_eq!(counter.get(&Status::Pending), Some(0));
}

#[test]
fn labeled_complete_add_returns_what_it_added() {
    let counter = outcomes("told_total");
    assert_eq!(counter.deferred_inc(Status::Success).complete_add(), Some((1, true)));
    let mut canceled = counter.deferred_add(9, Status::Success);
    canceled.cancel();
    assert_eq!(canceled.complete_add(), None);
    assert_eq!(counter.get(&Status::Success), Some(1));
}

#[test]
fn release_under_labels_of_another_length_says_that_nothing_was_found() {
    let lopsided: IntCounterWithLabels<Lopsided> =
        IntCounterWithLabels::new("lost_total", "two names, one value").expect("valid");
    assert!(!lopsided.add(3, &Lopsided));
    assert!(!lopsided.inc(&Lopsided));
    let mut guard = lopsided.deferred_add(4, Lopsided);
    assert_eq!(guard.release(), Some((4, false)));
    assert_eq!(guard.release(), None);
    assert_eq!(lopsided.deferred_inc(Lopsided).complete_add(), Some((1, false)));
    assert_eq!(lopsided.get_at(&vec!["a", "b"]), Some(0));
}

#[test]
fn add_and_inc_say_that_they_found_the_counter() {
    let counter = outcomes("found_total");
    assert!(counter.add(2, &Status::Failed));
    assert!(counter.inc(&Status::Failed));
    assert_eq!(counter.get(&Status::Failed), Some(3));
}

#[test]
fn registered_labeled_counter_is_gathered_by_label() {
    let registry = prometheus::Registry::new();
    let counter = outcomes("exported_total");
    assert!(counter.register(&registry));
    assert!(!counter.register(&registry));
    counter.deferred_add(2, Status::Pending).with_labels(Status::Success).complete_add();
    let families = registry.gather();
    assert_eq!(families.len(), 1);
    assert_eq!(families[0].get_name(), "exported_total");
    let metrics = families[0].get_metric();
    assert_eq!(metrics.len(), 1);
    assert_eq!(metrics[0].get_label()[0].get_name(), "status");
    assert_eq!(metrics[0].get_label()[0].get_value(), "ok");
    assert_eq!(metrics[0].get_counter().get_value(), 2.0);
}
