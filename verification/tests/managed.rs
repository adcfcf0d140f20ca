use std::cell::Cell;
use std::rc::Rc;

use completion_bridge::error::BoundaryError;
use completion_bridge::lifecycle::{BuildMode, Lifecycle};
use completion_bridge::managed::{
    run_future_on_runtime, spawn_on_runtime, Action, Delivery, Event, FutureCompleter, Outcome,
};
use completion_bridge::runtime::AsyncRuntime;

type Failure = BoundaryError<&'static str, &'static str, &'static str>;
type Exchange = Delivery<i32, &'static str, &'static str, &'static str, &'static str>;
type Step = Action<i32, &'static str, &'static str, &'static str, &'static str>;
type Answer = Event<&'static str, &'static str, &'static str>;

/// A runtime that executes each computation on the spot and counts them.
struct Inline {
    spawned: Cell<usize>,
}

impl<F: FnOnce()> AsyncRuntime<F> for Inline {
    fn run_future(&self, future: F) {
        self.spawned.set(self.spawned.get() + 1);
        future()
    }
}

fn start(result: Result<i32, Failure>) -> Exchange {
    let mut completer: FutureCompleter<&str, i32> = FutureCompleter::bound_to("future");
    let (future, delivery) = completer.complete_with_extra_args_to_drop(result, "extra").unwrap();
    assert_eq!(future, "future");
    delivery
}

/// Feeds `events` to `delivery` and collects what it asks for.
fn play(mut delivery: Exchange, events: Vec<Answer>) -> (Exchange, Vec<Step>) {
    let mut actions = Vec::new();
    for event in events {
        let (next, action) = delivery.step(event);
        delivery = next;
        actions.push(action);
    }
    (delivery, actions)
}

fn notifications(actions: &[Step]) -> usize {
    actions
        .iter()
        .filter(|action| matches!(action, Action::Finish { outcome, .. } if outcome.notified()))
        .count()
}

fn invocations(actions: &[Step]) -> usize {
    actions
        .iter()
        .filter(|action| {
            matches!(action, Action::CompleteSuccess(_) | Action::CompleteWithError(_))
        })
        .count()
}

#[test]
fn complete_starts_a_delivery_that_waits_to_be_attached() {
    let mut completer: FutureCompleter<&str, i32> = FutureCompleter::bound_to("future");
    let result: Result<i32, Failure> = Ok(42);
    let started = completer.complete(result);
    assert_eq!(
        started,
        Some(("future", Delivery::Attaching { result: Ok(42), extra_args_to_drop: () }))
    );
    assert_eq!(completer.lifecycle(), Lifecycle::Consumed);
}

#[test]
fn complete_with_extra_args_keeps_them_for_the_end() {
    let mut completer: FutureCompleter<&str, i32> = FutureCompleter::bound_to("future");
    let result: Result<i32, Failure> = Err(BoundaryError::Domain("no such user"));
    let started = completer.complete_with_extra_args_to_drop(result, vec![1u8, 2, 3]);
    assert_eq!(
        started,
        Some((
            "future",
            Delivery::Attaching {
                result: Err(BoundaryError::Domain("no such user")),
                extra_args_to_drop: vec![1u8, 2, 3],
            }
        ))
    );
}

#[test]
fn completing_twice_starts_one_delivery() {
    let mut completer: FutureCompleter<&str, i32> = FutureCompleter::bound_to("future");
    let first: Result<i32, Failure> = Ok(1);
    let second: Result<i32, Failure> = Ok(2);
    assert!(completer.complete(first).is_some());
    assert_eq!(completer.complete(second), None);
    assert_eq!(completer.discard(BuildMode::Development), None);
}

#[test]
fn a_value_is_delivered_by_the_success_operation() {
    let (end, actions) =
        play(start(Ok(42)), vec![Event::Attached, Event::Completed(Ok(Ok(())))]);
    assert_eq!(
        actions,
        vec![
            Action::CompleteSuccess(42),
            Action::Finish { outcome: Outcome::DeliveredSuccess, extra_args_to_drop: "extra" },
        ]
    );
    assert_eq!(end, Delivery::Settled(Outcome::DeliveredSuccess));
    assert_eq!(notifications(&actions), 1);
}

#[test]
fn an_error_is_delivered_by_the_error_operation() {
    let (end, actions) = play(
        start(Err(BoundaryError::Domain("no such user"))),
        vec![Event::Attached, Event::Reported],
    );
    assert_eq!(
        actions,
        vec![
            Action::CompleteWithError(BoundaryError::Domain("no such user")),
            Action::Finish { outcome: Outcome::DeliveredError, extra_args_to_drop: "extra" },
        ]
    );
    assert_eq!(end, Delivery::Settled(Outcome::DeliveredError));
    assert_eq!(notifications(&actions), 1);
}

#[test]
fn a_failed_attachment_invokes_nothing_and_is_logged() {
    let (end, actions) = play(start(Ok(42)), vec![Event::AttachFailed]);
    assert_eq!(
        actions,
        vec![Action::Finish { outcome: Outcome::AttachFailed, extra_args_to_drop: "extra" }]
    );
    assert_eq!(end, Delivery::Settled(Outcome::AttachFailed));
    assert_eq!(invocations(&actions), 0);
    assert_eq!(notifications(&actions), 0);
    assert!(Outcome::AttachFailed.logs_failure());
    assert!(!Outcome::AttachFailed.notified());
    assert!(!Outcome::AttachFailed.attached());
}

#[test]
fn a_failed_attachment_drops_an_error_too() {
    let (end, actions) =
        play(start(Err(BoundaryError::Domain("no such user"))), vec![Event::AttachFailed]);
    assert_eq!(
        actions,
        vec![Action::Finish { outcome: Outcome::AttachFailed, extra_args_to_drop: "extra" }]
    );
    assert_eq!(end, Delivery::Settled(Outcome::AttachFailed));
}

#[test]
fn a_success_operation_that_fails_is_followed_by_the_error_operation() {
    let declined = BoundaryError::ConversionFailure("does not fit");
    let (end, actions) = play(
        start(Ok(42)),
        vec![Event::Attached, Event::Completed(Ok(Err(declined))), Event::Reported],
    );
    assert_eq!(
        actions,
        vec![
            Action::CompleteSuccess(42),
            Action::CompleteWithError(BoundaryError::ConversionFailure("does not fit")),
            Action::Finish { outcome: Outcome::DeliveredError, extra_args_to_drop: "extra" },
        ]
    );
    assert_eq!(end, Delivery::Settled(Outcome::DeliveredError));
    assert_eq!(notifications(&actions), 1);
}

#[test]
fn a_failure_raised_during_delivery_is_reported_as_unexpected() {
    let (end, actions) = play(
        start(Ok(42)),
        vec![Event::Attached, Event::Completed(Err("boom")), Event::Reported],
    );
    assert_eq!(
        actions,
        vec![
            Action::CompleteSuccess(42),
            Action::CompleteWithError(BoundaryError::UnexpectedInternalFailure("boom")),
            Action::Finish { outcome: Outcome::DeliveredError, extra_args_to_drop: "extra" },
        ]
    );
    assert_eq!(end, Delivery::Settled(Outcome::DeliveredError));
}

#[test]
fn a_failure_in_delivery_looks_like_a_failure_in_the_computation() {
    let (_, during_delivery) =
        play(start(Ok(42)), vec![Event::Attached, Event::Completed(Err("boom"))]);
    let isolated = completion_bridge::isolation::isolate(Err("boom"));
    let (_, during_computation) = play(start(isolated), vec![Event::Attached]);
    assert_eq!(during_delivery.last(), during_computation.last());
    assert_eq!(
        during_computation,
        vec![Action::CompleteWithError(BoundaryError::UnexpectedInternalFailure("boom"))]
    );
}

#[test]
fn a_failed_error_operation_is_only_logged() {
    let (end, actions) = play(
        start(Err(BoundaryError::Domain("no such user"))),
        vec![Event::Attached, Event::ReportFailed],
    );
    assert_eq!(
        actions,
        vec![
            Action::CompleteWithError(BoundaryError::Domain("no such user")),
            Action::Finish { outcome: Outcome::ReportFailed, extra_args_to_drop: "extra" },
        ]
    );
    assert_eq!(end, Delivery::Settled(Outcome::ReportFailed));
    assert_eq!(notifications(&actions), 0);
    assert!(Outcome::ReportFailed.logs_failure());
    assert!(!Outcome::ReportFailed.notified());
    assert!(Outcome::ReportFailed.attached());
}

#[test]
fn a_failure_raised_by_the_error_operation_is_only_logged() {
    let (end, actions) = play(
        start(Err(BoundaryError::Domain("no such user"))),
        vec![Event::Attached, Event::ReportRaised("boom")],
    );
    assert_eq!(
        actions,
        vec![
            Action::CompleteWithError(BoundaryError::Domain("no such user")),
            Action::Finish { outcome: Outcome::ReportFailed, extra_args_to_drop: "extra" },
        ]
    );
    assert_eq!(end, Delivery::Settled(Outcome::ReportFailed));
    assert_eq!(notifications(&actions), 0);
    assert_eq!(invocations(&actions), 1);
}

#[test]
fn a_failure_raised_by_both_operations_ends_the_delivery() {
    let (end, actions) = play(
        start(Ok(42)),
        vec![Event::Attached, Event::Completed(Err("boom")), Event::ReportRaised("again")],
    );
    assert_eq!(
        actions,
        vec![
            Action::CompleteSuccess(42),
            Action::CompleteWithError(BoundaryError::UnexpectedInternalFailure("boom")),
            Action::Finish { outcome: Outcome::ReportFailed, extra_args_to_drop: "extra" },
        ]
    );
    assert_eq!(end, Delivery::Settled(Outcome::ReportFailed));
    assert_eq!(notifications(&actions), 0);
}

#[test]
fn delivered_outcomes_need_no_log() {
    for outcome in [Outcome::DeliveredSuccess, Outcome::DeliveredError] {
        assert!(outcome.notified());
        assert!(!outcome.logs_failure());
        assert!(outcome.attached());
    }
}

#[test]
fn events_that_answer_no_open_step_are_ignored() {
    let (state, actions) = play(
        start(Ok(42)),
        vec![
            Event::Reported,
            Event::ReportFailed,
            Event::ReportRaised("boom"),
            Event::Completed(Ok(Ok(()))),
        ],
    );
    assert_eq!(actions, vec![Action::Ignore, Action::Ignore, Action::Ignore, Action::Ignore]);
    assert_eq!(state, Delivery::Attaching { result: Ok(42), extra_args_to_drop: "extra" });

    let (state, actions) = play(
        state,
        vec![
            Event::Attached,
            Event::Attached,
            Event::AttachFailed,
            Event::Reported,
            Event::ReportRaised("boom"),
        ],
    );
    assert_eq!(
        actions,
        vec![
            Action::CompleteSuccess(42),
            Action::Ignore,
            Action::Ignore,
            Action::Ignore,
            Action::Ignore,
        ]
    );
    assert_eq!(state, Delivery::Completing { extra_args_to_drop: "extra" });

    let (state, actions) = play(
        state,
        vec![
            Event::Completed(Err("boom")),
            Event::Completed(Ok(Ok(()))),
            Event::Attached,
            Event::AttachFailed,
        ],
    );
    assert_eq!(
        actions,
        vec![
            Action::CompleteWithError(BoundaryError::UnexpectedInternalFailure("boom")),
            Action::Ignore,
            Action::Ignore,
            Action::Ignore,
        ]
    );
    assert_eq!(state, Delivery::Reporting { extra_args_to_drop: "extra" });
}

#[test]
fn a_settled_delivery_stays_settled() {
    let (state, _) = play(start(Ok(42)), vec![Event::Attached, Event::Completed(Ok(Ok(())))]);
    let (state, actions) = play(
        state,
        vec![
            Event::Attached,
            Event::AttachFailed,
            Event::Completed(Err("boom")),
            Event::Reported,
            Event::ReportFailed,
            Event::ReportRaised("boom"),
        ],
    );
    assert_eq!(actions.len(), 6);
    assert!(actions.iter().all(|action| *action == Action::Ignore));
    assert_eq!(state, Delivery::Settled(Outcome::DeliveredSuccess));
}

#[test]
fn no_run_notifies_twice() {
    let events = || {
        vec![
            Event::Attached,
            Event::Completed(Ok(Ok(()))),
            Event::Reported,
            Event::Attached,
            Event::Completed(Ok(Ok(()))),
            Event::Reported,
        ]
    };
    let (_, actions) = play(start(Ok(42)), events());
    assert_eq!(notifications(&actions), 1);
    assert_eq!(invocations(&actions), 1);
    let (_, actions) = play(start(Err(BoundaryError::Domain("no such user"))), events());
    assert_eq!(notifications(&actions), 1);
    assert_eq!(invocations(&actions), 1);
}

#[test]
fn a_failed_construction_is_reported_at_once_and_nothing_runs() {
    let runtime = Inline { spawned: Cell::new(0) };
    let built = Rc::new(Cell::new(false));
    let probe = built.clone();
    let future: Result<&str, &str> = run_future_on_runtime(
        || Err::<(&str, &str), &str>("no such class"),
        &runtime,
        move |mut completer: FutureCompleter<&str, i32>| {
            probe.set(true);
            move || {
                let result: Result<i32, Failure> = Ok(42);
                let _ = completer.complete(result);
            }
        },
    );
    assert_eq!(future, Err("no such class"));
    assert_eq!(runtime.spawned.get(), 0);
    assert!(!built.get());
}

#[test]
fn a_constructed_future_is_returned_and_its_computation_spawned() {
    let runtime = Inline { spawned: Cell::new(0) };
    let started = Rc::new(Cell::new(None));
    let probe = started.clone();
    let future: Result<&str, &str> = run_future_on_runtime(
        || Ok(("local", "durable")),
        &runtime,
        move |mut completer: FutureCompleter<&str, i32>| {
            move || {
                let result: Result<i32, Failure> = Ok(42);
                let (future, _) = completer.complete(result).unwrap();
                probe.set(Some(future));
            }
        },
    );
    assert_eq!(future, Ok("local"));
    assert_eq!(runtime.spawned.get(), 1);
    assert_eq!(started.get(), Some("durable"));
}

#[test]
fn spawning_for_a_failed_construction_spawns_nothing() {
    let runtime = Inline { spawned: Cell::new(0) };
    let created: Result<(&str, &str), &str> = Err("no such class");
    let future =
        spawn_on_runtime(created, &runtime, |completer: FutureCompleter<&str, i32>| {
            move || drop(completer)
        });
    assert_eq!(future, Err("no such class"));
    assert_eq!(runtime.spawned.get(), 0);
}

#[test]
fn spawning_for_a_constructed_future_binds_a_fresh_completer() {
    let runtime = Inline { spawned: Cell::new(0) };
    let seen = Rc::new(Cell::new(None));
    let probe = seen.clone();
    let created: Result<(&str, &str), &str> = Ok(("local", "durable"));
    let future = spawn_on_runtime(created, &runtime, move |completer: FutureCompleter<&str, i32>| {
        probe.set(Some(completer.lifecycle()));
        move || drop(completer)
    });
    assert_eq!(future, Ok("local"));
    assert_eq!(seen.get(), Some(Lifecycle::Created));
    assert_eq!(runtime.spawned.get(), 1);
}
