//! Completion of a future object that lives in a managed runtime.
//!
//! The destination is a long-lived foreign object with two operations, one
//! that completes it with a value and one that completes it with an error. It
//! can only be reached from a thread that is attached to the managed runtime,
//! so a delivery is a short exchange: attach, notify, release, each step
//! performed by the caller and answered with an [`Event`].
//!
//! Both operations of the destination run foreign code, so the caller runs
//! both under protection. A failure raised by the success operation is
//! reported to the destination as an error. A failure raised by the error
//! operation has nowhere to go: it is caught, logged, and ends the delivery.

use vstd::prelude::*;
use core::marker::PhantomData;
use crate::error::BoundaryError;
use crate::isolation::{isolate, isolated};
use crate::lifecycle::{BuildMode, LeakDiagnostic, Lifecycle, Operation, Slot};
use crate::runtime::AsyncRuntime;

verus! {

/// How a delivery ended.
#[derive(Clone, Copy, Debug, PartialEq, Eq, Structural)]
pub enum Outcome {
    /// The destination confirmed the value.
    DeliveredSuccess,
    /// The destination confirmed the error.
    DeliveredError,
    /// The thread could not be attached to the managed runtime. No operation
    /// of the destination was invoked, and no channel is left to say so: the
    /// failure is only logged.
    AttachFailed,
    /// The destination's own error operation failed, or raised a failure,
    /// while it was used to report an error. There is no further fallback:
    /// the failure is only logged.
    ReportFailed,
}

impl Outcome {
    /// Whether the destination has received its notification.
    pub open spec fn spec_notified(self) -> bool {
        self == Outcome::DeliveredSuccess || self == Outcome::DeliveredError
    }

    /// Whether the destination has received its notification.
    #[verifier::when_used_as_spec(spec_notified)]
    pub fn notified(self) -> (notified: bool)
        ensures
            notified == self.spec_notified(),
    {
        match self {
            Outcome::DeliveredSuccess | Outcome::DeliveredError => true,
            Outcome::AttachFailed | Outcome::ReportFailed => false,
        }
    }

    /// Whether the delivery ended in a failure that has to be logged.
    pub open spec fn spec_logs_failure(self) -> bool {
        !self.spec_notified()
    }

    /// Whether the delivery ended in a failure that has to be logged.
    #[verifier::when_used_as_spec(spec_logs_failure)]
    pub fn logs_failure(self) -> (logs: bool)
        ensures
            logs == self.spec_logs_failure(),
    {
        !self.notified()
    }

    /// Whether the thread is attached to the managed runtime when the delivery
    /// ends, so that what needs the attachment can be released safely.
    pub open spec fn spec_attached(self) -> bool {
        self != Outcome::AttachFailed
    }

    /// Whether the thread is attached to the managed runtime when the delivery
    /// ends, so that what needs the attachment can be released safely.
    #[verifier::when_used_as_spec(spec_attached)]
    pub fn attached(self) -> (attached: bool)
        ensures
            attached == self.spec_attached(),
    {
        match self {
            Outcome::AttachFailed => false,
            _ => true,
        }
    }
}

/// What the caller reports back after it has performed a step.
#[derive(Debug, PartialEq, Eq)]
pub enum Event<D, C, P> {
    /// The current thread is attached to the managed runtime.
    Attached,
    /// The current thread could not be attached.
    AttachFailed,
    /// The protected run of the success operation has ended: it finished,
    /// confirmed or with an error, or it raised a failure with a payload. A
    /// conversion that declined is a conversion failure; a success operation
    /// that the destination refused is an unexpected internal failure.
    Completed(Result<Result<(), BoundaryError<D, C, P>>, P>),
    /// The protected run of the error operation has ended, and the
    /// destination confirmed the error.
    Reported,
    /// The protected run of the error operation has ended, and the conversion
    /// of the error or the destination's error operation failed.
    ReportFailed,
    /// The protected run of the error operation raised a failure with a
    /// payload. The failure goes no further than this: the delivery ends as
    /// for an error operation that failed, and the payload is let go.
    ReportRaised(P),
}

/// What the caller has to do next.
#[derive(Debug, PartialEq, Eq)]
pub enum Action<T, D, C, P, U> {
    /// Under protection, convert the value and invoke the destination's
    /// success operation with it. Answer with [`Event::Completed`].
    CompleteSuccess(T),
    /// Under protection, convert the error and invoke the destination's error
    /// operation with it. Answer with [`Event::Reported`], with
    /// [`Event::ReportFailed`], or with [`Event::ReportRaised`] where the run
    /// raised a failure.
    CompleteWithError(BoundaryError<D, C, P>),
    /// The delivery is over. Log the failure if `outcome` is one, then release
    /// `extra_args_to_drop` and the destination handle, and only then detach
    /// the thread if it is attached.
    Finish { outcome: Outcome, extra_args_to_drop: U },
    /// The event does not answer any step that is open. Nothing is to be done.
    Ignore,
}

impl<T, D, C, P, U> Action<T, D, C, P, U> {
    /// Whether this action invokes the destination's success operation.
    pub open spec fn invokes_success(self) -> bool {
        self is CompleteSuccess
    }

    /// Whether this action invokes the destination's error operation.
    pub open spec fn invokes_error(self) -> bool {
        self is CompleteWithError
    }

    /// Whether this action ends a delivery in which the destination has
    /// received its notification.
    pub open spec fn notifies(self) -> bool {
        self matches Action::Finish { outcome, .. } && outcome.spec_notified()
    }
}

/// A delivery in progress.
#[derive(Debug, PartialEq, Eq)]
pub enum Delivery<T, D, C, P, U> {
    /// Waiting for the thread to be attached to the managed runtime.
    Attaching { result: Result<T, BoundaryError<D, C, P>>, extra_args_to_drop: U },
    /// Waiting for the protected run of the success operation.
    Completing { extra_args_to_drop: U },
    /// Waiting for the error operation.
    Reporting { extra_args_to_drop: U },
    /// Over.
    Settled(Outcome),
}

impl<T, D, C, P, U> Delivery<T, D, C, P, U> {
    /// The delivery of `result` that waits for the thread to be attached.
    pub open spec fn attaching(
        result: Result<T, BoundaryError<D, C, P>>,
        extra_args_to_drop: U,
    ) -> Self {
        Delivery::Attaching { result, extra_args_to_drop }
    }

    /// The delivery that waits for the protected run of the success operation.
    pub open spec fn completing(extra_args_to_drop: U) -> Self {
        Delivery::Completing { extra_args_to_drop }
    }

    /// The delivery that waits for the protected run of the error operation.
    pub open spec fn reporting(extra_args_to_drop: U) -> Self {
        Delivery::Reporting { extra_args_to_drop }
    }

    /// Whether this delivery is over and ended as `outcome` says.
    pub open spec fn ended_as(self, outcome: Outcome) -> bool {
        self == Delivery::<T, D, C, P, U>::Settled(outcome)
    }

    /// Whether this delivery is over and the destination has received its
    /// notification.
    pub open spec fn notified(self) -> bool {
        self matches Delivery::Settled(outcome) && outcome.spec_notified()
    }

    /// The state and the action that follow when `event` arrives in `self`.
    pub open spec fn next(self, event: Event<D, C, P>) -> (Self, Action<T, D, C, P, U>) {
        match (self, event) {
            (Delivery::Attaching { result: Ok(value), extra_args_to_drop }, Event::Attached) => (
                Delivery::Completing { extra_args_to_drop },
                Action::CompleteSuccess(value),
            ),
            (Delivery::Attaching { result: Err(error), extra_args_to_drop }, Event::Attached) => (
                Delivery::Reporting { extra_args_to_drop },
                Action::CompleteWithError(error),
            ),
            (Delivery::Attaching { result: _, extra_args_to_drop }, Event::AttachFailed) => (
                Delivery::Settled(Outcome::AttachFailed),
                Action::Finish { outcome: Outcome::AttachFailed, extra_args_to_drop },
            ),
            (Delivery::Completing { extra_args_to_drop }, Event::Completed(run)) => match isolated(
                run,
            ) {
                Ok(_) => (
                    Delivery::Settled(Outcome::DeliveredSuccess),
                    Action::Finish { outcome: Outcome::DeliveredSuccess, extra_args_to_drop },
                ),
                Err(error) => (
                    Delivery::Reporting { extra_args_to_drop },
                    Action::CompleteWithError(error),
                ),
            },
            (Delivery::Reporting { extra_args_to_drop }, Event::Reported) => (
                Delivery::Settled(Outcome::DeliveredError),
                Action::Finish { outcome: Outcome::DeliveredError, extra_args_to_drop },
            ),
            (Delivery::Reporting { extra_args_to_drop }, Event::ReportFailed) => (
                Delivery::Settled(Outcome::ReportFailed),
                Action::Finish { outcome: Outcome::ReportFailed, extra_args_to_drop },
            ),
            (Delivery::Reporting { extra_args_to_drop }, Event::ReportRaised(_)) => (
                Delivery::Settled(Outcome::ReportFailed),
                Action::Finish { outcome: Outcome::ReportFailed, extra_args_to_drop },
            ),
            (state, _) => (state, Action::Ignore),
        }
    }

    /// The state reached from `self` by `events`, taken in order, and the
    /// actions that they brought about.
    pub open spec fn run(self, events: Seq<Event<D, C, P>>) -> (Self, Seq<Action<T, D, C, P, U>>)
        decreases events.len(),
    {
        if events.len() == 0 {
            (self, Seq::empty())
        } else {
            let (state, action) = self.next(events[0]);
            let (end, actions) = state.run(events.skip(1));
            (end, seq![action] + actions)
        }
    }

    /// Takes `event` in and says what to do next.
    ///
    /// Once attached, a value is sent to the destination's success operation
    /// and an error to its error operation. A success operation that ends in
    /// an error, or that raises a failure, is followed by the error operation
    /// with that error or with an unexpected internal failure. A failure to
    /// attach, and an error operation that fails or raises a failure itself,
    /// end the delivery with nothing but a log entry. An event that answers no
    /// open step changes nothing.
    pub fn step(self, event: Event<D, C, P>) -> (next: (Self, Action<T, D, C, P, U>))
        ensures
            next == self.next(event),
    {
        match self {
            Delivery::Attaching { result, extra_args_to_drop } => match event {
                Event::Attached => match result {
                    Ok(value) => (
                        Delivery::Completing { extra_args_to_drop },
                        Action::CompleteSuccess(value),
                    ),
                    Err(error) => (
                        Delivery::Reporting { extra_args_to_drop },
                        Action::CompleteWithError(error),
                    ),
                },
                Event::AttachFailed => (
                    Delivery::Settled(Outcome::AttachFailed),
                    Action::Finish { outcome: Outcome::AttachFailed, extra_args_to_drop },
                ),
                _ => (Delivery::Attaching { result, extra_args_to_drop }, Action::Ignore),
            },
            Delivery::Completing { extra_args_to_drop } => match event {
                Event::Completed(run) => match isolate(run) {
                    Ok(_) => (
                        Delivery::Settled(Outcome::DeliveredSuccess),
                        Action::Finish { outcome: Outcome::DeliveredSuccess, extra_args_to_drop },
                    ),
                    Err(error) => (
                        Delivery::Reporting { extra_args_to_drop },
                        Action::CompleteWithError(error),
                    ),
                },
                _ => (Delivery::Completing { extra_args_to_drop }, Action::Ignore),
            },
            Delivery::Reporting { extra_args_to_drop } => match event {
                Event::Reported => (
                    Delivery::Settled(Outcome::DeliveredError),
                    Action::Finish { outcome: Outcome::DeliveredError, extra_args_to_drop },
                ),
                Event::ReportFailed | Event::ReportRaised(_) => (
                    Delivery::Settled(Outcome::ReportFailed),
                    Action::Finish { outcome: Outcome::ReportFailed, extra_args_to_drop },
                ),
                _ => (Delivery::Reporting { extra_args_to_drop }, Action::Ignore),
            },
            Delivery::Settled(outcome) => (Delivery::Settled(outcome), Action::Ignore),
        }
    }
}

/// Completes a future object of a managed runtime, from any thread, with one
/// result of type `T`. `H` is the durable handle of that object, together with
/// what is needed to attach a thread to its runtime.
pub struct FutureCompleter<H, T> {
    slot: Slot<H>,
    result_type: PhantomData<T>,
}

impl<H, T> FutureCompleter<H, T> {
    /// Where this completer stands.
    pub closed spec fn state(&self) -> Lifecycle {
        self.slot.state()
    }

    /// The destination handle that this completer still owns.
    pub closed spec fn destination(&self) -> Option<H> {
        self.slot.handle()
    }

    /// A completer owns its destination exactly as long as it has neither
    /// completed nor been discarded.
    pub proof fn lemma_owns_destination_while_created(&self)
        ensures
            self.destination() is Some <==> self.state() == Lifecycle::Created,
    {
    }

    /// What `complete_with_extra_args_to_drop` returns for `result` and
    /// `extra_args_to_drop`: the destination handle and the delivery that
    /// waits to be attached, or nothing for a completer that owns no
    /// destination any more.
    pub open spec fn starts<D, C, P, U>(
        &self,
        result: Result<T, BoundaryError<D, C, P>>,
        extra_args_to_drop: U,
    ) -> Option<(H, Delivery<T, D, C, P, U>)> {
        match self.destination() {
            Some(future) => Some((future, Delivery::attaching(result, extra_args_to_drop))),
            None => None,
        }
    }

    /// A completer for the future object behind `future`.
    pub fn bound_to(future: H) -> (completer: Self)
        ensures
            completer.state() == Lifecycle::Created,
            completer.destination() == Some(future),
    {
        FutureCompleter { slot: Slot::Created(future), result_type: PhantomData }
    }

    /// Where this completer stands.
    pub fn lifecycle(&self) -> (state: Lifecycle)
        ensures
            state == self.state(),
    {
        self.slot.lifecycle()
    }

    /// Starts the delivery of `result` to the future object.
    ///
    /// Returns the destination handle and the delivery, which waits for the
    /// thread to be attached. Returns `None` for a completer that has
    /// completed or was discarded before.
    pub fn complete<D, C, P>(&mut self, result: Result<T, BoundaryError<D, C, P>>) -> (started:
        Option<(H, Delivery<T, D, C, P, ()>)>)
        ensures
            final(self).state() == old(self).state().after(Operation::Complete),
            final(self).destination() is None,
            started == old(self).starts(result, ()),
            started is Some <==> old(self).state() == Lifecycle::Created,
    {
        self.complete_with_extra_args_to_drop(result, ())
    }

    /// Starts the delivery of `result` to the future object, and takes
    /// `extra_args_to_drop` along, to be released at the end of the delivery
    /// while the thread is still attached.
    ///
    /// The completer gives up its destination handle before anything else
    /// happens, so that it counts as completed however the delivery goes.
    /// Returns the handle and the delivery, which waits for the thread to be
    /// attached. Returns `None` for a completer that has completed or was
    /// discarded before.
    pub fn complete_with_extra_args_to_drop<D, C, P, U>(
        &mut self,
        result: Result<T, BoundaryError<D, C, P>>,
        extra_args_to_drop: U,
    ) -> (started: Option<(H, Delivery<T, D, C, P, U>)>)
        ensures
            final(self).state() == old(self).state().after(Operation::Complete),
            final(self).destination() is None,
            started == old(self).starts(result, extra_args_to_drop),
            started is Some <==> old(self).state() == Lifecycle::Created,
    {
        match self.slot.vacate(Operation::Complete) {
            None => None,
            Some(future) => Some((future, Delivery::Attaching { result, extra_args_to_drop })),
        }
    }

    /// Gives the completer up without completing it.
    ///
    /// For a completer that still owns its destination this is a defect: the
    /// future object will never be completed. Returns the diagnostic to raise
    /// for it in a build of kind `mode`, or `None` for a completer that has
    /// completed or was discarded before.
    pub fn discard(&mut self, mode: BuildMode) -> (diagnostic: Option<LeakDiagnostic>)
        ensures
            final(self).state() == old(self).state().after(Operation::Discard),
            final(self).destination() is None,
            diagnostic == if old(self).state() == Lifecycle::Created {
                Some(mode.leak_diagnostic())
            } else {
                None
            },
    {
        match self.slot.vacate(Operation::Discard) {
            None => None,
            Some(_) => Some(mode.leak_diagnostic()),
        }
    }
}

/// What the driver returns for a future object whose construction ended as
/// `created` says: the caller's handle of the new object, or the error that
/// the construction failed with.
pub open spec fn launched<J, H, E>(created: Result<(J, H), E>) -> Result<J, E> {
    match created {
        Ok((future, _)) => Ok(future),
        Err(error) => Err(error),
    }
}

/// Whether `make_future` has built a computation around a new completer that
/// is bound to the durable handle in `created`, if there is one. Nothing has
/// to be built for a construction that failed.
pub open spec fn built_for<J, H, T, E, W, M: FnOnce(FutureCompleter<H, T>) -> W>(
    make_future: M,
    created: Result<(J, H), E>,
) -> bool {
    created is Ok ==> exists|completer: FutureCompleter<H, T>, computation: W|
        #[trigger] make_future.ensures((completer,), computation) && completer.state()
            == Lifecycle::Created && completer.destination() == Some(created->Ok_0.1)
}

/// Whether `runtime` has taken over the computation that `make_future` built
/// around a new completer bound to the durable handle in `created`, if there
/// is one. Nothing has to be handed over for a construction that failed.
pub open spec fn spawned_for<J, H, T, E, W, R: AsyncRuntime<W>, M: FnOnce(FutureCompleter<H, T>) -> W>(
    runtime: &R,
    make_future: M,
    created: Result<(J, H), E>,
) -> bool {
    created is Ok ==> exists|completer: FutureCompleter<H, T>, computation: W|
        #[trigger] make_future.ensures((completer,), computation) && completer.state()
            == Lifecycle::Created && completer.destination() == Some(created->Ok_0.1)
            && call_ensures(R::run_future, (runtime, computation), ())
}

/// Spawns on `runtime` the computation that completes a future object whose
/// construction ended as `created` says.
///
/// A construction that succeeded yields two handles of the new object: the
/// caller's own, and the durable one that the completer keeps. The completer
/// is bound to the durable handle, `make_future` builds the computation
/// around it, `run_future` takes over exactly that computation, and the
/// caller's handle is returned. The driver itself never runs the computation.
/// A construction that failed is reported at once, and nothing is built or
/// spawned.
pub fn spawn_on_runtime<R, W, J, H, T, E, M>(
    created: Result<(J, H), E>,
    runtime: &R,
    make_future: M,
) -> (future: Result<J, E>) where R: AsyncRuntime<W>, M: FnOnce(FutureCompleter<H, T>) -> W
    requires
        created is Ok ==> forall|completer: FutureCompleter<H, T>|
            completer.state() == Lifecycle::Created && completer.destination() == Some(
                created->Ok_0.1,
            ) ==> make_future.requires((completer,)),
    ensures
        future == launched(created),
        built_for(make_future, created),
        spawned_for(runtime, make_future, created),
{
    match created {
        Err(error) => Err(error),
        Ok((future, durable)) => {
            let completer = FutureCompleter::bound_to(durable);
            let computation = make_future(completer);
            runtime.run_future(computation);
            Ok(future)
        },
    }
}

/// Spawns a computation on `runtime` and returns the new future object that
/// will hold its result.
///
/// Constructs the future object first, with `create`. If that fails, the
/// failure is returned at once and no computation is built or spawned: this is
/// the one failure that reaches the caller directly and not through a
/// completer. Otherwise the computation that `make_future` builds around the
/// new completer goes to the runtime, and the caller gets its handle of the
/// future object to await the result.
pub fn run_future_on_runtime<N, R, W, J, H, T, E, M>(
    create: N,
    runtime: &R,
    make_future: M,
) -> (future: Result<J, E>) where
    N: FnOnce() -> Result<(J, H), E>,
    R: AsyncRuntime<W>,
    M: FnOnce(FutureCompleter<H, T>) -> W,

    requires
        create.requires(()),
        forall|created: Result<(J, H), E>, completer: FutureCompleter<H, T>|
            create.ensures((), created) && created is Ok && completer.state() == Lifecycle::Created
                && completer.destination() == Some(created->Ok_0.1) ==> make_future.requires(
                (completer,),
            ),
    ensures
        exists|created: Result<(J, H), E>|
            create.ensures((), created) && future == launched(created) && built_for(
                make_future,
                created,
            ) && spawned_for(runtime, make_future, created),
{
    spawn_on_runtime(create(), runtime, make_future)
}

/// How many of `actions` satisfy `counted`.
pub open spec fn count<T, D, C, P, U>(
    actions: Seq<Action<T, D, C, P, U>>,
    counted: spec_fn(Action<T, D, C, P, U>) -> bool,
) -> nat
    decreases actions.len(),
{
    if actions.len() == 0 {
        0
    } else {
        (if counted(actions[0]) {
            1nat
        } else {
            0nat
        }) + count(actions.skip(1), counted)
    }
}

/// How many notifications the destination has received in the course of
/// `actions`.
pub open spec fn notifications<T, D, C, P, U>(actions: Seq<Action<T, D, C, P, U>>) -> nat {
    count(actions, |action: Action<T, D, C, P, U>| action.notifies())
}

/// How often `actions` invoke the destination's success operation.
pub open spec fn success_invocations<T, D, C, P, U>(actions: Seq<Action<T, D, C, P, U>>) -> nat {
    count(actions, |action: Action<T, D, C, P, U>| action.invokes_success())
}

/// How often `actions` invoke the destination's error operation.
pub open spec fn error_invocations<T, D, C, P, U>(actions: Seq<Action<T, D, C, P, U>>) -> nat {
    count(actions, |action: Action<T, D, C, P, U>| action.invokes_error())
}

proof fn lemma_count_unfolds<T, D, C, P, U>(
    action: Action<T, D, C, P, U>,
    actions: Seq<Action<T, D, C, P, U>>,
    counted: spec_fn(Action<T, D, C, P, U>) -> bool,
)
    ensures
        count(seq![action] + actions, counted) == (if counted(action) {
            1nat
        } else {
            0nat
        }) + count(actions, counted),
{
    assert((seq![action] + actions).skip(1) =~= actions);
}

/// A delivery that is over stays over: every further event is ignored.
pub proof fn lemma_settled_is_final<T, D, C, P, U>(
    delivery: Delivery<T, D, C, P, U>,
    events: Seq<Event<D, C, P>>,
)
    requires
        delivery is Settled,
    ensures
        delivery.run(events).0 == delivery,
        notifications(delivery.run(events).1) == 0,
        success_invocations(delivery.run(events).1) == 0,
        error_invocations(delivery.run(events).1) == 0,
    decreases events.len(),
{
    if events.len() > 0 {
        lemma_settled_is_final(delivery, events.skip(1));
        let rest = delivery.run(events.skip(1)).1;
        lemma_count_unfolds(Action::Ignore, rest, |action: Action<T, D, C, P, U>| action.notifies());
        lemma_count_unfolds(
            Action::Ignore,
            rest,
            |action: Action<T, D, C, P, U>| action.invokes_success(),
        );
        lemma_count_unfolds(
            Action::Ignore,
            rest,
            |action: Action<T, D, C, P, U>| action.invokes_error(),
        );
    }
}

/// Whatever events arrive and in whatever order, the destination receives at
/// most one notification, and each of its two operations is invoked at most
/// once: the success operation only by a delivery that still waits to be
/// attached, the error operation never while it is already under way.
pub proof fn lemma_at_most_one_notification<T, D, C, P, U>(
    delivery: Delivery<T, D, C, P, U>,
    events: Seq<Event<D, C, P>>,
)
    ensures
        notifications(delivery.run(events).1) <= 1,
        success_invocations(delivery.run(events).1) <= 1,
        error_invocations(delivery.run(events).1) <= 1,
        !(delivery is Attaching) ==> success_invocations(delivery.run(events).1) == 0,
        (delivery is Reporting) ==> error_invocations(delivery.run(events).1) == 0,
    decreases events.len(),
{
    if delivery is Settled {
        lemma_settled_is_final(delivery, events);
    } else if events.len() > 0 {
        let (state, action) = delivery.next(events[0]);
        let rest = state.run(events.skip(1)).1;
        lemma_at_most_one_notification(state, events.skip(1));
        if state is Settled {
            lemma_settled_is_final(state, events.skip(1));
        }
        lemma_count_unfolds(action, rest, |action: Action<T, D, C, P, U>| action.notifies());
        lemma_count_unfolds(action, rest, |action: Action<T, D, C, P, U>| action.invokes_success());
        lemma_count_unfolds(action, rest, |action: Action<T, D, C, P, U>| action.invokes_error());
    }
}

/// A delivery that has come to its end has notified the destination exactly
/// once, unless the thread could not be attached or the destination's error
/// operation failed: then, and only then, the destination has received
/// nothing.
pub proof fn lemma_exactly_one_notification<T, D, C, P, U>(
    delivery: Delivery<T, D, C, P, U>,
    events: Seq<Event<D, C, P>>,
)
    requires
        !(delivery is Settled),
        delivery.run(events).0 is Settled,
    ensures
        delivery.run(events).0.notified() ==> notifications(delivery.run(events).1) == 1,
        !delivery.run(events).0.notified() ==> notifications(delivery.run(events).1) == 0,
        delivery.run(events).0.notified() <==> !delivery.run(events).0.ended_as(
            Outcome::AttachFailed,
        ) && !delivery.run(events).0.ended_as(Outcome::ReportFailed),
    decreases events.len(),
{
    let (state, action) = delivery.next(events[0]);
    let rest = state.run(events.skip(1)).1;
    lemma_count_unfolds(action, rest, |action: Action<T, D, C, P, U>| action.notifies());
    if state is Settled {
        lemma_settled_is_final(state, events.skip(1));
    } else {
        lemma_exactly_one_notification(state, events.skip(1));
    }
}

/// A completer that was discarded never starts a delivery, and one that has
/// completed does not start another.
pub proof fn lemma_no_delivery_after_the_end<H, T, D, C, P, U>(
    completer: FutureCompleter<H, T>,
    result: Result<T, BoundaryError<D, C, P>>,
    extra_args_to_drop: U,
)
    requires
        completer.state().is_terminal(),
    ensures
        completer.starts(result, extra_args_to_drop) is None,
{
    completer.lemma_owns_destination_while_created();
}

/// A failure raised while a value is converted and handed to the destination
/// looks to the destination like a failure raised inside the computation
/// itself: in both cases the next step is the error operation, with an
/// unexpected internal failure that carries the payload.
pub proof fn lemma_failures_are_reported_alike<T, D, C, P, U>(payload: P, extra_args_to_drop: U)
    ensures
        Delivery::<T, D, C, P, U>::completing(extra_args_to_drop).next(
            Event::Completed(Err(payload)),
        ) == Delivery::<T, D, C, P, U>::attaching(isolated(Err(payload)), extra_args_to_drop).next(
            Event::Attached,
        ),
        Delivery::<T, D, C, P, U>::completing(extra_args_to_drop).next(
            Event::Completed(Err(payload)),
        ).1 == Action::<T, D, C, P, U>::CompleteWithError(
            BoundaryError::UnexpectedInternalFailure(payload),
        ),
{
}

/// A failure raised while an error is reported goes no further. The delivery
/// ends as it does when the error operation fails: nothing more is invoked,
/// the destination counts as not notified, and all that is left is to log and
/// to release.
pub proof fn lemma_raised_report_ends_delivery<T, D, C, P, U>(payload: P, extra_args_to_drop: U)
    ensures
        Delivery::<T, D, C, P, U>::reporting(extra_args_to_drop).next(
            Event::ReportRaised(payload),
        ) == Delivery::<T, D, C, P, U>::reporting(extra_args_to_drop).next(Event::ReportFailed),
        Delivery::<T, D, C, P, U>::reporting(extra_args_to_drop).next(
            Event::ReportRaised(payload),
        ).0.ended_as(Outcome::ReportFailed),
        Delivery::<T, D, C, P, U>::reporting(extra_args_to_drop).next(
            Event::ReportRaised(payload),
        ).1 is Finish,
{
}

} // verus!
