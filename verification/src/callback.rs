//! Completion through a plain callback.
//!
//! The destination is a function together with an opaque context. It is
//! invoked once, with the stored context, and with either a result or an error,
//! never both and never neither.
//!
//! The function returns nothing, so a delivery ends with its invocation: what
//! the function does with an error it is handed is its own affair, and nothing
//! follows here, no second invocation and no log entry. A destination in a
//! managed runtime can refuse an error, and there the refusal is logged.

use vstd::prelude::*;
use core::marker::PhantomData;
use crate::error::BoundaryError;
use crate::isolation::{converted, isolate_conversion, isolated};
use crate::lifecycle::{BuildMode, LeakDiagnostic, Lifecycle, Operation, Slot};
use crate::runtime::AsyncRuntime;

verus! {

/// One invocation of a callback destination: the function to invoke, what to
/// tell it, and the context to pass along.
///
/// The function takes an error slot and a result slot. [`Self::error`] and
/// [`Self::result`] give the two slots for this invocation.
#[derive(Debug, PartialEq, Eq)]
pub struct CallbackInvocation<F, X, V, E> {
    /// The function to invoke.
    pub promise: F,
    /// What the destination is told.
    pub outcome: Result<V, E>,
    /// The context that the destination was registered with.
    pub context: X,
}

impl<F, X, V, E> CallbackInvocation<F, X, V, E> {
    /// The error slot: absent on success.
    pub open spec fn error_slot(&self) -> Option<E> {
        match self.outcome {
            Ok(_) => None,
            Err(error) => Some(error),
        }
    }

    /// The result slot: absent on failure.
    pub open spec fn result_slot(&self) -> Option<V> {
        match self.outcome {
            Ok(value) => Some(value),
            Err(_) => None,
        }
    }

    /// The error slot of this invocation: the error to report, or nothing
    /// where a value is reported.
    pub fn error(&self) -> (slot: Option<&E>)
        ensures
            slot is Some <==> self.error_slot() is Some,
            slot is Some ==> *slot->Some_0 == self.error_slot()->Some_0,
            slot is Some <==> self.result_slot() is None,
    {
        match &self.outcome {
            Ok(_) => None,
            Err(error) => Some(error),
        }
    }

    /// The result slot of this invocation: the value to report, or nothing
    /// where an error is reported.
    pub fn result(&self) -> (slot: Option<&V>)
        ensures
            slot is Some <==> self.result_slot() is Some,
            slot is Some ==> *slot->Some_0 == self.result_slot()->Some_0,
            slot is Some <==> self.error_slot() is None,
    {
        match &self.outcome {
            Ok(value) => Some(value),
            Err(_) => None,
        }
    }
}

/// The invocation that completing with `result` leads to, where a conversion
/// that is attempted ends as `conversion` says. A conversion is attempted only
/// for a value; an error is passed on as it is.
pub open spec fn completion<F, X, T, V, D, C, P>(
    promise: F,
    context: X,
    result: Result<T, BoundaryError<D, C, P>>,
    conversion: Result<Result<V, C>, P>,
) -> CallbackInvocation<F, X, V, BoundaryError<D, C, P>> {
    CallbackInvocation {
        promise,
        outcome: match result {
            Ok(_) => converted(conversion),
            Err(error) => Err(error),
        },
        context,
    }
}

/// Keeps what is needed to report one result of type `T` to a callback
/// destination: the function `promise` and the context to pass to it.
///
/// The destination may hold resources until it is notified, so a completer is
/// meant to complete. One that is discarded instead reports a leak. A
/// completer can move between threads wherever its function and its context
/// can.
pub struct PromiseCompleter<F, X, T> {
    slot: Slot<(F, X)>,
    result_type: PhantomData<T>,
}

impl<F, X, T> PromiseCompleter<F, X, T> {
    /// Where this completer stands.
    pub closed spec fn state(&self) -> Lifecycle {
        self.slot.state()
    }

    /// The function and the context that this completer still owns.
    pub closed spec fn destination(&self) -> Option<(F, X)> {
        self.slot.handle()
    }

    /// A completer owns its destination exactly as long as it has neither
    /// completed nor been discarded.
    pub proof fn lemma_owns_destination_while_created(&self)
        ensures
            self.destination() is Some <==> self.state() == Lifecycle::Created,
    {
    }

    /// What `complete` returns for `result`, where a conversion that is
    /// attempted ends as `conversion` says: the one invocation to perform, or
    /// nothing for a completer that owns no destination any more.
    pub open spec fn completes<V, D, C, P>(
        &self,
        result: Result<T, BoundaryError<D, C, P>>,
        conversion: Result<Result<V, C>, P>,
    ) -> Option<CallbackInvocation<F, X, V, BoundaryError<D, C, P>>> {
        match self.destination() {
            Some((promise, context)) => Some(completion(promise, context, result, conversion)),
            None => None,
        }
    }

    /// A completer for the destination `promise`, to be invoked with
    /// `promise_context`.
    pub fn new(promise: F, promise_context: X) -> (completer: Self)
        ensures
            completer.state() == Lifecycle::Created,
            completer.destination() == Some((promise, promise_context)),
    {
        PromiseCompleter { slot: Slot::Created((promise, promise_context)), result_type: PhantomData }
    }

    /// Where this completer stands.
    pub fn lifecycle(&self) -> (state: Lifecycle)
        ensures
            state == self.state(),
    {
        self.slot.lifecycle()
    }

    /// Reports `result` to the destination.
    ///
    /// The completer gives up its destination before anything else happens, so
    /// that it counts as completed whatever the conversion does. An error is
    /// passed on as it is. A value is handed to `convert`, which runs the
    /// conversion under protection; a conversion that declines or raises a
    /// failure is reported as an error in the value's place.
    ///
    /// Returns the one invocation to perform, or `None` for a completer that
    /// has completed or was discarded before.
    pub fn complete<V, D, C, P, G>(
        &mut self,
        result: Result<T, BoundaryError<D, C, P>>,
        convert: G,
    ) -> (invocation: Option<CallbackInvocation<F, X, V, BoundaryError<D, C, P>>>) where
        G: FnOnce(T) -> Result<Result<V, C>, P>,

        requires
            old(self).state() == Lifecycle::Created && result is Ok ==> convert.requires(
                (result->Ok_0,),
            ),
        ensures
            final(self).state() == old(self).state().after(Operation::Complete),
            final(self).destination() is None,
            invocation is Some <==> old(self).state() == Lifecycle::Created,
            invocation is Some ==> old(self).destination() == Some(
                (invocation->Some_0.promise, invocation->Some_0.context),
            ),
            invocation is Some && result is Err ==> invocation->Some_0.outcome == Err::<
                V,
                BoundaryError<D, C, P>,
            >(result->Err_0),
            invocation is Some && result is Ok ==> exists|conversion: Result<Result<V, C>, P>|
                convert.ensures((result->Ok_0,), conversion) && invocation == old(self).completes(
                    result,
                    conversion,
                ),
    {
        match self.slot.vacate(Operation::Complete) {
            None => None,
            Some((promise, context)) => match result {
                Ok(value) => {
                    let conversion = convert(value);
                    assert(Some(completion(promise, context, result, conversion)) == old(
                        self,
                    ).completes(result, conversion));
                    let outcome = isolate_conversion(conversion);
                    Some(CallbackInvocation { promise, outcome, context })
                },
                Err(error) => Some(CallbackInvocation { promise, outcome: Err(error), context }),
            },
        }
    }

    /// Gives the completer up without completing it.
    ///
    /// For a completer that still owns its destination this is a defect: the
    /// destination will never be notified. Returns the diagnostic to raise for
    /// it in a build of kind `mode`, or `None` for a completer that has
    /// completed or was discarded before.
    pub fn discard(&mut self, mode: BuildMode) -> (diagnostic: Option<LeakDiagnostic>)
        ensures
            final(self).state() == old(self).state().after(Operation::Discard),
            final(self).destination() is None,
            diagnostic == if old(self).state() == Lifecycle::Created {
                Some(mode.leak_diagnostic())
            } else {
                None
            },
    {
        match self.slot.vacate(Operation::Discard) {
            None => None,
            Some(_) => Some(mode.leak_diagnostic()),
        }
    }
}

/// Spawns a computation on `runtime` that reports to the callback destination
/// `promise`.
///
/// Builds the completer for `promise` and `promise_context`, lets `make_future`
/// build the computation around it, and hands that computation to the runtime:
/// `run_future` has taken over exactly what `make_future` returned. The driver
/// itself neither runs the computation nor notifies the destination. Nothing
/// comes back: the destination is the caller's own. The computation has to
/// complete the completer on every path, also after an internal failure:
/// whoever builds it isolates it.
pub fn run_future_on_runtime<R, W, F, X, T, M>(
    runtime: &R,
    promise: F,
    promise_context: X,
    make_future: M,
) where R: AsyncRuntime<W>, M: FnOnce(PromiseCompleter<F, X, T>) -> W
    requires
        forall|completer: PromiseCompleter<F, X, T>|
            completer.state() == Lifecycle::Created && completer.destination() == Some(
                (promise, promise_context),
            ) ==> make_future.requires((completer,)),
    ensures
        exists|completer: PromiseCompleter<F, X, T>, computation: W|
            #[trigger] make_future.ensures((completer,), computation) && completer.state()
                == Lifecycle::Created && completer.destination() == Some(
                (promise, promise_context),
            ) && call_ensures(R::run_future, (runtime, computation), ()),
{
    let completion = PromiseCompleter::new(promise, promise_context);
    let computation = make_future(completion);
    runtime.run_future(computation);
}

/// Whatever the result and however its conversion ends, completing leads to
/// one invocation in which exactly one of the two slots is populated, and
/// which passes the stored context on unchanged: a value that was converted
/// fills the result slot, everything else fills the error slot.
pub proof fn lemma_completion_notifies_once<F, X, T, V, D, C, P>(
    promise: F,
    context: X,
    result: Result<T, BoundaryError<D, C, P>>,
    conversion: Result<Result<V, C>, P>,
)
    ensures
        completion(promise, context, result, conversion).error_slot() is Some <==> completion(
            promise,
            context,
            result,
            conversion,
        ).result_slot() is None,
        completion(promise, context, result, conversion).promise == promise,
        completion(promise, context, result, conversion).context == context,
        completion(promise, context, result, conversion).result_slot() is Some <==> (result is Ok
            && conversion is Ok && conversion->Ok_0 is Ok),
{
}

/// A failure raised while a value is converted looks to the destination like
/// a failure raised inside the computation itself: both lead to the same
/// invocation, whose error slot holds an unexpected internal failure with the
/// payload.
pub proof fn lemma_failures_are_reported_alike<F, X, T, V, D, C, P>(
    promise: F,
    context: X,
    value: T,
    payload: P,
    conversion: Result<Result<V, C>, P>,
)
    ensures
        completion::<F, X, T, V, D, C, P>(promise, context, Ok(value), Err(payload)) == completion(
            promise,
            context,
            isolated::<T, D, C, P>(Err(payload)),
            conversion,
        ),
        completion::<F, X, T, V, D, C, P>(promise, context, Ok(value), Err(payload)).error_slot()
            == Some(BoundaryError::<D, C, P>::UnexpectedInternalFailure(payload)),
{
}

/// A completer that was discarded never notifies its destination, and one
/// that has completed does not notify it again.
pub proof fn lemma_no_notification_after_the_end<F, X, T, V, D, C, P>(
    completer: PromiseCompleter<F, X, T>,
    result: Result<T, BoundaryError<D, C, P>>,
    conversion: Result<Result<V, C>, P>,
)
    requires
        completer.state().is_terminal(),
    ensures
        completer.completes(result, conversion) is None,
{
    completer.lemma_owns_destination_while_created();
}

} // verus!
