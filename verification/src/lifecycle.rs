//! The life of a completer, and what is reported when one is discarded unused.
//!
//! A completer is created, and then either completes or is discarded without
//! having completed. Both ends are final.

use vstd::prelude::*;

verus! {

/// Where a completer stands.
#[derive(Clone, Copy, Debug, PartialEq, Eq, Structural)]
pub enum Lifecycle {
    /// It owns a destination handle that has not been notified.
    Created,
    /// `complete` has run; the handle has been given up for delivery.
    Consumed,
    /// It was discarded before `complete` had run; its destination will never
    /// be notified.
    LeakDiagnosed,
}

/// What can be asked of a completer.
#[derive(Clone, Copy, Debug, PartialEq, Eq, Structural)]
pub enum Operation {
    /// Deliver a result to the destination.
    Complete,
    /// Give the completer up.
    Discard,
}

/// The kind of build the process runs as.
#[derive(Clone, Copy, Debug, PartialEq, Eq, Structural)]
pub enum BuildMode {
    /// A build meant to catch defects early.
    Development,
    /// A build that has to keep running.
    Production,
}

/// What to do about a completer that was discarded before it completed.
#[derive(Clone, Copy, Debug, PartialEq, Eq, Structural)]
pub enum LeakDiagnostic {
    /// Stop the execution with a failed assertion.
    Halt,
    /// Write an error to the log and go on.
    LogError,
}

impl Lifecycle {
    /// Whether nothing can change this state any more.
    pub open spec fn is_terminal(self) -> bool {
        self != Lifecycle::Created
    }

    /// The state that follows `self` when `operation` is asked for. Only a
    /// completer that was just created moves.
    pub open spec fn after(self, operation: Operation) -> Lifecycle {
        match (self, operation) {
            (Lifecycle::Created, Operation::Complete) => Lifecycle::Consumed,
            (Lifecycle::Created, Operation::Discard) => Lifecycle::LeakDiagnosed,
            (state, _) => state,
        }
    }

    /// The state reached from `self` by `operations`, taken in order.
    pub open spec fn after_all(self, operations: Seq<Operation>) -> Lifecycle
        decreases operations.len(),
    {
        if operations.len() == 0 {
            self
        } else {
            self.after(operations[0]).after_all(operations.skip(1))
        }
    }
}

impl BuildMode {
    /// The diagnostic that a leaked completer calls for in this build.
    pub open spec fn spec_leak_diagnostic(self) -> LeakDiagnostic {
        match self {
            BuildMode::Development => LeakDiagnostic::Halt,
            BuildMode::Production => LeakDiagnostic::LogError,
        }
    }

    /// The diagnostic that a leaked completer calls for in this build: a hard
    /// failure where defects are to be caught early, an error in the log where
    /// the process has to keep running.
    #[verifier::when_used_as_spec(spec_leak_diagnostic)]
    pub fn leak_diagnostic(self) -> (diagnostic: LeakDiagnostic)
        ensures
            diagnostic == self.spec_leak_diagnostic(),
    {
        match self {
            BuildMode::Development => LeakDiagnostic::Halt,
            BuildMode::Production => LeakDiagnostic::LogError,
        }
    }
}

/// The place in a completer that holds its destination handle until one of the
/// two operations takes it.
pub(crate) enum Slot<H> {
    Created(H),
    Consumed,
    LeakDiagnosed,
}

impl<H> Slot<H> {
    pub(crate) open spec fn state(self) -> Lifecycle {
        match self {
            Slot::Created(_) => Lifecycle::Created,
            Slot::Consumed => Lifecycle::Consumed,
            Slot::LeakDiagnosed => Lifecycle::LeakDiagnosed,
        }
    }

    pub(crate) open spec fn handle(self) -> Option<H> {
        match self {
            Slot::Created(handle) => Some(handle),
            _ => None,
        }
    }

    pub(crate) fn lifecycle(&self) -> (state: Lifecycle)
        ensures
            state == self.state(),
    {
        match self {
            Slot::Created(_) => Lifecycle::Created,
            Slot::Consumed => Lifecycle::Consumed,
            Slot::LeakDiagnosed => Lifecycle::LeakDiagnosed,
        }
    }

    /// Empties the slot for `operation` and hands out what it held. A slot that
    /// was emptied before stays as it is.
    pub(crate) fn vacate(&mut self, operation: Operation) -> (handle: Option<H>)
        ensures
            handle == old(self).handle(),
            final(self).state() == old(self).state().after(operation),
            final(self).handle() is None,
    {
        let mut slot = match operation {
            Operation::Complete => Slot::Consumed,
            Operation::Discard => Slot::LeakDiagnosed,
        };
        core::mem::swap(self, &mut slot);
        match slot {
            Slot::Created(handle) => Some(handle),
            emptied => {
                *self = emptied;
                None
            },
        }
    }
}

/// A completer that has reached a final state stays there.
pub proof fn lemma_terminal_states_absorb(state: Lifecycle, operations: Seq<Operation>)
    requires
        state.is_terminal(),
    ensures
        state.after_all(operations) == state,
    decreases operations.len(),
{
    if operations.len() > 0 {
        lemma_terminal_states_absorb(state, operations.skip(1));
    }
}

/// Of all the operations asked of a completer only the first has an effect: it
/// completes if that one is `Complete` and is diagnosed as leaked if it is
/// `Discard`, whatever is asked afterwards.
pub proof fn lemma_first_operation_decides(operations: Seq<Operation>)
    requires
        operations.len() > 0,
    ensures
        Lifecycle::Created.after_all(operations) == Lifecycle::Created.after(operations[0]),
        Lifecycle::Created.after_all(operations).is_terminal(),
{
    lemma_terminal_states_absorb(Lifecycle::Created.after(operations[0]), operations.skip(1));
}

} // verus!
