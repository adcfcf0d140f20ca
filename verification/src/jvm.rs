//! The Java virtual machine as the managed runtime.
//!
//! Here the destination is a Java object with the methods of a
//! `CompletableFuture`. A completer keeps the virtual machine and a global
//! reference to the object, so that any thread can reach the object later.
//! Everything here goes through the `jni` crate. Its types are opaque and its
//! calls are believed, not proved: what they return is up to the virtual
//! machine, so nothing is claimed of it.

use vstd::prelude::*;
use crate::managed::{
    built_for, launched, spawn_on_runtime, spawned_for, Action, Delivery, Event, FutureCompleter,
};
use crate::lifecycle::Lifecycle;
use crate::runtime::AsyncRuntime;

verus! {

/// `jni::JavaVM`, the invocation interface of a running virtual machine. Taken
/// as opaque.
#[verifier::external_type_specification]
#[verifier::external_body]
pub struct ExJavaVM(jni::JavaVM);

/// `jni::objects::GlobalRef`, a reference to a Java object that stays valid
/// until it is dropped. Taken as opaque.
#[verifier::external_type_specification]
#[verifier::external_body]
pub struct ExGlobalRef(jni::objects::GlobalRef);

/// `jni::JNIEnv`, the interface of the virtual machine on an attached thread.
/// Taken as opaque.
#[verifier::external_type_specification]
#[verifier::external_body]
pub struct ExJNIEnv<'local>(jni::JNIEnv<'local>);

/// `jni::sys::_jobject`, what a raw object reference points to. It has no
/// values; it is declared because `jni::objects::JObject` names it.
#[verifier::external_type_specification]
#[verifier::external_body]
pub struct ExRawObject(jni::sys::_jobject);

/// `jni::objects::JObject`, a local reference to a Java object. Taken as
/// opaque.
#[verifier::external_type_specification]
#[verifier::external_body]
pub struct ExJObject<'local>(jni::objects::JObject<'local>);

/// `jni::AttachGuard`, which keeps the current thread attached and gives
/// access to its `JNIEnv`; dropping it detaches a thread that it attached.
/// Taken as opaque.
#[verifier::external_type_specification]
#[verifier::external_body]
pub struct ExAttachGuard<'local>(jni::AttachGuard<'local>);

/// `jni::errors::Error`, the error of every call into the virtual machine.
/// Taken as opaque.
#[verifier::external_type_specification]
#[verifier::external_body]
pub struct ExError(jni::errors::Error);

/// Calls `jni::JNIEnv::get_java_vm`. Nothing is claimed of what comes back:
/// the virtual machine decides.
#[verifier::external_body]
fn java_vm_of(env: &jni::JNIEnv) -> (jvm: Result<jni::JavaVM, jni::errors::Error>) {
    env.get_java_vm()
}

/// Calls `jni::JNIEnv::new_global_ref`. Nothing is claimed of what comes back:
/// the virtual machine decides.
#[verifier::external_body]
fn global_ref_to(env: &jni::JNIEnv, object: &jni::objects::JObject) -> (global: Result<
    jni::objects::GlobalRef,
    jni::errors::Error,
>) {
    env.new_global_ref(object)
}

/// Calls `jni::JavaVM::attach_current_thread`, which may block until the
/// virtual machine lets the thread in. Nothing is claimed of what comes back:
/// the virtual machine decides. The call keeps a record in thread-local
/// storage, so it is not for a thread whose local storage is being torn down.
#[verifier::external_body]
fn attach_current_thread<'a>(jvm: &'a jni::JavaVM) -> (guard: Result<
    jni::AttachGuard<'a>,
    jni::errors::Error,
>) {
    jvm.attach_current_thread()
}

/// Calls `jni::JNIEnv::new_object` for the class `class` and its constructor
/// of signature `constructor`, with an empty list of arguments. Nothing is
/// claimed of what comes back: the virtual machine decides.
#[verifier::external_body]
fn new_object<'local>(env: &mut jni::JNIEnv<'local>, class: &str, constructor: &str) -> (object:
    Result<jni::objects::JObject<'local>, jni::errors::Error>) {
    env.new_object(class, constructor, &[])
}

/// The class of the future objects that the driver creates.
pub const COMPLETABLE_FUTURE: &'static str = "org/signal/libsignal/internal/CompletableFuture";

/// The signature of a constructor that takes no arguments.
pub const WITHOUT_ARGUMENTS: &'static str = "()V";

/// Why a step that needs the virtual machine did not take place. Each case
/// holds the error that the virtual machine answered with.
#[derive(Debug)]
pub enum JvmError {
    /// No new future object could be constructed.
    ConstructionRefused(jni::errors::Error),
    /// The virtual machine behind an environment could not be had.
    JavaVmUnavailable(jni::errors::Error),
    /// No global reference to the object could be made.
    GlobalRefRefused(jni::errors::Error),
    /// The current thread could not be attached.
    AttachRefused(jni::errors::Error),
}

impl JvmError {
    /// The error that the virtual machine answered with.
    pub open spec fn cause(self) -> jni::errors::Error {
        match self {
            JvmError::ConstructionRefused(cause) => cause,
            JvmError::JavaVmUnavailable(cause) => cause,
            JvmError::GlobalRefRefused(cause) => cause,
            JvmError::AttachRefused(cause) => cause,
        }
    }

    /// Whether this error stems from taking hold of a future object, and not
    /// from attaching a thread.
    pub open spec fn while_binding(self) -> bool {
        self is JavaVmUnavailable || self is GlobalRefRefused
    }

    /// Whether this error stems from a step that comes before any computation
    /// is built: the construction of a future object, or taking hold of it.
    pub open spec fn before_spawning(self) -> bool {
        self is ConstructionRefused || self.while_binding()
    }

    /// Gives up the error that the virtual machine answered with, for the log.
    pub fn into_cause(self) -> (cause: jni::errors::Error)
        ensures
            cause == self.cause(),
    {
        match self {
            JvmError::ConstructionRefused(cause) => cause,
            JvmError::JavaVmUnavailable(cause) => cause,
            JvmError::GlobalRefRefused(cause) => cause,
            JvmError::AttachRefused(cause) => cause,
        }
    }
}

/// The durable handle of a Java future object: the virtual machine that it
/// lives in, and a global reference to it. Unlike the local reference that the
/// object was created under, it outlives the call that created it and can be
/// used from any thread.
pub struct DurableFuture {
    /// The virtual machine to attach to.
    pub jvm: jni::JavaVM,
    /// The future object.
    pub future: jni::objects::GlobalRef,
}

impl DurableFuture {
    /// Takes a handle to the virtual machine of `env` and a global reference
    /// to `future`, which is expected to be a `CompletableFuture`.
    ///
    /// The virtual machine decides whether either step succeeds. The first
    /// one that it refuses ends the attempt, and the error says which one it
    /// was.
    pub fn new(env: &mut jni::JNIEnv, future: &jni::objects::JObject) -> (durable: Result<
        DurableFuture,
        JvmError,
    >)
        ensures
            durable is Err ==> durable->Err_0.while_binding(),
    {
        match java_vm_of(env) {
            Ok(jvm) => DurableFuture::bind(jvm, global_ref_to(env, future)),
            Err(cause) => Err(JvmError::JavaVmUnavailable(cause)),
        }
    }

    /// What becomes of the virtual machine `jvm` and of the answer `global`
    /// that it gave when it was asked for a global reference: the handle made
    /// of the two, or the refusal with its cause.
    pub open spec fn bound(
        jvm: jni::JavaVM,
        global: Result<jni::objects::GlobalRef, jni::errors::Error>,
    ) -> Result<DurableFuture, JvmError> {
        match global {
            Ok(future) => Ok(DurableFuture { jvm, future }),
            Err(cause) => Err(JvmError::GlobalRefRefused(cause)),
        }
    }

    /// Puts the virtual machine `jvm` together with the answer `global` that
    /// it gave when it was asked for a global reference to a future object.
    ///
    /// A reference that was granted makes the handle, with exactly this
    /// virtual machine and this reference in it. A refusal is passed on with
    /// its cause, and the virtual machine is let go.
    pub fn bind(
        jvm: jni::JavaVM,
        global: Result<jni::objects::GlobalRef, jni::errors::Error>,
    ) -> (durable: Result<DurableFuture, JvmError>)
        ensures
            durable == Self::bound(jvm, global),
    {
        match global {
            Ok(future) => Ok(DurableFuture { jvm, future }),
            Err(cause) => Err(JvmError::GlobalRefRefused(cause)),
        }
    }
}

/// Attaches the current thread to the virtual machine `jvm`, which may block,
/// and tells `delivery` how that went.
///
/// Returns the attachment, or the error to log if there is none, together
/// with the state of the delivery and the action that follow from it. The
/// thread stays attached as long as the attachment is kept.
pub fn attach<'a, T, D, C, P, U>(jvm: &'a jni::JavaVM, delivery: Delivery<T, D, C, P, U>) -> (attached:
    (Result<jni::AttachGuard<'a>, JvmError>, Delivery<T, D, C, P, U>, Action<T, D, C, P, U>))
    ensures
        attached.0 is Ok ==> (attached.1, attached.2) == delivery.next(Event::Attached),
        attached.0 is Err ==> (attached.1, attached.2) == delivery.next(Event::AttachFailed),
        attached.0 is Err ==> attached.0->Err_0 is AttachRefused,
{
    match attach_current_thread(jvm) {
        Ok(guard) => {
            let (delivery, action) = delivery.step(Event::Attached);
            (Ok(guard), delivery, action)
        },
        Err(cause) => {
            let (delivery, action) = delivery.step(Event::AttachFailed);
            (Err(JvmError::AttachRefused(cause)), delivery, action)
        },
    }
}

impl<T> FutureCompleter<DurableFuture, T> {
    /// Stores a handle to the virtual machine of `env` and a global reference
    /// to `future` in a new completer. `future` is expected to be a
    /// `CompletableFuture`.
    ///
    /// The virtual machine decides whether this succeeds. A completer that
    /// comes back is new and owns its destination.
    pub fn new(env: &mut jni::JNIEnv, future: &jni::objects::JObject) -> (completer: Result<
        Self,
        JvmError,
    >)
        ensures
            completer is Ok ==> completer->Ok_0.state() == Lifecycle::Created,
            completer is Ok ==> completer->Ok_0.destination() is Some,
            completer is Err ==> completer->Err_0.while_binding(),
    {
        match DurableFuture::new(env, future) {
            Ok(durable) => Ok(FutureCompleter::bound_to(durable)),
            Err(error) => Err(error),
        }
    }
}

/// What the construction of a future object comes to, given the object that
/// was constructed and the answer `durable` to the attempt to take hold of it:
/// the caller's handle together with the durable one, or the refusal.
pub open spec fn constructed<'local>(
    object: jni::objects::JObject<'local>,
    durable: Result<DurableFuture, JvmError>,
) -> Result<(jni::objects::JObject<'local>, DurableFuture), JvmError> {
    match durable {
        Ok(durable) => Ok((object, durable)),
        Err(error) => Err(error),
    }
}

/// Puts a future object that was constructed together with the answer
/// `durable` to the attempt to take hold of it. A refusal is passed on, and
/// the object is let go.
pub fn pair<'local>(
    object: jni::objects::JObject<'local>,
    durable: Result<DurableFuture, JvmError>,
) -> (created: Result<(jni::objects::JObject<'local>, DurableFuture), JvmError>)
    ensures
        created == constructed(object, durable),
{
    match durable {
        Ok(durable) => Ok((object, durable)),
        Err(error) => Err(error),
    }
}

/// Spawns a computation on `runtime` and returns the new Java future object
/// that will hold its result.
///
/// Constructs a [`COMPLETABLE_FUTURE`] first and takes hold of it. If the
/// virtual machine refuses either, the refusal is returned at once and no
/// computation is built or spawned: this is the one failure that reaches the
/// caller directly and not through a completer. Otherwise `make_future`
/// builds the computation around a new completer for the object, `run_future`
/// takes over exactly that computation, and the caller gets the local
/// reference to the object to await the result.
pub fn run_future_on_runtime<'local, R, W, T, M>(
    env: &mut jni::JNIEnv<'local>,
    runtime: &R,
    make_future: M,
) -> (future: Result<jni::objects::JObject<'local>, JvmError>) where
    R: AsyncRuntime<W>,
    M: FnOnce(FutureCompleter<DurableFuture, T>) -> W,

    requires
        forall|completer: FutureCompleter<DurableFuture, T>|
            completer.state() == Lifecycle::Created && completer.destination() is Some
                ==> make_future.requires((completer,)),
    ensures
        future is Err ==> future->Err_0.before_spawning(),
        exists|created: Result<(jni::objects::JObject<'local>, DurableFuture), JvmError>|
            future == launched(created) && built_for(make_future, created) && spawned_for(
                runtime,
                make_future,
                created,
            ),
{
    let created = match new_object(env, COMPLETABLE_FUTURE, WITHOUT_ARGUMENTS) {
        Ok(object) => {
            let durable = DurableFuture::new(env, &object);
            pair(object, durable)
        },
        Err(cause) => Err(JvmError::ConstructionRefused(cause)),
    };
    spawn_on_runtime(created, runtime, make_future)
}

} // verus!
