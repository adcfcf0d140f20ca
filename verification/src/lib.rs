//! Exactly-once delivery of an asynchronously computed result to a destination
//! on the far side of a language boundary.
//!
//! A *completer* owns the handle of one destination and delivers one result to
//! it. This crate holds every decision of that hand-off: which result a
//! protected run stands for, what a destination is told, in which order a
//! managed runtime is attached, notified and released, and what is reported
//! when a completer is discarded unused. What cannot be done from here is the
//! caller's: to run something under protection, to invoke a destination, to
//! write the log. The caller performs each such step and hands its outcome
//! back as a plain value.
//!
//! - [`isolation`]: what a protected run stands for.
//! - [`lifecycle`]: the states of a completer and the leak diagnostic.
//! - [`callback`]: completion through a function and a context.
//! - [`managed`]: completion of a future object in a managed runtime.
//! - [`jvm`]: the Java virtual machine as that managed runtime.
//! - [`runtime`]: the runtime that executes what the drivers spawn.

pub mod error;
pub mod isolation;
pub mod lifecycle;
pub mod runtime;
pub mod callback;
pub mod managed;
pub mod jvm;
