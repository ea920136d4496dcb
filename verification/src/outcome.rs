//! Result types for non-blocking operations.
//!
//! `IoOutcome` is the result of one non-blocking I/O attempt: it finished,
//! it would block (the caller must retry once the underlying transport is
//! ready), or it failed. `PollOutcome` is the result of polling a composed
//! asynchronous operation; it adds the defined fatal signal for the caller
//! bug of polling an operation that has already resolved.

use vstd::prelude::*;

verus! {

/// The result of one non-blocking I/O attempt.
pub enum IoOutcome<T, E> {
    /// The attempt finished with this value.
    Done(T),
    /// The attempt could not make progress without blocking; retry later.
    WouldBlock,
    /// The attempt failed with this error.
    Failed(E),
}

/// The result of polling a composed asynchronous operation.
pub enum PollOutcome<T, E> {
    /// The operation resolved successfully.
    Ready(T),
    /// The operation is still pending; the executor must poll again once
    /// the underlying transport is ready.
    NotReady,
    /// The operation resolved with a failure.
    Failed(E),
    /// The defined fatal signal: the caller polled an operation that had
    /// already resolved. This is a caller bug, not a runtime condition;
    /// a driver must abort on it rather than treat it as a result.
    ContractViolation,
}

} // verus!
