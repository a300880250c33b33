//! Settling a polled computation.
//!
//! The bridge performs no genuine asynchronous waiting: one helper pattern
//! polls a computation exactly once and treats "not yet complete" as an
//! unrecoverable logic fault. The poll itself happens outside the library;
//! its observed outcome is handed in as a value of [`PollStatus`].

use vstd::prelude::*;

verus! {

/// The observed outcome of polling a computation once.
#[derive(Clone, Copy, PartialEq, Eq, Structural, Debug)]
pub enum PollStatus<T> {
    /// The computation completed with this value.
    Ready(T),
    /// The computation was not yet complete.
    Pending,
}

/// Unwraps the outcome of a computation that must already have completed.
/// A still-pending computation is a logic fault of the caller, ruled out by
/// the precondition; the caller's unverified side fails hard on it instead.
pub fn expect_ready<T>(completion: PollStatus<T>) -> (r: T)
    requires
        completion is Ready,
    ensures
        completion == PollStatus::Ready(r),
{
    match completion {
        PollStatus::Ready(v) => v,
        PollStatus::Pending => vstd::pervasive::unreached(),
    }
}

} // verus!
