//! Events that compose a serialized application execution.
//!
//! Assertions, mutations and screenshot checks are carried as capability
//! values: small types the test author writes, one per call site, each
//! implementing the matching single-method trait. Events are applied
//! strictly in sequence by the trace engine and consumed exactly once.

use vstd::prelude::*;

verus! {

use crate::rendering::screenshot::Screenshot;

/// Decides whether the current application state satisfies an assertion
/// the test author embedded in the trace.
pub trait StatePredicate<A> {
    /// Evaluates the assertion against the current state.
    fn check(&self, app: &A) -> bool;
}

/// Rewrites the application state directly, bypassing the update handler;
/// used to set up preconditions not reachable via normal messages.
pub trait StateMutator<A> {
    /// Applies the mutation to the current state.
    fn mutate(&self, app: &mut A);
}

/// Decides whether a captured screenshot satisfies an assertion the test
/// author embedded in the trace.
pub trait ScreenshotPredicate {
    /// Evaluates the assertion against the captured frame.
    fn check(&self, screenshot: &Screenshot) -> bool;
}

/// One step of a serialized execution.
///
/// `M` is the application's message type; `P`, `S` and `Q` are the test
/// author's state-predicate, state-mutator and screenshot-predicate
/// capability types.
pub enum TraceEvent<M, P, S, Q> {
    /// Send a message directly to the application's update handler.
    Message(M),
    /// Suspend the run for the given number of milliseconds.
    Duration(u64),
    /// Configure application state directly.
    SetState(S),
    /// Check application state: a failed check aborts the run as an
    /// assertion failure.
    StateCheck(P),
    /// Render one frame and hand it to the predicate: a failed check
    /// aborts the run as an assertion failure.
    CheckScreenshot(Q),
    /// Render one frame and save it, PNG-encoded, at the given path.
    TakeScreenshot(String),
}

impl<M, P, S, Q> TraceEvent<M, P, S, Q> {
    /// Whether this event carries a test author's assertion, so that a run
    /// can end on it with an assertion failure.
    pub open spec fn is_assertion(self) -> bool {
        self is StateCheck || self is CheckScreenshot
    }

    /// Whether this event needs the rendering or filesystem back-end, so
    /// that a run can end on it with an infrastructure failure.
    pub open spec fn is_capture(self) -> bool {
        self is CheckScreenshot || self is TakeScreenshot
    }
}

} // verus!
