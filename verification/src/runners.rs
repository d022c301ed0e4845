//! Interfaces for running applications end-to-end with no user interaction.

use vstd::prelude::*;

verus! {

use crate::rendering::screenshot::Screenshot;
use crate::trace_events::{ScreenshotPredicate, StateMutator, StatePredicate, TraceEvent};
use vstd::pervasive::unreached;

/// The contract an application under test supplies: construction from
/// opaque flags and a message handler. Any command a real UI runtime would
/// hand back from `update` is discarded by this harness, which models a
/// closed, deterministic system.
pub trait Application: Sized {
    /// The application's message type.
    type Message;

    /// The caller-supplied construction flags.
    type Flags;

    /// Constructs the application from its flags.
    fn new(flags: Self::Flags) -> Self;

    /// Applies one message to the state.
    fn update(&mut self, message: Self::Message);
}

/// The outside work one trace run needs: waiting, rendering a frame of the
/// live application, and writing an encoded image. The harness supplies a
/// GPU-backed implementation outside this crate; tests supply fakes.
pub trait TraceBackend<A> {
    /// Suspends the run for the given number of milliseconds.
    fn sleep(&mut self, duration_millis: u64);

    /// Renders one frame of the application at the given size and reads it
    /// back, or `None` if the rendering pipeline failed.
    fn capture(&mut self, app: &mut A, width: u32, height: u32) -> Option<Screenshot>;

    /// Writes the encoded image bytes at the given path, overwriting any
    /// existing file; `false` if the write failed.
    fn save(&mut self, path: &String, bytes: &Vec<u8>) -> bool;
}

/// A back-end that performs no outside work: waiting is a no-op, and every
/// capture or save reports an infrastructure failure. Suits traces made of
/// messages, waits, state checks and state mutations alone.
pub struct NullBackend;

impl<A> TraceBackend<A> for NullBackend {
    fn sleep(&mut self, _duration_millis: u64) {
    }

    fn capture(&mut self, _app: &mut A, _width: u32, _height: u32) -> Option<Screenshot> {
        None
    }

    fn save(&mut self, _path: &String, _bytes: &Vec<u8>) -> bool {
        false
    }
}

/// A state predicate that always holds: the placeholder predicate type for
/// traces that carry no state assertions.
pub struct NoStateCheck;

impl<A> StatePredicate<A> for NoStateCheck {
    fn check(&self, _app: &A) -> bool {
        true
    }
}

/// A state mutation that changes nothing: the placeholder mutator type for
/// traces that carry no direct state edits.
pub struct NoStateMutation;

impl<A> StateMutator<A> for NoStateMutation {
    fn mutate(&self, _app: &mut A) {
    }
}

/// A screenshot predicate that always holds: the placeholder predicate
/// type for traces that capture nothing.
pub struct NoScreenshotCheck;

impl ScreenshotPredicate for NoScreenshotCheck {
    fn check(&self, _screenshot: &Screenshot) -> bool {
        true
    }
}

/// How a trace run ended early. An assertion failure means the application
/// under test broke a test author's expectation; an infrastructure failure
/// means the harness itself could not do its work. The two are distinct so
/// tooling can tell "my application is wrong" from "my harness is broken",
/// and each carries the index of the event it ended on.
#[derive(Clone, Copy, Debug, PartialEq, Eq, Structural)]
pub enum TraceError {
    /// A `StateCheck` or `CheckScreenshot` predicate returned false at
    /// this event index.
    AssertionFailed {
        /// Position of the failed event in the trace.
        index: usize,
    },
    /// Rendering or writing failed at this event index.
    InfrastructureFailed {
        /// Position of the failed event in the trace.
        index: usize,
    },
}

/// Width in pixels of the hidden render target a trace run captures at.
pub const DEFAULT_WINDOW_WIDTH: u32 = 600;

/// Height in pixels of the hidden render target a trace run captures at.
pub const DEFAULT_WINDOW_HEIGHT: u32 = 600;

/// Classifies the outcome of one evaluated assertion: a holding assertion
/// lets the run continue, a failed one aborts it with the index of the
/// event that failed.
pub fn assess_assertion(outcome: bool, index: usize) -> (r: Result<(), TraceError>)
    ensures
        outcome ==> r == Ok::<(), TraceError>(()),
        !outcome ==> r == Err::<(), TraceError>(TraceError::AssertionFailed { index }),
{
    if outcome {
        Ok(())
    } else {
        Err(TraceError::AssertionFailed { index })
    }
}

/// Runs an application headlessly, applying a series of trace events in
/// order and discarding all commands. Returns the application when every
/// event has been applied; aborts on the first failed assertion or failed
/// piece of outside work, reporting its kind and event index.
pub fn execute_iced_trace<A, P, S, Q, B>(
    flags: A::Flags,
    trace_events: Vec<TraceEvent<A::Message, P, S, Q>>,
    backend: &mut B,
) -> (r: Result<A, TraceError>) where
    A: Application,
    P: StatePredicate<A>,
    S: StateMutator<A>,
    Q: ScreenshotPredicate,
    B: TraceBackend<A>,

    ensures
        (r matches Err(e) ==> match e {
            TraceError::AssertionFailed { index } => index < trace_events@.len()
                && trace_events@[index as int].is_assertion(),
            TraceError::InfrastructureFailed { index } => index < trace_events@.len()
                && trace_events@[index as int].is_capture(),
        }),
        (forall|i: int|
            0 <= i < trace_events@.len() ==> !trace_events@[i].is_assertion()
                && !trace_events@[i].is_capture()) ==> r is Ok,
{
    let ghost all = trace_events@;
    let mut app = A::new(flags);
    let mut remaining = trace_events;
    let total = remaining.len();
    let mut idx: usize = 0;
    while remaining.len() > 0
        invariant
            all == trace_events@,
            total == all.len(),
            idx + remaining@.len() == all.len(),
            remaining@ == all.skip(idx as int),
        decreases remaining@.len(),
    {
        let ev = remaining.remove(0);
        proof {
            assert(ev == all[idx as int]);
            assert(remaining@ =~= all.skip(idx as int + 1));
        }
        match ev {
            TraceEvent::Message(message) => {
                app.update(message);
            },
            TraceEvent::Duration(duration_millis) => {
                backend.sleep(duration_millis);
            },
            TraceEvent::StateCheck(state_check) => {
                let holds = state_check.check(&app);
                match assess_assertion(holds, idx) {
                    Ok(_) => {},
                    Err(e) => {
                        return Err(e);
                    },
                }
            },
            TraceEvent::SetState(set_state) => {
                set_state.mutate(&mut app);
            },
            TraceEvent::CheckScreenshot(screenshot_check) => {
                match backend.capture(&mut app, DEFAULT_WINDOW_WIDTH, DEFAULT_WINDOW_HEIGHT) {
                    None => {
                        return Err(TraceError::InfrastructureFailed { index: idx });
                    },
                    Some(screenshot) => {
                        let holds = screenshot_check.check(&screenshot);
                        match assess_assertion(holds, idx) {
                            Ok(_) => {},
                            Err(e) => {
                                return Err(e);
                            },
                        }
                    },
                }
            },
            TraceEvent::TakeScreenshot(path) => {
                match backend.capture(&mut app, DEFAULT_WINDOW_WIDTH, DEFAULT_WINDOW_HEIGHT) {
                    None => {
                        return Err(TraceError::InfrastructureFailed { index: idx });
                    },
                    Some(screenshot) => {
                        match screenshot.encode_png_checked() {
                            None => {
                                return Err(TraceError::InfrastructureFailed { index: idx });
                            },
                            Some(bytes) => {
                                if !backend.save(&path, &bytes) {
                                    return Err(TraceError::InfrastructureFailed { index: idx });
                                }
                            },
                        }
                    },
                }
            },
        }
        idx += 1;
    }
    Ok(app)
}

/// Runs an application headlessly against a trace made of messages alone.
/// Such a run needs no outside work and cannot fail: it returns the
/// application after all messages have been exhausted.
pub fn execute_message_trace<A>(flags: A::Flags, messages: Vec<A::Message>) -> (r: A) where
    A: Application,
 {
    let mut events: Vec<
        TraceEvent<A::Message, NoStateCheck, NoStateMutation, NoScreenshotCheck>,
    > = Vec::new();
    let mut remaining = messages;
    while remaining.len() > 0
        invariant
            forall|i: int| 0 <= i < events@.len() ==> events@[i] is Message,
        decreases remaining@.len(),
    {
        let message = remaining.remove(0);
        events.push(TraceEvent::Message(message));
    }
    let mut backend = NullBackend;
    match execute_iced_trace::<A, NoStateCheck, NoStateMutation, NoScreenshotCheck, NullBackend>(
        flags,
        events,
        &mut backend,
    ) {
        Ok(app) => app,
        Err(_) => unreached(),
    }
}

} // verus!
