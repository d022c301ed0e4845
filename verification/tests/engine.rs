//! Trace execution against a counter-style application.

use iced_harness::runners::{
    execute_iced_trace, execute_message_trace, Application, NoScreenshotCheck, NoStateMutation,
    NullBackend, TraceError,
};
use iced_harness::trace_events::{StateMutator, StatePredicate};
use iced_harness::TraceEvent;

#[derive(Debug, PartialEq)]
struct Counter {
    value: i64,
}

#[derive(Debug)]
enum CounterMsg {
    Increment,
    Decrement,
}

impl Application for Counter {
    type Message = CounterMsg;
    type Flags = i64;

    fn new(flags: i64) -> Self {
        Counter { value: flags }
    }

    fn update(&mut self, message: CounterMsg) {
        match message {
            CounterMsg::Increment => self.value += 1,
            CounterMsg::Decrement => self.value -= 1,
        }
    }
}

/// Asserts that the counter holds exactly this value.
struct ValueIs(i64);

impl StatePredicate<Counter> for ValueIs {
    fn check(&self, app: &Counter) -> bool {
        app.value == self.0
    }
}

/// An assertion that never holds.
struct AlwaysFalse;

impl StatePredicate<Counter> for AlwaysFalse {
    fn check(&self, _app: &Counter) -> bool {
        false
    }
}

/// Forces the counter to a fixed value, bypassing the update handler.
struct SetValue(i64);

impl StateMutator<Counter> for SetValue {
    fn mutate(&self, app: &mut Counter) {
        app.value = self.0;
    }
}

type Ev<P, S> = TraceEvent<CounterMsg, P, S, NoScreenshotCheck>;

#[test]
fn two_increments_yield_two() {
    let app = execute_message_trace::<Counter>(
        0,
        vec![CounterMsg::Increment, CounterMsg::Increment],
    );
    assert_eq!(app.value, 2);
}

#[test]
fn embedded_state_checks_pass() {
    let events: Vec<Ev<ValueIs, NoStateMutation>> = vec![
        TraceEvent::Message(CounterMsg::Increment),
        TraceEvent::StateCheck(ValueIs(1)),
        TraceEvent::Message(CounterMsg::Decrement),
        TraceEvent::StateCheck(ValueIs(0)),
    ];
    let mut backend = NullBackend;
    let result = execute_iced_trace::<Counter, _, _, _, _>(0, events, &mut backend);
    let app = result.expect("no assertion failure was expected");
    assert_eq!(app.value, 0);
}

#[test]
fn false_assertion_reports_assertion_failure() {
    let events: Vec<Ev<AlwaysFalse, NoStateMutation>> =
        vec![TraceEvent::StateCheck(AlwaysFalse)];
    let mut backend = NullBackend;
    let err = execute_iced_trace::<Counter, _, _, _, _>(0, events, &mut backend).unwrap_err();
    assert_eq!(err, TraceError::AssertionFailed { index: 0 });
    assert!(matches!(err, TraceError::AssertionFailed { .. }));
    assert!(!matches!(err, TraceError::InfrastructureFailed { .. }));
}

#[test]
fn failure_reports_the_failing_event_index() {
    let events: Vec<Ev<ValueIs, NoStateMutation>> = vec![
        TraceEvent::Message(CounterMsg::Increment),
        TraceEvent::StateCheck(ValueIs(1)),
        TraceEvent::StateCheck(ValueIs(7)),
    ];
    let mut backend = NullBackend;
    let err = execute_iced_trace::<Counter, _, _, _, _>(0, events, &mut backend).unwrap_err();
    assert_eq!(err, TraceError::AssertionFailed { index: 2 });
}

#[test]
fn set_state_bypasses_the_update_handler() {
    let events: Vec<Ev<ValueIs, SetValue>> = vec![
        TraceEvent::SetState(SetValue(41)),
        TraceEvent::Message(CounterMsg::Increment),
        TraceEvent::StateCheck(ValueIs(42)),
    ];
    let mut backend = NullBackend;
    let app = execute_iced_trace::<Counter, _, _, _, _>(0, events, &mut backend)
        .expect("trace should complete");
    assert_eq!(app.value, 42);
}

#[test]
fn waits_do_not_disturb_the_run() {
    let events: Vec<Ev<ValueIs, NoStateMutation>> = vec![
        TraceEvent::Message(CounterMsg::Increment),
        TraceEvent::Duration(1),
        TraceEvent::StateCheck(ValueIs(1)),
    ];
    let mut backend = NullBackend;
    let app = execute_iced_trace::<Counter, _, _, _, _>(0, events, &mut backend)
        .expect("trace should complete");
    assert_eq!(app.value, 1);
}

#[test]
fn capture_without_a_renderer_is_an_infrastructure_failure() {
    let events: Vec<Ev<ValueIs, NoStateMutation>> =
        vec![TraceEvent::TakeScreenshot(String::from("golden.png"))];
    let mut backend = NullBackend;
    let err = execute_iced_trace::<Counter, _, _, _, _>(0, events, &mut backend).unwrap_err();
    assert_eq!(err, TraceError::InfrastructureFailed { index: 0 });
    assert!(!matches!(err, TraceError::AssertionFailed { .. }));
}

#[test]
fn an_empty_trace_returns_the_initial_state() {
    let app = execute_message_trace::<Counter>(7, vec![]);
    assert_eq!(app.value, 7);
}
