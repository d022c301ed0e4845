//! A headless test harness for message-driven user-interface applications.
//!
//! The crate drives an application's state machine without a visible display,
//! captures rendered frames as images, and compares captured frames against
//! reference images or caller-supplied predicates.

pub mod rendering;
pub mod runners;
pub mod trace_events;

pub use rendering::screenshot::Screenshot;
pub use trace_events::TraceEvent;
