//! Capture-and-compare traces against a fake rendering back-end.

use std::cell::RefCell;
use std::collections::HashMap;
use std::rc::Rc;

use iced_harness::runners::{
    execute_iced_trace, Application, NoStateCheck, NoStateMutation, TraceBackend, TraceError,
};
use iced_harness::trace_events::ScreenshotPredicate;
use iced_harness::{Screenshot, TraceEvent};

#[derive(Debug)]
struct StaticApp;

impl Application for StaticApp {
    type Message = ();
    type Flags = ();

    fn new(_flags: ()) -> Self {
        StaticApp
    }

    fn update(&mut self, _message: ()) {}
}

/// A deterministic fake renderer: every capture yields the same 600x600
/// GPU-style frame (rows padded to 2560 bytes), and saves land in an
/// in-memory store shared with the test's predicates.
struct FakeRenderer {
    files: Rc<RefCell<HashMap<String, Vec<u8>>>>,
}

impl TraceBackend<StaticApp> for FakeRenderer {
    fn sleep(&mut self, _duration_millis: u64) {}

    fn capture(&mut self, _app: &mut StaticApp, width: u32, height: u32) -> Option<Screenshot> {
        let padded_row = 2560;
        let payload = vec![0xab; padded_row * height as usize];
        Some(Screenshot::new(payload, width as usize, height as usize))
    }

    fn save(&mut self, path: &String, bytes: &Vec<u8>) -> bool {
        let _ = self.files.borrow_mut().insert(path.clone(), bytes.clone());
        true
    }
}

/// "Decode the just-saved file and compare": reads the golden image back
/// from the shared store, decodes it, and compares it with the fresh
/// capture normalized through the codec round-trip.
struct MatchesSavedGolden {
    files: Rc<RefCell<HashMap<String, Vec<u8>>>>,
    path: String,
}

impl ScreenshotPredicate for MatchesSavedGolden {
    fn check(&self, screenshot: &Screenshot) -> bool {
        let files = self.files.borrow();
        let saved = match files.get(&self.path) {
            Some(bytes) => bytes,
            None => return false,
        };
        let golden = match Screenshot::from_png_bytes(saved) {
            Ok(s) => s,
            Err(_) => return false,
        };
        golden == screenshot.clone().encode_png_frame()
    }
}

#[test]
fn save_then_check_of_an_unchanged_view_reports_equal() {
    let files = Rc::new(RefCell::new(HashMap::new()));
    let path = String::from("golden.png");
    let events: Vec<TraceEvent<(), NoStateCheck, NoStateMutation, MatchesSavedGolden>> = vec![
        TraceEvent::TakeScreenshot(path.clone()),
        TraceEvent::CheckScreenshot(MatchesSavedGolden { files: files.clone(), path }),
    ];
    let mut backend = FakeRenderer { files: files.clone() };
    let result = execute_iced_trace::<StaticApp, _, _, _, _>((), events, &mut backend);
    assert!(result.is_ok());
    assert!(files.borrow().contains_key("golden.png"));
}

#[test]
fn a_failed_screenshot_check_is_an_assertion_failure() {
    /// Rejects every captured frame.
    struct NeverMatches;

    impl ScreenshotPredicate for NeverMatches {
        fn check(&self, _screenshot: &Screenshot) -> bool {
            false
        }
    }

    let files = Rc::new(RefCell::new(HashMap::new()));
    let events: Vec<TraceEvent<(), NoStateCheck, NoStateMutation, NeverMatches>> =
        vec![TraceEvent::CheckScreenshot(NeverMatches)];
    let mut backend = FakeRenderer { files };
    let err = execute_iced_trace::<StaticApp, _, _, _, _>((), events, &mut backend).unwrap_err();
    assert_eq!(err, TraceError::AssertionFailed { index: 0 });
}
