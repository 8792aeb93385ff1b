use enigma::config::Application;
use enigma::driver::{Driver, DriverState, LoopEvent, Outcome};
use enigma::lifecycle::Runnable;

#[derive(Default)]
struct Recorder {
    calls: Vec<&'static str>,
    updates: u32,
    fail_initialize: bool,
    failing_updates: Vec<u32>,
}

impl Runnable for Recorder {
    fn initialize(&mut self, _app: &mut Application) -> Result<(), anyhow::Error> {
        self.calls.push("initialize");
        if self.fail_initialize {
            Err(anyhow::Error::msg("boom"))
        } else {
            Ok(())
        }
    }

    fn update(&mut self, _app: &mut Application) -> Result<(), anyhow::Error> {
        self.calls.push("update");
        self.updates += 1;
        if self.failing_updates.contains(&self.updates) {
            Err(anyhow::Error::msg(format!("update {} failed", self.updates)))
        } else {
            Ok(())
        }
    }
}

struct Quiet;

impl Runnable for Quiet {}

fn driver(recorder: Recorder) -> Driver<Recorder> {
    Driver::new(recorder, Application { window: None })
}

#[test]
fn initialize_failure_is_returned_and_nothing_updates() {
    let mut d = driver(Recorder { fail_initialize: true, ..Recorder::default() });
    let events = vec![LoopEvent::FrameReady, LoopEvent::FrameReady, LoopEvent::CloseRequested];
    let r = d.run_events(&events);
    let err = r.expect_err("initialize failed");
    assert!(err.to_string().contains("boom"));
    assert_eq!(d.runnable.updates, 0);
    assert_eq!(d.runnable.calls, vec!["initialize"]);
    assert_eq!(d.state, DriverState::Failed);
}

#[test]
fn failing_updates_do_not_stop_the_loop() {
    let mut d = driver(Recorder { failing_updates: vec![1, 2], ..Recorder::default() });
    let events = vec![
        LoopEvent::FrameReady,
        LoopEvent::FrameReady,
        LoopEvent::FrameReady,
        LoopEvent::CloseRequested,
        LoopEvent::FrameReady,
        LoopEvent::LoopDestroyed,
    ];
    assert!(d.run_events(&events).is_ok());
    assert_eq!(d.runnable.updates, 3);
    assert_eq!(d.state, DriverState::Exiting);
}

#[test]
fn many_failures_still_allow_the_next_update() {
    let mut d = driver(Recorder { failing_updates: (1..=10).collect(), ..Recorder::default() });
    let mut events = vec![LoopEvent::FrameReady; 11];
    events.push(LoopEvent::CloseRequested);
    assert!(d.run_events(&events).is_ok());
    assert_eq!(d.runnable.updates, 11);
}

#[test]
fn initialize_comes_once_before_updates() {
    let mut d = driver(Recorder::default());
    let events = vec![
        LoopEvent::Other,
        LoopEvent::FrameReady,
        LoopEvent::Other,
        LoopEvent::FrameReady,
        LoopEvent::CloseRequested,
    ];
    assert!(d.run_events(&events).is_ok());
    assert_eq!(d.runnable.calls, vec!["initialize", "update", "update"]);
}

#[test]
fn no_update_after_close_request() {
    let mut d = driver(Recorder::default());
    let events = vec![
        LoopEvent::CloseRequested,
        LoopEvent::FrameReady,
        LoopEvent::FrameReady,
        LoopEvent::CloseRequested,
        LoopEvent::LoopDestroyed,
    ];
    assert!(d.run_events(&events).is_ok());
    assert_eq!(d.runnable.updates, 0);
    assert_eq!(d.state, DriverState::Exiting);
}

#[test]
fn loop_teardown_ends_updates() {
    let mut d = driver(Recorder::default());
    let events = vec![LoopEvent::FrameReady, LoopEvent::LoopDestroyed, LoopEvent::FrameReady];
    assert!(d.run_events(&events).is_ok());
    assert_eq!(d.runnable.updates, 1);
}

#[test]
fn empty_event_stream_only_initializes() {
    let mut d = driver(Recorder::default());
    assert!(d.run_events(&Vec::new()).is_ok());
    assert_eq!(d.runnable.calls, vec!["initialize"]);
    assert_eq!(d.state, DriverState::Polling);
}

#[test]
fn handle_reports_each_action() {
    let mut d = driver(Recorder { failing_updates: vec![2], ..Recorder::default() });
    assert!(matches!(d.handle(LoopEvent::FrameReady), Outcome::Continue));
    assert_eq!(d.runnable.updates, 0);
    assert!(d.initialize().is_ok());
    assert_eq!(d.state, DriverState::Polling);
    assert!(matches!(d.handle(LoopEvent::FrameReady), Outcome::Continue));
    match d.handle(LoopEvent::FrameReady) {
        Outcome::UpdateFailed(e) => assert_eq!(e.to_string(), "update 2 failed"),
        _ => panic!("the second update fails"),
    }
    assert!(matches!(d.handle(LoopEvent::Other), Outcome::Continue));
    assert!(matches!(d.handle(LoopEvent::CloseRequested), Outcome::Exit));
    assert_eq!(d.state, DriverState::Exiting);
    assert!(matches!(d.handle(LoopEvent::FrameReady), Outcome::Continue));
    assert!(matches!(d.handle(LoopEvent::CloseRequested), Outcome::Continue));
    assert!(matches!(d.handle(LoopEvent::LoopDestroyed), Outcome::Shutdown));
    assert_eq!(d.runnable.updates, 2);
}

#[test]
fn teardown_while_polling_is_reported() {
    let mut d = driver(Recorder::default());
    assert!(d.initialize().is_ok());
    assert!(matches!(d.handle(LoopEvent::LoopDestroyed), Outcome::Shutdown));
    assert_eq!(d.state, DriverState::Exiting);
}

#[test]
fn failed_driver_ignores_events() {
    let mut d = driver(Recorder { fail_initialize: true, ..Recorder::default() });
    assert!(d.initialize().is_err());
    assert!(matches!(d.handle(LoopEvent::FrameReady), Outcome::Continue));
    assert!(matches!(d.handle(LoopEvent::CloseRequested), Outcome::Continue));
    assert!(matches!(d.handle(LoopEvent::LoopDestroyed), Outcome::Continue));
    assert_eq!(d.runnable.updates, 0);
    assert_eq!(d.state, DriverState::Failed);
}

#[test]
fn default_lifecycle_does_nothing_and_succeeds() {
    let mut d = Driver::new(Quiet, Application { window: None });
    let events = vec![LoopEvent::FrameReady, LoopEvent::CloseRequested];
    assert!(d.run_events(&events).is_ok());
    assert_eq!(d.state, DriverState::Exiting);
}

#[test]
fn default_lifecycle_methods_succeed() {
    let mut app = Application { window: None };
    let mut q = Quiet;
    assert!(q.initialize(&mut app).is_ok());
    assert!(q.update(&mut app).is_ok());
    assert!(app.window.is_none());
}
