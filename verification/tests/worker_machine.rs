use paperdump::dispatcher::{Dispatcher, Route};
use paperdump::event::DocEvent;
use paperdump::worker::{Phase, StepFailure, Worker};

#[test]
fn chunks_inside_quiet_period_slide_the_deadline() {
    // Created at t0 = 10_000 ms, quiet period 5 s, chunks 1 s and 2 s later.
    let mut w = Worker::new(String::from("scan.png"), 5_000, 10_000);
    assert_eq!(w.deadline, 15_000);
    assert_eq!(w.phase, Phase::Accumulating);
    w.on_chunk(11_000);
    assert_eq!(w.deadline, 16_000);
    assert_eq!(w.phase, Phase::Accumulating);
    w.on_chunk(12_000);
    assert_eq!(w.deadline, 17_000);
    assert_eq!(w.phase, Phase::Accumulating);
    // No further chunk: the wait times out at the deadline.
    w.on_timeout(17_000);
    assert_eq!(w.phase, Phase::Recognizing);
}

#[test]
fn full_scenario_through_done() {
    // Created("scan.png") at t0; chunks at t0+1s and t0+2s; quiet period 5s.
    let t0: u64 = 1_000;
    let mut d = Dispatcher::new();
    let r = d.route(DocEvent::Created(String::from("scan.png")), 42);
    assert_eq!(r, Route::Spawned(42));

    let mut w = Worker::new(String::from("scan.png"), 5_000, t0);
    w.on_chunk(t0 + 1_000);
    w.on_chunk(t0 + 2_000);
    // The last chunk was at t0+2s, so the worker enters processing at t0+7s.
    assert_eq!(w.deadline, t0 + 7_000);
    w.on_timeout(t0 + 7_000);
    assert_eq!(w.phase, Phase::Recognizing);

    w.on_recognition(Some(String::from("Hello World")));
    assert_eq!(w.phase, Phase::Writing(String::from("Hello World")));
    w.on_artifact_written(true);
    assert_eq!(w.phase, Phase::Relocating);
    w.on_relocated(true);
    assert_eq!(w.phase, Phase::Done);

    let outcome = w.outcome_event();
    assert_eq!(outcome, Some(DocEvent::Done(String::from("scan.png"))));
    let r = d.route(outcome.unwrap(), 0);
    assert_eq!(r, Route::Reclaimed);
    assert_eq!(d.pending(), 0);
}

#[test]
fn empty_recognition_fails_without_a_write() {
    let mut w = Worker::new(String::from("scan.png"), 5_000, 0);
    w.on_timeout(5_000);
    w.on_recognition(Some(String::new()));
    assert_eq!(w.phase, Phase::Failed(StepFailure::Recognition));
    assert_eq!(
        w.outcome_event(),
        Some(DocEvent::Failed(String::from("scan.png")))
    );
}

#[test]
fn failed_recognition_fails_without_a_write() {
    let mut w = Worker::new(String::from("scan.png"), 5_000, 0);
    w.on_timeout(5_000);
    w.on_recognition(None);
    assert_eq!(w.phase, Phase::Failed(StepFailure::Recognition));
}

#[test]
fn failed_artifact_write_short_circuits() {
    let mut w = Worker::new(String::from("scan.png"), 5_000, 0);
    w.on_timeout(5_000);
    w.on_recognition(Some(String::from("text")));
    w.on_artifact_written(false);
    assert_eq!(w.phase, Phase::Failed(StepFailure::ArtifactWrite));
    assert_eq!(
        w.outcome_event(),
        Some(DocEvent::Failed(String::from("scan.png")))
    );
}

#[test]
fn failed_relocation_keeps_the_artifact_step_result() {
    let mut w = Worker::new(String::from("scan.png"), 5_000, 0);
    w.on_timeout(5_000);
    w.on_recognition(Some(String::from("text")));
    w.on_artifact_written(true);
    w.on_relocated(false);
    assert_eq!(w.phase, Phase::Failed(StepFailure::Relocate));
    assert_eq!(
        w.outcome_event(),
        Some(DocEvent::Failed(String::from("scan.png")))
    );
}

#[test]
fn no_outcome_before_a_terminal_phase() {
    let mut w = Worker::new(String::from("scan.png"), 5_000, 0);
    assert_eq!(w.outcome_event(), None);
    w.on_timeout(5_000);
    assert_eq!(w.outcome_event(), None);
    w.on_recognition(Some(String::from("text")));
    assert_eq!(w.outcome_event(), None);
    w.on_artifact_written(true);
    assert_eq!(w.outcome_event(), None);
}
