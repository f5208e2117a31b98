use rumos::command::BrightnessCommand;
use rumos::engine::{plan_adjustment, AdjustEngine};
use rumos::MAX_CONCURRENCY;

/// A stand-in for one physical display: a level, and a switch that makes
/// its next write fail.
struct FakeDevice {
    level: u32,
    write_fails: bool,
}

impl FakeDevice {
    fn write(&mut self, level: u32) -> bool {
        if self.write_fails {
            return false;
        }
        self.level = level;
        true
    }
}

#[test]
fn the_limit_is_never_exceeded() {
    // Four devices, limit two: the engine refuses a third launch until a
    // completion frees a slot, so at most two operations are ever in
    // flight. The engine's own counter is the instrument.
    let mut engine = AdjustEngine::new(2);
    let mut max_in_flight: usize = 0;
    let mut started: usize = 0;
    let mut pending: usize = 0;
    while started < 4 || pending > 0 {
        if started < 4 && engine.can_launch() {
            engine.launch();
            started += 1;
            pending += 1;
        } else {
            engine.complete(true);
            pending -= 1;
        }
        max_in_flight = max_in_flight.max(engine.in_flight);
        assert!(engine.in_flight <= 2);
    }
    engine.drain();
    assert_eq!(max_in_flight, 2);
    assert!(engine.finished());
    assert!(engine.all_succeeded());
    assert_eq!(engine.attempted, 4);
}

#[test]
fn a_full_slot_refuses_a_launch() {
    let mut engine = AdjustEngine::new(1);
    assert!(engine.can_launch());
    engine.launch();
    assert!(!engine.can_launch());
    engine.complete(true);
    assert!(engine.can_launch());
    engine.drain();
    assert!(engine.finished());
}

#[test]
fn one_write_failure_leaves_siblings_adjusted() {
    // Three devices at [10, 50, 95]; the middle one fails its write.
    // The pass still attempts every device: the siblings land on their
    // new levels and only the aggregate verdict reports the failure.
    let command = BrightnessCommand::Inc { percent: 20 };
    let mut devices = vec![
        FakeDevice { level: 10, write_fails: false },
        FakeDevice { level: 50, write_fails: true },
        FakeDevice { level: 95, write_fails: false },
    ];
    let mut engine = AdjustEngine::new(MAX_CONCURRENCY);
    for device in devices.iter_mut() {
        assert!(engine.can_launch());
        engine.launch();
        let plan = plan_adjustment(&command, &Ok(device.level));
        let ok = match plan {
            Ok(Some(level)) => device.write(level),
            Ok(None) => true,
            Err(_) => false,
        };
        engine.complete(ok);
    }
    engine.drain();
    assert!(engine.finished());
    assert!(!engine.all_succeeded());
    assert_eq!(engine.attempted, 3);
    assert_eq!(engine.failures, 1);
    let levels: Vec<u32> = devices.iter().map(|d| d.level).collect();
    assert_eq!(levels, vec![30, 50, 100]);
    // The failure stays with its device: the invocation still succeeds,
    // so the report pass runs and gives every device its outcome line.
    assert!(engine.conclude_adjustment().is_ok());
}

#[test]
fn an_unavailable_slot_is_one_failed_outcome() {
    let mut engine = AdjustEngine::new(MAX_CONCURRENCY);
    engine.unavailable();
    engine.launch();
    engine.complete(true);
    engine.drain();
    assert!(engine.finished());
    assert!(!engine.all_succeeded());
    assert_eq!(engine.attempted, 2);
    assert_eq!(engine.failures, 1);
    assert_eq!(engine.unavailable, 1);
}

#[test]
fn per_device_failures_never_escalate() {
    // Two of three devices fail their operations: the pass still
    // concludes success for the invocation — the failures belong to the
    // report pass, not the process boundary.
    let mut engine = AdjustEngine::new(MAX_CONCURRENCY);
    engine.launch();
    engine.complete(false);
    engine.launch();
    engine.complete(true);
    engine.launch();
    engine.complete(false);
    engine.drain();
    assert!(engine.finished());
    assert!(!engine.all_succeeded());
    assert!(engine.conclude_adjustment().is_ok());
}

#[test]
fn a_mixed_pass_with_undeliverable_slots_still_concludes_ok() {
    // One slot the source could not deliver beside one live device: at
    // least one device was reachable, so nothing escalates.
    let mut engine = AdjustEngine::new(MAX_CONCURRENCY);
    engine.unavailable();
    engine.launch();
    engine.complete(true);
    engine.drain();
    assert!(engine.conclude_adjustment().is_ok());
}

#[test]
fn total_enumeration_failure_escalates() {
    // Every recorded outcome was an undeliverable slot: no device was
    // reachable at all, the one failure class that reaches the process
    // boundary.
    let mut engine = AdjustEngine::new(MAX_CONCURRENCY);
    engine.unavailable();
    engine.unavailable();
    engine.drain();
    let verdict = engine.conclude_adjustment();
    let error = verdict.err().expect("a source with no reachable device must escalate");
    assert_eq!(error.message(), "Brightness error: device enumeration failed");
}

#[test]
fn an_empty_selection_concludes_ok() {
    let mut engine = AdjustEngine::new(MAX_CONCURRENCY);
    engine.drain();
    assert!(engine.conclude_adjustment().is_ok());
}
