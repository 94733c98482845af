use astra_core_agent::checksum::compute_digest;
use astra_core_agent::monitor::{Monitor, MonitorState, Reading, Signal};

fn polling_monitor(baseline: &[u8]) -> Monitor {
    let mut m = Monitor::new(compute_digest(baseline), "firmware.bin".to_string(), 5);
    m.start();
    m
}

#[test]
fn new_monitor_is_armed_then_polls() {
    let mut m = Monitor::new(compute_digest(b"Stable v1.0"), "firmware.bin".to_string(), 5);
    assert_eq!(m.state(), MonitorState::Armed);
    assert!(!m.is_polling());
    m.start();
    assert_eq!(m.state(), MonitorState::Polling);
    assert!(m.is_polling());
    assert_eq!(m.path(), "firmware.bin");
    assert_eq!(m.interval_secs(), 5);
    assert_eq!(m.trusted(), compute_digest(b"Stable v1.0"));
}

#[test]
fn armed_monitor_runs_no_cycle() {
    let mut m = Monitor::new(compute_digest(b"Stable v1.0"), "firmware.bin".to_string(), 5);
    assert_eq!(m.observe(Reading::Unreadable), None);
    assert_eq!(m.state(), MonitorState::Armed);
}

#[test]
fn unchanged_artifact_stays_polling() {
    let mut m = polling_monitor(b"Stable v1.0");
    let signal = m.observe(Reading::Read(compute_digest(b"Stable v1.0")));
    assert_eq!(signal, Some(Signal::Intact));
    assert_eq!(m.state(), MonitorState::Polling);
}

#[test]
fn overwritten_artifact_raises_alert_and_halts() {
    let mut m = polling_monitor(b"Stable v1.0");
    let signal = m.observe(Reading::Read(compute_digest(b"Corrupted!!")));
    assert_eq!(
        signal,
        Some(Signal::Alert {
            expected: compute_digest(b"Stable v1.0"),
            actual: compute_digest(b"Corrupted!!"),
        })
    );
    assert_eq!(m.state(), MonitorState::Halted);
    assert!(m.is_halted());
    assert!(!m.is_polling());
}

#[test]
fn deleted_artifact_is_unreadable_and_halts() {
    let mut m = polling_monitor(b"Stable v1.0");
    assert_eq!(m.observe(Reading::Unreadable), Some(Signal::Unreadable));
    assert_eq!(m.state(), MonitorState::Halted);
}

#[test]
fn halted_monitor_takes_no_further_reading() {
    let stable = compute_digest(b"Stable v1.0");
    let corrupted = compute_digest(b"Corrupted!!");
    let mut m = polling_monitor(b"Stable v1.0");
    let readings = vec![
        Reading::Read(stable),
        Reading::Read(stable),
        Reading::Read(corrupted),
        Reading::Read(stable),
        Reading::Unreadable,
    ];
    let signals = m.run_cycles(&readings);
    assert_eq!(
        signals,
        vec![
            Signal::Intact,
            Signal::Intact,
            Signal::Alert { expected: stable, actual: corrupted },
        ]
    );
    assert_eq!(m.state(), MonitorState::Halted);
    assert_eq!(m.observe(Reading::Read(stable)), None);
    assert!(m.run_cycles(&readings).is_empty());
    assert_eq!(m.state(), MonitorState::Halted);
}

#[test]
fn unreadable_cycle_is_the_last() {
    let stable = compute_digest(b"Stable v1.0");
    let mut m = polling_monitor(b"Stable v1.0");
    let signals = m.run_cycles(&[Reading::Read(stable), Reading::Unreadable, Reading::Read(stable)]);
    assert_eq!(signals, vec![Signal::Intact, Signal::Unreadable]);
    assert!(m.is_halted());
}

#[test]
fn many_intact_cycles_keep_polling() {
    let stable = compute_digest(b"Stable v1.0");
    let mut m = polling_monitor(b"Stable v1.0");
    let readings = vec![Reading::Read(stable); 1000];
    let signals = m.run_cycles(&readings);
    assert_eq!(signals.len(), 1000);
    assert!(signals.iter().all(|s| *s == Signal::Intact));
    assert_eq!(m.state(), MonitorState::Polling);
}

#[test]
fn no_readings_run_no_cycle() {
    let mut m = polling_monitor(b"Stable v1.0");
    assert!(m.run_cycles(&[]).is_empty());
    assert_eq!(m.state(), MonitorState::Polling);
}
