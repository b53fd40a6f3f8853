use fsrewire::beacon::{beacon_step, is_running, BeaconConfig, BeaconEvent, BeaconState, BeaconStatus};

fn run(events: &[BeaconEvent]) -> (BeaconState, Vec<BeaconStatus>) {
    let mut state = BeaconState::Idle;
    let mut reports = Vec::new();
    for e in events {
        let step = beacon_step(state, *e);
        if let Some(r) = step.report {
            reports.push(r);
        }
        state = step.next;
    }
    (state, reports)
}

#[test]
fn first_send_announces_the_port() {
    let config = BeaconConfig::discovery_default();
    assert_eq!(config.payload("500"), "FSR_SMC:500");
    assert_eq!(config.target, "255.255.255.255:1234");
    let step = beacon_step(BeaconState::Idle, BeaconEvent::SendSucceeded);
    assert_eq!(step.next, BeaconState::Broadcasting);
    assert_eq!(step.report, Some(BeaconStatus::Success));
    assert_eq!(BeaconStatus::Success.label(), "ok");
}

#[test]
fn setup_failure_reports_one_error_then_nothing() {
    let (state, reports) = run(&[
        BeaconEvent::SetupFailed,
        BeaconEvent::SendSucceeded,
        BeaconEvent::SendFailed,
        BeaconEvent::SetupFailed,
    ]);
    assert_eq!(reports, vec![BeaconStatus::Error]);
    assert_eq!(state, BeaconState::Stopped);
    assert!(!is_running(state));
    assert_eq!(BeaconStatus::Error.label(), "error");
}

#[test]
fn send_failure_after_success_is_final() {
    let (state, reports) = run(&[
        BeaconEvent::SendSucceeded,
        BeaconEvent::SendSucceeded,
        BeaconEvent::SendFailed,
        BeaconEvent::SendSucceeded,
    ]);
    assert_eq!(reports, vec![BeaconStatus::Success, BeaconStatus::Success, BeaconStatus::Error]);
    assert_eq!(state, BeaconState::Stopped);
}

#[test]
fn running_states() {
    assert!(is_running(BeaconState::Idle));
    assert!(is_running(BeaconState::Broadcasting));
    assert!(!is_running(BeaconState::Stopped));
}

#[test]
fn payload_uses_configured_prefix() {
    let config = BeaconConfig { prefix: "TAG".to_string(), target: "10.0.0.255:9".to_string() };
    assert_eq!(config.payload("65535"), "TAG:65535");
    assert_eq!(config.payload(""), "TAG:");
}

#[test]
fn sentinel_labels_round_trip() {
    for status in [BeaconStatus::Success, BeaconStatus::Error] {
        assert_eq!(BeaconStatus::from_label(status.label()), Some(status));
    }
    assert_eq!(BeaconStatus::from_label("ok"), Some(BeaconStatus::Success));
    assert_eq!(BeaconStatus::from_label("error"), Some(BeaconStatus::Error));
    assert_eq!(BeaconStatus::from_label("udp-ok"), None);
    assert_eq!(BeaconStatus::from_label("OK"), None);
    assert_eq!(BeaconStatus::from_label(""), None);
}
