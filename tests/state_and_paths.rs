use fsrewire::beacon::BeaconStatus;
use fsrewire::paths::{config_path_candidates, select_config_path, PathError};
use fsrewire::state::{AppState, AppStatus};

#[test]
fn new_state_is_neutral() {
    let s = AppState::new();
    assert_eq!(s.status, AppStatus::Neutral);
    assert_eq!(s.msg_text, "Checking...");
}

#[test]
fn change_under_running_simulator_warns() {
    let mut s = AppState::new();
    assert!(!s.on_config_reconciled(true, true));
    assert_eq!(s.status, AppStatus::Warning);
    assert_eq!(s.msg_text, "⭕ Run this client before the simulator is started.");
}

#[test]
fn otherwise_the_beacon_starts() {
    for (changed, running) in [(false, false), (true, false), (false, true)] {
        let mut s = AppState::new();
        assert!(s.on_config_reconciled(changed, running));
        assert_eq!(s.status, AppStatus::Neutral);
        assert_eq!(s.msg_text, "Checking...");
    }
}

#[test]
fn config_failure_is_an_error() {
    let mut s = AppState::new();
    s.on_config_failed();
    assert_eq!(s.status, AppStatus::Error);
    assert_eq!(s.msg_text, "🔴 Fatal error during SimConnect configuration.");
}

#[test]
fn beacon_reports_update_the_state() {
    let mut s = AppState::new();
    assert!(s.on_beacon_status(BeaconStatus::Success));
    assert_eq!(s.status, AppStatus::Running);
    assert_eq!(s.msg_text, "✅ Client is working normally.");
    assert!(!s.on_beacon_status(BeaconStatus::Success));
    assert_eq!(s.status, AppStatus::Running);
    assert!(s.on_beacon_status(BeaconStatus::Error));
    assert_eq!(s.status, AppStatus::Error);
    assert_eq!(s.msg_text, "🔴 Fatal error during data broadcasting.");
}

#[test]
fn candidates_are_store_then_roaming() {
    let v = config_path_candidates(Some("C:\\Users\\pilot".to_string())).unwrap();
    assert_eq!(v, vec![
        "C:\\Users\\pilot\\AppData\\Local\\Packages\\Microsoft.FlightSimulator_8wekyb3d8bbwe\\LocalCache\\SimConnect.xml".to_string(),
        "C:\\Users\\pilot\\AppData\\Roaming\\Microsoft Flight Simulator\\SimConnect.xml".to_string(),
    ]);
    assert_eq!(config_path_candidates(None), Err(PathError::HomeDirectoryUnavailable));
}

#[test]
fn first_existing_candidate_wins() {
    let c = vec!["store".to_string(), "roaming".to_string()];
    assert_eq!(select_config_path(&c, &vec![true, true]), Ok("store".to_string()));
    assert_eq!(select_config_path(&c, &vec![false, true]), Ok("roaming".to_string()));
    assert_eq!(select_config_path(&c, &vec![false, false]), Err(PathError::ConfigFileNotFound));
    assert_eq!(select_config_path(&c, &vec![false]), Err(PathError::ConfigFileNotFound));
    assert_eq!(select_config_path(&vec![], &vec![]), Err(PathError::ConfigFileNotFound));
}
