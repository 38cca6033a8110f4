use irefined_launcher::local_json::{elevation_arguments, elevation_command, launch_succeeded};
use irefined_launcher::update::{after_check, report, CheckOutcome, UpdateStep};

#[test]
fn elevation_command_is_exact() {
    assert_eq!(
        elevation_command("C:\\a\\ui\\config", "C:\\tmp\\x.json", "C:\\a\\ui\\config\\local.json"),
        "New-Item -ItemType Directory -Force -Path 'C:\\a\\ui\\config' | Out-Null; Copy-Item -Path 'C:\\tmp\\x.json' -Destination 'C:\\a\\ui\\config\\local.json' -Force"
    );
    assert_eq!(elevation_arguments("dir"), "-NoProfile -Command \"dir\"");
}

#[test]
fn launch_codes_above_32_mean_success() {
    assert!(launch_succeeded(33));
    assert!(launch_succeeded(i32::MAX));
    assert!(!launch_succeeded(32));
    assert!(!launch_succeeded(0));
    assert!(!launch_succeeded(-1));
}

#[test]
fn only_an_available_update_is_installed() {
    let available = CheckOutcome::UpdateAvailable { version: "1.2.3".to_string() };
    assert_eq!(after_check(&available), UpdateStep::Install);
    assert_eq!(after_check(&CheckOutcome::NoUpdateAvailable), UpdateStep::Done);
    assert_eq!(after_check(&CheckOutcome::RemoteIsEmpty), UpdateStep::Done);
    assert_eq!(after_check(&CheckOutcome::Failed { reason: "x".to_string() }), UpdateStep::Done);
}

#[test]
fn update_outcomes_are_reported() {
    let available = CheckOutcome::UpdateAvailable { version: "1.2.3".to_string() };
    assert_eq!(report(&available), "[INFO] Update available! Version: 1.2.3");
    assert_eq!(report(&CheckOutcome::NoUpdateAvailable), "[INFO] No updates available");
    assert_eq!(report(&CheckOutcome::RemoteIsEmpty), "[INFO] Update source is empty");
    assert_eq!(
        report(&CheckOutcome::Failed { reason: "offline".to_string() }),
        "[ERROR] Update check failed: offline"
    );
}
