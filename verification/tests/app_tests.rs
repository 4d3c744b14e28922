use moonlight::app_model::{
    application_label, connection_heading, AppModel, StreamKeyAction, COMPUTERS_PAGE, GAMES_PAGE,
    LICENSES_PAGE, LICENSE_DETAIL_PAGE, SETTINGS_PAGE,
};
use moonlight::control::{ConnectProgress, ControlError, SessionPhase};
use moonlight::held_input::{ShortcutDispatch, StreamShortcut};
use moonlight::settings::{ClientSettings, SETTINGS_FILE};

#[test]
fn a_new_window_waits_for_a_host() {
    let model = AppModel::new();
    assert_eq!(model.phase, SessionPhase::Idle);
    assert_eq!(model.status, "Enter a Sunshine host");
    assert_eq!(model.selected_page, COMPUTERS_PAGE);
    assert_eq!(model.window_title, "Moonlight");
    assert_eq!(connection_heading(&model.phase), "No PCs found");
}

#[test]
fn connecting_trims_the_host_and_refuses_a_second_attempt() {
    let mut model = AppModel::new();
    assert_eq!(model.begin_connect("   "), None);
    assert_eq!(model.status, "Enter a host first");
    assert_eq!(model.begin_connect(" 192.168.0.10 "), Some(String::from("192.168.0.10")));
    assert_eq!(model.phase, SessionPhase::Connecting);
    assert_eq!(model.status, "Querying 192.168.0.10");
    assert_eq!(connection_heading(&model.phase), "Connecting to your PC…");
    assert_eq!(model.begin_connect("other"), None);
    assert_eq!(model.status, "Querying 192.168.0.10");
}

#[test]
fn connection_progress_and_failure_are_shown() {
    let mut model = AppModel::new();
    model.begin_connect("studio");
    model.connect_progress(&ConnectProgress::WaitingForPin(String::from("1234")), "studio");
    assert_eq!(model.phase, SessionPhase::Pairing);
    assert_eq!(model.pairing, "Enter PIN 1234 on the Sunshine host");
    model.connect_progress(&ConnectProgress::PairingStage(3), "studio");
    assert_eq!(model.status, "Pairing stage 3/5");
    model.connect_finished(Err(ControlError::Pairing(String::from("incorrect PIN"))));
    assert_eq!(model.status, "pairing failed: incorrect PIN");
    assert_eq!(model.phase, SessionPhase::Failed(String::from("pairing failed: incorrect PIN")));
}

#[test]
fn launching_needs_a_host_and_an_application() {
    let mut model = AppModel::new();
    assert!(model.begin_launch().is_none());
    assert_eq!(model.status, "Connect to a host first");
    assert!(model.start_application(0).is_none());
}

#[test]
fn pages_navigate_back_to_their_parent() {
    let mut model = AppModel::new();
    model.open_settings();
    assert_eq!(model.selected_page, SETTINGS_PAGE);
    model.go_back();
    assert_eq!(model.selected_page, COMPUTERS_PAGE);
    model.open_licenses();
    assert_eq!(model.selected_page, LICENSES_PAGE);
    model.open_license(3);
    assert_eq!(model.selected_page, LICENSE_DETAIL_PAGE);
    assert_eq!(model.selected_license, 3);
    model.go_back();
    assert_eq!(model.selected_page, LICENSES_PAGE);
}

#[test]
fn stream_shortcuts_drive_the_window() {
    let mut model = AppModel::new();
    model.selected_page = GAMES_PAGE;
    assert_eq!(
        model.stream_key(ShortcutDispatch::Command(StreamShortcut::ToggleFullscreen), true),
        StreamKeyAction::ToggledFullscreen
    );
    assert!(model.fullscreen_desired);
    assert_eq!(
        model.stream_key(ShortcutDispatch::Consumed, true),
        StreamKeyAction::Swallowed
    );
    assert_eq!(
        model.stream_key(ShortcutDispatch::NotShortcut, true),
        StreamKeyAction::Ignore
    );
    assert_eq!(application_label(2, 2), "RUNNING · CLICK TO RESUME");
    assert_eq!(application_label(0, 2), "CLICK TO STREAM");
}

#[test]
fn settings_default_to_positional_buttons() {
    assert_eq!(ClientSettings::default(), ClientSettings { swap_ab: false });
    assert_eq!(SETTINGS_FILE, "settings.json");
}
