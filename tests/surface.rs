use worksmart::media::{portrait_file_name, screenshot_file_name};
use worksmart::{
    update, window_to_show, AppWindow, Auth, AutostartChange, Configuration, PermissionType, PermisssionsStatus,
    Preferences, RecordCommand,
};

#[test]
fn window_labels_and_titles() {
    assert_eq!(AppWindow::Login.label(), "login");
    assert_eq!(AppWindow::Track.label(), "track");
    assert_eq!(AppWindow::TimeCard.label(), "time-card");
    assert_eq!(AppWindow::Settings.label(), "settings");
    assert_eq!(AppWindow::Permissions.label(), "permissions");
    assert_eq!(AppWindow::TimeCard.title(), "time card");
    assert_eq!(AppWindow::Login.title(), "login");
    for w in [
        AppWindow::Login,
        AppWindow::Track,
        AppWindow::TimeCard,
        AppWindow::Settings,
        AppWindow::Permissions,
    ] {
        assert_eq!(AppWindow::from_label(&w.label()), w);
    }
    assert_eq!(AppWindow::try_from_label("time card"), None);
    assert_eq!(AppWindow::try_from_label(""), None);
}

#[test]
fn permissions_required() {
    let all = PermisssionsStatus { camera: true, accessibility: true, screen_capture: true };
    assert!(all.required_granted());
    let no_cam = PermisssionsStatus { camera: false, ..all };
    assert!(!no_cam.required_granted());
    let no_screen = PermisssionsStatus { screen_capture: false, ..all };
    assert!(!no_screen.required_granted());
    assert!(PermissionType::Camera.settings_page().ends_with("Privacy_Camera"));
    assert_eq!(
        PermissionType::ScreenCapture.settings_page(),
        "x-apple.systempreferences:com.apple.preference.security?Privacy_ScreenCapture"
    );
    assert!(PermissionType::Accessibility.settings_page().ends_with("Privacy_Accessibility"));
}

#[test]
fn autostart_changes() {
    assert_eq!(update(true, true), AutostartChange::Keep);
    assert_eq!(update(false, false), AutostartChange::Keep);
    assert_eq!(update(false, true), AutostartChange::Enable);
    assert_eq!(update(true, false), AutostartChange::Disable);
}

#[test]
fn configuration_defaults() {
    let c = Configuration::default();
    assert_eq!(c.capsule_storage_dir, "capsules");
    assert_eq!(c.media_storage_dir, "media");
    assert!(!c.launch_on_startup && !c.signin_on_launch && !c.track_on_signin && !c.enable_camera);
    assert_eq!(c.preferences.time_gap_duration_in_seconds, 600);
    assert_eq!(Preferences::default().time_gap_duration_in_seconds, 600);
}

#[test]
fn auth_signed_in() {
    assert!(Auth::empty().signed_in().is_none());
    let a = Auth { token: "SECRET-REDACTED".to_string(), name: "ada".to_string() };
    let s = a.clone().signed_in().unwrap();
    assert_eq!(s.name, "ada");
    assert_eq!(s.token, a.token);
}

#[test]
fn screenshot_names() {
    assert_eq!(
        screenshot_file_name("Editor", "HDMI-1", "2024-01-01T10:00:00+00:00"),
        "screenshot_Editor_2024-01-01T10:00:00+00:00.png"
    );
    assert_eq!(screenshot_file_name("", "HDMI-1", "t"), "screenshot_HDMI-1_t.png");
    assert_eq!(portrait_file_name(), "portrait.png");
}

#[test]
fn record_commands_compare() {
    assert_ne!(RecordCommand::Start, RecordCommand::Stop);
    assert_eq!(RecordCommand::Pause, RecordCommand::Pause);
    assert_ne!(RecordCommand::Resume, RecordCommand::Pause);
}

#[test]
fn first_window_follows_permissions_and_sign_in() {
    let all = PermisssionsStatus { camera: true, accessibility: true, screen_capture: true };
    let partial = PermisssionsStatus { accessibility: false, ..all };
    assert_eq!(window_to_show(&partial, true), AppWindow::Permissions);
    assert_eq!(window_to_show(&partial, false), AppWindow::Permissions);
    assert_eq!(window_to_show(&all, false), AppWindow::Login);
    assert_eq!(window_to_show(&all, true), AppWindow::Track);
}

#[test]
fn rand_numbers_vary() {
    let mut seen = std::collections::BTreeSet::new();
    for _ in 0..20 {
        seen.insert(worksmart::gen_rand_number());
    }
    assert!(seen.len() > 1);
}
