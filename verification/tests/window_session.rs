use capture_card_viewer::errors::{AppError, Severity};
use capture_card_viewer::session::{
    audio_input_label, audio_output_label, lookup_name, output_option_label, video_input_label,
    viewport_commands, FramePlan, KeyPresses, SaveCheck, Session, ViewportCommand, WindowLevel,
};
use capture_card_viewer::settings::{Settings, Volume};
use capture_card_viewer::state::Screen;

fn keys(f11: bool, s: bool, esc: bool, quit: bool) -> KeyPresses {
    KeyPresses { toggle_fullscreen: f11, toggle_settings: s, escape: esc, quit }
}

fn chosen() -> Settings {
    let mut s = Settings::defaults();
    s.video_input = Some("USB Video".to_string());
    s.audio_input = Some("in-1".to_string());
    s.audio_output = "out-1".to_string();
    s
}

#[test]
fn new_session_follows_saved_settings() {
    let mut s = chosen();
    s.fullscreen = true;
    s.volume = Volume::from_bits(2.0f32.to_bits());
    let session = Session::new(s);
    assert!(session.is_fullscreen);
    assert!(!session.show_settings);
    assert!(session.runtime_error.is_none());
    assert_eq!(session.volume.to_bits(), 2.0f32.to_bits());
}

#[test]
fn f11_toggles_fullscreen_twice_back() {
    let mut session = Session::new(chosen());
    assert!(!session.handle_keys(Screen::Playing, keys(true, false, false, false)));
    assert!(session.is_fullscreen);
    session.handle_keys(Screen::Playing, keys(true, false, false, false));
    assert!(!session.is_fullscreen);
}

#[test]
fn s_toggles_settings_except_initial_and_error() {
    let mut session = Session::new(chosen());
    session.handle_keys(Screen::Initial, keys(false, true, false, false));
    assert!(!session.show_settings);
    session.handle_keys(Screen::Error, keys(false, true, false, false));
    assert!(!session.show_settings);
    session.handle_keys(Screen::Playing, keys(false, true, false, false));
    assert!(session.show_settings);
    session.handle_keys(Screen::Loading, keys(false, true, false, false));
    assert!(!session.show_settings);
}

#[test]
fn escape_closes_settings_then_leaves_fullscreen() {
    let mut session = Session::new(chosen());
    session.is_fullscreen = true;
    session.show_settings = true;
    session.open_settings_window();
    session.settings.video_input = Some("Other".to_string());
    session.volume = Volume::from_bits(3.0f32.to_bits());
    session.handle_keys(Screen::Playing, keys(false, false, true, false));
    assert!(!session.show_settings);
    assert!(session.is_fullscreen);
    assert_eq!(session.settings.video_input.as_deref(), Some("USB Video"));
    assert_eq!(session.volume.to_bits(), 1.5f32.to_bits());
    assert!(session.settings_snapshot.is_none());
    session.handle_keys(Screen::Playing, keys(false, false, true, false));
    assert!(!session.is_fullscreen);
}

#[test]
fn quit_key_is_reported() {
    let mut session = Session::new(chosen());
    assert!(session.handle_keys(Screen::Playing, keys(false, false, false, true)));
}

#[test]
fn close_discards_edits() {
    let mut session = Session::new(chosen());
    session.show_settings = true;
    session.open_settings_window();
    session.settings.video_input = None;
    session.settings.audio_input = Some("in-2".to_string());
    session.settings.audio_output = String::new();
    session.volume = Volume::from_bits(0.5f32.to_bits());
    session.close_settings_window();
    assert_eq!(session.settings.video_input.as_deref(), Some("USB Video"));
    assert_eq!(session.settings.audio_input.as_deref(), Some("in-1"));
    assert_eq!(session.settings.audio_output, "out-1");
    assert_eq!(session.volume.to_bits(), 1.5f32.to_bits());
    assert!(!session.show_settings);
    assert!(session.settings_snapshot.is_none());
}

#[test]
fn open_keeps_first_snapshot() {
    let mut session = Session::new(chosen());
    session.open_settings_window();
    session.settings.audio_output = "out-2".to_string();
    session.open_settings_window();
    assert_eq!(session.settings_snapshot.as_ref().unwrap().audio_output, "out-1");
}

#[test]
fn save_with_missing_device_reverts_and_warns() {
    let mut session = Session::new(chosen());
    session.show_settings = true;
    session.open_settings_window();
    session.settings.audio_input = None;
    session.settings.video_input = Some("Other".to_string());
    session.volume = Volume::from_bits(2.5f32.to_bits());
    assert_eq!(session.begin_save(), SaveCheck::MissingEntries);
    assert_eq!(session.settings.video_input.as_deref(), Some("USB Video"));
    assert_eq!(session.settings.audio_input.as_deref(), Some("in-1"));
    assert_eq!(session.settings.volume.to_bits(), 2.5f32.to_bits());
    let notice = session.runtime_error.as_ref().unwrap();
    assert_eq!(notice.severity, Severity::Error);
    assert_eq!(notice.message, AppError::MissingEntries.message());
    assert!(session.show_settings);
}

#[test]
fn save_restarts_only_when_devices_changed() {
    let mut session = Session::new(chosen());
    session.show_settings = true;
    session.open_settings_window();
    session.volume = Volume::from_bits(2.0f32.to_bits());
    assert_eq!(session.begin_save(), SaveCheck::ReadyToPersist);
    assert!(!session.finish_save(true));
    assert!(!session.show_settings);
    assert_eq!(session.settings.volume.to_bits(), 2.0f32.to_bits());

    session.show_settings = true;
    session.open_settings_window();
    session.settings.audio_output = "out-2".to_string();
    assert_eq!(session.begin_save(), SaveCheck::ReadyToPersist);
    assert!(session.finish_save(true));
}

#[test]
fn save_failure_keeps_window_open() {
    let mut session = Session::new(chosen());
    session.show_settings = true;
    session.open_settings_window();
    session.settings.video_input = Some("Other".to_string());
    assert_eq!(session.begin_save(), SaveCheck::ReadyToPersist);
    assert!(!session.finish_save(false));
    assert!(session.show_settings);
    assert!(session.settings_snapshot.is_some());
    assert_eq!(session.runtime_error.as_ref().unwrap().message, "Failed to save settings");
}

#[test]
fn initial_save_needs_both_inputs() {
    let mut session = Session::new(Settings::defaults());
    assert!(!session.begin_initial_save());
    assert_eq!(
        session.runtime_error.as_ref().unwrap().message,
        "You need to make sure all fields are selected"
    );
    session.dismiss_notice();
    assert!(session.runtime_error.is_none());
    session.settings.video_input = Some("USB Video".to_string());
    assert!(!session.begin_initial_save());
    session.settings.audio_input = Some("in".to_string());
    session.runtime_error = None;
    assert!(session.begin_initial_save());
    assert!(session.runtime_error.is_none());
    session.report_save_failure();
    assert_eq!(session.runtime_error.as_ref().unwrap().message, "Failed to save settings");
}

#[test]
fn reset_settings_outcomes() {
    let mut session = Session::new(chosen());
    assert!(!session.reset_settings(Err(AppError::SettingsSaveFailed)));
    assert_eq!(
        session.runtime_error.as_ref().unwrap().message,
        "Could not reset settings: Failed to save settings. You may need to delete settings.toml manually."
    );
    assert_eq!(session.settings.audio_output, "out-1");
    session.show_settings = true;
    assert!(session.reset_settings(Ok(())));
    assert_eq!(session.settings.video_input, None);
    assert_eq!(session.settings.audio_output, "");
    assert_eq!(session.volume.to_bits(), 1.5f32.to_bits());
    assert!(!session.show_settings);
}

#[test]
fn exit_saves_window_state_and_volume() {
    let mut session = Session::new(chosen());
    session.is_fullscreen = true;
    session.volume = Volume::from_bits(0.25f32.to_bits());
    let saved = session.prepare_exit();
    assert!(saved.fullscreen);
    assert_eq!(saved.volume.to_bits(), 0.25f32.to_bits());
    assert_eq!(saved.audio_input.as_deref(), Some("in-1"));
}

#[test]
fn frame_plans() {
    let mut session = Session::new(chosen());
    session.show_settings = true;
    let plan = session.plan_frame(Screen::Initial);
    assert_eq!(
        plan,
        FramePlan { menu_bar: true, settings_button: false, view: Screen::Initial, settings_window: false, notice: false }
    );
    session.settings_button_clicked();
    session.is_fullscreen = true;
    let plan = session.plan_frame(Screen::Playing);
    assert_eq!(
        plan,
        FramePlan { menu_bar: false, settings_button: false, view: Screen::Playing, settings_window: true, notice: false }
    );
}

#[test]
fn viewport_requests() {
    assert!(viewport_commands(true, true).is_empty());
    assert!(viewport_commands(false, false).is_empty());
    assert_eq!(
        viewport_commands(true, false),
        vec![
            ViewportCommand::Fullscreen(true),
            ViewportCommand::Decorations(true),
            ViewportCommand::Level(WindowLevel::AlwaysOnTop)
        ]
    );
    assert_eq!(
        viewport_commands(false, true),
        vec![
            ViewportCommand::Decorations(false),
            ViewportCommand::Fullscreen(false),
            ViewportCommand::Level(WindowLevel::Normal),
            ViewportCommand::Maximized(true)
        ]
    );
}

fn list() -> Vec<(String, String)> {
    vec![
        ("Line In".to_string(), "in-1".to_string()),
        ("USB Audio".to_string(), "in-2".to_string()),
        ("Line In (2)".to_string(), "in-1".to_string()),
    ]
}

#[test]
fn device_labels() {
    let mut s = Settings::defaults();
    assert_eq!(video_input_label(&s, "Select Video Input"), "Select Video Input");
    assert_eq!(audio_input_label(&s, &list(), "Select Audio Input"), "Select Audio Input");
    assert_eq!(audio_output_label(&s, &list()), "Use System Default");
    s.video_input = Some("USB Video".to_string());
    s.audio_input = Some("in-1".to_string());
    s.audio_output = "in-2".to_string();
    assert_eq!(video_input_label(&s, "None"), "USB Video");
    assert_eq!(audio_input_label(&s, &list(), "None"), "Line In");
    assert_eq!(audio_output_label(&s, &list()), "USB Audio");
    s.audio_input = Some("gone".to_string());
    s.audio_output = "gone".to_string();
    assert_eq!(audio_input_label(&s, &list(), "None"), "None");
    assert_eq!(audio_output_label(&s, &list()), "Use System Default");
    assert_eq!(lookup_name(&list(), &"in-2".to_string()).as_deref(), Some("USB Audio"));
}

#[test]
fn default_output_is_marked() {
    let name = "Speakers".to_string();
    let id = "out-1".to_string();
    assert_eq!(output_option_label(&name, &id, &Some("out-1".to_string())), "Speakers (Default)");
    assert_eq!(output_option_label(&name, &id, &Some("out-2".to_string())), "Speakers");
    assert_eq!(output_option_label(&name, &id, &None), "Speakers");
}
