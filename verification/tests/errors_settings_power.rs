use capture_card_viewer::errors::{AppError, RuntimeNotice, Severity};
use capture_card_viewer::power::{
    allow_sleep, execution_state_flags, prevent_sleep, PowerAction, SleepInhibitor,
};
use capture_card_viewer::settings::{copy_opt, same_opt, Settings, Volume, DEFAULT_VOLUME_BITS};

#[test]
fn error_messages() {
    let cases = [
        (AppError::SettingsCorrupt, "The settings file is corrupt and will be reset"),
        (AppError::SettingsNotFound, "The settings file was not found"),
        (AppError::SettingsSaveFailed, "Failed to save settings"),
        (AppError::VideoDeviceNotFound, "Could not find video device"),
        (AppError::VideoDeviceInUse, "The video device is in use by another application"),
        (AppError::VideoStreamFailed, "Video stream has failed"),
        (AppError::AudioDeviceNotFound, "Could not find audio device"),
        (AppError::AudioDeviceInUse, "The audio device is in use by another application"),
        (AppError::AudioStreamFailed, "Audio stream has failed"),
        (AppError::AudioSettingsCorrupt, "Audio settings were not found or are corrupt"),
        (AppError::MissingEntries, "You need to make sure all fields are selected"),
        (AppError::Unexpected, "Something unexpected happened!"),
    ];
    for (e, text) in cases {
        assert_eq!(e.message(), text);
        assert_eq!(e.to_message_string(), text);
    }
}

#[test]
fn notices() {
    let n = RuntimeNotice::from_error(AppError::MissingEntries);
    assert_eq!(n.severity, Severity::Error);
    assert_eq!(n.message, "You need to make sure all fields are selected");
    let i = RuntimeNotice::info("Audio reconnected automatically.".to_string());
    assert_eq!(i.severity, Severity::Info);
    assert_eq!(i.message, "Audio reconnected automatically.");
}

#[test]
fn default_settings() {
    let s = Settings::defaults();
    assert_eq!(s.video_input, None);
    assert_eq!(s.audio_input, None);
    assert_eq!(s.audio_output, "");
    assert_eq!(s.volume.to_bits(), 1.5f32.to_bits());
    assert_eq!(DEFAULT_VOLUME_BITS, 1.5f32.to_bits());
    assert!(!s.fullscreen);
    let d: Settings = Default::default();
    assert_eq!(d.volume, Volume::default_volume());
    assert_eq!(f32::from_bits(Volume::from_bits(2.0f32.to_bits()).to_bits()), 2.0);
}

#[test]
fn settings_snapshot_and_option_helpers() {
    let mut s = Settings::defaults();
    s.video_input = Some("USB Video".to_string());
    s.audio_output = "out".to_string();
    let c = s.snapshot();
    assert_eq!(c.video_input, s.video_input);
    assert_eq!(c.audio_output, s.audio_output);
    assert_eq!(copy_opt(&s.video_input), Some("USB Video".to_string()));
    assert!(same_opt(&None, &None));
    assert!(same_opt(&Some("a".to_string()), &Some("a".to_string())));
    assert!(!same_opt(&Some("a".to_string()), &None));
    assert!(!same_opt(&Some("a".to_string()), &Some("b".to_string())));
}

#[test]
fn inhibitor_started_once_and_stopped_once() {
    let mut inh = SleepInhibitor::new();
    assert_eq!(prevent_sleep(&inh), PowerAction::StartInhibitor);
    inh.inhibitor_started(true);
    assert!(inh.active);
    assert_eq!(prevent_sleep(&inh), PowerAction::Nothing);
    assert_eq!(allow_sleep(&mut inh), PowerAction::StopInhibitor);
    assert!(!inh.active);
    assert_eq!(allow_sleep(&mut inh), PowerAction::Nothing);
}

#[test]
fn failed_inhibitor_start_is_retried() {
    let mut inh = SleepInhibitor::new();
    assert_eq!(prevent_sleep(&inh), PowerAction::StartInhibitor);
    inh.inhibitor_started(false);
    assert!(!inh.active);
    assert_eq!(prevent_sleep(&inh), PowerAction::StartInhibitor);
}

#[test]
fn windows_execution_state() {
    assert_eq!(execution_state_flags(true), 0x8000_0003);
    assert_eq!(execution_state_flags(false), 0x8000_0000);
}

#[test]
fn error_messages_are_distinct_single_lines() {
    let all = [
        AppError::SettingsCorrupt, AppError::SettingsNotFound, AppError::SettingsSaveFailed,
        AppError::VideoDeviceNotFound, AppError::VideoDeviceInUse, AppError::VideoStreamFailed,
        AppError::AudioDeviceNotFound, AppError::AudioDeviceInUse, AppError::AudioStreamFailed,
        AppError::AudioSettingsCorrupt, AppError::MissingEntries, AppError::Unexpected,
    ];
    for (i, a) in all.iter().enumerate() {
        assert!(!a.message().is_empty());
        assert!(!a.message().contains('\n'));
        for b in &all[i + 1..] {
            assert_ne!(a.message(), b.message());
        }
    }
}
