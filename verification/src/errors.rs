//! Errors of the viewer and the notices that the window shows.
use vstd::prelude::*;

verus! {

/// What can go wrong while finding devices, streaming or persisting settings.
#[derive(Debug, Clone, Copy, PartialEq, Eq, Structural)]
pub enum AppError {
    SettingsCorrupt,
    SettingsNotFound,
    SettingsSaveFailed,
    VideoDeviceNotFound,
    VideoDeviceInUse,
    VideoStreamFailed,
    AudioDeviceNotFound,
    AudioDeviceInUse,
    AudioStreamFailed,
    AudioSettingsCorrupt,
    MissingEntries,
    Unexpected,
}

/// The sentence shown to the user for each error.
pub open spec fn error_text(e: AppError) -> Seq<char> {
    match e {
        AppError::SettingsCorrupt => "The settings file is corrupt and will be reset"@,
        AppError::SettingsNotFound => "The settings file was not found"@,
        AppError::SettingsSaveFailed => "Failed to save settings"@,
        AppError::VideoDeviceNotFound => "Could not find video device"@,
        AppError::VideoDeviceInUse => "The video device is in use by another application"@,
        AppError::VideoStreamFailed => "Video stream has failed"@,
        AppError::AudioDeviceNotFound => "Could not find audio device"@,
        AppError::AudioDeviceInUse => "The audio device is in use by another application"@,
        AppError::AudioStreamFailed => "Audio stream has failed"@,
        AppError::AudioSettingsCorrupt => "Audio settings were not found or are corrupt"@,
        AppError::MissingEntries => "You need to make sure all fields are selected"@,
        AppError::Unexpected => "Something unexpected happened!"@,
    }
}

/// The length and three characters of a sentence; they tell the error
/// sentences apart.
spec fn text_signature(s: Seq<char>) -> (int, char, char, char) {
    (s.len() as int, s[0], s[4], s[15])
}

/// Each error has a sentence of its own: it is not empty, it holds no line
/// break, and no two errors share one.
pub proof fn law_error_texts_distinct(a: AppError, b: AppError)
    ensures
        error_text(a).len() > 0,
        !error_text(a).contains('\n'),
        a != b ==> error_text(a) != error_text(b),
{
    reveal_strlit("The settings file is corrupt and will be reset");
    reveal_strlit("The settings file was not found");
    reveal_strlit("Failed to save settings");
    reveal_strlit("Could not find video device");
    reveal_strlit("The video device is in use by another application");
    reveal_strlit("Video stream has failed");
    reveal_strlit("Could not find audio device");
    reveal_strlit("The audio device is in use by another application");
    reveal_strlit("Audio stream has failed");
    reveal_strlit("Audio settings were not found or are corrupt");
    reveal_strlit("You need to make sure all fields are selected");
    reveal_strlit("Something unexpected happened!");
    assert(text_signature(error_text(AppError::SettingsCorrupt)) == (46int, 'T', 's', 'l'));
    assert(text_signature(error_text(AppError::SettingsNotFound)) == (31int, 'T', 's', 'l'));
    assert(text_signature(error_text(AppError::SettingsSaveFailed)) == (23int, 'F', 'e', 's'));
    assert(text_signature(error_text(AppError::VideoDeviceNotFound)) == (27int, 'C', 'd', 'v'));
    assert(text_signature(error_text(AppError::VideoDeviceInUse)) == (49int, 'T', 'v', 'e'));
    assert(text_signature(error_text(AppError::VideoStreamFailed)) == (23int, 'V', 'o', 's'));
    assert(text_signature(error_text(AppError::AudioDeviceNotFound)) == (27int, 'C', 'd', 'a'));
    assert(text_signature(error_text(AppError::AudioDeviceInUse)) == (49int, 'T', 'a', 'e'));
    assert(text_signature(error_text(AppError::AudioStreamFailed)) == (23int, 'A', 'o', 's'));
    assert(text_signature(error_text(AppError::AudioSettingsCorrupt)) == (44int, 'A', 'o', 'w'));
    assert(text_signature(error_text(AppError::MissingEntries)) == (45int, 'Y', 'n', 'e'));
    assert(text_signature(error_text(AppError::Unexpected)) == (30int, 'S', 't', 'e'));
    if a != b && error_text(a) == error_text(b) {
        assert(text_signature(error_text(a)) == text_signature(error_text(b)));
    }
}

impl AppError {
    /// The readable sentence for this error.
    pub fn message(&self) -> (r: &'static str)
        ensures
            r@ == error_text(*self),
    {
        match self {
            AppError::SettingsCorrupt => "The settings file is corrupt and will be reset",
            AppError::SettingsNotFound => "The settings file was not found",
            AppError::SettingsSaveFailed => "Failed to save settings",
            AppError::VideoDeviceNotFound => "Could not find video device",
            AppError::VideoDeviceInUse => "The video device is in use by another application",
            AppError::VideoStreamFailed => "Video stream has failed",
            AppError::AudioDeviceNotFound => "Could not find audio device",
            AppError::AudioDeviceInUse => "The audio device is in use by another application",
            AppError::AudioStreamFailed => "Audio stream has failed",
            AppError::AudioSettingsCorrupt => "Audio settings were not found or are corrupt",
            AppError::MissingEntries => "You need to make sure all fields are selected",
            AppError::Unexpected => "Something unexpected happened!",
        }
    }

    /// The readable sentence for this error, as an owned string.
    pub fn to_message_string(&self) -> (r: String)
        ensures
            r@ == error_text(*self),
    {
        String::from_str(self.message())
    }
}

/// How a notice in the corner of the window is coloured.
#[derive(Debug, Clone, Copy, PartialEq, Eq, Structural)]
pub enum Severity {
    Info,
    Error,
}

/// A dismissable notice shown over the current view.
#[derive(Debug, Clone)]
pub struct RuntimeNotice {
    pub severity: Severity,
    pub message: String,
}

impl RuntimeNotice {
    /// An error notice with the given text.
    pub fn error(message: String) -> (r: Self)
        ensures
            r.severity == Severity::Error,
            r.message@ == message@,
    {
        RuntimeNotice { severity: Severity::Error, message }
    }

    /// An informational notice with the given text.
    pub fn info(message: String) -> (r: Self)
        ensures
            r.severity == Severity::Info,
            r.message@ == message@,
    {
        RuntimeNotice { severity: Severity::Info, message }
    }

    /// The error notice that reports `e`.
    pub fn from_error(e: AppError) -> (r: Self)
        ensures
            r.severity == Severity::Error,
            r.message@ == error_text(e),
    {
        RuntimeNotice::error(e.to_message_string())
    }
}

} // verus!
