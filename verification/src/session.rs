//! The viewer's window session: key bindings, the settings window, the
//! first-launch form, the error screen and what is saved on exit.
use vstd::prelude::*;

use crate::errors::{AppError, RuntimeNotice, Severity, error_text};
use crate::settings::{Settings, Volume, copy_opt, is_default_settings, opt_view, same_opt};
use crate::audio::io::entries_view;
use crate::state::Screen;

verus! {

/// What the window keeps between frames.
#[derive(Debug)]
pub struct Session {
    /// The settings as edited.
    pub settings: Settings,
    /// The settings when the settings window was opened.
    pub settings_snapshot: Option<Settings>,
    pub show_settings: bool,
    pub is_fullscreen: bool,
    /// The notice shown over the view, if any.
    pub runtime_error: Option<RuntimeNotice>,
    /// The volume the audio path plays at now.
    pub volume: Volume,
}

/// The keys pressed during one frame.
#[derive(Debug, Clone, Copy, PartialEq, Eq, Structural)]
pub struct KeyPresses {
    /// F11.
    pub toggle_fullscreen: bool,
    /// S.
    pub toggle_settings: bool,
    /// Escape.
    pub escape: bool,
    /// Ctrl+Q (Cmd+Q).
    pub quit: bool,
}

/// The window level requested from the windowing system.
#[derive(Debug, Clone, Copy, PartialEq, Eq, Structural)]
pub enum WindowLevel {
    Normal,
    AlwaysOnTop,
}

/// A request to the windowing system.
#[derive(Debug, Clone, Copy, PartialEq, Eq, Structural)]
pub enum ViewportCommand {
    Fullscreen(bool),
    Decorations(bool),
    Level(WindowLevel),
    Maximized(bool),
}

/// The outcome of the settings window's Save button before anything is
/// written.
#[derive(Debug, Clone, Copy, PartialEq, Eq, Structural)]
pub enum SaveCheck {
    /// A device is not chosen: nothing is saved, the window stays open.
    MissingEntries,
    /// The settings can be written to disk.
    ReadyToPersist,
}

/// What one frame of the window shows.
#[derive(Debug, Clone, Copy, PartialEq, Eq, Structural)]
pub struct FramePlan {
    /// The menu bar with the window buttons (not in fullscreen).
    pub menu_bar: bool,
    /// The Settings button in the menu bar (not on the first-launch form).
    pub settings_button: bool,
    /// The view of the current phase.
    pub view: Screen,
    /// The settings window.
    pub settings_window: bool,
    /// The dismissable notice.
    pub notice: bool,
}

/// A session with only the window and notice fields replaced.
pub open spec fn with_window(s: Session, show: bool, fullscreen: bool) -> Session {
    Session {
        settings: s.settings,
        settings_snapshot: s.settings_snapshot,
        show_settings: show,
        is_fullscreen: fullscreen,
        runtime_error: s.runtime_error,
        volume: s.volume,
    }
}

/// The session after the keys of one frame on `screen`: F11 toggles
/// fullscreen; S toggles the settings window except on the first-launch
/// form and the error screen; Escape closes the settings window, discarding
/// its edits, or else leaves fullscreen.
pub open spec fn after_keys(s: Session, screen: Screen, keys: KeyPresses) -> Session {
    let fullscreen = if keys.toggle_fullscreen {
        !s.is_fullscreen
    } else {
        s.is_fullscreen
    };
    let show = if keys.toggle_settings && screen != Screen::Initial && screen != Screen::Error {
        !s.show_settings
    } else {
        s.show_settings
    };
    if keys.escape && show {
        match s.settings_snapshot {
            Some(snap) => Session {
                settings: snap,
                settings_snapshot: None,
                show_settings: false,
                is_fullscreen: fullscreen,
                runtime_error: s.runtime_error,
                volume: snap.volume,
            },
            None => with_window(s, false, fullscreen),
        }
    } else if keys.escape && fullscreen {
        with_window(s, show, false)
    } else {
        with_window(s, show, fullscreen)
    }
}

/// The session once the settings window is open.
pub open spec fn opened(s: Session) -> Session {
    Session {
        settings: s.settings,
        settings_snapshot: if s.settings_snapshot is Some {
            s.settings_snapshot
        } else {
            Some(s.settings)
        },
        show_settings: s.show_settings,
        is_fullscreen: s.is_fullscreen,
        runtime_error: s.runtime_error,
        volume: s.volume,
    }
}

/// `s` with its device choices replaced by those of `from`.
pub open spec fn with_devices(s: Settings, from: Settings) -> Settings {
    Settings {
        video_input: from.video_input,
        audio_input: from.audio_input,
        audio_output: from.audio_output,
        volume: s.volume,
        fullscreen: s.fullscreen,
    }
}

/// The session after Close: the device choices go back to the snapshot,
/// the volume to the saved one, and the window closes.
pub open spec fn closed(s: Session) -> Session {
    Session {
        settings: with_devices(s.settings, s.settings_snapshot->Some_0),
        settings_snapshot: None,
        show_settings: false,
        is_fullscreen: s.is_fullscreen,
        runtime_error: s.runtime_error,
        volume: s.settings.volume,
    }
}

/// Whether the device choices of two settings differ.
pub open spec fn devices_changed(a: Settings, b: Settings) -> bool {
    opt_view(a.video_input) != opt_view(b.video_input) || opt_view(a.audio_input) != opt_view(
        b.audio_input,
    ) || a.audio_output@ != b.audio_output@
}

/// The notice that a reset of the settings failed with `e`.
pub open spec fn reset_failed_text(e: AppError) -> Seq<char> {
    "Could not reset settings: "@ + error_text(e)
        + ". You may need to delete settings.toml manually."@
}

impl Session {
    /// The session of a fresh window: the window follows the saved
    /// fullscreen choice and plays at the saved volume.
    pub fn new(settings: Settings) -> (r: Self)
        ensures
            r.settings == settings,
            r.settings_snapshot is None,
            !r.show_settings,
            r.is_fullscreen == settings.fullscreen,
            r.runtime_error is None,
            r.volume == settings.volume,
    {
        let is_fullscreen = settings.fullscreen;
        let volume = settings.volume;
        Session {
            settings,
            settings_snapshot: None,
            show_settings: false,
            is_fullscreen,
            runtime_error: None,
            volume,
        }
    }

    /// Applies the keys of one frame on `screen`; answers whether the user
    /// asked to quit.
    pub fn handle_keys(&mut self, screen: Screen, keys: KeyPresses) -> (quit: bool)
        ensures
            *final(self) == after_keys(*old(self), screen, keys),
            quit == keys.quit,
    {
        if keys.toggle_fullscreen {
            self.is_fullscreen = !self.is_fullscreen;
        }
        if keys.toggle_settings && screen != Screen::Initial && screen != Screen::Error {
            self.show_settings = !self.show_settings;
        }
        if keys.escape {
            if self.show_settings {
                if let Some(snapshot) = self.settings_snapshot.take() {
                    self.volume = snapshot.volume;
                    self.settings = snapshot;
                }
                self.show_settings = false;
            } else if self.is_fullscreen {
                self.is_fullscreen = false;
            }
        }
        keys.quit
    }

    /// The Settings button of the menu bar was clicked.
    pub fn settings_button_clicked(&mut self)
        ensures
            *final(self) == with_window(*old(self), !old(self).show_settings, old(self).is_fullscreen),
    {
        self.show_settings = !self.show_settings;
    }

    /// Decides what this frame shows on `screen`. The settings window never
    /// shows on the first-launch form.
    pub fn plan_frame(&mut self, screen: Screen) -> (r: FramePlan)
        ensures
            screen == Screen::Initial ==> *final(self) == with_window(*old(self), false, old(self).is_fullscreen),
            screen != Screen::Initial ==> *final(self) == *old(self),
            r.menu_bar == !old(self).is_fullscreen,
            r.settings_button == (!old(self).is_fullscreen && screen != Screen::Initial),
            r.view == screen,
            r.settings_window == final(self).show_settings,
            r.notice == (old(self).runtime_error is Some),
    {
        if screen == Screen::Initial {
            self.show_settings = false;
        }
        FramePlan {
            menu_bar: !self.is_fullscreen,
            settings_button: !self.is_fullscreen && screen != Screen::Initial,
            view: screen,
            settings_window: self.show_settings,
            notice: self.runtime_error.is_some(),
        }
    }

    /// The notice was clicked away.
    pub fn dismiss_notice(&mut self)
        ensures
            final(self).runtime_error is None,
            final(self).settings == old(self).settings,
            final(self).settings_snapshot == old(self).settings_snapshot,
            final(self).show_settings == old(self).show_settings,
            final(self).is_fullscreen == old(self).is_fullscreen,
            final(self).volume == old(self).volume,
    {
        self.runtime_error = None;
    }

    /// The settings window is drawn: the first frame keeps a snapshot of
    /// the settings to go back to.
    pub fn open_settings_window(&mut self)
        ensures
            *final(self) == opened(*old(self)),
    {
        if self.settings_snapshot.is_none() {
            self.settings_snapshot = Some(self.settings.snapshot());
        }
    }

    /// Close in the settings window: the edits are discarded.
    pub fn close_settings_window(&mut self)
        requires
            old(self).settings_snapshot is Some,
        ensures
            *final(self) == closed(*old(self)),
    {
        let snapshot = self.settings_snapshot.take().unwrap();
        self.settings.video_input = snapshot.video_input;
        self.settings.audio_input = snapshot.audio_input;
        self.settings.audio_output = snapshot.audio_output;
        self.volume = self.settings.volume;
        self.show_settings = false;
    }

    /// Save in the settings window, before writing: the current volume is
    /// taken into the settings; without a video and an audio input the two
    /// choices go back to the snapshot and a notice says what is missing.
    pub fn begin_save(&mut self) -> (r: SaveCheck)
        requires
            old(self).settings_snapshot is Some,
        ensures
            final(self).settings.volume == old(self).volume,
            final(self).settings.audio_output == old(self).settings.audio_output,
            final(self).settings.fullscreen == old(self).settings.fullscreen,
            final(self).settings_snapshot == old(self).settings_snapshot,
            final(self).show_settings == old(self).show_settings,
            final(self).is_fullscreen == old(self).is_fullscreen,
            final(self).volume == old(self).volume,
            (old(self).settings.video_input is None || old(self).settings.audio_input is None) ==> {
                &&& r == SaveCheck::MissingEntries
                &&& final(self).settings.video_input == old(self).settings_snapshot->Some_0.video_input
                &&& final(self).settings.audio_input == old(self).settings_snapshot->Some_0.audio_input
                &&& final(self).runtime_error matches Some(n) && n.severity == Severity::Error
                    && n.message@ == error_text(AppError::MissingEntries)
            },
            (old(self).settings.video_input is Some && old(self).settings.audio_input is Some) ==> {
                &&& r == SaveCheck::ReadyToPersist
                &&& final(self).settings.video_input == old(self).settings.video_input
                &&& final(self).settings.audio_input == old(self).settings.audio_input
                &&& final(self).runtime_error == old(self).runtime_error
            },
    {
        self.settings.volume = self.volume;
        if self.settings.video_input.is_none() || self.settings.audio_input.is_none() {
            match &self.settings_snapshot {
                Some(snapshot) => {
                    self.settings.video_input = copy_opt(&snapshot.video_input);
                    self.settings.audio_input = copy_opt(&snapshot.audio_input);
                },
                None => {},
            }
            self.runtime_error = Some(RuntimeNotice::from_error(AppError::MissingEntries));
            SaveCheck::MissingEntries
        } else {
            SaveCheck::ReadyToPersist
        }
    }

    /// Save in the settings window, after writing (`persisted` tells whether
    /// the file was written). On success the window closes and the answer
    /// says whether the streams must restart: exactly when a device choice
    /// differs from the snapshot. On failure a notice says so and the
    /// window stays open.
    pub fn finish_save(&mut self, persisted: bool) -> (restart: bool)
        requires
            old(self).settings_snapshot is Some,
        ensures
            final(self).settings == old(self).settings,
            final(self).is_fullscreen == old(self).is_fullscreen,
            final(self).volume == old(self).volume,
            !persisted ==> {
                &&& !restart
                &&& final(self).settings_snapshot == old(self).settings_snapshot
                &&& final(self).show_settings == old(self).show_settings
                &&& final(self).runtime_error matches Some(n) && n.severity == Severity::Error
                    && n.message@ == error_text(AppError::SettingsSaveFailed)
            },
            persisted ==> {
                &&& restart == devices_changed(
                    old(self).settings,
                    old(self).settings_snapshot->Some_0,
                )
                &&& final(self).settings_snapshot is None
                &&& !final(self).show_settings
                &&& final(self).runtime_error == old(self).runtime_error
            },
    {
        if !persisted {
            self.runtime_error = Some(RuntimeNotice::from_error(AppError::SettingsSaveFailed));
            return false;
        }
        let snapshot = self.settings_snapshot.take().unwrap();
        let restart = !same_opt(&self.settings.video_input, &snapshot.video_input) || !same_opt(
            &self.settings.audio_input,
            &snapshot.audio_input,
        ) || self.settings.audio_output != snapshot.audio_output;
        self.show_settings = false;
        restart
    }

    /// Save on the first-launch form: it proceeds only with a video and an
    /// audio input chosen, and otherwise says what is missing.
    pub fn begin_initial_save(&mut self) -> (proceed: bool)
        ensures
            proceed == (old(self).settings.video_input is Some && old(self).settings.audio_input is Some),
            final(self).settings == old(self).settings,
            final(self).settings_snapshot == old(self).settings_snapshot,
            final(self).show_settings == old(self).show_settings,
            final(self).is_fullscreen == old(self).is_fullscreen,
            final(self).volume == old(self).volume,
            proceed ==> final(self).runtime_error == old(self).runtime_error,
            !proceed ==> (final(self).runtime_error matches Some(n) && n.severity == Severity::Error
                && n.message@ == error_text(AppError::MissingEntries)),
    {
        if self.settings.video_input.is_none() || self.settings.audio_input.is_none() {
            self.runtime_error = Some(RuntimeNotice::from_error(AppError::MissingEntries));
            false
        } else {
            true
        }
    }

    /// The settings could not be written: a notice says so.
    pub fn report_save_failure(&mut self)
        ensures
            final(self).settings == old(self).settings,
            final(self).settings_snapshot == old(self).settings_snapshot,
            final(self).show_settings == old(self).show_settings,
            final(self).is_fullscreen == old(self).is_fullscreen,
            final(self).volume == old(self).volume,
            final(self).runtime_error matches Some(n) && n.severity == Severity::Error
                && n.message@ == error_text(AppError::SettingsSaveFailed),
    {
        self.runtime_error = Some(RuntimeNotice::from_error(AppError::SettingsSaveFailed));
    }

    /// Reset Settings on the error screen, after the default settings were
    /// written (`persisted`): on success the session takes the defaults and
    /// the answer is that the first-launch form follows; on failure a
    /// notice tells the user to delete the file.
    pub fn reset_settings(&mut self, persisted: Result<(), AppError>) -> (to_initial: bool)
        ensures
            to_initial == (persisted is Ok),
            final(self).is_fullscreen == old(self).is_fullscreen,
            persisted is Ok ==> {
                &&& is_default_settings(final(self).settings)
                &&& final(self).volume == final(self).settings.volume
                &&& final(self).settings_snapshot is None
                &&& !final(self).show_settings
                &&& final(self).runtime_error == old(self).runtime_error
            },
            persisted matches Err(e) ==> {
                &&& final(self).settings == old(self).settings
                &&& final(self).settings_snapshot == old(self).settings_snapshot
                &&& final(self).show_settings == old(self).show_settings
                &&& final(self).volume == old(self).volume
                &&& final(self).runtime_error matches Some(n) && n.severity == Severity::Error
                    && n.message@ == reset_failed_text(e)
            },
    {
        match persisted {
            Err(e) => {
                let text = String::from_str("Could not reset settings: ");
                let text = text.concat(e.message());
                let text = text.concat(". You may need to delete settings.toml manually.");
                self.runtime_error = Some(RuntimeNotice::error(text));
                false
            },
            Ok(()) => {
                let defaults = Settings::defaults();
                self.volume = defaults.volume;
                self.settings = defaults;
                self.settings_snapshot = None;
                self.show_settings = false;
                true
            },
        }
    }

    /// The settings to write when the window closes: the window's
    /// fullscreen state and the current volume are taken in.
    pub fn prepare_exit(&mut self) -> (r: Settings)
        ensures
            r == final(self).settings,
            final(self).settings.video_input == old(self).settings.video_input,
            final(self).settings.audio_input == old(self).settings.audio_input,
            final(self).settings.audio_output == old(self).settings.audio_output,
            final(self).settings.fullscreen == old(self).is_fullscreen,
            final(self).settings.volume == old(self).volume,
            final(self).is_fullscreen == old(self).is_fullscreen,
            final(self).volume == old(self).volume,
            final(self).settings_snapshot == old(self).settings_snapshot,
            final(self).show_settings == old(self).show_settings,
            final(self).runtime_error == old(self).runtime_error,
    {
        self.settings.fullscreen = self.is_fullscreen;
        self.settings.volume = self.volume;
        self.settings.snapshot()
    }
}

/// The requests that bring the window to `want_fullscreen` when it is in
/// `now_fullscreen`: none when they agree.
pub fn viewport_commands(want_fullscreen: bool, now_fullscreen: bool) -> (r: Vec<ViewportCommand>)
    ensures
        want_fullscreen == now_fullscreen ==> r@.len() == 0,
        want_fullscreen && !now_fullscreen ==> r@ == seq![
            ViewportCommand::Fullscreen(true),
            ViewportCommand::Decorations(true),
            ViewportCommand::Level(WindowLevel::AlwaysOnTop),
        ],
        !want_fullscreen && now_fullscreen ==> r@ == seq![
            ViewportCommand::Decorations(false),
            ViewportCommand::Fullscreen(false),
            ViewportCommand::Level(WindowLevel::Normal),
            ViewportCommand::Maximized(true),
        ],
{
    let mut r: Vec<ViewportCommand> = Vec::new();
    if want_fullscreen != now_fullscreen {
        if want_fullscreen {
            r.push(ViewportCommand::Fullscreen(true));
            r.push(ViewportCommand::Decorations(true));
            r.push(ViewportCommand::Level(WindowLevel::AlwaysOnTop));
        } else {
            r.push(ViewportCommand::Decorations(false));
            r.push(ViewportCommand::Fullscreen(false));
            r.push(ViewportCommand::Level(WindowLevel::Normal));
            r.push(ViewportCommand::Maximized(true));
        }
    }
    r
}

/// Closing the settings window discards every edit made since it opened:
/// the device choices are those from before opening, and the audio path
/// plays at the saved volume again.
pub proof fn law_close_discards_edits(s: Session, edited: Settings, live_volume: Volume)
    requires
        s.settings_snapshot is None,
    ensures
        ({
            let o = opened(s);
            let e = Session {
                settings: edited,
                settings_snapshot: o.settings_snapshot,
                show_settings: true,
                is_fullscreen: o.is_fullscreen,
                runtime_error: o.runtime_error,
                volume: live_volume,
            };
            let c = closed(e);
            &&& c.settings.video_input == s.settings.video_input
            &&& c.settings.audio_input == s.settings.audio_input
            &&& c.settings.audio_output == s.settings.audio_output
            &&& c.volume == edited.volume
            &&& !c.show_settings
            &&& c.settings_snapshot is None
        }),
{
}

/// Escape in the open settings window does what Close does to the device
/// choices: they return to the snapshot.
pub proof fn law_escape_restores_snapshot(s: Session, screen: Screen, snap: Settings)
    requires
        s.show_settings,
        s.settings_snapshot == Some(snap),
    ensures
        ({
            let keys = KeyPresses {
                toggle_fullscreen: false,
                toggle_settings: false,
                escape: true,
                quit: false,
            };
            let k = after_keys(s, screen, keys);
            &&& k.settings == snap
            &&& k.volume == snap.volume
            &&& !k.show_settings
            &&& k.settings_snapshot is None
        }),
{
}

/// Pressing F11 twice gives the window back its fullscreen state.
pub proof fn law_fullscreen_toggle_twice(s: Session, screen: Screen)
    ensures
        ({
            let keys = KeyPresses {
                toggle_fullscreen: true,
                toggle_settings: false,
                escape: false,
                quit: false,
            };
            after_keys(after_keys(s, screen, keys), screen, keys) == s
        }),
{
}

/// The name of the first device of `s` whose identifier is `id`.
pub open spec fn name_for_id(s: Seq<(Seq<char>, Seq<char>)>, id: Seq<char>) -> Option<Seq<char>>
    decreases s.len(),
{
    if s.len() == 0 {
        None
    } else if s[0].1 == id {
        Some(s[0].0)
    } else {
        name_for_id(s.drop_first(), id)
    }
}

/// The name of the first listed device with identifier `id`.
pub fn lookup_name(devices: &[(String, String)], id: &String) -> (r: Option<String>)
    ensures
        opt_view(r) == name_for_id(entries_view(devices@), id@),
{
    let ghost s = entries_view(devices@);
    let n = devices.len();
    let mut i: usize = 0;
    assert(s.skip(0) =~= s);
    while i < n
        invariant
            n == devices@.len(),
            s == entries_view(devices@),
            i <= n,
            name_for_id(s, id@) == name_for_id(s.skip(i as int), id@),
        decreases n - i,
    {
        assert(s.skip(i as int)[0] == s[i as int]);
        if devices[i].1 == *id {
            return Some(devices[i].0.clone());
        }
        assert(s.skip(i as int).drop_first() =~= s.skip(i + 1));
        i += 1;
    }
    assert(s.skip(n as int).len() == 0);
    None
}

/// The text of the video input box: the saved device name, or the
/// placeholder when none is chosen.
pub fn video_input_label(settings: &Settings, placeholder: &str) -> (r: String)
    ensures
        settings.video_input matches Some(n) ==> r@ == n@,
        settings.video_input is None ==> r@ == placeholder@,
{
    match &settings.video_input {
        Some(name) => name.clone(),
        None => String::from_str(placeholder),
    }
}

/// The text of the audio input box: the name of the chosen input, or the
/// placeholder when none is chosen or it is not listed.
pub fn audio_input_label(settings: &Settings, inputs: &[(String, String)], placeholder: &str) -> (r: String)
    ensures
        r@ == match settings.audio_input {
            Some(id) => match name_for_id(entries_view(inputs@), id@) {
                Some(name) => name,
                None => placeholder@,
            },
            None => placeholder@,
        },
{
    match &settings.audio_input {
        None => String::from_str(placeholder),
        Some(id) => match lookup_name(inputs, id) {
            Some(name) => name,
            None => String::from_str(placeholder),
        },
    }
}

/// The text shown for the system default output.
pub open spec fn system_default_text() -> Seq<char> {
    "Use System Default"@
}

/// The text of the audio output box: the system default when no output is
/// chosen or the chosen one is not listed, else its name.
pub fn audio_output_label(settings: &Settings, outputs: &[(String, String)]) -> (r: String)
    ensures
        r@ == if settings.audio_output@.len() == 0 {
            system_default_text()
        } else {
            match name_for_id(entries_view(outputs@), settings.audio_output@) {
                Some(name) => name,
                None => system_default_text(),
            }
        },
{
    if settings.audio_output.as_str().unicode_len() == 0 {
        return String::from_str("Use System Default");
    }
    match lookup_name(outputs, &settings.audio_output) {
        Some(name) => name,
        None => String::from_str("Use System Default"),
    }
}

/// The text of one output in the list: its name, marked when it is the
/// system default output.
pub fn output_option_label(name: &String, id: &String, default_id: &Option<String>) -> (r: String)
    ensures
        (default_id matches Some(d) && d@ == id@) ==> r@ == name@ + " (Default)"@,
        !(default_id matches Some(d) && d@ == id@) ==> r@ == name@,
{
    let label = name.clone();
    match default_id {
        Some(d) => {
            if *d == *id {
                label.concat(" (Default)")
            } else {
                label
            }
        },
        None => label,
    }
}

/// After a successful save the streams restart when the video input, the
/// audio input or the audio output differs from the snapshot, each one alone
/// being enough, and do not restart when all three are as before (whatever
/// else, such as the volume, changed).
pub proof fn law_restart_on_device_change(now: Settings, snap: Settings)
    ensures
        opt_view(now.video_input) != opt_view(snap.video_input) ==> devices_changed(now, snap),
        opt_view(now.audio_input) != opt_view(snap.audio_input) ==> devices_changed(now, snap),
        now.audio_output@ != snap.audio_output@ ==> devices_changed(now, snap),
        opt_view(now.video_input) == opt_view(snap.video_input) && opt_view(now.audio_input)
            == opt_view(snap.audio_input) && now.audio_output@ == snap.audio_output@
            ==> !devices_changed(now, snap),
{
}

/// F11 toggles fullscreen on every screen, in whatever state the settings
/// window is, unless Escape is pressed in the same frame; without F11 and
/// Escape the fullscreen state stays.
pub proof fn law_f11_toggles_everywhere(s: Session, screen: Screen, keys: KeyPresses)
    requires
        !keys.escape,
    ensures
        keys.toggle_fullscreen ==> after_keys(s, screen, keys).is_fullscreen == !s.is_fullscreen,
        !keys.toggle_fullscreen ==> after_keys(s, screen, keys).is_fullscreen == s.is_fullscreen,
{
}

/// S opens or closes the settings window on the loading, playing and exit
/// screens, and does nothing on the first-launch form and the error
/// screen (without Escape in the same frame).
pub proof fn law_settings_key(s: Session, screen: Screen, keys: KeyPresses)
    requires
        keys.toggle_settings,
        !keys.escape,
    ensures
        screen == Screen::Loading || screen == Screen::Playing || screen == Screen::Exiting
            ==> after_keys(s, screen, keys).show_settings == !s.show_settings,
        screen == Screen::Initial || screen == Screen::Error ==> after_keys(
            s,
            screen,
            keys,
        ).show_settings == s.show_settings,
{
}

} // verus!
