//! The phases of the viewer and what moving between them entails.
use vstd::prelude::*;

use crate::audio::config::AudioConfig;
use crate::errors::{AppError, error_text};
use crate::power::{PowerAction, prevent_action};
use crate::settings::{Settings, is_default_settings};
use crate::video::{CameraIndex, find_video_device, found_device};

verus! {

/// The phase of the viewer. `L` is what a loading phase waits on, `P` what
/// a playing phase runs.
#[derive(Debug)]
pub enum AppState<L, P> {
    /// First launch: devices still to be chosen.
    Initial,
    /// Devices are being opened.
    Loading { loading: L },
    /// Video and audio are running.
    Playing { playing: P },
    /// Opening the devices failed; the message says why.
    Error(String),
    /// The user asked to quit.
    Exiting,
}

/// Which view the window shows, without the phase's payload.
#[derive(Debug, Clone, Copy, PartialEq, Eq, Structural)]
pub enum Screen {
    Initial,
    Loading,
    Playing,
    Error,
    Exiting,
}

/// What leaving one phase for another entails.
#[derive(Debug, Clone, Copy, PartialEq, Eq, Structural)]
pub struct StateChange {
    /// A playing phase ended: stop its streams and let the machine sleep.
    pub left_playing: bool,
    /// A playing phase begins: keep the machine awake.
    pub entered_playing: bool,
}

/// The screen of a phase.
pub open spec fn screen_of<L, P>(s: AppState<L, P>) -> Screen {
    match s {
        AppState::Initial => Screen::Initial,
        AppState::Loading { .. } => Screen::Loading,
        AppState::Playing { .. } => Screen::Playing,
        AppState::Error(_) => Screen::Error,
        AppState::Exiting => Screen::Exiting,
    }
}

/// What moving from phase `from` to phase `to` entails.
pub open spec fn change_between(from: Screen, to: Screen) -> StateChange {
    StateChange { left_playing: from == Screen::Playing, entered_playing: to == Screen::Playing }
}

impl<L, P> AppState<L, P> {
    /// The screen of this phase.
    pub fn screen(&self) -> (r: Screen)
        ensures
            r == screen_of(*self),
    {
        match self {
            AppState::Initial => Screen::Initial,
            AppState::Loading { .. } => Screen::Loading,
            AppState::Playing { .. } => Screen::Playing,
            AppState::Error(_) => Screen::Error,
            AppState::Exiting => Screen::Exiting,
        }
    }

    /// Moves to `next`. The previous phase is handed back, so that its
    /// streams can be stopped before it is dropped, with what the move entails.
    pub fn transition(&mut self, next: Self) -> (r: (Self, StateChange))
        ensures
            *final(self) == next,
            r.0 == *old(self),
            r.1 == change_between(screen_of(*old(self)), screen_of(next)),
    {
        let entered_playing = matches!(next, AppState::Playing { .. });
        let mut previous = next;
        std::mem::swap(self, &mut previous);
        let left_playing = matches!(previous, AppState::Playing { .. });
        (previous, StateChange { left_playing, entered_playing })
    }
}

/// Whether an inhibitor runs after `change` was carried out on one that ran
/// (`active`): sleep is allowed on leaving a playing phase, then prevented
/// on entering one, the inhibitor starting when `started`.
pub open spec fn inhibitor_after(active: bool, change: StateChange, started: bool) -> bool {
    let after_allow = if change.left_playing {
        false
    } else {
        active
    };
    if change.entered_playing {
        after_allow || (prevent_action(after_allow) == PowerAction::StartInhibitor && started)
    } else {
        after_allow
    }
}

/// The machine is kept awake exactly while a stream plays: if an inhibitor
/// ran exactly in the playing phase before a move, and inhibitors start
/// when asked, one runs exactly in the playing phase after it.
pub proof fn law_awake_exactly_while_playing(from: Screen, to: Screen)
    ensures
        inhibitor_after(from == Screen::Playing, change_between(from, to), true) == (to
            == Screen::Playing),
{
}

/// What opening the devices needs: the camera, then the audio devices.
#[derive(Debug)]
pub struct LoadingPlan {
    pub camera: CameraIndex,
    pub audio: AudioConfig,
}

/// Checks what opening the devices needs, in the order the loader checks
/// it: a camera first, then an audio input.
pub fn plan_loading(settings: &Settings, camera: Option<CameraIndex>) -> (r: Result<LoadingPlan, AppError>)
    ensures
        camera is None ==> r is Err && r->Err_0 == AppError::VideoDeviceNotFound,
        camera is Some && settings.audio_input is None ==> r is Err && r->Err_0
            == AppError::AudioDeviceNotFound,
        camera is Some && settings.audio_input is Some ==> r is Ok && r->Ok_0.camera
            == camera->Some_0 && r->Ok_0.audio.input_device@ == settings.audio_input->Some_0@
            && r->Ok_0.audio.output_device@ == settings.audio_output@,
{
    match camera {
        None => Err(AppError::VideoDeviceNotFound),
        Some(camera) => match AudioConfig::from_settings(settings) {
            Err(e) => Err(e),
            Ok(audio) => Ok(LoadingPlan { camera, audio }),
        },
    }
}

/// What the loader reported since the last frame.
#[derive(Debug)]
pub enum LoadingPoll<P> {
    /// Still opening the devices.
    Pending,
    /// Done, successfully or not.
    Finished(Result<P, AppError>),
    /// The loader went away without an answer.
    Disconnected,
}

/// The phase that follows a poll of the loader: none while it works,
/// playing when it succeeded, an error phase with the error's message when
/// it failed or vanished.
pub fn after_loading<L, P>(poll: LoadingPoll<P>) -> (r: Option<AppState<L, P>>)
    ensures
        poll is Pending ==> r is None,
        poll matches LoadingPoll::Finished(Ok(p)) ==> r == Some(AppState::<L, P>::Playing { playing: p }),
        poll matches LoadingPoll::Finished(Err(e)) ==> (r matches Some(AppState::Error(m)) && m@
            == error_text(e)),
        poll is Disconnected ==> (r matches Some(AppState::Error(m)) && m@ == error_text(
            AppError::Unexpected,
        )),
{
    match poll {
        LoadingPoll::Pending => None,
        LoadingPoll::Finished(Ok(p)) => Some(AppState::Playing { playing: p }),
        LoadingPoll::Finished(Err(e)) => Some(AppState::Error(e.to_message_string())),
        LoadingPoll::Disconnected => Some(AppState::Error(AppError::Unexpected.to_message_string())),
    }
}

/// The camera of the saved video device, when it is still connected.
pub fn saved_camera(settings: &Settings, devices: &[(String, CameraIndex)]) -> (r: Option<CameraIndex>)
    ensures
        settings.video_input is None ==> r is None,
        settings.video_input matches Some(name) ==> match r {
            Some(idx) => name@.len() > 0 && found_device(devices@, name@, idx),
            None => name@.len() == 0 || forall|i: int|
                0 <= i < devices@.len() ==> #[trigger] devices@[i].0@ != name@,
        },
{
    match &settings.video_input {
        None => None,
        Some(name) => match find_video_device(name.as_str(), devices) {
            Ok(idx) => Some(idx),
            Err(_) => None,
        },
    }
}

/// How the viewer starts.
#[derive(Debug)]
pub enum Startup {
    /// Saved settings were read: open the saved devices.
    Resume { settings: Settings, camera: Option<CameraIndex> },
    /// No usable settings: first-launch setup with default settings.
    FirstLaunch { settings: Settings },
}

/// Chooses how to start from the result of reading the settings file: a
/// missing or corrupt file leads to the first-launch setup.
pub fn startup(loaded: Result<Settings, AppError>, devices: &[(String, CameraIndex)]) -> (r: Startup)
    ensures
        loaded is Err ==> (r matches Startup::FirstLaunch { settings } && is_default_settings(
            settings,
        )),
        loaded matches Ok(s) ==> (r matches Startup::Resume { settings, camera } && settings == s
            && (s.video_input is None ==> camera is None) && (s.video_input matches Some(name)
            ==> match camera {
            Some(idx) => found_device(devices@, name@, idx),
            None => name@.len() == 0 || forall|i: int|
                0 <= i < devices@.len() ==> #[trigger] devices@[i].0@ != name@,
        })),
{
    match loaded {
        Err(_) => Startup::FirstLaunch { settings: Settings::defaults() },
        Ok(settings) => {
            let camera = saved_camera(&settings, devices);
            Startup::Resume { settings, camera }
        },
    }
}

/// Each phase shows the view of its own name, whatever it carries.
pub proof fn law_phase_screens<L, P>(loading: L, playing: P, message: String)
    ensures
        screen_of(AppState::<L, P>::Initial) == Screen::Initial,
        screen_of(AppState::<L, P>::Loading { loading }) == Screen::Loading,
        screen_of(AppState::<L, P>::Playing { playing }) == Screen::Playing,
        screen_of(AppState::<L, P>::Error(message)) == Screen::Error,
        screen_of(AppState::<L, P>::Exiting) == Screen::Exiting,
{
}

} // verus!
