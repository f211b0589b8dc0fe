//! Which audio devices a playback session uses.
use vstd::prelude::*;

use crate::errors::AppError;
use crate::settings::Settings;

verus! {

/// The audio devices of a playback session: the input by identifier, the
/// output by identifier or empty for the system default. The shared volume
/// travels beside it.
#[derive(Debug, Clone)]
pub struct AudioConfig {
    pub input_device: String,
    pub output_device: String,
}

impl AudioConfig {
    /// The devices chosen in `settings`; without an audio input there is
    /// nothing to play.
    pub fn from_settings(settings: &Settings) -> (r: Result<Self, AppError>)
        ensures
            settings.audio_input is None ==> r is Err && r->Err_0 == AppError::AudioDeviceNotFound,
            settings.audio_input is Some ==> r is Ok && r->Ok_0.input_device@
                == settings.audio_input->Some_0@ && r->Ok_0.output_device@
                == settings.audio_output@,
    {
        match &settings.audio_input {
            None => Err(AppError::AudioDeviceNotFound),
            Some(input) => Ok(
                AudioConfig {
                    input_device: input.clone(),
                    output_device: settings.audio_output.clone(),
                },
            ),
        }
    }

    /// A field-by-field copy.
    pub fn duplicate(&self) -> (r: Self)
        ensures
            r.input_device@ == self.input_device@,
            r.output_device@ == self.output_device@,
    {
        AudioConfig {
            input_device: self.input_device.clone(),
            output_device: self.output_device.clone(),
        }
    }
}

} // verus!
