//! The persisted settings and their default values.
use vstd::prelude::*;

verus! {

/// A playback gain factor, held as the bit pattern of an IEEE-754 single
/// precision number (the audio path multiplies samples by it).
#[derive(Debug, Clone, Copy, PartialEq, Eq, Structural)]
pub struct Volume {
    pub bits: u32,
}

/// Bit pattern of the gain 1.5, the default volume.
pub const DEFAULT_VOLUME_BITS: u32 = 0x3FC0_0000u32;

impl Volume {
    /// The volume whose gain has the given bit pattern.
    pub fn from_bits(bits: u32) -> (r: Self)
        ensures
            r.bits == bits,
    {
        Volume { bits }
    }

    /// The bit pattern of the gain.
    pub fn to_bits(&self) -> (r: u32)
        ensures
            r == self.bits,
    {
        self.bits
    }

    /// The default playback volume, a gain of 1.5.
    pub fn default_volume() -> (r: Self)
        ensures
            r.bits == DEFAULT_VOLUME_BITS,
    {
        Volume { bits: DEFAULT_VOLUME_BITS }
    }
}

/// An optional string as a character sequence.
pub open spec fn opt_view(o: Option<String>) -> Option<Seq<char>> {
    match o {
        Some(s) => Some(s@),
        None => None,
    }
}

/// A copy of an optional string.
pub fn copy_opt(o: &Option<String>) -> (r: Option<String>)
    ensures
        r == *o,
{
    match o {
        Some(s) => Some(s.clone()),
        None => None,
    }
}

/// Whether two optional strings hold the same text.
pub fn same_opt(a: &Option<String>, b: &Option<String>) -> (r: bool)
    ensures
        r == (opt_view(*a) == opt_view(*b)),
{
    match (a, b) {
        (Some(x), Some(y)) => *x == *y,
        (None, None) => true,
        _ => false,
    }
}

/// The user's device selections and preferences.
#[derive(Debug, Clone)]
pub struct Settings {
    /// The video device, stored by its name.
    pub video_input: Option<String>,
    /// The audio input device, stored by its identifier.
    pub audio_input: Option<String>,
    /// The audio output device identifier; empty for the system default.
    pub audio_output: String,
    pub volume: Volume,
    pub fullscreen: bool,
}

/// The settings on first launch: nothing selected, system default output,
/// gain 1.5, windowed.
pub open spec fn is_default_settings(s: Settings) -> bool {
    &&& s.video_input is None
    &&& s.audio_input is None
    &&& s.audio_output@ == Seq::<char>::empty()
    &&& s.volume.bits == DEFAULT_VOLUME_BITS
    &&& !s.fullscreen
}

impl Default for Settings {
    fn default() -> (r: Self)
        ensures
            is_default_settings(r),
    {
        Settings {
            video_input: None,
            audio_input: None,
            audio_output: String::new(),
            volume: Volume::default_volume(),
            fullscreen: false,
        }
    }
}

impl Settings {
    /// The first-launch settings (see `is_default_settings`).
    pub fn defaults() -> (r: Self)
        ensures
            is_default_settings(r),
    {
        Settings {
            video_input: None,
            audio_input: None,
            audio_output: String::new(),
            volume: Volume::default_volume(),
            fullscreen: false,
        }
    }

    /// A field-by-field copy.
    pub fn snapshot(&self) -> (r: Self)
        ensures
            r == *self,
    {
        Settings {
            video_input: copy_opt(&self.video_input),
            audio_input: copy_opt(&self.audio_input),
            audio_output: self.audio_output.clone(),
            volume: self.volume,
            fullscreen: self.fullscreen,
        }
    }
}

} // verus!
