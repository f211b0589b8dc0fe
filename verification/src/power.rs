//! Keeping the machine awake while a stream plays.
//!
//! On Linux and macOS an inhibitor process holds the machine awake; this
//! module decides when one is started and stopped. On Windows the thread
//! execution state is set instead, with the flags computed here.
use vstd::prelude::*;

verus! {

/// Whether an inhibitor process is running.
#[derive(Debug, Clone, Copy, PartialEq, Eq, Structural)]
pub struct SleepInhibitor {
    pub active: bool,
}

/// What the platform layer has to do after a request.
#[derive(Debug, Clone, Copy, PartialEq, Eq, Structural)]
pub enum PowerAction {
    /// Nothing to do.
    Nothing,
    /// Start the inhibitor process and report whether it started.
    StartInhibitor,
    /// Kill the inhibitor process and wait for it.
    StopInhibitor,
}

/// The action that a request to keep the machine awake asks for.
pub open spec fn prevent_action(active: bool) -> PowerAction {
    if active {
        PowerAction::Nothing
    } else {
        PowerAction::StartInhibitor
    }
}

/// The action that a request to let the machine sleep asks for.
pub open spec fn allow_action(active: bool) -> PowerAction {
    if active {
        PowerAction::StopInhibitor
    } else {
        PowerAction::Nothing
    }
}

impl SleepInhibitor {
    /// No inhibitor running.
    pub fn new() -> (r: Self)
        ensures
            !r.active,
    {
        SleepInhibitor { active: false }
    }

    /// Records whether the inhibitor process that `prevent_sleep` asked for
    /// could be started.
    pub fn inhibitor_started(&mut self, started: bool)
        ensures
            final(self).active == (old(self).active || started),
    {
        self.active = self.active || started;
    }
}

/// Asks to keep the machine awake: an inhibitor is started only when none runs.
pub fn prevent_sleep(inhibitor: &SleepInhibitor) -> (r: PowerAction)
    ensures
        r == prevent_action(inhibitor.active),
{
    if inhibitor.active {
        PowerAction::Nothing
    } else {
        PowerAction::StartInhibitor
    }
}

/// Lets the machine sleep again: the running inhibitor, if any, is stopped.
pub fn allow_sleep(inhibitor: &mut SleepInhibitor) -> (r: PowerAction)
    ensures
        r == allow_action(old(inhibitor).active),
        !final(inhibitor).active,
{
    if inhibitor.active {
        inhibitor.active = false;
        PowerAction::StopInhibitor
    } else {
        PowerAction::Nothing
    }
}

/// `ES_CONTINUOUS`: the state set stays in force until the next call.
pub const ES_CONTINUOUS: u32 = 0x8000_0000u32;

/// `ES_SYSTEM_REQUIRED`: the system must not sleep.
pub const ES_SYSTEM_REQUIRED: u32 = 0x0000_0001u32;

/// `ES_DISPLAY_REQUIRED`: the display must stay on.
pub const ES_DISPLAY_REQUIRED: u32 = 0x0000_0002u32;

/// The Windows thread execution state to set: system and display held awake
/// while `keep_awake`, only the continuous flag otherwise.
pub fn execution_state_flags(keep_awake: bool) -> (r: u32)
    ensures
        keep_awake ==> r == 0x8000_0003u32,
        !keep_awake ==> r == 0x8000_0000u32,
{
    if keep_awake {
        let r = ES_CONTINUOUS | ES_SYSTEM_REQUIRED | ES_DISPLAY_REQUIRED;
        assert(ES_CONTINUOUS | ES_SYSTEM_REQUIRED | ES_DISPLAY_REQUIRED == 0x8000_0003u32)
            by (bit_vector);
        r
    } else {
        ES_CONTINUOUS
    }
}

/// At most one inhibitor runs: a request to stay awake starts one only when
/// none is running, so after a successful start further requests start
/// nothing, while after a failed start the next request tries again.
pub proof fn law_single_inhibitor(started: bool)
    ensures
        prevent_action(false) == PowerAction::StartInhibitor,
        prevent_action(false || started) == (if started {
            PowerAction::Nothing
        } else {
            PowerAction::StartInhibitor
        }),
{
}

/// Letting the machine sleep stops the inhibitor that a request to stay
/// awake started, and a second request to let it sleep does nothing.
pub proof fn law_allow_undoes_prevent()
    ensures
        allow_action(prevent_action(false) == PowerAction::StartInhibitor)
            == PowerAction::StopInhibitor,
        allow_action(false) == PowerAction::Nothing,
{
}

} // verus!
