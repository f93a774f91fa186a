use vstd::prelude::*;

use crate::utils::Unscaled;

verus! {

/// Hotkey modifier flags.
pub const MOD_ALT: u32 = 0x1;
pub const MOD_CONTROL: u32 = 0x2;
pub const MOD_SHIFT: u32 = 0x4;
pub const MOD_WIN: u32 = 0x8;
pub const MOD_NOREPEAT: u32 = 0x4000;

/// How much is logged.
#[derive(Copy, Clone, Debug, PartialEq, Eq, Structural)]
pub enum LogLevel {
    Info,
    Debug,
    Trace,
}

/// Command-line options.
#[derive(Copy, Clone, Debug, PartialEq, Eq, Structural)]
pub struct Cli {
    /// Logging verbosity: each step logs more.
    pub verbose: u8,
    /// Whether to make the window more visible for debugging.
    pub debug_paint: bool,
}

impl Cli {
    /// Info by default, debug at one step of verbosity, trace beyond.
    pub fn log_level(&self) -> (r: LogLevel)
        ensures
            r == (if self.verbose == 0 {
                LogLevel::Info
            } else if self.verbose == 1 {
                LogLevel::Debug
            } else {
                LogLevel::Trace
            }),
    {
        match self.verbose {
            0 => LogLevel::Info,
            1 => LogLevel::Debug,
            _ => LogLevel::Trace,
        }
    }
}

/// The hotkey that toggles the microphones' mute state.
#[derive(Copy, Clone, Debug, PartialEq, Eq, Structural)]
pub struct MicrophoneHotkey {
    pub virtual_key_code: u16,
    pub win: bool,
    pub ctrl: bool,
    pub shift: bool,
    pub alt: bool,
}

pub open spec fn flag(on: bool, bit: u32) -> int {
    if on {
        bit as int
    } else {
        0
    }
}

impl MicrophoneHotkey {
    /// The modifier flags to register: never repeating, plus the keys held.
    pub fn modifiers(&self) -> (r: u32)
        ensures
            r == MOD_NOREPEAT + flag(self.win, MOD_WIN) + flag(self.shift, MOD_SHIFT) + flag(
                self.ctrl,
                MOD_CONTROL,
            ) + flag(self.alt, MOD_ALT),
    {
        let mut modifiers = MOD_NOREPEAT;
        if self.win {
            modifiers = modifiers + MOD_WIN;
        }
        if self.shift {
            modifiers = modifiers + MOD_SHIFT;
        }
        if self.ctrl {
            modifiers = modifiers + MOD_CONTROL;
        }
        if self.alt {
            modifiers = modifiers + MOD_ALT;
        }
        modifiers
    }
}

/// Settings read from the configuration file.
#[derive(Copy, Clone)]
pub struct ConfigFile {
    /// Distance of the window from the right edge, before DPI scaling.
    pub offset_from_right: Unscaled<i32>,
    /// The mute hotkey, if one is registered.
    pub mic_hotkey: Option<MicrophoneHotkey>,
    /// Whether to keep the system awake while the session is unlocked.
    pub keep_awake_while_unlocked: bool,
}

impl Default for ConfigFile {
    /// No offset, no hotkey, and the system may sleep.
    fn default() -> (r: ConfigFile)
        ensures
            r.offset_from_right@ == 0,
            r.mic_hotkey == None::<MicrophoneHotkey>,
            !r.keep_awake_while_unlocked,
    {
        ConfigFile { offset_from_right: Unscaled::new(0), mic_hotkey: None, keep_awake_while_unlocked: false }
    }
}

} // verus!
