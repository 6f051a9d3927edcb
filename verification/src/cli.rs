use vstd::prelude::*;
use crate::rgb::Rgb;
use crate::timers::{DEFAULT_CPU_HZ, DEFAULT_CLOCK_HZ};

verus! {

/// The machine to emulate.
#[derive(Debug, Copy, Clone, PartialEq, Eq, Structural)]
pub enum Platform {
    Chip8,
}

/// Where the screen is shown.
#[allow(non_camel_case_types, clippy::upper_case_acronyms)]
#[derive(Debug, Copy, Clone, PartialEq, Eq, Structural)]
pub enum UiType {
    TUI,
    GUI,
}

/// How the emulator was asked to run.
#[derive(Debug, Clone)]
pub struct Cli {
    /// Path to the ROM file.
    pub rom: String,
    /// Emulation target.
    pub platform: Platform,
    /// Display target.
    pub ui: UiType,
    /// CPU cycles per second.
    pub hz: u32,
    /// Delay ticks per second.
    pub clock: u32,
    /// Target frames per second of the display.
    pub fps: u32,
    /// Foreground colour.
    pub fg: Rgb,
    /// Background colour.
    pub bg: Rgb,
    /// Seed for deterministic randomness.
    pub seed: Option<u64>,
    /// Start emulation in a paused state.
    pub start_paused: bool,
}

impl Cli {
    /// The settings for `rom` when nothing else is asked for: CHIP-8 in a
    /// window, 700 cycles and 60 timer ticks per second, 24 frames per
    /// second, white on black, a random seed, running.
    pub fn with_defaults(rom: String) -> (r: Self)
        ensures
            r.rom@ == rom@,
            r.platform == Platform::Chip8,
            r.ui == UiType::GUI,
            r.hz == 700,
            r.clock == 60,
            r.fps == 24,
            r.fg == (Rgb { r: 0xFF, g: 0xFF, b: 0xFF }),
            r.bg == (Rgb { r: 0, g: 0, b: 0 }),
            r.seed is None,
            !r.start_paused,
    {
        Cli {
            rom,
            platform: Platform::Chip8,
            ui: UiType::GUI,
            hz: DEFAULT_CPU_HZ,
            clock: DEFAULT_CLOCK_HZ,
            fps: 24,
            fg: Rgb { r: 0xFF, g: 0xFF, b: 0xFF },
            bg: Rgb { r: 0, g: 0, b: 0 },
            seed: None,
            start_paused: false,
        }
    }
}

} // verus!
