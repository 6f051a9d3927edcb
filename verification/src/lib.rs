//! A CHIP-8 emulator core, with the timing, input and rendering decisions of a
//! host around it.
use vstd::prelude::*;

pub mod niche_opt;
pub mod mem;
pub mod display;
pub mod input;
pub mod rng;
pub mod instruction;
pub mod machine;
pub mod timers;
pub mod renderers;
pub mod rgb;
pub mod keys;
pub mod gui;
pub mod tui;
pub mod keyboard;
pub mod gui_app;
pub mod cli;

pub use display::{Display, lemma_draw_twice_restores, lemma_blank_screen_no_collision, pixel_at, sprite_row, rotate_right_spec, rows_in_memory, draw_rows, rows_collide, draw_spec};
pub use input::{InputIndex, lemma_set_holds_key, lemma_unset_releases_key, lemma_toggle_flips_key, lemma_any_iff_some_key_held, InputState, keypad_label, key_held, key_mask};
pub use rng::{Seed, Seeder, xoshiro_next, xoshiro_output, rotl32, add32};
pub use mem::{word_at, stack_slot, with_stack_slot, store_bytes_spec, load_bytes_spec};
pub use niche_opt::nibble_of;
pub use instruction::{opcode_group, opcode_x, opcode_y, opcode_n, opcode_kk, opcode_nnn, opcode_is_valid};
pub use machine::{Emulator, RomLoadError, ROM_CAPACITY, fontset, zeroed_state, loaded_state, overfull_state, rom_copied, rom_fitting_part, reset_for_rom_spec, MachineState, set_register, set_flag, wrap16, skip_if, executed, executed_if, execute_alu, execute_misc, execute_opcode, cycle_spec, tick_spec, state_well_formed, lemma_wait_for_key_retries, lemma_return_after_call, lemma_store_then_load_registers, lemma_bcd_digits, lemma_loaded_layout};

verus! {

/// A failure of the emulated machine while executing an instruction.
#[derive(Debug, Copy, Clone, PartialEq, Eq, Structural)]
pub enum Fault {
    Memory,
    StackOverflow,
    StackUnderflow,
    InvalidInputIndex,
    InvalidInstruction,
}

impl Fault {
    /// The human-readable description of the fault.
    pub fn message(&self) -> (r: &'static str)
        ensures
            r@ == fault_message(*self)@,
    {
        match self {
            Fault::Memory => "memory fault",
            Fault::StackOverflow => "stack overflow",
            Fault::StackUnderflow => "stack underflow",
            Fault::InvalidInputIndex => "invalid input index requested",
            Fault::InvalidInstruction => "invalid instruction",
        }
    }
}

/// The description of each fault.
pub open spec fn fault_message(f: Fault) -> &'static str {
    match f {
        Fault::Memory => "memory fault",
        Fault::StackOverflow => "stack overflow",
        Fault::StackUnderflow => "stack underflow",
        Fault::InvalidInputIndex => "invalid input index requested",
        Fault::InvalidInstruction => "invalid instruction",
    }
}

/// What an executed instruction means for the host.
#[derive(Debug, Copy, Clone, PartialEq, Eq, Structural)]
pub enum CycleEffect {
    /// The instruction ran; nothing the host has to react to.
    Executed,
    /// No key is held: the instruction waits and will run again.
    WaitForAnyKey,
    /// The screen changed.
    DisplayChanged,
    /// The sound timer was set to a non-zero value.
    BeepStarted,
    /// The delay timer was set to a non-zero value.
    DelayStarted,
}

} // verus!
