# chip8

A CHIP-8 emulator whose core is verified with Verus.

- `src/` is the library. The machine (`machine.rs`, with `instruction.rs`,
  `mem.rs`, `display.rs`, `input.rs`, `rng.rs`, `niche_opt.rs`) is specified
  by `cycle_spec`, one instruction on a mathematical `MachineState`; every
  public operation of `Emulator` is proved against it. Around it stand the
  host's decisions: when the CPU and the 60 Hz clock run (`timers.rs`), how
  often frames are drawn (`renderers.rs`), what a terminal redraws and which
  keys it holds (`tui.rs`, `keys.rs`), what the window's events and keymap
  mean (`gui.rs`, `gui_app.rs`, `keyboard.rs`), colours and settings
  (`rgb.rs`, `cli.rs`).
- `app/` is the program: the command line, the ROM file, the terminal
  (crossterm) and the window (iced), which do their I/O and hand the library
  plain values.
- `tests/` runs the library, including the opcode test ROM.
