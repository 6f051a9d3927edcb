use chip8::machine::RomLoadError;
use chip8::{CycleEffect, Emulator, Fault, InputIndex, InputState};

fn emulator(program: &[u8]) -> Emulator {
    Emulator::new_with_seed(program, [1, 2, 3, 4])
}

fn keys(held: &[usize]) -> InputState {
    let mut state = InputState::new();
    for &k in held {
        state.set(InputIndex::from_usize(k).unwrap());
    }
    state
}

fn run(emu: &mut Emulator, cycles: usize) {
    for _ in 0..cycles {
        emu.run_cycle(InputState::new()).unwrap();
    }
}

#[test]
fn test_loaded_machine_starts_at_0x200() {
    let emu = Emulator::new_with_rom(&[0x12, 0x00], [9u32, 9, 9, 9]);
    assert_eq!(emu.pc(), 0x200);
    assert_eq!(emu.delay_timer(), 0);
    assert_eq!(emu.sound_timer(), 0);
    assert_eq!(*emu.current_display().as_board(), [0u64; 32]);
}

#[test]
fn test_rom_capacity_is_enforced() {
    let fits = vec![0x12u8; 3584];
    let too_big = vec![0x12u8; 3585];
    assert!(Emulator::read_new_rom(&fits, [0u32; 4]).is_ok());
    assert!(matches!(Emulator::read_new_rom(&too_big, [0u32; 4]), Err(RomLoadError::TooLarge)));
    assert!(Emulator::read_new_rom_boxed(&fits, [0u32; 4]).is_ok());
    assert!(matches!(Emulator::read_new_rom_boxed(&too_big, [0u32; 4]), Err(RomLoadError::TooLarge)));
    let mut emu = emulator(&[0x12, 0x00]);
    assert!(matches!(emu.read_rom(&too_big, [0u32; 4]), Err(RomLoadError::TooLarge)));
    assert!(emu.read_rom(&[0x60, 0x01], [0u32; 4]).is_ok());
    assert_eq!(emu.pc(), 0x200);
}

#[test]
fn test_reload_resets_the_machine() {
    let mut emu = emulator(&[0x60, 0x05, 0xF0, 0x15, 0x12, 0x04]);
    run(&mut emu, 2);
    assert_eq!(emu.delay_timer(), 5);
    emu.with_rom(&[0x12, 0x00], [0u32; 4]);
    assert_eq!(emu.delay_timer(), 0);
    assert_eq!(emu.pc(), 0x200);
}

#[test]
fn test_clear_screen_changes_display() {
    let mut emu = emulator(&[0xA0, 0x50, 0xD0, 0x05, 0x00, 0xE0]);
    run(&mut emu, 1);
    assert!(matches!(emu.run_cycle(InputState::new()), Ok(CycleEffect::DisplayChanged)));
    assert!(emu.current_display().get(0, 0));
    assert!(matches!(emu.run_cycle(InputState::new()), Ok(CycleEffect::DisplayChanged)));
    assert_eq!(*emu.current_display().as_board(), [0u64; 32]);
}

#[test]
fn test_return_without_call_underflows() {
    let mut emu = emulator(&[0x00, 0xEE]);
    assert!(matches!(emu.run_cycle(InputState::new()), Err(Fault::StackUnderflow)));
}

#[test]
fn test_call_then_return() {
    // 0x200: CALL 0x204; 0x202: JP 0x202; 0x204: RET
    let mut emu = emulator(&[0x22, 0x04, 0x12, 0x02, 0x00, 0xEE]);
    assert!(matches!(emu.run_cycle(InputState::new()), Ok(CycleEffect::Executed)));
    assert_eq!(emu.pc(), 0x204);
    assert!(matches!(emu.run_cycle(InputState::new()), Ok(CycleEffect::Executed)));
    assert_eq!(emu.pc(), 0x202);
}

#[test]
fn test_deep_calls_overflow_the_stack() {
    // 0x200: CALL 0x200, forever
    let mut emu = emulator(&[0x22, 0x00]);
    for _ in 0..15 {
        assert!(matches!(emu.run_cycle(InputState::new()), Ok(CycleEffect::Executed)));
    }
    assert!(matches!(emu.run_cycle(InputState::new()), Err(Fault::StackOverflow)));
}

#[test]
fn test_invalid_instructions() {
    for program in [[0x00u8, 0x00], [0x50, 0x01], [0x90, 0x0F], [0x80, 0x08], [0xE0, 0x00], [0xF0, 0x00]] {
        let mut emu = emulator(&program);
        assert!(matches!(emu.run_cycle(InputState::new()), Err(Fault::InvalidInstruction)), "{program:?}");
    }
}

#[test]
fn test_fetch_past_memory_faults() {
    let mut emu = emulator(&[0x1F, 0xFF]);
    run(&mut emu, 1);
    assert_eq!(emu.pc(), 0xFFF);
    assert!(matches!(emu.run_cycle(InputState::new()), Err(Fault::Memory)));
}

#[test]
fn test_key_register_out_of_range_faults() {
    let mut emu = emulator(&[0x60, 0x10, 0xE0, 0x9E]);
    run(&mut emu, 1);
    assert!(matches!(emu.run_cycle(InputState::new()), Err(Fault::InvalidInputIndex)));
}

#[test]
fn test_skip_if_key_pressed() {
    // V0 = 1; skip if the key labelled 1 (keypad position 0) is held
    let program = [0x60, 0x01, 0xE0, 0x9E];
    let mut emu = emulator(&program);
    run(&mut emu, 1);
    emu.run_cycle(keys(&[0])).unwrap();
    assert_eq!(emu.pc(), 0x206);
    let mut emu = emulator(&program);
    run(&mut emu, 1);
    emu.run_cycle(keys(&[1])).unwrap();
    assert_eq!(emu.pc(), 0x204);
    // V0 = 0: the key labelled 0 sits at position 13
    let mut emu = emulator(&[0x60, 0x00, 0xE0, 0x9E]);
    run(&mut emu, 1);
    emu.run_cycle(keys(&[13])).unwrap();
    assert_eq!(emu.pc(), 0x206);
    // skip if the key labelled 5 is not held
    let mut emu = emulator(&[0x60, 0x05, 0xE0, 0xA1]);
    run(&mut emu, 1);
    emu.run_cycle(keys(&[4])).unwrap();
    assert_eq!(emu.pc(), 0x206);
    let mut emu = emulator(&[0x60, 0x05, 0xE0, 0xA1]);
    run(&mut emu, 1);
    emu.run_cycle(keys(&[5])).unwrap();
    assert_eq!(emu.pc(), 0x204);
}

#[test]
fn test_wait_for_key_retries_until_a_key_is_held() {
    // 0x200: LD V0, K; 0x202: SE V0, 1
    let mut emu = emulator(&[0xF0, 0x0A, 0x30, 0x01]);
    for _ in 0..3 {
        assert!(matches!(emu.run_cycle(InputState::new()), Ok(CycleEffect::WaitForAnyKey)));
        assert_eq!(emu.pc(), 0x200);
    }
    // the key at position 0 is labelled 1: its value is stored
    assert!(matches!(emu.run_cycle(keys(&[0])), Ok(CycleEffect::Executed)));
    assert_eq!(emu.pc(), 0x202);
    emu.run_cycle(InputState::new()).unwrap();
    assert_eq!(emu.pc(), 0x206);
}

#[test]
fn test_wait_for_key_with_highest_key() {
    // the key at position 15 is labelled F
    let mut emu = emulator(&[0xF0, 0x0A, 0x30, 0x0F]);
    emu.run_cycle(keys(&[15])).unwrap();
    emu.run_cycle(InputState::new()).unwrap();
    assert_eq!(emu.pc(), 0x206);
}

#[test]
fn test_timers_start_and_tick() {
    let mut emu = emulator(&[0x60, 0x03, 0xF0, 0x15, 0xF0, 0x18, 0x61, 0x00, 0xF1, 0x15, 0xF1, 0x18]);
    run(&mut emu, 1);
    assert!(matches!(emu.run_cycle(InputState::new()), Ok(CycleEffect::DelayStarted)));
    assert!(matches!(emu.run_cycle(InputState::new()), Ok(CycleEffect::BeepStarted)));
    assert_eq!(emu.delay_timer(), 3);
    assert_eq!(emu.sound_timer(), 3);
    emu.tick_timers();
    assert_eq!(emu.delay_timer(), 2);
    assert_eq!(emu.sound_timer(), 2);
    emu.tick_timers();
    emu.tick_timers();
    emu.tick_timers();
    assert_eq!(emu.delay_timer(), 0);
    assert_eq!(emu.sound_timer(), 0);
    run(&mut emu, 1);
    assert!(matches!(emu.run_cycle(InputState::new()), Ok(CycleEffect::Executed)));
    assert!(matches!(emu.run_cycle(InputState::new()), Ok(CycleEffect::Executed)));
}

#[test]
fn test_store_bcd_then_load() {
    // I = 0x300; V0 = 234; BCD V0; load V0..V2; SE V0,2; SE V1,3 ... checked by skips
    let program = [
        0xA3, 0x00, 0x60, 0xEA, 0xF0, 0x33, 0xF2, 0x65, //
        0x30, 0x02, 0x12, 0x0A, // skip the trap unless V0 == 2
        0x31, 0x03, 0x12, 0x0E, // skip the trap unless V1 == 3
        0x32, 0x04, 0x12, 0x12, // skip the trap unless V2 == 4
        0x12, 0x14, // done
    ];
    let mut emu = emulator(&program);
    run(&mut emu, 4);
    for _ in 0..3 {
        run(&mut emu, 1);
    }
    assert_eq!(emu.pc(), 0x214);
}

#[test]
fn test_store_then_load_registers() {
    // V0..V3 = 1,2,3,4; store at 0x300; clear; load back; check V3 == 4
    let program = [
        0x60, 0x01, 0x61, 0x02, 0x62, 0x03, 0x63, 0x04, 0xA3, 0x00, 0xF3, 0x55, //
        0x63, 0x00, 0xF3, 0x65, 0x33, 0x04, 0x12, 0x12, 0x12, 0x14,
    ];
    let mut emu = emulator(&program);
    run(&mut emu, 9);
    assert_eq!(emu.pc(), 0x214);
}

#[test]
fn test_store_registers_past_memory_faults() {
    let mut emu = emulator(&[0xAF, 0xFF, 0xF3, 0x55]);
    run(&mut emu, 1);
    assert!(matches!(emu.run_cycle(InputState::new()), Err(Fault::Memory)));
}

#[test]
fn test_arithmetic_flags() {
    // V0 = 200; V1 = 100; V0 += V1 (300 -> 44, carry); SE VF,1; trap; SE V0,44; trap
    let program = [
        0x60, 0xC8, 0x61, 0x64, 0x80, 0x14, //
        0x3F, 0x01, 0x12, 0x08, //
        0x30, 0x2C, 0x12, 0x0C, //
        // V0 -= V1 (44 - 100, borrow: VF = 0)
        0x80, 0x15, 0x3F, 0x00, 0x12, 0x12, //
        // V2 = 0x81; shift right: VF = 1, V2 = 0x40
        0x62, 0x81, 0x82, 0x06, 0x3F, 0x01, 0x12, 0x1A, 0x32, 0x40, 0x12, 0x1E, //
        // shift left: VF = 0, V2 = 0x80
        0x82, 0x0E, 0x3F, 0x00, 0x12, 0x24, 0x32, 0x80, 0x12, 0x28, //
        0x12, 0x2A,
    ];
    let mut emu = emulator(&program);
    run(&mut emu, 5);
    assert_eq!(emu.pc(), 0x20E);
    run(&mut emu, 2);
    assert_eq!(emu.pc(), 0x214);
    run(&mut emu, 4);
    assert_eq!(emu.pc(), 0x220);
    run(&mut emu, 3);
    assert_eq!(emu.pc(), 0x22A);
}

#[test]
fn test_random_byte_from_seed() {
    // xoshiro128++ from [1, 2, 3, 4] first outputs 641, whose low byte is 0x81
    let mut emu = emulator(&[0xC0, 0xFF, 0x30, 0x81]);
    run(&mut emu, 2);
    assert_eq!(emu.pc(), 0x206);
    // a mask keeps only its bits
    let mut emu = emulator(&[0xC0, 0x0F, 0x30, 0x01]);
    run(&mut emu, 2);
    assert_eq!(emu.pc(), 0x206);
}

#[test]
fn test_jump_plus_v0() {
    let mut emu = emulator(&[0x60, 0x10, 0xB3, 0x00]);
    run(&mut emu, 2);
    assert_eq!(emu.pc(), 0x310);
}

#[test]
fn test_draw_reports_collision() {
    // I = glyph 0; draw at (0, 0) twice; SE VF,1 after the second draw
    let mut emu = emulator(&[0x60, 0x00, 0xF0, 0x29, 0xD0, 0x05, 0xD0, 0x05, 0x3F, 0x01, 0x12, 0x0A, 0x12, 0x0C]);
    run(&mut emu, 2);
    assert!(matches!(emu.run_cycle(InputState::new()), Ok(CycleEffect::DisplayChanged)));
    let board = *emu.current_display().as_board();
    assert!(emu.current_display().get(0, 0));
    assert!(emu.current_display().get(3, 0));
    assert!(!emu.current_display().get(4, 0));
    assert!(emu.current_display().get(0, 1));
    assert!(!emu.current_display().get(1, 1));
    assert_ne!(board, [0u64; 32]);
    assert!(matches!(emu.run_cycle(InputState::new()), Ok(CycleEffect::DisplayChanged)));
    assert_eq!(*emu.current_display().as_board(), [0u64; 32]);
    run(&mut emu, 1);
    assert_eq!(emu.pc(), 0x20C);
}

#[test]
fn test_draw_wraps_around_the_screen() {
    // a glyph drawn at x = 62 shows its last two columns at the left edge
    let mut emu = emulator(&[0x60, 0x3E, 0x61, 0x00, 0x62, 0x00, 0xF2, 0x29, 0xD0, 0x15]);
    run(&mut emu, 5);
    assert!(emu.current_display().get(62, 0));
    assert!(emu.current_display().get(63, 0));
    assert!(emu.current_display().get(0, 0));
    assert!(emu.current_display().get(1, 0));
    assert!(!emu.current_display().get(2, 0));
}

#[test]
fn test_draw_on_blank_screen_reports_no_collision() {
    // VF = 1 first, so that the draw has to clear it
    let mut emu = emulator(&[0x6F, 0x01, 0xA0, 0x50, 0xD0, 0x05, 0x3F, 0x00, 0x12, 0x08, 0x12, 0x0A]);
    run(&mut emu, 4);
    assert_eq!(emu.pc(), 0x20A);
}

#[test]
fn test_wait_for_key_with_several_keys() {
    // keys at positions 3 (labelled C) and 9 held: the lowest position's
    // value is stored
    let mut emu = emulator(&[0xF0, 0x0A, 0x30, 0x0C]);
    emu.run_cycle(keys(&[3, 9])).unwrap();
    emu.run_cycle(InputState::new()).unwrap();
    assert_eq!(emu.pc(), 0x206);
}

#[test]
fn test_wait_for_key_then_skip_if_pressed() {
    // LD V0, K; SKP V0: the stored key is found held
    let mut emu = emulator(&[0xF0, 0x0A, 0xE0, 0x9E]);
    emu.run_cycle(keys(&[7, 12])).unwrap();
    emu.run_cycle(keys(&[7, 12])).unwrap();
    assert_eq!(emu.pc(), 0x206);
}
