use chip8::timers::{earlier_deadline, linger_over, EmuTimers, Moment, RunReport, TimerState, Timings, DEFAULT_CLOCK_HZ, DEFAULT_CPU_HZ, FAULT_LINGER};
use chip8::{Emulator, Fault, InputIndex, InputState};

fn at(nanos: u64) -> Moment {
    Moment { nanos }
}

const MS: u64 = 1_000_000;

fn quiet() -> RunReport {
    RunReport {
        cpu_fault: None,
        should_render: false,
        should_init_timers: false,
        should_beep_timer: false,
        should_beep_instruction: false,
    }
}

#[test]
fn test_timings() {
    let cpu = Timings::new(700, DEFAULT_CPU_HZ);
    assert_eq!(cpu.delta_time, 1_428_571);
    assert_eq!(cpu.resync_threshold, 17_142_852);
    let clock = Timings::new(0, DEFAULT_CLOCK_HZ);
    assert_eq!(clock.delta_time, 16_666_666);
    assert_eq!(clock.resync_threshold, 199_999_992);
    // the threshold stays between 2 ms and 500 ms
    let slow = Timings::new(1, DEFAULT_CLOCK_HZ);
    assert_eq!(slow.delta_time, 1_000_000_000);
    assert_eq!(slow.resync_threshold, 500 * MS);
    let fast = Timings::new(10_000_000, DEFAULT_CLOCK_HZ);
    assert_eq!(fast.delta_time, 100);
    assert_eq!(fast.resync_threshold, 2 * MS);
}

#[test]
fn test_earlier_deadline() {
    assert_eq!(earlier_deadline(None, None), None);
    assert_eq!(earlier_deadline(Some(at(5)), None), Some(at(5)));
    assert_eq!(earlier_deadline(None, Some(at(7))), Some(at(7)));
    assert_eq!(earlier_deadline(Some(at(9)), Some(at(7))), Some(at(7)));
    assert_eq!(earlier_deadline(Some(at(3)), Some(at(7))), Some(at(3)));
}

#[test]
fn test_moment_arithmetic() {
    assert_eq!(at(10).saturating_duration_since(at(4)), 6);
    assert_eq!(at(4).saturating_duration_since(at(10)), 0);
    assert_eq!(at(4).plus(6), at(10));
}

#[test]
fn test_pause_then_resume_keeps_schedule() {
    let mut s = TimerState::Running { next_cpu_cycle: Some(at(100)), next_clock_tick: Some(at(150)) };
    s.pause();
    assert_eq!(s, TimerState::Paused { was_waiting_on_input: false, clock_resume_offset: Some(50) });
    // pausing twice changes nothing
    s.pause();
    assert_eq!(s, TimerState::Paused { was_waiting_on_input: false, clock_resume_offset: Some(50) });
    s.resume(at(1000), InputState::new());
    assert_eq!(s, TimerState::Running { next_cpu_cycle: Some(at(1000)), next_clock_tick: Some(at(1050)) });
}

#[test]
fn test_pause_while_waiting_for_a_key() {
    let mut s = TimerState::Running { next_cpu_cycle: None, next_clock_tick: Some(at(10)) };
    s.pause();
    assert_eq!(s, TimerState::Paused { was_waiting_on_input: true, clock_resume_offset: Some(0) });
    s.resume(at(500), InputState::new());
    assert_eq!(s, TimerState::Running { next_cpu_cycle: None, next_clock_tick: Some(at(500)) });
    // a held key wakes the waiting CPU
    let mut held = InputState::new();
    held.set(InputIndex::from_usize(3).unwrap());
    s.resume(at(600), held);
    assert_eq!(s, TimerState::Running { next_cpu_cycle: Some(at(600)), next_clock_tick: Some(at(500)) });
    // a stopped clock stays stopped
    let mut s = TimerState::Running { next_cpu_cycle: Some(at(3)), next_clock_tick: None };
    s.pause();
    assert_eq!(s, TimerState::Paused { was_waiting_on_input: false, clock_resume_offset: None });
}

fn straight_line() -> Emulator {
    // ten times V0 = 0
    Emulator::new_with_seed(&[0x60, 0x00].repeat(10), [0; 4])
}

#[test]
fn test_run_until_runs_the_cycles_due() {
    let mut emu = straight_line();
    let t0 = at(1_000 * MS);
    let mut timers = EmuTimers::new(false, 1000, 60, t0);
    assert_eq!(timers.reschedule_deadline(), Some(t0));
    // cycles are due at 0, 1, 2 and 3 ms
    let report = timers.run_until(at(t0.nanos + 3 * MS + MS / 2), &mut emu, &InputState::new());
    assert_eq!(report, quiet());
    assert_eq!(emu.pc(), 0x208);
    assert_eq!(timers.reschedule_deadline(), Some(at(t0.nanos + 4 * MS)));
}

#[test]
fn test_run_until_skips_ahead_when_far_behind() {
    let mut emu = straight_line();
    let t0 = at(1_000 * MS);
    let mut timers = EmuTimers::new(false, 1000, 60, t0);
    // 100 ms late is more than the 12 ms threshold: only the cycle at now runs
    let now = at(t0.nanos + 100 * MS);
    timers.run_until(now, &mut emu, &InputState::new());
    assert_eq!(emu.pc(), 0x202);
    assert_eq!(timers.reschedule_deadline(), Some(at(now.nanos + MS)));
}

#[test]
fn test_paused_timers_run_nothing() {
    let mut emu = straight_line();
    let mut timers = EmuTimers::new(true, 1000, 60, at(0));
    assert_eq!(timers.reschedule_deadline(), None);
    let report = timers.run_until(at(50 * MS), &mut emu, &InputState::new());
    assert_eq!(report, quiet());
    assert_eq!(emu.pc(), 0x200);
    timers.resume(at(60 * MS), InputState::new());
    assert_eq!(timers.reschedule_deadline(), Some(at(60 * MS)));
}

#[test]
fn test_beep_and_clock() {
    // V0 = 3; sound timer = V0; then V1 = 0 repeatedly
    let mut program = vec![0x60, 0x03, 0xF0, 0x18];
    program.extend([0x61, 0x00].repeat(20));
    let mut emu = Emulator::new_with_seed(&program, [0; 4]);
    let t0 = at(1_000 * MS);
    let mut timers = EmuTimers::new(false, 1000, 60, t0);
    let now = at(t0.nanos + MS);
    let report = timers.run_until(now, &mut emu, &InputState::new());
    assert!(report.should_init_timers);
    assert!(report.should_beep_instruction);
    assert!(!report.should_beep_timer);
    assert_eq!(emu.sound_timer(), 3);
    timers.ensure_clock_start(now);
    assert_eq!(timers.reschedule_deadline(), Some(at(now.nanos + MS)));
    // the first clock tick comes one 60 Hz period later
    let later = at(now.nanos + 16_666_666);
    let report = timers.run_until(later, &mut emu, &InputState::new());
    assert!(report.should_beep_timer);
    assert_eq!(emu.sound_timer(), 2);
}

#[test]
fn test_fault_stops_the_run() {
    let mut emu = Emulator::new_with_seed(&[0x00, 0x00], [0; 4]);
    let t0 = at(1_000 * MS);
    let mut timers = EmuTimers::new(false, 1000, 60, t0);
    let report = timers.run_until(at(t0.nanos + 5 * MS), &mut emu, &InputState::new());
    assert_eq!(report.cpu_fault, Some(Fault::InvalidInstruction));
    assert_eq!(timers.reschedule_deadline(), Some(t0));
}

#[test]
fn test_waiting_for_a_key_stops_the_cpu() {
    let mut emu = Emulator::new_with_seed(&[0xF0, 0x0A, 0x12, 0x02], [0; 4]);
    let t0 = at(1_000 * MS);
    let mut timers = EmuTimers::new(false, 1000, 60, t0);
    let report = timers.run_until(at(t0.nanos + 5 * MS), &mut emu, &InputState::new());
    assert_eq!(report, quiet());
    assert_eq!(emu.pc(), 0x200);
    assert_eq!(timers.reschedule_deadline(), None);
    let mut held = InputState::new();
    held.set(InputIndex::from_usize(0).unwrap());
    let resumed = at(t0.nanos + 6 * MS);
    timers.resume(resumed, held.copy());
    assert_eq!(timers.reschedule_deadline(), Some(resumed));
    timers.run_until(resumed, &mut emu, &held);
    assert_eq!(emu.pc(), 0x202);
}

#[test]
fn test_pause_and_resume_the_timers() {
    let mut emu = straight_line();
    let t0 = at(1_000 * MS);
    let mut timers = EmuTimers::new(false, 1000, 60, t0);
    timers.pause();
    assert_eq!(timers.reschedule_deadline(), None);
    timers.run_until(at(t0.nanos + 5 * MS), &mut emu, &InputState::new());
    assert_eq!(emu.pc(), 0x200);
    timers.ensure_clock_start(t0);
    timers.resume(at(t0.nanos + 7 * MS), InputState::new());
    assert_eq!(timers.reschedule_deadline(), Some(at(t0.nanos + 7 * MS)));
}

#[test]
fn test_fault_linger() {
    let deadline = at(FAULT_LINGER);
    assert!(!linger_over(deadline, at(0)));
    assert!(!linger_over(deadline, at(FAULT_LINGER - 51 * MS)));
    assert!(linger_over(deadline, at(FAULT_LINGER - 50 * MS)));
    assert!(linger_over(deadline, at(FAULT_LINGER + 1)));
}

#[test]
fn test_run_and_resume_preconditions() {
    let timers = EmuTimers::new(false, 700, 60, at(0));
    assert!(timers.can_run_at(at(0)));
    assert!(!timers.can_run_at(at(u64::MAX - 10)));
    // periods below a nanosecond cannot run
    let too_fast = EmuTimers::new(false, 2_000_000_000, 60, at(0));
    assert!(!too_fast.can_run_at(at(0)));
    let mut paused = EmuTimers::new(false, 700, 60, at(0));
    paused.ensure_clock_start(at(0));
    paused.pause();
    assert!(paused.can_resume_at(at(5)));
    assert!(!paused.can_resume_at(at(u64::MAX)));
}

#[test]
fn test_host_actions() {
    let mut report = quiet();
    let a = report.host_actions(false);
    assert_eq!((a.fault, a.beep, a.render, a.start_clock), (None, false, false, false));
    assert!(report.host_actions(true).render);
    report.should_beep_timer = true;
    report.should_init_timers = true;
    let a = report.host_actions(false);
    assert_eq!((a.fault, a.beep, a.render, a.start_clock), (None, true, false, true));
    report.should_render = true;
    report.cpu_fault = Some(Fault::StackOverflow);
    let a = report.host_actions(true);
    assert_eq!((a.fault, a.beep, a.render, a.start_clock), (Some(Fault::StackOverflow), false, false, false));
}
