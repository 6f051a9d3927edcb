use vstd::prelude::*;
use crate::{CycleEffect, Fault};
use crate::input::InputState;
use crate::machine::{Emulator, MachineState, cycle_spec, tick_spec};

verus! {

/// A point in time, in nanoseconds since an origin the host picks.
#[derive(Debug, Copy, Clone, PartialEq, Eq, Structural)]
pub struct Moment {
    pub nanos: u64,
}

impl Moment {
    /// The time from `earlier` to `self`, or zero when `earlier` is later.
    pub fn saturating_duration_since(self, earlier: Moment) -> (r: u64)
        ensures
            r == saturating_since(self.nanos, earlier.nanos),
    {
        if self.nanos > earlier.nanos {
            self.nanos - earlier.nanos
        } else {
            0
        }
    }

    /// The moment `nanos` nanoseconds after this one.
    pub fn plus(self, nanos: u64) -> (r: Moment)
        requires
            self.nanos + nanos <= u64::MAX,
        ensures
            r.nanos == self.nanos + nanos,
    {
        Moment { nanos: self.nanos + nanos }
    }
}

/// `a - b`, or zero when `b` is larger.
pub open spec fn saturating_since(a: u64, b: u64) -> u64 {
    if a > b {
        (a - b) as u64
    } else {
        0
    }
}

/// The earlier of two optional deadlines; a missing deadline is no deadline.
pub open spec fn earlier_deadline_spec(d1: Option<Moment>, d2: Option<Moment>) -> Option<Moment> {
    match (d1, d2) {
        (None, None) => None,
        (Some(one), None) => Some(one),
        (None, Some(two)) => Some(two),
        (Some(one), Some(two)) => Some(if one.nanos <= two.nanos { one } else { two }),
    }
}

/// The earlier of two optional deadlines; a missing deadline is no deadline.
pub fn earlier_deadline(deadline1: Option<Moment>, deadline2: Option<Moment>) -> (r: Option<Moment>)
    ensures
        r == earlier_deadline_spec(deadline1, deadline2),
{
    match (deadline1, deadline2) {
        (None, None) => None,
        (Some(one), None) => Some(one),
        (None, Some(two)) => Some(two),
        (Some(one), Some(two)) => Some(if one.nanos <= two.nanos { one } else { two }),
    }
}

/// When the CPU and the 60 Hz clock next run, or what to restore on resume.
#[derive(Debug, Copy, Clone, PartialEq, Eq, Structural)]
pub enum TimerState {
    Running {
        /// `None`: the CPU waits for a key.
        next_cpu_cycle: Option<Moment>,
        /// `None`: no timer is counting down.
        next_clock_tick: Option<Moment>,
    },
    Paused {
        was_waiting_on_input: bool,
        /// How long after resuming the next clock tick is due, if one was.
        clock_resume_offset: Option<u64>,
    },
}

/// The paused state that remembers a running state.
pub open spec fn paused_from(next_cpu_cycle: Option<Moment>, next_clock_tick: Option<Moment>) -> TimerState {
    TimerState::Paused {
        was_waiting_on_input: next_cpu_cycle is None,
        clock_resume_offset: match (next_cpu_cycle, next_clock_tick) {
            (_, None) => None,
            (None, Some(_)) => Some(0u64),
            (Some(c), Some(t)) => Some(saturating_since(t.nanos, c.nanos)),
        },
    }
}

/// The state after a pause request: a running state is paused, remembering
/// whether the CPU was waiting for a key and how far ahead of the next CPU
/// cycle the next clock tick was; a paused state stays as it is.
pub open spec fn pause_spec(s: TimerState) -> TimerState {
    match s {
        TimerState::Running { next_cpu_cycle, next_clock_tick } => paused_from(next_cpu_cycle, next_clock_tick),
        TimerState::Paused { .. } => s,
    }
}

/// The state after a resume request at `now` with keys `keys` held: a paused
/// state runs again from `now` (the CPU only when it was not waiting for a
/// key, the clock at the remembered offset); a running CPU waiting for a key
/// runs again from `now` once a key is held.
pub open spec fn resume_spec(s: TimerState, now: Moment, keys: u16) -> TimerState {
    match s {
        TimerState::Running { next_cpu_cycle, next_clock_tick } => TimerState::Running {
            next_cpu_cycle: if next_cpu_cycle is None && keys != 0 { Some(now) } else { next_cpu_cycle },
            next_clock_tick,
        },
        TimerState::Paused { was_waiting_on_input, clock_resume_offset } => TimerState::Running {
            next_cpu_cycle: if !was_waiting_on_input { Some(now) } else { None },
            next_clock_tick: match clock_resume_offset {
                Some(o) => Some(Moment { nanos: (now.nanos + o) as u64 }),
                None => None,
            },
        },
    }
}

/// Whether resuming `s` at `now` stays within the range of `Moment`.
pub open spec fn resume_fits(s: TimerState, now: Moment) -> bool {
    s matches TimerState::Paused { clock_resume_offset: Some(o), .. } ==> now.nanos + o <= u64::MAX
}

impl TimerState {
    pub fn pause(&mut self)
        ensures
            *final(self) == pause_spec(*old(self)),
    {
        let (next_cpu_cycle, next_timer_tick) = match *self {
            TimerState::Running { next_cpu_cycle, next_clock_tick } => (next_cpu_cycle, next_clock_tick),
            TimerState::Paused { .. } => return ,
        };
        let offset = match (next_cpu_cycle, next_timer_tick) {
            (_, None) => None,
            (None, Some(_)) => Some(0u64),
            (Some(next_cycle), Some(next_tick)) => Some(next_tick.saturating_duration_since(next_cycle)),
        };
        *self = TimerState::Paused {
            was_waiting_on_input: next_cpu_cycle.is_none(),
            clock_resume_offset: offset,
        };
    }

    pub fn resume(&mut self, now: Moment, input: InputState)
        requires
            resume_fits(*old(self), now),
        ensures
            *final(self) == resume_spec(*old(self), now, input@),
    {
        match *self {
            TimerState::Running { next_cpu_cycle, next_clock_tick } => {
                if next_cpu_cycle.is_none() && input.any() {
                    *self = TimerState::Running { next_cpu_cycle: Some(now), next_clock_tick };
                }
            },
            TimerState::Paused { was_waiting_on_input, clock_resume_offset } => {
                *self = TimerState::Running {
                    next_cpu_cycle: if !was_waiting_on_input { Some(now) } else { None },
                    next_clock_tick: match clock_resume_offset {
                        Some(offset) => Some(now.plus(offset)),
                        None => None,
                    },
                };
            },
        }
    }
}

/// How often a timer runs and when it gives up catching up.
#[derive(Debug, Copy, Clone, PartialEq, Eq, Structural)]
pub struct Timings {
    /// Nanoseconds between two runs.
    pub delta_time: u64,
    /// A timer behind by more than this many nanoseconds skips ahead to now.
    pub resync_threshold: u64,
}

/// The nanoseconds between runs at `hz` runs per second.
pub open spec fn delta_for(hz: u32) -> u64 {
    (1_000_000_000int / (hz as int)) as u64
}

/// Twelve periods, kept between 2 ms and 500 ms.
pub open spec fn resync_for(delta: u64) -> u64 {
    let scaled = delta * 12;
    if scaled < 2_000_000 {
        2_000_000
    } else if scaled > 500_000_000 {
        500_000_000
    } else {
        scaled as u64
    }
}

impl Timings {
    /// The timings of a timer running `hz` times per second, or `default`
    /// times when `hz` is zero.
    pub fn new(hz: u32, default: u32) -> (r: Self)
        requires
            default > 0,
        ensures
            r.delta_time == delta_for(if hz != 0 { hz } else { default }),
            r.resync_threshold == resync_for(r.delta_time),
    {
        let hz = if hz != 0 { hz } else { default };
        let delta_time: u64 = 1_000_000_000u64 / (hz as u64);
        let floor: u64 = 2_000_000;
        let ceiling: u64 = 500_000_000;
        let scaled = delta_time * 12;
        let resync_threshold = if scaled < floor {
            floor
        } else if scaled > ceiling {
            ceiling
        } else {
            scaled
        };
        Self { delta_time, resync_threshold }
    }
}

/// CPU cycles per second when none are asked for.
pub const DEFAULT_CPU_HZ: u32 = 700;

/// Timer ticks per second when none are asked for.
pub const DEFAULT_CLOCK_HZ: u32 = 60;

/// What the host has to do after running the timers: show a fault, redraw,
/// start the clock, beep.
#[derive(Debug, Copy, Clone, PartialEq, Eq, Structural)]
pub struct RunReport {
    /// The fault that stopped the CPU, if one did.
    pub cpu_fault: Option<Fault>,
    /// An instruction changed the screen.
    pub should_render: bool,
    /// An instruction started the delay or the sound timer.
    pub should_init_timers: bool,
    /// The sound timer was running at a clock tick.
    pub should_beep_timer: bool,
    /// An instruction started the sound timer.
    pub should_beep_instruction: bool,
}

/// What the host does after the timers ran: show the fault and stop, or
/// beep and draw as asked.
#[derive(Debug, Copy, Clone, PartialEq, Eq, Structural)]
pub struct HostActions {
    pub fault: Option<Fault>,
    pub beep: bool,
    pub render: bool,
    pub start_clock: bool,
}

impl RunReport {
    /// The host's actions for this report, when its picture is out of date
    /// exactly if `needs_redraw`: a fault is shown and nothing else is done;
    /// otherwise it beeps when the sound timer ran or was started, draws when
    /// the screen changed or its picture is out of date, and starts the clock
    /// when a timer was set.
    pub fn host_actions(&self, needs_redraw: bool) -> (r: HostActions)
        ensures
            r.fault == self.cpu_fault,
            r.beep == (self.cpu_fault is None && (self.should_beep_timer || self.should_beep_instruction)),
            r.render == (self.cpu_fault is None && (self.should_render || needs_redraw)),
            r.start_clock == (self.cpu_fault is None && self.should_init_timers),
    {
        if self.cpu_fault.is_some() {
            return HostActions { fault: self.cpu_fault, beep: false, render: false, start_clock: false };
        }
        HostActions {
            fault: None,
            beep: self.should_beep_timer || self.should_beep_instruction,
            render: self.should_render || needs_redraw,
            start_clock: self.should_init_timers,
        }
    }
}

/// The report of a run in which nothing happened.
pub open spec fn quiet_report() -> RunReport {
    RunReport {
        cpu_fault: None,
        should_render: false,
        should_init_timers: false,
        should_beep_timer: false,
        should_beep_instruction: false,
    }
}

/// `next`, moved up to `now` when it lags behind by more than `threshold`.
pub open spec fn resynced(now: u64, next: u64, threshold: u64) -> u64 {
    if saturating_since(now, next) > threshold {
        now
    } else {
        next
    }
}

/// Clock ticks due by `now`, the next one due at `next`, one every `delta`
/// nanoseconds: each tick notes whether the sound timer was running, then
/// counts both timers down; once both are zero the clock stops (`None`).
/// Returns the machine, the next tick and whether the sound timer ran.
pub open spec fn clock_ticks(emu: MachineState, next: int, now: int, delta: int, beep: bool) -> (MachineState, Option<int>, bool)
    decreases (if now >= next { now - next + 1 } else { 0 }),
    when delta > 0
{
    if now < next {
        (emu, Some(next), beep)
    } else {
        let beep2 = beep || emu.sound_timer > 0;
        let ticked = tick_spec(emu);
        if ticked.sound_timer == 0 && ticked.delay_timer == 0 {
            (ticked, None, beep2)
        } else {
            clock_ticks(ticked, next + delta, now, delta, beep2)
        }
    }
}

/// The report after an instruction with effect `e` (not a wait) ran.
pub open spec fn note_effect(report: RunReport, e: CycleEffect) -> RunReport {
    match e {
        CycleEffect::DisplayChanged => RunReport { should_render: true, ..report },
        CycleEffect::BeepStarted => RunReport {
            should_init_timers: true,
            should_beep_instruction: true,
            ..report
        },
        CycleEffect::DelayStarted => RunReport { should_init_timers: true, ..report },
        _ => report,
    }
}

/// CPU cycles due by `now`, the next one due at `next`, one every `delta`
/// nanoseconds, with keys `keys` held: a fault stops the run (keeping the
/// cycle due), waiting for a key stops the CPU (`None`), any other effect is
/// noted in the report. Returns the machine, the next cycle and the report.
pub open spec fn cpu_cycles(emu: MachineState, next: int, now: int, delta: int, keys: u16, report: RunReport) -> (MachineState, Option<int>, RunReport)
    decreases (if now >= next { now - next + 1 } else { 0 }),
    when delta > 0
{
    if now < next {
        (emu, Some(next), report)
    } else {
        let (e2, res) = cycle_spec(emu, keys);
        match res {
            Err(f) => (e2, Some(next), RunReport { cpu_fault: Some(f), ..report }),
            Ok(CycleEffect::WaitForAnyKey) => (e2, None, report),
            Ok(e) => cpu_cycles(e2, next + delta, now, delta, keys, note_effect(report, e)),
        }
    }
}

/// The results of the CPU cycles that `cpu_cycles` runs, in order: one per
/// cycle due by `now`, up to and including one that faults or waits for a key.
pub open spec fn cpu_trace(emu: MachineState, next: int, now: int, delta: int, keys: u16) -> Seq<Result<CycleEffect, Fault>>
    decreases (if now >= next { now - next + 1 } else { 0 }),
    when delta > 0
{
    if now < next {
        Seq::empty()
    } else {
        let (e2, res) = cycle_spec(emu, keys);
        match res {
            Err(_) => seq![res],
            Ok(CycleEffect::WaitForAnyKey) => seq![res],
            Ok(_) => seq![res] + cpu_trace(e2, next + delta, now, delta, keys),
        }
    }
}

/// The results of the CPU cycles that running the timers at `now` runs (see
/// `run_until_spec`): none while paused or while the CPU waits for a key.
pub open spec fn run_until_trace(t: TimersView, emu: MachineState, now: u64, keys: u16) -> Seq<Result<CycleEffect, Fault>> {
    match t.state {
        TimerState::Paused { .. } => Seq::empty(),
        TimerState::Running { next_cpu_cycle, next_clock_tick } => {
            let emu1 = match next_clock_tick {
                None => emu,
                Some(n) => clock_ticks(
                    emu,
                    resynced(now, n.nanos, t.clock.resync_threshold) as int,
                    now as int,
                    t.clock.delta_time as int,
                    false,
                ).0,
            };
            match next_cpu_cycle {
                None => Seq::empty(),
                Some(n) => cpu_trace(
                    emu1,
                    resynced(now, n.nanos, t.cpu.resync_threshold) as int,
                    now as int,
                    t.cpu.delta_time as int,
                    keys,
                ),
            }
        },
    }
}

fn resync(now: Moment, next: Moment, timings: Timings) -> (r: Moment)
    ensures
        r.nanos == resynced(now.nanos, next.nanos, timings.resync_threshold),
{
    if now.saturating_duration_since(next) > timings.resync_threshold {
        now
    } else {
        next
    }
}

/// The two timers of the emulator: the CPU and the 60 Hz clock.
pub struct EmuTimers {
    state: TimerState,
    cpu: Timings,
    clock: Timings,
}

/// What the emulator's timers hold.
pub struct TimersView {
    pub state: TimerState,
    pub cpu: Timings,
    pub clock: Timings,
}

impl View for EmuTimers {
    type V = TimersView;

    closed spec fn view(&self) -> TimersView {
        TimersView { state: self.state, cpu: self.cpu, clock: self.clock }
    }
}

/// A time in nanoseconds as a `Moment`, if there is one.
pub open spec fn to_moment(t: Option<int>) -> Option<Moment> {
    match t {
        Some(v) => Some(Moment { nanos: v as u64 }),
        None => None,
    }
}

/// Running the timers at `now`: nothing while paused; otherwise the clock
/// ticks due, then the CPU cycles due, each timer first skipping ahead to
/// `now` when it lags by more than its threshold. Returns the new timer
/// state, the machine and the report.
pub open spec fn run_until_spec(t: TimersView, emu: MachineState, now: u64, keys: u16) -> (TimerState, MachineState, RunReport) {
    match t.state {
        TimerState::Paused { .. } => (t.state, emu, quiet_report()),
        TimerState::Running { next_cpu_cycle, next_clock_tick } => {
            let (emu1, clock_next, beep) = match next_clock_tick {
                None => (emu, None, false),
                Some(n) => {
                    let (e, nx, b) = clock_ticks(
                        emu,
                        resynced(now, n.nanos, t.clock.resync_threshold) as int,
                        now as int,
                        t.clock.delta_time as int,
                        false,
                    );
                    (e, nx, b)
                },
            };
            let report0 = RunReport { should_beep_timer: beep, ..quiet_report() };
            let (emu2, cpu_next, report) = match next_cpu_cycle {
                None => (emu1, None, report0),
                Some(n) => cpu_cycles(
                    emu1,
                    resynced(now, n.nanos, t.cpu.resync_threshold) as int,
                    now as int,
                    t.cpu.delta_time as int,
                    keys,
                    report0,
                ),
            };
            (
                TimerState::Running { next_cpu_cycle: to_moment(cpu_next), next_clock_tick: to_moment(clock_next) },
                emu2,
                report,
            )
        },
    }
}

/// The timer state with the clock started, when no clock tick was due: a
/// running clock's first tick comes one period after `now`, a paused one's
/// one period after resuming.
pub open spec fn ensure_clock_start_spec(s: TimerState, now: Moment, delta: u64) -> TimerState {
    match s {
        TimerState::Running { next_cpu_cycle, next_clock_tick: None } => TimerState::Running {
            next_cpu_cycle,
            next_clock_tick: Some(Moment { nanos: (now.nanos + delta) as u64 }),
        },
        TimerState::Paused { was_waiting_on_input, clock_resume_offset: None } => TimerState::Paused {
            was_waiting_on_input,
            clock_resume_offset: Some(delta),
        },
        _ => s,
    }
}

/// The next moment at which a timer is due, if the timers run.
pub open spec fn reschedule_deadline_spec(s: TimerState) -> Option<Moment> {
    match s {
        TimerState::Running { next_cpu_cycle, next_clock_tick } => earlier_deadline_spec(next_cpu_cycle, next_clock_tick),
        TimerState::Paused { .. } => None,
    }
}

impl EmuTimers {
    /// Timers running the CPU `cpu_hz` times and the clock `clock_hz` times
    /// per second (defaults for zero); they start paused, or running with the
    /// first CPU cycle due at `now` and the clock stopped.
    pub fn new(start_paused: bool, cpu_hz: u32, clock_hz: u32, now: Moment) -> (r: Self)
        ensures
            r@.state == (if start_paused {
                TimerState::Paused { was_waiting_on_input: false, clock_resume_offset: None }
            } else {
                TimerState::Running { next_cpu_cycle: Some(now), next_clock_tick: None }
            }),
            r@.cpu.delta_time == delta_for(if cpu_hz != 0 { cpu_hz } else { DEFAULT_CPU_HZ }),
            r@.cpu.resync_threshold == resync_for(r@.cpu.delta_time),
            r@.clock.delta_time == delta_for(if clock_hz != 0 { clock_hz } else { DEFAULT_CLOCK_HZ }),
            r@.clock.resync_threshold == resync_for(r@.clock.delta_time),
    {
        Self {
            state: if start_paused {
                TimerState::Paused { was_waiting_on_input: false, clock_resume_offset: None }
            } else {
                TimerState::Running { next_cpu_cycle: Some(now), next_clock_tick: None }
            },
            cpu: Timings::new(cpu_hz, DEFAULT_CPU_HZ),
            clock: Timings::new(clock_hz, DEFAULT_CLOCK_HZ),
        }
    }

    /// Runs the clock ticks due by `now` on `emu`; `timer` is when the next
    /// one is due (`None`: the clock is stopped).
    fn run_clock_until(now: Moment, timer: &mut Option<Moment>, timings: Timings, emu: &mut Emulator) -> (beep: bool)
        requires
            timings.delta_time > 0,
            now.nanos + timings.delta_time <= u64::MAX,
        ensures
            ({
                match *old(timer) {
                    None => *final(timer) == None::<Moment> && final(emu)@ == old(emu)@ && !beep,
                    Some(n) => {
                        let (e, nx, b) = clock_ticks(
                            old(emu)@,
                            resynced(now.nanos, n.nanos, timings.resync_threshold) as int,
                            now.nanos as int,
                            timings.delta_time as int,
                            false,
                        );
                        &&& final(emu)@ == e
                        &&& beep == b
                        &&& *final(timer) == to_moment(nx)
                    },
                }
            }),
    {
        let mut next = match *timer {
            Some(n) => n,
            None => return false,
        };
        next = resync(now, next, timings);
        let ghost start = next.nanos as int;
        let ghost emu0 = emu@;
        let mut beep = false;
        let mut halted = false;
        while now.nanos >= next.nanos
            invariant_except_break
                clock_ticks(emu0, start, now.nanos as int, timings.delta_time as int, false) == clock_ticks(
                    emu@,
                    next.nanos as int,
                    now.nanos as int,
                    timings.delta_time as int,
                    beep,
                ),
                !halted,
            invariant
                timings.delta_time > 0,
                now.nanos + timings.delta_time <= u64::MAX,
            ensures
                clock_ticks(emu0, start, now.nanos as int, timings.delta_time as int, false) == (
                emu@,
                if halted { None } else { Some(next.nanos as int) },
                beep,
                ),
            decreases (if now.nanos >= next.nanos { now.nanos - next.nanos + 1 } else { 0 }),
        {
            beep = beep || emu.sound_timer() > 0;
            emu.tick_timers();
            if emu.sound_timer() == 0 && emu.delay_timer() == 0 {
                halted = true;
                break;
            }
            next = next.plus(timings.delta_time);
        }
        *timer = if halted { None } else { Some(next) };
        beep
    }

    /// Runs the CPU cycles due by `now` on `emu` with `input` held; `timer` is
    /// when the next one is due (`None`: the CPU waits for a key). Effects are
    /// noted in `report`; a fault stops the run and is noted there too.
    fn run_cpu_until(
        now: Moment,
        timer: &mut Option<Moment>,
        timings: Timings,
        emu: &mut Emulator,
        input: &InputState,
        report: &mut RunReport,
    )
        requires
            timings.delta_time > 0,
            now.nanos + timings.delta_time <= u64::MAX,
        ensures
            ({
                match *old(timer) {
                    None => *final(timer) == None::<Moment> && final(emu)@ == old(emu)@ && *final(report)
                        == *old(report),
                    Some(n) => {
                        let (e, nx, rep) = cpu_cycles(
                            old(emu)@,
                            resynced(now.nanos, n.nanos, timings.resync_threshold) as int,
                            now.nanos as int,
                            timings.delta_time as int,
                            input@,
                            *old(report),
                        );
                        &&& final(emu)@ == e
                        &&& *final(report) == rep
                        &&& *final(timer) == to_moment(nx)
                    },
                }
            }),
    {
        let mut next = match *timer {
            Some(n) => n,
            None => return ,
        };
        next = resync(now, next, timings);
        let ghost start = next.nanos as int;
        let ghost emu0 = emu@;
        let ghost report0 = *report;
        let mut halted = false;
        while now.nanos >= next.nanos
            invariant_except_break
                cpu_cycles(emu0, start, now.nanos as int, timings.delta_time as int, input@, report0)
                    == cpu_cycles(
                    emu@,
                    next.nanos as int,
                    now.nanos as int,
                    timings.delta_time as int,
                    input@,
                    *report,
                ),
                !halted,
            invariant
                timings.delta_time > 0,
                now.nanos + timings.delta_time <= u64::MAX,
            ensures
                cpu_cycles(emu0, start, now.nanos as int, timings.delta_time as int, input@, report0) == (
                emu@,
                if halted { None } else { Some(next.nanos as int) },
                *report,
                ),
            decreases (if now.nanos >= next.nanos { now.nanos - next.nanos + 1 } else { 0 }),
        {
            match emu.run_cycle(input.copy()) {
                Ok(CycleEffect::DisplayChanged) => report.should_render = true,
                Ok(CycleEffect::BeepStarted) => {
                    report.should_init_timers = true;
                    report.should_beep_instruction = true;
                },
                Ok(CycleEffect::DelayStarted) => report.should_init_timers = true,
                Ok(CycleEffect::Executed) => {},
                Ok(CycleEffect::WaitForAnyKey) => {
                    halted = true;
                    break;
                },
                Err(fault) => {
                    report.cpu_fault = Some(fault);
                    break;
                },
            }
            next = next.plus(timings.delta_time);
        }
        *timer = if halted { None } else { Some(next) };
    }

    /// Runs the timers at `now`: nothing while paused; otherwise the clock
    /// ticks due, then the CPU cycles due with `input` held, on `emu`.
    pub fn run_until(&mut self, now: Moment, emu: &mut Emulator, input: &InputState) -> (r: RunReport)
        requires
            old(self)@.cpu.delta_time > 0,
            old(self)@.clock.delta_time > 0,
            now.nanos + old(self)@.cpu.delta_time <= u64::MAX,
            now.nanos + old(self)@.clock.delta_time <= u64::MAX,
        ensures
            final(self)@.state == run_until_spec(old(self)@, old(emu)@, now.nanos, input@).0,
            final(emu)@ == run_until_spec(old(self)@, old(emu)@, now.nanos, input@).1,
            r == run_until_spec(old(self)@, old(emu)@, now.nanos, input@).2,
            final(self)@.cpu == old(self)@.cpu,
            final(self)@.clock == old(self)@.clock,
    {
        let mut report = RunReport {
            cpu_fault: None,
            should_render: false,
            should_init_timers: false,
            should_beep_timer: false,
            should_beep_instruction: false,
        };
        let (mut next_cpu_cycle, mut next_clock_tick) = match self.state {
            TimerState::Running { next_cpu_cycle, next_clock_tick } => (next_cpu_cycle, next_clock_tick),
            TimerState::Paused { .. } => return report,
        };
        report.should_beep_timer = Self::run_clock_until(now, &mut next_clock_tick, self.clock, emu);
        Self::run_cpu_until(now, &mut next_cpu_cycle, self.cpu, emu, input, &mut report);
        self.state = TimerState::Running { next_cpu_cycle, next_clock_tick };
        report
    }

    /// Starts the clock if it is stopped: its first tick comes one period
    /// after `now` (or after resuming, while paused).
    pub fn ensure_clock_start(&mut self, now: Moment)
        requires
            now.nanos + old(self)@.clock.delta_time <= u64::MAX,
        ensures
            final(self)@.state == ensure_clock_start_spec(old(self)@.state, now, old(self)@.clock.delta_time),
            final(self)@.cpu == old(self)@.cpu,
            final(self)@.clock == old(self)@.clock,
    {
        match self.state {
            TimerState::Running { next_cpu_cycle, next_clock_tick: None } => {
                self.state = TimerState::Running {
                    next_cpu_cycle,
                    next_clock_tick: Some(now.plus(self.clock.delta_time)),
                };
            },
            TimerState::Paused { was_waiting_on_input, clock_resume_offset: None } => {
                self.state = TimerState::Paused {
                    was_waiting_on_input,
                    clock_resume_offset: Some(self.clock.delta_time),
                };
            },
            _ => {},
        }
    }

    pub fn pause(&mut self)
        ensures
            final(self)@.state == pause_spec(old(self)@.state),
            final(self)@.cpu == old(self)@.cpu,
            final(self)@.clock == old(self)@.clock,
    {
        self.state.pause()
    }

    pub fn resume(&mut self, now: Moment, input: InputState)
        requires
            resume_fits(old(self)@.state, now),
        ensures
            final(self)@.state == resume_spec(old(self)@.state, now, input@),
            final(self)@.cpu == old(self)@.cpu,
            final(self)@.clock == old(self)@.clock,
    {
        self.state.resume(now, input)
    }

    /// Whether the timers can run at `now`: both periods are at least a
    /// nanosecond, and a period after `now` is still a moment.
    pub fn can_run_at(&self, now: Moment) -> (r: bool)
        ensures
            r == (self@.cpu.delta_time > 0 && self@.clock.delta_time > 0 && now.nanos + self@.cpu.delta_time
                <= u64::MAX && now.nanos + self@.clock.delta_time <= u64::MAX),
    {
        self.cpu.delta_time > 0 && self.clock.delta_time > 0 && now.nanos.checked_add(self.cpu.delta_time).is_some()
            && now.nanos.checked_add(self.clock.delta_time).is_some()
    }

    /// Whether resuming at `now` keeps the next clock tick a moment.
    pub fn can_resume_at(&self, now: Moment) -> (r: bool)
        ensures
            r == resume_fits(self@.state, now),
    {
        match self.state {
            TimerState::Paused { clock_resume_offset: Some(o), .. } => now.nanos.checked_add(o).is_some(),
            _ => true,
        }
    }

    /// When the host has to wake up next, if the timers run.
    pub fn reschedule_deadline(&self) -> (r: Option<Moment>)
        ensures
            r == reschedule_deadline_spec(self@.state),
    {
        match self.state {
            TimerState::Running { next_cpu_cycle, next_clock_tick } => earlier_deadline(next_cpu_cycle, next_clock_tick),
            TimerState::Paused { .. } => None,
        }
    }
}


/// Pausing and then resuming at `now` keeps the schedule's shape: a CPU that
/// was waiting for a key still waits, a running CPU runs from `now`, and the
/// clock's next tick keeps its distance ahead of the next CPU cycle (or comes
/// at `now` when the CPU was waiting), or stays stopped.
pub proof fn lemma_pause_resume_keeps_schedule(next_cpu_cycle: Option<Moment>, next_clock_tick: Option<Moment>, now: Moment)
    requires
        resume_fits(pause_spec(TimerState::Running { next_cpu_cycle, next_clock_tick }), now),
    ensures
        ({
            let resumed = resume_spec(
                pause_spec(TimerState::Running { next_cpu_cycle, next_clock_tick }),
                now,
                0,
            );
            &&& resumed matches TimerState::Running { next_cpu_cycle: c, next_clock_tick: t }
            &&& c == (if next_cpu_cycle is Some { Some(now) } else { None })
            &&& (next_clock_tick is None ==> t is None)
            &&& (next_clock_tick matches Some(tick) ==> t matches Some(t2) && t2.nanos == now.nanos
                + match next_cpu_cycle {
                Some(cycle) => saturating_since(tick.nanos, cycle.nanos),
                None => 0,
            })
        }),
{
}

/// Pausing twice is pausing once.
pub proof fn lemma_pause_idempotent(s: TimerState)
    ensures
        pause_spec(pause_spec(s)) == pause_spec(s),
{
}

/// While paused, running the timers changes nothing and reports nothing.
pub proof fn lemma_paused_runs_nothing(t: TimersView, emu: MachineState, now: u64, keys: u16)
    requires
        t.state is Paused,
    ensures
        run_until_spec(t, emu, now, keys) == (t.state, emu, quiet_report()),
{
}

/// The clock stops only once both timers have reached zero, and otherwise
/// its next tick lies after `now`: every tick due has been run.
pub proof fn lemma_clock_catches_up(emu: MachineState, next: int, now: int, delta: int, beep: bool)
    requires
        delta > 0,
    ensures
        ({
            let (e, nx, b) = clock_ticks(emu, next, now, delta, beep);
            &&& (nx is None ==> e.sound_timer == 0 && e.delay_timer == 0)
            &&& (nx matches Some(v) ==> v > now)
            &&& (beep ==> b)
        }),
    decreases (if now >= next { now - next + 1 } else { 0 }),
{
    if now >= next {
        let ticked = tick_spec(emu);
        if !(ticked.sound_timer == 0 && ticked.delay_timer == 0) {
            lemma_clock_catches_up(ticked, next + delta, now, delta, beep || emu.sound_timer > 0);
        }
    }
}

/// After the CPU runs, either a fault stopped it, or it waits for a key, or
/// its next cycle lies after `now`: every cycle due has been run. A fault is
/// only reported when an instruction faulted, and effects already noted stay.
pub proof fn lemma_cpu_catches_up(emu: MachineState, next: int, now: int, delta: int, keys: u16, report: RunReport)
    requires
        delta > 0,
        report.cpu_fault is None,
    ensures
        ({
            let (e, nx, rep) = cpu_cycles(emu, next, now, delta, keys, report);
            &&& (rep.cpu_fault is None ==> (nx matches Some(v) ==> v > now))
            &&& (report.should_render ==> rep.should_render)
            &&& (report.should_init_timers ==> rep.should_init_timers)
            &&& (report.should_beep_instruction ==> rep.should_beep_instruction)
            &&& rep.should_beep_timer == report.should_beep_timer
        }),
    decreases (if now >= next { now - next + 1 } else { 0 }),
{
    if now >= next {
        let (e2, res) = cycle_spec(emu, keys);
        match res {
            Ok(CycleEffect::WaitForAnyKey) => {},
            Ok(eff) => {
                lemma_cpu_catches_up(e2, next + delta, now, delta, keys, note_effect(report, eff));
            },
            Err(_) => {},
        }
    }
}

/// The report of a CPU run notes what its cycles did: the timers are to be
/// started exactly when some cycle started the delay or the sound timer, a
/// beep is owed exactly when one started the sound timer, and a redraw
/// exactly when one changed the screen (or the report already said so).
pub proof fn lemma_cpu_report_notes_cycles(emu: MachineState, next: int, now: int, delta: int, keys: u16, report: RunReport)
    requires
        delta > 0,
    ensures
        ({
            let rep = cpu_cycles(emu, next, now, delta, keys, report).2;
            let tr = cpu_trace(emu, next, now, delta, keys);
            &&& rep.should_init_timers == (report.should_init_timers || exists|i: int|
                0 <= i < tr.len() && (#[trigger] tr[i] == Ok::<CycleEffect, Fault>(CycleEffect::DelayStarted)
                    || tr[i] == Ok::<CycleEffect, Fault>(CycleEffect::BeepStarted)))
            &&& rep.should_beep_instruction == (report.should_beep_instruction || exists|i: int|
                0 <= i < tr.len() && #[trigger] tr[i] == Ok::<CycleEffect, Fault>(CycleEffect::BeepStarted))
            &&& rep.should_render == (report.should_render || exists|i: int|
                0 <= i < tr.len() && #[trigger] tr[i] == Ok::<CycleEffect, Fault>(CycleEffect::DisplayChanged))
        }),
    decreases (if now >= next { now - next + 1 } else { 0 }),
{
    if now >= next {
        let (e2, res) = cycle_spec(emu, keys);
        let tr = cpu_trace(emu, next, now, delta, keys);
        match res {
            Ok(CycleEffect::WaitForAnyKey) => {
                assert(tr =~= seq![res]);
            },
            Err(_) => {
                assert(tr =~= seq![res]);
            },
            Ok(eff) => {
                let rest = cpu_trace(e2, next + delta, now, delta, keys);
                lemma_cpu_report_notes_cycles(e2, next + delta, now, delta, keys, note_effect(report, eff));
                assert(tr =~= seq![res] + rest);
                assert(tr[0] == res);
                assert forall|i: int| 0 <= i < rest.len() implies #[trigger] rest[i] == tr[i + 1] by {}
                assert forall|i: int| 1 <= i < tr.len() implies #[trigger] tr[i] == rest[i - 1] by {}
            },
        }
    }
}

/// The report of running the timers at `now` notes what the CPU cycles it ran
/// did: the host is asked to start the clock exactly when one of them started
/// the delay or the sound timer, to beep for an instruction exactly when one
/// started the sound timer, and to redraw exactly when one changed the screen.
pub proof fn lemma_run_until_reports_cycles(t: TimersView, emu: MachineState, now: u64, keys: u16)
    requires
        t.cpu.delta_time > 0,
        t.clock.delta_time > 0,
    ensures
        ({
            let rep = run_until_spec(t, emu, now, keys).2;
            let tr = run_until_trace(t, emu, now, keys);
            &&& rep.should_init_timers == exists|i: int|
                0 <= i < tr.len() && (#[trigger] tr[i] == Ok::<CycleEffect, Fault>(CycleEffect::DelayStarted)
                    || tr[i] == Ok::<CycleEffect, Fault>(CycleEffect::BeepStarted))
            &&& rep.should_beep_instruction == exists|i: int|
                0 <= i < tr.len() && #[trigger] tr[i] == Ok::<CycleEffect, Fault>(CycleEffect::BeepStarted)
            &&& rep.should_render == exists|i: int|
                0 <= i < tr.len() && #[trigger] tr[i] == Ok::<CycleEffect, Fault>(CycleEffect::DisplayChanged)
        }),
{
    match t.state {
        TimerState::Paused { .. } => {},
        TimerState::Running { next_cpu_cycle, next_clock_tick } => {
            let (emu1, clock_next, beep) = match next_clock_tick {
                None => (emu, None, false),
                Some(n) => {
                    let (e, nx, b) = clock_ticks(
                        emu,
                        resynced(now, n.nanos, t.clock.resync_threshold) as int,
                        now as int,
                        t.clock.delta_time as int,
                        false,
                    );
                    (e, nx, b)
                },
            };
            let report0 = RunReport { should_beep_timer: beep, ..quiet_report() };
            if let Some(n) = next_cpu_cycle {
                lemma_cpu_report_notes_cycles(
                    emu1,
                    resynced(now, n.nanos, t.cpu.resync_threshold) as int,
                    now as int,
                    t.cpu.delta_time as int,
                    keys,
                    report0,
                );
            }
        },
    }
}

/// How long the screen stays up after a fault unless the user quits: 20 s.
pub const FAULT_LINGER: u64 = 20_000_000_000;

/// Whether the wait that ends at `deadline` is over at `now`: at most 50 ms
/// of it remain.
pub fn linger_over(deadline: Moment, now: Moment) -> (r: bool)
    ensures
        r == (saturating_since(deadline.nanos, now.nanos) <= 50_000_000),
{
    deadline.saturating_duration_since(now) <= 50_000_000
}

} // verus!
