use vstd::prelude::*;
use vstd::slice::slice_subrange;
use crate::{CycleEffect, Fault};
use crate::display::{Display, draw_spec, sprite_row, lemma_draw_collision_iff_overlap};
use crate::input::{InputState, key_held, key_value, key_of_value, first_held, lemma_first_held, lemma_key_value_round_trip};
use crate::instruction::{Instruction, Register, opcode_group, opcode_x, opcode_y, opcode_n, opcode_kk, opcode_nnn, opcode_is_valid};
use crate::mem::{Addr, Memory, StackPointer, word_at, stack_slot, with_stack_slot, store_bytes_spec, load_bytes_spec};
use crate::niche_opt::Nibble;
use crate::rng::{Seed, Seeder, SimpleRng, xoshiro_next, xoshiro_output};

verus! {

/// The whole state of the emulated machine.
#[verifier::ext_equal]
pub struct MachineState {
    /// `V0`..`VF`; sixteen entries.
    pub registers: Seq<u8>,
    /// The `I` register.
    pub index: u16,
    /// The address of the next instruction.
    pub pc: u16,
    /// The number of return addresses on the stack, `0..=15`.
    pub sp: u8,
    pub delay_timer: u8,
    pub sound_timer: u8,
    /// The 4096 bytes of memory.
    pub memory: Seq<u8>,
    /// The 32 rows of the screen, as `Display` lays them out.
    pub display: Seq<u64>,
    /// The random number generator's four words of state.
    pub rng: Seq<u32>,
}

/// The number of ROM bytes that fit in memory, from `0x200` to the end.
pub const ROM_CAPACITY: usize = 3584;

/// The built-in font: sixteen 4×5 sprites for the hexadecimal digits `0`..`F`,
/// five bytes each, stored at `0x50`.
pub open spec fn fontset() -> Seq<u8> {
    seq![
        0xF0u8, 0x90, 0x90, 0x90, 0xF0,
        0x20, 0x60, 0x20, 0x20, 0x70,
        0xF0, 0x10, 0xF0, 0x80, 0xF0,
        0xF0, 0x10, 0xF0, 0x10, 0xF0,
        0x90, 0x90, 0xF0, 0x10, 0x10,
        0xF0, 0x80, 0xF0, 0x10, 0xF0,
        0xF0, 0x80, 0xF0, 0x90, 0xF0,
        0xF0, 0x10, 0x20, 0x40, 0x40,
        0xF0, 0x90, 0xF0, 0x90, 0xF0,
        0xF0, 0x90, 0xF0, 0x10, 0xF0,
        0xF0, 0x90, 0xF0, 0x90, 0x90,
        0xE0, 0x90, 0xE0, 0x90, 0xE0,
        0xF0, 0x80, 0x80, 0x80, 0xF0,
        0xE0, 0x90, 0x90, 0x90, 0xE0,
        0xF0, 0x80, 0xF0, 0x80, 0xF0,
        0xF0, 0x80, 0xF0, 0x80, 0x80,
    ]
}

fn fontset_bytes() -> (r: [u8; 80])
    ensures
        r@ == fontset(),
{
    let r: [u8; 80] = [
        0xF0, 0x90, 0x90, 0x90, 0xF0, // 0
        0x20, 0x60, 0x20, 0x20, 0x70, // 1
        0xF0, 0x10, 0xF0, 0x80, 0xF0, // 2
        0xF0, 0x10, 0xF0, 0x10, 0xF0, // 3
        0x90, 0x90, 0xF0, 0x10, 0x10, // 4
        0xF0, 0x80, 0xF0, 0x10, 0xF0, // 5
        0xF0, 0x80, 0xF0, 0x90, 0xF0, // 6
        0xF0, 0x10, 0x20, 0x40, 0x40, // 7
        0xF0, 0x90, 0xF0, 0x90, 0xF0, // 8
        0xF0, 0x90, 0xF0, 0x10, 0xF0, // 9
        0xF0, 0x90, 0xF0, 0x90, 0x90, // A
        0xE0, 0x90, 0xE0, 0x90, 0xE0, // B
        0xF0, 0x80, 0x80, 0x80, 0xF0, // C
        0xE0, 0x90, 0x90, 0x90, 0xE0, // D
        0xF0, 0x80, 0xF0, 0x80, 0xF0, // E
        0xF0, 0x80, 0xF0, 0x80, 0x80, // F
    ];
    assert(r@ =~= fontset());
    r
}

/// The state of a machine with every byte zero.
pub open spec fn zeroed_state() -> MachineState {
    MachineState {
        registers: Seq::new(16, |i: int| 0u8),
        index: 0,
        pc: 0,
        sp: 0,
        delay_timer: 0,
        sound_timer: 0,
        memory: Seq::new(4096, |i: int| 0u8),
        display: Seq::new(32, |i: int| 0u64),
        rng: Seq::new(4, |i: int| 0u32),
    }
}

/// A fresh machine with `rom` loaded at `0x200`, the font at `0x50`, execution
/// about to start at `0x200` and the random number generator seeded with `seed`.
pub open spec fn loaded_state(rom: Seq<u8>, seed: Seq<u32>) -> MachineState {
    let z = zeroed_state();
    MachineState {
        memory: store_bytes_spec(store_bytes_spec(z.memory, 0x200, rom), 0x50, fontset()),
        pc: 0x200,
        rng: seed,
        ..z
    }
}

/// A zeroed machine into which a ROM too large for memory was read: the
/// first `ROM_CAPACITY` bytes of it fill memory from `0x200`, nothing else is set.
pub open spec fn overfull_state(rom: Seq<u8>) -> MachineState {
    let z = zeroed_state();
    MachineState { memory: store_bytes_spec(z.memory, 0x200, rom_fitting_part(rom)), ..z }
}

/// `s` with `rom` copied into memory from `0x200`, cut at the end of memory.
pub open spec fn rom_copied(s: MachineState, rom: Seq<u8>) -> MachineState {
    MachineState { memory: store_bytes_spec(s.memory, 0x200, rom_fitting_part(rom)), ..s }
}

/// The part of `rom` that fits in memory.
pub open spec fn rom_fitting_part(rom: Seq<u8>) -> Seq<u8> {
    if rom.len() <= ROM_CAPACITY {
        rom
    } else {
        rom.take(ROM_CAPACITY as int)
    }
}

/// `s` made ready to run the loaded program: the font written at `0x50`, the
/// program counter at `0x200`, the screen blank and the generator seeded with `seed`.
pub open spec fn reset_for_rom_spec(s: MachineState, seed: Seq<u32>) -> MachineState {
    MachineState {
        memory: store_bytes_spec(s.memory, 0x50, fontset()),
        pc: 0x200,
        display: Seq::new(32, |i: int| 0u64),
        rng: seed,
        ..s
    }
}

/// Why a ROM could not be loaded.
#[derive(Debug, Copy, Clone, PartialEq, Eq, Structural)]
pub enum RomLoadError {
    /// The ROM does not fit between `0x200` and the end of memory.
    TooLarge,
}

/// `s` with register `r` holding `v`.
pub open spec fn set_register(s: MachineState, r: int, v: u8) -> MachineState {
    MachineState { registers: s.registers.update(r, v), ..s }
}

/// `s` with the flag register `VF` holding `v`.
pub open spec fn set_flag(s: MachineState, v: u8) -> MachineState {
    set_register(s, 15, v)
}

/// The 16-bit address `a + d`, wrapping around.
pub open spec fn wrap16(v: int) -> u16 {
    (((v % 0x10000) + 0x10000) % 0x10000) as u16
}

/// `s` with the program counter moved past one instruction when `cond` holds.
pub open spec fn skip_if(s: MachineState, cond: bool) -> MachineState {
    if cond {
        MachineState { pc: wrap16(s.pc + 2), ..s }
    } else {
        s
    }
}

/// `s` after an instruction that completed normally.
pub open spec fn executed(s: MachineState) -> (MachineState, Result<CycleEffect, Fault>) {
    (s, Ok(CycleEffect::Executed))
}

/// `Ok(Executed)` when `ok`, else a memory fault.
pub open spec fn executed_if(ok: bool) -> Result<CycleEffect, Fault> {
    if ok {
        Ok(CycleEffect::Executed)
    } else {
        Err(Fault::Memory)
    }
}

/// The effect of the arithmetic and logic instructions `8xyn` on `s`.
pub open spec fn execute_alu(s: MachineState, op: u16) -> MachineState {
    let x = opcode_x(op) as int;
    let n = opcode_n(op);
    let vx = s.registers[x];
    let vy = s.registers[opcode_y(op) as int];
    if n == 0 {
        set_register(s, x, vy)
    } else if n == 1 {
        set_register(s, x, vx | vy)
    } else if n == 2 {
        set_register(s, x, vx & vy)
    } else if n == 3 {
        set_register(s, x, vx ^ vy)
    } else if n == 4 {
        set_flag(set_register(s, x, ((vx + vy) % 256) as u8), if vx + vy > 255 { 1 } else { 0 })
    } else if n == 5 {
        set_flag(set_register(s, x, ((vx - vy + 256) % 256) as u8), if vx >= vy { 1 } else { 0 })
    } else if n == 6 {
        set_flag(set_register(s, x, vx / 2), vx % 2)
    } else if n == 7 {
        set_flag(set_register(s, x, ((vy - vx + 256) % 256) as u8), if vy >= vx { 1 } else { 0 })
    } else {
        set_flag(set_register(s, x, ((vx * 2) % 256) as u8), vx / 128)
    }
}

/// The effect of the timer, key, index and memory instructions `Fxkk` on `s`.
pub open spec fn execute_misc(s: MachineState, op: u16, keys: u16) -> (MachineState, Result<CycleEffect, Fault>) {
    let x = opcode_x(op) as int;
    let kk = opcode_kk(op);
    let vx = s.registers[x];
    if kk == 0x07 {
        executed(set_register(s, x, s.delay_timer))
    } else if kk == 0x0A {
        if keys == 0 {
            (MachineState { pc: wrap16(s.pc - 2), ..s }, Ok(CycleEffect::WaitForAnyKey))
        } else {
            executed(set_register(s, x, key_value(first_held(keys) as u8)))
        }
    } else if kk == 0x15 {
        (
            MachineState { delay_timer: vx, ..s },
            Ok(if vx != 0 { CycleEffect::DelayStarted } else { CycleEffect::Executed }),
        )
    } else if kk == 0x18 {
        (
            MachineState { sound_timer: vx, ..s },
            Ok(if vx != 0 { CycleEffect::BeepStarted } else { CycleEffect::Executed }),
        )
    } else if kk == 0x1E {
        executed(MachineState { index: wrap16(s.index + vx), ..s })
    } else if kk == 0x29 {
        executed(MachineState { index: (0x50 + 5 * vx) as u16, ..s })
    } else if kk == 0x33 {
        let digits = seq![(vx / 100) as u8, ((vx / 10) % 10) as u8, (vx % 10) as u8];
        (
            MachineState { memory: store_bytes_spec(s.memory, s.index as int, digits), ..s },
            executed_if(s.index + 3 <= 4096),
        )
    } else if kk == 0x55 {
        (
            MachineState {
                memory: store_bytes_spec(s.memory, s.index as int, s.registers.take(x + 1)),
                ..s
            },
            executed_if(s.index + x + 1 <= 4096),
        )
    } else {
        (
            MachineState {
                registers: load_bytes_spec(s.memory, s.index as int, s.registers, x + 1),
                ..s
            },
            executed_if(s.index + x + 1 <= 4096),
        )
    }
}

/// The effect of instruction `op` on state `s` (whose program counter already
/// points past the instruction), with `keys` the key bitmap.
pub open spec fn execute_opcode(s: MachineState, op: u16, keys: u16) -> (MachineState, Result<CycleEffect, Fault>) {
    let g = opcode_group(op);
    let x = opcode_x(op) as int;
    let kk = opcode_kk(op);
    let nnn = opcode_nnn(op);
    let vx = s.registers[x];
    let vy = s.registers[opcode_y(op) as int];
    if !opcode_is_valid(op) {
        (s, Err(Fault::InvalidInstruction))
    } else if op == 0x00E0 {
        (MachineState { display: Seq::new(32, |i: int| 0u64), ..s }, Ok(CycleEffect::DisplayChanged))
    } else if op == 0x00EE {
        if s.sp == 0 {
            (s, Err(Fault::StackUnderflow))
        } else {
            executed(MachineState { sp: (s.sp - 1) as u8, pc: stack_slot(s.memory, s.sp - 1), ..s })
        }
    } else if g == 1 {
        executed(MachineState { pc: nnn, ..s })
    } else if g == 2 {
        let memory = with_stack_slot(s.memory, s.sp as int, s.pc);
        if s.sp + 1 >= 16 {
            (MachineState { memory, ..s }, Err(Fault::StackOverflow))
        } else {
            executed(MachineState { memory, sp: (s.sp + 1) as u8, pc: nnn, ..s })
        }
    } else if g == 3 {
        executed(skip_if(s, vx == kk))
    } else if g == 4 {
        executed(skip_if(s, vx != kk))
    } else if g == 5 {
        executed(skip_if(s, vx == vy))
    } else if g == 9 {
        executed(skip_if(s, vx != vy))
    } else if g == 6 {
        executed(set_register(s, x, kk))
    } else if g == 7 {
        executed(set_register(s, x, ((vx + kk) % 256) as u8))
    } else if g == 8 {
        executed(execute_alu(s, op))
    } else if g == 0xA {
        executed(MachineState { index: nnn, ..s })
    } else if g == 0xB {
        executed(MachineState { pc: wrap16(nnn + s.registers[0]), ..s })
    } else if g == 0xC {
        executed(
            set_register(
                MachineState { rng: xoshiro_next(s.rng), ..s },
                x,
                ((xoshiro_output(s.rng) % 256) as u8) & kk,
            ),
        )
    } else if g == 0xD {
        let drawn = draw_spec(s.display, s.memory, vx, vy, opcode_n(op), s.index);
        let s2 = MachineState { display: drawn.0, ..s };
        match drawn.1 {
            Ok(collided) => (set_flag(s2, if collided { 1 } else { 0 }), Ok(CycleEffect::DisplayChanged)),
            Err(f) => (s2, Err(f)),
        }
    } else if g == 0xE {
        if vx >= 16 {
            (s, Err(Fault::InvalidInputIndex))
        } else {
            executed(skip_if(s, key_held(keys, key_of_value(vx)) == (kk == 0x9E)))
        }
    } else {
        execute_misc(s, op, keys)
    }
}

/// One fetch-decode-execute cycle from state `s` with keys `keys` held: a
/// memory fault when the instruction does not lie inside memory, otherwise the
/// instruction at `pc` executed with `pc` moved past it.
pub open spec fn cycle_spec(s: MachineState, keys: u16) -> (MachineState, Result<CycleEffect, Fault>) {
    if s.pc + 1 >= 4096 {
        (s, Err(Fault::Memory))
    } else {
        execute_opcode(MachineState { pc: wrap16(s.pc + 2), ..s }, word_at(s.memory, s.pc as int), keys)
    }
}

/// `s` after one 60 Hz timer tick: both timers count down to zero.
pub open spec fn tick_spec(s: MachineState) -> MachineState {
    MachineState {
        delay_timer: if s.delay_timer > 0 { (s.delay_timer - 1) as u8 } else { 0 },
        sound_timer: if s.sound_timer > 0 { (s.sound_timer - 1) as u8 } else { 0 },
        ..s
    }
}

fn bit_or(a: u8, b: u8) -> (r: u8)
    ensures
        r == a | b,
{
    a | b
}

fn bit_and(a: u8, b: u8) -> (r: u8)
    ensures
        r == a & b,
{
    a & b
}

fn bit_xor(a: u8, b: u8) -> (r: u8)
    ensures
        r == a ^ b,
{
    a ^ b
}

/// `a + b` modulo 256, and whether it carried.
fn overflowing_add(a: u8, b: u8) -> (r: (u8, bool))
    ensures
        r == (((a + b) % 256) as u8, a + b > 255),
{
    (a.wrapping_add(b), a > 255 - b)
}

/// `a - b` modulo 256, and whether it did not borrow.
fn sub_not_borrow(a: u8, b: u8) -> (r: (u8, bool))
    ensures
        r == (((a - b + 256) % 256) as u8, a >= b),
{
    (a.wrapping_sub(b), a >= b)
}

/// `b - a` modulo 256, and whether it did not borrow.
fn reverse_sub_not_borrow(a: u8, b: u8) -> (r: (u8, bool))
    ensures
        r == (((b - a + 256) % 256) as u8, b >= a),
{
    (b.wrapping_sub(a), b >= a)
}

/// `v` shifted right by one, and the bit shifted out.
fn shift_right_out(v: u8) -> (r: (u8, u8))
    ensures
        r == (v / 2, v % 2),
{
    (v / 2, v % 2)
}

/// `v` shifted left by one (dropping the top bit), and the bit shifted out.
fn shift_left_out(v: u8) -> (r: (u8, u8))
    ensures
        r == (((v * 2) % 256) as u8, v / 128),
{
    ((v % 128) * 2, v / 128)
}

pub(crate) struct InnerEmu {
    pub(crate) gp_registers: [u8; 16],
    pub(crate) index: Addr,
    pub(crate) pc: Addr,
    pub(crate) sp: StackPointer,
    pub(crate) delay_timer: u8,
    pub(crate) sound_timer: u8,
    pub(crate) mem: Memory,
    pub(crate) display: Display,
    pub(crate) rng: SimpleRng,
}

impl InnerEmu {
    pub(crate) open spec fn view(&self) -> MachineState {
        MachineState {
            registers: self.gp_registers@,
            index: self.index@,
            pc: self.pc@,
            sp: self.sp@,
            delay_timer: self.delay_timer,
            sound_timer: self.sound_timer,
            memory: self.mem@,
            display: self.display@,
            rng: self.rng@,
        }
    }

    fn load_reg(&self, reg: Register) -> (r: u8)
        ensures
            r == self@.registers[reg@ as int],
            reg@ < 16,
    {
        let i = reg.0.get();
        self.gp_registers[i as usize]
    }

    fn store_reg(&mut self, reg: Register, value: u8)
        ensures
            final(self)@ == set_register(old(self)@, reg@ as int, value),
    {
        let i = reg.0.get();
        self.gp_registers[i as usize] = value;
        assert(self@.registers =~= old(self)@.registers.update(reg@ as int, value));
    }

    fn set_flag_reg(&mut self, flag: u8)
        ensures
            final(self)@ == set_flag(old(self)@, flag),
    {
        self.gp_registers[15] = flag;
        assert(self@.registers =~= old(self)@.registers.update(15, flag));
    }

    fn set_flag(&mut self, flag: bool)
        ensures
            final(self)@ == set_flag(old(self)@, if flag { 1 } else { 0 }),
    {
        self.set_flag_reg(if flag { 1 } else { 0 })
    }

    /// Replaces register `reg` with the first half of what `op` returns for
    /// its value, and returns the second half.
    fn rmw_reg_with_ret<T>(&mut self, reg: Register, op: impl FnOnce(u8) -> (u8, T)) -> (r: T)
        requires
            op.requires((old(self)@.registers[reg@ as int],)),
        ensures
            op.ensures(
                (old(self)@.registers[reg@ as int],),
                (final(self)@.registers[reg@ as int], r),
            ),
            final(self)@ == set_register(old(self)@, reg@ as int, final(self)@.registers[reg@ as int]),
    {
        let i = reg.0.get() as usize;
        let value = self.gp_registers[i];
        let (out, ret) = op(value);
        self.gp_registers[i] = out;
        assert(self@.registers =~= old(self)@.registers.update(reg@ as int, out));
        ret
    }

    /// Replaces register `reg` with what `op` returns for its value.
    fn rmw_reg(&mut self, reg: Register, op: impl FnOnce(u8) -> u8)
        requires
            op.requires((old(self)@.registers[reg@ as int],)),
        ensures
            op.ensures((old(self)@.registers[reg@ as int],), final(self)@.registers[reg@ as int]),
            final(self)@ == set_register(old(self)@, reg@ as int, final(self)@.registers[reg@ as int]),
    {
        let i = reg.0.get() as usize;
        let value = self.gp_registers[i];
        let out = op(value);
        self.gp_registers[i] = out;
        assert(self@.registers =~= old(self)@.registers.update(reg@ as int, out));
    }

    /// Replaces register `reg1` with what `op` returns for the values of
    /// `reg1` and `reg2`.
    fn binop_bitwise(&mut self, reg1: Register, reg2: Register, op: impl FnOnce(u8, u8) -> u8)
        requires
            op.requires((old(self)@.registers[reg1@ as int], old(self)@.registers[reg2@ as int])),
        ensures
            op.ensures(
                (old(self)@.registers[reg1@ as int], old(self)@.registers[reg2@ as int]),
                final(self)@.registers[reg1@ as int],
            ),
            final(self)@ == set_register(old(self)@, reg1@ as int, final(self)@.registers[reg1@ as int]),
    {
        let val2 = self.load_reg(reg2);
        let i = reg1.0.get() as usize;
        let val1 = self.gp_registers[i];
        let out = op(val1, val2);
        self.gp_registers[i] = out;
        assert(self@.registers =~= old(self)@.registers.update(reg1@ as int, out));
    }

    /// Replaces register `reg1` with the value `op` returns for the values of
    /// `reg1` and `reg2`, then sets the flag register to the flag it returns.
    fn binop_arith(&mut self, reg1: Register, reg2: Register, op: impl FnOnce(u8, u8) -> (u8, bool))
        requires
            op.requires((old(self)@.registers[reg1@ as int], old(self)@.registers[reg2@ as int])),
        ensures
            exists|out: u8, flag: bool|
                op.ensures(
                    (old(self)@.registers[reg1@ as int], old(self)@.registers[reg2@ as int]),
                    (out, flag),
                ) && final(self)@ == set_flag(
                    set_register(old(self)@, reg1@ as int, out),
                    if flag { 1 } else { 0 },
                ),
    {
        let val2 = self.load_reg(reg2);
        let i = reg1.0.get() as usize;
        let val1 = self.gp_registers[i];
        let (out, flag) = op(val1, val2);
        self.gp_registers[i] = out;
        assert(self@.registers =~= old(self)@.registers.update(reg1@ as int, out));
        self.set_flag(flag);
    }

    /// Moves the program counter past the next instruction when `cond` holds.
    fn skip_if(&mut self, cond: bool)
        ensures
            final(self)@ == skip_if(old(self)@, cond),
    {
        if cond {
            self.pc = self.pc.add(2);
        }
    }

    pub(crate) fn zeroed() -> (r: Self)
        ensures
            r@ == zeroed_state(),
    {
        let r = InnerEmu {
            gp_registers: [0u8; 16],
            index: Addr(0),
            pc: Addr(0),
            sp: StackPointer(Nibble(0)),
            delay_timer: 0,
            sound_timer: 0,
            mem: Memory::zeroed(),
            display: Display::new(),
            rng: SimpleRng::from_seed([0u32; 4]),
        };
        assert(r@.registers =~= zeroed_state().registers);
        assert(r@.rng =~= zeroed_state().rng);
        r
    }

    /// Copies `rom` into memory from `0x200`; a ROM that does not fit is cut
    /// at the end of memory and reported.
    fn copy_rom(&mut self, rom: &[u8]) -> (r: Result<(), RomLoadError>)
        ensures
            rom@.len() <= ROM_CAPACITY <==> r is Ok,
            final(self)@ == rom_copied(old(self)@, rom@),
    {
        let fits = rom.len() <= ROM_CAPACITY;
        let len = if fits { rom.len() } else { ROM_CAPACITY };
        let image = slice_subrange(rom, 0, len);
        assert(image@ =~= rom_fitting_part(rom@));
        let stored = self.mem.store_slice(Addr(Memory::ROM_START), image);
        assert(stored is Ok);
        if fits {
            Ok(())
        } else {
            Err(RomLoadError::TooLarge)
        }
    }

    /// Writes the font, points the program counter at the ROM, clears the
    /// screen and seeds the generator with `rng`.
    fn reset_for_rom(&mut self, rng: SimpleRng)
        ensures
            final(self)@ == reset_for_rom_spec(old(self)@, rng@),
    {
        let font = fontset_bytes();
        let stored = self.mem.store_slice(Addr(Memory::FONTSET_START_ADDRESS), font.as_slice());
        assert(stored is Ok);
        self.pc = Addr(Memory::ROM_START);
        self.rng = rng;
        self.display.clear();
    }

    /// Loads `rom` and seeds the generator from `seeder`. A ROM that does not
    /// fit is reported after filling memory up to its end, and nothing more is
    /// done (the seeder is not asked).
    pub(crate) fn load_new_rom<S: Seeder>(&mut self, rom: &[u8], seeder: S) -> (r: Result<(), RomLoadError>)
        ensures
            rom@.len() <= ROM_CAPACITY <==> r is Ok,
            r is Ok ==> final(self)@ == reset_for_rom_spec(rom_copied(old(self)@, rom@), final(self)@.rng),
            r is Ok ==> final(self)@.rng.len() == 4,
            r is Ok && S::obeys_seed_spec() ==> final(self)@.rng == seeder.seed_value(),
            r is Err ==> final(self)@ == rom_copied(old(self)@, rom@),
    {
        match self.copy_rom(rom) {
            Ok(()) => {},
            Err(e) => return Err(e),
        }
        let mut rng = SimpleRng::from_seed([0u32; 4]);
        rng.reseed(seeder);
        self.reset_for_rom(rng);
        Ok(())
    }

    /// Loads `rom` and seeds the generator with `seed`.
    pub(crate) fn load_new_rom_seeded(&mut self, rom: &[u8], seed: Seed)
        requires
            rom@.len() <= ROM_CAPACITY,
        ensures
            final(self)@ == reset_for_rom_spec(rom_copied(old(self)@, rom@), seed@),
    {
        let copied = self.copy_rom(rom);
        assert(copied is Ok);
        self.reset_for_rom(SimpleRng::from_seed(seed));
    }

    pub(crate) fn tick_timers(&mut self)
        ensures
            final(self)@ == tick_spec(old(self)@),
    {
        self.delay_timer = self.delay_timer.saturating_sub(1);
        self.sound_timer = self.sound_timer.saturating_sub(1);
    }

    /// Executes `ins`, the decoding of `op`, one of the instructions for
    /// control flow: clearing the screen, jumps, calls, returns and skips; `input` holds the keys.
    #[verifier::rlimit(60)]
    fn exec_flow(&mut self, ins: Instruction, Ghost(op): Ghost<u16>, input: InputState) -> (r: Result<CycleEffect, Fault>)
        requires
            ins.describes(op),
            opcode_is_valid(op),
            (ins matches Instruction::Cls || ins matches Instruction::Ret || ins matches Instruction::Jump(..) || ins matches Instruction::Call(..) || ins matches Instruction::SkipEqImm { .. } || ins matches Instruction::SkipEqReg { .. } || ins matches Instruction::JumpIndirect(..) || ins matches Instruction::SkipIfInput { .. }),
        ensures
            final(self)@ == execute_opcode(old(self)@, op, input@).0,
            r == execute_opcode(old(self)@, op, input@).1,
    {
        match ins {
            Instruction::Cls => {
                self.display.clear();
                Ok(CycleEffect::DisplayChanged)
            },
            Instruction::Ret => {
                match self.sp.dec() {
                    Some(sp) => {
                        self.sp = sp;
                        self.pc = self.sp.load_pc(&self.mem);
                        Ok(CycleEffect::Executed)
                    },
                    None => Err(Fault::StackUnderflow),
                }
            },
            Instruction::Jump(addr) => {
                self.pc = addr;
                Ok(CycleEffect::Executed)
            },
            Instruction::Call(new_pc) => {
                self.sp.store_pc(self.pc, &mut self.mem);
                match self.sp.inc() {
                    Some(sp) => {
                        self.sp = sp;
                        self.pc = new_pc;
                        Ok(CycleEffect::Executed)
                    },
                    None => Err(Fault::StackOverflow),
                }
            },
            Instruction::SkipEqImm { eq, reg, value } => {
                let actual_value = self.load_reg(reg);
                self.skip_if((actual_value != value) ^ eq);
                Ok(CycleEffect::Executed)
            },
            Instruction::SkipEqReg { eq, reg1, reg2 } => {
                let reg1_val = self.load_reg(reg1);
                let reg2_val = self.load_reg(reg2);
                self.skip_if((reg1_val != reg2_val) ^ eq);
                Ok(CycleEffect::Executed)
            },
            Instruction::JumpIndirect(addr) => {
                let offset = self.load_reg(Register::v0());
                self.pc = addr.add8(offset);
                Ok(CycleEffect::Executed)
            },
            Instruction::SkipIfInput { pressed, key_reg } => {
                let index = self.load_reg(key_reg);
                match crate::input::InputIndex::from_value(index) {
                    Ok(key) => {
                        let skip = input.check(key) ^ !pressed;
                        self.skip_if(skip);
                        Ok(CycleEffect::Executed)
                    },
                    Err(f) => Err(f),
                }
            },
            _ => {
                proof {
                    assert(false);
                }
                Err(Fault::InvalidInstruction)
            },
        }
    }

    /// Executes `ins`, the decoding of `op`, one of the instructions for
    /// register loads and arithmetic; `input` holds the keys.
    #[verifier::rlimit(60)]
    fn exec_alu(&mut self, ins: Instruction, Ghost(op): Ghost<u16>, input: InputState) -> (r: Result<CycleEffect, Fault>)
        requires
            ins.describes(op),
            opcode_is_valid(op),
            (ins matches Instruction::LoadImm { .. } || ins matches Instruction::AddImm { .. } || ins matches Instruction::LoadReg { .. } || ins matches Instruction::OrReg { .. } || ins matches Instruction::AndReg { .. } || ins matches Instruction::XorReg { .. } || ins matches Instruction::AddReg { .. } || ins matches Instruction::SubReg { .. } || ins matches Instruction::Shr(..) || ins matches Instruction::SubNReg { .. } || ins matches Instruction::Shl(..)),
        ensures
            final(self)@ == execute_opcode(old(self)@, op, input@).0,
            r == execute_opcode(old(self)@, op, input@).1,
    {
        match ins {
            Instruction::LoadImm { reg, value } => {
                self.store_reg(reg, value);
                Ok(CycleEffect::Executed)
            },
            Instruction::AddImm { reg, value: immediate } => {
                self.rmw_reg(reg, |value: u8| -> (r: u8) ensures r == (value + immediate) % 256, { value.wrapping_add(immediate) });
                Ok(CycleEffect::Executed)
            },
            Instruction::LoadReg { src, dst } => {
                let src_val = self.load_reg(src);
                self.store_reg(dst, src_val);
                Ok(CycleEffect::Executed)
            },
            Instruction::OrReg { x, y } => {
                self.binop_bitwise(x, y, bit_or);
                Ok(CycleEffect::Executed)
            },
            Instruction::AndReg { x, y } => {
                self.binop_bitwise(x, y, bit_and);
                Ok(CycleEffect::Executed)
            },
            Instruction::XorReg { x, y } => {
                self.binop_bitwise(x, y, bit_xor);
                Ok(CycleEffect::Executed)
            },
            Instruction::AddReg { x, y } => {
                self.binop_arith(x, y, overflowing_add);
                Ok(CycleEffect::Executed)
            },
            Instruction::SubReg { x, y } => {
                self.binop_arith(x, y, sub_not_borrow);
                Ok(CycleEffect::Executed)
            },
            Instruction::Shr(reg) => {
                let flag = self.rmw_reg_with_ret(reg, shift_right_out);
                self.set_flag_reg(flag);
                Ok(CycleEffect::Executed)
            },
            Instruction::SubNReg { x, y } => {
                self.binop_arith(x, y, reverse_sub_not_borrow);
                Ok(CycleEffect::Executed)
            },
            Instruction::Shl(reg) => {
                let flag = self.rmw_reg_with_ret(reg, shift_left_out);
                self.set_flag_reg(flag);
                Ok(CycleEffect::Executed)
            },
            _ => {
                proof {
                    assert(false);
                }
                Err(Fault::InvalidInstruction)
            },
        }
    }

    /// Executes `ins`, the decoding of `op`, one of the instructions for
    /// the index register, randomness, drawing, keys and timers; `input` holds the keys.
    #[verifier::rlimit(60)]
    fn exec_io(&mut self, ins: Instruction, Ghost(op): Ghost<u16>, input: InputState) -> (r: Result<CycleEffect, Fault>)
        requires
            ins.describes(op),
            opcode_is_valid(op),
            (ins matches Instruction::LoadAddrImm(..) || ins matches Instruction::GetRand { .. } || ins matches Instruction::Draw { .. } || ins matches Instruction::LoadDelayTimer(..) || ins matches Instruction::LoadWaitKey(..) || ins matches Instruction::SetDelayTimer(..) || ins matches Instruction::SetSoundTimer(..) || ins matches Instruction::AddToIndex(..) || ins matches Instruction::LoadFontSpriteToIndex(..)),
        ensures
            final(self)@ == execute_opcode(old(self)@, op, input@).0,
            r == execute_opcode(old(self)@, op, input@).1,
    {
        match ins {
            Instruction::LoadAddrImm(imm) => {
                self.index = imm;
                Ok(CycleEffect::Executed)
            },
            Instruction::GetRand { reg, mask } => {
                let random_val = self.rng.next_u8() & mask;
                self.store_reg(reg, random_val);
                Ok(CycleEffect::Executed)
            },
            Instruction::Draw { x, y, height } => {
                let x = self.load_reg(x);
                let y = self.load_reg(y);
                match self.display.draw(x, y, height, self.index, &self.mem) {
                    Ok(collided) => {
                        self.set_flag(collided);
                        Ok(CycleEffect::DisplayChanged)
                    },
                    Err(f) => Err(f),
                }
            },
            Instruction::LoadDelayTimer(reg) => {
                let t = self.delay_timer;
                self.store_reg(reg, t);
                Ok(CycleEffect::Executed)
            },
            Instruction::LoadWaitKey(reg) => {
                match input.find_first_keypress() {
                    Some(index) => {
                        self.store_reg(reg, index.value());
                        Ok(CycleEffect::Executed)
                    },
                    None => {
                        self.pc = self.pc.sub(2);
                        Ok(CycleEffect::WaitForAnyKey)
                    },
                }
            },
            Instruction::SetDelayTimer(delay) => {
                self.delay_timer = self.load_reg(delay);
                if self.delay_timer != 0 {
                    Ok(CycleEffect::DelayStarted)
                } else {
                    Ok(CycleEffect::Executed)
                }
            },
            Instruction::SetSoundTimer(delay) => {
                self.sound_timer = self.load_reg(delay);
                if self.sound_timer != 0 {
                    Ok(CycleEffect::BeepStarted)
                } else {
                    Ok(CycleEffect::Executed)
                }
            },
            Instruction::AddToIndex(x) => {
                let v = self.load_reg(x);
                self.index = self.index.add8(v);
                Ok(CycleEffect::Executed)
            },
            Instruction::LoadFontSpriteToIndex(digit_reg) => {
                let digit = (self.load_reg(digit_reg) as u16) * 5;
                self.index = Addr(Memory::FONTSET_START_ADDRESS).add(digit);
                Ok(CycleEffect::Executed)
            },
            _ => {
                proof {
                    assert(false);
                }
                Err(Fault::InvalidInstruction)
            },
        }
    }

    /// Executes `ins`, the decoding of `op`, one of the instructions for
    /// memory stores and loads; `input` holds the keys.
    #[verifier::rlimit(60)]
    fn exec_mem(&mut self, ins: Instruction, Ghost(op): Ghost<u16>, input: InputState) -> (r: Result<CycleEffect, Fault>)
        requires
            ins.describes(op),
            opcode_is_valid(op),
            (ins matches Instruction::StoreBcd(..) || ins matches Instruction::StoreRegistersToMem(..) || ins matches Instruction::LoadRegistersFromMem(..)),
        ensures
            final(self)@ == execute_opcode(old(self)@, op, input@).0,
            r == execute_opcode(old(self)@, op, input@).1,
    {
        match ins {
            Instruction::StoreBcd(number) => {
                let value = self.load_reg(number);
                let ones = value % 10;
                let tens = (value / 10) % 10;
                let hundreds = (value / 100) % 100;
                let digits: [u8; 3] = [hundreds, tens, ones];
                assert(digits@ =~= seq![(value / 100) as u8, ((value / 10) % 10) as u8, (value % 10) as u8]);
                match self.mem.store_bytes(self.index, digits) {
                    Ok(()) => Ok(CycleEffect::Executed),
                    Err(f) => Err(f),
                }
            },
            Instruction::StoreRegistersToMem(vx) => {
                let count = vx.0.get() as usize + 1;
                let regs = slice_subrange(self.gp_registers.as_slice(), 0, count);
                assert(regs@ =~= old(self)@.registers.take(count as int));
                match self.mem.store_slice(self.index, regs) {
                    Ok(()) => Ok(CycleEffect::Executed),
                    Err(f) => Err(f),
                }
            },
            Instruction::LoadRegistersFromMem(vx) => {
                let count = vx.0.get() as usize + 1;
                match self.mem.load_slice(self.index, &mut self.gp_registers, count) {
                    Ok(()) => Ok(CycleEffect::Executed),
                    Err(f) => Err(f),
                }
            },
            _ => {
                proof {
                    assert(false);
                }
                Err(Fault::InvalidInstruction)
            },
        }
    }

    /// Executes `ins`, the decoding of `op`, with `input` the held keys; the
    /// program counter already points past the instruction.
    fn execute(&mut self, ins: Instruction, Ghost(op): Ghost<u16>, input: InputState) -> (r: Result<CycleEffect, Fault>)
        requires
            ins.describes(op),
            opcode_is_valid(op),
        ensures
            final(self)@ == execute_opcode(old(self)@, op, input@).0,
            r == execute_opcode(old(self)@, op, input@).1,
    {
        match ins {
            Instruction::Cls | Instruction::Ret | Instruction::Jump(..) | Instruction::Call(..) | Instruction::SkipEqImm { .. } | Instruction::SkipEqReg { .. } | Instruction::JumpIndirect(..) | Instruction::SkipIfInput { .. } => self.exec_flow(ins, Ghost(op), input),
            Instruction::LoadImm { .. } | Instruction::AddImm { .. } | Instruction::LoadReg { .. } | Instruction::OrReg { .. } | Instruction::AndReg { .. } | Instruction::XorReg { .. } | Instruction::AddReg { .. } | Instruction::SubReg { .. } | Instruction::Shr(..) | Instruction::SubNReg { .. } | Instruction::Shl(..) => self.exec_alu(ins, Ghost(op), input),
            Instruction::LoadAddrImm(..) | Instruction::GetRand { .. } | Instruction::Draw { .. } | Instruction::LoadDelayTimer(..) | Instruction::LoadWaitKey(..) | Instruction::SetDelayTimer(..) | Instruction::SetSoundTimer(..) | Instruction::AddToIndex(..) | Instruction::LoadFontSpriteToIndex(..) => self.exec_io(ins, Ghost(op), input),
            Instruction::StoreBcd(..) | Instruction::StoreRegistersToMem(..) | Instruction::LoadRegistersFromMem(..) => self.exec_mem(ins, Ghost(op), input),
        }
    }

    /// Fetches, decodes and executes one instruction, with `input` the held keys.
    #[verifier::spinoff_prover]
    #[verifier::rlimit(80)]
    pub(crate) fn run_cycle(&mut self, input: InputState) -> (r: Result<CycleEffect, Fault>)
        ensures
            final(self)@ == cycle_spec(old(self)@, input@).0,
            r == cycle_spec(old(self)@, input@).1,
    {
        let opcode = match self.mem.load_word(self.pc) {
            Ok(w) => w,
            Err(f) => return Err(f),
        };
        self.pc = self.pc.add(2);
        proof {
            assert(cycle_spec(old(self)@, input@) == execute_opcode(self@, opcode, input@));
        }
        match Instruction::decode_opcode(opcode) {
            Ok(ins) => self.execute(ins, Ghost(opcode), input),
            Err(f) => {
                proof {
                    lemma_invalid_opcode_faults(self@, opcode, input@);
                }
                Err(f)
            },
        }
    }
}

/// An opcode the machine does not know faults and changes nothing.
proof fn lemma_invalid_opcode_faults(s: MachineState, op: u16, keys: u16)
    requires
        !opcode_is_valid(op),
    ensures
        execute_opcode(s, op, keys) == (s, Err::<CycleEffect, Fault>(Fault::InvalidInstruction)),
{
}

/// A CHIP-8 machine: registers, memory, screen, timers and random number
/// generator, run one instruction at a time by the host.
pub struct Emulator(pub(crate) InnerEmu);

impl View for Emulator {
    type V = MachineState;

    closed spec fn view(&self) -> MachineState {
        self.0@
    }
}

impl Emulator {
    /// A machine with every byte zero.
    fn zeroed() -> (r: Self)
        ensures
            r@ == zeroed_state(),
    {
        Self(InnerEmu::zeroed())
    }

    /// A boxed machine with every byte zero.
    fn zeroed_and_boxed() -> (r: Box<Self>)
        ensures
            r@ == zeroed_state(),
    {
        Box::new(Self::zeroed())
    }

    fn with_rom_pre_zeroed<S: Seeder>(&mut self, rom: &[u8], seeder: S)
        requires
            old(self)@ == zeroed_state(),
            rom@.len() <= ROM_CAPACITY,
        ensures
            final(self)@ == loaded_state(rom@, final(self)@.rng),
            final(self)@.rng.len() == 4,
            S::obeys_seed_spec() ==> final(self)@.rng == seeder.seed_value(),
    {
        let r = self.0.load_new_rom(rom, seeder);
        assert(r is Ok);
        assert(self@ =~= loaded_state(rom@, self@.rng));
    }

    fn read_rom_pre_zeroed<S: Seeder>(&mut self, rom: &[u8], seeder: S) -> (r: Result<(), RomLoadError>)
        requires
            old(self)@ == zeroed_state(),
        ensures
            rom@.len() <= ROM_CAPACITY <==> r is Ok,
            r is Ok ==> final(self)@ == loaded_state(rom@, final(self)@.rng) && final(self)@.rng.len() == 4,
            r is Ok && S::obeys_seed_spec() ==> final(self)@.rng == seeder.seed_value(),
            r is Err ==> final(self)@ == overfull_state(rom@),
    {
        let r = self.0.load_new_rom(rom, seeder);
        proof {
            if r is Ok {
                        assert(self@ =~= loaded_state(rom@, self@.rng));
            } else {
                assert(self@ =~= overfull_state(rom@));
            }
        }
        r
    }

    /// Resets the machine and loads `rom` at `0x200`, seeding the random
    /// number generator from `seeder`.
    pub fn with_rom<S: Seeder>(&mut self, rom: &[u8], seeder: S)
        requires
            rom@.len() <= ROM_CAPACITY,
        ensures
            final(self)@ == loaded_state(rom@, final(self)@.rng),
            final(self)@.rng.len() == 4,
            S::obeys_seed_spec() ==> final(self)@.rng == seeder.seed_value(),
    {
        *self = Self::zeroed();
        self.with_rom_pre_zeroed(rom, seeder)
    }

    /// Resets the machine and loads `rom`, as `with_rom` does; a ROM larger
    /// than memory leaves the reset machine with memory filled up to its end
    /// and is reported.
    pub fn read_rom<S: Seeder>(&mut self, rom: &[u8], seeder: S) -> (r: Result<(), RomLoadError>)
        ensures
            rom@.len() <= ROM_CAPACITY <==> r is Ok,
            r is Ok ==> final(self)@ == loaded_state(rom@, final(self)@.rng) && final(self)@.rng.len() == 4,
            r is Ok && S::obeys_seed_spec() ==> final(self)@.rng == seeder.seed_value(),
            r is Err ==> final(self)@ == overfull_state(rom@),
    {
        *self = Self::zeroed();
        self.read_rom_pre_zeroed(rom, seeder)
    }

    /// A boxed machine with `rom` loaded; a ROM larger than memory is reported.
    pub fn read_new_rom_boxed<S: Seeder>(rom: &[u8], seeder: S) -> (r: Result<Box<Self>, RomLoadError>)
        ensures
            rom@.len() <= ROM_CAPACITY <==> r is Ok,
            r matches Ok(e) ==> e@ == loaded_state(rom@, e@.rng) && e@.rng.len() == 4,
            S::obeys_seed_spec() ==> (r matches Ok(e) ==> e@.rng == seeder.seed_value()),
            r is Err ==> r == Err::<Box<Self>, RomLoadError>(RomLoadError::TooLarge),
    {
        let mut this = Self::zeroed_and_boxed();
        match this.read_rom_pre_zeroed(rom, seeder) {
            Ok(()) => Ok(this),
            Err(e) => Err(e),
        }
    }

    /// A machine with `rom` loaded; a ROM larger than memory is reported.
    pub fn read_new_rom<S: Seeder>(rom: &[u8], seeder: S) -> (r: Result<Self, RomLoadError>)
        ensures
            rom@.len() <= ROM_CAPACITY <==> r is Ok,
            r matches Ok(e) ==> e@ == loaded_state(rom@, e@.rng) && e@.rng.len() == 4,
            S::obeys_seed_spec() ==> (r matches Ok(e) ==> e@.rng == seeder.seed_value()),
            r is Err ==> r == Err::<Self, RomLoadError>(RomLoadError::TooLarge),
    {
        let mut this = Self::zeroed();
        match this.read_rom_pre_zeroed(rom, seeder) {
            Ok(()) => Ok(this),
            Err(e) => Err(e),
        }
    }

    /// A boxed machine with `rom` loaded, seeded from `seeder`.
    pub fn new_with_rom_boxed<S: Seeder>(rom: &[u8], seeder: S) -> (r: Box<Self>)
        requires
            rom@.len() <= ROM_CAPACITY,
        ensures
            r@ == loaded_state(rom@, r@.rng),
            r@.rng.len() == 4,
            S::obeys_seed_spec() ==> r@.rng == seeder.seed_value(),
    {
        let mut this = Self::zeroed_and_boxed();
        this.with_rom_pre_zeroed(rom, seeder);
        this
    }

    /// A machine with `rom` loaded, seeded from `seeder`.
    pub fn new_with_rom<S: Seeder>(rom: &[u8], seeder: S) -> (r: Self)
        requires
            rom@.len() <= ROM_CAPACITY,
        ensures
            r@ == loaded_state(rom@, r@.rng),
            r@.rng.len() == 4,
            S::obeys_seed_spec() ==> r@.rng == seeder.seed_value(),
    {
        let mut this = Self::zeroed();
        this.with_rom_pre_zeroed(rom, seeder);
        this
    }

    /// A machine with `rom` loaded and its generator seeded with `seed`.
    pub fn new_with_seed(rom: &[u8], seed: Seed) -> (r: Self)
        requires
            rom@.len() <= ROM_CAPACITY,
        ensures
            r@ == loaded_state(rom@, seed@),
    {
        let mut this = Self::zeroed();
        this.0.load_new_rom_seeded(rom, seed);
        assert(this@ =~= loaded_state(rom@, seed@));
        this
    }

    /// The screen.
    pub fn current_display(&self) -> (r: &Display)
        ensures
            r@ == self@.display,
    {
        &self.0.display
    }

    pub fn delay_timer(&self) -> (r: u8)
        ensures
            r == self@.delay_timer,
    {
        self.0.delay_timer
    }

    pub fn sound_timer(&self) -> (r: u8)
        ensures
            r == self@.sound_timer,
    {
        self.0.sound_timer
    }

    /// The address of the next instruction.
    pub fn pc(&self) -> (r: u16)
        ensures
            r == self@.pc,
    {
        self.0.pc.0
    }

    /// One 60 Hz tick: both timers count down towards zero.
    pub fn tick_timers(&mut self)
        ensures
            final(self)@ == tick_spec(old(self)@),
    {
        self.0.tick_timers()
    }

    /// Fetches, decodes and executes the instruction at the program counter,
    /// with `input` the keys held.
    pub fn run_cycle(&mut self, input: InputState) -> (r: Result<CycleEffect, Fault>)
        ensures
            final(self)@ == cycle_spec(old(self)@, input@).0,
            r == cycle_spec(old(self)@, input@).1,
    {
        self.0.run_cycle(input)
    }
}

/// A machine state as the machine keeps it: sixteen registers, 4096 bytes of
/// memory, 32 screen rows, four generator words and a stack pointer below 16.
pub open spec fn state_well_formed(s: MachineState) -> bool {
    &&& s.registers.len() == 16
    &&& s.memory.len() == 4096
    &&& s.display.len() == 32
    &&& s.rng.len() == 4
    &&& s.sp < 16
}

/// What a host does to a machine: run one cycle with the given keys held,
/// or tick the timers once.
#[derive(Debug, Copy, Clone, PartialEq, Eq, Structural)]
pub enum HostStep {
    Cycle(u16),
    Tick,
}

/// The machine after `steps` from `s`, with what each step returned (a
/// cycle's result, nothing for a tick).
pub open spec fn run_steps(s: MachineState, steps: Seq<HostStep>) -> (MachineState, Seq<Option<Result<CycleEffect, Fault>>>)
    decreases steps.len(),
{
    if steps.len() == 0 {
        (s, Seq::empty())
    } else {
        let (t, results) = run_steps(s, steps.drop_last());
        match steps.last() {
            HostStep::Cycle(keys) => (cycle_spec(t, keys).0, results.push(Some(cycle_spec(t, keys).1))),
            HostStep::Tick => (tick_spec(t), results.push(None)),
        }
    }
}

/// Deterministic when seeded: two machines loaded with the same ROM by
/// seeders that say they write the same seed start in the same state, and
/// after any same sequence of cycles and ticks they are in the same state
/// (so show the same screen and timers) and have returned the same results.
/// `m1` and `m2` are what any of the loaders (`new_with_rom`,
/// `new_with_rom_boxed`, `read_new_rom`, `read_new_rom_boxed`, `with_rom`,
/// `read_rom`) yields for a ROM that fits.
pub proof fn lemma_seeded_runs_agree<S1: Seeder, S2: Seeder>(
    rom: Seq<u8>,
    seeder1: S1,
    seeder2: S2,
    m1: MachineState,
    m2: MachineState,
    steps: Seq<HostStep>,
)
    requires
        S1::obeys_seed_spec(),
        S2::obeys_seed_spec(),
        seeder1.seed_value() == seeder2.seed_value(),
        m1 == loaded_state(rom, seeder1.seed_value()),
        m2 == loaded_state(rom, seeder2.seed_value()),
    ensures
        m1 == m2,
        forall|n: int| 0 <= n <= steps.len() ==> #[trigger] run_steps(m1, steps.take(n)) == run_steps(m2, steps.take(n)),
{
}

/// An instruction that runs without a fault and does not report
/// `DisplayChanged` leaves the screen as it was, so a host that draws only
/// on that report misses no change.
#[verifier::spinoff_prover]
#[verifier::rlimit(50)]
pub proof fn lemma_unreported_cycles_keep_the_screen(s: MachineState, keys: u16)
    requires
        state_well_formed(s),
    ensures
        cycle_spec(s, keys).1 matches Ok(e) && e != CycleEffect::DisplayChanged ==> cycle_spec(s, keys).0.display
            == s.display,
{
    if s.pc + 1 < 4096 {
        let op = word_at(s.memory, s.pc as int);
        let s1 = MachineState { pc: wrap16(s.pc + 2), ..s };
        assert(cycle_spec(s, keys) == execute_opcode(s1, op, keys));
        if opcode_is_valid(op) && op != 0x00E0 && op != 0x00EE {
            if opcode_group(op) == 8 {
                assert(execute_opcode(s1, op, keys) == executed(execute_alu(s1, op)));
                assert(execute_alu(s1, op).display == s.display);
            } else if opcode_group(op) == 0xF {
                assert(execute_opcode(s1, op, keys) == execute_misc(s1, op, keys));
            }
        }
    }
}

/// The register instructions `8xy0`..`8xyE` with `Vx` not the flag
/// register, written out on the old values `vx = Vx`, `vy = Vy`: `8xy0`
/// copies `vy`, `8xy1`/`8xy2`/`8xy3` store `vx | vy`, `vx & vy`, `vx ^ vy`
/// and leave `VF`, `8xy4` adds (`VF` = carry), `8xy5` computes `vx - vy` and `8xy7`
/// computes `vy - vx` (`VF` = no borrow, each modulo 256), `8xy6` halves
/// (`VF` = the bit shifted out) and `8xyE` doubles (`VF` = the top bit). The
/// other registers keep their values and the program counter moves on.
#[verifier::spinoff_prover]
#[verifier::rlimit(50)]
pub proof fn lemma_alu_arithmetic(s: MachineState, keys: u16)
    requires
        state_well_formed(s),
        s.pc + 1 < 4096,
        opcode_group(word_at(s.memory, s.pc as int)) == 8,
        opcode_x(word_at(s.memory, s.pc as int)) != 15,
    ensures
        ({
            let op = word_at(s.memory, s.pc as int);
            let x = opcode_x(op) as int;
            let n = opcode_n(op);
            let vx = s.registers[x] as int;
            let vy = s.registers[opcode_y(op) as int] as int;
            let (t, r) = cycle_spec(s, keys);
            &&& (n == 0 ==> t.registers[x] == s.registers[opcode_y(op) as int])
            &&& (n == 1 ==> t.registers[x] == s.registers[x] | s.registers[opcode_y(op) as int])
            &&& (n == 2 ==> t.registers[x] == s.registers[x] & s.registers[opcode_y(op) as int])
            &&& (n == 3 ==> t.registers[x] == s.registers[x] ^ s.registers[opcode_y(op) as int])
            &&& (n == 4 ==> t.registers[x] == (if vx + vy < 256 { vx + vy } else { vx + vy - 256 })
                && t.registers[15] == (if vx + vy >= 256 { 1int } else { 0int }))
            &&& (n == 5 ==> t.registers[x] == (if vx >= vy { vx - vy } else { vx - vy + 256 })
                && t.registers[15] == (if vx >= vy { 1int } else { 0int }))
            &&& (n == 6 ==> t.registers[x] == vx / 2 && t.registers[15] == vx % 2)
            &&& (n == 7 ==> t.registers[x] == (if vy >= vx { vy - vx } else { vy - vx + 256 })
                && t.registers[15] == (if vy >= vx { 1int } else { 0int }))
            &&& (n == 0xE ==> t.registers[x] == (if vx < 128 { 2 * vx } else { 2 * vx - 256 })
                && t.registers[15] == (if vx >= 128 { 1int } else { 0int }))
            &&& (n <= 7 || n == 0xE) ==> {
                &&& r == Ok::<CycleEffect, Fault>(CycleEffect::Executed)
                &&& t.pc == wrap16(s.pc + 2)
                &&& forall|i: int| 0 <= i < 15 && i != x ==> #[trigger] t.registers[i] == s.registers[i]
                &&& n <= 3 ==> t.registers[15] == s.registers[15]
            }
        }),
{
    let op = word_at(s.memory, s.pc as int);
    let n = opcode_n(op);
    if n <= 7 || n == 0xE {
        lemma_alu_cycle(s, keys);
        let s1 = MachineState { pc: wrap16(s.pc + 2), ..s };
        let x = opcode_x(op) as int;
        let vx = s.registers[x];
        let vy = s.registers[opcode_y(op) as int];
        let t = execute_alu(s1, op);
        if n == 4 {
            assert(((vx + vy) % 256) as u8 == (if vx + vy < 256 { vx + vy } else { vx + vy - 256 }));
        } else if n == 5 {
            assert(((vx - vy + 256) % 256) as u8 == (if vx >= vy { vx - vy } else { vx - vy + 256 }));
        } else if n == 7 {
            assert(((vy - vx + 256) % 256) as u8 == (if vy >= vx { vy - vx } else { vy - vx + 256 }));
        } else if n == 0xE {
            assert(((vx * 2) % 256) as u8 == (if vx < 128 { 2 * vx } else { 2 * vx - 256 }));
            assert(vx / 128 == (if vx >= 128 { 1int } else { 0int }));
        }
    }
}

/// One cycle of a valid `8xyn` instruction is the instruction's effect on
/// the machine with the program counter moved past it.
#[verifier::spinoff_prover]
#[verifier::rlimit(50)]
proof fn lemma_alu_cycle(s: MachineState, keys: u16)
    requires
        s.pc + 1 < 4096,
        opcode_group(word_at(s.memory, s.pc as int)) == 8,
        opcode_n(word_at(s.memory, s.pc as int)) <= 7 || opcode_n(word_at(s.memory, s.pc as int)) == 0xE,
    ensures
        cycle_spec(s, keys) == executed(execute_alu(MachineState { pc: wrap16(s.pc + 2), ..s }, word_at(s.memory, s.pc as int))),
{
    let op = word_at(s.memory, s.pc as int);
    let s1 = MachineState { pc: wrap16(s.pc + 2), ..s };
    assert(opcode_is_valid(op));
    assert(op != 0x00E0 && op != 0x00EE);
    assert(cycle_spec(s, keys) == execute_opcode(s1, op, keys));
}

/// A draw (`Dxyn`) whose sprite lies inside memory reports in `VF` whether
/// any of its rows (not only one) shares a lit pixel with the screen row it
/// lands on: `VF` is 1 exactly when some sprite row `i < n`, as drawn at
/// column `Vx`, overlaps screen row `(Vy + i) % 32`, and 0 otherwise.
#[verifier::spinoff_prover]
#[verifier::rlimit(50)]
pub proof fn lemma_draw_sets_collision_flag(s: MachineState, keys: u16)
    requires
        state_well_formed(s),
        s.pc + 1 < 4096,
        opcode_group(word_at(s.memory, s.pc as int)) == 0xD,
        s.index + opcode_n(word_at(s.memory, s.pc as int)) <= 4096,
    ensures
        ({
            let op = word_at(s.memory, s.pc as int);
            let vx = s.registers[opcode_x(op) as int];
            let vy = s.registers[opcode_y(op) as int];
            let (t, r) = cycle_spec(s, keys);
            &&& r == Ok::<CycleEffect, Fault>(CycleEffect::DisplayChanged)
            &&& t.registers[15] == (if exists|i: int|
                0 <= i < opcode_n(op) && #[trigger] (s.display[((vy % 32) as int + i) % 32] & sprite_row(
                    s.memory[s.index as int + i],
                    vx % 64,
                )) != 0 { 1u8 } else { 0u8 })
        }),
{
    let op = word_at(s.memory, s.pc as int);
    let s1 = MachineState { pc: wrap16(s.pc + 2), ..s };
    assert(opcode_is_valid(op));
    assert(cycle_spec(s, keys) == execute_opcode(s1, op, keys));
    let vx = s.registers[opcode_x(op) as int];
    let vy = s.registers[opcode_y(op) as int];
    lemma_draw_collision_iff_overlap(s.display, s.memory, vx, vy, opcode_n(op), s.index);
}

/// The immediate, skip and jump instructions, written out on the old state:
/// `6xkk` loads `kk` into `Vx` and `7xkk` adds it modulo 256 (the other
/// registers, `VF` among them, keep their values); `3xkk`, `4xkk`, `5xy0`
/// and `9xy0` skip the next instruction (program counter plus 4 instead of
/// plus 2) exactly when `Vx == kk`, `Vx != kk`, `Vx == Vy`, `Vx != Vy`;
/// `1nnn` jumps to `nnn`, `Bnnn` to `nnn + V0`, and `Annn` sets `I` to `nnn`.
#[verifier::spinoff_prover]
#[verifier::rlimit(50)]
pub proof fn lemma_immediate_skip_jump(s: MachineState, keys: u16)
    requires
        state_well_formed(s),
        s.pc + 1 < 4096,
    ensures
        ({
            let op = word_at(s.memory, s.pc as int);
            let g = opcode_group(op);
            let x = opcode_x(op) as int;
            let kk = opcode_kk(op) as int;
            let nnn = opcode_nnn(op) as int;
            let vx = s.registers[x] as int;
            let vy = s.registers[opcode_y(op) as int] as int;
            let (t, r) = cycle_spec(s, keys);
            let next = wrap16(s.pc + 2);
            let after_next = wrap16(s.pc + 4);
            &&& (g == 6 || g == 7) ==> {
                &&& r == Ok::<CycleEffect, Fault>(CycleEffect::Executed)
                &&& t.pc == next
                &&& t.registers[x] == (if g == 6 { kk } else if vx + kk < 256 { vx + kk } else { vx + kk - 256 })
                &&& forall|i: int| 0 <= i < 16 && i != x ==> #[trigger] t.registers[i] == s.registers[i]
            }
            &&& (g == 3 || g == 4 || ((g == 5 || g == 9) && opcode_n(op) == 0)) ==> {
                &&& r == Ok::<CycleEffect, Fault>(CycleEffect::Executed)
                &&& t.registers == s.registers
                &&& t.pc == (if (g == 3 && vx == kk) || (g == 4 && vx != kk) || (g == 5 && vx == vy) || (g == 9
                    && vx != vy) { after_next } else { next })
            }
            &&& g == 1 ==> r == Ok::<CycleEffect, Fault>(CycleEffect::Executed) && t.pc == nnn
            &&& g == 0xB ==> r == Ok::<CycleEffect, Fault>(CycleEffect::Executed) && t.pc == nnn + s.registers[0]
            &&& g == 0xA ==> r == Ok::<CycleEffect, Fault>(CycleEffect::Executed) && t.index == nnn && t.pc == next
        }),
{
    let op = word_at(s.memory, s.pc as int);
    let g = opcode_group(op);
    let s1 = MachineState { pc: wrap16(s.pc + 2), ..s };
    assert(cycle_spec(s, keys) == execute_opcode(s1, op, keys));
    if g == 1 || g == 3 || g == 4 || g == 6 || g == 7 || g == 0xA || g == 0xB || ((g == 5 || g == 9) && opcode_n(op)
        == 0) {
        assert(opcode_is_valid(op));
        assert(op != 0x00E0 && op != 0x00EE);
        assert(wrap16(wrap16(s.pc + 2) + 2) == wrap16(s.pc + 4));
        assert(opcode_nnn(op) + s.registers[0] < 0x10000);
        assert(opcode_kk(op) == ((op as int) % 256) as u8);
    }
}

/// The timer and index instructions, written out on the old state: `Fx07`
/// loads the delay timer into `Vx`; `Fx15` and `Fx18` set the delay and the
/// sound timer to `Vx` and report that a timer started exactly when `Vx` is
/// not zero; `Fx1E` adds `Vx` to `I` (modulo 2^16) and `Fx29` points `I` at
/// the font glyph of `Vx`, five bytes per glyph from `0x50`.
#[verifier::spinoff_prover]
#[verifier::rlimit(50)]
pub proof fn lemma_timer_and_index_instructions(s: MachineState, keys: u16)
    requires
        state_well_formed(s),
        s.pc + 1 < 4096,
        opcode_group(word_at(s.memory, s.pc as int)) == 0xF,
    ensures
        ({
            let op = word_at(s.memory, s.pc as int);
            let x = opcode_x(op) as int;
            let kk = opcode_kk(op);
            let vx = s.registers[x];
            let (t, r) = cycle_spec(s, keys);
            &&& kk == 0x07 ==> r == Ok::<CycleEffect, Fault>(CycleEffect::Executed) && t.registers[x] == s.delay_timer
            &&& kk == 0x15 ==> t.delay_timer == vx && t.sound_timer == s.sound_timer && r == Ok::<CycleEffect, Fault>(
                if vx != 0 { CycleEffect::DelayStarted } else { CycleEffect::Executed },
            )
            &&& kk == 0x18 ==> t.sound_timer == vx && t.delay_timer == s.delay_timer && r == Ok::<CycleEffect, Fault>(
                if vx != 0 { CycleEffect::BeepStarted } else { CycleEffect::Executed },
            )
            &&& kk == 0x1E ==> r == Ok::<CycleEffect, Fault>(CycleEffect::Executed) && t.index == (if s.index + vx
                < 0x10000 { s.index + vx } else { s.index + vx - 0x10000 })
            &&& kk == 0x29 ==> r == Ok::<CycleEffect, Fault>(CycleEffect::Executed) && t.index == 0x50 + 5 * vx
            &&& (kk == 0x07 || kk == 0x15 || kk == 0x18 || kk == 0x1E || kk == 0x29) ==> t.pc == wrap16(s.pc + 2)
        }),
{
    let op = word_at(s.memory, s.pc as int);
    let kk = opcode_kk(op);
    let s1 = MachineState { pc: wrap16(s.pc + 2), ..s };
    assert(cycle_spec(s, keys) == execute_opcode(s1, op, keys));
    if kk == 0x07 || kk == 0x15 || kk == 0x18 || kk == 0x1E || kk == 0x29 {
        assert(opcode_is_valid(op));
        assert(op != 0x00E0 && op != 0x00EE);
        assert(execute_opcode(s1, op, keys) == execute_misc(s1, op, keys));
    }
}

/// Waiting for a key (`Fx0A`) with no key held leaves the machine exactly as
/// it was, so the same instruction runs again on the next cycle.
#[verifier::spinoff_prover]
#[verifier::rlimit(50)]
pub proof fn lemma_wait_for_key_retries(s: MachineState)
    requires
        state_well_formed(s),
        s.pc + 1 < 4096,
        opcode_group(word_at(s.memory, s.pc as int)) == 0xF,
        opcode_kk(word_at(s.memory, s.pc as int)) == 0x0A,
    ensures
        cycle_spec(s, 0).0 == s,
        cycle_spec(s, 0).1 == Ok::<CycleEffect, Fault>(CycleEffect::WaitForAnyKey),
{
    let op = word_at(s.memory, s.pc as int);
    assert(opcode_is_valid(op));
    let s1 = MachineState { pc: wrap16(s.pc + 2), ..s };
    assert(cycle_spec(s, 0) == execute_opcode(s1, op, 0));
    assert(execute_opcode(s1, op, 0) == execute_misc(s1, op, 0));
    assert(wrap16(wrap16(s.pc + 2) - 2) == s.pc);
    assert(execute_misc(s1, op, 0).0 == s);
}

/// With a key held, `Fx0A` moves on and stores in `Vx` the value of a held
/// key (the lowest-numbered one), so that `Ex9E` on `Vx` with the same keys
/// finds it held.
#[verifier::spinoff_prover]
#[verifier::rlimit(50)]
pub proof fn lemma_wait_for_key_stores(s: MachineState, keys: u16)
    requires
        state_well_formed(s),
        s.pc + 1 < 4096,
        opcode_group(word_at(s.memory, s.pc as int)) == 0xF,
        opcode_kk(word_at(s.memory, s.pc as int)) == 0x0A,
        keys != 0,
    ensures
        ({
            let (t, r) = cycle_spec(s, keys);
            let v = t.registers[opcode_x(word_at(s.memory, s.pc as int)) as int];
            &&& r == Ok::<CycleEffect, Fault>(CycleEffect::Executed)
            &&& t.pc == wrap16(s.pc + 2)
            &&& v < 16
            &&& key_held(keys, key_of_value(v))
            &&& forall|j: u8| j < key_of_value(v) ==> !#[trigger] key_held(keys, j)
        }),
{
    let op = word_at(s.memory, s.pc as int);
    assert(opcode_is_valid(op));
    let s1 = MachineState { pc: wrap16(s.pc + 2), ..s };
    let x = opcode_x(op) as int;
    assert(cycle_spec(s, keys) == execute_opcode(s1, op, keys));
    assert(op != 0x00E0 && op != 0x00EE);
    assert(execute_opcode(s1, op, keys) == execute_misc(s1, op, keys));
    lemma_first_held(keys);
    assert(first_held(keys) < 16);
    let k = first_held(keys) as u8;
    assert(k as int == first_held(keys));
    lemma_key_value_round_trip(k, 0);
    assert(key_of_value(key_value(k)) == k);
    assert(key_held(keys, k));
    assert forall|j: u8| j < k implies !#[trigger] key_held(keys, j) by {
        assert(j < first_held(keys) && j < 16);
    }
    assert(execute_misc(s1, op, keys).0 == set_register(s1, x, key_value(k)));
    assert(set_register(s1, x, key_value(k)).registers[x] == key_value(k));
}

/// A return (`00EE`) goes back to the instruction after the call (`2nnn`) that
/// pushed the top of the stack, whatever ran in between, provided it left the
/// stack pointer and the saved return address as the call left them.
#[verifier::spinoff_prover]
#[verifier::rlimit(50)]
pub proof fn lemma_return_after_call(s: MachineState, t: MachineState, keys_call: u16, keys_ret: u16)
    requires
        state_well_formed(s),
        state_well_formed(t),
        s.pc + 1 < 4096,
        opcode_group(word_at(s.memory, s.pc as int)) == 2,
        s.sp + 1 < 16,
        t.sp == cycle_spec(s, keys_call).0.sp,
        t.memory[2 * s.sp] == cycle_spec(s, keys_call).0.memory[2 * s.sp],
        t.memory[2 * s.sp + 1] == cycle_spec(s, keys_call).0.memory[2 * s.sp + 1],
        t.pc + 1 < 4096,
        word_at(t.memory, t.pc as int) == 0x00EE,
    ensures
        cycle_spec(t, keys_ret).0.pc == wrap16(s.pc + 2),
        cycle_spec(t, keys_ret).0.sp == s.sp,
        cycle_spec(t, keys_ret).1 == Ok::<CycleEffect, Fault>(CycleEffect::Executed),
{
    let op = word_at(s.memory, s.pc as int);
    assert(opcode_is_valid(op));
    let after = cycle_spec(s, keys_call).0;
    let ret_addr = wrap16(s.pc + 2);
    assert(after.sp == s.sp + 1);
    assert(after.memory == with_stack_slot(s.memory, s.sp as int, ret_addr));
    assert(opcode_is_valid(0x00EE));
    assert(stack_slot(t.memory, s.sp as int) == ret_addr) by {
        assert(t.memory[2 * s.sp] == (ret_addr % 256) as u8);
        assert(t.memory[2 * s.sp + 1] == (ret_addr / 256) as u8);
    }
}

/// Storing registers `V0..=Vx` to memory (`Fx55`) and loading them back from
/// the same address (`Fx65`, the next instruction) gives back every register.
#[verifier::spinoff_prover]
#[verifier::rlimit(50)]
pub proof fn lemma_store_then_load_registers(s: MachineState, keys1: u16, keys2: u16)
    requires
        state_well_formed(s),
        s.pc + 1 < 4096,
        opcode_group(word_at(s.memory, s.pc as int)) == 0xF,
        opcode_kk(word_at(s.memory, s.pc as int)) == 0x55,
        s.index + opcode_x(word_at(s.memory, s.pc as int)) + 1 <= 4096,
        cycle_spec(s, keys1).0.pc + 1 < 4096,
        word_at(cycle_spec(s, keys1).0.memory, cycle_spec(s, keys1).0.pc as int) == word_at(
            s.memory,
            s.pc as int,
        ) + 0x10,
    ensures
        cycle_spec(cycle_spec(s, keys1).0, keys2).0.registers == s.registers,
        cycle_spec(cycle_spec(s, keys1).0, keys2).1 == Ok::<CycleEffect, Fault>(CycleEffect::Executed),
{
    let op = word_at(s.memory, s.pc as int);
    let op2 = (op + 0x10) as u16;
    assert(opcode_is_valid(op));
    let s1 = cycle_spec(s, keys1).0;
    let x = opcode_x(op) as int;
    assert(opcode_group(op2) == 0xF && opcode_kk(op2) == 0x65 && opcode_x(op2) == opcode_x(op));
    assert(opcode_is_valid(op2));
    let s2 = cycle_spec(s1, keys2).0;
    assert(s2.registers =~= s.registers);
}

/// The decimal digits `Fx33` stores are digits, and they spell `Vx`.
#[verifier::spinoff_prover]
#[verifier::rlimit(50)]
pub proof fn lemma_bcd_digits(s: MachineState, keys: u16)
    requires
        state_well_formed(s),
        s.pc + 1 < 4096,
        opcode_group(word_at(s.memory, s.pc as int)) == 0xF,
        opcode_kk(word_at(s.memory, s.pc as int)) == 0x33,
        s.index + 3 <= 4096,
    ensures
        ({
            let m = cycle_spec(s, keys).0.memory;
            let i = s.index as int;
            &&& m[i] < 10 && m[i + 1] < 10 && m[i + 2] < 10
            &&& 100 * m[i] + 10 * m[i + 1] + m[i + 2] == s.registers[opcode_x(
                word_at(s.memory, s.pc as int),
            ) as int]
        }),
        cycle_spec(s, keys).1 == Ok::<CycleEffect, Fault>(CycleEffect::Executed),
{
    let op = word_at(s.memory, s.pc as int);
    assert(opcode_is_valid(op));
    let s1 = MachineState { pc: wrap16(s.pc + 2), ..s };
    let x = opcode_x(op) as int;
    let vx = s.registers[x];
    let digits = seq![(vx / 100) as u8, ((vx / 10) % 10) as u8, (vx % 10) as u8];
    assert(cycle_spec(s, keys) == execute_opcode(s1, op, keys));
    assert(op != 0x00E0 && op != 0x00EE);
    assert(execute_opcode(s1, op, keys) == execute_misc(s1, op, keys));
    let m = store_bytes_spec(s.memory, s.index as int, digits);
    assert(execute_misc(s1, op, keys).0.memory == m);
    let i = s.index as int;
    assert(m[i] == vx / 100 && m[i + 1] == (vx / 10) % 10 && m[i + 2] == vx % 10);
    assert(vx / 100 < 10 && 100 * (vx / 100) + 10 * ((vx / 10) % 10) + vx % 10 == vx) by (bit_vector);
}

/// A freshly loaded machine holds the ROM from `0x200` and the font from
/// `0x50`, zeros everywhere else, and starts executing at `0x200` with a blank
/// screen, zeroed registers and timers and an empty stack.
#[verifier::spinoff_prover]
#[verifier::rlimit(50)]
pub proof fn lemma_loaded_layout(rom: Seq<u8>, seed: Seq<u32>)
    requires
        rom.len() <= ROM_CAPACITY,
    ensures
        ({
            let s = loaded_state(rom, seed);
            &&& forall|i: int| 0 <= i < rom.len() ==> s.memory[0x200 + i] == rom[i]
            &&& forall|i: int| 0 <= i < 80 ==> s.memory[0x50 + i] == fontset()[i]
            &&& forall|i: int|
                0 <= i < 4096 && !(0x50 <= i < 0xA0) && !(0x200 <= i < 0x200 + rom.len()) ==> s.memory[i]
                    == 0
            &&& s.pc == 0x200 && s.sp == 0 && s.index == 0
            &&& s.delay_timer == 0 && s.sound_timer == 0
            &&& s.registers == Seq::new(16, |i: int| 0u8)
            &&& s.display == Seq::new(32, |i: int| 0u64)
            &&& s.rng == seed
        }),
{
    assert(fontset().len() == 80);
}

} // verus!
