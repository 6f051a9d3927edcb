use vstd::prelude::*;
use crate::mem::Addr;
use crate::niche_opt::{Nibble, nibble_of};

verus! {

/// One of the sixteen general purpose registers `V0`..`VF`.
#[derive(Copy, Clone)]
pub(crate) struct Register(pub(crate) Nibble);

impl Register {
    pub(crate) open spec fn view(self) -> u8 {
        self.0@
    }

    /// Register `V0`.
    pub(crate) fn v0() -> (r: Self)
        ensures
            r@ == 0,
    {
        Register(Nibble(0))
    }

    /// The register named by nibble `NIBBLE` of `opcode`.
    pub(crate) fn from_opcode<const NIBBLE: u32>(opcode: u16) -> (r: Self)
        requires
            NIBBLE < 4,
        ensures
            r@ == nibble_of(opcode, NIBBLE),
    {
        Self(Nibble::select_nibble::<NIBBLE>(opcode))
    }
}

/// A decoded CHIP-8 instruction.
pub(crate) enum Instruction {
    /// 00E0 - CLS: clear the display.
    Cls,
    /// 00EE - RET: return from a subroutine.
    Ret,
    /// 1nnn - JP addr: jump to `nnn`.
    Jump(Addr),
    /// 2nnn - CALL addr: call the subroutine at `nnn`.
    Call(Addr),
    /// 3xkk - SE Vx, byte (`eq`) and 4xkk - SNE Vx, byte (`!eq`):
    /// skip the next instruction if `Vx == kk` (resp. `Vx != kk`).
    SkipEqImm { eq: bool, reg: Register, value: u8 },
    /// 5xy0 - SE Vx, Vy (`eq`) and 9xy0 - SNE Vx, Vy (`!eq`).
    SkipEqReg { eq: bool, reg1: Register, reg2: Register },
    /// 6xkk - LD Vx, byte.
    LoadImm { reg: Register, value: u8 },
    /// 7xkk - ADD Vx, byte (no carry flag).
    AddImm { reg: Register, value: u8 },
    /// 8xy0 - LD Vx, Vy.
    LoadReg { dst: Register, src: Register },
    /// 8xy1 - OR Vx, Vy.
    OrReg { x: Register, y: Register },
    /// 8xy2 - AND Vx, Vy.
    AndReg { x: Register, y: Register },
    /// 8xy3 - XOR Vx, Vy.
    XorReg { x: Register, y: Register },
    /// 8xy4 - ADD Vx, Vy: VF = carry.
    AddReg { x: Register, y: Register },
    /// 8xy5 - SUB Vx, Vy: VF = NOT borrow.
    SubReg { x: Register, y: Register },
    /// 8xy6 - SHR Vx: VF = the bit shifted out.
    Shr(Register),
    /// 8xy7 - SUBN Vx, Vy: Vx = Vy - Vx, VF = NOT borrow.
    SubNReg { x: Register, y: Register },
    /// 8xyE - SHL Vx: VF = the bit shifted out.
    Shl(Register),
    /// Annn - LD I, addr.
    LoadAddrImm(Addr),
    /// Bnnn - JP V0, addr.
    JumpIndirect(Addr),
    /// Cxkk - RND Vx, byte: Vx = random byte AND kk.
    GetRand { reg: Register, mask: u8 },
    /// Dxyn - DRW Vx, Vy, nibble: draw an n-row sprite from I, VF = collision.
    Draw { x: Register, y: Register, height: Nibble },
    /// Ex9E - SKP Vx (`pressed`) and ExA1 - SKNP Vx (`!pressed`).
    SkipIfInput { pressed: bool, key_reg: Register },
    /// Fx07 - LD Vx, DT.
    LoadDelayTimer(Register),
    /// Fx0A - LD Vx, K: wait for a key press.
    LoadWaitKey(Register),
    /// Fx15 - LD DT, Vx.
    SetDelayTimer(Register),
    /// Fx18 - LD ST, Vx.
    SetSoundTimer(Register),
    /// Fx1E - ADD I, Vx.
    AddToIndex(Register),
    /// Fx29 - LD F, Vx: I = address of the font sprite for digit Vx.
    LoadFontSpriteToIndex(Register),
    /// Fx33 - LD B, Vx: store the decimal digits of Vx at I, I+1, I+2.
    StoreBcd(Register),
    /// Fx55 - LD [I], Vx: store V0..=Vx from I onwards.
    StoreRegistersToMem(Register),
    /// Fx65 - LD Vx, [I]: load V0..=Vx from I onwards.
    LoadRegistersFromMem(Register),
}

/// The top nibble of an opcode, which selects its instruction group.
pub open spec fn opcode_group(op: u16) -> u8 {
    nibble_of(op, 0)
}

/// The `x` register field of an opcode.
pub open spec fn opcode_x(op: u16) -> u8 {
    nibble_of(op, 1)
}

/// The `y` register field of an opcode.
pub open spec fn opcode_y(op: u16) -> u8 {
    nibble_of(op, 2)
}

/// The low nibble of an opcode.
pub open spec fn opcode_n(op: u16) -> u8 {
    nibble_of(op, 3)
}

/// The low byte of an opcode.
pub open spec fn opcode_kk(op: u16) -> u8 {
    (op % 256) as u8
}

/// The low twelve bits of an opcode.
pub open spec fn opcode_nnn(op: u16) -> u16 {
    op % 4096
}

/// Whether `op` encodes an instruction the machine knows.
pub open spec fn opcode_is_valid(op: u16) -> bool {
    let g = opcode_group(op);
    let n = opcode_n(op);
    let kk = opcode_kk(op);
    if g == 0 {
        op == 0x00E0 || op == 0x00EE
    } else if g == 5 || g == 9 {
        n == 0
    } else if g == 8 {
        n <= 7 || n == 0xE
    } else if g == 0xE {
        kk == 0x9E || kk == 0xA1
    } else if g == 0xF {
        kk == 0x07 || kk == 0x0A || kk == 0x15 || kk == 0x18 || kk == 0x1E || kk == 0x29
            || kk == 0x33 || kk == 0x55 || kk == 0x65
    } else {
        true
    }
}

impl Instruction {
    /// Whether this instruction is the decoding of `op`: its variant matches
    /// the opcode's group and selector, and its fields hold the opcode's fields.
    pub(crate) open spec fn describes(self, op: u16) -> bool {
        let g = opcode_group(op);
        let x = opcode_x(op);
        let y = opcode_y(op);
        let n = opcode_n(op);
        let kk = opcode_kk(op);
        match self {
            Instruction::Cls => op == 0x00E0,
            Instruction::Ret => op == 0x00EE,
            Instruction::Jump(a) => g == 1 && a@ == opcode_nnn(op),
            Instruction::Call(a) => g == 2 && a@ == opcode_nnn(op),
            Instruction::SkipEqImm { eq, reg, value } => (g == 3 || g == 4) && eq == (g == 3)
                && reg@ == x && value == kk,
            Instruction::SkipEqReg { eq, reg1, reg2 } => (g == 5 || g == 9) && n == 0 && eq == (g
                == 5) && reg1@ == x && reg2@ == y,
            Instruction::LoadImm { reg, value } => g == 6 && reg@ == x && value == kk,
            Instruction::AddImm { reg, value } => g == 7 && reg@ == x && value == kk,
            Instruction::LoadReg { dst, src } => g == 8 && n == 0 && dst@ == x && src@ == y,
            Instruction::OrReg { x: rx, y: ry } => g == 8 && n == 1 && rx@ == x && ry@ == y,
            Instruction::AndReg { x: rx, y: ry } => g == 8 && n == 2 && rx@ == x && ry@ == y,
            Instruction::XorReg { x: rx, y: ry } => g == 8 && n == 3 && rx@ == x && ry@ == y,
            Instruction::AddReg { x: rx, y: ry } => g == 8 && n == 4 && rx@ == x && ry@ == y,
            Instruction::SubReg { x: rx, y: ry } => g == 8 && n == 5 && rx@ == x && ry@ == y,
            Instruction::Shr(rx) => g == 8 && n == 6 && rx@ == x,
            Instruction::SubNReg { x: rx, y: ry } => g == 8 && n == 7 && rx@ == x && ry@ == y,
            Instruction::Shl(rx) => g == 8 && n == 0xE && rx@ == x,
            Instruction::LoadAddrImm(a) => g == 0xA && a@ == opcode_nnn(op),
            Instruction::JumpIndirect(a) => g == 0xB && a@ == opcode_nnn(op),
            Instruction::GetRand { reg, mask } => g == 0xC && reg@ == x && mask == kk,
            Instruction::Draw { x: rx, y: ry, height } => g == 0xD && rx@ == x && ry@ == y
                && height@ == n,
            Instruction::SkipIfInput { pressed, key_reg } => g == 0xE && (kk == 0x9E || kk
                == 0xA1) && pressed == (kk == 0x9E) && key_reg@ == x,
            Instruction::LoadDelayTimer(r) => g == 0xF && kk == 0x07 && r@ == x,
            Instruction::LoadWaitKey(r) => g == 0xF && kk == 0x0A && r@ == x,
            Instruction::SetDelayTimer(r) => g == 0xF && kk == 0x15 && r@ == x,
            Instruction::SetSoundTimer(r) => g == 0xF && kk == 0x18 && r@ == x,
            Instruction::AddToIndex(r) => g == 0xF && kk == 0x1E && r@ == x,
            Instruction::LoadFontSpriteToIndex(r) => g == 0xF && kk == 0x29 && r@ == x,
            Instruction::StoreBcd(r) => g == 0xF && kk == 0x33 && r@ == x,
            Instruction::StoreRegistersToMem(r) => g == 0xF && kk == 0x55 && r@ == x,
            Instruction::LoadRegistersFromMem(r) => g == 0xF && kk == 0x65 && r@ == x,
        }
    }

    /// Decodes an opcode; a fault when it encodes no known instruction.
    pub(crate) fn decode_opcode(opcode: u16) -> (r: Result<Instruction, crate::Fault>)
        ensures
            opcode_is_valid(opcode) <==> r is Ok,
            r matches Ok(ins) ==> ins.describes(opcode),
            r is Err ==> r == Err::<Instruction, crate::Fault>(crate::Fault::InvalidInstruction),
    {
        let group = Nibble::select_nibble::<0>(opcode).get();
        let low = Nibble::select_nibble::<3>(opcode).get();
        let kk: u8 = (opcode % 256) as u8;
        if opcode == 0x00E0 {
            Ok(Instruction::Cls)
        } else if opcode == 0x00EE {
            Ok(Instruction::Ret)
        } else if group == 0 {
            Err(crate::Fault::InvalidInstruction)
        } else if group == 1 {
            Ok(Instruction::Jump(Addr::from_opcode(opcode)))
        } else if group == 2 {
            Ok(Instruction::Call(Addr::from_opcode(opcode)))
        } else if group == 3 || group == 4 {
            Ok(Instruction::SkipEqImm {
                eq: group == 3,
                reg: Register::from_opcode::<1>(opcode),
                value: kk,
            })
        } else if group == 5 || group == 9 {
            if low != 0 {
                return Err(crate::Fault::InvalidInstruction);
            }
            Ok(Instruction::SkipEqReg {
                eq: group == 5,
                reg1: Register::from_opcode::<1>(opcode),
                reg2: Register::from_opcode::<2>(opcode),
            })
        } else if group == 6 {
            Ok(Instruction::LoadImm { reg: Register::from_opcode::<1>(opcode), value: kk })
        } else if group == 7 {
            Ok(Instruction::AddImm { reg: Register::from_opcode::<1>(opcode), value: kk })
        } else if group == 8 {
            let x = Register::from_opcode::<1>(opcode);
            let y = Register::from_opcode::<2>(opcode);
            if low == 0 {
                Ok(Instruction::LoadReg { dst: x, src: y })
            } else if low == 1 {
                Ok(Instruction::OrReg { x, y })
            } else if low == 2 {
                Ok(Instruction::AndReg { x, y })
            } else if low == 3 {
                Ok(Instruction::XorReg { x, y })
            } else if low == 4 {
                Ok(Instruction::AddReg { x, y })
            } else if low == 5 {
                Ok(Instruction::SubReg { x, y })
            } else if low == 6 {
                Ok(Instruction::Shr(x))
            } else if low == 7 {
                Ok(Instruction::SubNReg { x, y })
            } else if low == 0xE {
                Ok(Instruction::Shl(x))
            } else {
                Err(crate::Fault::InvalidInstruction)
            }
        } else if group == 0xA {
            Ok(Instruction::LoadAddrImm(Addr::from_opcode(opcode)))
        } else if group == 0xB {
            Ok(Instruction::JumpIndirect(Addr::from_opcode(opcode)))
        } else if group == 0xC {
            Ok(Instruction::GetRand { reg: Register::from_opcode::<1>(opcode), mask: kk })
        } else if group == 0xD {
            Ok(Instruction::Draw {
                x: Register::from_opcode::<1>(opcode),
                y: Register::from_opcode::<2>(opcode),
                height: Nibble::select_nibble::<3>(opcode),
            })
        } else if group == 0xE {
            let key_reg = Register::from_opcode::<1>(opcode);
            if kk == 0x9E {
                Ok(Instruction::SkipIfInput { pressed: true, key_reg })
            } else if kk == 0xA1 {
                Ok(Instruction::SkipIfInput { pressed: false, key_reg })
            } else {
                Err(crate::Fault::InvalidInstruction)
            }
        } else {
            let reg = Register::from_opcode::<1>(opcode);
            if kk == 0x07 {
                Ok(Instruction::LoadDelayTimer(reg))
            } else if kk == 0x0A {
                Ok(Instruction::LoadWaitKey(reg))
            } else if kk == 0x15 {
                Ok(Instruction::SetDelayTimer(reg))
            } else if kk == 0x18 {
                Ok(Instruction::SetSoundTimer(reg))
            } else if kk == 0x1E {
                Ok(Instruction::AddToIndex(reg))
            } else if kk == 0x29 {
                Ok(Instruction::LoadFontSpriteToIndex(reg))
            } else if kk == 0x33 {
                Ok(Instruction::StoreBcd(reg))
            } else if kk == 0x55 {
                Ok(Instruction::StoreRegistersToMem(reg))
            } else if kk == 0x65 {
                Ok(Instruction::LoadRegistersFromMem(reg))
            } else {
                Err(crate::Fault::InvalidInstruction)
            }
        }
    }
}

} // verus!
