//! The CHIP-8 instruction set and the decoder from 16-bit opcodes.
use vstd::prelude::*;

use crate::bits::{get_nth_nibble, nibble};

verus! {

/// One decoded CHIP-8 instruction. Register operands are register numbers
/// (0..16), addresses are 12-bit, `kk` is an immediate byte and `n` a sprite
/// height.
#[derive(PartialEq, Eq, Structural, Clone, Copy, Debug)]
pub enum Instruction {
    /// `00E0`: clear the display.
    Cls,
    /// `00EE`: return from a subroutine.
    Ret,
    /// `1nnn`: jump to `addr`.
    Jp { addr: u16 },
    /// `2nnn`: call the subroutine at `addr`.
    Call { addr: u16 },
    /// `3xkk`: skip the next instruction if `Vx == kk`.
    SeByte { x: u8, kk: u8 },
    /// `4xkk`: skip the next instruction if `Vx != kk`.
    SneByte { x: u8, kk: u8 },
    /// `5xy_`: skip the next instruction if `Vx == Vy`.
    SeReg { x: u8, y: u8 },
    /// `6xkk`: `Vx := kk`.
    LdByte { x: u8, kk: u8 },
    /// `7xkk`: `Vx := Vx + kk` modulo 256, `VF` untouched.
    AddByte { x: u8, kk: u8 },
    /// `8xy0`: `Vx := Vy`.
    LdReg { x: u8, y: u8 },
    /// `8xy1`: `Vx := Vx | Vy`.
    Or { x: u8, y: u8 },
    /// `8xy2`: `Vx := Vx & Vy`.
    And { x: u8, y: u8 },
    /// `8xy3`: `Vx := Vx ^ Vy`.
    Xor { x: u8, y: u8 },
    /// `8xy4`: `Vx := Vx + Vy` modulo 256, `VF` := carry.
    AddReg { x: u8, y: u8 },
    /// `8xy5`: `Vx := Vx - Vy` modulo 256, `VF` := not borrow.
    Sub { x: u8, y: u8 },
    /// `8xy6`: `Vx := Vx >> 1`, `VF` := the bit shifted out.
    Shr { x: u8 },
    /// `8xy7`: `Vx := Vy - Vx` modulo 256, `VF` := not borrow.
    Subn { x: u8, y: u8 },
    /// `8xyE`: `Vx := Vx << 1` modulo 256, `VF` := the bit shifted out.
    Shl { x: u8 },
    /// `9xy_`: skip the next instruction if `Vx != Vy`.
    SneReg { x: u8, y: u8 },
    /// `Annn`: `I := addr`.
    LdIndex { addr: u16 },
    /// `Bnnn`: jump to `addr + V0`.
    JpV0 { addr: u16 },
    /// `Cxkk`: `Vx := random byte & kk`.
    Rnd { x: u8, kk: u8 },
    /// `Dxyn`: draw an `n`-row sprite from `I` at `(Vx, Vy)`.
    Drw { x: u8, y: u8, n: u8 },
    /// `Ex9E`: skip the next instruction if key `Vx` is pressed.
    Skp { x: u8 },
    /// `ExA1`: skip the next instruction if key `Vx` is not pressed.
    Sknp { x: u8 },
    /// `Fx07`: `Vx := delay timer`.
    LdRegDt { x: u8 },
    /// `Fx0A`: wait for a key press and store its number in `Vx`.
    LdRegKey { x: u8 },
    /// `Fx15`: `delay timer := Vx`.
    LdDtReg { x: u8 },
    /// `Fx18`: `sound timer := Vx`.
    LdStReg { x: u8 },
    /// `Fx1E`: `I := I + Vx`.
    AddIndex { x: u8 },
    /// `Fx29`: `I :=` address of the font glyph for digit `Vx`.
    LdSprite { x: u8 },
    /// `Fx33`: store the decimal digits of `Vx` at `I`, `I+1`, `I+2`.
    LdBcd { x: u8 },
    /// `Fx55`: store `V0..=Vx` in memory from `I` on.
    StoreRegs { x: u8 },
    /// `Fx65`: load `V0..=Vx` from memory from `I` on.
    LoadRegs { x: u8 },
}

/// The opcode's `nnn` field (its low 12 bits).
pub open spec fn addr_field(op: u16) -> u16 {
    (op % 4096) as u16
}

/// The opcode's `kk` field (its low byte).
pub open spec fn byte_field(op: u16) -> u8 {
    (op % 256) as u8
}

/// What an opcode means, or `None` for an opcode outside the instruction set.
pub open spec fn spec_decode(op: u16) -> Option<Instruction> {
    let x = nibble(op, 3) as u8;
    let y = nibble(op, 2) as u8;
    let n = nibble(op, 1) as u8;
    let kk = byte_field(op);
    let addr = addr_field(op);
    let family = nibble(op, 4);
    if family == 0x0 {
        if addr == 0x0E0 {
            Some(Instruction::Cls)
        } else if addr == 0x0EE {
            Some(Instruction::Ret)
        } else {
            None
        }
    } else if family == 0x1 {
        Some(Instruction::Jp { addr })
    } else if family == 0x2 {
        Some(Instruction::Call { addr })
    } else if family == 0x3 {
        Some(Instruction::SeByte { x, kk })
    } else if family == 0x4 {
        Some(Instruction::SneByte { x, kk })
    } else if family == 0x5 {
        Some(Instruction::SeReg { x, y })
    } else if family == 0x6 {
        Some(Instruction::LdByte { x, kk })
    } else if family == 0x7 {
        Some(Instruction::AddByte { x, kk })
    } else if family == 0x8 {
        if n == 0x0 {
            Some(Instruction::LdReg { x, y })
        } else if n == 0x1 {
            Some(Instruction::Or { x, y })
        } else if n == 0x2 {
            Some(Instruction::And { x, y })
        } else if n == 0x3 {
            Some(Instruction::Xor { x, y })
        } else if n == 0x4 {
            Some(Instruction::AddReg { x, y })
        } else if n == 0x5 {
            Some(Instruction::Sub { x, y })
        } else if n == 0x6 {
            Some(Instruction::Shr { x })
        } else if n == 0x7 {
            Some(Instruction::Subn { x, y })
        } else if n == 0xE {
            Some(Instruction::Shl { x })
        } else {
            None
        }
    } else if family == 0x9 {
        Some(Instruction::SneReg { x, y })
    } else if family == 0xA {
        Some(Instruction::LdIndex { addr })
    } else if family == 0xB {
        Some(Instruction::JpV0 { addr })
    } else if family == 0xC {
        Some(Instruction::Rnd { x, kk })
    } else if family == 0xD {
        Some(Instruction::Drw { x, y, n })
    } else if family == 0xE {
        if kk == 0x9E {
            Some(Instruction::Skp { x })
        } else if kk == 0xA1 {
            Some(Instruction::Sknp { x })
        } else {
            None
        }
    } else if kk == 0x07 {
        Some(Instruction::LdRegDt { x })
    } else if kk == 0x0A {
        Some(Instruction::LdRegKey { x })
    } else if kk == 0x15 {
        Some(Instruction::LdDtReg { x })
    } else if kk == 0x18 {
        Some(Instruction::LdStReg { x })
    } else if kk == 0x1E {
        Some(Instruction::AddIndex { x })
    } else if kk == 0x29 {
        Some(Instruction::LdSprite { x })
    } else if kk == 0x33 {
        Some(Instruction::LdBcd { x })
    } else if kk == 0x55 {
        Some(Instruction::StoreRegs { x })
    } else if kk == 0x65 {
        Some(Instruction::LoadRegs { x })
    } else {
        None
    }
}

impl Instruction {
    /// Register operands name one of the 16 registers, addresses fit in 12
    /// bits and sprite heights in 4.
    pub open spec fn wf(self) -> bool {
        match self {
            Instruction::Jp { addr } | Instruction::Call { addr } | Instruction::LdIndex { addr }
            | Instruction::JpV0 { addr } => addr < 4096,
            Instruction::SeByte { x, .. } | Instruction::SneByte { x, .. }
            | Instruction::LdByte { x, .. } | Instruction::AddByte { x, .. }
            | Instruction::Rnd { x, .. } | Instruction::Shr { x } | Instruction::Shl { x }
            | Instruction::Skp { x } | Instruction::Sknp { x } | Instruction::LdRegDt { x }
            | Instruction::LdRegKey { x } | Instruction::LdDtReg { x } | Instruction::LdStReg { x }
            | Instruction::AddIndex { x } | Instruction::LdSprite { x } | Instruction::LdBcd { x }
            | Instruction::StoreRegs { x } | Instruction::LoadRegs { x } => x < 16,
            Instruction::SeReg { x, y } | Instruction::LdReg { x, y } | Instruction::Or { x, y }
            | Instruction::And { x, y } | Instruction::Xor { x, y } | Instruction::AddReg { x, y }
            | Instruction::Sub { x, y } | Instruction::Subn { x, y }
            | Instruction::SneReg { x, y } => x < 16 && y < 16,
            Instruction::Drw { x, y, n } => x < 16 && y < 16 && n < 16,
            Instruction::Cls | Instruction::Ret => true,
        }
    }
}

/// Every decoded instruction has operands in range.
pub proof fn lemma_decode_wf(op: u16)
    ensures
        spec_decode(op) matches Some(ins) ==> ins.wf(),
{
}

/// Decodes one opcode: the high nibble selects the instruction family, and
/// families `0`, `8`, `E` and `F` are further told apart by their low bits.
/// Returns `None` for an opcode outside the instruction set.
pub fn decode(opcode: u16) -> (r: Option<Instruction>)
    ensures
        r == spec_decode(opcode),
{
    let family = get_nth_nibble(opcode, 4);
    let x = get_nth_nibble(opcode, 3);
    let y = get_nth_nibble(opcode, 2);
    let n = get_nth_nibble(opcode, 1);
    let addr: u16 = opcode & 0x0FFF;
    let kk: u8 = (opcode & 0x00FF) as u8;
    proof {
        assert(opcode & 0x0FFF == opcode % 4096) by (bit_vector);
        assert(opcode & 0x00FF == opcode % 256) by (bit_vector);
    }
    match family {
        0x0 => {
            if addr == 0x0E0 {
                Some(Instruction::Cls)
            } else if addr == 0x0EE {
                Some(Instruction::Ret)
            } else {
                None
            }
        },
        0x1 => Some(Instruction::Jp { addr }),
        0x2 => Some(Instruction::Call { addr }),
        0x3 => Some(Instruction::SeByte { x, kk }),
        0x4 => Some(Instruction::SneByte { x, kk }),
        0x5 => Some(Instruction::SeReg { x, y }),
        0x6 => Some(Instruction::LdByte { x, kk }),
        0x7 => Some(Instruction::AddByte { x, kk }),
        0x8 => match n {
            0x0 => Some(Instruction::LdReg { x, y }),
            0x1 => Some(Instruction::Or { x, y }),
            0x2 => Some(Instruction::And { x, y }),
            0x3 => Some(Instruction::Xor { x, y }),
            0x4 => Some(Instruction::AddReg { x, y }),
            0x5 => Some(Instruction::Sub { x, y }),
            0x6 => Some(Instruction::Shr { x }),
            0x7 => Some(Instruction::Subn { x, y }),
            0xE => Some(Instruction::Shl { x }),
            _ => None,
        },
        0x9 => Some(Instruction::SneReg { x, y }),
        0xA => Some(Instruction::LdIndex { addr }),
        0xB => Some(Instruction::JpV0 { addr }),
        0xC => Some(Instruction::Rnd { x, kk }),
        0xD => Some(Instruction::Drw { x, y, n }),
        0xE => match kk {
            0x9E => Some(Instruction::Skp { x }),
            0xA1 => Some(Instruction::Sknp { x }),
            _ => None,
        },
        _ => match kk {
            0x07 => Some(Instruction::LdRegDt { x }),
            0x0A => Some(Instruction::LdRegKey { x }),
            0x15 => Some(Instruction::LdDtReg { x }),
            0x18 => Some(Instruction::LdStReg { x }),
            0x1E => Some(Instruction::AddIndex { x }),
            0x29 => Some(Instruction::LdSprite { x }),
            0x33 => Some(Instruction::LdBcd { x }),
            0x55 => Some(Instruction::StoreRegs { x }),
            0x65 => Some(Instruction::LoadRegs { x }),
            _ => None,
        },
    }
}

} // verus!
