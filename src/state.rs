//! The mathematical model of the machine and the meaning of every instruction
//! as a function from machine state to machine state.
use vstd::prelude::*;

use crate::instruction::{spec_decode, Instruction};

verus! {

/// Address at which programs are loaded and execution starts.
pub const PROGRAM_START: u16 = 0x200;

/// Largest program image that fits between `PROGRAM_START` and the end of memory.
pub const MAX_PROGRAM_SIZE: usize = 0xE00;

/// The fatal conditions that stop the machine. A failing instruction leaves the
/// machine exactly as it was before it.
#[derive(PartialEq, Eq, Structural, Clone, Copy, Debug)]
pub enum CpuError {
    /// The word at `addr` is no instruction.
    InvalidOpcode { opcode: u16, addr: u16 },
    /// `CALL` with all stack slots in use.
    StackOverflow,
    /// `RET` with an empty stack.
    StackUnderflow,
    /// `SKP`/`SKNP` named a key number above 15.
    KeyOutOfRange { key: u8 },
    /// `LD F,Vx` named a digit above 15.
    DigitOutOfRange { digit: u8 },
    /// An instruction fetch or a memory access reached past the last address,
    /// or the index register would leave its 16 bits.
    AddressOutOfRange,
}

/// The whole observable state of a CHIP-8 machine.
pub struct CpuState {
    /// 4096 bytes of memory.
    pub memory: Seq<u8>,
    /// Registers `V0` to `VF`.
    pub reg: Seq<u8>,
    /// The index register `I`.
    pub index: u16,
    /// Address of the next instruction.
    pub pc: u16,
    /// 64 x 32 pixels, row-major, origin at the top left.
    pub gfx: Seq<bool>,
    pub delay_timer: u8,
    pub sound_timer: u8,
    /// Calls to `update_timers` since the timers last decayed.
    pub timer_cycles: u32,
    /// Return slots; the first `sp` of them are in use.
    pub stack: Seq<u16>,
    pub sp: u8,
    /// Which of the 16 keys are held down.
    pub keyboard: Seq<bool>,
    /// Whether the framebuffer changed since the renderer last took it.
    pub redraw: bool,
}

/// Bit `col` (0 is the leftmost, 7 the rightmost) of a sprite row.
pub open spec fn sprite_bit(row: u8, col: int) -> bool {
    (row >> ((7 - col) as u8)) & 1u8 == 1u8
}

/// Whether drawing the `n`-row sprite at `index` with its top-left corner at
/// `(vx, vy)` toggles pixel `p`. Coordinates wrap around both screen edges, so
/// pixel `p` lies under sprite row `(p / 64 - vy) mod 32` and sprite column
/// `(p mod 64 - vx) mod 64`.
pub open spec fn sprite_covers(mem: Seq<u8>, index: u16, n: u8, vx: u8, vy: u8, p: int) -> bool {
    let row = (p / 64 - vy) % 32;
    let col = (p % 64 - vx) % 64;
    row < n && col < 8 && sprite_bit(mem[index + row], col)
}

/// The framebuffer after XOR-ing the sprite into it.
pub open spec fn drawn(gfx: Seq<bool>, mem: Seq<u8>, index: u16, n: u8, vx: u8, vy: u8) -> Seq<
    bool,
> {
    Seq::new(2048, |p: int| gfx[p] != sprite_covers(mem, index, n, vx, vy, p))
}

/// Whether the sprite erases a lit pixel.
pub open spec fn collides(gfx: Seq<bool>, mem: Seq<u8>, index: u16, n: u8, vx: u8, vy: u8) -> bool {
    exists|p: int| 0 <= p < 2048 && #[trigger] sprite_covers(mem, index, n, vx, vy, p) && gfx[p]
}

/// The number of the lowest pressed key at or after `k`, or 16 if there is none.
pub open spec fn first_pressed(keyboard: Seq<bool>, k: int) -> int
    decreases 16 - k,
{
    if k >= 16 {
        16
    } else if keyboard[k] {
        k
    } else {
        first_pressed(keyboard, k + 1)
    }
}

/// Whether an executable call that returned `r` and left the machine in
/// `after` did what `result` says: on `Ok` it reached that state, on `Err` it
/// reported that error and changed nothing.
pub open spec fn outcome(
    result: Result<CpuState, CpuError>,
    before: CpuState,
    r: Result<(), CpuError>,
    after: CpuState,
) -> bool {
    match result {
        Ok(s) => r == Ok::<(), CpuError>(()) && after == s,
        Err(e) => r == Err::<(), CpuError>(e) && after == before,
    }
}

/// Address of the built-in glyph for hexadecimal digit `d`.
pub open spec fn glyph_address(d: int) -> int {
    5 * d
}

impl CpuState {
    /// Sizes of the arrays, stack depth, and the bounds that keep the counters
    /// and return addresses from overflowing.
    pub open spec fn wf(self) -> bool {
        &&& self.memory.len() == 4096
        &&& self.reg.len() == 16
        &&& self.gfx.len() == 2048
        &&& self.stack.len() == 16
        &&& self.keyboard.len() == 16
        &&& self.sp <= 16
        &&& forall|i: int| 0 <= i < self.sp ==> #[trigger] self.stack[i] < 4096
        &&& self.timer_cycles < u32::MAX
    }

    /// The instruction word at `pc`, big-endian, or `None` when `pc + 1` is past
    /// the end of memory.
    pub open spec fn fetch(self) -> Option<u16> {
        if self.pc + 1 < 4096 {
            Some((self.memory[self.pc as int] * 256 + self.memory[self.pc + 1]) as u16)
        } else {
            None
        }
    }

    /// The state with `pc` moved past the current instruction.
    pub open spec fn next(self) -> CpuState {
        CpuState { pc: (self.pc + 2) as u16, ..self }
    }

    /// The state with `pc` moved past the current instruction and the next one
    /// when `cond` holds, else past the current one.
    pub open spec fn skip_if(self, cond: bool) -> CpuState {
        if cond {
            CpuState { pc: (self.pc + 4) as u16, ..self }
        } else {
            self.next()
        }
    }

    /// Register `x` set to `v`, then `pc` advanced.
    pub open spec fn set_reg(self, x: int, v: int) -> CpuState {
        CpuState { reg: self.reg.update(x, v as u8), ..self }.next()
    }

    /// `VF` set to `flag`, then register `x` set to `v` (so `v` wins when
    /// `x` is `VF`), then `pc` advanced.
    pub open spec fn set_reg_flag(self, x: int, v: int, flag: int) -> CpuState {
        CpuState { reg: self.reg.update(15, flag as u8).update(x, v as u8), ..self }.next()
    }

    pub open spec fn cls(self) -> CpuState {
        CpuState { gfx: Seq::new(2048, |p: int| false), redraw: true, ..self }.next()
    }

    pub open spec fn ret(self) -> CpuState {
        CpuState { sp: (self.sp - 1) as u8, pc: (self.stack[self.sp - 1] + 2) as u16, ..self }
    }

    pub open spec fn call(self, addr: u16) -> CpuState {
        CpuState {
            stack: self.stack.update(self.sp as int, self.pc),
            sp: (self.sp + 1) as u8,
            pc: addr,
            ..self
        }
    }

    pub open spec fn add_reg_reg(self, x: int, y: int) -> CpuState {
        let (a, b) = (self.reg[x], self.reg[y]);
        self.set_reg_flag(x, (a + b) % 256, if a + b > 255 { 1 } else { 0 })
    }

    pub open spec fn sub_reg_reg(self, x: int, y: int) -> CpuState {
        let (a, b) = (self.reg[x], self.reg[y]);
        self.set_reg_flag(x, (a - b) % 256, if a >= b { 1 } else { 0 })
    }

    pub open spec fn subn_reg_reg(self, x: int, y: int) -> CpuState {
        let (a, b) = (self.reg[x], self.reg[y]);
        self.set_reg_flag(x, (b - a) % 256, if b >= a { 1 } else { 0 })
    }

    pub open spec fn shr_reg(self, x: int) -> CpuState {
        let a = self.reg[x];
        self.set_reg_flag(x, a as int / 2, a as int % 2)
    }

    pub open spec fn shl_reg(self, x: int) -> CpuState {
        let a = self.reg[x];
        self.set_reg_flag(x, (2 * a) % 256, a as int / 128)
    }

    pub open spec fn draw(self, vx: u8, vy: u8, n: u8) -> CpuState {
        let flag = if collides(self.gfx, self.memory, self.index, n, vx, vy) { 1u8 } else { 0u8 };
        CpuState {
            gfx: drawn(self.gfx, self.memory, self.index, n, vx, vy),
            reg: self.reg.update(15, flag),
            redraw: true,
            ..self
        }.next()
    }

    pub open spec fn ld_reg_key(self, x: int) -> CpuState {
        let k = first_pressed(self.keyboard, 0);
        if k < 16 {
            self.set_reg(x, k)
        } else {
            self
        }
    }

    pub open spec fn ld_bcd(self, v: u8) -> CpuState {
        let i = self.index as int;
        CpuState {
            memory: self.memory.update(i, v / 100).update(i + 1, (v / 10) % 10).update(
                i + 2,
                v % 10,
            ),
            ..self
        }.next()
    }

    pub open spec fn store_regs(self, x: int) -> CpuState {
        let i = self.index as int;
        CpuState {
            memory: Seq::new(
                4096,
                |a: int|
                    if i <= a <= i + x {
                        self.reg[a - i]
                    } else {
                        self.memory[a]
                    },
            ),
            ..self
        }.next()
    }

    pub open spec fn load_regs(self, x: int) -> CpuState {
        let i = self.index as int;
        CpuState {
            reg: Seq::new(
                16,
                |r: int|
                    if r <= x {
                        self.memory[i + r]
                    } else {
                        self.reg[r]
                    },
            ),
            ..self
        }.next()
    }

    /// The effect of one instruction; `rnd` is the random byte that `RND`
    /// uses. An `Err` names the fatal condition met, and the instruction then
    /// changes nothing.
    pub open spec fn execute(self, ins: Instruction, rnd: u8) -> Result<CpuState, CpuError> {
        match ins {
            Instruction::Cls => Ok(self.cls()),
            Instruction::Ret => if self.sp == 0 {
                Err(CpuError::StackUnderflow)
            } else {
                Ok(self.ret())
            },
            Instruction::Jp { addr } => Ok(CpuState { pc: addr, ..self }),
            Instruction::Call { addr } => if self.sp >= 16 {
                Err(CpuError::StackOverflow)
            } else {
                Ok(self.call(addr))
            },
            Instruction::SeByte { x, kk } => Ok(self.skip_if(self.reg[x as int] == kk)),
            Instruction::SneByte { x, kk } => Ok(self.skip_if(self.reg[x as int] != kk)),
            Instruction::SeReg { x, y } => Ok(self.skip_if(self.reg[x as int] == self.reg[y as int])),
            Instruction::LdByte { x, kk } => Ok(self.set_reg(x as int, kk as int)),
            Instruction::AddByte { x, kk } => Ok(self.set_reg(x as int, (self.reg[x as int] + kk) % 256)),
            Instruction::LdReg { x, y } => Ok(self.set_reg(x as int, self.reg[y as int] as int)),
            Instruction::Or { x, y } => Ok(self.set_reg(x as int, (self.reg[x as int] | self.reg[y as int]) as int)),
            Instruction::And { x, y } => Ok(self.set_reg(x as int, (self.reg[x as int] & self.reg[y as int]) as int)),
            Instruction::Xor { x, y } => Ok(self.set_reg(x as int, (self.reg[x as int] ^ self.reg[y as int]) as int)),
            Instruction::AddReg { x, y } => Ok(self.add_reg_reg(x as int, y as int)),
            Instruction::Sub { x, y } => Ok(self.sub_reg_reg(x as int, y as int)),
            Instruction::Shr { x } => Ok(self.shr_reg(x as int)),
            Instruction::Subn { x, y } => Ok(self.subn_reg_reg(x as int, y as int)),
            Instruction::Shl { x } => Ok(self.shl_reg(x as int)),
            Instruction::SneReg { x, y } => Ok(self.skip_if(self.reg[x as int] != self.reg[y as int])),
            Instruction::LdIndex { addr } => Ok(CpuState { index: addr, ..self }.next()),
            Instruction::JpV0 { addr } => Ok(CpuState { pc: (addr + self.reg[0]) as u16, ..self }),
            Instruction::Rnd { x, kk } => Ok(self.set_reg(x as int, (rnd & kk) as int)),
            Instruction::Drw { x, y, n } => if self.index + n > 4096 {
                Err(CpuError::AddressOutOfRange)
            } else {
                Ok(self.draw(self.reg[x as int], self.reg[y as int], n))
            },
            Instruction::Skp { x } => if self.reg[x as int] > 15 {
                Err(CpuError::KeyOutOfRange { key: self.reg[x as int] })
            } else {
                Ok(self.skip_if(self.keyboard[self.reg[x as int] as int]))
            },
            Instruction::Sknp { x } => if self.reg[x as int] > 15 {
                Err(CpuError::KeyOutOfRange { key: self.reg[x as int] })
            } else {
                Ok(self.skip_if(!self.keyboard[self.reg[x as int] as int]))
            },
            Instruction::LdRegDt { x } => Ok(self.set_reg(x as int, self.delay_timer as int)),
            Instruction::LdRegKey { x } => Ok(self.ld_reg_key(x as int)),
            Instruction::LdDtReg { x } => Ok(CpuState { delay_timer: self.reg[x as int], ..self }.next()),
            Instruction::LdStReg { x } => Ok(CpuState { sound_timer: self.reg[x as int], ..self }.next()),
            Instruction::AddIndex { x } => if self.index + self.reg[x as int] > 0xFFFF {
                Err(CpuError::AddressOutOfRange)
            } else {
                Ok(CpuState { index: (self.index + self.reg[x as int]) as u16, ..self }.next())
            },
            Instruction::LdSprite { x } => if self.reg[x as int] > 15 {
                Err(CpuError::DigitOutOfRange { digit: self.reg[x as int] })
            } else {
                Ok(CpuState { index: glyph_address(self.reg[x as int] as int) as u16, ..self }.next())
            },
            Instruction::LdBcd { x } => if self.index + 3 > 4096 {
                Err(CpuError::AddressOutOfRange)
            } else {
                Ok(self.ld_bcd(self.reg[x as int]))
            },
            Instruction::StoreRegs { x } => if self.index + x + 1 > 4096 {
                Err(CpuError::AddressOutOfRange)
            } else {
                Ok(self.store_regs(x as int))
            },
            Instruction::LoadRegs { x } => if self.index + x + 1 > 4096 {
                Err(CpuError::AddressOutOfRange)
            } else {
                Ok(self.load_regs(x as int))
            },
        }
    }

    /// One fetch-decode-execute cycle.
    pub open spec fn step(self, rnd: u8) -> Result<CpuState, CpuError> {
        match self.fetch() {
            None => Err(CpuError::AddressOutOfRange),
            Some(op) => match spec_decode(op) {
                None => Err(CpuError::InvalidOpcode { opcode: op, addr: self.pc }),
                Some(ins) => self.execute(ins, rnd),
            },
        }
    }

    /// The state after `k` calls of `update_timers` at rate `rate_hz`.
    pub open spec fn ticks(self, rate_hz: u32, k: nat) -> CpuState
        decreases k,
    {
        if k == 0 {
            self
        } else {
            self.ticks(rate_hz, (k - 1) as nat).tick(rate_hz)
        }
    }

    /// One call of `update_timers` at an instruction rate of `rate_hz`: the
    /// timers decay by one on every `rate_hz / 60`-th call (on every call when
    /// the rate is below 60).
    pub open spec fn tick(self, rate_hz: u32) -> CpuState {
        if self.timer_cycles + 1 >= rate_hz / 60 {
            CpuState {
                delay_timer: if self.delay_timer > 0 { (self.delay_timer - 1) as u8 } else { 0 },
                sound_timer: if self.sound_timer > 0 { (self.sound_timer - 1) as u8 } else { 0 },
                timer_cycles: 0,
                ..self
            }
        } else {
            CpuState { timer_cycles: (self.timer_cycles + 1) as u32, ..self }
        }
    }
}

} // verus!
