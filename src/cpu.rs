//! The CPU: owns memory, registers, stack, timers, keypad and framebuffer, and
//! executes one instruction at a time.
use vstd::prelude::*;

use crate::bits::{wrap_add, wrap_sub};
use crate::font::{font_glyphs, font_table};
use crate::instruction::{decode, Instruction};
use crate::state::{
    collides, drawn, first_pressed, outcome, sprite_covers, CpuError, CpuState, MAX_PROGRAM_SIZE,
    PROGRAM_START,
};

verus! {

/// A CHIP-8 machine. Its state is reachable only through the methods below;
/// `view` gives its mathematical model.
pub struct Cpu {
    memory: [u8; 4096],
    reg: [u8; 16],
    index: u16,
    pc: u16,
    gfx: [bool; 2048],
    delay_timer: u8,
    sound_timer: u8,
    timer_cycles: u32,
    stack: [u16; 16],
    sp: u8,
    keyboard: [bool; 16],
    redraw: bool,
}

impl View for Cpu {
    type V = CpuState;

    closed spec fn view(&self) -> CpuState {
        CpuState {
            memory: self.memory@,
            reg: self.reg@,
            index: self.index,
            pc: self.pc,
            gfx: self.gfx@,
            delay_timer: self.delay_timer,
            sound_timer: self.sound_timer,
            timer_cycles: self.timer_cycles,
            stack: self.stack@,
            sp: self.sp,
            keyboard: self.keyboard@,
            redraw: self.redraw,
        }
    }
}

/// The state of a freshly made machine: the font in low memory, everything
/// else zero, `false` or empty.
pub open spec fn initial_state() -> CpuState {
    CpuState {
        memory: Seq::new(4096, |a: int| if a < 80 { font_glyphs()[a] } else { 0u8 }),
        reg: Seq::new(16, |r: int| 0u8),
        index: 0,
        pc: 0,
        gfx: Seq::new(2048, |p: int| false),
        delay_timer: 0,
        sound_timer: 0,
        timer_cycles: 0,
        stack: Seq::new(16, |i: int| 0u16),
        sp: 0,
        keyboard: Seq::new(16, |k: int| false),
        redraw: false,
    }
}

/// `program` copied to memory from `PROGRAM_START` on, and `pc` set there.
pub open spec fn loaded(s: CpuState, program: Seq<u8>) -> CpuState {
    CpuState {
        memory: Seq::new(
            4096,
            |a: int|
                if 0x200 <= a < 0x200 + program.len() {
                    program[a - 0x200]
                } else {
                    s.memory[a]
                },
        ),
        pc: 0x200,
        ..s
    }
}

/// Whether pixel `p` lies under a set sprite bit that a row-by-row,
/// left-to-right draw has reached before sprite row `i`, column `j`.
spec fn covered_before(
    mem: Seq<u8>,
    index: u16,
    n: u8,
    vx: u8,
    vy: u8,
    p: int,
    i: int,
    j: int,
) -> bool {
    let row = (p / 64 - vy) % 32;
    let col = (p % 64 - vx) % 64;
    sprite_covers(mem, index, n, vx, vy, p) && (row < i || (row == i && col < j))
}

/// The pixel that sprite row `i`, column `j` lands on lies under that row and
/// column.
proof fn lemma_pixel_at(vx: u8, vy: u8, i: int, j: int)
    requires
        0 <= i < 32,
        0 <= j < 64,
    ensures
        ({
            let p = ((vy + i) % 32) * 64 + (vx + j) % 64;
            &&& 0 <= p < 2048
            &&& (p / 64 - vy) % 32 == i
            &&& (p % 64 - vx) % 64 == j
        }),
{
    let a = (vy + i) % 32;
    let b = (vx + j) % 64;
    let p = a * 64 + b;
    assert(p / 64 == a && p % 64 == b) by (nonlinear_arith)
        requires
            p == a * 64 + b,
            0 <= a < 32,
            0 <= b < 64,
    ;
    assert((a - vy) % 32 == i) by (nonlinear_arith)
        requires
            a == (vy + i) % 32,
            0 <= i < 32,
    ;
    assert((b - vx) % 64 == j) by (nonlinear_arith)
        requires
            b == (vx + j) % 64,
            0 <= j < 64,
    ;
}

/// A pixel is the one its own sprite row and column land on.
proof fn lemma_pixel_unique(vx: u8, vy: u8, q: int)
    requires
        0 <= q < 2048,
    ensures
        q == ((vy + (q / 64 - vy) % 32) % 32) * 64 + (vx + (q % 64 - vx) % 64) % 64,
{
    let a = q / 64;
    let b = q % 64;
    assert(0 <= a < 32 && 0 <= b < 64 && q == a * 64 + b) by (nonlinear_arith)
        requires
            a == q / 64,
            b == q % 64,
            0 <= q < 2048,
    ;
    assert((vy + (a - vy) % 32) % 32 == a) by (nonlinear_arith)
        requires
            0 <= a < 32,
    ;
    assert((vx + (b - vx) % 64) % 64 == b) by (nonlinear_arith)
        requires
            0 <= b < 64,
    ;
}

/// Relies on `rand::thread_rng` and `Rng::gen_range` over `0..=255`: a
/// uniformly drawn byte. Nothing is promised of its value.
#[verifier::external_body]
fn random_byte() -> u8 {
    rand::Rng::gen_range(&mut rand::thread_rng(), 0..=255u8)
}

impl Cpu {
    /// The model is well formed.
    pub open spec fn wf(&self) -> bool {
        self@.wf()
    }

    /// A machine with the font loaded at address 0 and all else cleared.
    pub fn new() -> (r: Cpu)
        ensures
            r@ == initial_state(),
            r.wf(),
    {
        let mut cpu = Cpu {
            memory: [0; 4096],
            reg: [0; 16],
            index: 0,
            pc: 0,
            gfx: [false; 2048],
            delay_timer: 0,
            sound_timer: 0,
            timer_cycles: 0,
            stack: [0; 16],
            sp: 0,
            keyboard: [false; 16],
            redraw: false,
        };
        assert(cpu.reg@ =~= initial_state().reg);
        assert(cpu.gfx@ =~= initial_state().gfx);
        assert(cpu.stack@ =~= initial_state().stack);
        assert(cpu.keyboard@ =~= initial_state().keyboard);
        cpu.load_fonts();
        assert(cpu@.memory =~= initial_state().memory);
        cpu
    }

    /// Copies the font to addresses `0x00..0x50`.
    fn load_fonts(&mut self)
        requires
            forall|a: int| 0 <= a < 4096 ==> old(self).memory@[a] == 0,
        ensures
            final(self)@ == (CpuState {
                memory: Seq::new(4096, |a: int| if a < 80 { font_glyphs()[a] } else { 0u8 }),
                ..old(self)@
            }),
    {
        let fonts = font_table();
        let mut addr: usize = 0;
        while addr < 80
            invariant
                addr <= 80,
                fonts@ == font_glyphs(),
                self@ == (CpuState { memory: self@.memory, ..old(self)@ }),
                self.memory@.len() == 4096,
                forall|a: int|
                    0 <= a < 4096 ==> self.memory@[a] == if a < addr {
                        font_glyphs()[a]
                    } else {
                        0u8
                    },
            decreases 80 - addr,
        {
            self.memory[addr] = fonts[addr];
            addr += 1;
        }
        assert(self@.memory =~= Seq::new(
            4096,
            |a: int| if a < 80 { font_glyphs()[a] } else { 0u8 },
        ));
    }

    /// Copies a program image to memory from `0x200` on and points `pc` at it.
    /// The image must fit: at most `0xE00` bytes.
    pub fn load_rom(&mut self, buf: &Vec<u8>)
        requires
            old(self).wf(),
            buf@.len() <= MAX_PROGRAM_SIZE,
        ensures
            final(self).wf(),
            final(self)@ == loaded(old(self)@, buf@),
    {
        let mut i: usize = 0;
        while i < buf.len()
            invariant
                i <= buf@.len() <= MAX_PROGRAM_SIZE,
                self@ == (CpuState { memory: self@.memory, ..old(self)@ }),
                self.memory@.len() == 4096,
                forall|a: int|
                    0 <= a < 4096 ==> self.memory@[a] == if 0x200 <= a < 0x200 + i {
                        buf@[a - 0x200]
                    } else {
                        old(self)@.memory[a]
                    },
            decreases buf@.len() - i,
        {
            self.memory[0x200 + i] = buf[i];
            i += 1;
        }
        self.pc = PROGRAM_START;
        assert(self@.memory =~= loaded(old(self)@, buf@).memory);
    }

    /// Moves `pc` past the current instruction, and past the next one too
    /// when `skip` holds.
    fn advance(&mut self, skip: bool)
        requires
            old(self).wf(),
            old(self)@.pc < 4095,
        ensures
            final(self).wf(),
            final(self)@ == old(self)@.skip_if(skip),
    {
        if skip {
            self.pc += 4;
        } else {
            self.pc += 2;
        }
    }

    /// `00E0`: clears the display.
    fn cls(&mut self)
        requires
            old(self).wf(),
            old(self)@.pc < 4095,
        ensures
            final(self).wf(),
            old(self)@.execute(Instruction::Cls, 0) == Ok::<CpuState, CpuError>(final(self)@),
    {
        let mut i: usize = 0;
        while i < 2048
            invariant
                i <= 2048,
                self@ == (CpuState { gfx: self@.gfx, ..old(self)@ }),
                self.gfx@.len() == 2048,
                forall|p: int| 0 <= p < i ==> !#[trigger] self.gfx@[p],
            decreases 2048 - i,
        {
            self.gfx[i] = false;
            i += 1;
        }
        self.redraw = true;
        self.pc += 2;
        assert(self.gfx@ =~= Seq::new(2048, |p: int| false));
    }

    /// `00EE`: returns to the instruction after the most recent `CALL`.
    fn ret(&mut self) -> (r: Result<(), CpuError>)
        requires
            old(self).wf(),
            old(self)@.pc < 4095,
        ensures
            final(self).wf(),
            outcome(old(self)@.execute(Instruction::Ret, 0), old(self)@, r, final(self)@),
    {
        if self.sp == 0 {
            return Err(CpuError::StackUnderflow);
        }
        self.sp -= 1;
        self.pc = self.stack[self.sp as usize] + 2;
        Ok(())
    }

    /// `1nnn`: jumps to `addr`.
    fn jmp(&mut self, addr: u16)
        requires
            old(self).wf(),
            addr < 4096,
        ensures
            final(self).wf(),
            old(self)@.execute(Instruction::Jp { addr }, 0) == Ok::<CpuState, CpuError>(
                final(self)@,
            ),
    {
        self.pc = addr;
    }

    /// `2nnn`: pushes `pc` and jumps to `addr`.
    fn call(&mut self, addr: u16) -> (r: Result<(), CpuError>)
        requires
            old(self).wf(),
            old(self)@.pc < 4095,
            addr < 4096,
        ensures
            final(self).wf(),
            outcome(old(self)@.execute(Instruction::Call { addr }, 0), old(self)@, r, final(self)@),
    {
        if self.sp >= 16 {
            return Err(CpuError::StackOverflow);
        }
        self.stack[self.sp as usize] = self.pc;
        self.sp += 1;
        self.pc = addr;
        Ok(())
    }

    /// `3xkk`: skips the next instruction if `Vx == kk`.
    fn se_reg_byte(&mut self, x: usize, kk: u8)
        requires
            old(self).wf(),
            old(self)@.pc < 4095,
            x < 16,
        ensures
            final(self).wf(),
            old(self)@.execute(Instruction::SeByte { x: x as u8, kk }, 0) == Ok::<
                CpuState,
                CpuError,
            >(final(self)@),
    {
        let vx = self.reg[x];
        self.advance(vx == kk);
    }

    /// `4xkk`: skips the next instruction if `Vx != kk`.
    fn sne_reg_byte(&mut self, x: usize, kk: u8)
        requires
            old(self).wf(),
            old(self)@.pc < 4095,
            x < 16,
        ensures
            final(self).wf(),
            old(self)@.execute(Instruction::SneByte { x: x as u8, kk }, 0) == Ok::<
                CpuState,
                CpuError,
            >(final(self)@),
    {
        let vx = self.reg[x];
        self.advance(vx != kk);
    }

    /// `5xy0`: skips the next instruction if `Vx == Vy`.
    fn se_reg_reg(&mut self, x: usize, y: usize)
        requires
            old(self).wf(),
            old(self)@.pc < 4095,
            x < 16,
            y < 16,
        ensures
            final(self).wf(),
            old(self)@.execute(Instruction::SeReg { x: x as u8, y: y as u8 }, 0) == Ok::<
                CpuState,
                CpuError,
            >(final(self)@),
    {
        let vx = self.reg[x];
        let vy = self.reg[y];
        self.advance(vx == vy);
    }

    /// `9xy0`: skips the next instruction if `Vx != Vy`.
    fn sne_reg_reg(&mut self, x: usize, y: usize)
        requires
            old(self).wf(),
            old(self)@.pc < 4095,
            x < 16,
            y < 16,
        ensures
            final(self).wf(),
            old(self)@.execute(Instruction::SneReg { x: x as u8, y: y as u8 }, 0) == Ok::<
                CpuState,
                CpuError,
            >(final(self)@),
    {
        let vx = self.reg[x];
        let vy = self.reg[y];
        self.advance(vx != vy);
    }

    /// `6xkk`: `Vx := kk`.
    fn ld_reg_byte(&mut self, x: usize, kk: u8)
        requires
            old(self).wf(),
            old(self)@.pc < 4095,
            x < 16,
        ensures
            final(self).wf(),
            old(self)@.execute(Instruction::LdByte { x: x as u8, kk }, 0) == Ok::<
                CpuState,
                CpuError,
            >(final(self)@),
    {
        self.reg[x] = kk;
        self.pc += 2;
    }

    /// `7xkk`: `Vx := Vx + kk` modulo 256; `VF` is left alone.
    fn add_reg_byte(&mut self, x: usize, kk: u8)
        requires
            old(self).wf(),
            old(self)@.pc < 4095,
            x < 16,
        ensures
            final(self).wf(),
            old(self)@.execute(Instruction::AddByte { x: x as u8, kk }, 0) == Ok::<
                CpuState,
                CpuError,
            >(final(self)@),
    {
        self.reg[x] = wrap_add(self.reg[x], kk);
        self.pc += 2;
    }

    /// `8xy0`: `Vx := Vy`.
    fn ld_reg_reg(&mut self, x: usize, y: usize)
        requires
            old(self).wf(),
            old(self)@.pc < 4095,
            x < 16,
            y < 16,
        ensures
            final(self).wf(),
            old(self)@.execute(Instruction::LdReg { x: x as u8, y: y as u8 }, 0) == Ok::<
                CpuState,
                CpuError,
            >(final(self)@),
    {
        self.reg[x] = self.reg[y];
        self.pc += 2;
    }

    /// `8xy1`: `Vx := Vx | Vy`.
    fn or_reg_reg(&mut self, x: usize, y: usize)
        requires
            old(self).wf(),
            old(self)@.pc < 4095,
            x < 16,
            y < 16,
        ensures
            final(self).wf(),
            old(self)@.execute(Instruction::Or { x: x as u8, y: y as u8 }, 0) == Ok::<
                CpuState,
                CpuError,
            >(final(self)@),
    {
        self.reg[x] = self.reg[x] | self.reg[y];
        self.pc += 2;
    }

    /// `8xy2`: `Vx := Vx & Vy`.
    fn and_reg_reg(&mut self, x: usize, y: usize)
        requires
            old(self).wf(),
            old(self)@.pc < 4095,
            x < 16,
            y < 16,
        ensures
            final(self).wf(),
            old(self)@.execute(Instruction::And { x: x as u8, y: y as u8 }, 0) == Ok::<
                CpuState,
                CpuError,
            >(final(self)@),
    {
        self.reg[x] = self.reg[x] & self.reg[y];
        self.pc += 2;
    }

    /// `8xy3`: `Vx := Vx ^ Vy`.
    fn xor_reg_reg(&mut self, x: usize, y: usize)
        requires
            old(self).wf(),
            old(self)@.pc < 4095,
            x < 16,
            y < 16,
        ensures
            final(self).wf(),
            old(self)@.execute(Instruction::Xor { x: x as u8, y: y as u8 }, 0) == Ok::<
                CpuState,
                CpuError,
            >(final(self)@),
    {
        self.reg[x] = self.reg[x] ^ self.reg[y];
        self.pc += 2;
    }

    /// `8xy4`: `Vx := Vx + Vy` modulo 256, `VF` := 1 if the sum exceeds 255.
    fn add_reg_reg(&mut self, x: usize, y: usize)
        requires
            old(self).wf(),
            old(self)@.pc < 4095,
            x < 16,
            y < 16,
        ensures
            final(self).wf(),
            old(self)@.execute(Instruction::AddReg { x: x as u8, y: y as u8 }, 0) == Ok::<
                CpuState,
                CpuError,
            >(final(self)@),
    {
        let vx = self.reg[x];
        let vy = self.reg[y];
        self.reg[15] = if (vx as u16) + (vy as u16) > 0xFF {
            1
        } else {
            0
        };
        self.reg[x] = wrap_add(vx, vy);
        self.pc += 2;
    }

    /// `8xy5`: `Vx := Vx - Vy` modulo 256, `VF` := 1 if `Vx >= Vy` (no borrow).
    fn sub_reg_reg(&mut self, x: usize, y: usize)
        requires
            old(self).wf(),
            old(self)@.pc < 4095,
            x < 16,
            y < 16,
        ensures
            final(self).wf(),
            old(self)@.execute(Instruction::Sub { x: x as u8, y: y as u8 }, 0) == Ok::<
                CpuState,
                CpuError,
            >(final(self)@),
    {
        let vx = self.reg[x];
        let vy = self.reg[y];
        self.reg[15] = if vx >= vy {
            1
        } else {
            0
        };
        self.reg[x] = wrap_sub(vx, vy);
        self.pc += 2;
    }

    /// `8xy7`: `Vx := Vy - Vx` modulo 256, `VF` := 1 if `Vy >= Vx` (no borrow).
    fn subn_reg_reg(&mut self, x: usize, y: usize)
        requires
            old(self).wf(),
            old(self)@.pc < 4095,
            x < 16,
            y < 16,
        ensures
            final(self).wf(),
            old(self)@.execute(Instruction::Subn { x: x as u8, y: y as u8 }, 0) == Ok::<
                CpuState,
                CpuError,
            >(final(self)@),
    {
        let vx = self.reg[x];
        let vy = self.reg[y];
        self.reg[15] = if vy >= vx {
            1
        } else {
            0
        };
        self.reg[x] = wrap_sub(vy, vx);
        self.pc += 2;
    }

    /// `8xy6`: `VF` := low bit of `Vx`, then `Vx := Vx >> 1`. `Vy` is not used.
    fn shr_reg_reg(&mut self, x: usize)
        requires
            old(self).wf(),
            old(self)@.pc < 4095,
            x < 16,
        ensures
            final(self).wf(),
            old(self)@.execute(Instruction::Shr { x: x as u8 }, 0) == Ok::<CpuState, CpuError>(
                final(self)@,
            ),
    {
        let vx = self.reg[x];
        assert(vx & 1 == vx % 2 && vx >> 1 == vx / 2) by (bit_vector);
        self.reg[15] = vx & 0x1;
        self.reg[x] = vx >> 1;
        self.pc += 2;
    }

    /// `8xyE`: `VF` := high bit of `Vx`, then `Vx := Vx << 1` modulo 256.
    /// `Vy` is not used.
    fn shl_reg_reg(&mut self, x: usize)
        requires
            old(self).wf(),
            old(self)@.pc < 4095,
            x < 16,
        ensures
            final(self).wf(),
            old(self)@.execute(Instruction::Shl { x: x as u8 }, 0) == Ok::<CpuState, CpuError>(
                final(self)@,
            ),
    {
        let vx = self.reg[x];
        assert((vx & 0x80) >> 7 == vx / 128 && vx << 1 == (2 * vx) % 256) by (bit_vector);
        self.reg[15] = (vx & 0x80) >> 7;
        self.reg[x] = vx << 1;
        self.pc += 2;
    }

    /// `Annn`: `I := addr`.
    fn ld_index_addr(&mut self, addr: u16)
        requires
            old(self).wf(),
            old(self)@.pc < 4095,
            addr < 4096,
        ensures
            final(self).wf(),
            old(self)@.execute(Instruction::LdIndex { addr }, 0) == Ok::<CpuState, CpuError>(
                final(self)@,
            ),
    {
        self.index = addr;
        self.pc += 2;
    }

    /// `Bnnn`: jumps to `addr + V0`.
    fn jmp_rel(&mut self, addr: u16)
        requires
            old(self).wf(),
            addr < 4096,
        ensures
            final(self).wf(),
            old(self)@.execute(Instruction::JpV0 { addr }, 0) == Ok::<CpuState, CpuError>(
                final(self)@,
            ),
    {
        self.pc = addr + self.reg[0] as u16;
    }

    /// `Cxkk`: `Vx := rand_byte & kk`.
    fn rnd_reg_byte(&mut self, x: usize, kk: u8, rand_byte: u8)
        requires
            old(self).wf(),
            old(self)@.pc < 4095,
            x < 16,
        ensures
            final(self).wf(),
            old(self)@.execute(Instruction::Rnd { x: x as u8, kk }, rand_byte) == Ok::<
                CpuState,
                CpuError,
            >(final(self)@),
    {
        self.reg[x] = rand_byte & kk;
        self.pc += 2;
    }

    /// `Ex9E`: skips the next instruction if key `Vx` is down.
    fn skp_reg(&mut self, x: usize) -> (r: Result<(), CpuError>)
        requires
            old(self).wf(),
            old(self)@.pc < 4095,
            x < 16,
        ensures
            final(self).wf(),
            outcome(
                old(self)@.execute(Instruction::Skp { x: x as u8 }, 0),
                old(self)@,
                r,
                final(self)@,
            ),
    {
        let vx = self.reg[x];
        if vx > 15 {
            return Err(CpuError::KeyOutOfRange { key: vx });
        }
        let pressed = self.keyboard[vx as usize];
        self.advance(pressed);
        Ok(())
    }

    /// `ExA1`: skips the next instruction if key `Vx` is up.
    fn sknp_reg(&mut self, x: usize) -> (r: Result<(), CpuError>)
        requires
            old(self).wf(),
            old(self)@.pc < 4095,
            x < 16,
        ensures
            final(self).wf(),
            outcome(
                old(self)@.execute(Instruction::Sknp { x: x as u8 }, 0),
                old(self)@,
                r,
                final(self)@,
            ),
    {
        let vx = self.reg[x];
        if vx > 15 {
            return Err(CpuError::KeyOutOfRange { key: vx });
        }
        let pressed = self.keyboard[vx as usize];
        self.advance(!pressed);
        Ok(())
    }

    /// `Fx07`: `Vx := delay timer`.
    fn ld_reg_dt(&mut self, x: usize)
        requires
            old(self).wf(),
            old(self)@.pc < 4095,
            x < 16,
        ensures
            final(self).wf(),
            old(self)@.execute(Instruction::LdRegDt { x: x as u8 }, 0) == Ok::<
                CpuState,
                CpuError,
            >(final(self)@),
    {
        self.reg[x] = self.delay_timer;
        self.pc += 2;
    }

    /// `Fx0A`: if a key is down, `Vx :=` the lowest such key and `pc` moves
    /// on; otherwise nothing changes, so the instruction runs again next cycle.
    fn ld_reg_key(&mut self, x: usize)
        requires
            old(self).wf(),
            old(self)@.pc < 4095,
            x < 16,
        ensures
            final(self).wf(),
            old(self)@.execute(Instruction::LdRegKey { x: x as u8 }, 0) == Ok::<
                CpuState,
                CpuError,
            >(final(self)@),
    {
        let mut k: usize = 0;
        while k < 16 && !self.keyboard[k]
            invariant
                k <= 16,
                self@ == old(self)@,
                first_pressed(self@.keyboard, 0) == first_pressed(self@.keyboard, k as int),
            decreases 16 - k,
        {
            k += 1;
        }
        if k < 16 {
            self.reg[x] = k as u8;
            self.pc += 2;
        }
    }

    /// `Fx15`: `delay timer := Vx`.
    fn ld_dt_reg(&mut self, x: usize)
        requires
            old(self).wf(),
            old(self)@.pc < 4095,
            x < 16,
        ensures
            final(self).wf(),
            old(self)@.execute(Instruction::LdDtReg { x: x as u8 }, 0) == Ok::<
                CpuState,
                CpuError,
            >(final(self)@),
    {
        self.delay_timer = self.reg[x];
        self.pc += 2;
    }

    /// `Fx18`: `sound timer := Vx`.
    fn ld_st_reg(&mut self, x: usize)
        requires
            old(self).wf(),
            old(self)@.pc < 4095,
            x < 16,
        ensures
            final(self).wf(),
            old(self)@.execute(Instruction::LdStReg { x: x as u8 }, 0) == Ok::<
                CpuState,
                CpuError,
            >(final(self)@),
    {
        self.sound_timer = self.reg[x];
        self.pc += 2;
    }

    /// `Fx1E`: `I := I + Vx`; fails if `I` would leave its 16 bits.
    fn add_index_reg(&mut self, x: usize) -> (r: Result<(), CpuError>)
        requires
            old(self).wf(),
            old(self)@.pc < 4095,
            x < 16,
        ensures
            final(self).wf(),
            outcome(
                old(self)@.execute(Instruction::AddIndex { x: x as u8 }, 0),
                old(self)@,
                r,
                final(self)@,
            ),
    {
        let vx = self.reg[x] as u16;
        if self.index > 0xFFFF - vx {
            return Err(CpuError::AddressOutOfRange);
        }
        self.index = self.index + vx;
        self.pc += 2;
        Ok(())
    }

    /// `Fx29`: `I :=` the address of the font glyph for digit `Vx`.
    fn ld_sprite_reg(&mut self, x: usize) -> (r: Result<(), CpuError>)
        requires
            old(self).wf(),
            old(self)@.pc < 4095,
            x < 16,
        ensures
            final(self).wf(),
            outcome(
                old(self)@.execute(Instruction::LdSprite { x: x as u8 }, 0),
                old(self)@,
                r,
                final(self)@,
            ),
    {
        let vx = self.reg[x];
        if vx > 0xF {
            return Err(CpuError::DigitOutOfRange { digit: vx });
        }
        self.index = vx as u16 * 5;
        self.pc += 2;
        Ok(())
    }

    /// `Fx33`: stores the hundreds, tens and ones digits of `Vx` at `I`,
    /// `I + 1` and `I + 2`.
    fn ld_bcd_reg(&mut self, x: usize) -> (r: Result<(), CpuError>)
        requires
            old(self).wf(),
            old(self)@.pc < 4095,
            x < 16,
        ensures
            final(self).wf(),
            outcome(
                old(self)@.execute(Instruction::LdBcd { x: x as u8 }, 0),
                old(self)@,
                r,
                final(self)@,
            ),
    {
        let vx = self.reg[x];
        let index = self.index as usize;
        if index + 3 > 4096 {
            return Err(CpuError::AddressOutOfRange);
        }
        self.memory[index] = vx / 100;
        self.memory[index + 1] = (vx / 10) % 10;
        self.memory[index + 2] = vx % 10;
        self.pc += 2;
        Ok(())
    }

    /// `Fx55`: stores `V0..=Vx` at `I..=I + x`; `I` itself is unchanged.
    fn ld_indirect_reg(&mut self, x: usize) -> (r: Result<(), CpuError>)
        requires
            old(self).wf(),
            old(self)@.pc < 4095,
            x < 16,
        ensures
            final(self).wf(),
            outcome(
                old(self)@.execute(Instruction::StoreRegs { x: x as u8 }, 0),
                old(self)@,
                r,
                final(self)@,
            ),
    {
        let index = self.index as usize;
        if index + x + 1 > 4096 {
            return Err(CpuError::AddressOutOfRange);
        }
        let mut i: usize = 0;
        while i <= x
            invariant
                i <= x + 1,
                x < 16,
                index == old(self)@.index,
                index + x + 1 <= 4096,
                self@ == (CpuState { memory: self@.memory, ..old(self)@ }),
                self.memory@.len() == 4096,
                forall|a: int|
                    0 <= a < 4096 ==> #[trigger] self.memory@[a] == if index <= a < index + i {
                        old(self)@.reg[a - index]
                    } else {
                        old(self)@.memory[a]
                    },
            decreases x + 1 - i,
        {
            self.memory[index + i] = self.reg[i];
            i += 1;
        }
        self.pc += 2;
        assert(self@.memory =~= old(self)@.store_regs(x as int).memory);
        Ok(())
    }

    /// `Fx65`: loads `V0..=Vx` from `I..=I + x`; `I` itself is unchanged.
    fn ld_reg_indirect(&mut self, x: usize) -> (r: Result<(), CpuError>)
        requires
            old(self).wf(),
            old(self)@.pc < 4095,
            x < 16,
        ensures
            final(self).wf(),
            outcome(
                old(self)@.execute(Instruction::LoadRegs { x: x as u8 }, 0),
                old(self)@,
                r,
                final(self)@,
            ),
    {
        let index = self.index as usize;
        if index + x + 1 > 4096 {
            return Err(CpuError::AddressOutOfRange);
        }
        let mut i: usize = 0;
        while i <= x
            invariant
                i <= x + 1,
                x < 16,
                index == old(self)@.index,
                index + x + 1 <= 4096,
                self@ == (CpuState { reg: self@.reg, ..old(self)@ }),
                self.reg@.len() == 16,
                forall|r: int|
                    0 <= r < 16 ==> #[trigger] self.reg@[r] == if r < i {
                        old(self)@.memory[index + r]
                    } else {
                        old(self)@.reg[r]
                    },
            decreases x + 1 - i,
        {
            self.reg[i] = self.memory[index + i];
            i += 1;
        }
        self.pc += 2;
        assert(self@.reg =~= old(self)@.load_regs(x as int).reg);
        Ok(())
    }

    /// `Dxyn`: XORs the `n`-row sprite at `I` into the framebuffer at
    /// `(Vx, Vy)`, wrapping at both edges; `VF` := 1 if a lit pixel was erased.
    fn draw_sprite(&mut self, x: usize, y: usize, n: u8) -> (r: Result<(), CpuError>)
        requires
            old(self).wf(),
            x < 16,
            y < 16,
            n < 16,
            old(self)@.pc < 4095,
        ensures
            outcome(
                old(self)@.execute(Instruction::Drw { x: x as u8, y: y as u8, n }, 0),
                old(self)@,
                r,
                final(self)@,
            ),
    {
        if self.index as usize + n as usize > 4096 {
            return Err(CpuError::AddressOutOfRange);
        }
        let vx = self.reg[x];
        let vy = self.reg[y];
        let ghost old_gfx = self.gfx@;
        let ghost mem = self.memory@;
        let ghost idx = self.index;
        let mut collision = false;
        let mut i: u8 = 0;
        while i < n
            invariant
                i <= n < 16,
                idx + n <= 4096,
                self@ == (CpuState { gfx: self@.gfx, ..old(self)@ }),
                mem == old(self)@.memory,
                idx == old(self)@.index,
                old_gfx == old(self)@.gfx,
                vx == old(self)@.reg[x as int],
                vy == old(self)@.reg[y as int],
                self.gfx@.len() == 2048,
                self.memory@.len() == 4096,
                forall|p: int|
                    0 <= p < 2048 ==> #[trigger] self.gfx@[p] == (old_gfx[p] != covered_before(
                        mem,
                        idx,
                        n,
                        vx,
                        vy,
                        p,
                        i as int,
                        0,
                    )),
                collision == exists|p: int|
                    0 <= p < 2048 && #[trigger] covered_before(mem, idx, n, vx, vy, p, i as int, 0)
                        && old_gfx[p],
            decreases n - i,
        {
            let sprite_byte = self.memory[self.index as usize + i as usize];
            let pos_y: usize = (vy as usize + i as usize) % 32;
            let mut j: u8 = 0;
            while j < 8
                invariant
                    i < n < 16,
                    j <= 8,
                    idx + n <= 4096,
                    self@ == (CpuState { gfx: self@.gfx, ..old(self)@ }),
                    mem == old(self)@.memory,
                    idx == old(self)@.index,
                    old_gfx == old(self)@.gfx,
                    sprite_byte == mem[idx + i],
                    pos_y == (vy + i) % 32,
                    self.gfx@.len() == 2048,
                    self.memory@.len() == 4096,
                    forall|p: int|
                        0 <= p < 2048 ==> #[trigger] self.gfx@[p] == (old_gfx[p]
                            != covered_before(mem, idx, n, vx, vy, p, i as int, j as int)),
                    collision == exists|p: int|
                        0 <= p < 2048 && #[trigger] covered_before(
                            mem,
                            idx,
                            n,
                            vx,
                            vy,
                            p,
                            i as int,
                            j as int,
                        ) && old_gfx[p],
                decreases 8 - j,
            {
                let pos_x: usize = (vx as usize + j as usize) % 64;
                let p: usize = pos_y * 64 + pos_x;
                proof {
                    lemma_pixel_at(vx, vy, i as int, j as int);
                    assert forall|q: int|
                        0 <= q < 2048 && q != p implies covered_before(
                            mem,
                            idx,
                            n,
                            vx,
                            vy,
                            q,
                            i as int,
                            j + 1,
                        ) == covered_before(mem, idx, n, vx, vy, q, i as int, j as int) by {
                        lemma_pixel_unique(vx, vy, q);
                    }
                }
                if (sprite_byte >> (7 - j)) & 1 == 1 {
                    assert(covered_before(mem, idx, n, vx, vy, p as int, i as int, j + 1));
                    assert(!covered_before(mem, idx, n, vx, vy, p as int, i as int, j as int));
                    let was_lit = self.gfx[p];
                    proof {
                        let before_step = exists|q: int|
                            0 <= q < 2048 && #[trigger] covered_before(
                                mem,
                                idx,
                                n,
                                vx,
                                vy,
                                q,
                                i as int,
                                j as int,
                            ) && old_gfx[q];
                        let after_step = exists|q: int|
                            0 <= q < 2048 && #[trigger] covered_before(
                                mem,
                                idx,
                                n,
                                vx,
                                vy,
                                q,
                                i as int,
                                j + 1,
                            ) && old_gfx[q];
                        if after_step {
                            let q = choose|q: int|
                                0 <= q < 2048 && #[trigger] covered_before(
                                    mem,
                                    idx,
                                    n,
                                    vx,
                                    vy,
                                    q,
                                    i as int,
                                    j + 1,
                                ) && old_gfx[q];
                            if q != p {
                                assert(covered_before(mem, idx, n, vx, vy, q, i as int, j as int));
                            }
                        }
                        if before_step {
                            let q = choose|q: int|
                                0 <= q < 2048 && #[trigger] covered_before(
                                    mem,
                                    idx,
                                    n,
                                    vx,
                                    vy,
                                    q,
                                    i as int,
                                    j as int,
                                ) && old_gfx[q];
                            assert(covered_before(mem, idx, n, vx, vy, q, i as int, j + 1));
                        }
                        assert(after_step == (before_step || was_lit));
                    }
                    if was_lit {
                        collision = true;
                    }
                    self.gfx[p] = !was_lit;
                } else {
                    assert(!covered_before(mem, idx, n, vx, vy, p as int, i as int, j + 1));
                    proof {
                        assert forall|q: int|
                            0 <= q < 2048 implies #[trigger] covered_before(
                            mem,
                            idx,
                            n,
                            vx,
                            vy,
                            q,
                            i as int,
                            j + 1,
                        ) == covered_before(mem, idx, n, vx, vy, q, i as int, j as int) by {
                            if q != p {
                                lemma_pixel_unique(vx, vy, q);
                            }
                        }
                    }
                }
                j += 1;
            }
            assert forall|q: int| 0 <= q < 2048 implies #[trigger] covered_before(
                mem,
                idx,
                n,
                vx,
                vy,
                q,
                i + 1,
                0,
            ) == covered_before(mem, idx, n, vx, vy, q, i as int, 8) by {}
            proof {
                if collision {
                    let q = choose|q: int|
                        0 <= q < 2048 && #[trigger] covered_before(
                            mem,
                            idx,
                            n,
                            vx,
                            vy,
                            q,
                            i as int,
                            8,
                        ) && old_gfx[q];
                    assert(covered_before(mem, idx, n, vx, vy, q, i + 1, 0));
                }
            }
            i += 1;
        }
        self.redraw = true;
        self.reg[15] = if collision {
            1
        } else {
            0
        };
        self.pc += 2;
        proof {
            assert forall|q: int| 0 <= q < 2048 implies #[trigger] covered_before(
                mem,
                idx,
                n,
                vx,
                vy,
                q,
                n as int,
                0,
            ) == sprite_covers(mem, idx, n, vx, vy, q) by {}
            assert(self.gfx@ =~= drawn(old_gfx, mem, idx, n, vx, vy));
            if collision {
                let q = choose|q: int|
                    0 <= q < 2048 && #[trigger] covered_before(mem, idx, n, vx, vy, q, n as int, 0)
                        && old_gfx[q];
                assert(sprite_covers(mem, idx, n, vx, vy, q));
            }
            if collides(old_gfx, mem, idx, n, vx, vy) {
                let q = choose|q: int|
                    0 <= q < 2048 && #[trigger] sprite_covers(mem, idx, n, vx, vy, q) && old_gfx[q];
                assert(covered_before(mem, idx, n, vx, vy, q, n as int, 0));
            }
            assert(collision == collides(old_gfx, mem, idx, n, vx, vy));
        }
        Ok(())
    }

    /// Executes one decoded instruction; `rand_byte` is what `RND` uses.
    fn dispatch(&mut self, ins: Instruction, rand_byte: u8) -> (r: Result<(), CpuError>)
        requires
            old(self).wf(),
            old(self)@.pc < 4095,
            ins.wf(),
        ensures
            final(self).wf(),
            outcome(old(self)@.execute(ins, rand_byte), old(self)@, r, final(self)@),
    {
        match ins {
            Instruction::Cls => {
                self.cls();
                Ok(())
            },
            Instruction::Ret => self.ret(),
            Instruction::Jp { addr } => {
                self.jmp(addr);
                Ok(())
            },
            Instruction::Call { addr } => self.call(addr),
            Instruction::SeByte { x, kk } => {
                self.se_reg_byte(x as usize, kk);
                Ok(())
            },
            Instruction::SneByte { x, kk } => {
                self.sne_reg_byte(x as usize, kk);
                Ok(())
            },
            Instruction::SeReg { x, y } => {
                self.se_reg_reg(x as usize, y as usize);
                Ok(())
            },
            Instruction::LdByte { x, kk } => {
                self.ld_reg_byte(x as usize, kk);
                Ok(())
            },
            Instruction::AddByte { x, kk } => {
                self.add_reg_byte(x as usize, kk);
                Ok(())
            },
            Instruction::LdReg { x, y } => {
                self.ld_reg_reg(x as usize, y as usize);
                Ok(())
            },
            Instruction::Or { x, y } => {
                self.or_reg_reg(x as usize, y as usize);
                Ok(())
            },
            Instruction::And { x, y } => {
                self.and_reg_reg(x as usize, y as usize);
                Ok(())
            },
            Instruction::Xor { x, y } => {
                self.xor_reg_reg(x as usize, y as usize);
                Ok(())
            },
            Instruction::AddReg { x, y } => {
                self.add_reg_reg(x as usize, y as usize);
                Ok(())
            },
            Instruction::Sub { x, y } => {
                self.sub_reg_reg(x as usize, y as usize);
                Ok(())
            },
            Instruction::Shr { x } => {
                self.shr_reg_reg(x as usize);
                Ok(())
            },
            Instruction::Subn { x, y } => {
                self.subn_reg_reg(x as usize, y as usize);
                Ok(())
            },
            Instruction::Shl { x } => {
                self.shl_reg_reg(x as usize);
                Ok(())
            },
            Instruction::SneReg { x, y } => {
                self.sne_reg_reg(x as usize, y as usize);
                Ok(())
            },
            Instruction::LdIndex { addr } => {
                self.ld_index_addr(addr);
                Ok(())
            },
            Instruction::JpV0 { addr } => {
                self.jmp_rel(addr);
                Ok(())
            },
            Instruction::Rnd { x, kk } => {
                self.rnd_reg_byte(x as usize, kk, rand_byte);
                Ok(())
            },
            Instruction::Drw { x, y, n } => self.draw_sprite(x as usize, y as usize, n),
            Instruction::Skp { x } => self.skp_reg(x as usize),
            Instruction::Sknp { x } => self.sknp_reg(x as usize),
            Instruction::LdRegDt { x } => {
                self.ld_reg_dt(x as usize);
                Ok(())
            },
            Instruction::LdRegKey { x } => {
                self.ld_reg_key(x as usize);
                Ok(())
            },
            Instruction::LdDtReg { x } => {
                self.ld_dt_reg(x as usize);
                Ok(())
            },
            Instruction::LdStReg { x } => {
                self.ld_st_reg(x as usize);
                Ok(())
            },
            Instruction::AddIndex { x } => self.add_index_reg(x as usize),
            Instruction::LdSprite { x } => self.ld_sprite_reg(x as usize),
            Instruction::LdBcd { x } => self.ld_bcd_reg(x as usize),
            Instruction::StoreRegs { x } => self.ld_indirect_reg(x as usize),
            Instruction::LoadRegs { x } => self.ld_reg_indirect(x as usize),
        }
    }

    /// One fetch-decode-execute cycle with `rand_byte` as the random byte
    /// that an `RND` instruction uses: reads the big-endian word at `pc`,
    /// decodes it and executes it. On a fatal condition (a fetch past the end
    /// of memory, an unknown opcode, a stack overflow or underflow, a key,
    /// digit or address out of range) the machine is left unchanged and the
    /// error is returned.
    pub fn execute_inst_with(&mut self, rand_byte: u8) -> (r: Result<(), CpuError>)
        requires
            old(self).wf(),
        ensures
            final(self).wf(),
            outcome(old(self)@.step(rand_byte), old(self)@, r, final(self)@),
    {
        if self.pc >= 4095 {
            return Err(CpuError::AddressOutOfRange);
        }
        let hi = self.memory[self.pc as usize];
        let lo = self.memory[self.pc as usize + 1];
        let opcode: u16 = (hi as u16) << 8 | lo as u16;
        assert((hi as u16) << 8 | lo as u16 == hi * 256 + lo) by (bit_vector);
        match decode(opcode) {
            None => Err(CpuError::InvalidOpcode { opcode, addr: self.pc }),
            Some(ins) => {
                proof {
                    crate::instruction::lemma_decode_wf(opcode);
                }
                self.dispatch(ins, rand_byte)
            },
        }
    }

    /// One fetch-decode-execute cycle, as `execute_inst_with`, drawing the
    /// random byte from the thread's random number generator.
    pub fn execute_inst(&mut self) -> (r: Result<(), CpuError>)
        requires
            old(self).wf(),
        ensures
            final(self).wf(),
            exists|b: u8| outcome(old(self)@.step(b), old(self)@, r, final(self)@),
    {
        let b = random_byte();
        let r = self.execute_inst_with(b);
        assert(outcome(old(self)@.step(b), old(self)@, r, self@));
        r
    }

    /// Records whether key `index` (0x0 to 0xF) is held down.
    pub fn set_keyboard(&mut self, index: usize, pressed: bool)
        requires
            old(self).wf(),
            index < 16,
        ensures
            final(self).wf(),
            final(self)@ == (CpuState {
                keyboard: old(self)@.keyboard.update(index as int, pressed),
                ..old(self)@
            }),
    {
        self.keyboard[index] = pressed;
    }

    /// A copy of the framebuffer: 64 x 32 pixels, row-major, pixel `(x, y)`
    /// at `64 * y + x`.
    pub fn read_framebuffer(&self) -> (r: [bool; 2048])
        ensures
            r@ == self@.gfx,
    {
        self.gfx
    }

    /// Whether the framebuffer changed since the last call; clears the flag.
    pub fn take_redraw_flag(&mut self) -> (r: bool)
        requires
            old(self).wf(),
        ensures
            final(self).wf(),
            r == old(self)@.redraw,
            final(self)@ == (CpuState { redraw: false, ..old(self)@ }),
    {
        let r = self.redraw;
        self.redraw = false;
        r
    }

    /// The program counter.
    pub fn pc(&self) -> (r: u16)
        ensures
            r == self@.pc,
    {
        self.pc
    }

    /// The index register `I`.
    pub fn index(&self) -> (r: u16)
        ensures
            r == self@.index,
    {
        self.index
    }

    /// Register `Vx`.
    pub fn register(&self, x: usize) -> (r: u8)
        requires
            self.wf(),
            x < 16,
        ensures
            r == self@.reg[x as int],
    {
        self.reg[x]
    }

    /// The byte at `addr`.
    pub fn memory_at(&self, addr: usize) -> (r: u8)
        requires
            self.wf(),
            addr < 4096,
        ensures
            r == self@.memory[addr as int],
    {
        self.memory[addr]
    }

    /// The number of return addresses on the call stack.
    pub fn stack_depth(&self) -> (r: u8)
        ensures
            r == self@.sp,
    {
        self.sp
    }

    /// The delay timer.
    pub fn delay_timer(&self) -> (r: u8)
        ensures
            r == self@.delay_timer,
    {
        self.delay_timer
    }

    /// The sound timer.
    pub fn sound_timer(&self) -> (r: u8)
        ensures
            r == self@.sound_timer,
    {
        self.sound_timer
    }

    /// Whether a tone should sound: the sound timer is nonzero.
    pub fn sound_active(&self) -> (r: bool)
        ensures
            r == (self@.sound_timer != 0),
    {
        self.sound_timer != 0
    }

    /// Counts one instruction cycle at an instruction rate of `fps` per
    /// second, and decays both timers by one (not below zero) on every
    /// `fps / 60`-th call, so that they run at 60 Hz whatever the rate.
    pub fn update_timers(&mut self, fps: u32)
        requires
            old(self).wf(),
        ensures
            final(self).wf(),
            final(self)@ == old(self)@.tick(fps),
    {
        self.timer_cycles += 1;
        if self.timer_cycles >= fps / 60 {
            if self.delay_timer > 0 {
                self.delay_timer -= 1;
            }
            if self.sound_timer > 0 {
                self.sound_timer -= 1;
            }
            self.timer_cycles = 0;
        }
    }
}

} // verus!
