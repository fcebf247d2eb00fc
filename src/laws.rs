//! Properties of the instruction set that hold of every machine state.
use vstd::prelude::*;

use crate::instruction::Instruction;
use crate::state::{sprite_covers, CpuError, CpuState};

verus! {

/// `ADD Vx,Vy` leaves `(a + b) mod 256` in `Vx` and sets `VF` to 1 exactly
/// when `a + b > 255`, for all register values `a`, `b` (with `Vx` other than
/// `VF`, which would receive both the sum and the carry).
pub proof fn lemma_add_carry(s: CpuState, x: u8, y: u8, rnd: u8)
    requires
        s.wf(),
        x < 15,
        y < 16,
    ensures
        ({
            let (a, b) = (s.reg[x as int], s.reg[y as int]);
            let t = s.execute(Instruction::AddReg { x, y }, rnd)->Ok_0;
            &&& s.execute(Instruction::AddReg { x, y }, rnd) is Ok
            &&& t.reg[x as int] == (a + b) % 256
            &&& (t.reg[15] == 1) == (a + b > 255)
            &&& t.reg[15] <= 1
        }),
{
}

/// `SUB Vx,Vy` leaves `(a - b) mod 256` in `Vx` and sets `VF` to 1 exactly
/// when `a >= b`; `SUBN Vx,Vy` leaves `(b - a) mod 256` and sets `VF` to 1
/// exactly when `b >= a` (with `Vx` other than `VF`).
pub proof fn lemma_sub_borrow(s: CpuState, x: u8, y: u8, rnd: u8)
    requires
        s.wf(),
        x < 15,
        y < 16,
    ensures
        ({
            let (a, b) = (s.reg[x as int], s.reg[y as int]);
            let t = s.execute(Instruction::Sub { x, y }, rnd)->Ok_0;
            &&& s.execute(Instruction::Sub { x, y }, rnd) is Ok
            &&& t.reg[x as int] == (a - b) % 256
            &&& (t.reg[15] == 1) == (a >= b)
            &&& t.reg[15] <= 1
        }),
        ({
            let (a, b) = (s.reg[x as int], s.reg[y as int]);
            let t = s.execute(Instruction::Subn { x, y }, rnd)->Ok_0;
            &&& s.execute(Instruction::Subn { x, y }, rnd) is Ok
            &&& t.reg[x as int] == (b - a) % 256
            &&& (t.reg[15] == 1) == (b >= a)
            &&& t.reg[15] <= 1
        }),
{
}

/// `SHR Vx` sets `VF` to the low bit of the value before the shift and leaves
/// that value shifted right by one in `Vx`, for every byte value (with `Vx`
/// other than `VF`).
pub proof fn lemma_shr(s: CpuState, x: u8, rnd: u8)
    requires
        s.wf(),
        x < 15,
    ensures
        ({
            let a = s.reg[x as int];
            let t = s.execute(Instruction::Shr { x }, rnd)->Ok_0;
            &&& s.execute(Instruction::Shr { x }, rnd) is Ok
            &&& t.reg[15] == a & 1
            &&& t.reg[x as int] == a >> 1
        }),
{
    let a = s.reg[x as int];
    assert(a & 1 == a % 2 && a >> 1 == a / 2) by (bit_vector);
}

/// Drawing the same sprite twice at the same position restores the
/// framebuffer. The second draw sets `VF` to 1 exactly when the sprite covers
/// a pixel that was dark before the first draw (the first draw lit it and the
/// second erases it), so `VF` is 0 after the second draw only when every pixel
/// under the sprite was lit to begin with. The coordinate registers are other
/// than `VF`, so that the first draw's flag does not move the second.
pub proof fn lemma_draw_twice(s: CpuState, x: u8, y: u8, n: u8, rnd: u8)
    requires
        s.wf(),
        x < 15,
        y < 15,
        n < 16,
        s.index + n <= 4096,
    ensures
        ({
            let ins = Instruction::Drw { x, y, n };
            let t1 = s.execute(ins, rnd)->Ok_0;
            let t2 = t1.execute(ins, rnd)->Ok_0;
            let (vx, vy) = (s.reg[x as int], s.reg[y as int]);
            &&& s.execute(ins, rnd) is Ok
            &&& t1.execute(ins, rnd) is Ok
            &&& t2.gfx == s.gfx
            &&& t2.reg[15] <= 1
            &&& (t2.reg[15] == 1) == exists|p: int|
                0 <= p < 2048 && #[trigger] sprite_covers(s.memory, s.index, n, vx, vy, p)
                    && !s.gfx[p]
            &&& (forall|p: int|
                0 <= p < 2048 && #[trigger] sprite_covers(s.memory, s.index, n, vx, vy, p)
                    ==> s.gfx[p]) ==> t2.reg[15] == 0
        }),
{
    let ins = Instruction::Drw { x, y, n };
    let t1 = s.execute(ins, rnd)->Ok_0;
    let t2 = t1.execute(ins, rnd)->Ok_0;
    let (vx, vy) = (s.reg[x as int], s.reg[y as int]);
    assert(t1.reg[x as int] == vx && t1.reg[y as int] == vy);
    assert(t2.gfx =~= s.gfx);
    assert forall|p: int| 0 <= p < 2048 implies (#[trigger] sprite_covers(
        s.memory,
        s.index,
        n,
        vx,
        vy,
        p,
    ) && t1.gfx[p]) == (sprite_covers(s.memory, s.index, n, vx, vy, p) && !s.gfx[p]) by {}
}

/// `CALL` followed by `RET` comes back to the instruction after the `CALL`
/// with the stack as deep as before, from every depth below 16 (so the call
/// reaches depths 1 to 16). `CALL` with 16 return addresses on the stack
/// fails with `StackOverflow`, and `RET` on an empty stack with
/// `StackUnderflow`; neither then changes the machine.
pub proof fn lemma_call_ret(s: CpuState, addr: u16, rnd: u8)
    requires
        s.wf(),
        addr < 4096,
        s.fetch() is Some,
    ensures
        s.sp < 16 ==> {
            let t = s.execute(Instruction::Call { addr }, rnd)->Ok_0;
            let u = t.execute(Instruction::Ret, rnd)->Ok_0;
            &&& s.execute(Instruction::Call { addr }, rnd) is Ok
            &&& t.sp == s.sp + 1
            &&& t.pc == addr
            &&& t.execute(Instruction::Ret, rnd) is Ok
            &&& u.pc == s.pc + 2
            &&& u.sp == s.sp
        },
        s.sp == 16 ==> s.execute(Instruction::Call { addr }, rnd) == Err::<CpuState, CpuError>(
            CpuError::StackOverflow,
        ),
        s.sp == 0 ==> s.execute(Instruction::Ret, rnd) == Err::<CpuState, CpuError>(
            CpuError::StackUnderflow,
        ),
{
}

/// Within the first period after a decay, `k` calls of `update_timers` move
/// only the cycle counter.
proof fn lemma_ticks_within_period(s: CpuState, rate_hz: u32, k: nat)
    requires
        s.wf(),
        s.timer_cycles == 0,
        k < rate_hz / 60,
    ensures
        s.ticks(rate_hz, k) == (CpuState { timer_cycles: k as u32, ..s }),
    decreases k,
{
    if k > 0 {
        lemma_ticks_within_period(s, rate_hz, (k - 1) as nat);
    }
}

/// At an instruction rate of `rate_hz` (at least 60), starting right after a
/// decay, the timers stay as they are for `rate_hz / 60 - 1` calls of
/// `update_timers` and decay by one (not below zero) on call number
/// `rate_hz / 60`: one decay per `rate_hz / 60` instruction cycles, which is
/// 60 decays per second.
pub proof fn lemma_timer_period(s: CpuState, rate_hz: u32)
    requires
        s.wf(),
        s.timer_cycles == 0,
        rate_hz >= 60,
    ensures
        forall|k: nat|
            k < rate_hz / 60 ==> (#[trigger] s.ticks(rate_hz, k)).delay_timer == s.delay_timer
                && s.ticks(rate_hz, k).sound_timer == s.sound_timer,
        s.ticks(rate_hz, (rate_hz / 60) as nat) == (CpuState {
            delay_timer: if s.delay_timer > 0 { (s.delay_timer - 1) as u8 } else { 0 },
            sound_timer: if s.sound_timer > 0 { (s.sound_timer - 1) as u8 } else { 0 },
            timer_cycles: 0,
            ..s
        }),
{
    assert forall|k: nat| k < rate_hz / 60 implies (#[trigger] s.ticks(rate_hz, k)).delay_timer
        == s.delay_timer && s.ticks(rate_hz, k).sound_timer == s.sound_timer by {
        lemma_ticks_within_period(s, rate_hz, k);
    }
    let p = (rate_hz / 60) as nat;
    lemma_ticks_within_period(s, rate_hz, (p - 1) as nat);
}

} // verus!
