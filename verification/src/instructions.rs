//! The instruction handlers. Each call runs one step of one instruction, and
//! the last step of every instruction fetches the next opcode.
//!
//! A handler looks at the step it stands at and runs that step alone. A step
//! that waits for an operand leaves the step as it is, so that the next call
//! runs it again. A handler that reads a location and writes it back resolves
//! the location once for the read and once for the write; a `Direct`
//! location therefore takes its address from the immediate bytes twice.

use vstd::prelude::*;
use crate::bus::Bus;
use crate::cpu::{carried, Cpu, Cursor, Effect, Store};
use crate::operand::{Loc16, Loc8, Reg16, Src16, Src8};
use crate::registers::{
    high_byte,
    lemma_with_carry_flag,
    lemma_with_half_carry_flag,
    lemma_with_subtract_flag,
    lemma_with_zero_flag,
    low_byte,
    split,
    Registers,
    FLAG_C,
    FLAG_H,
    FLAG_N,
    FLAG_Z,
    RESERVED,
};

verus! {

/// `v` rotated left by one bit through the carry: the carry comes in as bit
/// 0, and bit 7 drops out.
pub open spec fn rotated(v: u8, carry: bool) -> u8 {
    ((v as int * 2) % 256 + if carry {
        1int
    } else {
        0int
    }) as u8
}

/// Shifting left and or-ing the carry in is `rotated`; the bit that drops out
/// is set exactly in the values from 128 up.
pub proof fn lemma_rotated_bits(v: u8, carry: u8)
    requires
        carry <= 1,
    ensures
        (v << 1) | carry == rotated(v, carry == 1),
        v & 0x80 > 0 <==> v >= 128,
{
    assert((v << 1) | carry == (v as int * 2) % 256 + carry as int) by (bit_vector)
        requires
            carry <= 1,
    ;
    assert(v & 0x80 > 0 <==> v >= 128) by (bit_vector);
}

impl Registers {
    /// The flags after `v` was incremented: Z as the result is zero, N clear,
    /// H as the low nibble of `v` was full. Carry stays.
    pub open spec fn incremented(self, v: u8) -> Registers {
        self.with_flag(FLAG_Z, v.wrapping_add(1) == 0).with_flag(FLAG_N, false).with_flag(
            FLAG_H,
            v & 0x0f == 0x0f,
        )
    }

    /// The flags after `v` was decremented: Z as the result is zero, N set, H
    /// as the low nibble of `v` was empty. Carry stays.
    pub open spec fn decremented(self, v: u8) -> Registers {
        self.with_flag(FLAG_Z, v.wrapping_sub(1) == 0).with_flag(FLAG_N, true).with_flag(
            FLAG_H,
            v & 0x0f == 0,
        )
    }

    /// The flags after `a` was compared with `v`: Z as they are equal, N set,
    /// H as the low nibble of `a` is below that of `v`, C as `a` is below `v`.
    pub open spec fn compared(self, v: u8) -> Registers {
        self.with_flag(FLAG_Z, self.a == v).with_flag(FLAG_N, true).with_flag(
            FLAG_H,
            (self.a & 0x0f) < (v & 0x0f),
        ).with_flag(FLAG_C, self.a < v)
    }

    /// The flags after `v` was rotated left through the carry: Z as the
    /// result is zero, N and H clear, C as bit 7 of `v` was set.
    pub open spec fn rotated_left(self, v: u8) -> Registers {
        self.with_flag(FLAG_Z, rotated(v, self.cf()) == 0).with_flag(FLAG_N, false).with_flag(
            FLAG_H,
            false,
        ).with_flag(FLAG_C, v >= 128)
    }

    /// The flags after bit `bit` of `v` was tested: Z as the bit is clear, N
    /// clear, H set. Carry stays.
    pub open spec fn bit_tested(self, bit: usize, v: u8) -> Registers {
        self.with_flag(FLAG_Z, v & (1u8 << bit) == 0).with_flag(FLAG_N, false).with_flag(
            FLAG_H,
            true,
        )
    }
}

/// What `incremented` leaves in each flag, and that it touches nothing else.
pub proof fn lemma_incremented(regs: Registers, v: u8)
    ensures
        regs.incremented(v).zf() == ((v + 1) % 256 == 0),
        !regs.incremented(v).nf(),
        regs.incremented(v).hf() == (v & 0x0f == 0x0f),
        regs.incremented(v).cf() == regs.cf(),
        regs.incremented(v).f & RESERVED == regs.f & RESERVED,
        regs.incremented(v) == (Registers { f: regs.incremented(v).f, ..regs }),
{
    let z = regs.with_flag(FLAG_Z, v.wrapping_add(1) == 0);
    let n = z.with_flag(FLAG_N, false);
    lemma_with_zero_flag(regs.f, v.wrapping_add(1) == 0);
    lemma_with_subtract_flag(z.f, false);
    lemma_with_half_carry_flag(n.f, v & 0x0f == 0x0f);
}

/// What `decremented` leaves in each flag, and that it touches nothing else.
pub proof fn lemma_decremented(regs: Registers, v: u8)
    ensures
        regs.decremented(v).zf() == (v == 1),
        regs.decremented(v).nf(),
        regs.decremented(v).hf() == (v & 0x0f == 0),
        regs.decremented(v).cf() == regs.cf(),
        regs.decremented(v).f & RESERVED == regs.f & RESERVED,
        regs.decremented(v) == (Registers { f: regs.decremented(v).f, ..regs }),
{
    let z = regs.with_flag(FLAG_Z, v.wrapping_sub(1) == 0);
    let n = z.with_flag(FLAG_N, true);
    lemma_with_zero_flag(regs.f, v.wrapping_sub(1) == 0);
    lemma_with_subtract_flag(z.f, true);
    lemma_with_half_carry_flag(n.f, v & 0x0f == 0);
}

/// What `compared` leaves in each flag, and that it touches nothing else.
pub proof fn lemma_compared(regs: Registers, v: u8)
    ensures
        regs.compared(v).zf() == (regs.a == v),
        regs.compared(v).nf(),
        regs.compared(v).hf() == ((regs.a & 0x0f) < (v & 0x0f)),
        regs.compared(v).cf() == (regs.a < v),
        regs.compared(v).f & RESERVED == regs.f & RESERVED,
        regs.compared(v) == (Registers { f: regs.compared(v).f, ..regs }),
{
    let z = regs.with_flag(FLAG_Z, regs.a == v);
    let n = z.with_flag(FLAG_N, true);
    let h = n.with_flag(FLAG_H, (regs.a & 0x0f) < (v & 0x0f));
    lemma_with_zero_flag(regs.f, regs.a == v);
    lemma_with_subtract_flag(z.f, true);
    lemma_with_half_carry_flag(n.f, (regs.a & 0x0f) < (v & 0x0f));
    lemma_with_carry_flag(h.f, regs.a < v);
}

/// What `rotated_left` leaves in each flag, and that it touches nothing
/// else.
pub proof fn lemma_rotated_left(regs: Registers, v: u8)
    ensures
        regs.rotated_left(v).zf() == (rotated(v, regs.cf()) == 0),
        !regs.rotated_left(v).nf(),
        !regs.rotated_left(v).hf(),
        regs.rotated_left(v).cf() == (v >= 128),
        regs.rotated_left(v).f & RESERVED == regs.f & RESERVED,
        regs.rotated_left(v) == (Registers { f: regs.rotated_left(v).f, ..regs }),
{
    let z = regs.with_flag(FLAG_Z, rotated(v, regs.cf()) == 0);
    let n = z.with_flag(FLAG_N, false);
    let h = n.with_flag(FLAG_H, false);
    lemma_with_zero_flag(regs.f, rotated(v, regs.cf()) == 0);
    lemma_with_subtract_flag(z.f, false);
    lemma_with_half_carry_flag(n.f, false);
    lemma_with_carry_flag(h.f, v >= 128);
}

/// What `bit_tested` leaves in each flag, and that it touches nothing else.
pub proof fn lemma_bit_tested(regs: Registers, bit: usize, v: u8)
    ensures
        regs.bit_tested(bit, v).zf() == (v & (1u8 << bit) == 0),
        !regs.bit_tested(bit, v).nf(),
        regs.bit_tested(bit, v).hf(),
        regs.bit_tested(bit, v).cf() == regs.cf(),
        regs.bit_tested(bit, v).f & RESERVED == regs.f & RESERVED,
        regs.bit_tested(bit, v) == (Registers { f: regs.bit_tested(bit, v).f, ..regs }),
{
    let z = regs.with_flag(FLAG_Z, v & (1u8 << bit) == 0);
    let n = z.with_flag(FLAG_N, false);
    lemma_with_zero_flag(regs.f, v & (1u8 << bit) == 0);
    lemma_with_subtract_flag(z.f, false);
    lemma_with_half_carry_flag(n.f, true);
}

/// Incrementing a byte and then decrementing the result gives the byte back,
/// and the zero flag after the increment tells whether the byte wrapped to
/// zero.
pub proof fn lemma_inc_then_dec(regs: Registers, x: u8)
    ensures
        x.wrapping_add(1).wrapping_sub(1) == x,
        regs.incremented(x).zf() == ((x + 1) % 256 == 0),
{
    lemma_incremented(regs, x);
}

impl Cpu {
    /// This processor with other registers.
    pub open spec fn with_regs(self, regs: Registers) -> Cpu {
        Cpu { regs, ..self }
    }

    /// This processor with the stack pointer moved down by one, wrapping.
    pub open spec fn stack_grown(self) -> Cpu {
        Cpu { regs: Registers { sp: self.regs.sp.wrapping_sub(1), ..self.regs }, ..self }
    }

    /// The effect of a last step whose write of the result is `w`: while the
    /// write is pending, what the write did; once it is done, the fetch.
    pub open spec fn retire<B: Bus>(bus: &B, w: Effect<Option<()>>) -> Effect<()> {
        if w.out is Some {
            Effect { cpu: w.cpu.after_fetch(bus.peek(w.cpu.regs.pc)), store: w.store, out: () }
        } else {
            Effect { cpu: w.cpu, store: w.store, out: () }
        }
    }

    /// One call of `push16`, which runs on the inner cursor: an internal
    /// cycle, the high byte, the low byte as latched with the high one, and
    /// the call that reports completion.
    pub open spec fn push16_spec(self, val: u16) -> Effect<Option<()>> {
        let inner = self.ctx.inner;
        if inner.step == 0 {
            Effect::quiet(self.with_inner(Cursor { step: 1, ..inner }), None)
        } else if inner.step == 1 {
            let grown = self.stack_grown();
            Effect {
                cpu: grown.with_inner(Cursor { step: 2, scratch8: low_byte(val), ..inner }),
                store: Some(Store { addr: grown.regs.sp, val: high_byte(val) }),
                out: None,
            }
        } else if inner.step == 2 {
            let grown = self.stack_grown();
            Effect {
                cpu: grown.with_inner(Cursor { step: 3, ..inner }),
                store: Some(Store { addr: grown.regs.sp, val: inner.scratch8 }),
                out: None,
            }
        } else if inner.step == 3 {
            Effect::quiet(self.with_inner(Cursor { step: 0, ..inner }), Some(()))
        } else {
            Effect::quiet(self, None)
        }
    }

    /// One call of `ld`: step 0 reads the source, step 1 writes the
    /// destination, step 2 fetches.
    pub open spec fn ld_spec<B: Bus>(self, bus: &B, dst: Loc8, src: Src8) -> Effect<()> {
        if self.ctx.step == 0 {
            let r = self.read8_spec(bus, src);
            match r.out {
                Some(v) => Effect::quiet(r.cpu.keeping8(v).at_step(1), ()),
                None => Effect::quiet(r.cpu, ()),
            }
        } else if self.ctx.step == 1 {
            let w = self.write8_spec(bus, dst, self.ctx.scratch8);
            Effect {
                cpu: if w.out is Some {
                    w.cpu.at_step(2)
                } else {
                    w.cpu
                },
                store: w.store,
                out: (),
            }
        } else if self.ctx.step == 2 {
            Effect::quiet(self.after_fetch(bus.peek(self.regs.pc)), ())
        } else {
            Effect::quiet(self, ())
        }
    }

    /// One call of `ld16`: step 0 reads the source, step 1 writes the
    /// destination, step 2 fetches.
    pub open spec fn ld16_spec<B: Bus>(self, bus: &B, dst: Loc16, src: Src16) -> Effect<()> {
        if self.ctx.step == 0 {
            let r = self.read16_spec(bus, src);
            match r.out {
                Some(v) => Effect::quiet(r.cpu.keeping16(v).at_step(1), ()),
                None => Effect::quiet(r.cpu, ()),
            }
        } else if self.ctx.step == 1 {
            let w = self.write16_spec(bus, dst, self.ctx.scratch16);
            Effect {
                cpu: if w.out is Some {
                    w.cpu.at_step(2)
                } else {
                    w.cpu
                },
                store: w.store,
                out: (),
            }
        } else if self.ctx.step == 2 {
            Effect::quiet(self.after_fetch(bus.peek(self.regs.pc)), ())
        } else {
            Effect::quiet(self, ())
        }
    }

    /// One call of `cp`: once the operand is there, the flags of the
    /// comparison and the fetch.
    pub open spec fn cp_spec<B: Bus>(self, bus: &B, src: Src8) -> Cpu {
        let r = self.read8_spec(bus, src);
        match r.out {
            Some(v) => {
                let flagged = r.cpu.with_regs(r.cpu.regs.compared(v));
                flagged.after_fetch(bus.peek(flagged.regs.pc))
            },
            None => r.cpu,
        }
    }

    /// One call of `inc`: step 0 reads the operand, sets the flags and keeps
    /// the result, step 1 writes it back and fetches.
    pub open spec fn inc_spec<B: Bus>(self, bus: &B, loc: Loc8) -> Effect<()> {
        if self.ctx.step == 0 {
            let r = self.read8_spec(bus, Src8::Loc(loc));
            match r.out {
                Some(v) => Effect::quiet(
                    r.cpu.with_regs(r.cpu.regs.incremented(v)).keeping8(v.wrapping_add(1)).at_step(
                        1,
                    ),
                    (),
                ),
                None => Effect::quiet(r.cpu, ()),
            }
        } else if self.ctx.step == 1 {
            Cpu::retire(bus, self.write8_spec(bus, loc, self.ctx.scratch8))
        } else {
            Effect::quiet(self, ())
        }
    }

    /// One call of `dec`: step 0 reads the operand, sets the flags and keeps
    /// the result, step 1 writes it back and fetches.
    pub open spec fn dec_spec<B: Bus>(self, bus: &B, loc: Loc8) -> Effect<()> {
        if self.ctx.step == 0 {
            let r = self.read8_spec(bus, Src8::Loc(loc));
            match r.out {
                Some(v) => Effect::quiet(
                    r.cpu.with_regs(r.cpu.regs.decremented(v)).keeping8(v.wrapping_sub(1)).at_step(
                        1,
                    ),
                    (),
                ),
                None => Effect::quiet(r.cpu, ()),
            }
        } else if self.ctx.step == 1 {
            Cpu::retire(bus, self.write8_spec(bus, loc, self.ctx.scratch8))
        } else {
            Effect::quiet(self, ())
        }
    }

    /// One call of `inc16`: step 0 reads the operand and keeps the result,
    /// step 1 writes it back, step 2 fetches. No flag changes.
    pub open spec fn inc16_spec<B: Bus>(self, bus: &B, loc: Loc16) -> Effect<()> {
        if self.ctx.step == 0 {
            let r = self.read16_spec(bus, Src16::Loc(loc));
            match r.out {
                Some(v) => Effect::quiet(r.cpu.keeping16(v.wrapping_add(1)).at_step(1), ()),
                None => Effect::quiet(r.cpu, ()),
            }
        } else if self.ctx.step == 1 {
            let w = self.write16_spec(bus, loc, self.ctx.scratch16);
            Effect {
                cpu: if w.out is Some {
                    w.cpu.at_step(2)
                } else {
                    w.cpu
                },
                store: w.store,
                out: (),
            }
        } else if self.ctx.step == 2 {
            Effect::quiet(self.after_fetch(bus.peek(self.regs.pc)), ())
        } else {
            Effect::quiet(self, ())
        }
    }

    /// One call of `dec16`: step 0 reads the operand and keeps the result,
    /// step 1 writes it back, step 2 fetches. No flag changes.
    pub open spec fn dec16_spec<B: Bus>(self, bus: &B, loc: Loc16) -> Effect<()> {
        if self.ctx.step == 0 {
            let r = self.read16_spec(bus, Src16::Loc(loc));
            match r.out {
                Some(v) => Effect::quiet(r.cpu.keeping16(v.wrapping_sub(1)).at_step(1), ()),
                None => Effect::quiet(r.cpu, ()),
            }
        } else if self.ctx.step == 1 {
            let w = self.write16_spec(bus, loc, self.ctx.scratch16);
            Effect {
                cpu: if w.out is Some {
                    w.cpu.at_step(2)
                } else {
                    w.cpu
                },
                store: w.store,
                out: (),
            }
        } else if self.ctx.step == 2 {
            Effect::quiet(self.after_fetch(bus.peek(self.regs.pc)), ())
        } else {
            Effect::quiet(self, ())
        }
    }

    /// One call of `rl`: step 0 reads the operand, sets the flags and keeps
    /// the rotated value, step 1 writes it back and fetches.
    pub open spec fn rl_spec<B: Bus>(self, bus: &B, loc: Loc8) -> Effect<()> {
        if self.ctx.step == 0 {
            let r = self.read8_spec(bus, Src8::Loc(loc));
            match r.out {
                Some(v) => Effect::quiet(
                    r.cpu.with_regs(r.cpu.regs.rotated_left(v)).keeping8(
                        rotated(v, r.cpu.regs.cf()),
                    ).at_step(1),
                    (),
                ),
                None => Effect::quiet(r.cpu, ()),
            }
        } else if self.ctx.step == 1 {
            Cpu::retire(bus, self.write8_spec(bus, loc, self.ctx.scratch8))
        } else {
            Effect::quiet(self, ())
        }
    }

    /// One call of `bit`: once the operand is there, the flags of the test
    /// and the fetch.
    pub open spec fn bit_spec<B: Bus>(self, bus: &B, bit: usize, src: Src8) -> Cpu {
        let r = self.read8_spec(bus, src);
        match r.out {
            Some(v) => {
                let flagged = r.cpu.with_regs(r.cpu.regs.bit_tested(bit, v));
                flagged.after_fetch(bus.peek(flagged.regs.pc))
            },
            None => r.cpu,
        }
    }

    /// One call of `push`: step 0 keeps the register's value, step 1 runs
    /// `push16` on it and fetches once that is done.
    pub open spec fn push_spec<B: Bus>(self, bus: &B, src: Reg16) -> Effect<()> {
        if self.ctx.step == 0 {
            Effect::quiet(self.keeping16(self.regs.get16(src)).at_step(1), ())
        } else if self.ctx.step == 1 {
            Cpu::retire(bus, self.push16_spec(self.ctx.scratch16))
        } else {
            Effect::quiet(self, ())
        }
    }

    /// The no-operation: its one step does nothing but fetch the next
    /// opcode.
    pub fn nop<B: Bus>(&mut self, bus: &B)
        ensures
            *final(self) == old(self).after_fetch(bus.peek(old(self).regs.pc)),
            old(self).wf() ==> final(self).wf(),
    {
        self.fetch(bus);
    }

    /// Runs one step of loading `dst` from `src`: step 0 reads, step 1
    /// writes, step 2 fetches. No flag changes.
    pub fn ld<B: Bus>(&mut self, bus: &mut B, dst: Loc8, src: Src8)
        ensures
            ({
                let e = old(self).ld_spec(old(bus), dst, src);
                &&& *final(self) == e.cpu
                &&& carried(e.store, old(bus), final(bus))
            }),
            old(self).ctx.step != 2 ==> final(self).still_in(*old(self)),
            final(self).regs.f == old(self).regs.f,
    {
        let step: u8 = self.ctx.step;
        if step == 0 {
            if let Some(v) = self.read8(bus, src) {
                self.ctx.scratch8 = v;
                self.ctx.step = 1;
            }
        } else if step == 1 {
            if self.write8(bus, dst, self.ctx.scratch8).is_some() {
                self.ctx.step = 2;
            }
        } else if step == 2 {
            self.fetch(bus);
        }
    }

    /// Runs one step of loading the 16-bit `dst` from `src`: step 0 reads,
    /// step 1 writes, step 2 fetches. No flag changes, unless `dst` is the
    /// pair that holds the flags.
    pub fn ld16<B: Bus>(&mut self, bus: &mut B, dst: Loc16, src: Src16)
        ensures
            ({
                let e = old(self).ld16_spec(old(bus), dst, src);
                &&& *final(self) == e.cpu
                &&& carried(e.store, old(bus), final(bus))
            }),
            old(self).ctx.step != 2 ==> final(self).still_in(*old(self)),
            dst != Loc16::Reg(Reg16::AF) ==> final(self).regs.f == old(self).regs.f,
            old(self).wf() ==> final(self).wf(),
    {
        let step: u8 = self.ctx.step;
        if step == 0 {
            if let Some(v) = self.read16(bus, src) {
                self.ctx.scratch16 = v;
                self.ctx.step = 1;
            }
        } else if step == 1 {
            if self.write16(bus, dst, self.ctx.scratch16).is_some() {
                self.ctx.step = 2;
            }
        } else if step == 2 {
            self.fetch(bus);
        }
    }

    /// Runs the one step of comparing `a` with `src`: once the operand is
    /// there it sets Z as they are equal, N, H as the low nibble of `a` is
    /// the smaller and C as `a` is the smaller, and fetches.
    pub fn cp<B: Bus>(&mut self, bus: &B, src: Src8)
        ensures
            *final(self) == old(self).cp_spec(bus, src),
            old(self).read8_spec(bus, src).out matches Some(v) ==> {
                &&& final(self).regs.zf() == (old(self).regs.a == v)
                &&& final(self).regs.nf()
                &&& final(self).regs.hf() == ((old(self).regs.a & 0x0f) < (v & 0x0f))
                &&& final(self).regs.cf() == (old(self).regs.a < v)
            },
            old(self).read8_spec(bus, src).out is None ==> final(self).still_in(*old(self)),
            old(self).wf() ==> final(self).wf(),
    {
        if let Some(v) = self.read8(bus, src) {
            let result: u8 = self.regs.a.wrapping_sub(v);
            let carry: bool = self.regs.a < v;
            self.regs.set_zf(result == 0);
            self.regs.set_nf(true);
            self.regs.set_hf((self.regs.a & 0xf) < (v & 0xf));
            self.regs.set_cf(carry);
            self.fetch(bus);
        }
    }

    /// Runs one step of incrementing `loc`: step 0 reads, sets Z, N and H
    /// and keeps the result, step 1 writes it back and fetches.
    pub fn inc<B: Bus>(&mut self, bus: &mut B, loc: Loc8)
        ensures
            ({
                let e = old(self).inc_spec(old(bus), loc);
                &&& *final(self) == e.cpu
                &&& carried(e.store, old(bus), final(bus))
            }),
            old(self).ctx.step == 0 ==> (old(self).read8_spec(old(bus), Src8::Loc(loc)).out
                matches Some(v) ==> {
                &&& final(self).ctx.scratch8 == (v + 1) % 256
                &&& final(self).regs.zf() == ((v + 1) % 256 == 0)
                &&& !final(self).regs.nf()
                &&& final(self).regs.hf() == (v & 0x0f == 0x0f)
                &&& final(self).regs.cf() == old(self).regs.cf()
            }),
            old(self).ctx.step != 1 ==> final(self).still_in(*old(self)),
            old(self).wf() ==> final(self).wf(),
    {
        let step: u8 = self.ctx.step;
        if step == 0 {
            if let Some(v) = self.read8(bus, Src8::Loc(loc)) {
                let result: u8 = v.wrapping_add(1);
                self.regs.set_zf(result == 0);
                self.regs.set_nf(false);
                self.regs.set_hf(v & 0xf == 0xf);
                self.ctx.scratch8 = result;
                self.ctx.step = 1;
            }
        } else if step == 1 {
            if self.write8(bus, loc, self.ctx.scratch8).is_some() {
                self.fetch(bus);
            }
        }
    }

    /// Runs one step of incrementing the 16-bit `loc`: step 0 reads and
    /// keeps the result, step 1 writes it back, step 2 fetches. No flag
    /// changes, unless `loc` is the pair that holds the flags.
    pub fn inc16<B: Bus>(&mut self, bus: &mut B, loc: Loc16)
        ensures
            ({
                let e = old(self).inc16_spec(old(bus), loc);
                &&& *final(self) == e.cpu
                &&& carried(e.store, old(bus), final(bus))
            }),
            old(self).ctx.step != 2 ==> final(self).still_in(*old(self)),
            loc != Loc16::Reg(Reg16::AF) ==> final(self).regs.f == old(self).regs.f,
            old(self).wf() ==> final(self).wf(),
    {
        let step: u8 = self.ctx.step;
        if step == 0 {
            if let Some(v) = self.read16(bus, Src16::Loc(loc)) {
                self.ctx.scratch16 = v.wrapping_add(1);
                self.ctx.step = 1;
            }
        } else if step == 1 {
            if self.write16(bus, loc, self.ctx.scratch16).is_some() {
                self.ctx.step = 2;
            }
        } else if step == 2 {
            self.fetch(bus);
        }
    }

    /// Runs one step of decrementing `loc`: step 0 reads, sets Z, N and H
    /// and keeps the result, step 1 writes it back and fetches.
    pub fn dec<B: Bus>(&mut self, bus: &mut B, loc: Loc8)
        ensures
            ({
                let e = old(self).dec_spec(old(bus), loc);
                &&& *final(self) == e.cpu
                &&& carried(e.store, old(bus), final(bus))
            }),
            old(self).ctx.step == 0 ==> (old(self).read8_spec(old(bus), Src8::Loc(loc)).out
                matches Some(v) ==> {
                &&& final(self).ctx.scratch8 == (v - 1) % 256
                &&& final(self).regs.zf() == (v == 1)
                &&& final(self).regs.nf()
                &&& final(self).regs.hf() == (v & 0x0f == 0)
                &&& final(self).regs.cf() == old(self).regs.cf()
            }),
            old(self).ctx.step != 1 ==> final(self).still_in(*old(self)),
            old(self).wf() ==> final(self).wf(),
    {
        let step: u8 = self.ctx.step;
        if step == 0 {
            if let Some(v) = self.read8(bus, Src8::Loc(loc)) {
                let result: u8 = v.wrapping_sub(1);
                self.regs.set_zf(result == 0);
                self.regs.set_nf(true);
                self.regs.set_hf(v & 0xf == 0);
                self.ctx.scratch8 = result;
                self.ctx.step = 1;
            }
        } else if step == 1 {
            if self.write8(bus, loc, self.ctx.scratch8).is_some() {
                self.fetch(bus);
            }
        }
    }

    /// Runs one step of decrementing the 16-bit `loc`: step 0 reads and
    /// keeps the result, step 1 writes it back, step 2 fetches. No flag
    /// changes, unless `loc` is the pair that holds the flags.
    pub fn dec16<B: Bus>(&mut self, bus: &mut B, loc: Loc16)
        ensures
            ({
                let e = old(self).dec16_spec(old(bus), loc);
                &&& *final(self) == e.cpu
                &&& carried(e.store, old(bus), final(bus))
            }),
            old(self).ctx.step != 2 ==> final(self).still_in(*old(self)),
            loc != Loc16::Reg(Reg16::AF) ==> final(self).regs.f == old(self).regs.f,
            old(self).wf() ==> final(self).wf(),
    {
        let step: u8 = self.ctx.step;
        if step == 0 {
            if let Some(v) = self.read16(bus, Src16::Loc(loc)) {
                self.ctx.scratch16 = v.wrapping_sub(1);
                self.ctx.step = 1;
            }
        } else if step == 1 {
            if self.write16(bus, loc, self.ctx.scratch16).is_some() {
                self.ctx.step = 2;
            }
        } else if step == 2 {
            self.fetch(bus);
        }
    }

    /// Runs one step of rotating `loc` left through the carry: step 0 reads,
    /// sets all four flags and keeps the result, step 1 writes it back and
    /// fetches.
    pub fn rl<B: Bus>(&mut self, bus: &mut B, loc: Loc8)
        ensures
            ({
                let e = old(self).rl_spec(old(bus), loc);
                &&& *final(self) == e.cpu
                &&& carried(e.store, old(bus), final(bus))
            }),
            old(self).ctx.step == 0 ==> (old(self).read8_spec(old(bus), Src8::Loc(loc)).out
                matches Some(v) ==> {
                &&& final(self).ctx.scratch8 == rotated(v, old(self).regs.cf())
                &&& final(self).regs.zf() == (rotated(v, old(self).regs.cf()) == 0)
                &&& !final(self).regs.nf()
                &&& !final(self).regs.hf()
                &&& final(self).regs.cf() == (v >= 128)
            }),
            old(self).ctx.step != 1 ==> final(self).still_in(*old(self)),
            old(self).wf() ==> final(self).wf(),
    {
        let step: u8 = self.ctx.step;
        if step == 0 {
            if let Some(v) = self.read8(bus, Src8::Loc(loc)) {
                let carry: u8 = if self.regs.cf() {
                    1
                } else {
                    0
                };
                let result: u8 = (v << 1) | carry;
                proof {
                    lemma_rotated_bits(v, carry);
                }
                self.regs.set_zf(result == 0);
                self.regs.set_nf(false);
                self.regs.set_hf(false);
                self.regs.set_cf(v & 0x80 > 0);
                self.ctx.scratch8 = result;
                self.ctx.step = 1;
            }
        } else if step == 1 {
            if self.write8(bus, loc, self.ctx.scratch8).is_some() {
                self.fetch(bus);
            }
        }
    }

    /// Runs the one step of testing bit `bit` of `src`: once the operand is
    /// there it sets Z as the bit is clear, clears N, sets H, and fetches.
    pub fn bit<B: Bus>(&mut self, bus: &B, bit: usize, src: Src8)
        requires
            bit < 8,
        ensures
            *final(self) == old(self).bit_spec(bus, bit, src),
            old(self).read8_spec(bus, src).out matches Some(v) ==> {
                &&& final(self).regs.zf() == (v & (1u8 << bit) == 0)
                &&& !final(self).regs.nf()
                &&& final(self).regs.hf()
                &&& final(self).regs.cf() == old(self).regs.cf()
            },
            old(self).read8_spec(bus, src).out is None ==> final(self).still_in(*old(self)),
            old(self).wf() ==> final(self).wf(),
    {
        if let Some(v) = self.read8(bus, src) {
            let tested: u8 = v & (1u8 << bit);
            self.regs.set_zf(tested == 0);
            self.regs.set_nf(false);
            self.regs.set_hf(true);
            self.fetch(bus);
        }
    }

    /// Runs one step of pushing `val` on the stack, high byte first, and
    /// reports `Some` from the call that finds both bytes written.
    pub fn push16<B: Bus>(&mut self, bus: &mut B, val: u16) -> (done: Option<()>)
        ensures
            ({
                let e = old(self).push16_spec(val);
                &&& *final(self) == e.cpu
                &&& done == e.out
                &&& carried(e.store, old(bus), final(bus))
            }),
            final(self).regs.f == old(self).regs.f,
    {
        let step: u8 = self.ctx.inner.step;
        if step == 0 {
            self.ctx.inner.step = 1;
            None
        } else if step == 1 {
            let (hi, lo) = split(val);
            self.regs.sp = self.regs.sp.wrapping_sub(1);
            bus.write(self.regs.sp, hi);
            self.ctx.inner.scratch8 = lo;
            self.ctx.inner.step = 2;
            None
        } else if step == 2 {
            self.regs.sp = self.regs.sp.wrapping_sub(1);
            bus.write(self.regs.sp, self.ctx.inner.scratch8);
            self.ctx.inner.step = 3;
            None
        } else if step == 3 {
            self.ctx.inner.step = 0;
            Some(())
        } else {
            None
        }
    }

    /// Runs one step of pushing the 16-bit register `src` on the stack:
    /// step 0 keeps the register's value, step 1 runs `push16` on it and
    /// fetches once that reports completion. No flag changes.
    pub fn push<B: Bus>(&mut self, bus: &mut B, src: Reg16)
        ensures
            ({
                let e = old(self).push_spec(old(bus), src);
                &&& *final(self) == e.cpu
                &&& carried(e.store, old(bus), final(bus))
            }),
            old(self).ctx.step != 1 ==> final(self).still_in(*old(self)),
            final(self).regs.f == old(self).regs.f,
    {
        let step: u8 = self.ctx.step;
        if step == 0 {
            self.ctx.scratch16 = self.read16(bus, Src16::Loc(Loc16::Reg(src))).unwrap();
            self.ctx.step = 1;
        } else if step == 1 {
            if self.push16(bus, self.ctx.scratch16).is_some() {
                self.fetch(bus);
            }
        }
    }
}

} // verus!
