//! Whole instructions: how many calls of its handler an instruction takes
//! from its first step to the fetch of its successor, and what it has done
//! by then.

use vstd::prelude::*;
use crate::bus::Bus;
use crate::cpu::{Cpu, Store};
use crate::instructions::{
    lemma_decremented,
    lemma_incremented,
    lemma_rotated_left,
    rotated,
};
use crate::operand::{Loc16, Loc8, Mem, Reg16, Reg8, Src16, Src8};
use crate::registers::{high_byte, low_byte, pair, Registers};

verus! {

impl Cpu {
    /// This processor once the instruction in flight has left `regs` in the
    /// registers and fetched its successor from `bus`.
    pub open spec fn retired<B: Bus>(self, regs: Registers, bus: &B) -> Cpu {
        self.with_regs(regs).after_fetch(bus.peek(regs.pc))
    }
}

/// A load from register to register takes three calls. The first two leave
/// the instruction in flight; the third has the value in `dst`, everything
/// else as it was, and the next opcode fetched. Nothing is stored.
pub proof fn lemma_ld_registers<B: Bus>(cpu: Cpu, bus: &B, dst: Reg8, src: Reg8)
    requires
        cpu.ctx.step == 0,
    ensures
        ({
            let first = cpu.ld_spec(bus, Loc8::Reg(dst), Src8::Loc(Loc8::Reg(src)));
            let second = first.cpu.ld_spec(bus, Loc8::Reg(dst), Src8::Loc(Loc8::Reg(src)));
            let third = second.cpu.ld_spec(bus, Loc8::Reg(dst), Src8::Loc(Loc8::Reg(src)));
            &&& first.store is None && second.store is None && third.store is None
            &&& first.cpu.still_in(cpu) && second.cpu.still_in(cpu)
            &&& third.cpu == cpu.retired(cpu.regs.with8(dst, cpu.regs.get8(src)), bus)
        }),
{
}

/// A load of the immediate byte into a register takes four calls: one to
/// read the byte at `pc`, one to take it over, one to write the register and
/// one to fetch, from the address after the immediate.
pub proof fn lemma_ld_immediate<B: Bus>(cpu: Cpu, bus: &B, dst: Reg8)
    requires
        !cpu.ctx.in_flight(),
    ensures
        ({
            let first = cpu.ld_spec(bus, Loc8::Reg(dst), Src8::Imm);
            let second = first.cpu.ld_spec(bus, Loc8::Reg(dst), Src8::Imm);
            let third = second.cpu.ld_spec(bus, Loc8::Reg(dst), Src8::Imm);
            let fourth = third.cpu.ld_spec(bus, Loc8::Reg(dst), Src8::Imm);
            &&& first.store is None && second.store is None && third.store is None
                && fourth.store is None
            &&& first.cpu.still_in(cpu) && second.cpu.still_in(cpu) && third.cpu.still_in(cpu)
            &&& fourth.cpu == cpu.retired(
                cpu.past_byte().regs.with8(dst, bus.peek(cpu.regs.pc)),
                bus,
            )
        }),
{
}

/// A load into a register from memory whose address needs no immediate takes
/// four calls: the bus access, the call that takes the byte over, the write
/// of the register and the fetch. Until the fourth call the opcode of the
/// load stays latched.
pub proof fn lemma_ld_from_memory<B: Bus>(cpu: Cpu, bus: &B, dst: Reg8, m: Mem)
    requires
        !cpu.ctx.in_flight(),
        m !is Direct,
    ensures
        ({
            let src = Src8::Loc(Loc8::Mem(m));
            let first = cpu.ld_spec(bus, Loc8::Reg(dst), src);
            let second = first.cpu.ld_spec(bus, Loc8::Reg(dst), src);
            let third = second.cpu.ld_spec(bus, Loc8::Reg(dst), src);
            let fourth = third.cpu.ld_spec(bus, Loc8::Reg(dst), src);
            &&& first.store is None && second.store is None && third.store is None
                && fourth.store is None
            &&& first.cpu.still_in(cpu) && second.cpu.still_in(cpu) && third.cpu.still_in(cpu)
            &&& fourth.cpu == cpu.retired(cpu.regs.with8(dst, bus.peek(cpu.mem_addr(m))), bus)
        }),
{
}

/// A load into a register from the address given by the 16-bit immediate
/// takes six calls: two collect the address, low byte first, and four load
/// as from any other memory.
pub proof fn lemma_ld_from_direct<B: Bus>(cpu: Cpu, bus: &B, dst: Reg8)
    requires
        !cpu.ctx.in_flight(),
    ensures
        ({
            let src = Src8::Loc(Loc8::Mem(Mem::Direct));
            let first = cpu.ld_spec(bus, Loc8::Reg(dst), src);
            let second = first.cpu.ld_spec(bus, Loc8::Reg(dst), src);
            let third = second.cpu.ld_spec(bus, Loc8::Reg(dst), src);
            let fourth = third.cpu.ld_spec(bus, Loc8::Reg(dst), src);
            let fifth = fourth.cpu.ld_spec(bus, Loc8::Reg(dst), src);
            let sixth = fifth.cpu.ld_spec(bus, Loc8::Reg(dst), src);
            let addr = pair(bus.peek(cpu.regs.pc.wrapping_add(1)), bus.peek(cpu.regs.pc));
            &&& first.store is None && second.store is None && third.store is None
                && fourth.store is None && fifth.store is None && sixth.store is None
            &&& first.cpu.still_in(cpu) && second.cpu.still_in(cpu) && third.cpu.still_in(cpu)
                && fourth.cpu.still_in(cpu) && fifth.cpu.still_in(cpu)
            &&& sixth.cpu == cpu.retired(
                cpu.past_byte().past_byte().regs.with8(dst, bus.peek(addr)),
                bus,
            )
        }),
{
}

/// A load from a register into memory whose address needs no immediate takes
/// four calls. The second puts the register's value on the bus, at the
/// operand's address; the fourth fetches from the bus as the store left it.
pub proof fn lemma_ld_to_memory<B: Bus>(cpu: Cpu, bus: &B, after: &B, m: Mem, src: Reg8)
    requires
        !cpu.ctx.in_flight(),
        m !is Direct,
    ensures
        ({
            let dst = Loc8::Mem(m);
            let first = cpu.ld_spec(bus, dst, Src8::Loc(Loc8::Reg(src)));
            let second = first.cpu.ld_spec(bus, dst, Src8::Loc(Loc8::Reg(src)));
            let third = second.cpu.ld_spec(after, dst, Src8::Loc(Loc8::Reg(src)));
            let fourth = third.cpu.ld_spec(after, dst, Src8::Loc(Loc8::Reg(src)));
            &&& first.store is None && third.store is None && fourth.store is None
            &&& second.store == Some(Store { addr: cpu.mem_addr(m), val: cpu.regs.get8(src) })
            &&& first.cpu.still_in(cpu) && second.cpu.still_in(cpu) && third.cpu.still_in(cpu)
            &&& fourth.cpu == cpu.retired(cpu.regs, after)
        }),
{
}

/// A 16-bit load from register to register takes three calls, and stores
/// nothing.
pub proof fn lemma_ld16_registers<B: Bus>(cpu: Cpu, bus: &B, dst: Reg16, src: Reg16)
    requires
        cpu.ctx.step == 0,
    ensures
        ({
            let first = cpu.ld16_spec(bus, Loc16::Reg(dst), Src16::Loc(Loc16::Reg(src)));
            let second = first.cpu.ld16_spec(bus, Loc16::Reg(dst), Src16::Loc(Loc16::Reg(src)));
            let third = second.cpu.ld16_spec(bus, Loc16::Reg(dst), Src16::Loc(Loc16::Reg(src)));
            &&& first.store is None && second.store is None && third.store is None
            &&& first.cpu.still_in(cpu) && second.cpu.still_in(cpu)
            &&& third.cpu == cpu.retired(cpu.regs.with16(dst, cpu.regs.get16(src)), bus)
        }),
{
}

/// A load of the 16-bit immediate into a register takes five calls: two
/// collect the word, low byte first, one takes it over, one writes the
/// register and one fetches, from the address after the immediate.
pub proof fn lemma_ld16_immediate<B: Bus>(cpu: Cpu, bus: &B, dst: Reg16)
    requires
        !cpu.ctx.in_flight(),
    ensures
        ({
            let first = cpu.ld16_spec(bus, Loc16::Reg(dst), Src16::Imm);
            let second = first.cpu.ld16_spec(bus, Loc16::Reg(dst), Src16::Imm);
            let third = second.cpu.ld16_spec(bus, Loc16::Reg(dst), Src16::Imm);
            let fourth = third.cpu.ld16_spec(bus, Loc16::Reg(dst), Src16::Imm);
            let fifth = fourth.cpu.ld16_spec(bus, Loc16::Reg(dst), Src16::Imm);
            let word = pair(bus.peek(cpu.regs.pc.wrapping_add(1)), bus.peek(cpu.regs.pc));
            &&& first.store is None && second.store is None && third.store is None
                && fourth.store is None && fifth.store is None
            &&& first.cpu.still_in(cpu) && second.cpu.still_in(cpu) && third.cpu.still_in(cpu)
                && fourth.cpu.still_in(cpu)
            &&& fifth.cpu == cpu.retired(
                cpu.past_byte().past_byte().regs.with16(dst, word),
                bus,
            )
        }),
{
}

/// An increment of a register takes two calls: the first sets the flags, the
/// second has the register one up, wrapping, and the next opcode fetched.
pub proof fn lemma_inc_register<B: Bus>(cpu: Cpu, bus: &B, r: Reg8)
    requires
        cpu.ctx.step == 0,
    ensures
        ({
            let x = cpu.regs.get8(r);
            let first = cpu.inc_spec(bus, Loc8::Reg(r));
            let second = first.cpu.inc_spec(bus, Loc8::Reg(r));
            &&& first.store is None && second.store is None
            &&& first.cpu.still_in(cpu)
            &&& second.cpu == cpu.retired(cpu.regs.incremented(x).with8(r, x.wrapping_add(1)), bus)
            &&& second.cpu.regs.get8(r) == (x + 1) % 256
            &&& second.cpu.regs.zf() == ((x + 1) % 256 == 0)
        }),
{
    lemma_incremented(cpu.regs, cpu.regs.get8(r));
}

/// A decrement of a register takes two calls: the first sets the flags, the
/// second has the register one down, wrapping, and the next opcode fetched.
pub proof fn lemma_dec_register<B: Bus>(cpu: Cpu, bus: &B, r: Reg8)
    requires
        cpu.ctx.step == 0,
    ensures
        ({
            let x = cpu.regs.get8(r);
            let first = cpu.dec_spec(bus, Loc8::Reg(r));
            let second = first.cpu.dec_spec(bus, Loc8::Reg(r));
            &&& first.store is None && second.store is None
            &&& first.cpu.still_in(cpu)
            &&& second.cpu == cpu.retired(cpu.regs.decremented(x).with8(r, x.wrapping_sub(1)), bus)
            &&& second.cpu.regs.get8(r) == (x - 1) % 256
            &&& second.cpu.regs.zf() == (x == 1)
        }),
{
    lemma_decremented(cpu.regs, cpu.regs.get8(r));
}

/// An increment of a register followed by a decrement of the same register
/// leaves the register as it was, and the zero flag between the two tells
/// whether the increment wrapped to zero.
pub proof fn lemma_inc_then_dec_register<B: Bus>(cpu: Cpu, bus: &B, r: Reg8)
    requires
        cpu.ctx.step == 0,
    ensures
        ({
            let x = cpu.regs.get8(r);
            let up = cpu.inc_spec(bus, Loc8::Reg(r)).cpu.inc_spec(bus, Loc8::Reg(r)).cpu;
            let down = up.dec_spec(bus, Loc8::Reg(r)).cpu.dec_spec(bus, Loc8::Reg(r)).cpu;
            &&& up.regs.zf() == ((x + 1) % 256 == 0)
            &&& down.regs.get8(r) == x
        }),
{
    lemma_inc_register(cpu, bus, r);
    let up = cpu.inc_spec(bus, Loc8::Reg(r)).cpu.inc_spec(bus, Loc8::Reg(r)).cpu;
    lemma_dec_register(up, bus, r);
}

/// A 16-bit increment of a register takes three calls and changes no flag,
/// unless the register is the pair that holds the flags.
pub proof fn lemma_inc16_register<B: Bus>(cpu: Cpu, bus: &B, r: Reg16)
    requires
        cpu.ctx.step == 0,
    ensures
        ({
            let first = cpu.inc16_spec(bus, Loc16::Reg(r));
            let second = first.cpu.inc16_spec(bus, Loc16::Reg(r));
            let third = second.cpu.inc16_spec(bus, Loc16::Reg(r));
            &&& first.store is None && second.store is None && third.store is None
            &&& first.cpu.still_in(cpu) && second.cpu.still_in(cpu)
            &&& third.cpu == cpu.retired(
                cpu.regs.with16(r, cpu.regs.get16(r).wrapping_add(1)),
                bus,
            )
            &&& r != Reg16::AF ==> third.cpu.regs.f == cpu.regs.f
        }),
{
}

/// A 16-bit decrement of a register takes three calls and changes no flag,
/// unless the register is the pair that holds the flags.
pub proof fn lemma_dec16_register<B: Bus>(cpu: Cpu, bus: &B, r: Reg16)
    requires
        cpu.ctx.step == 0,
    ensures
        ({
            let first = cpu.dec16_spec(bus, Loc16::Reg(r));
            let second = first.cpu.dec16_spec(bus, Loc16::Reg(r));
            let third = second.cpu.dec16_spec(bus, Loc16::Reg(r));
            &&& first.store is None && second.store is None && third.store is None
            &&& first.cpu.still_in(cpu) && second.cpu.still_in(cpu)
            &&& third.cpu == cpu.retired(
                cpu.regs.with16(r, cpu.regs.get16(r).wrapping_sub(1)),
                bus,
            )
            &&& r != Reg16::AF ==> third.cpu.regs.f == cpu.regs.f
        }),
{
}

/// A rotation of a register takes two calls: the old carry comes in as bit
/// 0, bit 7 becomes the new carry, and the zero flag tells whether the
/// result is zero.
pub proof fn lemma_rl_register<B: Bus>(cpu: Cpu, bus: &B, r: Reg8)
    requires
        cpu.ctx.step == 0,
    ensures
        ({
            let x = cpu.regs.get8(r);
            let first = cpu.rl_spec(bus, Loc8::Reg(r));
            let second = first.cpu.rl_spec(bus, Loc8::Reg(r));
            &&& first.store is None && second.store is None
            &&& first.cpu.still_in(cpu)
            &&& second.cpu == cpu.retired(
                cpu.regs.rotated_left(x).with8(r, rotated(x, cpu.regs.cf())),
                bus,
            )
            &&& second.cpu.regs.get8(r) == rotated(x, cpu.regs.cf())
            &&& second.cpu.regs.cf() == (x >= 128)
            &&& second.cpu.regs.zf() == (rotated(x, cpu.regs.cf()) == 0)
        }),
{
    lemma_rotated_left(cpu.regs, cpu.regs.get8(r));
}

/// Pushing a word takes four calls of `push16`: an internal cycle, the high
/// byte at one below the stack pointer, the low byte at two below it, and the
/// call that reports completion. The stack pointer ends two lower, wrapping.
pub proof fn lemma_push16(cpu: Cpu, val: u16)
    requires
        cpu.ctx.inner.step == 0,
    ensures
        ({
            let first = cpu.push16_spec(val);
            let second = first.cpu.push16_spec(val);
            let third = second.cpu.push16_spec(val);
            let fourth = third.cpu.push16_spec(val);
            &&& first.out is None && second.out is None && third.out is None
            &&& fourth.out is Some
            &&& first.store is None && fourth.store is None
            &&& second.store == Some(
                Store { addr: cpu.regs.sp.wrapping_sub(1), val: high_byte(val) },
            )
            &&& third.store == Some(Store { addr: cpu.regs.sp.wrapping_sub(2), val: low_byte(val) })
            &&& fourth.cpu.regs == (Registers { sp: cpu.regs.sp.wrapping_sub(2), ..cpu.regs })
            &&& fourth.cpu.ctx.inner.step == 0
        }),
{
}

/// Pushing a 16-bit register takes five calls of `push`: one takes the
/// register's value, four run `push16` on it, and the last of these fetches
/// from the bus as the two stores left it.
pub proof fn lemma_push<B: Bus>(cpu: Cpu, bus: &B, after: &B, src: Reg16)
    requires
        !cpu.ctx.in_flight(),
    ensures
        ({
            let val = cpu.regs.get16(src);
            let first = cpu.push_spec(bus, src);
            let second = first.cpu.push_spec(bus, src);
            let third = second.cpu.push_spec(bus, src);
            let fourth = third.cpu.push_spec(bus, src);
            let fifth = fourth.cpu.push_spec(after, src);
            &&& first.store is None && second.store is None && fifth.store is None
            &&& third.store == Some(
                Store { addr: cpu.regs.sp.wrapping_sub(1), val: high_byte(val) },
            )
            &&& fourth.store == Some(
                Store { addr: cpu.regs.sp.wrapping_sub(2), val: low_byte(val) },
            )
            &&& first.cpu.still_in(cpu) && second.cpu.still_in(cpu) && third.cpu.still_in(cpu)
                && fourth.cpu.still_in(cpu)
            &&& fifth.cpu == cpu.retired(
                Registers { sp: cpu.regs.sp.wrapping_sub(2), ..cpu.regs },
                after,
            )
        }),
{
}

} // verus!
