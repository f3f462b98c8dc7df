//! The processor: its registers, its execution context, the opcode fetch and
//! the dispatcher that is driven once per machine cycle.

use vstd::prelude::*;
use crate::bus::Bus;
use crate::registers::Registers;

verus! {

/// Where a stepped routine stands, and what it carries from one step to the
/// next.
#[derive(Clone, Copy, Debug, PartialEq, Eq, Structural)]
pub struct Cursor {
    /// The next step of the routine, 0 while it is at rest.
    pub step: u8,
    /// A byte that the routine carries between its steps.
    pub scratch8: u8,
    /// A word that the routine carries between its steps.
    pub scratch16: u16,
}

/// The state of the instruction in flight. A fetch replaces all of it.
#[derive(Clone, Copy, Debug, PartialEq, Eq, Structural)]
pub struct Ctx {
    /// The byte last fetched.
    pub opcode: u8,
    /// Whether `opcode` belongs to the extended instruction table.
    pub prefixed: bool,
    /// The next step of the instruction's handler.
    pub step: u8,
    /// A byte that the handler carries between its steps.
    pub scratch8: u8,
    /// A word that the handler carries between its steps.
    pub scratch16: u16,
    /// The cursor of the routine that the handler's current step waits for:
    /// an operand access or a stack push.
    pub inner: Cursor,
}

/// A byte put on the bus: where, and what.
pub struct Store {
    pub addr: u16,
    pub val: u8,
}

/// What one call of a stepped routine does: the processor it leaves, the
/// byte it puts on the bus if any, and what it hands back.
pub struct Effect<T> {
    pub cpu: Cpu,
    pub store: Option<Store>,
    pub out: T,
}

/// Whether `after` is `before` with `store` carried out, or `before` itself
/// where there is nothing to store.
pub open spec fn carried<B: Bus>(store: Option<Store>, before: &B, after: &B) -> bool {
    match store {
        Some(s) => before.written(s.addr, s.val, after),
        None => *after == *before,
    }
}

/// An opcode that no handler is registered for, and the program counter at
/// the time it was dispatched.
#[derive(Clone, Copy, Debug, PartialEq, Eq, Structural)]
pub struct Fault {
    pub opcode: u8,
    pub pc: u16,
}

/// The processor. It owns its registers and the context of the instruction
/// in flight, and shares neither with any other processor.
#[derive(Clone, Copy, Debug, PartialEq, Eq, Structural)]
pub struct Cpu {
    /// The register file.
    pub regs: Registers,
    /// The execution context.
    pub ctx: Ctx,
}

impl<T> Effect<T> {
    /// The effect of a call that leaves `cpu`, stores nothing and hands back
    /// `out`.
    pub open spec fn quiet(cpu: Cpu, out: T) -> Effect<T> {
        Effect { cpu, store: None, out }
    }
}

impl Cursor {
    /// A cursor at rest.
    pub open spec fn idle() -> Cursor {
        Cursor { step: 0, scratch8: 0, scratch16: 0 }
    }
}

impl Ctx {
    /// The context right after `opcode` was fetched: nothing of the previous
    /// instruction is left in it.
    pub open spec fn fetched(opcode: u8) -> Ctx {
        Ctx { opcode, prefixed: false, step: 0, scratch8: 0, scratch16: 0, inner: Cursor::idle() }
    }

    /// Whether an instruction has started and not yet fetched its successor.
    pub open spec fn in_flight(&self) -> bool {
        self.step != 0 || self.inner.step != 0
    }
}

impl Cpu {
    /// The flag byte's reserved nibble is zero.
    pub open spec fn wf(&self) -> bool {
        self.regs.wf()
    }

    /// This processor with the program counter moved by one, wrapping.
    pub open spec fn past_byte(self) -> Cpu {
        Cpu { regs: Registers { pc: self.regs.pc.wrapping_add(1), ..self.regs }, ..self }
    }

    /// This processor with its handler at `step`.
    pub open spec fn at_step(self, step: u8) -> Cpu {
        Cpu { ctx: Ctx { step, ..self.ctx }, ..self }
    }

    /// This processor with `val` in the handler's byte scratch.
    pub open spec fn keeping8(self, val: u8) -> Cpu {
        Cpu { ctx: Ctx { scratch8: val, ..self.ctx }, ..self }
    }

    /// This processor with `val` in the handler's word scratch.
    pub open spec fn keeping16(self, val: u16) -> Cpu {
        Cpu { ctx: Ctx { scratch16: val, ..self.ctx }, ..self }
    }

    /// This processor with its inner cursor replaced.
    pub open spec fn with_inner(self, inner: Cursor) -> Cpu {
        Cpu { ctx: Ctx { inner, ..self.ctx }, ..self }
    }

    /// This processor once `opcode` has been fetched from the byte at `pc`.
    pub open spec fn after_fetch(self, opcode: u8) -> Cpu {
        Cpu { regs: self.past_byte().regs, ctx: Ctx::fetched(opcode) }
    }

    /// Whether a handler is registered for `opcode` in the plain table
    /// (`prefixed` false) or in the extended one. The no-operation, opcode
    /// zero of the plain table, is the only one.
    pub open spec fn mapped(opcode: u8, prefixed: bool) -> bool {
        opcode == 0 && !prefixed
    }

    /// Whether this processor still holds the instruction that `before`
    /// held: the opcode latch is as it was, and the context is not the one
    /// that a fetch leaves.
    pub open spec fn still_in(self, before: Cpu) -> bool {
        &&& self.ctx.in_flight()
        &&& self.ctx.opcode == before.ctx.opcode
        &&& self.ctx.prefixed == before.ctx.prefixed
    }

    /// A processor at power-on: every register zero, the context as after
    /// the fetch of opcode zero.
    pub fn new() -> (cpu: Cpu)
        ensures
            cpu.regs == Registers::zeroed(),
            cpu.ctx == Ctx::fetched(0),
            cpu.wf(),
    {
        Cpu {
            regs: Registers::new(),
            ctx: Ctx {
                opcode: 0,
                prefixed: false,
                step: 0,
                scratch8: 0,
                scratch16: 0,
                inner: Cursor { step: 0, scratch8: 0, scratch16: 0 },
            },
        }
    }

    /// A copy of the registers.
    pub fn snapshot_registers(&self) -> (regs: Registers)
        ensures
            regs == self.regs,
    {
        self.regs
    }

    /// Reads the byte at `pc` and moves `pc` past it.
    pub fn next_byte<B: Bus>(&mut self, bus: &B) -> (val: u8)
        ensures
            val == bus.peek(old(self).regs.pc),
            *final(self) == old(self).past_byte(),
    {
        let val: u8 = bus.read(self.regs.pc);
        self.regs.pc = self.regs.pc.wrapping_add(1);
        val
    }

    /// Latches the opcode at `pc`, moves `pc` past it and resets the context.
    pub fn fetch<B: Bus>(&mut self, bus: &B)
        ensures
            *final(self) == old(self).after_fetch(bus.peek(old(self).regs.pc)),
            old(self).wf() ==> final(self).wf(),
    {
        let opcode: u8 = self.next_byte(bus);
        self.ctx = Ctx {
            opcode,
            prefixed: false,
            step: 0,
            scratch8: 0,
            scratch16: 0,
            inner: Cursor { step: 0, scratch8: 0, scratch16: 0 },
        };
    }

    /// Runs one step of the handler registered for the latched opcode. An
    /// opcode without a handler is a fault, and leaves everything as it was.
    pub fn decode<B: Bus>(&mut self, bus: &mut B) -> (res: Result<(), Fault>)
        ensures
            res is Ok <==> Cpu::mapped(old(self).ctx.opcode, old(self).ctx.prefixed),
            res is Ok ==> *final(self) == old(self).after_fetch(old(bus).peek(old(self).regs.pc)),
            res matches Err(fault) ==> {
                &&& fault == (Fault { opcode: old(self).ctx.opcode, pc: old(self).regs.pc })
                &&& *final(self) == *old(self)
            },
            *final(bus) == *old(bus),
            old(self).wf() ==> final(self).wf(),
    {
        if self.ctx.prefixed {
            Err(Fault { opcode: self.ctx.opcode, pc: self.regs.pc })
        } else {
            match self.ctx.opcode {
                0x00 => {
                    self.nop(bus);
                    Ok(())
                },
                _ => Err(Fault { opcode: self.ctx.opcode, pc: self.regs.pc }),
            }
        }
    }

    /// Advances the processor by one machine cycle: one step of the
    /// instruction in flight, or a fault where its opcode has no handler.
    pub fn emulate_cycle<B: Bus>(&mut self, bus: &mut B) -> (res: Result<(), Fault>)
        ensures
            res is Ok <==> Cpu::mapped(old(self).ctx.opcode, old(self).ctx.prefixed),
            res is Ok ==> *final(self) == old(self).after_fetch(old(bus).peek(old(self).regs.pc)),
            res matches Err(fault) ==> {
                &&& fault == (Fault { opcode: old(self).ctx.opcode, pc: old(self).regs.pc })
                &&& *final(self) == *old(self)
            },
            *final(bus) == *old(bus),
            old(self).wf() ==> final(self).wf(),
    {
        self.decode(bus)
    }
}

} // verus!
