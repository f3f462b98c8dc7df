//! Operand descriptors, and the resolver that reads and writes what they
//! name. A register answers at once; memory and immediates take bus cycles,
//! one access per call, and answer in the call after the last access.

use vstd::prelude::*;
use crate::bus::Bus;
use crate::cpu::{carried, Cpu, Cursor, Effect, Store};
use crate::registers::{high_byte, join, low_byte, pair, split, Registers, RESERVED};

verus! {

/// An 8-bit register.
#[derive(Clone, Copy, Debug, PartialEq, Eq, Structural)]
pub enum Reg8 {
    A,
    B,
    C,
    D,
    E,
    H,
    L,
}

/// A 16-bit register: a composite pair, or the stack pointer.
#[derive(Clone, Copy, Debug, PartialEq, Eq, Structural)]
pub enum Reg16 {
    AF,
    BC,
    DE,
    HL,
    SP,
}

/// A place in memory, named by where its address comes from.
#[derive(Clone, Copy, Debug, PartialEq, Eq, Structural)]
pub enum Mem {
    /// The address is the value of a 16-bit register.
    Indirect(Reg16),
    /// The address is the 16-bit immediate that follows the opcode, low byte
    /// first.
    Direct,
    /// The address is the stack pointer plus a signed displacement, wrapping.
    Stack(i8),
}

/// An 8-bit location: it can be read and written.
#[derive(Clone, Copy, Debug, PartialEq, Eq, Structural)]
pub enum Loc8 {
    /// A register, reached without the bus.
    Reg(Reg8),
    /// A byte in memory.
    Mem(Mem),
}

/// Where an 8-bit value comes from: a location, or the byte that follows the
/// opcode.
#[derive(Clone, Copy, Debug, PartialEq, Eq, Structural)]
pub enum Src8 {
    /// The byte in a location.
    Loc(Loc8),
    /// The byte at `pc`.
    Imm,
}

/// A 16-bit location: it can be read and written. In memory the low byte
/// lies at the address and the high byte one above it.
#[derive(Clone, Copy, Debug, PartialEq, Eq, Structural)]
pub enum Loc16 {
    /// A register, reached without the bus.
    Reg(Reg16),
    /// Two bytes in memory.
    Mem(Mem),
}

/// Where a 16-bit value comes from: a location, or the two bytes that follow
/// the opcode, low byte first.
#[derive(Clone, Copy, Debug, PartialEq, Eq, Structural)]
pub enum Src16 {
    /// The word in a location.
    Loc(Loc16),
    /// The two bytes at `pc`.
    Imm,
}

impl Mem {
    /// The number of immediate bytes to collect before the address is known.
    #[verifier::allow_in_spec]
    pub fn lead(self) -> u8
        returns
            (if self is Direct {
                2u8
            } else {
                0u8
            }),
    {
        match self {
            Mem::Direct => 2,
            _ => 0,
        }
    }
}

impl Registers {
    /// The value of an 8-bit register.
    #[verifier::allow_in_spec]
    pub fn get8(&self, r: Reg8) -> u8
        returns
            (match r {
                Reg8::A => self.a,
                Reg8::B => self.b,
                Reg8::C => self.c,
                Reg8::D => self.d,
                Reg8::E => self.e,
                Reg8::H => self.h,
                Reg8::L => self.l,
            }),
    {
        match r {
            Reg8::A => self.a,
            Reg8::B => self.b,
            Reg8::C => self.c,
            Reg8::D => self.d,
            Reg8::E => self.e,
            Reg8::H => self.h,
            Reg8::L => self.l,
        }
    }

    /// The value of a 16-bit register.
    #[verifier::allow_in_spec]
    pub fn get16(&self, r: Reg16) -> u16
        returns
            (match r {
                Reg16::AF => self.af(),
                Reg16::BC => self.bc(),
                Reg16::DE => self.de(),
                Reg16::HL => self.hl(),
                Reg16::SP => self.sp,
            }),
    {
        match r {
            Reg16::AF => self.af(),
            Reg16::BC => self.bc(),
            Reg16::DE => self.de(),
            Reg16::HL => self.hl(),
            Reg16::SP => self.sp,
        }
    }

    /// These registers with `val` in the 8-bit register `r`.
    pub open spec fn with8(self, r: Reg8, val: u8) -> Registers {
        match r {
            Reg8::A => Registers { a: val, ..self },
            Reg8::B => Registers { b: val, ..self },
            Reg8::C => Registers { c: val, ..self },
            Reg8::D => Registers { d: val, ..self },
            Reg8::E => Registers { e: val, ..self },
            Reg8::H => Registers { h: val, ..self },
            Reg8::L => Registers { l: val, ..self },
        }
    }

    /// These registers with `val` in the 16-bit register `r`: the high byte
    /// in the pair's first half, the low byte in its second. The flag byte
    /// takes the low byte without its reserved nibble.
    pub open spec fn with16(self, r: Reg16, val: u16) -> Registers {
        match r {
            Reg16::AF => Registers { a: high_byte(val), f: low_byte(val) & !RESERVED, ..self },
            Reg16::BC => Registers { b: high_byte(val), c: low_byte(val), ..self },
            Reg16::DE => Registers { d: high_byte(val), e: low_byte(val), ..self },
            Reg16::HL => Registers { h: high_byte(val), l: low_byte(val), ..self },
            Reg16::SP => Registers { sp: val, ..self },
        }
    }

    /// Puts `val` in the 8-bit register `r`.
    pub fn set8(&mut self, r: Reg8, val: u8)
        ensures
            *final(self) == old(self).with8(r, val),
            final(self).get8(r) == val,
            old(self).wf() ==> final(self).wf(),
    {
        match r {
            Reg8::A => self.a = val,
            Reg8::B => self.b = val,
            Reg8::C => self.c = val,
            Reg8::D => self.d = val,
            Reg8::E => self.e = val,
            Reg8::H => self.h = val,
            Reg8::L => self.l = val,
        }
    }

    /// Puts `val` in the 16-bit register `r`, through its two halves.
    fn set16(&mut self, r: Reg16, val: u16)
        ensures
            *final(self) == old(self).with16(r, val),
            r != Reg16::AF ==> final(self).get16(r) == val,
            old(self).wf() ==> final(self).wf(),
    {
        let (hi, lo) = split(val);
        assert((lo & !RESERVED) & RESERVED == 0) by (bit_vector);
        match r {
            Reg16::AF => {
                self.a = hi;
                self.f = lo & !RESERVED;
            },
            Reg16::BC => {
                self.b = hi;
                self.c = lo;
            },
            Reg16::DE => {
                self.d = hi;
                self.e = lo;
            },
            Reg16::HL => {
                self.h = hi;
                self.l = lo;
            },
            Reg16::SP => self.sp = val,
        }
    }
}

impl Cpu {
    /// The address of a memory operand. For `Direct` it is known only once
    /// the inner cursor has collected it.
    #[verifier::allow_in_spec]
    pub fn mem_addr(&self, m: Mem) -> u16
        returns
            (match m {
                Mem::Indirect(r) => self.regs.get16(r),
                Mem::Direct => self.ctx.inner.scratch16,
                Mem::Stack(d) => self.regs.sp.wrapping_add_signed(d as i16),
            }),
    {
        match m {
            Mem::Indirect(r) => self.regs.get16(r),
            Mem::Direct => self.ctx.inner.scratch16,
            Mem::Stack(d) => self.regs.sp.wrapping_add_signed(d as i16),
        }
    }

    /// One call that collects an immediate byte on the inner cursor: at step
    /// 0 the low byte, at any other step the high byte, which completes the
    /// word.
    pub open spec fn collect_spec<B: Bus>(self, bus: &B) -> Cpu {
        let inner = self.ctx.inner;
        let byte = bus.peek(self.regs.pc);
        if inner.step == 0 {
            self.past_byte().with_inner(Cursor { step: 1, scratch8: byte, ..inner })
        } else {
            self.past_byte().with_inner(
                Cursor { step: 2, scratch16: pair(byte, inner.scratch8), ..inner },
            )
        }
    }

    /// One call of `read8`. A register answers at once and changes nothing.
    /// The immediate byte is read in one call and handed back in the next.
    /// Memory first collects the bytes of its address, where it has any to
    /// collect, then is read in one call and hands the byte back in the
    /// next. A cursor beyond the last of these steps stays where it is.
    pub open spec fn read8_spec<B: Bus>(self, bus: &B, src: Src8) -> Effect<Option<u8>> {
        let inner = self.ctx.inner;
        match src {
            Src8::Loc(Loc8::Reg(r)) => Effect::quiet(self, Some(self.regs.get8(r))),
            Src8::Imm => if inner.step == 0 {
                Effect::quiet(self.collect_spec(bus), None)
            } else if inner.step == 1 {
                Effect::quiet(self.with_inner(Cursor { step: 0, ..inner }), Some(inner.scratch8))
            } else {
                Effect::quiet(self, None)
            },
            Src8::Loc(Loc8::Mem(m)) => if inner.step < m.lead() {
                Effect::quiet(self.collect_spec(bus), None)
            } else if inner.step == m.lead() {
                Effect::quiet(
                    self.with_inner(
                        Cursor {
                            step: (m.lead() + 1) as u8,
                            scratch8: bus.peek(self.mem_addr(m)),
                            ..inner
                        },
                    ),
                    None,
                )
            } else if inner.step == m.lead() + 1 {
                Effect::quiet(self.with_inner(Cursor { step: 0, ..inner }), Some(inner.scratch8))
            } else {
                Effect::quiet(self, None)
            },
        }
    }

    /// One call of `write8`. A register is written at once. Memory first
    /// collects the bytes of its address, where it has any to collect, then
    /// takes the store in one call and reports completion in the next.
    pub open spec fn write8_spec<B: Bus>(self, bus: &B, dst: Loc8, val: u8) -> Effect<Option<()>> {
        let inner = self.ctx.inner;
        match dst {
            Loc8::Reg(r) => Effect::quiet(Cpu { regs: self.regs.with8(r, val), ..self }, Some(())),
            Loc8::Mem(m) => if inner.step < m.lead() {
                Effect::quiet(self.collect_spec(bus), None)
            } else if inner.step == m.lead() {
                Effect {
                    cpu: self.with_inner(Cursor { step: (m.lead() + 1) as u8, ..inner }),
                    store: Some(Store { addr: self.mem_addr(m), val }),
                    out: None,
                }
            } else if inner.step == m.lead() + 1 {
                Effect::quiet(self.with_inner(Cursor { step: 0, ..inner }), Some(()))
            } else {
                Effect::quiet(self, None)
            },
        }
    }

    /// One call of `read16`. A register answers at once. The immediate word
    /// is collected in two calls and handed back in the third. Memory first
    /// collects the bytes of its address, where it has any to collect, then
    /// is read low byte first, one byte a call, and hands the word back in
    /// the call after.
    pub open spec fn read16_spec<B: Bus>(self, bus: &B, src: Src16) -> Effect<Option<u16>> {
        let inner = self.ctx.inner;
        match src {
            Src16::Loc(Loc16::Reg(r)) => Effect::quiet(self, Some(self.regs.get16(r))),
            Src16::Imm => if inner.step < 2 {
                Effect::quiet(self.collect_spec(bus), None)
            } else if inner.step == 2 {
                Effect::quiet(self.with_inner(Cursor { step: 0, ..inner }), Some(inner.scratch16))
            } else {
                Effect::quiet(self, None)
            },
            Src16::Loc(Loc16::Mem(m)) => if inner.step < m.lead() {
                Effect::quiet(self.collect_spec(bus), None)
            } else if inner.step == m.lead() {
                Effect::quiet(
                    self.with_inner(
                        Cursor {
                            step: (m.lead() + 1) as u8,
                            scratch8: bus.peek(self.mem_addr(m)),
                            ..inner
                        },
                    ),
                    None,
                )
            } else if inner.step == m.lead() + 1 {
                Effect::quiet(
                    self.with_inner(
                        Cursor {
                            step: (m.lead() + 2) as u8,
                            scratch16: pair(
                                bus.peek(self.mem_addr(m).wrapping_add(1)),
                                inner.scratch8,
                            ),
                            ..inner
                        },
                    ),
                    None,
                )
            } else if inner.step == m.lead() + 2 {
                Effect::quiet(self.with_inner(Cursor { step: 0, ..inner }), Some(inner.scratch16))
            } else {
                Effect::quiet(self, None)
            },
        }
    }

    /// One call of `write16`. A register is written at once. Memory first
    /// collects the bytes of its address, where it has any to collect, then
    /// takes the low byte and the high byte, one store a call, and reports
    /// completion in the call after.
    pub open spec fn write16_spec<B: Bus>(self, bus: &B, dst: Loc16, val: u16) -> Effect<
        Option<()>,
    > {
        let inner = self.ctx.inner;
        match dst {
            Loc16::Reg(r) => Effect::quiet(Cpu { regs: self.regs.with16(r, val), ..self }, Some(())),
            Loc16::Mem(m) => if inner.step < m.lead() {
                Effect::quiet(self.collect_spec(bus), None)
            } else if inner.step == m.lead() {
                Effect {
                    cpu: self.with_inner(Cursor { step: (m.lead() + 1) as u8, ..inner }),
                    store: Some(Store { addr: self.mem_addr(m), val: low_byte(val) }),
                    out: None,
                }
            } else if inner.step == m.lead() + 1 {
                Effect {
                    cpu: self.with_inner(Cursor { step: (m.lead() + 2) as u8, ..inner }),
                    store: Some(
                        Store { addr: self.mem_addr(m).wrapping_add(1), val: high_byte(val) },
                    ),
                    out: None,
                }
            } else if inner.step == m.lead() + 2 {
                Effect::quiet(self.with_inner(Cursor { step: 0, ..inner }), Some(()))
            } else {
                Effect::quiet(self, None)
            },
        }
    }

    /// Collects one immediate byte of a word on the inner cursor.
    fn collect<B: Bus>(&mut self, bus: &B)
        ensures
            *final(self) == old(self).collect_spec(bus),
    {
        let byte: u8 = self.next_byte(bus);
        if self.ctx.inner.step == 0 {
            self.ctx.inner.scratch8 = byte;
            self.ctx.inner.step = 1;
        } else {
            self.ctx.inner.scratch16 = join(byte, self.ctx.inner.scratch8);
            self.ctx.inner.step = 2;
        }
    }

    /// Runs one step of reading the 8-bit operand `src`, and hands back its
    /// value once it is there.
    pub fn read8<B: Bus>(&mut self, bus: &B, src: Src8) -> (val: Option<u8>)
        ensures
            ({
                let e = old(self).read8_spec(bus, src);
                &&& *final(self) == e.cpu
                &&& val == e.out
            }),
            final(self).regs.f == old(self).regs.f,
    {
        let step: u8 = self.ctx.inner.step;
        match src {
            Src8::Loc(Loc8::Reg(r)) => Some(self.regs.get8(r)),
            Src8::Imm => {
                if step == 0 {
                    self.collect(bus);
                    None
                } else if step == 1 {
                    self.ctx.inner.step = 0;
                    Some(self.ctx.inner.scratch8)
                } else {
                    None
                }
            },
            Src8::Loc(Loc8::Mem(m)) => {
                let lead: u8 = m.lead();
                if step < lead {
                    self.collect(bus);
                    None
                } else if step == lead {
                    self.ctx.inner.scratch8 = bus.read(self.mem_addr(m));
                    self.ctx.inner.step = lead + 1;
                    None
                } else if step == lead + 1 {
                    self.ctx.inner.step = 0;
                    Some(self.ctx.inner.scratch8)
                } else {
                    None
                }
            },
        }
    }

    /// Runs one step of writing `val` to the 8-bit location `dst`, and
    /// reports `Some` once it is written.
    pub fn write8<B: Bus>(&mut self, bus: &mut B, dst: Loc8, val: u8) -> (done: Option<()>)
        ensures
            ({
                let e = old(self).write8_spec(old(bus), dst, val);
                &&& *final(self) == e.cpu
                &&& done == e.out
                &&& carried(e.store, old(bus), final(bus))
            }),
            final(self).regs.f == old(self).regs.f,
    {
        let step: u8 = self.ctx.inner.step;
        match dst {
            Loc8::Reg(r) => {
                self.regs.set8(r, val);
                Some(())
            },
            Loc8::Mem(m) => {
                let lead: u8 = m.lead();
                if step < lead {
                    self.collect(bus);
                    None
                } else if step == lead {
                    bus.write(self.mem_addr(m), val);
                    self.ctx.inner.step = lead + 1;
                    None
                } else if step == lead + 1 {
                    self.ctx.inner.step = 0;
                    Some(())
                } else {
                    None
                }
            },
        }
    }

    /// Runs one step of reading the 16-bit operand `src`, and hands back its
    /// value once it is there.
    pub fn read16<B: Bus>(&mut self, bus: &B, src: Src16) -> (val: Option<u16>)
        ensures
            ({
                let e = old(self).read16_spec(bus, src);
                &&& *final(self) == e.cpu
                &&& val == e.out
            }),
            final(self).regs.f == old(self).regs.f,
    {
        let step: u8 = self.ctx.inner.step;
        match src {
            Src16::Loc(Loc16::Reg(r)) => Some(self.regs.get16(r)),
            Src16::Imm => {
                if step < 2 {
                    self.collect(bus);
                    None
                } else if step == 2 {
                    self.ctx.inner.step = 0;
                    Some(self.ctx.inner.scratch16)
                } else {
                    None
                }
            },
            Src16::Loc(Loc16::Mem(m)) => {
                let lead: u8 = m.lead();
                if step < lead {
                    self.collect(bus);
                    None
                } else if step == lead {
                    self.ctx.inner.scratch8 = bus.read(self.mem_addr(m));
                    self.ctx.inner.step = lead + 1;
                    None
                } else if step == lead + 1 {
                    let hi: u8 = bus.read(self.mem_addr(m).wrapping_add(1));
                    self.ctx.inner.scratch16 = join(hi, self.ctx.inner.scratch8);
                    self.ctx.inner.step = lead + 2;
                    None
                } else if step == lead + 2 {
                    self.ctx.inner.step = 0;
                    Some(self.ctx.inner.scratch16)
                } else {
                    None
                }
            },
        }
    }

    /// Runs one step of writing `val` to the 16-bit location `dst`, low byte
    /// first, and reports `Some` once it is written.
    pub fn write16<B: Bus>(&mut self, bus: &mut B, dst: Loc16, val: u16) -> (done: Option<()>)
        ensures
            ({
                let e = old(self).write16_spec(old(bus), dst, val);
                &&& *final(self) == e.cpu
                &&& done == e.out
                &&& carried(e.store, old(bus), final(bus))
            }),
            dst != Loc16::Reg(Reg16::AF) ==> final(self).regs.f == old(self).regs.f,
            old(self).wf() ==> final(self).wf(),
    {
        let step: u8 = self.ctx.inner.step;
        match dst {
            Loc16::Reg(r) => {
                self.regs.set16(r, val);
                Some(())
            },
            Loc16::Mem(m) => {
                let lead: u8 = m.lead();
                let (hi, lo) = split(val);
                if step < lead {
                    self.collect(bus);
                    None
                } else if step == lead {
                    bus.write(self.mem_addr(m), lo);
                    self.ctx.inner.step = lead + 1;
                    None
                } else if step == lead + 1 {
                    bus.write(self.mem_addr(m).wrapping_add(1), hi);
                    self.ctx.inner.step = lead + 2;
                    None
                } else if step == lead + 2 {
                    self.ctx.inner.step = 0;
                    Some(())
                } else {
                    None
                }
            },
        }
    }
}

} // verus!
