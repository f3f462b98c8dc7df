//! The register file and its packed flag byte.

use vstd::prelude::*;

verus! {

/// Zero flag, bit 7 of `f`.
pub const FLAG_Z: u8 = 0x80;

/// Subtract flag, bit 6 of `f`.
pub const FLAG_N: u8 = 0x40;

/// Half-carry flag, bit 5 of `f`.
pub const FLAG_H: u8 = 0x20;

/// Carry flag, bit 4 of `f`.
pub const FLAG_C: u8 = 0x10;

/// The low nibble of `f`, which holds no flag and stays zero.
pub const RESERVED: u8 = 0x0f;

/// Whether any bit of `mask` is set in `f`.
pub open spec fn flag(f: u8, mask: u8) -> bool {
    f & mask != 0
}

/// `f` with the bits of `mask` set or cleared, and every other bit as it was.
pub open spec fn with_flag(f: u8, mask: u8, on: bool) -> u8 {
    if on {
        f | mask
    } else {
        f & !mask
    }
}

/// The 16-bit value whose high byte is `hi` and whose low byte is `lo`.
pub open spec fn pair(hi: u8, lo: u8) -> u16 {
    (hi as int * 256 + lo as int) as u16
}

/// Writing the zero flag sets it as asked and leaves every other bit of the
/// flag byte as it was.
pub proof fn lemma_with_zero_flag(f: u8, on: bool)
    by (bit_vector)
    ensures
        flag(with_flag(f, FLAG_Z, on), FLAG_Z) == on,
        flag(with_flag(f, FLAG_Z, on), FLAG_N) == flag(f, FLAG_N),
        flag(with_flag(f, FLAG_Z, on), FLAG_H) == flag(f, FLAG_H),
        flag(with_flag(f, FLAG_Z, on), FLAG_C) == flag(f, FLAG_C),
        with_flag(f, FLAG_Z, on) & RESERVED == f & RESERVED,
{
}

/// Writing the subtract flag sets it as asked and leaves every other bit of
/// the flag byte as it was.
pub proof fn lemma_with_subtract_flag(f: u8, on: bool)
    by (bit_vector)
    ensures
        flag(with_flag(f, FLAG_N, on), FLAG_Z) == flag(f, FLAG_Z),
        flag(with_flag(f, FLAG_N, on), FLAG_N) == on,
        flag(with_flag(f, FLAG_N, on), FLAG_H) == flag(f, FLAG_H),
        flag(with_flag(f, FLAG_N, on), FLAG_C) == flag(f, FLAG_C),
        with_flag(f, FLAG_N, on) & RESERVED == f & RESERVED,
{
}

/// Writing the half-carry flag sets it as asked and leaves every other bit of
/// the flag byte as it was.
pub proof fn lemma_with_half_carry_flag(f: u8, on: bool)
    by (bit_vector)
    ensures
        flag(with_flag(f, FLAG_H, on), FLAG_Z) == flag(f, FLAG_Z),
        flag(with_flag(f, FLAG_H, on), FLAG_N) == flag(f, FLAG_N),
        flag(with_flag(f, FLAG_H, on), FLAG_H) == on,
        flag(with_flag(f, FLAG_H, on), FLAG_C) == flag(f, FLAG_C),
        with_flag(f, FLAG_H, on) & RESERVED == f & RESERVED,
{
}

/// Writing the carry flag sets it as asked and leaves every other bit of the
/// flag byte as it was.
pub proof fn lemma_with_carry_flag(f: u8, on: bool)
    by (bit_vector)
    ensures
        flag(with_flag(f, FLAG_C, on), FLAG_Z) == flag(f, FLAG_Z),
        flag(with_flag(f, FLAG_C, on), FLAG_N) == flag(f, FLAG_N),
        flag(with_flag(f, FLAG_C, on), FLAG_H) == flag(f, FLAG_H),
        flag(with_flag(f, FLAG_C, on), FLAG_C) == on,
        with_flag(f, FLAG_C, on) & RESERVED == f & RESERVED,
{
}

/// Shifting the high byte up and or-ing the low byte in is `pair`.
pub proof fn lemma_pair_bits(hi: u8, lo: u8)
    ensures
        ((hi as u16) << 8) | (lo as u16) == pair(hi, lo),
{
    assert(((hi as u16) << 8) | (lo as u16) == (hi as u16) * 256 + (lo as u16)) by (bit_vector);
}

/// The high byte of `val`.
pub open spec fn high_byte(val: u16) -> u8 {
    (val / 256) as u8
}

/// The low byte of `val`.
pub open spec fn low_byte(val: u16) -> u8 {
    (val % 256) as u8
}

/// Joins a high and a low byte.
#[verifier::allow_in_spec]
pub fn join(hi: u8, lo: u8) -> u16
    returns
        pair(hi, lo),
{
    proof {
        lemma_pair_bits(hi, lo);
    }
    ((hi as u16) << 8) | (lo as u16)
}

/// Splits `val` into its high and its low byte.
pub fn split(val: u16) -> (bytes: (u8, u8))
    ensures
        bytes == (high_byte(val), low_byte(val)),
        pair(bytes.0, bytes.1) == val,
{
    ((val / 256) as u8, (val % 256) as u8)
}

/// The registers that a program can see. The flag byte `f` holds Z, N, H and
/// C in its top nibble, and nothing in the low one.
#[derive(Clone, Copy, Debug, PartialEq, Eq, Structural)]
pub struct Registers {
    pub pc: u16,
    pub sp: u16,
    pub a: u8,
    pub b: u8,
    pub c: u8,
    pub d: u8,
    pub e: u8,
    pub f: u8,
    pub h: u8,
    pub l: u8,
}

impl Registers {
    /// The reserved low nibble of the flag byte is zero.
    pub open spec fn wf(&self) -> bool {
        self.f & RESERVED == 0
    }

    /// These registers with the flag bits of `mask` set or cleared.
    pub open spec fn with_flag(self, mask: u8, on: bool) -> Registers {
        Registers { f: with_flag(self.f, mask, on), ..self }
    }

    /// Every register zero.
    pub open spec fn zeroed() -> Registers {
        Registers { pc: 0, sp: 0, a: 0, b: 0, c: 0, d: 0, e: 0, f: 0, h: 0, l: 0 }
    }

    /// Every register zero.
    pub fn new() -> (regs: Registers)
        ensures
            regs == Registers::zeroed(),
            regs.wf(),
    {
        assert(0u8 & RESERVED == 0) by (bit_vector);
        Registers { pc: 0, sp: 0, a: 0, b: 0, c: 0, d: 0, e: 0, f: 0, h: 0, l: 0 }
    }

    /// `a` and `f` as one 16-bit value, `a` high.
    #[verifier::allow_in_spec]
    pub fn af(&self) -> u16
        returns
            pair(self.a, self.f),
    {
        join(self.a, self.f)
    }

    /// `b` and `c` as one 16-bit value, `b` high.
    #[verifier::allow_in_spec]
    pub fn bc(&self) -> u16
        returns
            pair(self.b, self.c),
    {
        join(self.b, self.c)
    }

    /// `d` and `e` as one 16-bit value, `d` high.
    #[verifier::allow_in_spec]
    pub fn de(&self) -> u16
        returns
            pair(self.d, self.e),
    {
        join(self.d, self.e)
    }

    /// `h` and `l` as one 16-bit value, `h` high.
    #[verifier::allow_in_spec]
    pub fn hl(&self) -> u16
        returns
            pair(self.h, self.l),
    {
        join(self.h, self.l)
    }

    /// The zero flag.
    #[verifier::allow_in_spec]
    pub fn zf(&self) -> bool
        returns
            flag(self.f, FLAG_Z),
    {
        (self.f & FLAG_Z) > 0
    }

    /// Sets or clears the zero flag, and nothing else.
    pub fn set_zf(&mut self, zf: bool)
        ensures
            *final(self) == old(self).with_flag(FLAG_Z, zf),
            final(self).zf() == zf,
            final(self).nf() == old(self).nf(),
            final(self).hf() == old(self).hf(),
            final(self).cf() == old(self).cf(),
            final(self).f & RESERVED == old(self).f & RESERVED,
            old(self).wf() ==> final(self).wf(),
    {
        proof {
            lemma_with_zero_flag(self.f, zf);
        }
        if zf {
            self.f |= FLAG_Z;
        } else {
            self.f &= !FLAG_Z;
        }
    }

    /// The subtract flag.
    #[verifier::allow_in_spec]
    pub fn nf(&self) -> bool
        returns
            flag(self.f, FLAG_N),
    {
        (self.f & FLAG_N) > 0
    }

    /// Sets or clears the subtract flag, and nothing else.
    pub fn set_nf(&mut self, nf: bool)
        ensures
            *final(self) == old(self).with_flag(FLAG_N, nf),
            final(self).zf() == old(self).zf(),
            final(self).nf() == nf,
            final(self).hf() == old(self).hf(),
            final(self).cf() == old(self).cf(),
            final(self).f & RESERVED == old(self).f & RESERVED,
            old(self).wf() ==> final(self).wf(),
    {
        proof {
            lemma_with_subtract_flag(self.f, nf);
        }
        if nf {
            self.f |= FLAG_N;
        } else {
            self.f &= !FLAG_N;
        }
    }

    /// The half-carry flag.
    #[verifier::allow_in_spec]
    pub fn hf(&self) -> bool
        returns
            flag(self.f, FLAG_H),
    {
        (self.f & FLAG_H) > 0
    }

    /// Sets or clears the half-carry flag, and nothing else.
    pub fn set_hf(&mut self, hf: bool)
        ensures
            *final(self) == old(self).with_flag(FLAG_H, hf),
            final(self).zf() == old(self).zf(),
            final(self).nf() == old(self).nf(),
            final(self).hf() == hf,
            final(self).cf() == old(self).cf(),
            final(self).f & RESERVED == old(self).f & RESERVED,
            old(self).wf() ==> final(self).wf(),
    {
        proof {
            lemma_with_half_carry_flag(self.f, hf);
        }
        if hf {
            self.f |= FLAG_H;
        } else {
            self.f &= !FLAG_H;
        }
    }

    /// The carry flag.
    #[verifier::allow_in_spec]
    pub fn cf(&self) -> bool
        returns
            flag(self.f, FLAG_C),
    {
        (self.f & FLAG_C) > 0
    }

    /// Sets or clears the carry flag, and nothing else.
    pub fn set_cf(&mut self, cf: bool)
        ensures
            *final(self) == old(self).with_flag(FLAG_C, cf),
            final(self).zf() == old(self).zf(),
            final(self).nf() == old(self).nf(),
            final(self).hf() == old(self).hf(),
            final(self).cf() == cf,
            final(self).f & RESERVED == old(self).f & RESERVED,
            old(self).wf() ==> final(self).wf(),
    {
        proof {
            lemma_with_carry_flag(self.f, cf);
        }
        if cf {
            self.f |= FLAG_C;
        } else {
            self.f &= !FLAG_C;
        }
    }
}

impl Default for Registers {
    fn default() -> (regs: Registers)
        ensures
            regs == Registers::zeroed(),
    {
        Registers::new()
    }
}

} // verus!
