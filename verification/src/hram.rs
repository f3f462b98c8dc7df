//! High RAM: 128 bytes that answer at every address, by its low seven bits.

use vstd::prelude::*;
use crate::bus::Bus;

verus! {

/// The cell of the high RAM that answers at `addr`.
pub open spec fn hram_index(addr: u16) -> int {
    addr as int % 0x80
}

/// The high RAM. Its view is the sequence of its 128 cells.
pub struct HRam(Box<[u8; 0x80]>);

impl View for HRam {
    type V = Seq<u8>;

    closed spec fn view(&self) -> Seq<u8> {
        self.0@
    }
}

impl HRam {
    /// A high RAM of 128 zero bytes.
    pub fn new() -> (ram: HRam)
        ensures
            ram@ == Seq::new(0x80, |i: int| 0u8),
    {
        let ram = HRam(Box::new([0; 0x80]));
        assert(ram@ =~= Seq::new(0x80, |i: int| 0u8));
        ram
    }

    /// A high RAM always holds 128 cells.
    pub proof fn lemma_size(&self)
        ensures
            self@.len() == 0x80,
    {
    }

    /// The byte in the cell that answers at `addr`.
    pub fn read(&self, addr: u16) -> (val: u8)
        ensures
            val == self@[hram_index(addr)],
    {
        assert(addr & 0x7f == addr % 0x80) by (bit_vector);
        self.0[(addr & 0x7f) as usize]
    }

    /// Stores `val` in the cell that answers at `addr`.
    pub fn write(&mut self, addr: u16, val: u8)
        ensures
            final(self)@ == old(self)@.update(hram_index(addr), val),
    {
        assert(addr & 0x7f == addr % 0x80) by (bit_vector);
        self.0[(addr & 0x7f) as usize] = val;
    }
}

impl Bus for HRam {
    open spec fn peek(&self, addr: u16) -> u8 {
        self@[hram_index(addr)]
    }

    open spec fn written(&self, addr: u16, val: u8, after: &Self) -> bool {
        after@ == self@.update(hram_index(addr), val)
    }

    fn read(&self, addr: u16) -> (val: u8) {
        HRam::read(self, addr)
    }

    fn write(&mut self, addr: u16, val: u8) {
        HRam::write(self, addr, val)
    }
}

} // verus!
