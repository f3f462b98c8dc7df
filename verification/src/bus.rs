//! The byte-addressed read/write surface that the processor core drives.

use vstd::prelude::*;

verus! {

/// An address space of bytes. The core asks nothing of a bus beyond `read`
/// and `write`; what answers behind an address is the implementor's business.
/// An implementor says in `peek` and `written` what its reads yield and what
/// its writes change, and the contracts of the core are stated over these
/// two.
pub trait Bus {
    /// The byte that a read at `addr` yields in this state of the bus.
    spec fn peek(&self, addr: u16) -> u8;

    /// Whether `after` is a state this bus can be in once `val` has been
    /// written at `addr`.
    spec fn written(&self, addr: u16, val: u8, after: &Self) -> bool;

    /// Reads the byte at `addr`.
    fn read(&self, addr: u16) -> (val: u8)
        ensures
            val == self.peek(addr),
    ;

    /// Writes `val` at `addr`.
    fn write(&mut self, addr: u16, val: u8)
        ensures
            old(self).written(addr, val, final(self)),
    ;
}

} // verus!
