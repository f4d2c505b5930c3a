//! System control coprocessor registers.
use vstd::prelude::*;

verus! {

/// Coprocessor 0 registers.
#[derive(Clone, Copy, PartialEq, Eq, Structural)]
pub struct Cop0 {
    /// Cop0 reg12 : Status Register
    pub sr: u32,
    /// Cop0 reg13 : Exception Cause
    pub cause: u32,
    /// Cop0 reg14 : Exception Program Counter
    pub epc: u32,
    /// Cop0 reg8 : Bad Virtual Address
    pub baddr: u32,
}

impl Cop0 {
    pub fn new() -> (r: Self)
        ensures
            r.sr == 0 && r.cause == 0 && r.epc == 0 && r.baddr == 0,
    {
        Cop0 { sr: 0, cause: 0, epc: 0, baddr: 0 }
    }

    /// Status register bit 30 enables coprocessor 2.
    pub open spec fn spec_gte_enabled(self) -> bool {
        (self.sr >> 30u32) & 1 == 1
    }

    pub fn gte_enabled(&self) -> (r: bool)
        ensures
            r == self.spec_gte_enabled(),
    {
        (self.sr >> 30u32) & 1 == 1
    }

    /// Registers that MTC0 accepts.
    pub open spec fn writable(r: usize) -> bool {
        r == 3 || r == 5 || r == 6 || r == 7 || r == 9 || r == 11 || r == 15 || r == 8 || r == 12
            || r == 13
    }

    /// Registers that MFC0 accepts.
    pub open spec fn readable(r: usize) -> bool {
        Cop0::writable(r) || r == 14
    }

    /// The value MFC0 reads from register `r`.
    pub open spec fn spec_read(self, r: usize) -> u32 {
        if r == 8 {
            self.baddr
        } else if r == 12 {
            self.sr
        } else if r == 13 {
            self.cause
        } else if r == 14 {
            self.epc
        } else {
            0
        }
    }

    /// The registers after MTC0 writes `data` to register `r`.
    pub open spec fn spec_write(self, r: usize, data: u32) -> Cop0 {
        if r == 8 {
            Cop0 { baddr: data, ..self }
        } else if r == 12 {
            Cop0 { sr: data, ..self }
        } else if r == 13 {
            // Only bits 8 and 9 are writable
            Cop0 { cause: (self.cause & !0x300u32) | (data & 0x300), ..self }
        } else {
            self
        }
    }

    pub fn read(&self, r: usize) -> (v: u32)
        requires
            Cop0::readable(r),
        ensures
            v == self.spec_read(r),
    {
        if r == 8 {
            self.baddr
        } else if r == 12 {
            self.sr
        } else if r == 13 {
            self.cause
        } else if r == 14 {
            self.epc
        } else {
            0
        }
    }

    pub fn write(&mut self, r: usize, data: u32)
        requires
            Cop0::writable(r),
        ensures
            *final(self) == old(self).spec_write(r, data),
    {
        if r == 8 {
            self.baddr = data;
        } else if r == 12 {
            self.sr = data;
        } else if r == 13 {
            self.cause = (self.cause & !0x300u32) | (data & 0x300);
        }
    }

    /// The status register after a return from exception: the interrupt
    /// enable / mode stack pops by two bits.
    pub open spec fn spec_rfe(self) -> Cop0 {
        Cop0 { sr: (self.sr & !0xFu32) | ((self.sr & 0x3F) >> 2u32), ..self }
    }

    pub fn rfe(&mut self)
        ensures
            *final(self) == old(self).spec_rfe(),
    {
        let mode = self.sr & 0x3F;
        self.sr = (self.sr & !0xFu32) | (mode >> 2u32);
    }
}

} // verus!
