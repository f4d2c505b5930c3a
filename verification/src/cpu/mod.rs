//! The R3000A processor: registers, load delay, exceptions and the
//! decoding of instructions.
pub mod cop0;
pub mod execute;
pub mod instruction;
pub mod instrs;

use vstd::prelude::*;

use crate::cpu::cop0::Cop0;
use crate::cpu::instruction::Exception;
use crate::gte::GTEngine;

verus! {

/// Processor state.
pub struct Cpu {
    /// 32-bit general purpose registers, R0 is always zero
    pub regs: [u32; 32],
    /// Register copies for delay slot emulation
    pub regd: [u32; 32],
    /// Program counter
    pub pc: u32,
    /// Delayed branch slot
    pub delayed_branch: Option<u32>,
    /// Upper 32 bits of product or division remainder
    pub hi: u32,
    /// Lower 32 bits of product or division quotient
    pub lo: u32,
    /// Load to execute
    pub load: Option<(usize, u32)>,
    /// Coprocessor 0
    pub cop0: Cop0,
    /// Geometry Transformation Engine (Coprocessor 2)
    pub gte: GTEngine,
}

/// Reset vector.
pub const RESET_PC: u32 = 0xBFC0_0000;

/// Marker value of registers that were never written.
pub const UNINIT: u32 = 0xDEAD_BEEF;

impl Cpu {
    /// Every field but `regd` equals the one of `other`.
    pub open spec fn same_but_regd(self, other: Cpu) -> bool {
        &&& self.regs == other.regs
        &&& self.pc == other.pc
        &&& self.delayed_branch == other.delayed_branch
        &&& self.hi == other.hi
        &&& self.lo == other.lo
        &&& self.load == other.load
        &&& self.cop0 == other.cop0
        &&& self.gte == other.gte
    }

    /// `new` is `self` with `regd[i]` set to `v`.
    pub open spec fn writes_reg(self, new: Cpu, i: int, v: u32) -> bool {
        &&& new.regd@ == self.regd@.update(i, v)
        &&& new.same_but_regd(self)
    }

    /// `new` is `self` with `hi` and `lo` set.
    pub open spec fn writes_hilo(self, new: Cpu, hi: u32, lo: u32) -> bool {
        &&& new.hi == hi
        &&& new.lo == lo
        &&& new.regd == self.regd
        &&& new.regs == self.regs
        &&& new.pc == self.pc
        &&& new.delayed_branch == self.delayed_branch
        &&& new.load == self.load
        &&& new.cop0 == self.cop0
        &&& new.gte == self.gte
    }

    /// `new` is `self` with nothing changed.
    pub open spec fn unchanged(self, new: Cpu) -> bool {
        &&& new.regd == self.regd
        &&& new.same_but_regd(self)
    }

    /// `new` is `self` with the delayed branch slot set to `target`, and,
    /// when `link` holds, `regd[link_reg]` set to the return address.
    pub open spec fn branches(self, new: Cpu, target: Option<u32>, link: bool, link_reg: int) -> bool {
        &&& new.delayed_branch == (if target is Some { target } else { self.delayed_branch })
        &&& new.regd@ == (if link { self.regd@.update(link_reg, self.pc.wrapping_add(8)) } else { self.regd@ })
        &&& new.regs == self.regs
        &&& new.pc == self.pc
        &&& new.hi == self.hi
        &&& new.lo == self.lo
        &&& new.load == self.load
        &&& new.cop0 == self.cop0
        &&& new.gte == self.gte
    }

    /// The processor state after reset.
    pub fn new() -> (r: Self)
        ensures
            r.pc == RESET_PC,
            r.regs@[0] == 0,
            forall|i: int| 1 <= i < 32 ==> r.regs@[i] == UNINIT,
            r.regd == r.regs,
            r.hi == UNINIT && r.lo == UNINIT,
            r.load is None && r.delayed_branch is None,
    {
        let mut regs = [UNINIT; 32];
        regs[0] = 0;
        Cpu {
            regs,
            regd: regs,
            pc: RESET_PC,
            hi: UNINIT,
            lo: UNINIT,
            load: None,
            delayed_branch: None,
            cop0: Cop0::new(),
            gte: GTEngine::new(),
        }
    }

    /// Schedules a delayed load of `data` into register `rt`, cancelling a
    /// pending load to the same register.
    pub fn take_delayed_load(&mut self, rt: usize, data: u32)
        requires
            rt < 32,
        ensures
            final(self).regd@ == old(self).regd@.update(rt as int, old(self).regs@[rt as int]),
            final(self).load == Some((rt, data)),
            final(self).regs == old(self).regs,
            final(self).pc == old(self).pc,
            final(self).delayed_branch == old(self).delayed_branch,
            final(self).hi == old(self).hi,
            final(self).lo == old(self).lo,
            final(self).cop0 == old(self).cop0,
            final(self).gte == old(self).gte,
    {
        if self.regd[rt] != self.regs[rt] {
            self.regd[rt] = self.regs[rt];
        }
        assert(self.regd@ =~= old(self).regd@.update(rt as int, old(self).regs@[rt as int]));
        self.load = Some((rt, data));
    }

    /// Status register after entering an exception: the interrupt enable /
    /// mode stack pushes by two bits.
    pub open spec fn exception_sr(sr: u32) -> u32 {
        (sr & !0x3Fu32) | (((sr & 0x3F) << 2u32) & 0x3F)
    }

    /// Cause register after entering an exception with code `code`.
    pub open spec fn exception_cause(cause: u32, code: u32, branch: bool) -> u32 {
        let c = (cause & !0x7Cu32) | (code << 2u32);
        if branch {
            c | 0x8000_0000
        } else {
            c & !0x8000_0000u32
        }
    }

    /// Enters the exception handler for `cause`. `branch` tells whether the
    /// faulting instruction sat in a branch delay slot.
    pub fn handle_exception(&mut self, cause: &Exception, branch: bool)
        ensures
            final(self).cop0.sr == Cpu::exception_sr(old(self).cop0.sr),
            final(self).cop0.cause == Cpu::exception_cause(old(self).cop0.cause, cause.spec_code(), branch),
            final(self).cop0.epc == (if branch { old(self).pc.wrapping_sub(4) } else { old(self).pc }),
            final(self).cop0.baddr == (match *cause {
                Exception::LoadAddressError(x) => x,
                Exception::StoreAddressError(x) => x,
                _ => old(self).cop0.baddr,
            }),
            final(self).pc == (if (old(self).cop0.sr >> 22u32) & 1 == 1 { 0xBFC0_0180u32 } else { 0x8000_0080u32 }),
            final(self).regs == old(self).regs,
            final(self).regd == old(self).regd,
            final(self).hi == old(self).hi,
            final(self).lo == old(self).lo,
            final(self).load == old(self).load,
            final(self).delayed_branch == old(self).delayed_branch,
            final(self).gte == old(self).gte,
    {
        let old_sr = self.cop0.sr;
        let mode = self.cop0.sr & 0x3F;
        self.cop0.sr = (self.cop0.sr & !0x3Fu32) | ((mode << 2u32) & 0x3F);

        self.cop0.cause = self.cop0.cause & !0x7Cu32;
        self.cop0.cause = self.cop0.cause | (cause.code() << 2u32);

        if branch {
            self.cop0.epc = self.pc.wrapping_sub(4);
            self.cop0.cause = self.cop0.cause | 0x8000_0000;
        } else {
            self.cop0.epc = self.pc;
            self.cop0.cause = self.cop0.cause & !0x8000_0000u32;
        }

        match cause {
            Exception::LoadAddressError(x) => self.cop0.baddr = *x,
            Exception::StoreAddressError(x) => self.cop0.baddr = *x,
            _ => {},
        }

        proof { lemma_bev_kept(old_sr); }
        self.pc = if (self.cop0.sr >> 22u32) & 1 == 1 {
            0xBFC0_0180
        } else {
            0x8000_0080
        };
    }

    /// Updates cause bit 10 from the interrupt controller line and tells
    /// whether an enabled interrupt is pending.
    pub fn pending_interrupts(&mut self, irq_line: bool) -> (r: bool)
        ensures
            final(self).cop0.cause == (if irq_line { old(self).cop0.cause | 0x400 } else { old(self).cop0.cause & !0x400u32 }),
            r == ((final(self).cop0.cause & final(self).cop0.sr) & 0x700 != 0 && final(self).cop0.sr & 1 != 0),
            final(self).cop0.sr == old(self).cop0.sr,
            final(self).cop0.epc == old(self).cop0.epc,
            final(self).cop0.baddr == old(self).cop0.baddr,
            final(self).regs == old(self).regs,
            final(self).regd == old(self).regd,
            final(self).pc == old(self).pc,
            final(self).hi == old(self).hi,
            final(self).lo == old(self).lo,
            final(self).load == old(self).load,
            final(self).delayed_branch == old(self).delayed_branch,
            final(self).gte == old(self).gte,
    {
        if irq_line {
            self.cop0.cause = self.cop0.cause | 0x400;
        } else {
            self.cop0.cause = self.cop0.cause & !0x400u32;
        }
        let pending = (self.cop0.cause & self.cop0.sr) & 0x700;
        pending != 0 && (self.cop0.sr & 1 != 0)
    }

    /// Takes the delay slot: the branch target if one is pending, else the
    /// next sequential address, and whether the instruction sits in a delay slot.
    pub fn next_pc(&mut self) -> (r: (u32, bool))
        ensures
            r == (match old(self).delayed_branch {
                Some(addr) => (addr, true),
                None => (old(self).pc.wrapping_add(4), false),
            }),
            final(self).delayed_branch is None,
            final(self).regs == old(self).regs,
            final(self).regd == old(self).regd,
            final(self).pc == old(self).pc,
            final(self).load == old(self).load,
            final(self).cop0 == old(self).cop0,
            final(self).hi == old(self).hi,
            final(self).lo == old(self).lo,
            final(self).gte == old(self).gte,
    {
        match self.delayed_branch.take() {
            Some(addr) => (addr, true),
            None => (self.pc.wrapping_add(4), false),
        }
    }

    /// Completes the pending delayed load, except into R0.
    pub fn apply_pending_load(&mut self)
        ensures
            final(self).load is None,
            final(self).regd@ == (match old(self).load {
                Some((reg, val)) => if reg != 0 && reg < 32 { old(self).regd@.update(reg as int, val) } else { old(self).regd@ },
                None => old(self).regd@,
            }),
            final(self).regs == old(self).regs,
            final(self).pc == old(self).pc,
            final(self).delayed_branch == old(self).delayed_branch,
            final(self).cop0 == old(self).cop0,
            final(self).hi == old(self).hi,
            final(self).lo == old(self).lo,
            final(self).gte == old(self).gte,
    {
        match self.load.take() {
            Some((reg, val)) => {
                if reg != 0 && reg < 32 {
                    self.regd[reg] = val;
                }
            },
            None => {},
        }
    }

    /// Commits the register writes of an executed instruction and moves on.
    pub fn retire(&mut self, next_pc: u32)
        ensures
            final(self).regs@ == old(self).regd@.update(0, 0),
            final(self).regd == old(self).regd,
            final(self).pc == next_pc,
            final(self).delayed_branch == old(self).delayed_branch,
            final(self).load == old(self).load,
            final(self).cop0 == old(self).cop0,
            final(self).hi == old(self).hi,
            final(self).lo == old(self).lo,
            final(self).gte == old(self).gte,
    {
        self.regs = self.regd;
        self.regs[0] = 0;
        self.pc = next_pc;
    }

    /// The registers a debugger shows.
    pub fn snapshot(&self) -> (s: Snapshot)
        ensures
            s.pc == self.pc,
            s.hi == self.hi,
            s.lo == self.lo,
            s.regs == self.regs,
    {
        Snapshot { pc: self.pc, hi: self.hi, lo: self.lo, regs: self.regs }
    }
}

/// The processor registers at one moment.
pub struct Snapshot {
    pub pc: u32,
    pub hi: u32,
    pub lo: u32,
    pub regs: [u32; 32],
}

proof fn lemma_bev_kept(sr: u32)
    ensures
        ((((sr & !0x3Fu32) | (((sr & 0x3F) << 2u32) & 0x3F)) >> 22u32) & 1 == 1) == ((sr >> 22u32) & 1 == 1),
{
    assert(((((sr & !0x3Fu32) | (((sr & 0x3F) << 2u32) & 0x3F)) >> 22u32) & 1 == 1) == ((sr >> 22u32) & 1 == 1))
        by (bit_vector);
}

/// Entering an exception pushes the interrupt-enable / kernel-mode stack of
/// the status register by two bits (the current pair becomes 0: kernel mode,
/// interrupts off), and RFE pops it again: after both, the current and
/// previous pairs are back, the old pair holds the former previous pair, and
/// every bit above them is untouched.
pub proof fn lemma_exception_then_rfe(c: Cop0)
    ensures
        Cpu::exception_sr(c.sr) & 3 == 0,
        (Cpu::exception_sr(c.sr) >> 2u32) & 0xF == c.sr & 0xF,
        Cpu::exception_sr(c.sr) & !0x3Fu32 == c.sr & !0x3Fu32,
        (Cop0 { sr: Cpu::exception_sr(c.sr), ..c }).spec_rfe().sr & 0xF == c.sr & 0xF,
        ((Cop0 { sr: Cpu::exception_sr(c.sr), ..c }).spec_rfe().sr >> 4u32) & 3 == (c.sr >> 2u32) & 3,
        (Cop0 { sr: Cpu::exception_sr(c.sr), ..c }).spec_rfe().sr & !0x3Fu32 == c.sr & !0x3Fu32,
{
    let sr = c.sr;
    assert({
        let e = (sr & !0x3Fu32) | (((sr & 0x3F) << 2u32) & 0x3F);
        let r = (e & !0xFu32) | ((e & 0x3F) >> 2u32);
        &&& e & 3 == 0
        &&& (e >> 2u32) & 0xF == sr & 0xF
        &&& e & !0x3Fu32 == sr & !0x3Fu32
        &&& r & 0xF == sr & 0xF
        &&& (r >> 4u32) & 3 == (sr >> 2u32) & 3
        &&& r & !0x3Fu32 == sr & !0x3Fu32
    }) by (bit_vector);
}

/// Entering an exception writes its code into bits 6..2 of the cause
/// register and the branch-delay flag into bit 31, keeping every other bit.
pub proof fn lemma_exception_cause(cause: u32, e: Exception, branch: bool)
    ensures
        (Cpu::exception_cause(cause, e.spec_code(), branch) >> 2u32) & 0x1F == e.spec_code(),
        (Cpu::exception_cause(cause, e.spec_code(), branch) >> 31u32 == 1) == branch,
        Cpu::exception_cause(cause, e.spec_code(), branch) & 0x7FFF_FF83 == cause & 0x7FFF_FF83,
{
    let code = e.spec_code();
    assert(code <= 0xC);
    assert(code <= 0xC ==> {
        let c = (cause & !0x7Cu32) | (code << 2u32);
        let t = c | 0x8000_0000;
        let f = c & !0x8000_0000u32;
        &&& (t >> 2u32) & 0x1F == code && (f >> 2u32) & 0x1F == code
        &&& t >> 31u32 == 1 && f >> 31u32 == 0
        &&& t & 0x7FFF_FF83 == cause & 0x7FFF_FF83 && f & 0x7FFF_FF83 == cause & 0x7FFF_FF83
    }) by (bit_vector);
}

} // verus!
