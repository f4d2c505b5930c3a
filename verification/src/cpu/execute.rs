//! Instruction dispatch, memory accesses and the coprocessor instructions.
//!
//! Executing an instruction never touches the bus itself: loads and stores
//! come back as an [`Access`] for the caller to perform; a load then ends
//! with [`Cpu::finish_load`], an unaligned store with [`merge_store`].
use vstd::prelude::*;

use crate::cpu::cop0::Cop0;
use crate::cpu::instruction::{Exception, Instruction};
use crate::cpu::instrs::{branch_target, jump_target, spec_div};
use crate::cpu::Cpu;
use crate::gte::regs::is_command;
use crate::gte::{CommandFields, GteModel};

verus! {

/// How a loaded word becomes a register value.
#[derive(Clone, Copy, PartialEq, Eq, Structural)]
pub enum LoadKind {
    /// Sign-extended byte
    Byte,
    /// Zero-extended byte
    ByteUnsigned,
    /// Sign-extended half word
    Half,
    /// Zero-extended half word
    HalfUnsigned,
    Word,
    /// LWL: merged into `val`, the register's pending value, by byte offset `offset`
    Left { offset: u32, val: u32 },
    /// LWR: merged into `val`, the register's pending value, by byte offset `offset`
    Right { offset: u32, val: u32 },
    /// LWC2: written to a coprocessor 2 data register
    Gte,
}

/// The bus access that an instruction asks for.
#[derive(Clone, Copy, PartialEq, Eq, Structural)]
pub enum Access {
    Nothing,
    /// Read `width` bytes at `addr` and complete with `finish_load`.
    Load { reg: usize, addr: u32, width: u32, kind: LoadKind },
    /// Write the low `width` bytes of `data` at `addr`.
    Store { addr: u32, width: u32, data: u32 },
    /// SWL (`left`) or SWR: read the word at `addr`, merge `val` into it by
    /// byte offset `offset` with `merge_store`, and write it back.
    StoreMerge { addr: u32, val: u32, offset: u32, left: bool },
}

/// LWL: the upper bytes of `val` replaced by the lower bytes of `word`.
pub open spec fn spec_lwl(val: u32, word: u32, offset: u32) -> u32 {
    if offset == 0 {
        (val & 0x00FF_FFFF) | (word << 24u32)
    } else if offset == 1 {
        (val & 0x0000_FFFF) | (word << 16u32)
    } else if offset == 2 {
        (val & 0x0000_00FF) | (word << 8u32)
    } else {
        word
    }
}

/// LWR: the lower bytes of `val` replaced by the upper bytes of `word`.
pub open spec fn spec_lwr(val: u32, word: u32, offset: u32) -> u32 {
    if offset == 0 {
        word
    } else if offset == 1 {
        (val & 0xFF00_0000) | (word >> 8u32)
    } else if offset == 2 {
        (val & 0xFFFF_0000) | (word >> 16u32)
    } else {
        (val & 0xFFFF_FF00) | (word >> 24u32)
    }
}

/// SWL: the lower bytes of the memory word replaced by the upper bytes of `val`.
pub open spec fn spec_swl(word: u32, val: u32, offset: u32) -> u32 {
    if offset == 0 {
        (word & 0xFFFF_FF00) | (val >> 24u32)
    } else if offset == 1 {
        (word & 0xFFFF_0000) | (val >> 16u32)
    } else if offset == 2 {
        (word & 0xFF00_0000) | (val >> 8u32)
    } else {
        val
    }
}

/// SWR: the upper bytes of the memory word replaced by the lower bytes of `val`.
pub open spec fn spec_swr(word: u32, val: u32, offset: u32) -> u32 {
    if offset == 0 {
        val
    } else if offset == 1 {
        (word & 0x0000_00FF) | (val << 8u32)
    } else if offset == 2 {
        (word & 0x0000_FFFF) | (val << 16u32)
    } else {
        (word & 0x00FF_FFFF) | (val << 24u32)
    }
}

/// The register value that a load of kind `kind` makes of the bus word `data`.
pub open spec fn loaded_value(kind: LoadKind, data: u32) -> u32 {
    match kind {
        LoadKind::Byte => data as u8 as i8 as u32,
        LoadKind::ByteUnsigned => data as u8 as u32,
        LoadKind::Half => data as u16 as i16 as u32,
        LoadKind::HalfUnsigned => data as u16 as u32,
        LoadKind::Word => data,
        LoadKind::Left { offset, val } => spec_lwl(val, data, offset),
        LoadKind::Right { offset, val } => spec_lwr(val, data, offset),
        LoadKind::Gte => data,
    }
}

/// The memory word that SWL (`left`) or SWR writes back.
pub fn merge_store(word: u32, val: u32, offset: u32, left: bool) -> (r: u32)
    requires
        offset < 4,
    ensures
        r == (if left { spec_swl(word, val, offset) } else { spec_swr(word, val, offset) }),
{
    if left {
        if offset == 0 {
            (word & 0xFFFF_FF00) | (val >> 24u32)
        } else if offset == 1 {
            (word & 0xFFFF_0000) | (val >> 16u32)
        } else if offset == 2 {
            (word & 0xFF00_0000) | (val >> 8u32)
        } else {
            val
        }
    } else {
        if offset == 0 {
            val
        } else if offset == 1 {
            (word & 0x0000_00FF) | (val << 8u32)
        } else if offset == 2 {
            (word & 0x0000_FFFF) | (val << 16u32)
        } else {
            (word & 0x00FF_FFFF) | (val << 24u32)
        }
    }
}

fn load_value(kind: LoadKind, data: u32) -> (r: u32)
    ensures
        r == loaded_value(kind, data),
{
    match kind {
        LoadKind::Byte => data as u8 as i8 as u32,
        LoadKind::ByteUnsigned => data as u8 as u32,
        LoadKind::Half => data as u16 as i16 as u32,
        LoadKind::HalfUnsigned => data as u16 as u32,
        LoadKind::Word => data,
        LoadKind::Left { offset, val } => {
            if offset == 0 {
                (val & 0x00FF_FFFF) | (data << 24u32)
            } else if offset == 1 {
                (val & 0x0000_FFFF) | (data << 16u32)
            } else if offset == 2 {
                (val & 0x0000_00FF) | (data << 8u32)
            } else {
                data
            }
        },
        LoadKind::Right { offset, val } => {
            if offset == 0 {
                data
            } else if offset == 1 {
                (val & 0xFF00_0000) | (data >> 8u32)
            } else if offset == 2 {
                (val & 0xFFFF_0000) | (data >> 16u32)
            } else {
                (val & 0xFFFF_FF00) | (data >> 24u32)
            }
        },
        LoadKind::Gte => data,
    }
}

/// Effective address of a load or store: base register plus sign-extended offset.
pub open spec fn effective_address(base: u32, instr: Instruction) -> u32 {
    base.wrapping_add(instr.spec_imm16_se())
}

impl Cpu {
    /// Cache isolation (status register bit 16) suppresses word loads and stores.
    pub open spec fn cache_isolated(self) -> bool {
        self.cop0.sr & 0x10000 != 0
    }

    /// What a load of `width` bytes at the effective address asks for: the
    /// access, or an address error where the address is misaligned.
    pub open spec fn load_access(self, instr: Instruction, width: u32, kind: LoadKind) -> Result<Access, Exception> {
        let addr = effective_address(self.regs@[instr.spec_rs() as int], instr);
        if addr % width != 0 {
            Err(Exception::LoadAddressError(addr))
        } else {
            Ok(Access::Load { reg: instr.spec_rt(), addr, width, kind })
        }
    }

    /// What a store of the low `width` bytes of `rt` at the effective
    /// address asks for, or an address error where it is misaligned.
    pub open spec fn store_access(self, instr: Instruction, width: u32) -> Result<Access, Exception> {
        let addr = effective_address(self.regs@[instr.spec_rs() as int], instr);
        let v = self.regs@[instr.spec_rt() as int];
        let data = if width == 1 { v & 0xFF } else if width == 2 { v & 0xFFFF } else { v };
        if addr % width != 0 {
            Err(Exception::StoreAddressError(addr))
        } else {
            Ok(Access::Store { addr, width, data })
        }
    }

    /// A store that goes nowhere while the cache is isolated.
    pub open spec fn isolated_store(self, instr: Instruction, width: u32) -> Result<Access, Exception> {
        if self.cache_isolated() {
            Ok(Access::Nothing)
        } else {
            self.store_access(instr, width)
        }
    }

    /// LWL (`left`) or LWR: the aligned word, merged into the pending value
    /// of `rt` (the load delay slot's value) by the address's byte offset.
    pub open spec fn unaligned_load_access(self, instr: Instruction, left: bool) -> Access {
        let addr = effective_address(self.regd@[instr.spec_rs() as int], instr);
        let val = self.regd@[instr.spec_rt() as int];
        let offset = addr & 3;
        Access::Load {
            reg: instr.spec_rt(),
            addr: addr & !3u32,
            width: 4,
            kind: if left { LoadKind::Left { offset, val } } else { LoadKind::Right { offset, val } },
        }
    }

    /// SWL (`left`) or SWR: the aligned word to merge `rt` into.
    pub open spec fn unaligned_store_access(self, instr: Instruction, left: bool) -> Access {
        let addr = effective_address(self.regs@[instr.spec_rs() as int], instr);
        Access::StoreMerge { addr: addr & !3u32, val: self.regs@[instr.spec_rt() as int], offset: addr & 3, left }
    }

    /// `new` is `self` after `take_delayed_load(rt, data)`.
    pub open spec fn delays_load(self, new: Cpu, rt: int, data: u32) -> bool {
        &&& new.regd@ == self.regd@.update(rt, self.regs@[rt])
        &&& new.load == Some((rt as usize, data))
        &&& new.regs == self.regs
        &&& new.pc == self.pc
        &&& new.delayed_branch == self.delayed_branch
        &&& new.hi == self.hi
        &&& new.lo == self.lo
        &&& new.cop0 == self.cop0
        &&& new.gte == self.gte
    }

    /// `new` is `self` with coprocessor 0 replaced by `c`.
    pub open spec fn writes_cop0(self, new: Cpu, c: Cop0) -> bool {
        &&& new.cop0 == c
        &&& new.regd == self.regd
        &&& new.regs == self.regs
        &&& new.pc == self.pc
        &&& new.delayed_branch == self.delayed_branch
        &&& new.hi == self.hi
        &&& new.lo == self.lo
        &&& new.load == self.load
        &&& new.gte == self.gte
    }

    /// `new` is `self` with the engine state replaced by one whose model is `g`.
    pub open spec fn writes_gte(self, new: Cpu, g: GteModel) -> bool {
        &&& new.gte@ == g
        &&& new.regd == self.regd
        &&& new.regs == self.regs
        &&& new.pc == self.pc
        &&& new.delayed_branch == self.delayed_branch
        &&& new.hi == self.hi
        &&& new.lo == self.lo
        &&& new.load == self.load
        &&& new.cop0 == self.cop0
    }

    /// Completes a load: the value goes through the load delay, or into the
    /// coprocessor 2 register for LWC2.
    pub fn finish_load(&mut self, reg: usize, kind: LoadKind, data: u32)
        requires
            reg < 32,
        ensures
            kind != LoadKind::Gte ==> old(self).delays_load(*final(self), reg as int, loaded_value(kind, data)),
            kind == LoadKind::Gte ==> old(self).writes_gte(*final(self), old(self).gte@.write_reg(reg as int, data)),
    {
        if kind == LoadKind::Gte {
            self.gte.write_reg(reg, data);
        } else {
            let v = load_value(kind, data);
            self.take_delayed_load(reg, v);
        }
    }

    /// A load of `width` bytes at the effective address, unless it is misaligned.
    fn load(&self, instr: Instruction, width: u32, kind: LoadKind) -> (r: Result<Access, Exception>)
        requires
            width == 1 || width == 2 || width == 4,
        ensures
            r == self.load_access(instr, width, kind),
    {
        let addr = self.regs[instr.rs()].wrapping_add(instr.imm16_se());
        if addr % width != 0 {
            Err(Exception::LoadAddressError(addr))
        } else {
            Ok(Access::Load { reg: instr.rt(), addr, width, kind })
        }
    }

    /// A store of the low `width` bytes of `rt` at the effective address,
    /// unless it is misaligned.
    fn store(&self, instr: Instruction, width: u32) -> (r: Result<Access, Exception>)
        requires
            width == 1 || width == 2 || width == 4,
        ensures
            r == self.store_access(instr, width),
    {
        let addr = self.regs[instr.rs()].wrapping_add(instr.imm16_se());
        let v = self.regs[instr.rt()];
        let data = if width == 1 {
            v & 0xFF
        } else if width == 2 {
            v & 0xFFFF
        } else {
            v
        };
        if addr % width != 0 {
            Err(Exception::StoreAddressError(addr))
        } else {
            Ok(Access::Store { addr, width, data })
        }
    }

    /// LWL (`left`) or LWR: the aligned word, merged into the pending value of `rt`.
    fn load_unaligned(&self, instr: Instruction, left: bool) -> (r: Access)
        ensures
            r == self.unaligned_load_access(instr, left),
    {
        let addr = self.regd[instr.rs()].wrapping_add(instr.imm16_se());
        let val = self.regd[instr.rt()];
        let offset = addr & 3;
        let kind = if left {
            LoadKind::Left { offset, val }
        } else {
            LoadKind::Right { offset, val }
        };
        Access::Load { reg: instr.rt(), addr: addr & !3u32, width: 4, kind }
    }

    /// SWL (`left`) or SWR: the aligned word to merge `rt` into.
    fn store_unaligned(&self, instr: Instruction, left: bool) -> (r: Access)
        ensures
            r == self.unaligned_store_access(instr, left),
    {
        let addr = self.regs[instr.rs()].wrapping_add(instr.imm16_se());
        Access::StoreMerge { addr: addr & !3u32, val: self.regs[instr.rt()], offset: addr & 3, left }
    }

    /// LB: load a byte, sign-extended.
    pub fn lb(&self, instr: Instruction) -> (r: Result<Access, Exception>)
        ensures
            r == self.load_access(instr, 1, LoadKind::Byte),
    {
        self.load(instr, 1, LoadKind::Byte)
    }

    /// LBU: load a byte, zero-extended.
    pub fn lbu(&self, instr: Instruction) -> (r: Result<Access, Exception>)
        ensures
            r == self.load_access(instr, 1, LoadKind::ByteUnsigned),
    {
        self.load(instr, 1, LoadKind::ByteUnsigned)
    }

    /// LH: load a half word, sign-extended.
    pub fn lh(&self, instr: Instruction) -> (r: Result<Access, Exception>)
        ensures
            r == self.load_access(instr, 2, LoadKind::Half),
    {
        self.load(instr, 2, LoadKind::Half)
    }

    /// LHU: load a half word, zero-extended.
    pub fn lhu(&self, instr: Instruction) -> (r: Result<Access, Exception>)
        ensures
            r == self.load_access(instr, 2, LoadKind::HalfUnsigned),
    {
        self.load(instr, 2, LoadKind::HalfUnsigned)
    }

    /// LW: load a word; ignored while the cache is isolated.
    pub fn lw(&self, instr: Instruction) -> (r: Result<Access, Exception>)
        ensures
            r == (if self.cache_isolated() { Ok(Access::Nothing) } else { self.load_access(instr, 4, LoadKind::Word) }),
    {
        if self.cop0.sr & 0x10000 != 0 {
            Ok(Access::Nothing)
        } else {
            self.load(instr, 4, LoadKind::Word)
        }
    }

    /// LWL: unaligned left word load.
    pub fn lwl(&self, instr: Instruction) -> (r: Result<Access, Exception>)
        ensures
            r == Ok::<Access, Exception>(self.unaligned_load_access(instr, true)),
    {
        Ok(self.load_unaligned(instr, true))
    }

    /// LWR: unaligned right word load.
    pub fn lwr(&self, instr: Instruction) -> (r: Result<Access, Exception>)
        ensures
            r == Ok::<Access, Exception>(self.unaligned_load_access(instr, false)),
    {
        Ok(self.load_unaligned(instr, false))
    }

    /// SB: store a byte; ignored while the cache is isolated.
    pub fn sb(&self, instr: Instruction) -> (r: Result<Access, Exception>)
        ensures
            r == self.isolated_store(instr, 1),
    {
        if self.cop0.sr & 0x10000 != 0 {
            Ok(Access::Nothing)
        } else {
            self.store(instr, 1)
        }
    }

    /// SH: store a half word; ignored while the cache is isolated.
    pub fn sh(&self, instr: Instruction) -> (r: Result<Access, Exception>)
        ensures
            r == self.isolated_store(instr, 2),
    {
        if self.cop0.sr & 0x10000 != 0 {
            Ok(Access::Nothing)
        } else {
            self.store(instr, 2)
        }
    }

    /// SW: store a word; ignored while the cache is isolated.
    pub fn sw(&self, instr: Instruction) -> (r: Result<Access, Exception>)
        ensures
            r == self.isolated_store(instr, 4),
    {
        if self.cop0.sr & 0x10000 != 0 {
            Ok(Access::Nothing)
        } else {
            self.store(instr, 4)
        }
    }

    /// SWL: unaligned left word store.
    pub fn swl(&self, instr: Instruction) -> (r: Result<Access, Exception>)
        ensures
            r == Ok::<Access, Exception>(self.unaligned_store_access(instr, true)),
    {
        Ok(self.store_unaligned(instr, true))
    }

    /// SWR: unaligned right word store.
    pub fn swr(&self, instr: Instruction) -> (r: Result<Access, Exception>)
        ensures
            r == Ok::<Access, Exception>(self.unaligned_store_access(instr, false)),
    {
        Ok(self.store_unaligned(instr, false))
    }

    /// Coprocessor 0 instructions that do not panic.
    pub open spec fn cop0_ok(self, instr: Instruction) -> bool {
        let rs = instr.spec_rs();
        ||| rs == 0 && Cop0::readable(instr.spec_rd())
        ||| rs == 4 && Cop0::writable(instr.spec_rd())
        ||| rs == 0x10 && instr.spec_sec() == 0x10
    }

    /// Coprocessor 0 instruction: MFC0, MTC0 or RFE.
    pub fn cop0_op(&mut self, instr: Instruction)
        requires
            old(self).cop0_ok(instr),
        ensures
            instr.spec_rs() == 0 ==> old(self).delays_load(*final(self), instr.spec_rt() as int, old(self).cop0.spec_read(instr.spec_rd())),
            instr.spec_rs() == 4 ==> old(self).writes_cop0(*final(self), old(self).cop0.spec_write(instr.spec_rd(), old(self).regs@[instr.spec_rt() as int])),
            instr.spec_rs() == 0x10 ==> old(self).writes_cop0(*final(self), old(self).cop0.spec_rfe()),
    {
        let rs = instr.rs();
        if rs == 0 {
            self.mfc0(instr);
        } else if rs == 4 {
            self.mtc0(instr);
        } else {
            self.cop0.rfe();
        }
    }

    /// MFC0: a coprocessor 0 register, through the load delay, into `rt`.
    pub fn mfc0(&mut self, instr: Instruction)
        requires
            Cop0::readable(instr.spec_rd()),
        ensures
            old(self).delays_load(*final(self), instr.spec_rt() as int, old(self).cop0.spec_read(instr.spec_rd())),
    {
        let data = self.cop0.read(instr.rd());
        self.take_delayed_load(instr.rt(), data);
    }

    /// MTC0: `rt` into a coprocessor 0 register.
    pub fn mtc0(&mut self, instr: Instruction)
        requires
            Cop0::writable(instr.spec_rd()),
        ensures
            old(self).writes_cop0(*final(self), old(self).cop0.spec_write(instr.spec_rd(), old(self).regs@[instr.spec_rt() as int])),
    {
        let data = self.regs[instr.rt()];
        self.cop0.write(instr.rd(), data);
    }

    /// Coprocessor 2 instructions that do not panic.
    pub open spec fn cop2_ok(self, instr: Instruction) -> bool {
        self.cop0.spec_gte_enabled() ==> if instr.spec_is_gte_command() {
            is_command(CommandFields(instr.0).spec_opcode())
        } else {
            let rs = instr.spec_rs();
            rs == 0 || rs == 2 || rs == 4 || rs == 6
        }
    }

    /// Coprocessor 2 instruction: a command, or a move from/to a data
    /// (MFC2, MTC2) or control (CFC2, CTC2) register.
    pub fn cop2(&mut self, instr: Instruction) -> (r: Result<(), Exception>)
        requires
            old(self).cop2_ok(instr),
        ensures
            !old(self).cop0.spec_gte_enabled() ==> r == Err::<(), Exception>(Exception::CoprocessorError) && old(self).unchanged(*final(self)),
            old(self).cop0.spec_gte_enabled() ==> r is Ok && if instr.spec_is_gte_command() {
                old(self).writes_gte(*final(self), (GteModel { flag: 0, ..old(self).gte@ }).run(CommandFields(instr.0)))
            } else if instr.spec_rs() == 0 {
                old(self).delays_load(*final(self), instr.spec_rt() as int, old(self).gte@.read_reg(instr.spec_rd() as int))
            } else if instr.spec_rs() == 2 {
                old(self).delays_load(*final(self), instr.spec_rt() as int, old(self).gte@.read_reg(instr.spec_rd() + 32))
            } else if instr.spec_rs() == 4 {
                old(self).writes_gte(*final(self), old(self).gte@.write_reg(instr.spec_rd() as int, old(self).regs@[instr.spec_rt() as int]))
            } else {
                old(self).writes_gte(*final(self), old(self).gte@.write_reg(instr.spec_rd() + 32, old(self).regs@[instr.spec_rt() as int]))
            },
    {
        if !self.cop0.gte_enabled() {
            return Err(Exception::CoprocessorError);
        }
        if instr.is_gte_command() {
            self.gte.command(CommandFields(instr.0));
            return Ok(());
        }
        let rs = instr.rs();
        let rt = instr.rt();
        let rd = instr.rd();
        if rs == 0 {
            let data = self.gte.read_reg(rd);
            self.take_delayed_load(rt, data);
        } else if rs == 2 {
            let data = self.gte.read_reg(rd + 32);
            self.take_delayed_load(rt, data);
        } else if rs == 4 {
            let data = self.regs[rt];
            self.gte.write_reg(rd, data);
        } else {
            let data = self.regs[rt];
            self.gte.write_reg(rd + 32, data);
        }
        Ok(())
    }

    /// LWC2: load a coprocessor 2 data register.
    pub fn lwc2(&self, instr: Instruction) -> (r: Result<Access, Exception>)
        ensures
            !self.cop0.spec_gte_enabled() ==> r == Err::<Access, Exception>(Exception::CoprocessorError),
            self.cop0.spec_gte_enabled() ==> ({
                let addr = effective_address(self.regs@[instr.spec_rs() as int], instr);
                r == if addr % 4 != 0 {
                    Err::<Access, Exception>(Exception::LoadAddressError(addr))
                } else {
                    Ok::<Access, Exception>(Access::Load { reg: instr.spec_rt(), addr, width: 4, kind: LoadKind::Gte })
                }
            }),
    {
        if !self.cop0.gte_enabled() {
            return Err(Exception::CoprocessorError);
        }
        self.load(instr, 4, LoadKind::Gte)
    }

    /// SWC2: store a coprocessor 2 data register.
    pub fn swc2(&self, instr: Instruction) -> (r: Result<Access, Exception>)
        ensures
            !self.cop0.spec_gte_enabled() ==> r == Err::<Access, Exception>(Exception::CoprocessorError),
            self.cop0.spec_gte_enabled() ==> ({
                let addr = effective_address(self.regs@[instr.spec_rs() as int], instr);
                r == if addr % 4 != 0 {
                    Err::<Access, Exception>(Exception::StoreAddressError(addr))
                } else {
                    Ok::<Access, Exception>(Access::Store { addr, width: 4, data: self.gte@.read_reg(instr.spec_rt() as int) })
                }
            }),
    {
        if !self.cop0.gte_enabled() {
            return Err(Exception::CoprocessorError);
        }
        let addr = self.regs[instr.rs()].wrapping_add(instr.imm16_se());
        let data = self.gte.read_reg(instr.rt());
        if addr % 4 != 0 {
            return Err(Exception::StoreAddressError(addr));
        }
        Ok(Access::Store { addr, width: 4, data })
    }

    /// Instructions whose execution does not panic.
    pub open spec fn executable(self, instr: Instruction) -> bool {
        &&& instr.spec_pri() == 0x10 ==> self.cop0_ok(instr)
        &&& instr.spec_pri() == 0x12 ==> self.cop2_ok(instr)
    }

    /// Whether `instr` can be executed: a coprocessor 0 move of a register
    /// it does not have, an RFE of the wrong form, or an unknown engine
    /// command or move is refused.
    pub fn can_execute(&self, instr: Instruction) -> (r: bool)
        ensures
            r == self.executable(instr),
    {
        let pri = instr.pri();
        if pri == 0x10 {
            let rs = instr.rs();
            let rd = instr.rd();
            let writable = rd == 3 || rd == 5 || rd == 6 || rd == 7 || rd == 9 || rd == 11 || rd == 15 || rd == 8
                || rd == 12 || rd == 13;
            (rs == 0 && (writable || rd == 14)) || (rs == 4 && writable) || (rs == 0x10 && instr.sec() == 0x10)
        } else if pri == 0x12 {
            if !self.cop0.gte_enabled() {
                true
            } else if instr.is_gte_command() {
                let op = CommandFields(instr.0).opcode();
                op == 0x01 || op == 0x06 || op == 0x0C || op == 0x10 || op == 0x11 || op == 0x12 || op == 0x13
                    || op == 0x14 || op == 0x16 || op == 0x1B || op == 0x1C || op == 0x1E || op == 0x20 || op
                    == 0x28 || op == 0x29 || op == 0x2A || op == 0x2D || op == 0x2E || op == 0x30 || op == 0x3D
                    || op == 0x3E || op == 0x3F
            } else {
                let rs = instr.rs();
                rs == 0 || rs == 2 || rs == 4 || rs == 6
            }
        } else {
            true
        }
    }
}


impl Cpu {
    /// What executing an instruction of the SPECIAL group (primary opcode 0) does.
    pub open spec fn special_post(self, new: Cpu, instr: Instruction, r: Result<Access, Exception>) -> bool {
        if instr.spec_sec() == 0x00 {
            // sll
            r == Ok::<Access, Exception>(Access::Nothing) && self.writes_reg(new, instr.spec_rd() as int, self.regs@[instr.spec_rt() as int] << instr.spec_imm5())
        } else if instr.spec_sec() == 0x02 {
            // srl
            r == Ok::<Access, Exception>(Access::Nothing) && self.writes_reg(new, instr.spec_rd() as int, self.regs@[instr.spec_rt() as int] >> instr.spec_imm5())
        } else if instr.spec_sec() == 0x03 {
            // sra
            r == Ok::<Access, Exception>(Access::Nothing) && self.writes_reg(new, instr.spec_rd() as int, ((self.regs@[instr.spec_rt() as int] as i32) >> instr.spec_imm5()) as u32)
        } else if instr.spec_sec() == 0x04 {
            // sllv
            r == Ok::<Access, Exception>(Access::Nothing) && self.writes_reg(new, instr.spec_rd() as int, self.regs@[instr.spec_rt() as int] << (self.regs@[instr.spec_rs() as int] & 0x1F))
        } else if instr.spec_sec() == 0x06 {
            // srlv
            r == Ok::<Access, Exception>(Access::Nothing) && self.writes_reg(new, instr.spec_rd() as int, self.regs@[instr.spec_rt() as int] >> (self.regs@[instr.spec_rs() as int] & 0x1F))
        } else if instr.spec_sec() == 0x07 {
            // srav
            r == Ok::<Access, Exception>(Access::Nothing) && self.writes_reg(new, instr.spec_rd() as int, ((self.regs@[instr.spec_rt() as int] as i32) >> (self.regs@[instr.spec_rs() as int] & 0x1F)) as u32)
        } else if instr.spec_sec() == 0x08 {
            // jr
            r == Ok::<Access, Exception>(Access::Nothing) && self.branches(new, Some(self.regs@[instr.spec_rs() as int]), false, 0)
        } else if instr.spec_sec() == 0x09 {
            // jalr
            r == Ok::<Access, Exception>(Access::Nothing) && self.branches(new, Some(self.regs@[instr.spec_rs() as int]), true, instr.spec_rd() as int)
        } else if instr.spec_sec() == 0x0C {
            // syscall
            r == Err::<Access, Exception>(Exception::Syscall) && self.unchanged(new)
        } else if instr.spec_sec() == 0x0D {
            // breakk
            r == Err::<Access, Exception>(Exception::Break) && self.unchanged(new)
        } else if instr.spec_sec() == 0x10 {
            // mfhi
            r == Ok::<Access, Exception>(Access::Nothing) && self.writes_reg(new, instr.spec_rd() as int, self.hi)
        } else if instr.spec_sec() == 0x11 {
            // mthi
            r == Ok::<Access, Exception>(Access::Nothing) && self.writes_hilo(new, self.regs@[instr.spec_rs() as int], self.lo)
        } else if instr.spec_sec() == 0x12 {
            // mflo
            r == Ok::<Access, Exception>(Access::Nothing) && self.writes_reg(new, instr.spec_rd() as int, self.lo)
        } else if instr.spec_sec() == 0x13 {
            // mtlo
            r == Ok::<Access, Exception>(Access::Nothing) && self.writes_hilo(new, self.hi, self.regs@[instr.spec_rs() as int])
        } else if instr.spec_sec() == 0x18 {
            // mult
            r == Ok::<Access, Exception>(Access::Nothing) && ({
                let p = (self.regs@[instr.spec_rs() as int] as i32) * (self.regs@[instr.spec_rt() as int] as i32);
                self.writes_hilo(new, ((p / 0x1_0000_0000) % 0x1_0000_0000) as u32, (p % 0x1_0000_0000) as u32)
            })
        } else if instr.spec_sec() == 0x19 {
            // multu
            r == Ok::<Access, Exception>(Access::Nothing) && ({
                let p = self.regs@[instr.spec_rs() as int] * self.regs@[instr.spec_rt() as int];
                self.writes_hilo(new, (p / 0x1_0000_0000) as u32, (p % 0x1_0000_0000) as u32)
            })
        } else if instr.spec_sec() == 0x1A {
            // div
            r == Ok::<Access, Exception>(Access::Nothing) && ({
                let (q, m) = spec_div(self.regs@[instr.spec_rs() as int] as i32, self.regs@[instr.spec_rt() as int] as i32);
                self.writes_hilo(new, m as i32 as u32, q as i32 as u32)
            })
        } else if instr.spec_sec() == 0x1B {
            // divu
            r == Ok::<Access, Exception>(Access::Nothing) && (if self.regs@[instr.spec_rt() as int] == 0 {
                self.writes_hilo(new, self.regs@[instr.spec_rs() as int], u32::MAX)
            } else {
                self.writes_hilo(new, self.regs@[instr.spec_rs() as int] % self.regs@[instr.spec_rt() as int], self.regs@[instr.spec_rs() as int] / self.regs@[instr.spec_rt() as int])
            })
        } else if instr.spec_sec() == 0x20 {
            // add
            (if i32::MIN <= (self.regs@[instr.spec_rs() as int] as i32) + (self.regs@[instr.spec_rt() as int] as i32) <= i32::MAX {
                r == Ok::<Access, Exception>(Access::Nothing) && self.writes_reg(new, instr.spec_rd() as int, ((self.regs@[instr.spec_rs() as int] as i32) + (self.regs@[instr.spec_rt() as int] as i32)) as i32 as u32)
            } else {
                r == Err::<Access, Exception>(Exception::Overflow) && self.unchanged(new)
            })
        } else if instr.spec_sec() == 0x21 {
            // addu
            r == Ok::<Access, Exception>(Access::Nothing) && self.writes_reg(new, instr.spec_rd() as int, self.regs@[instr.spec_rs() as int].wrapping_add(self.regs@[instr.spec_rt() as int]))
        } else if instr.spec_sec() == 0x22 {
            // sub
            (if i32::MIN <= (self.regs@[instr.spec_rs() as int] as i32) - (self.regs@[instr.spec_rt() as int] as i32) <= i32::MAX {
                r == Ok::<Access, Exception>(Access::Nothing) && self.writes_reg(new, instr.spec_rd() as int, ((self.regs@[instr.spec_rs() as int] as i32) - (self.regs@[instr.spec_rt() as int] as i32)) as i32 as u32)
            } else {
                r == Err::<Access, Exception>(Exception::Overflow) && self.unchanged(new)
            })
        } else if instr.spec_sec() == 0x23 {
            // subu
            r == Ok::<Access, Exception>(Access::Nothing) && self.writes_reg(new, instr.spec_rd() as int, self.regs@[instr.spec_rs() as int].wrapping_sub(self.regs@[instr.spec_rt() as int]))
        } else if instr.spec_sec() == 0x24 {
            // and
            r == Ok::<Access, Exception>(Access::Nothing) && self.writes_reg(new, instr.spec_rd() as int, self.regs@[instr.spec_rs() as int] & self.regs@[instr.spec_rt() as int])
        } else if instr.spec_sec() == 0x25 {
            // or
            r == Ok::<Access, Exception>(Access::Nothing) && self.writes_reg(new, instr.spec_rd() as int, self.regs@[instr.spec_rs() as int] | self.regs@[instr.spec_rt() as int])
        } else if instr.spec_sec() == 0x26 {
            // xor
            r == Ok::<Access, Exception>(Access::Nothing) && self.writes_reg(new, instr.spec_rd() as int, self.regs@[instr.spec_rs() as int] ^ self.regs@[instr.spec_rt() as int])
        } else if instr.spec_sec() == 0x27 {
            // nor
            r == Ok::<Access, Exception>(Access::Nothing) && self.writes_reg(new, instr.spec_rd() as int, 0xFFFF_FFFFu32 ^ (self.regs@[instr.spec_rs() as int] | self.regs@[instr.spec_rt() as int]))
        } else if instr.spec_sec() == 0x2A {
            // slt
            r == Ok::<Access, Exception>(Access::Nothing) && self.writes_reg(new, instr.spec_rd() as int, (if (self.regs@[instr.spec_rs() as int] as i32) < (self.regs@[instr.spec_rt() as int] as i32) { 1u32 } else { 0u32 }))
        } else if instr.spec_sec() == 0x2B {
            // sltu
            r == Ok::<Access, Exception>(Access::Nothing) && self.writes_reg(new, instr.spec_rd() as int, (if self.regs@[instr.spec_rs() as int] < self.regs@[instr.spec_rt() as int] { 1u32 } else { 0u32 }))
        } else {
            r == Err::<Access, Exception>(Exception::IllegalInstruction) && self.unchanged(new)
        }
    }

    /// What executing an instruction does: the new state and the bus access or exception.
    pub open spec fn execute_post(self, new: Cpu, instr: Instruction, r: Result<Access, Exception>) -> bool {
        if instr.spec_pri() == 0 {
            self.special_post(new, instr, r)
        } else if instr.spec_pri() == 0x01 {
            // bxxx
            ({
                let ge = (instr.0 >> 16u32) & 1 == 1;
                let al = (instr.0 >> 17u32) & 0xF == 0x8;
                let cond = ((self.regs@[instr.spec_rs() as int] as i32) < 0) != ge;
                r == Ok::<Access, Exception>(Access::Nothing) && self.branches(new, if cond { Some(branch_target(self.pc, instr.spec_imm16_se())) } else { None }, al, 31)
            })
        } else if instr.spec_pri() == 0x02 {
            // j
            r == Ok::<Access, Exception>(Access::Nothing) && self.branches(new, Some(jump_target(self.pc, instr.spec_imm26())), false, 0)
        } else if instr.spec_pri() == 0x03 {
            // jal
            r == Ok::<Access, Exception>(Access::Nothing) && self.branches(new, Some(jump_target(self.pc, instr.spec_imm26())), true, 31)
        } else if instr.spec_pri() == 0x04 {
            // beq
            r == Ok::<Access, Exception>(Access::Nothing) && self.branches(new, if self.regs@[instr.spec_rs() as int] == self.regs@[instr.spec_rt() as int] { Some(branch_target(self.pc, instr.spec_imm16_se())) } else { None }, false, 0)
        } else if instr.spec_pri() == 0x05 {
            // bne
            r == Ok::<Access, Exception>(Access::Nothing) && self.branches(new, if self.regs@[instr.spec_rs() as int] != self.regs@[instr.spec_rt() as int] { Some(branch_target(self.pc, instr.spec_imm16_se())) } else { None }, false, 0)
        } else if instr.spec_pri() == 0x06 {
            // blez
            r == Ok::<Access, Exception>(Access::Nothing) && self.branches(new, if (self.regs@[instr.spec_rs() as int] as i32) <= 0 { Some(branch_target(self.pc, instr.spec_imm16_se())) } else { None }, false, 0)
        } else if instr.spec_pri() == 0x07 {
            // bgtz
            r == Ok::<Access, Exception>(Access::Nothing) && self.branches(new, if (self.regs@[instr.spec_rs() as int] as i32) > 0 { Some(branch_target(self.pc, instr.spec_imm16_se())) } else { None }, false, 0)
        } else if instr.spec_pri() == 0x08 {
            // addi
            (if i32::MIN <= (self.regs@[instr.spec_rs() as int] as i32) + (instr.spec_imm16_se() as i32) <= i32::MAX {
                r == Ok::<Access, Exception>(Access::Nothing) && self.writes_reg(new, instr.spec_rt() as int, ((self.regs@[instr.spec_rs() as int] as i32) + (instr.spec_imm16_se() as i32)) as i32 as u32)
            } else {
                r == Err::<Access, Exception>(Exception::Overflow) && self.unchanged(new)
            })
        } else if instr.spec_pri() == 0x09 {
            // addiu
            r == Ok::<Access, Exception>(Access::Nothing) && self.writes_reg(new, instr.spec_rt() as int, self.regs@[instr.spec_rs() as int].wrapping_add(instr.spec_imm16_se()))
        } else if instr.spec_pri() == 0x0A {
            // slti
            r == Ok::<Access, Exception>(Access::Nothing) && self.writes_reg(new, instr.spec_rt() as int, (if (self.regs@[instr.spec_rs() as int] as i32) < (instr.spec_imm16_se() as i32) { 1u32 } else { 0u32 }))
        } else if instr.spec_pri() == 0x0B {
            // sltiu
            r == Ok::<Access, Exception>(Access::Nothing) && self.writes_reg(new, instr.spec_rt() as int, (if self.regs@[instr.spec_rs() as int] < instr.spec_imm16_se() { 1u32 } else { 0u32 }))
        } else if instr.spec_pri() == 0x0C {
            // andi
            r == Ok::<Access, Exception>(Access::Nothing) && self.writes_reg(new, instr.spec_rt() as int, self.regs@[instr.spec_rs() as int] & instr.spec_imm16())
        } else if instr.spec_pri() == 0x0D {
            // ori
            r == Ok::<Access, Exception>(Access::Nothing) && self.writes_reg(new, instr.spec_rt() as int, self.regs@[instr.spec_rs() as int] | instr.spec_imm16())
        } else if instr.spec_pri() == 0x0E {
            // xori
            r == Ok::<Access, Exception>(Access::Nothing) && self.writes_reg(new, instr.spec_rt() as int, self.regs@[instr.spec_rs() as int] ^ instr.spec_imm16())
        } else if instr.spec_pri() == 0x0F {
            // lui
            r == Ok::<Access, Exception>(Access::Nothing) && self.writes_reg(new, instr.spec_rt() as int, instr.spec_imm16() << 16u32)
        } else if instr.spec_pri() == 0x10 {
            // cop0
            r == Ok::<Access, Exception>(Access::Nothing) && (if instr.spec_rs() == 0 {
                self.delays_load(new, instr.spec_rt() as int, self.cop0.spec_read(instr.spec_rd()))
            } else if instr.spec_rs() == 4 {
                self.writes_cop0(new, self.cop0.spec_write(instr.spec_rd(), self.regs@[instr.spec_rt() as int]))
            } else {
                self.writes_cop0(new, self.cop0.spec_rfe())
            })
        } else if instr.spec_pri() == 0x11 {
            // cop1
            r == Err::<Access, Exception>(Exception::CoprocessorError) && self.unchanged(new)
        } else if instr.spec_pri() == 0x12 {
            // cop2
            (if !self.cop0.spec_gte_enabled() {
                r == Err::<Access, Exception>(Exception::CoprocessorError) && self.unchanged(new)
            } else {
                r == Ok::<Access, Exception>(Access::Nothing) && if instr.spec_is_gte_command() {
                    self.writes_gte(new, (GteModel { flag: 0, ..self.gte@ }).run(CommandFields(instr.0)))
                } else if instr.spec_rs() == 0 {
                    self.delays_load(new, instr.spec_rt() as int, self.gte@.read_reg(instr.spec_rd() as int))
                } else if instr.spec_rs() == 2 {
                    self.delays_load(new, instr.spec_rt() as int, self.gte@.read_reg(instr.spec_rd() + 32))
                } else if instr.spec_rs() == 4 {
                    self.writes_gte(new, self.gte@.write_reg(instr.spec_rd() as int, self.regs@[instr.spec_rt() as int]))
                } else {
                    self.writes_gte(new, self.gte@.write_reg(instr.spec_rd() + 32, self.regs@[instr.spec_rt() as int]))
                }
            })
        } else if instr.spec_pri() == 0x13 {
            // cop3
            r == Err::<Access, Exception>(Exception::CoprocessorError) && self.unchanged(new)
        } else if instr.spec_pri() == 0x20 {
            // lb
            self.unchanged(new) && r == self.load_access(instr, 1, LoadKind::Byte)
        } else if instr.spec_pri() == 0x21 {
            // lh
            self.unchanged(new) && r == self.load_access(instr, 2, LoadKind::Half)
        } else if instr.spec_pri() == 0x22 {
            // lwl
            self.unchanged(new) && r == Ok::<Access, Exception>(self.unaligned_load_access(instr, true))
        } else if instr.spec_pri() == 0x23 {
            // lw
            self.unchanged(new) && r == (if self.cache_isolated() {
                Ok::<Access, Exception>(Access::Nothing)
            } else {
                self.load_access(instr, 4, LoadKind::Word)
            })
        } else if instr.spec_pri() == 0x24 {
            // lbu
            self.unchanged(new) && r == self.load_access(instr, 1, LoadKind::ByteUnsigned)
        } else if instr.spec_pri() == 0x25 {
            // lhu
            self.unchanged(new) && r == self.load_access(instr, 2, LoadKind::HalfUnsigned)
        } else if instr.spec_pri() == 0x26 {
            // lwr
            self.unchanged(new) && r == Ok::<Access, Exception>(self.unaligned_load_access(instr, false))
        } else if instr.spec_pri() == 0x28 {
            // sb
            self.unchanged(new) && r == self.isolated_store(instr, 1)
        } else if instr.spec_pri() == 0x29 {
            // sh
            self.unchanged(new) && r == self.isolated_store(instr, 2)
        } else if instr.spec_pri() == 0x2A {
            // swl
            self.unchanged(new) && r == Ok::<Access, Exception>(self.unaligned_store_access(instr, true))
        } else if instr.spec_pri() == 0x2B {
            // sw
            self.unchanged(new) && r == self.isolated_store(instr, 4)
        } else if instr.spec_pri() == 0x2E {
            // swr
            self.unchanged(new) && r == Ok::<Access, Exception>(self.unaligned_store_access(instr, false))
        } else if instr.spec_pri() == 0x30 {
            // lwc0
            r == Err::<Access, Exception>(Exception::CoprocessorError) && self.unchanged(new)
        } else if instr.spec_pri() == 0x31 {
            // lwc1
            r == Err::<Access, Exception>(Exception::CoprocessorError) && self.unchanged(new)
        } else if instr.spec_pri() == 0x32 {
            // lwc2
            (if !self.cop0.spec_gte_enabled() {
                r == Err::<Access, Exception>(Exception::CoprocessorError) && self.unchanged(new)
            } else { ({
                let addr = effective_address(self.regs@[instr.spec_rs() as int], instr);
                self.unchanged(new) && r == if addr % 4 != 0 {
                    Err::<Access, Exception>(Exception::LoadAddressError(addr))
                } else {
                    Ok::<Access, Exception>(Access::Load { reg: instr.spec_rt(), addr, width: 4, kind: LoadKind::Gte })
                }
            }) })
        } else if instr.spec_pri() == 0x33 {
            // lwc3
            r == Err::<Access, Exception>(Exception::CoprocessorError) && self.unchanged(new)
        } else if instr.spec_pri() == 0x38 {
            // swc0
            r == Err::<Access, Exception>(Exception::CoprocessorError) && self.unchanged(new)
        } else if instr.spec_pri() == 0x39 {
            // swc1
            r == Err::<Access, Exception>(Exception::CoprocessorError) && self.unchanged(new)
        } else if instr.spec_pri() == 0x3A {
            // swc2
            (if !self.cop0.spec_gte_enabled() {
                r == Err::<Access, Exception>(Exception::CoprocessorError) && self.unchanged(new)
            } else { ({
                let addr = effective_address(self.regs@[instr.spec_rs() as int], instr);
                self.unchanged(new) && r == if addr % 4 != 0 {
                    Err::<Access, Exception>(Exception::StoreAddressError(addr))
                } else {
                    Ok::<Access, Exception>(Access::Store { addr, width: 4, data: self.gte@.read_reg(instr.spec_rt() as int) })
                }
            }) })
        } else if instr.spec_pri() == 0x3B {
            // swc3
            r == Err::<Access, Exception>(Exception::CoprocessorError) && self.unchanged(new)
        } else {
            r == Err::<Access, Exception>(Exception::IllegalInstruction) && self.unchanged(new)
        }
    }
}

impl Cpu {
    fn execute_special(&mut self, instr: Instruction) -> (r: Result<Access, Exception>)
        requires
            old(self).executable(instr),
            instr.spec_pri() == 0,
        ensures
            old(self).special_post(*final(self), instr, r),
    {
        match instr.sec() {
            0x00 => match self.sll(instr) {
                Ok(()) => Ok(Access::Nothing),
                Err(e) => Err(e),
            },
            0x02 => match self.srl(instr) {
                Ok(()) => Ok(Access::Nothing),
                Err(e) => Err(e),
            },
            0x03 => match self.sra(instr) {
                Ok(()) => Ok(Access::Nothing),
                Err(e) => Err(e),
            },
            0x04 => match self.sllv(instr) {
                Ok(()) => Ok(Access::Nothing),
                Err(e) => Err(e),
            },
            0x06 => match self.srlv(instr) {
                Ok(()) => Ok(Access::Nothing),
                Err(e) => Err(e),
            },
            0x07 => match self.srav(instr) {
                Ok(()) => Ok(Access::Nothing),
                Err(e) => Err(e),
            },
            0x08 => match self.jr(instr) {
                Ok(()) => Ok(Access::Nothing),
                Err(e) => Err(e),
            },
            0x09 => match self.jalr(instr) {
                Ok(()) => Ok(Access::Nothing),
                Err(e) => Err(e),
            },
            0x0C => match Self::syscall() {
                Ok(()) => Ok(Access::Nothing),
                Err(e) => Err(e),
            },
            0x0D => match Self::breakk() {
                Ok(()) => Ok(Access::Nothing),
                Err(e) => Err(e),
            },
            0x10 => match self.mfhi(instr) {
                Ok(()) => Ok(Access::Nothing),
                Err(e) => Err(e),
            },
            0x11 => match self.mthi(instr) {
                Ok(()) => Ok(Access::Nothing),
                Err(e) => Err(e),
            },
            0x12 => match self.mflo(instr) {
                Ok(()) => Ok(Access::Nothing),
                Err(e) => Err(e),
            },
            0x13 => match self.mtlo(instr) {
                Ok(()) => Ok(Access::Nothing),
                Err(e) => Err(e),
            },
            0x18 => match self.mult(instr) {
                Ok(()) => Ok(Access::Nothing),
                Err(e) => Err(e),
            },
            0x19 => match self.multu(instr) {
                Ok(()) => Ok(Access::Nothing),
                Err(e) => Err(e),
            },
            0x1A => match self.div(instr) {
                Ok(()) => Ok(Access::Nothing),
                Err(e) => Err(e),
            },
            0x1B => match self.divu(instr) {
                Ok(()) => Ok(Access::Nothing),
                Err(e) => Err(e),
            },
            0x20 => match self.add(instr) {
                Ok(()) => Ok(Access::Nothing),
                Err(e) => Err(e),
            },
            0x21 => match self.addu(instr) {
                Ok(()) => Ok(Access::Nothing),
                Err(e) => Err(e),
            },
            0x22 => match self.sub(instr) {
                Ok(()) => Ok(Access::Nothing),
                Err(e) => Err(e),
            },
            0x23 => match self.subu(instr) {
                Ok(()) => Ok(Access::Nothing),
                Err(e) => Err(e),
            },
            0x24 => match self.and(instr) {
                Ok(()) => Ok(Access::Nothing),
                Err(e) => Err(e),
            },
            0x25 => match self.or(instr) {
                Ok(()) => Ok(Access::Nothing),
                Err(e) => Err(e),
            },
            0x26 => match self.xor(instr) {
                Ok(()) => Ok(Access::Nothing),
                Err(e) => Err(e),
            },
            0x27 => match self.nor(instr) {
                Ok(()) => Ok(Access::Nothing),
                Err(e) => Err(e),
            },
            0x2A => match self.slt(instr) {
                Ok(()) => Ok(Access::Nothing),
                Err(e) => Err(e),
            },
            0x2B => match self.sltu(instr) {
                Ok(()) => Ok(Access::Nothing),
                Err(e) => Err(e),
            },
            _ => Err(Exception::IllegalInstruction),
        }
    }

    /// Executes `instr` on the processor state. Loads and stores come back
    /// as the bus access to perform.
    pub fn execute_opcode(&mut self, instr: Instruction) -> (r: Result<Access, Exception>)
        requires
            old(self).executable(instr),
        ensures
            old(self).execute_post(*final(self), instr, r),
    {
        let pri = instr.pri();
        if pri == 0 {
            return self.execute_special(instr);
        }
        self.execute_main(instr)
    }

    fn execute_main(&mut self, instr: Instruction) -> (r: Result<Access, Exception>)
        requires
            old(self).executable(instr),
            instr.spec_pri() != 0,
        ensures
            old(self).execute_post(*final(self), instr, r),
    {
        match instr.pri() {
            0x01 => match self.bxxx(instr) {
                Ok(()) => Ok(Access::Nothing),
                Err(e) => Err(e),
            },
            0x02 => match self.j(instr) {
                Ok(()) => Ok(Access::Nothing),
                Err(e) => Err(e),
            },
            0x03 => match self.jal(instr) {
                Ok(()) => Ok(Access::Nothing),
                Err(e) => Err(e),
            },
            0x04 => match self.beq(instr) {
                Ok(()) => Ok(Access::Nothing),
                Err(e) => Err(e),
            },
            0x05 => match self.bne(instr) {
                Ok(()) => Ok(Access::Nothing),
                Err(e) => Err(e),
            },
            0x06 => match self.blez(instr) {
                Ok(()) => Ok(Access::Nothing),
                Err(e) => Err(e),
            },
            0x07 => match self.bgtz(instr) {
                Ok(()) => Ok(Access::Nothing),
                Err(e) => Err(e),
            },
            0x08 => match self.addi(instr) {
                Ok(()) => Ok(Access::Nothing),
                Err(e) => Err(e),
            },
            0x09 => match self.addiu(instr) {
                Ok(()) => Ok(Access::Nothing),
                Err(e) => Err(e),
            },
            0x0A => match self.slti(instr) {
                Ok(()) => Ok(Access::Nothing),
                Err(e) => Err(e),
            },
            0x0B => match self.sltiu(instr) {
                Ok(()) => Ok(Access::Nothing),
                Err(e) => Err(e),
            },
            0x0C => match self.andi(instr) {
                Ok(()) => Ok(Access::Nothing),
                Err(e) => Err(e),
            },
            0x0D => match self.ori(instr) {
                Ok(()) => Ok(Access::Nothing),
                Err(e) => Err(e),
            },
            0x0E => match self.xori(instr) {
                Ok(()) => Ok(Access::Nothing),
                Err(e) => Err(e),
            },
            0x0F => match self.lui(instr) {
                Ok(()) => Ok(Access::Nothing),
                Err(e) => Err(e),
            },
            0x10 => {
                self.cop0_op(instr);
                Ok(Access::Nothing)
            },
            0x11 => match Self::cop1() {
                Ok(()) => Ok(Access::Nothing),
                Err(e) => Err(e),
            },
            0x12 => match self.cop2(instr) {
                Ok(()) => Ok(Access::Nothing),
                Err(e) => Err(e),
            },
            0x13 => match Self::cop3() {
                Ok(()) => Ok(Access::Nothing),
                Err(e) => Err(e),
            },
            0x20 => self.lb(instr),
            0x21 => self.lh(instr),
            0x22 => self.lwl(instr),
            0x23 => self.lw(instr),
            0x24 => self.lbu(instr),
            0x25 => self.lhu(instr),
            0x26 => self.lwr(instr),
            0x28 => self.sb(instr),
            0x29 => self.sh(instr),
            0x2A => self.swl(instr),
            0x2B => self.sw(instr),
            0x2E => self.swr(instr),
            0x30 => match Self::lwc0() {
                Ok(()) => Ok(Access::Nothing),
                Err(e) => Err(e),
            },
            0x31 => match Self::lwc1() {
                Ok(()) => Ok(Access::Nothing),
                Err(e) => Err(e),
            },
            0x32 => self.lwc2(instr),
            0x33 => match Self::lwc3() {
                Ok(()) => Ok(Access::Nothing),
                Err(e) => Err(e),
            },
            0x38 => match Self::swc0() {
                Ok(()) => Ok(Access::Nothing),
                Err(e) => Err(e),
            },
            0x39 => match Self::swc1() {
                Ok(()) => Ok(Access::Nothing),
                Err(e) => Err(e),
            },
            0x3A => self.swc2(instr),
            0x3B => match Self::swc3() {
                Ok(()) => Ok(Access::Nothing),
                Err(e) => Err(e),
            },
            _ => Err(Exception::IllegalInstruction),
        }
    }
}

/// A word at an unaligned address `a` with `a & 3 == k` loads with LWR at
/// `a` followed by LWL at `a + 3`: the result holds the upper bytes of the
/// aligned word `w0` at `a` followed by the lower bytes of the next word `w1`,
/// as a little-endian load of the four bytes starting at `a`.
pub proof fn lemma_unaligned_word_load(v: u32, w0: u32, w1: u32, k: u32)
    requires
        1 <= k <= 3,
    ensures
        k == 1 ==> spec_lwl(spec_lwr(v, w0, k), w1, 0) == (w0 >> 8u32) | (w1 << 24u32),
        k == 2 ==> spec_lwl(spec_lwr(v, w0, k), w1, 1) == (w0 >> 16u32) | (w1 << 16u32),
        k == 3 ==> spec_lwl(spec_lwr(v, w0, k), w1, 2) == (w0 >> 24u32) | (w1 << 8u32),
{
    assert(((((v & 0xFF00_0000) | (w0 >> 8u32)) & 0x00FF_FFFF) | (w1 << 24u32)) == (w0 >> 8u32) | (w1 << 24u32)
        && ((((v & 0xFFFF_0000) | (w0 >> 16u32)) & 0x0000_FFFF) | (w1 << 16u32)) == (w0 >> 16u32) | (w1 << 16u32)
        && ((((v & 0xFFFF_FF00) | (w0 >> 24u32)) & 0x0000_00FF) | (w1 << 8u32)) == (w0 >> 24u32) | (w1 << 8u32))
        by (bit_vector);
}

/// An aligned access (offset 0) of LWR or LWL at offset 3 loads the whole word.
pub proof fn lemma_aligned_unaligned_load(v: u32, w: u32)
    ensures
        spec_lwr(v, w, 0) == w,
        spec_lwl(v, w, 3) == w,
        spec_swr(v, w, 0) == w,
        spec_swl(v, w, 3) == w,
{
}

} // verus!
