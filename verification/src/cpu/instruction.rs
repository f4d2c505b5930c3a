//! Instruction word fields and exceptions.
use vstd::prelude::*;

verus! {

/// A 32-bit MIPS instruction word.
#[derive(Clone, Copy)]
pub struct Instruction(pub u32);

impl Instruction {
    /// Primary opcode, bits 31..26.
    pub open spec fn spec_pri(self) -> u32 {
        self.0 >> 26u32
    }

    /// Secondary opcode, bits 5..0.
    pub open spec fn spec_sec(self) -> u32 {
        self.0 & 0x3F
    }

    pub open spec fn spec_rs(self) -> usize {
        ((self.0 >> 21u32) & 0x1F) as usize
    }

    pub open spec fn spec_rt(self) -> usize {
        ((self.0 >> 16u32) & 0x1F) as usize
    }

    pub open spec fn spec_rd(self) -> usize {
        ((self.0 >> 11u32) & 0x1F) as usize
    }

    /// Shift amount, bits 10..6.
    pub open spec fn spec_imm5(self) -> u32 {
        (self.0 >> 6u32) & 0x1F
    }

    /// Immediate, bits 15..0.
    pub open spec fn spec_imm16(self) -> u32 {
        self.0 & 0xFFFF
    }

    /// Immediate, bits 15..0, sign-extended to 32 bits.
    pub open spec fn spec_imm16_se(self) -> u32 {
        (self.0 & 0xFFFF) as u16 as i16 as u32
    }

    /// Jump target, bits 25..0.
    pub open spec fn spec_imm26(self) -> u32 {
        self.0 & 0x3FF_FFFF
    }

    pub fn pri(&self) -> (r: u32)
        ensures
            r == self.spec_pri(),
            r < 64,
    {
        proof { lemma_field_bounds(self.0); }
        self.0 >> 26u32
    }

    pub fn sec(&self) -> (r: u32)
        ensures
            r == self.spec_sec(),
            r < 64,
    {
        proof { lemma_field_bounds(self.0); }
        self.0 & 0x3F
    }

    pub fn rs(&self) -> (r: usize)
        ensures
            r == self.spec_rs(),
            r < 32,
    {
        proof { lemma_field_bounds(self.0); }
        ((self.0 >> 21u32) & 0x1F) as usize
    }

    pub fn rt(&self) -> (r: usize)
        ensures
            r == self.spec_rt(),
            r < 32,
    {
        proof { lemma_field_bounds(self.0); }
        ((self.0 >> 16u32) & 0x1F) as usize
    }

    pub fn rd(&self) -> (r: usize)
        ensures
            r == self.spec_rd(),
            r < 32,
    {
        proof { lemma_field_bounds(self.0); }
        ((self.0 >> 11u32) & 0x1F) as usize
    }

    pub fn imm5(&self) -> (r: u32)
        ensures
            r == self.spec_imm5(),
            r < 32,
    {
        proof { lemma_field_bounds(self.0); }
        (self.0 >> 6u32) & 0x1F
    }

    pub fn imm16(&self) -> (r: u32)
        ensures
            r == self.spec_imm16(),
            r <= 0xFFFF,
    {
        proof { lemma_field_bounds(self.0); }
        self.0 & 0xFFFF
    }

    pub fn imm16_se(&self) -> (r: u32)
        ensures
            r == self.spec_imm16_se(),
    {
        (self.0 & 0xFFFF) as u16 as i16 as u32
    }

    pub fn imm26(&self) -> (r: u32)
        ensures
            r == self.spec_imm26(),
            r < 0x400_0000,
    {
        proof { lemma_field_bounds(self.0); }
        self.0 & 0x3FF_FFFF
    }

    /// Whether a coprocessor 2 instruction is a command (bit 25 set).
    pub open spec fn spec_is_gte_command(self) -> bool {
        (self.0 >> 25u32) & 1 == 1
    }

    pub fn is_gte_command(&self) -> (r: bool)
        ensures
            r == self.spec_is_gte_command(),
    {
        (self.0 >> 25u32) & 1 == 1
    }
}

proof fn lemma_field_bounds(v: u32)
    ensures
        v >> 26u32 < 64,
        v & 0x3F < 64,
        (v >> 21u32) & 0x1F < 32,
        (v >> 16u32) & 0x1F < 32,
        (v >> 11u32) & 0x1F < 32,
        (v >> 6u32) & 0x1F < 32,
        v & 0xFFFF <= 0xFFFF,
        v & 0x3FF_FFFF < 0x400_0000,
{
    assert(v >> 26u32 < 64 && v & 0x3F < 64 && (v >> 21u32) & 0x1F < 32 && (v >> 16u32) & 0x1F < 32
        && (v >> 11u32) & 0x1F < 32 && (v >> 6u32) & 0x1F < 32 && v & 0xFFFF <= 0xFFFF && v
        & 0x3FF_FFFF < 0x400_0000) by (bit_vector);
}

/// Exceptions that an instruction can raise.
#[derive(Clone, Copy, PartialEq, Eq, Structural)]
pub enum Exception {
    ExternalInterrupt,
    LoadAddressError(u32),
    StoreAddressError(u32),
    Syscall,
    Break,
    IllegalInstruction,
    CoprocessorError,
    Overflow,
}

impl Exception {
    /// The exception code that the cause register reports.
    pub open spec fn spec_code(self) -> u32 {
        match self {
            Exception::ExternalInterrupt => 0x0,
            Exception::LoadAddressError(_) => 0x4,
            Exception::StoreAddressError(_) => 0x5,
            Exception::Syscall => 0x8,
            Exception::Break => 0x9,
            Exception::IllegalInstruction => 0xA,
            Exception::CoprocessorError => 0xB,
            Exception::Overflow => 0xC,
        }
    }

    pub fn code(&self) -> (r: u32)
        ensures
            r == self.spec_code(),
    {
        match self {
            Exception::ExternalInterrupt => 0x0,
            Exception::LoadAddressError(_) => 0x4,
            Exception::StoreAddressError(_) => 0x5,
            Exception::Syscall => 0x8,
            Exception::Break => 0x9,
            Exception::IllegalInstruction => 0xA,
            Exception::CoprocessorError => 0xB,
            Exception::Overflow => 0xC,
        }
    }
}

} // verus!
