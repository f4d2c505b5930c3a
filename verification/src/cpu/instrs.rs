//! Arithmetic, logic, shift, multiply, divide and branch instructions.
use vstd::prelude::*;

use crate::cpu::instruction::{Exception, Instruction};
use crate::cpu::Cpu;

verus! {

/// Truncating signed division, as the `/` of signed machine integers.
pub open spec fn trunc_div(a: int, b: int) -> int {
    let q = abs(a) / abs(b);
    if (a < 0) != (b < 0) { -q } else { q }
}

/// Remainder of truncating signed division: it has the sign of `a`.
pub open spec fn trunc_rem(a: int, b: int) -> int {
    a - b * trunc_div(a, b)
}

pub open spec fn abs(a: int) -> int {
    if a < 0 { -a } else { a }
}

/// Quotient and remainder of signed division by the R3000A: division by zero
/// gives -1 or 1 and leaves the dividend as remainder; MIN / -1 gives MIN, 0.
pub open spec fn spec_div(a: i32, b: i32) -> (int, int) {
    if b == -1 && a == i32::MIN {
        (i32::MIN as int, 0)
    } else if b == 0 {
        (if a >= 0 { -1 } else { 1 }, a as int)
    } else {
        (trunc_div(a as int, b as int), trunc_rem(a as int, b as int))
    }
}

/// Branch target of a relative branch at `pc` with sign-extended offset `imm`.
pub open spec fn branch_target(pc: u32, imm: u32) -> u32 {
    pc.wrapping_add((imm << 2u32).wrapping_add(4))
}

/// Jump target within the current 256 MiB region.
pub open spec fn jump_target(pc: u32, imm26: u32) -> u32 {
    ((pc & 0xF000_0000) + (imm26 << 2u32)) as u32
}

/// A taken relative branch at `pc` whose instruction holds the 16-bit
/// offset `o` (signed) goes to pc + 4 + 4 * o, modulo 2^32: past the delay
/// slot, so an offset of 0 lands on the delay slot's instruction.
pub proof fn lemma_branch_target(pc: u32, instr: Instruction)
    ensures
        ({
            let o = instr.0 & 0xFFFF;
            let off: int = if o >= 0x8000 { o - 0x1_0000 } else { o as int };
            branch_target(pc, instr.spec_imm16_se()) as int == (pc + 4 + 4 * off) % 0x1_0000_0000
        }),
        instr.0 & 0xFFFF == 0 ==> branch_target(pc, instr.spec_imm16_se()) == pc.wrapping_add(4),
{
    let w = instr.0;
    let o = w & 0xFFFF;
    let se = instr.spec_imm16_se();
    assert(se == (w & 0xFFFF) as u16 as i16 as u32);
    assert(o < 0x8000 ==> se == o) by (bit_vector)
        requires
            se == (w & 0xFFFF) as u16 as i16 as u32,
            o == w & 0xFFFF,
    ;
    assert(o >= 0x8000 ==> se == o + 0xFFFF_0000) by (bit_vector)
        requires
            se == (w & 0xFFFF) as u16 as i16 as u32,
            o == w & 0xFFFF,
    ;
    assert(se << 2u32 == (4 * se) % 0x1_0000_0000) by (bit_vector);
    assert(o <= 0xFFFF) by (bit_vector)
        requires
            o == w & 0xFFFF,
    ;
}

/// A jump (J, JAL) keeps the top four bits of pc and puts the instruction's
/// 26-bit index times four below them: it stays in pc's 256 MiB region and
/// lands on a word boundary.
pub proof fn lemma_jump_target(pc: u32, instr: Instruction)
    ensures
        jump_target(pc, instr.spec_imm26()) as int == pc as int - pc as int % 0x1000_0000 + 4 * (instr.0 as int
            % 0x400_0000),
        jump_target(pc, instr.spec_imm26()) / 0x1000_0000 == pc / 0x1000_0000,
        jump_target(pc, instr.spec_imm26()) % 4 == 0,
{
    let w = instr.0;
    let i = instr.spec_imm26();
    assert(i == w % 0x400_0000) by (bit_vector)
        requires
            i == w & 0x3FF_FFFF,
    ;
    assert(((pc & 0xF000_0000) + (i << 2u32)) as u32 as int == pc as int - pc as int % 0x1000_0000 + 4 * i as int)
        by (bit_vector)
        requires
            i == w & 0x3FF_FFFF,
    ;
    assert((pc as int - pc as int % 0x1000_0000) % 0x1000_0000 == 0);
}

/// Signed division (DIV) by a nonzero divisor, outside MIN / -1: quotient
/// and remainder put the dividend back together (a = q * b + r), the
/// remainder is smaller than the divisor in size and is zero or has the
/// dividend's sign, so the quotient is rounded toward zero.
pub proof fn lemma_signed_div(a: i32, b: i32)
    requires
        b != 0,
        !(a == i32::MIN && b == -1),
    ensures
        ({
            let (q, r) = spec_div(a, b);
            &&& a as int == q * b as int + r
            &&& abs(r) < abs(b as int)
            &&& r == 0 || (r < 0) == (a < 0)
        }),
{
    let x = abs(a as int);
    let y = abs(b as int);
    let q = x / y;
    let m = x % y;
    assert(x == y * q + m && 0 <= m < y) by (nonlinear_arith)
        requires
            y > 0,
            q == x / y,
            m == x % y,
    ;
    lemma_trunc(a as int, b as int, q, m);
    assert(b as int * trunc_div(a as int, b as int) == (if a < 0 { -(y * q) } else { y * q })) by (nonlinear_arith)
        requires
            y == abs(b as int),
            trunc_div(a as int, b as int) == (if (a < 0) != (b < 0) { -q } else { q }),
            b as int == (if b < 0 { -y } else { y }),
    ;
    let t = trunc_div(a as int, b as int);
    assert(t * b as int == b as int * t) by (nonlinear_arith);
}

proof fn lemma_jump_fits(pc: u32, imm26: u32)
    requires
        imm26 < 0x400_0000,
    ensures
        (pc & 0xF000_0000) + (imm26 << 2u32) <= u32::MAX,
{
    assert(imm26 < 0x400_0000 ==> (pc & 0xF000_0000) + (imm26 << 2u32) <= u32::MAX) by (bit_vector);
}

impl Cpu {
    /// rd = rs + rt
    pub fn addu(&mut self, instr: Instruction) -> (r: Result<(), Exception>)
        ensures
            r is Ok,
            old(self).writes_reg(*final(self), instr.spec_rd() as int, old(self).regs@[instr.spec_rs() as int].wrapping_add(old(self).regs@[instr.spec_rt() as int])),
    {
        let rt = instr.rt();
        let rs = instr.rs();
        let rd = instr.rd();
        let a = self.regs[rs];
        let b = self.regs[rt];
        self.regd[rd] = a.wrapping_add(b);
        Ok(())
    }

    /// rd = rs - rt
    pub fn subu(&mut self, instr: Instruction) -> (r: Result<(), Exception>)
        ensures
            r is Ok,
            old(self).writes_reg(*final(self), instr.spec_rd() as int, old(self).regs@[instr.spec_rs() as int].wrapping_sub(old(self).regs@[instr.spec_rt() as int])),
    {
        let rt = instr.rt();
        let rs = instr.rs();
        let rd = instr.rd();
        let a = self.regs[rs];
        let b = self.regs[rt];
        self.regd[rd] = a.wrapping_sub(b);
        Ok(())
    }

    /// rd = rs < rt (signed)
    pub fn slt(&mut self, instr: Instruction) -> (r: Result<(), Exception>)
        ensures
            r is Ok,
            old(self).writes_reg(*final(self), instr.spec_rd() as int, (if (old(self).regs@[instr.spec_rs() as int] as i32) < (old(self).regs@[instr.spec_rt() as int] as i32) { 1u32 } else { 0u32 })),
    {
        let rt = instr.rt();
        let rs = instr.rs();
        let rd = instr.rd();
        let a = self.regs[rs];
        let b = self.regs[rt];
        self.regd[rd] = if (a as i32) < (b as i32) { 1 } else { 0 };
        Ok(())
    }

    /// rd = rs < rt (unsigned)
    pub fn sltu(&mut self, instr: Instruction) -> (r: Result<(), Exception>)
        ensures
            r is Ok,
            old(self).writes_reg(*final(self), instr.spec_rd() as int, (if old(self).regs@[instr.spec_rs() as int] < old(self).regs@[instr.spec_rt() as int] { 1u32 } else { 0u32 })),
    {
        let rt = instr.rt();
        let rs = instr.rs();
        let rd = instr.rd();
        let a = self.regs[rs];
        let b = self.regs[rt];
        self.regd[rd] = if a < b { 1 } else { 0 };
        Ok(())
    }

    /// rd = rs AND rt
    pub fn and(&mut self, instr: Instruction) -> (r: Result<(), Exception>)
        ensures
            r is Ok,
            old(self).writes_reg(*final(self), instr.spec_rd() as int, old(self).regs@[instr.spec_rs() as int] & old(self).regs@[instr.spec_rt() as int]),
    {
        let rt = instr.rt();
        let rs = instr.rs();
        let rd = instr.rd();
        let a = self.regs[rs];
        let b = self.regs[rt];
        self.regd[rd] = a & b;
        Ok(())
    }

    /// rd = rs OR rt
    pub fn or(&mut self, instr: Instruction) -> (r: Result<(), Exception>)
        ensures
            r is Ok,
            old(self).writes_reg(*final(self), instr.spec_rd() as int, old(self).regs@[instr.spec_rs() as int] | old(self).regs@[instr.spec_rt() as int]),
    {
        let rt = instr.rt();
        let rs = instr.rs();
        let rd = instr.rd();
        let a = self.regs[rs];
        let b = self.regs[rt];
        self.regd[rd] = a | b;
        Ok(())
    }

    /// rd = rs XOR rt
    pub fn xor(&mut self, instr: Instruction) -> (r: Result<(), Exception>)
        ensures
            r is Ok,
            old(self).writes_reg(*final(self), instr.spec_rd() as int, old(self).regs@[instr.spec_rs() as int] ^ old(self).regs@[instr.spec_rt() as int]),
    {
        let rt = instr.rt();
        let rs = instr.rs();
        let rd = instr.rd();
        let a = self.regs[rs];
        let b = self.regs[rt];
        self.regd[rd] = a ^ b;
        Ok(())
    }

    /// rd = 0xFFFFFFFF XOR (rs OR rt)
    pub fn nor(&mut self, instr: Instruction) -> (r: Result<(), Exception>)
        ensures
            r is Ok,
            old(self).writes_reg(*final(self), instr.spec_rd() as int, 0xFFFF_FFFFu32 ^ (old(self).regs@[instr.spec_rs() as int] | old(self).regs@[instr.spec_rt() as int])),
    {
        let rt = instr.rt();
        let rs = instr.rs();
        let rd = instr.rd();
        let a = self.regs[rs];
        let b = self.regs[rt];
        self.regd[rd] = 0xFFFF_FFFFu32 ^ (a | b);
        Ok(())
    }

    /// rt = rs + imm
    pub fn addiu(&mut self, instr: Instruction) -> (r: Result<(), Exception>)
        ensures
            r is Ok,
            old(self).writes_reg(*final(self), instr.spec_rt() as int, old(self).regs@[instr.spec_rs() as int].wrapping_add(instr.spec_imm16_se())),
    {
        let rt = instr.rt();
        let rs = instr.rs();
        let a = self.regs[rs];
        let im = instr.imm16_se();
        self.regd[rt] = a.wrapping_add(im);
        Ok(())
    }

    /// rt = rs < imm (signed)
    pub fn slti(&mut self, instr: Instruction) -> (r: Result<(), Exception>)
        ensures
            r is Ok,
            old(self).writes_reg(*final(self), instr.spec_rt() as int, (if (old(self).regs@[instr.spec_rs() as int] as i32) < (instr.spec_imm16_se() as i32) { 1u32 } else { 0u32 })),
    {
        let rt = instr.rt();
        let rs = instr.rs();
        let a = self.regs[rs];
        let im = instr.imm16_se();
        self.regd[rt] = if (a as i32) < (im as i32) { 1 } else { 0 };
        Ok(())
    }

    /// rt = rs < imm (unsigned, imm sign-extended)
    pub fn sltiu(&mut self, instr: Instruction) -> (r: Result<(), Exception>)
        ensures
            r is Ok,
            old(self).writes_reg(*final(self), instr.spec_rt() as int, (if old(self).regs@[instr.spec_rs() as int] < instr.spec_imm16_se() { 1u32 } else { 0u32 })),
    {
        let rt = instr.rt();
        let rs = instr.rs();
        let a = self.regs[rs];
        let im = instr.imm16_se();
        self.regd[rt] = if a < im { 1 } else { 0 };
        Ok(())
    }

    /// rt = rs AND imm
    pub fn andi(&mut self, instr: Instruction) -> (r: Result<(), Exception>)
        ensures
            r is Ok,
            old(self).writes_reg(*final(self), instr.spec_rt() as int, old(self).regs@[instr.spec_rs() as int] & instr.spec_imm16()),
    {
        let rt = instr.rt();
        let rs = instr.rs();
        let a = self.regs[rs];
        let im = instr.imm16();
        self.regd[rt] = a & im;
        Ok(())
    }

    /// rt = rs OR imm
    pub fn ori(&mut self, instr: Instruction) -> (r: Result<(), Exception>)
        ensures
            r is Ok,
            old(self).writes_reg(*final(self), instr.spec_rt() as int, old(self).regs@[instr.spec_rs() as int] | instr.spec_imm16()),
    {
        let rt = instr.rt();
        let rs = instr.rs();
        let a = self.regs[rs];
        let im = instr.imm16();
        self.regd[rt] = a | im;
        Ok(())
    }

    /// rt = rs XOR imm
    pub fn xori(&mut self, instr: Instruction) -> (r: Result<(), Exception>)
        ensures
            r is Ok,
            old(self).writes_reg(*final(self), instr.spec_rt() as int, old(self).regs@[instr.spec_rs() as int] ^ instr.spec_imm16()),
    {
        let rt = instr.rt();
        let rs = instr.rs();
        let a = self.regs[rs];
        let im = instr.imm16();
        self.regd[rt] = a ^ im;
        Ok(())
    }

    /// rd = rt SHL (rs AND 1Fh)
    pub fn sllv(&mut self, instr: Instruction) -> (r: Result<(), Exception>)
        ensures
            r is Ok,
            old(self).writes_reg(*final(self), instr.spec_rd() as int, old(self).regs@[instr.spec_rt() as int] << (old(self).regs@[instr.spec_rs() as int] & 0x1F)),
    {
        let rt = instr.rt();
        let rs = instr.rs();
        let rd = instr.rd();
        let a = self.regs[rs];
        let b = self.regs[rt];
        self.regd[rd] = b << shamt(a);
        Ok(())
    }

    /// rd = rt SHR (rs AND 1Fh)
    pub fn srlv(&mut self, instr: Instruction) -> (r: Result<(), Exception>)
        ensures
            r is Ok,
            old(self).writes_reg(*final(self), instr.spec_rd() as int, old(self).regs@[instr.spec_rt() as int] >> (old(self).regs@[instr.spec_rs() as int] & 0x1F)),
    {
        let rt = instr.rt();
        let rs = instr.rs();
        let rd = instr.rd();
        let a = self.regs[rs];
        let b = self.regs[rt];
        self.regd[rd] = b >> shamt(a);
        Ok(())
    }

    /// rd = rt SAR (rs AND 1Fh)
    pub fn srav(&mut self, instr: Instruction) -> (r: Result<(), Exception>)
        ensures
            r is Ok,
            old(self).writes_reg(*final(self), instr.spec_rd() as int, ((old(self).regs@[instr.spec_rt() as int] as i32) >> (old(self).regs@[instr.spec_rs() as int] & 0x1F)) as u32),
    {
        let rt = instr.rt();
        let rs = instr.rs();
        let rd = instr.rd();
        let a = self.regs[rs];
        let b = self.regs[rt];
        self.regd[rd] = ((b as i32) >> shamt(a)) as u32;
        Ok(())
    }

    /// rd = rt SHL imm
    pub fn sll(&mut self, instr: Instruction) -> (r: Result<(), Exception>)
        ensures
            r is Ok,
            old(self).writes_reg(*final(self), instr.spec_rd() as int, old(self).regs@[instr.spec_rt() as int] << instr.spec_imm5()),
    {
        let rt = instr.rt();
        let rd = instr.rd();
        let im = instr.imm5();
        self.regd[rd] = self.regs[rt] << im;
        Ok(())
    }

    /// rd = rt SHR imm
    pub fn srl(&mut self, instr: Instruction) -> (r: Result<(), Exception>)
        ensures
            r is Ok,
            old(self).writes_reg(*final(self), instr.spec_rd() as int, old(self).regs@[instr.spec_rt() as int] >> instr.spec_imm5()),
    {
        let rt = instr.rt();
        let rd = instr.rd();
        let im = instr.imm5();
        self.regd[rd] = self.regs[rt] >> im;
        Ok(())
    }

    /// rd = rt SAR imm
    pub fn sra(&mut self, instr: Instruction) -> (r: Result<(), Exception>)
        ensures
            r is Ok,
            old(self).writes_reg(*final(self), instr.spec_rd() as int, ((old(self).regs@[instr.spec_rt() as int] as i32) >> instr.spec_imm5()) as u32),
    {
        let rt = instr.rt();
        let rd = instr.rd();
        let im = instr.imm5();
        self.regd[rd] = ((self.regs[rt] as i32) >> im) as u32;
        Ok(())
    }

    /// rt = imm << 16
    pub fn lui(&mut self, instr: Instruction) -> (r: Result<(), Exception>)
        ensures
            r is Ok,
            old(self).writes_reg(*final(self), instr.spec_rt() as int, instr.spec_imm16() << 16u32),
    {
        let rt = instr.rt();
        let im = instr.imm16();
        self.regd[rt] = im << 16u32;
        Ok(())
    }

    /// rd = rs + rt, trapping on signed overflow
    pub fn add(&mut self, instr: Instruction) -> (r: Result<(), Exception>)
        ensures
            ({
                let sum = (old(self).regs@[instr.spec_rs() as int] as i32) + (old(self).regs@[instr.spec_rt() as int] as i32);
                if i32::MIN <= sum <= i32::MAX {
                    r is Ok && old(self).writes_reg(*final(self), instr.spec_rd() as int, sum as i32 as u32)
                } else {
                    r == Err::<(), Exception>(Exception::Overflow) && old(self).unchanged(*final(self))
                }
            }),
    {
        let rt = instr.rt();
        let rs = instr.rs();
        let rd = instr.rd();
        let lhs = self.regs[rs] as i32;
        let rhs = self.regs[rt] as i32;
        match lhs.checked_add(rhs) {
            Some(v) => {
                self.regd[rd] = v as u32;
                Ok(())
            },
            None => Err(Exception::Overflow),
        }
    }

    /// rd = rs - rt, trapping on signed overflow
    pub fn sub(&mut self, instr: Instruction) -> (r: Result<(), Exception>)
        ensures
            ({
                let diff = (old(self).regs@[instr.spec_rs() as int] as i32) - (old(self).regs@[instr.spec_rt() as int] as i32);
                if i32::MIN <= diff <= i32::MAX {
                    r is Ok && old(self).writes_reg(*final(self), instr.spec_rd() as int, diff as i32 as u32)
                } else {
                    r == Err::<(), Exception>(Exception::Overflow) && old(self).unchanged(*final(self))
                }
            }),
    {
        let rt = instr.rt();
        let rs = instr.rs();
        let rd = instr.rd();
        let lhs = self.regs[rs] as i32;
        let rhs = self.regs[rt] as i32;
        match lhs.checked_sub(rhs) {
            Some(v) => {
                self.regd[rd] = v as u32;
                Ok(())
            },
            None => Err(Exception::Overflow),
        }
    }

    /// rt = rs + imm, trapping on signed overflow
    pub fn addi(&mut self, instr: Instruction) -> (r: Result<(), Exception>)
        ensures
            ({
                let sum = (old(self).regs@[instr.spec_rs() as int] as i32) + (instr.spec_imm16_se() as i32);
                if i32::MIN <= sum <= i32::MAX {
                    r is Ok && old(self).writes_reg(*final(self), instr.spec_rt() as int, sum as i32 as u32)
                } else {
                    r == Err::<(), Exception>(Exception::Overflow) && old(self).unchanged(*final(self))
                }
            }),
    {
        let rt = instr.rt();
        let rs = instr.rs();
        let lhs = self.regs[rs] as i32;
        let rhs = instr.imm16_se() as i32;
        match lhs.checked_add(rhs) {
            Some(v) => {
                self.regd[rt] = v as u32;
                Ok(())
            },
            None => Err(Exception::Overflow),
        }
    }

    /// hi:lo = rs * rt (signed)
    pub fn mult(&mut self, instr: Instruction) -> (r: Result<(), Exception>)
        ensures
            r is Ok,
            ({
                let p = (old(self).regs@[instr.spec_rs() as int] as i32) * (old(self).regs@[instr.spec_rt() as int] as i32);
                old(self).writes_hilo(*final(self), ((p / 0x1_0000_0000) % 0x1_0000_0000) as u32, (p % 0x1_0000_0000) as u32)
            }),
    {
        let rt = instr.rt();
        let rs = instr.rs();
        let lhs = self.regs[rs] as i32 as i64;
        let rhs = self.regs[rt] as i32 as i64;
        proof { lemma_i32_product(lhs as int, rhs as int); }
        let res = lhs * rhs;
        proof { lemma_split_i64(res); }
        self.hi = (res >> 32u64) as u32;
        self.lo = res as u32;
        Ok(())
    }

    /// hi:lo = rs * rt (unsigned)
    pub fn multu(&mut self, instr: Instruction) -> (r: Result<(), Exception>)
        ensures
            r is Ok,
            ({
                let p = old(self).regs@[instr.spec_rs() as int] * old(self).regs@[instr.spec_rt() as int];
                old(self).writes_hilo(*final(self), (p / 0x1_0000_0000) as u32, (p % 0x1_0000_0000) as u32)
            }),
    {
        let rt = instr.rt();
        let rs = instr.rs();
        let lhs = self.regs[rs] as u64;
        let rhs = self.regs[rt] as u64;
        proof { lemma_u32_product(lhs as int, rhs as int); }
        let res = lhs * rhs;
        proof { lemma_split_u64(res); }
        self.hi = (res >> 32u64) as u32;
        self.lo = res as u32;
        Ok(())
    }

    /// hi:lo = rs / rt (signed): remainder in hi, quotient in lo
    pub fn div(&mut self, instr: Instruction) -> (r: Result<(), Exception>)
        ensures
            r is Ok,
            ({
                let (q, m) = spec_div(old(self).regs@[instr.spec_rs() as int] as i32, old(self).regs@[instr.spec_rt() as int] as i32);
                old(self).writes_hilo(*final(self), m as i32 as u32, q as i32 as u32)
            }),
    {
        let rt = instr.rt();
        let rs = instr.rs();
        let lhs = self.regs[rs] as i32;
        let rhs = self.regs[rt] as i32;
        let (quo, rem) = signed_div(lhs, rhs);
        self.hi = rem as u32;
        self.lo = quo as u32;
        Ok(())
    }

    /// hi:lo = rs / rt (unsigned): remainder in hi, quotient in lo
    pub fn divu(&mut self, instr: Instruction) -> (r: Result<(), Exception>)
        ensures
            r is Ok,
            ({
                let a = old(self).regs@[instr.spec_rs() as int];
                let b = old(self).regs@[instr.spec_rt() as int];
                if b == 0 {
                    old(self).writes_hilo(*final(self), a, u32::MAX)
                } else {
                    old(self).writes_hilo(*final(self), a % b, a / b)
                }
            }),
    {
        let rt = instr.rt();
        let rs = instr.rs();
        let lhs = self.regs[rs];
        let rhs = self.regs[rt];
        let (quo, rem) = if rhs == 0 {
            (u32::MAX, lhs)
        } else {
            (lhs / rhs, lhs % rhs)
        };
        self.hi = rem;
        self.lo = quo;
        Ok(())
    }

    /// Move from hi
    pub fn mfhi(&mut self, instr: Instruction) -> (r: Result<(), Exception>)
        ensures
            r is Ok,
            old(self).writes_reg(*final(self), instr.spec_rd() as int, old(self).hi),
    {
        let rd = instr.rd();
        self.regd[rd] = self.hi;
        Ok(())
    }

    /// Move from lo
    pub fn mflo(&mut self, instr: Instruction) -> (r: Result<(), Exception>)
        ensures
            r is Ok,
            old(self).writes_reg(*final(self), instr.spec_rd() as int, old(self).lo),
    {
        let rd = instr.rd();
        self.regd[rd] = self.lo;
        Ok(())
    }

    /// Move to hi
    pub fn mthi(&mut self, instr: Instruction) -> (r: Result<(), Exception>)
        ensures
            r is Ok,
            old(self).writes_hilo(*final(self), old(self).regs@[instr.spec_rs() as int], old(self).lo),
    {
        let rs = instr.rs();
        self.hi = self.regs[rs];
        Ok(())
    }

    /// Move to lo
    pub fn mtlo(&mut self, instr: Instruction) -> (r: Result<(), Exception>)
        ensures
            r is Ok,
            old(self).writes_hilo(*final(self), old(self).hi, old(self).regs@[instr.spec_rs() as int]),
    {
        let rs = instr.rs();
        self.lo = self.regs[rs];
        Ok(())
    }

    /// Jump
    pub fn j(&mut self, instr: Instruction) -> (r: Result<(), Exception>)
        ensures
            r is Ok,
            old(self).branches(*final(self), Some(jump_target(old(self).pc, instr.spec_imm26())), false, 0),
    {
        let im = instr.imm26();
        proof { lemma_jump_fits(self.pc, im); }
        let addr = (self.pc & 0xF000_0000) + (im << 2u32);
        self.delayed_branch = Some(addr);
        Ok(())
    }

    /// Jump and link
    pub fn jal(&mut self, instr: Instruction) -> (r: Result<(), Exception>)
        ensures
            r is Ok,
            old(self).branches(*final(self), Some(jump_target(old(self).pc, instr.spec_imm26())), true, 31),
    {
        let im = instr.imm26();
        proof { lemma_jump_fits(self.pc, im); }
        let addr = (self.pc & 0xF000_0000) + (im << 2u32);
        self.regd[31] = self.pc.wrapping_add(8);
        self.delayed_branch = Some(addr);
        Ok(())
    }

    /// Jump to register address
    pub fn jr(&mut self, instr: Instruction) -> (r: Result<(), Exception>)
        ensures
            r is Ok,
            old(self).branches(*final(self), Some(old(self).regs@[instr.spec_rs() as int]), false, 0),
    {
        let rs = instr.rs();
        let addr = self.regs[rs];
        self.delayed_branch = Some(addr);
        Ok(())
    }

    /// Jump to register address and link
    pub fn jalr(&mut self, instr: Instruction) -> (r: Result<(), Exception>)
        ensures
            r is Ok,
            old(self).branches(*final(self), Some(old(self).regs@[instr.spec_rs() as int]), true, instr.spec_rd() as int),
    {
        let rs = instr.rs();
        let rd = instr.rd();
        let addr = self.regs[rs];
        self.regd[rd] = self.pc.wrapping_add(8);
        self.delayed_branch = Some(addr);
        Ok(())
    }

    /// Sets the delay slot to the relative branch target when `cond` holds.
    fn branch_if(&mut self, cond: bool, instr: Instruction)
        ensures
            old(self).branches(*final(self), if cond { Some(branch_target(old(self).pc, instr.spec_imm16_se())) } else { None }, false, 0),
    {
        if cond {
            let im = instr.imm16_se();
            let addr = self.pc.wrapping_add((im << 2u32).wrapping_add(4));
            self.delayed_branch = Some(addr);
        }
    }

    /// Branch if equal
    pub fn beq(&mut self, instr: Instruction) -> (r: Result<(), Exception>)
        ensures
            r is Ok,
            old(self).branches(*final(self), if old(self).regs@[instr.spec_rs() as int] == old(self).regs@[instr.spec_rt() as int] { Some(branch_target(old(self).pc, instr.spec_imm16_se())) } else { None }, false, 0),
    {
        let rs = instr.rs();
        let rt = instr.rt();
        let cond = self.regs[rs] == self.regs[rt];
        self.branch_if(cond, instr);
        Ok(())
    }

    /// Branch if not equal
    pub fn bne(&mut self, instr: Instruction) -> (r: Result<(), Exception>)
        ensures
            r is Ok,
            old(self).branches(*final(self), if old(self).regs@[instr.spec_rs() as int] != old(self).regs@[instr.spec_rt() as int] { Some(branch_target(old(self).pc, instr.spec_imm16_se())) } else { None }, false, 0),
    {
        let rs = instr.rs();
        let rt = instr.rt();
        let cond = self.regs[rs] != self.regs[rt];
        self.branch_if(cond, instr);
        Ok(())
    }

    /// Branch if greater than zero
    pub fn bgtz(&mut self, instr: Instruction) -> (r: Result<(), Exception>)
        ensures
            r is Ok,
            old(self).branches(*final(self), if (old(self).regs@[instr.spec_rs() as int] as i32) > 0 { Some(branch_target(old(self).pc, instr.spec_imm16_se())) } else { None }, false, 0),
    {
        let rs = instr.rs();
        let cond = (self.regs[rs] as i32) > 0;
        self.branch_if(cond, instr);
        Ok(())
    }

    /// Branch if less than or equal to zero
    pub fn blez(&mut self, instr: Instruction) -> (r: Result<(), Exception>)
        ensures
            r is Ok,
            old(self).branches(*final(self), if (old(self).regs@[instr.spec_rs() as int] as i32) <= 0 { Some(branch_target(old(self).pc, instr.spec_imm16_se())) } else { None }, false, 0),
    {
        let rs = instr.rs();
        let cond = (self.regs[rs] as i32) <= 0;
        self.branch_if(cond, instr);
        Ok(())
    }

    /// BLTZ, BGEZ, BLTZAL, BGEZAL: bit 16 selects "greater or equal", bits
    /// 20..17 = 8 select linking into R31.
    pub fn bxxx(&mut self, instr: Instruction) -> (r: Result<(), Exception>)
        ensures
            r is Ok,
            ({
                let ge = (instr.0 >> 16u32) & 1 == 1;
                let al = (instr.0 >> 17u32) & 0xF == 0x8;
                let cond = ((old(self).regs@[instr.spec_rs() as int] as i32) < 0) != ge;
                old(self).branches(*final(self), if cond { Some(branch_target(old(self).pc, instr.spec_imm16_se())) } else { None }, al, 31)
            }),
    {
        let rs = instr.rs();
        let ge = (instr.0 >> 16u32) & 1 == 1;
        let al = (instr.0 >> 17u32) & 0xF == 0x8;
        let cond = ((self.regs[rs] as i32) < 0) != ge;
        if al {
            self.regd[31] = self.pc.wrapping_add(8);
        }
        self.branch_if(cond, instr);
        Ok(())
    }

    pub fn syscall() -> (r: Result<(), Exception>)
        ensures
            r == Err::<(), Exception>(Exception::Syscall),
    {
        Err(Exception::Syscall)
    }

    pub fn breakk() -> (r: Result<(), Exception>)
        ensures
            r == Err::<(), Exception>(Exception::Break),
    {
        Err(Exception::Break)
    }

    /// Coprocessor 1 is absent: coprocessor error.
    pub fn cop1() -> (r: Result<(), Exception>)
        ensures
            r == Err::<(), Exception>(Exception::CoprocessorError),
    {
        Err(Exception::CoprocessorError)
    }

    /// Coprocessor 3 is absent: coprocessor error.
    pub fn cop3() -> (r: Result<(), Exception>)
        ensures
            r == Err::<(), Exception>(Exception::CoprocessorError),
    {
        Err(Exception::CoprocessorError)
    }

    /// Coprocessor 0 is absent: coprocessor error.
    pub fn lwc0() -> (r: Result<(), Exception>)
        ensures
            r == Err::<(), Exception>(Exception::CoprocessorError),
    {
        Err(Exception::CoprocessorError)
    }

    /// Coprocessor 1 is absent: coprocessor error.
    pub fn lwc1() -> (r: Result<(), Exception>)
        ensures
            r == Err::<(), Exception>(Exception::CoprocessorError),
    {
        Err(Exception::CoprocessorError)
    }

    /// Coprocessor 3 is absent: coprocessor error.
    pub fn lwc3() -> (r: Result<(), Exception>)
        ensures
            r == Err::<(), Exception>(Exception::CoprocessorError),
    {
        Err(Exception::CoprocessorError)
    }

    /// Coprocessor 0 is absent: coprocessor error.
    pub fn swc0() -> (r: Result<(), Exception>)
        ensures
            r == Err::<(), Exception>(Exception::CoprocessorError),
    {
        Err(Exception::CoprocessorError)
    }

    /// Coprocessor 1 is absent: coprocessor error.
    pub fn swc1() -> (r: Result<(), Exception>)
        ensures
            r == Err::<(), Exception>(Exception::CoprocessorError),
    {
        Err(Exception::CoprocessorError)
    }

    /// Coprocessor 3 is absent: coprocessor error.
    pub fn swc3() -> (r: Result<(), Exception>)
        ensures
            r == Err::<(), Exception>(Exception::CoprocessorError),
    {
        Err(Exception::CoprocessorError)
    }

}

/// Shift amount held in the low 5 bits of a register.
fn shamt(v: u32) -> (r: u32)
    ensures
        r == v & 0x1F,
        r < 32,
{
    proof { lemma_mask5(v); }
    v & 0x1F
}

proof fn lemma_mask5(v: u32)
    ensures
        v & 0x1F < 32,
{
    assert(v & 0x1F < 32) by (bit_vector);
}

/// Signed division with the R3000A's results for division by zero and for
/// MIN / -1.
pub fn signed_div(a: i32, b: i32) -> (r: (i32, i32))
    ensures
        r.0 as int == spec_div(a, b).0,
        r.1 as int == spec_div(a, b).1,
{
    if b == -1 && a == i32::MIN {
        return (i32::MIN, 0);
    }
    if b == 0 {
        return (if a >= 0 { -1 } else { 1 }, a);
    }
    let ua: u32 = if a < 0 { (0i64 - a as i64) as u32 } else { a as u32 };
    let ub: u32 = if b < 0 { (0i64 - b as i64) as u32 } else { b as u32 };
    let q = ua / ub;
    let m = ua % ub;
    proof {
        assert(q as int == abs(a as int) / abs(b as int));
        lemma_trunc(a as int, b as int, q as int, m as int);
    }
    let quo: i32 = if (a < 0) != (b < 0) { (0i64 - q as i64) as i32 } else { q as i32 };
    let rem: i32 = if a < 0 { (0i64 - m as i64) as i32 } else { m as i32 };
    (quo, rem)
}

proof fn lemma_trunc(a: int, b: int, q: int, m: int)
    requires
        b != 0,
        !(b == -1 && a == i32::MIN),
        i32::MIN <= a <= i32::MAX,
        i32::MIN <= b <= i32::MAX,
        q == abs(a) / abs(b),
        m == abs(a) % abs(b),
    ensures
        (a < 0) == (b < 0) ==> q <= i32::MAX,
        q <= 0x8000_0000,
        m < abs(b),
        a >= 0 ==> m <= a,
        trunc_div(a, b) == (if (a < 0) != (b < 0) { -q } else { q }),
        trunc_rem(a, b) == (if a < 0 { -m } else { m }),
{
    let x = abs(a);
    let y = abs(b);
    assert(x == y * q + m) by (nonlinear_arith)
        requires y > 0, q == x / y, m == x % y;
    assert(0 <= m < y) by (nonlinear_arith)
        requires y > 0, m == x % y;
    assert(q <= x) by (nonlinear_arith)
        requires y > 0, q == x / y, x >= 0;
    if y >= 2 {
        assert(q * 2 <= x) by (nonlinear_arith)
            requires y >= 2, q == x / y, x >= 0;
    } else {
        assert(y == 1);
        assert(q == x) by (nonlinear_arith)
            requires y == 1, q == x / y;
    }
    assert(b * trunc_div(a, b) == (if a < 0 { -(y * q) } else { y * q })) by (nonlinear_arith)
        requires
            y == abs(b),
            trunc_div(a, b) == (if (a < 0) != (b < 0) { -q } else { q }),
            b == (if b < 0 { -y } else { y }),
            q == abs(a) / abs(b),
    ;
}

proof fn lemma_i32_product(a: int, b: int)
    requires
        i32::MIN <= a <= i32::MAX,
        i32::MIN <= b <= i32::MAX,
    ensures
        i64::MIN <= a * b <= i64::MAX,
{
    assert(-0x4000_0000_0000_0000 <= a * b <= 0x4000_0000_0000_0000) by (nonlinear_arith)
        requires
            i32::MIN <= a <= i32::MAX,
            i32::MIN <= b <= i32::MAX,
    ;
}

proof fn lemma_u32_product(a: int, b: int)
    requires
        0 <= a <= u32::MAX,
        0 <= b <= u32::MAX,
    ensures
        0 <= a * b <= u64::MAX,
{
    assert(0 <= a * b <= 0xFFFF_FFFE_0000_0001) by (nonlinear_arith)
        requires
            0 <= a <= u32::MAX,
            0 <= b <= u32::MAX,
    ;
}

proof fn lemma_split_i64(v: i64)
    ensures
        ((v >> 32u64) as u32) as int == ((v as int / 0x1_0000_0000) % 0x1_0000_0000),
        (v as u32) as int == (v as int % 0x1_0000_0000),
{
    assert(((v >> 32u64) as u32) as int == ((v as int / 0x1_0000_0000) % 0x1_0000_0000)
        && (v as u32) as int == (v as int % 0x1_0000_0000)) by (bit_vector);
}

proof fn lemma_split_u64(v: u64)
    ensures
        ((v >> 32u64) as u32) as int == v as int / 0x1_0000_0000,
        (v as u32) as int == (v as int % 0x1_0000_0000),
{
    assert(((v >> 32u64) as u32) as int == v as int / 0x1_0000_0000 && (v as u32) as int == (v as int
        % 0x1_0000_0000)) by (bit_vector);
}

} // verus!
