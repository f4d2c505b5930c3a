use vstd::prelude::*;

use crate::spu::envelope::div_floor_8000;
use crate::spu::voice::SOUND_RAM_SIZE;
use crate::spu::Volume;

verus! {

/// The reverb unit. All volume registers are signed 16-bit; the src, dst,
/// disp and base registers are addresses in sound RAM (held divided by 8):
/// src and dst relative to the current buffer address, disp relative to the
/// src registers, and the base register the start of the reverb buffer,
/// whose end is fixed at 7FFFEh. Writing the base also sets the current
/// buffer address.
#[derive(Clone, Copy)]
pub struct Reverb {
    pub v_out: Volume,
    pub v_in: Volume,
    pub m_base: usize,
    pub d_apf1: usize,
    pub d_apf2: usize,
    pub v_iir: i32,
    pub v_comb1: i32,
    pub v_comb2: i32,
    pub v_comb3: i32,
    pub v_comb4: i32,
    pub v_wall: i32,
    pub v_apf1: i32,
    pub v_apf2: i32,
    pub m_lsame: usize,
    pub m_rsame: usize,
    pub d_lsame: usize,
    pub d_rsame: usize,
    pub m_lcomb1: usize,
    pub m_rcomb1: usize,
    pub m_lcomb2: usize,
    pub m_rcomb2: usize,
    pub m_lcomb3: usize,
    pub m_rcomb3: usize,
    pub m_lcomb4: usize,
    pub m_rcomb4: usize,
    pub m_ldiff: usize,
    pub m_rdiff: usize,
    pub d_ldiff: usize,
    pub d_rdiff: usize,
    pub m_lapf1: usize,
    pub m_rapf1: usize,
    pub m_lapf2: usize,
    pub m_rapf2: usize,
    pub half_tick: bool,
    pub current_buffer_addr: usize,
    pub l_out: i32,
    pub r_out: i32,
}

/// The largest address a 16-bit register divided by 8 can give.
pub const MAX_REVERB_ADDR: usize = 0x7FFF8;

/// `a * b`, saturated to 32 bits, divided by 8000h (rounding down) to fit
/// the 16-bit range.
pub open spec fn mul16(a: i32, b: i32) -> i32 {
    let p = a * b;
    let s = if p > i32::MAX { i32::MAX as int } else if p < i32::MIN { i32::MIN as int } else { p };
    (s / 0x8000) as i32
}

/// A value clamped to the signed 16-bit range.
pub open spec fn clamp16(v: i32) -> i16 {
    if v > 0x7FFF {
        0x7FFF
    } else if v < -0x8000 {
        -0x8000i16
    } else {
        v as i16
    }
}

/// The signed 16-bit sample stored little-endian at `a`.
pub open spec fn sample_at(ram: Seq<u8>, a: int) -> i32 {
    ((ram[a] as u16 | ((ram[a + 1] as u16) << 8u16)) as i16) as i32
}

/// `ram` with `v`, clamped to 16 bits, stored little-endian at `a`.
pub open spec fn store_at(ram: Seq<u8>, a: int, v: i32) -> Seq<u8> {
    let h = clamp16(v) as u16;
    ram.update(a, (h & 0xFF) as u8).update(a + 1, (h >> 8u16) as u8)
}

impl Reverb {
    /// Every address lies within sound RAM, the current buffer address at
    /// or above the base.
    pub open spec fn wf(&self) -> bool {
        &&& self.m_base <= MAX_REVERB_ADDR
        &&& self.m_base <= self.current_buffer_addr <= 0x7FFFE
        &&& self.d_apf1 <= MAX_REVERB_ADDR && self.d_apf2 <= MAX_REVERB_ADDR
        &&& self.m_lsame <= MAX_REVERB_ADDR && self.m_rsame <= MAX_REVERB_ADDR
        &&& self.d_lsame <= MAX_REVERB_ADDR && self.d_rsame <= MAX_REVERB_ADDR
        &&& self.m_lcomb1 <= MAX_REVERB_ADDR && self.m_rcomb1 <= MAX_REVERB_ADDR
        &&& self.m_lcomb2 <= MAX_REVERB_ADDR && self.m_rcomb2 <= MAX_REVERB_ADDR
        &&& self.m_lcomb3 <= MAX_REVERB_ADDR && self.m_rcomb3 <= MAX_REVERB_ADDR
        &&& self.m_lcomb4 <= MAX_REVERB_ADDR && self.m_rcomb4 <= MAX_REVERB_ADDR
        &&& self.m_ldiff <= MAX_REVERB_ADDR && self.m_rdiff <= MAX_REVERB_ADDR
        &&& self.d_ldiff <= MAX_REVERB_ADDR && self.d_rdiff <= MAX_REVERB_ADDR
        &&& self.m_lapf1 <= MAX_REVERB_ADDR && self.m_rapf1 <= MAX_REVERB_ADDR
        &&& self.m_lapf2 <= MAX_REVERB_ADDR && self.m_rapf2 <= MAX_REVERB_ADDR
    }

    /// The all-pass source addresses lie at or after their displacements.
    pub open spec fn apf_ok(&self) -> bool {
        &&& self.m_lapf1 >= self.d_apf1 && self.m_rapf1 >= self.d_apf1
        &&& self.m_lapf2 >= self.d_apf2 && self.m_rapf2 >= self.d_apf2
    }

    /// The sound RAM address of buffer position `pos`: relative to the
    /// current buffer address, wrapped within base..=7FFFEh, halfword
    /// aligned.
    pub open spec fn addr_of(&self, pos: int) -> int {
        let base = self.m_base as int;
        let offs = (pos + self.current_buffer_addr - base) % (0x80000 - base);
        let a = base + offs;
        a - a % 2
    }

    pub open spec fn read_at(&self, ram: Seq<u8>, pos: int) -> i32 {
        sample_at(ram, self.addr_of(pos))
    }

    pub open spec fn write_at(&self, ram: Seq<u8>, pos: int, v: i32, on: bool) -> Seq<u8> {
        if on {
            store_at(ram, self.addr_of(pos), v)
        } else {
            ram
        }
    }

    /// One reflection: `(input + [disp] * vWALL - [src]) * vIIR + [src]`.
    pub open spec fn reflection(&self, ram: Seq<u8>, input: i32, disp: int, src: int) -> i32 {
        (mul16((input + mul16(self.read_at(ram, disp), self.v_wall) - self.read_at(ram, src)) as i32, self.v_iir)
            + self.read_at(ram, src)) as i32
    }

    /// The same-side and different-side reflections, stored into the buffer
    /// when `write` is set (both stages store at the same-side addresses).
    pub open spec fn reflected(&self, ram: Seq<u8>, l_in: i32, r_in: i32, write: bool) -> Seq<u8> {
        let ls2 = if self.m_lsame >= 2 { self.m_lsame - 2 } else { 0int };
        let rs2 = if self.m_rsame >= 2 { self.m_rsame - 2 } else { 0int };
        let ld2 = if self.m_ldiff >= 2 { self.m_ldiff - 2 } else { 0int };
        let ltol = self.reflection(ram, l_in, self.d_lsame as int, ls2);
        let rtor = self.reflection(ram, r_in, self.d_rsame as int, rs2);
        let ram1 = self.write_at(self.write_at(ram, self.m_lsame as int, ltol, write), self.m_rsame as int, rtor, write);
        let rtol = self.reflection(ram1, l_in, self.d_rdiff as int, ld2);
        let ltor = self.reflection(ram1, r_in, self.d_rdiff as int, ld2);
        self.write_at(self.write_at(ram1, self.m_lsame as int, rtol, write), self.m_rsame as int, ltor, write)
    }

    /// The early echo: the four comb taps of each side, weighted.
    pub open spec fn comb(&self, ram: Seq<u8>) -> (i32, i32) {
        (
            (mul16(self.v_comb1, self.read_at(ram, self.m_lcomb1 as int)) + mul16(
                self.v_comb2,
                self.read_at(ram, self.m_lcomb2 as int),
            ) + mul16(self.v_comb3, self.read_at(ram, self.m_lcomb3 as int)) + mul16(
                self.v_comb4,
                self.read_at(ram, self.m_lcomb4 as int),
            )) as i32,
            (mul16(self.v_comb1, self.read_at(ram, self.m_rcomb1 as int)) + mul16(
                self.v_comb2,
                self.read_at(ram, self.m_rcomb2 as int),
            ) + mul16(self.v_comb3, self.read_at(ram, self.m_rcomb3 as int)) + mul16(
                self.v_comb4,
                self.read_at(ram, self.m_rcomb4 as int),
            )) as i32,
        )
    }

    /// An all-pass stage: `out = in - v_sub * [m - d]`, stored at `ml` (both
    /// sides) when `write` is set, then `out * v_mul + [m - d]`.
    pub open spec fn all_pass(
        &self,
        l: i32,
        r: i32,
        ram: Seq<u8>,
        ml: int,
        mr: int,
        d: int,
        v_sub: i32,
        v_mul: i32,
        write: bool,
    ) -> (i32, i32, Seq<u8>) {
        let l1 = (l - mul16(v_sub, self.read_at(ram, ml - d))) as i32;
        let r1 = (r - mul16(v_sub, self.read_at(ram, mr - d))) as i32;
        let ram1 = self.write_at(self.write_at(ram, ml, l1, write), ml, r1, write);
        (
            (mul16(l1, v_mul) + self.read_at(ram1, ml - d)) as i32,
            (mul16(r1, v_mul) + self.read_at(ram1, mr - d)) as i32,
            ram1,
        )
    }

    /// The buffer address one step on: two bytes further, wrapped to
    /// 7FFFEh, never below the base.
    pub open spec fn next_buffer_addr(&self) -> usize {
        let next = (self.current_buffer_addr + 2) as int;
        let wrapped = next % 0x80000 - next % 2;
        (if wrapped > self.m_base { wrapped } else { self.m_base as int }) as usize
    }

    /// The reverb after one tick at 44.1 kHz, with the sound RAM: every
    /// other tick does nothing; the others run the reflection, comb and
    /// all-pass stages on the mixer input (the input volume being the left
    /// output volume on both sides, the second all-pass stage subtracting
    /// with the first one's volume) and move the buffer on, storing into
    /// the buffer when `write` is set.
    pub open spec fn ticked(&self, mixed: (i32, i32), ram: Seq<u8>, write: bool) -> (Reverb, Seq<u8>) {
        let rv = Reverb { half_tick: !self.half_tick, ..*self };
        if rv.half_tick {
            (rv, ram)
        } else {
            let l_in = mul16(mixed.0, rv.v_out.l as i32);
            let r_in = mul16(mixed.1, rv.v_out.l as i32);
            let ram2 = rv.reflected(ram, l_in, r_in, write);
            let (l0, r0) = rv.comb(ram2);
            let (l2, r2, ram3) = rv.all_pass(
                l0,
                r0,
                ram2,
                rv.m_lapf1 as int,
                rv.m_rapf1 as int,
                rv.d_apf1 as int,
                rv.v_apf1,
                rv.v_apf1,
                write,
            );
            let (l4, r4, ram4) = rv.all_pass(
                l2,
                r2,
                ram3,
                rv.m_lapf2 as int,
                rv.m_rapf2 as int,
                rv.d_apf2 as int,
                rv.v_apf1,
                rv.v_apf2,
                write,
            );
            (
                Reverb {
                    l_out: mul16(l4, rv.v_out.l as i32),
                    r_out: mul16(r4, rv.v_out.r as i32),
                    current_buffer_addr: rv.next_buffer_addr(),
                    ..rv
                },
                ram4,
            )
        }
    }

    /// A reverb with every register zero.
    pub fn new() -> (r: Self)
        ensures
            r.wf(),
            r.apf_ok(),
            r.m_base == 0,
            r.current_buffer_addr == 0,
            !r.half_tick,
            r.l_out == 0 && r.r_out == 0,
    {
        Reverb {
            v_out: Volume::new(),
            v_in: Volume::new(),
            m_base: 0,
            d_apf1: 0,
            d_apf2: 0,
            v_iir: 0,
            v_comb1: 0,
            v_comb2: 0,
            v_comb3: 0,
            v_comb4: 0,
            v_wall: 0,
            v_apf1: 0,
            v_apf2: 0,
            m_lsame: 0,
            m_rsame: 0,
            d_lsame: 0,
            d_rsame: 0,
            m_lcomb1: 0,
            m_rcomb1: 0,
            m_lcomb2: 0,
            m_rcomb2: 0,
            m_lcomb3: 0,
            m_rcomb3: 0,
            m_lcomb4: 0,
            m_rcomb4: 0,
            m_ldiff: 0,
            m_rdiff: 0,
            d_ldiff: 0,
            d_rdiff: 0,
            m_lapf1: 0,
            m_rapf1: 0,
            m_lapf2: 0,
            m_rapf2: 0,
            half_tick: false,
            current_buffer_addr: 0,
            l_out: 0,
            r_out: 0,
        }
    }

    /// Sets the buffer's start (given divided by 8), which also becomes the
    /// current buffer address.
    pub fn set_base_addr(&mut self, addr: u16)
        ensures
            *final(self) == (Reverb { m_base: (addr * 8) as usize, current_buffer_addr: (addr * 8) as usize, ..*old(self) }),
    {
        self.m_base = addr as usize * 8;
        self.current_buffer_addr = self.m_base;
    }

    fn write_if(&self, ram: &mut Vec<u8>, pos: usize, val: i32, on: bool)
        requires
            self.wf(),
            pos <= MAX_REVERB_ADDR,
            old(ram)@.len() == SOUND_RAM_SIZE,
        ensures
            final(ram)@ == self.write_at(old(ram)@, pos as int, val, on),
            final(ram)@.len() == SOUND_RAM_SIZE,
    {
        if on {
            self.write_sample(ram, pos, val);
        }
    }

    fn reflect(&self, ram: &Vec<u8>, input: i32, disp: usize, src: usize) -> (r: i32)
        requires
            self.wf(),
            disp <= MAX_REVERB_ADDR,
            src <= MAX_REVERB_ADDR,
            ram@.len() == SOUND_RAM_SIZE,
            -0x1_0000 <= input < 0x1_0000,
        ensures
            r == self.reflection(ram@, input, disp as int, src as int),
    {
        let back = self.read_sample(ram, src);
        let wall = mul_16(self.read_sample(ram, disp), self.v_wall);
        mul_16(input + wall - back, self.v_iir) + back
    }

    fn reflect_all(&self, ram: &mut Vec<u8>, l_in: i32, r_in: i32, write: bool)
        requires
            self.wf(),
            old(ram)@.len() == SOUND_RAM_SIZE,
            -0x1_0000 <= l_in < 0x1_0000,
            -0x1_0000 <= r_in < 0x1_0000,
        ensures
            final(ram)@ == self.reflected(old(ram)@, l_in, r_in, write),
            final(ram)@.len() == SOUND_RAM_SIZE,
    {
        let ls2: usize = if self.m_lsame >= 2 { self.m_lsame - 2 } else { 0 };
        let rs2: usize = if self.m_rsame >= 2 { self.m_rsame - 2 } else { 0 };
        let ld2: usize = if self.m_ldiff >= 2 { self.m_ldiff - 2 } else { 0 };
        let ltol = self.reflect(ram, l_in, self.d_lsame, ls2);
        let rtor = self.reflect(ram, r_in, self.d_rsame, rs2);
        self.write_if(ram, self.m_lsame, ltol, write);
        self.write_if(ram, self.m_rsame, rtor, write);
        let rtol = self.reflect(ram, l_in, self.d_rdiff, ld2);
        let ltor = self.reflect(ram, r_in, self.d_rdiff, ld2);
        self.write_if(ram, self.m_lsame, rtol, write);
        self.write_if(ram, self.m_rsame, ltor, write);
    }

    fn comb_taps(&self, ram: &Vec<u8>) -> (r: (i32, i32))
        requires
            self.wf(),
            ram@.len() == SOUND_RAM_SIZE,
        ensures
            r == self.comb(ram@),
            -0x4_0000 <= r.0 < 0x4_0000,
            -0x4_0000 <= r.1 < 0x4_0000,
    {
        let l = mul_16(self.v_comb1, self.read_sample(ram, self.m_lcomb1)) + mul_16(
            self.v_comb2,
            self.read_sample(ram, self.m_lcomb2),
        ) + mul_16(self.v_comb3, self.read_sample(ram, self.m_lcomb3)) + mul_16(
            self.v_comb4,
            self.read_sample(ram, self.m_lcomb4),
        );
        let r = mul_16(self.v_comb1, self.read_sample(ram, self.m_rcomb1)) + mul_16(
            self.v_comb2,
            self.read_sample(ram, self.m_rcomb2),
        ) + mul_16(self.v_comb3, self.read_sample(ram, self.m_rcomb3)) + mul_16(
            self.v_comb4,
            self.read_sample(ram, self.m_rcomb4),
        );
        (l, r)
    }

    fn all_pass_exec(
        &self,
        l: i32,
        r: i32,
        ram: &mut Vec<u8>,
        ml: usize,
        mr: usize,
        d: usize,
        v_sub: i32,
        v_mul: i32,
        write: bool,
    ) -> (out: (i32, i32))
        requires
            self.wf(),
            old(ram)@.len() == SOUND_RAM_SIZE,
            ml <= MAX_REVERB_ADDR && mr <= MAX_REVERB_ADDR,
            d <= ml && d <= mr,
            -0x4_0000 <= l < 0x4_0000,
            -0x4_0000 <= r < 0x4_0000,
        ensures
            (out.0, out.1, final(ram)@) == self.all_pass(l, r, old(ram)@, ml as int, mr as int, d as int, v_sub, v_mul, write),
            final(ram)@.len() == SOUND_RAM_SIZE,
            -0x2_0000 <= out.0 < 0x2_0000,
            -0x2_0000 <= out.1 < 0x2_0000,
    {
        let l1 = l - mul_16(v_sub, self.read_sample(ram, ml - d));
        let r1 = r - mul_16(v_sub, self.read_sample(ram, mr - d));
        self.write_if(ram, ml, l1, write);
        self.write_if(ram, ml, r1, write);
        let l2 = mul_16(l1, v_mul) + self.read_sample(ram, ml - d);
        let r2 = mul_16(r1, v_mul) + self.read_sample(ram, mr - d);
        (l2, r2)
    }

    /// Ticks the reverb at 44.1 kHz; it runs on every other tick (22.05
    /// kHz), storing into its buffer in sound RAM when `write_to_ram` is
    /// set.
    pub fn tick(&mut self, mixed: [i32; 2], ram: &mut Vec<u8>, write_to_ram: bool)
        requires
            old(self).wf(),
            old(self).apf_ok(),
            old(ram)@.len() == SOUND_RAM_SIZE,
        ensures
            final(self).wf(),
            final(self).apf_ok(),
            (*final(self), final(ram)@) == old(self).ticked((mixed[0], mixed[1]), old(ram)@, write_to_ram),
    {
        self.half_tick = !self.half_tick;
        if self.half_tick {
            return;
        }
        let l_in = mul_16(mixed[0], self.v_out.l as i32);
        let r_in = mul_16(mixed[1], self.v_out.l as i32);
        self.reflect_all(ram, l_in, r_in, write_to_ram);
        let (l0, r0) = self.comb_taps(ram);
        let (l2, r2) = self.all_pass_exec(l0, r0, ram, self.m_lapf1, self.m_rapf1, self.d_apf1, self.v_apf1, self.v_apf1, write_to_ram);
        let (l4, r4) = self.all_pass_exec(l2, r2, ram, self.m_lapf2, self.m_rapf2, self.d_apf2, self.v_apf1, self.v_apf2, write_to_ram);
        self.l_out = mul_16(l4, self.v_out.l as i32);
        self.r_out = mul_16(r4, self.v_out.r as i32);
        let next = self.current_buffer_addr + 2;
        let wrapped = next & 0x7FFFE;
        assert(next & 0x7FFFE == next % 0x80000 - next % 2) by (bit_vector)
            requires
                next <= 0x80000,
        ;
        self.current_buffer_addr = if wrapped > self.m_base { wrapped } else { self.m_base };
    }

    fn addr(&self, pos: usize) -> (a: usize)
        requires
            self.wf(),
            pos <= MAX_REVERB_ADDR,
        ensures
            a == self.addr_of(pos as int),
            a + 1 < SOUND_RAM_SIZE,
    {
        let base = self.m_base;
        let offs = (pos + self.current_buffer_addr - base) % (0x80000 - base);
        let a = base + offs;
        a - a % 2
    }

    fn read_sample(&self, ram: &Vec<u8>, pos: usize) -> (v: i32)
        requires
            self.wf(),
            pos <= MAX_REVERB_ADDR,
            ram@.len() == SOUND_RAM_SIZE,
        ensures
            v == self.read_at(ram@, pos as int),
            -0x8000 <= v <= 0x7FFF,
    {
        let a = self.addr(pos);
        let h = (ram[a] as u16 | ((ram[a + 1] as u16) << 8u16)) as i16;
        h as i32
    }

    fn write_sample(&self, ram: &mut Vec<u8>, pos: usize, val: i32)
        requires
            self.wf(),
            pos <= MAX_REVERB_ADDR,
            old(ram)@.len() == SOUND_RAM_SIZE,
        ensures
            final(ram)@ == store_at(old(ram)@, self.addr_of(pos as int), val),
    {
        let a = self.addr(pos);
        let h = clamped_i16(val) as u16;
        ram.set(a, (h & 0xFF) as u8);
        ram.set(a + 1, (h >> 8u16) as u8);
    }
}

/// `a * b` saturated to 32 bits, divided by 8000h rounding down.
pub fn mul_16(a: i32, b: i32) -> (r: i32)
    ensures
        r == mul16(a, b),
        -0x1_0000 <= r < 0x1_0000,
{
    assert(-0x4000_0000_0000_0000 <= a as i64 * b as i64 <= 0x4000_0000_0000_0000) by (nonlinear_arith)
        requires
            i32::MIN <= a <= i32::MAX,
            i32::MIN <= b <= i32::MAX,
    ;
    let p = a as i64 * b as i64;
    let s: i32 = if p > 0x7FFF_FFFF {
        0x7FFF_FFFF
    } else if p < -0x8000_0000 {
        -0x8000_0000
    } else {
        p as i32
    };
    let r = div_floor_8000(s);
    assert(-0x1_0000 <= s as int / 0x8000 < 0x1_0000) by (nonlinear_arith)
        requires
            i32::MIN <= s <= i32::MAX,
    ;
    r
}

/// A value clamped to the signed 16-bit range.
pub fn clamped_i16(v: i32) -> (r: i16)
    ensures
        r == clamp16(v),
{
    if v > 0x7FFF {
        0x7FFF
    } else if v < -0x8000 {
        -0x8000
    } else {
        v as i16
    }
}

} // verus!
