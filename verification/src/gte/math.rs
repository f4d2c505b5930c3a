//! Fixed-point helpers and the small vector and matrix types of the
//! geometry transformation engine.
use vstd::prelude::*;

verus! {

/// `v` limited to the closed range `lo..=hi`.
pub open spec fn clamp(v: int, lo: int, hi: int) -> int {
    if v < lo {
        lo
    } else if v > hi {
        hi
    } else {
        v
    }
}

/// `v` reduced to a signed 44-bit two's complement value.
pub open spec fn wrap44(v: int) -> int {
    ((v + 0x800_0000_0000) % 0x1000_0000_0000) - 0x800_0000_0000
}

/// `v` reduced to a signed 32-bit two's complement value.
pub open spec fn wrap32(v: int) -> int {
    ((v + 0x8000_0000) % 0x1_0000_0000) - 0x8000_0000
}

/// Value of a 16-bit half word read as a signed number.
pub open spec fn sext16(v: int) -> int {
    if v >= 0x8000 { v - 0x1_0000 } else { v }
}

/// Arithmetic shift right by 0 or 12 bits: floor division by `2^shift`.
pub open spec fn asr(v: int, shift: int) -> int {
    if shift == 0 { v } else { v / 4096 }
}

/// The signed range that a product of two `i16` values lies in.
pub open spec fn i16_product_range(p: int) -> bool {
    -0x3FFF_8000 <= p <= 0x4000_0000
}

pub proof fn lemma_i16_product(a: int, b: int)
    requires
        -0x8000 <= a <= 0x7FFF,
        -0x8000 <= b <= 0x7FFF,
    ensures
        i16_product_range(a * b),
{
    assert(-0x3FFF_8000 <= a * b <= 0x4000_0000) by (nonlinear_arith)
        requires
            -0x8000 <= a <= 0x7FFF,
            -0x8000 <= b <= 0x7FFF,
    ;
}

pub proof fn lemma_u8_i16_product(a: int, b: int)
    requires
        0 <= a <= 0xFF,
        -0x8000 <= b <= 0x7FFF,
    ensures
        -0x80_0000 <= a * b <= 0x7F_8000,
{
    assert(-0x80_0000 <= a * b <= 0x7F_8000) by (nonlinear_arith)
        requires
            0 <= a <= 0xFF,
            -0x8000 <= b <= 0x7FFF,
    ;
}

/// Facts about the shifts and truncating casts that the engine uses.
pub proof fn lemma_shift_facts()
    ensures
        forall|v: i64| #![trigger (v << 20u64) >> 20u64] ((v << 20u64) >> 20u64) as int == wrap44(v as int),
        forall|v: i64| #![trigger (v >> 12u64)] (v >> 12u64) as int == (v as int) / 4096,
        forall|v: i64| #![trigger (v >> 0u64)] (v >> 0u64) == v,
        forall|v: i64| #![trigger (v as i32)] (v as i32) as int == wrap32(v as int),
        forall|v: i32| #![trigger (v >> 4u32)] (v >> 4u32) as int == (v as int) / 16,
        forall|v: i32| #![trigger (v >> 12u32)] (v >> 12u32) as int == (v as int) / 4096,
        forall|v: i32| #![trigger (v >> 0u32)] (v >> 0u32) == v,
        forall|v: i64| -0x8000_0000 <= v < 0x8000_0000 ==> #[trigger] (v << 12u64) as int == v * 4096,
        forall|v: i64| -0x1000_0000 <= v < 0x1000_0000 ==> #[trigger] (v << 4u64) as int == v * 16,
        forall|v: i64| -0x8000_0000 <= v < 0x8000_0000 ==> #[trigger] (v << 16u64) as int == v * 65536,
        forall|v: i64| #![trigger (v >> 16u64)] (v >> 16u64) as int == (v as int) / 65536,
{
    assert(
        (forall|v: i64| #![trigger (v << 20u64) >> 20u64] ((v << 20u64) >> 20u64) as int == wrap44(v as int))
        && (forall|v: i64| #![trigger (v >> 12u64)] (v >> 12u64) as int == (v as int) / 4096)
        && (forall|v: i64| #![trigger (v >> 0u64)] (v >> 0u64) == v)
        && (forall|v: i64| #![trigger (v as i32)] (v as i32) as int == wrap32(v as int))
        && (forall|v: i32| #![trigger (v >> 4u32)] (v >> 4u32) as int == (v as int) / 16)
        && (forall|v: i32| #![trigger (v >> 12u32)] (v >> 12u32) as int == (v as int) / 4096)
        && (forall|v: i32| #![trigger (v >> 0u32)] (v >> 0u32) == v)
        && (forall|v: i64| -0x8000_0000 <= v < 0x8000_0000 ==> #[trigger] (v << 12u64) as int == v * 4096)
        && (forall|v: i64| -0x1000_0000 <= v < 0x1000_0000 ==> #[trigger] (v << 4u64) as int == v * 16)
        && (forall|v: i64| -0x8000_0000 <= v < 0x8000_0000 ==> #[trigger] (v << 16u64) as int == v * 65536)
        && (forall|v: i64| #![trigger (v >> 16u64)] (v >> 16u64) as int == (v as int) / 65536)
    ) by (bit_vector);
}

/// Packing two 16-bit halves into a register word and back.
pub proof fn lemma_pack_facts()
    ensures
        forall|hi: i16, lo: i16| #![trigger ((hi as u32) << 16u32) | ((lo as u32) & 0xFFFFu32)]
            ((hi as u32) << 16u32) | ((lo as u32) & 0xFFFFu32) == (hi as u16 as u32) * 0x1_0000 + (lo as u16 as u32),
        forall|v: u32| #![trigger ((v >> 16u32) as i16)] ((v >> 16u32) as i16) as int == sext16(v as int / 0x1_0000),
        forall|v: u32| #![trigger ((v & 0xFFFFu32) as i16)] ((v & 0xFFFFu32) as i16) as int == sext16(v as int % 0x1_0000),
        forall|x: i16| #![trigger (x as u16 as u32)] (x as u16 as u32) as int == (if x < 0 { x + 0x1_0000 } else { x as int }),
        forall|x: i16| #![trigger (x as u32)] (x as u32) as int == (if x < 0 { x + 0x1_0000_0000 } else { x as int }),
{
    assert(
        (forall|hi: i16, lo: i16| #![trigger ((hi as u32) << 16u32) | ((lo as u32) & 0xFFFFu32)]
        ((hi as u32) << 16u32) | ((lo as u32) & 0xFFFFu32) == (hi as u16 as u32) * 0x1_0000 + (lo as u16 as u32))
        && (forall|v: u32| #![trigger ((v >> 16u32) as i16)] ((v >> 16u32) as i16) as int == sext16(v as int / 0x1_0000))
        && (forall|v: u32| #![trigger ((v & 0xFFFFu32) as i16)] ((v & 0xFFFFu32) as i16) as int == sext16(v as int % 0x1_0000))
        && (forall|x: i16| #![trigger (x as u16 as u32)] (x as u16 as u32) as int == (if x < 0 { x + 0x1_0000 } else { x as int }))
        && (forall|x: i16| #![trigger (x as u32)] (x as u32) as int == (if x < 0 { x + 0x1_0000_0000 } else { x as int }))
    ) by (bit_vector);
}

/// The 32-bit register word that holds `hi` in its upper and `lo` in its lower half.
pub open spec fn pack_halves(hi: i16, lo: i16) -> u32 {
    ((hi as u16 as u32) * 0x1_0000 + (lo as u16 as u32)) as u32
}

/// Upper half of a register word, as a signed half word.
pub open spec fn upper_half(v: u32) -> i16 {
    sext16(v as int / 0x1_0000) as i16
}

/// Lower half of a register word, as a signed half word.
pub open spec fn lower_half(v: u32) -> i16 {
    sext16(v as int % 0x1_0000) as i16
}

/// Two-component vector.
#[derive(Clone, Copy)]
pub struct Vector2<T> {
    pub x: T,
    pub y: T,
}

/// Three-component vector.
#[derive(Clone, Copy)]
pub struct Vector3<T> {
    pub x: T,
    pub y: T,
    pub z: T,
}

impl Vector2<i16> {
    /// Splits a register word: the lower half is `x`, the upper half `y`.
    pub fn from_u32(v: u32) -> (r: Self)
        ensures
            r.x == lower_half(v),
            r.y == upper_half(v),
    {
        proof { lemma_pack_facts(); }
        Vector2 { y: (v >> 16) as i16, x: (v & 0xFFFF) as i16 }
    }

    pub fn write_u32(&mut self, v: u32)
        ensures
            final(self).x == lower_half(v),
            final(self).y == upper_half(v),
    {
        *self = Self::from_u32(v);
    }

    /// The register word with `y` in the upper and `x` in the lower half.
    pub fn as_u32(&self) -> (r: u32)
        ensures
            r == pack_halves(self.y, self.x),
    {
        proof { lemma_pack_facts(); }
        ((self.y as u32) << 16) | ((self.x as u32) & 0xFFFF)
    }

    /// Component-wise difference, widened to 64 bits.
    pub fn minus(self, rhs: Self) -> (r: Vector2<i64>)
        ensures
            r.x == self.x - rhs.x,
            r.y == self.y - rhs.y,
    {
        Vector2 { x: self.x as i64 - rhs.x as i64, y: self.y as i64 - rhs.y as i64 }
    }
}

impl Vector2<i64> {
    /// Two-dimensional cross product `x1 * y2 - y1 * x2`.
    pub fn cross(self, rhs: Self) -> (r: i64)
        requires
            i64::MIN <= self.x * rhs.y <= i64::MAX,
            i64::MIN <= self.y * rhs.x <= i64::MAX,
            i64::MIN <= self.x * rhs.y - self.y * rhs.x <= i64::MAX,
        ensures
            r == self.x * rhs.y - self.y * rhs.x,
    {
        self.x * rhs.y - self.y * rhs.x
    }
}

/// Whether `x * y` lies in the range of `i64`.
pub open spec fn fits_i64(v: int) -> bool {
    i64::MIN <= v <= i64::MAX
}

impl Vector3<i16> {
    /// Writes the register word `v` into `x` (lower half) and `y` (upper half).
    pub fn write_xy(&mut self, v: u32)
        ensures
            final(self).x == lower_half(v),
            final(self).y == upper_half(v),
            final(self).z == old(self).z,
    {
        proof { lemma_pack_facts(); }
        self.y = (v >> 16) as i16;
        self.x = (v & 0xFFFF) as i16;
    }

    /// The register word with `y` in the upper and `x` in the lower half.
    pub fn xy(&self) -> (r: u32)
        ensures
            r == pack_halves(self.y, self.x),
    {
        proof { lemma_pack_facts(); }
        ((self.y as u32) << 16) | ((self.x as u32) & 0xFFFF)
    }

    /// The `z` component sign-extended to a register word.
    pub fn zs(&self) -> (r: u32)
        ensures
            r == self.z as u32,
            r as int == (if self.z < 0 { self.z + 0x1_0000_0000 } else { self.z as int }),
    {
        proof { lemma_pack_facts(); }
        self.z as u32
    }
}

/// Limits `curr` to `min..=max` and reports whether it had to.
pub fn checked_saturated(curr: i32, min: i32, max: i32) -> (r: (i32, bool))
    requires
        min <= max,
    ensures
        r.0 == clamp(curr as int, min as int, max as int),
        r.1 == (curr < min || curr > max),
{
    if curr < min {
        return (min, true);
    }
    if curr > max {
        return (max, true);
    }
    (curr, false)
}

/// Saturation range of the interpolation registers, selected by the `lm` bit.
#[derive(Clone, Copy, PartialEq, Eq, Structural)]
pub enum SaturationRange {
    Signed16,
    Unsigned15,
}

/// Lower limit of a saturation range.
pub open spec fn range_min(lm: SaturationRange) -> int {
    match lm {
        SaturationRange::Signed16 => -0x8000,
        SaturationRange::Unsigned15 => 0,
    }
}

impl Vector3<i64> {
    /// Three-dimensional cross product.
    pub fn cross(self, rhs: Self) -> (r: Vector3<i64>)
        requires
            fits_i64(self.y * rhs.z),
            fits_i64(self.z * rhs.y),
            fits_i64(self.y * rhs.z - self.z * rhs.y),
            fits_i64(self.z * rhs.x),
            fits_i64(self.x * rhs.z),
            fits_i64(self.z * rhs.x - self.x * rhs.z),
            fits_i64(self.x * rhs.y),
            fits_i64(self.y * rhs.x),
            fits_i64(self.x * rhs.y - self.y * rhs.x),
        ensures
            r.x == self.y * rhs.z - self.z * rhs.y,
            r.y == self.z * rhs.x - self.x * rhs.z,
            r.z == self.x * rhs.y - self.y * rhs.x,
    {
        Vector3 {
            x: (self.y * rhs.z) - (self.z * rhs.y),
            y: (self.z * rhs.x) - (self.x * rhs.z),
            z: (self.x * rhs.y) - (self.y * rhs.x),
        }
    }

    /// Each component truncated to 32 bits and then saturated to the range
    /// that `lm` selects, with a flag per component that tells whether it
    /// was out of range.
    pub fn saturated(self, lm: SaturationRange) -> (r: (Vector3<i16>, [bool; 3]))
        ensures
            r.0.x == clamp(wrap32(self.x as int), range_min(lm), 0x7FFF),
            r.0.y == clamp(wrap32(self.y as int), range_min(lm), 0x7FFF),
            r.0.z == clamp(wrap32(self.z as int), range_min(lm), 0x7FFF),
            r.1@[0] == (wrap32(self.x as int) < range_min(lm) || wrap32(self.x as int) > 0x7FFF),
            r.1@[1] == (wrap32(self.y as int) < range_min(lm) || wrap32(self.y as int) > 0x7FFF),
            r.1@[2] == (wrap32(self.z as int) < range_min(lm) || wrap32(self.z as int) > 0x7FFF),
    {
        proof { lemma_shift_facts(); }
        let min: i32 = match lm {
            SaturationRange::Signed16 => -0x8000,
            SaturationRange::Unsigned15 => 0,
        };
        let (x, flag_x) = checked_saturated(self.x as i32, min, 0x7FFF);
        let (y, flag_y) = checked_saturated(self.y as i32, min, 0x7FFF);
        let (z, flag_z) = checked_saturated(self.z as i32, min, 0x7FFF);
        (Vector3 { x: x as i16, y: y as i16, z: z as i16 }, [flag_x, flag_y, flag_z])
    }
}

/// Sign-extends the low 44 bits of `t`.
pub fn m44(t: i64) -> (r: i64)
    ensures
        r == wrap44(t as int),
{
    proof { lemma_shift_facts(); }
    (t << 20) >> 20
}

/// A 3x3 matrix of signed fixed-point entries, stored row by row.
pub struct Matrix3 {
    pub elems: [i16; 9],
}

impl Matrix3 {
    /// Entry `i` in row-major order.
    pub open spec fn elem(self, i: int) -> i16 {
        self.elems@[i]
    }

    /// Writes control register `r` of this matrix: registers 0 to 3 hold two
    /// entries each (the later one in the upper half), register 4 the last entry.
    pub fn write_reg_u32(&mut self, r: usize, v: u32)
        requires
            r <= 4,
        ensures
            r == 4 ==> final(self).elems@ == old(self).elems@.update(8, lower_half(v)),
            r < 4 ==> final(self).elems@ == old(self).elems@.update(2 * r + 1, upper_half(v)).update(
                2 * r,
                lower_half(v),
            ),
    {
        proof { lemma_pack_facts(); }
        if r == 4 {
            self.elems[8] = (v & 0xFFFF) as i16;
            return;
        }
        self.elems[r * 2 + 1] = (v >> 16) as i16;
        self.elems[r * 2] = (v & 0xFFFF) as i16;
    }

    /// Reads control register `r` of this matrix.
    pub fn as_reg_u32(&self, r: usize) -> (res: u32)
        requires
            r <= 4,
        ensures
            r == 4 ==> res == self.elem(8) as u32,
            r < 4 ==> res == pack_halves(self.elem(2 * r + 1), self.elem(2 * r)),
    {
        proof { lemma_pack_facts(); }
        if r == 4 {
            return self.elems[8] as u32;
        }
        let msb = self.elems[r * 2 + 1] as u32;
        let lsb = self.elems[r * 2] as u32;
        (msb << 16) | (lsb & 0xFFFF)
    }

    /// Entry in row `r`, column `c`.
    pub fn at(&self, r: usize, c: usize) -> (res: i16)
        requires
            r < 3,
            c < 3,
        ensures
            res == self.elem(r * 3 + c),
    {
        self.elems[r * 3 + c]
    }
}

} // verus!
