use vstd::prelude::*;

use crate::cpu::instrs::trunc_div;
use crate::gte::math::clamp;

verus! {

/// The 10-bit two's complement value in the low bits of `v`.
pub open spec fn spec_signed10bit(v: u16) -> int {
    let low = v % 1024;
    if low >= 512 { low - 1024 } else { low as int }
}

/// Sign-extends the low 10 bits of `v`; the upper bits are ignored.
pub fn signed10bit(v: u16) -> (r: i16)
    ensures
        r == spec_signed10bit(v),
        -512 <= r < 512,
{
    let low = v % 1024;
    if low >= 512 {
        low as i16 - 1024
    } else {
        low as i16
    }
}

/// For each position of a block in row-major order, its index in the
/// zig-zag order in which coefficients arrive.
pub open spec fn zag_zig_table() -> Seq<usize> {
    seq![
        0, 1, 8, 16, 9, 2, 3, 10, 17, 24, 32, 25, 18, 11, 4, 5, 12, 19, 26, 33, 40, 48, 41, 34,
        27, 20, 13, 6, 7, 14, 21, 28, 35, 42, 49, 56, 57, 50, 43, 36, 29, 22, 15, 23, 30, 37,
        44, 51, 58, 59, 52, 45, 38, 31, 39, 46, 53, 60, 61, 54, 47, 55, 62, 63,
    ]
}

/// The block position of the `k`-th coefficient in zig-zag order.
pub fn zag_zig(k: usize) -> (r: usize)
    requires
        k < 64,
    ensures
        r == zag_zig_table()[k as int],
        r < 64,
{
    let table: [usize; 64] = [
        0, 1, 8, 16, 9, 2, 3, 10, 17, 24, 32, 25, 18, 11, 4, 5, 12, 19, 26, 33, 40, 48, 41, 34,
        27, 20, 13, 6, 7, 14, 21, 28, 35, 42, 49, 56, 57, 50, 43, 36, 29, 22, 15, 23, 30, 37,
        44, 51, 58, 59, 52, 45, 38, 31, 39, 46, 53, 60, 61, 54, 47, 55, 62, 63,
    ];
    proof {
        assert(table@ =~= zag_zig_table());
    }
    table[k]
}

/// One luminance sample shifted to an unsigned 8-bit pixel: the low 9 bits
/// as a signed value, saturated to a byte and offset by 128.
pub open spec fn shifted_pixel(y: i16) -> int {
    let m = (y as int) % 512;
    let s = if m > 255 { m - 512 } else { m };
    clamp(s, -128, 127) + 128
}

pub fn level_shift_8bpp(block: [i16; 64]) -> (out: [u8; 64])
    ensures
        forall|i: int| 0 <= i < 64 ==> #[trigger] out@[i] == shifted_pixel(block@[i]),
{
    let mut out = [0u8; 64];
    for i in 0..64usize
        invariant
            forall|j: int| 0 <= j < i ==> #[trigger] out@[j] == shifted_pixel(block@[j]),
    {
        let y = block[i];
        let v: u32 = (y as i32 + 0x1_0000) as u32;
        let m: u32 = v % 512;
        proof {
            assert(((y as int) + 0x1_0000) % 512 == (y as int) % 512) by {
                vstd::arithmetic::div_mod::lemma_mod_add_multiples_vanish(y as int, 512);
                assert(0x1_0000int == 128 * 512);
                vstd::arithmetic::div_mod::lemma_mod_multiples_vanish(128, y as int, 512);
            }
        }
        let s: i32 = if m > 255 { m as i32 - 512 } else { m as i32 };
        let c: i32 = if s < -128 { -128 } else if s > 127 { 127 } else { s };
        out[i] = (c + 128) as u8;
    }
    out
}

/// Two 8-bit pixels packed into one byte, the first in the low nibble: each
/// keeps its upper four bits.
pub open spec fn packed_nibbles(a: int, b: int) -> int {
    a / 16 + (b / 16) * 16
}

pub fn level_shift_4bpp(block: [i16; 64]) -> (out: [u8; 32])
    ensures
        forall|i: int|
            0 <= i < 32 ==> #[trigger] out@[i] == packed_nibbles(
                shifted_pixel(block@[2 * i]),
                shifted_pixel(block@[2 * i + 1]),
            ),
{
    let pixels = level_shift_8bpp(block);
    let mut out = [0u8; 32];
    for i in 0..32usize
        invariant
            forall|j: int| 0 <= j < 64 ==> #[trigger] pixels@[j] == shifted_pixel(block@[j]),
            forall|j: int|
                0 <= j < i ==> #[trigger] out@[j] == packed_nibbles(
                    shifted_pixel(block@[2 * j]),
                    shifted_pixel(block@[2 * j + 1]),
                ),
    {
        let a = pixels[2 * i];
        let b = pixels[2 * i + 1];
        out[i] = a / 16 + (b / 16) * 16;
    }
    out
}

/// Truncating division of a signed value by a positive divisor.
pub fn div_trunc(a: i32, d: i32) -> (r: i32)
    requires
        d > 1,
    ensures
        r == trunc_div(a as int, d as int),
{
    let m: i64 = if a < 0 { -(a as i64) } else { a as i64 };
    let q: i64 = m / (d as i64);
    proof {
        assert(0 <= q <= m / 2) by (nonlinear_arith)
            requires q == (m as int) / (d as int), m >= 0, d > 1;
    }
    let r: i64 = if a < 0 { -q } else { q };
    r as i32
}

/// Term `z` of the sum that gives output `(x, y)` of one IDCT pass.
pub open spec fn idct_term(src: Seq<i16>, scale: Seq<i16>, x: int, y: int, z: int) -> int {
    src[y + z * 8] * trunc_div(scale[x + z * 8] as int, 8)
}

pub open spec fn idct_sum(src: Seq<i16>, scale: Seq<i16>, x: int, y: int, n: nat) -> int
    decreases n,
{
    if n == 0 {
        0
    } else {
        idct_sum(src, scale, x, y, (n - 1) as nat) + idct_term(src, scale, x, y, n - 1)
    }
}

/// One pass of the inverse DCT: output `x + 8 y` is the sum over `z` of
/// `src[y + 8 z] * (scale[x + 8 z] / 8)`, plus 0xFFF, divided by 0x2000
/// (truncating), kept to 16 bits.
pub open spec fn idct_pass(src: Seq<i16>, scale: Seq<i16>) -> Seq<i16> {
    Seq::new(
        64,
        |i: int| (trunc_div(idct_sum(src, scale, i % 8, i / 8, 8) + 0xFFF, 0x2000)) as i16,
    )
}

/// The two-pass inverse DCT of a block.
pub open spec fn idct(src: Seq<i16>, scale: Seq<i16>) -> Seq<i16> {
    idct_pass(idct_pass(src, scale), scale)
}

proof fn lemma_term_bound(a: int, b: int)
    requires
        -0x8000 <= a <= 0x7FFF,
        -0x1000 <= b <= 0x1000,
    ensures
        -0x800_0000 <= a * b <= 0x800_0000,
{
    assert(-0x800_0000 <= a * b <= 0x800_0000) by (nonlinear_arith)
        requires -0x8000 <= a <= 0x7FFF, -0x1000 <= b <= 0x1000;
}

/// One IDCT pass over a 64-entry block.
pub fn idct_pass_exec(src: &[i16; 64], scale: &[i16; 64]) -> (dst: [i16; 64])
    ensures
        dst@ == idct_pass(src@, scale@),
{
    let mut dst = [0i16; 64];
    for i in 0..64usize
        invariant
            forall|j: int| 0 <= j < i ==> #[trigger] dst@[j] == idct_pass(src@, scale@)[j],
    {
        let x = i % 8;
        let y = i / 8;
        let mut sum: i32 = 0;
        for z in 0..8usize
            invariant
                x < 8,
                y < 8,
                sum == idct_sum(src@, scale@, x as int, y as int, z as nat),
                -0x800_0000 * z <= sum <= 0x800_0000 * z,
        {
            let s = div_trunc(scale[x + z * 8] as i32, 8);
            proof {
                assert(-0x1000 <= s <= 0x1000) by {
                    let v = scale@[x + z * 8] as int;
                    assert(trunc_div(v, 8) == (if v < 0 { -((-v) / 8) } else { v / 8 }));
                }
                lemma_term_bound(src@[y + z * 8] as int, s as int);
            }
            sum = sum + src[y + z * 8] as i32 * s;
        }
        let v = div_trunc(sum + 0xFFF, 0x2000);
        dst[i] = v as i16;
    }
    proof {
        assert(dst@ =~= idct_pass(src@, scale@));
    }
    dst
}

/// A color channel from the luma and its chroma offset: clamped to signed
/// 8 bits, then as an unsigned byte (biased by 80h) unless signed output is
/// asked for.
pub open spec fn channel(luma: i16, offset: i32, is_signed: bool) -> u8 {
    let v = luma + offset;
    let c = if v < -128 { -128 } else if v > 127 { 127 } else { v };
    if is_signed {
        ((c + 256) % 256) as u8
    } else {
        (c + 128) as u8
    }
}

pub fn color_channel(luma: i16, offset: i32, is_signed: bool) -> (r: u8)
    requires
        i32::MIN <= luma + offset <= i32::MAX,
    ensures
        r == channel(luma, offset, is_signed),
{
    let v = luma as i32 + offset;
    let c: i32 = if v < -128 { -128 } else if v > 127 { 127 } else { v };
    if is_signed {
        ((c + 256) % 256) as u8
    } else {
        (c + 128) as u8
    }
}

/// A 15-bit pixel: the top five bits of each channel, red lowest, and the
/// mask bit.
pub fn rgb15_pixel(r: u8, g: u8, b: u8, b15: bool) -> (p: u16)
    ensures
        p == (r / 8) as u16 + (g / 8) as u16 * 32 + (b / 8) as u16 * 1024 + if b15 { 0x8000u16 } else { 0 },
{
    let r5 = (r / 8) as u16;
    let g5 = (g / 8) as u16;
    let b5 = (b / 8) as u16;
    r5 + g5 * 32 + b5 * 1024 + if b15 { 0x8000u16 } else { 0 }
}

/// Where the chroma of pixel (px, py) of the luma block at `pos` within a
/// 16 x 16 macroblock lies in the 8 x 8 chroma block.
pub fn chroma_index(px: usize, py: usize, pos: (usize, usize)) -> (i: usize)
    requires
        px < 8 && py < 8,
        pos.0 <= 8 && pos.1 <= 8,
    ensures
        i == (px + pos.0) / 2 + (py + pos.1) / 2 * 8,
        i < 64,
{
    (px + pos.0) / 2 + (py + pos.1) / 2 * 8
}

/// The unsigned form of a color channel is its signed form with the top
/// bit flipped (biased by 80h), and it never falls as the luma rises: both
/// saturate at the ends of the signed 8-bit range.
pub proof fn lemma_channel_forms(luma: i16, brighter: i16, offset: i32)
    requires
        luma <= brighter,
    ensures
        channel(luma, offset, false) as int == (channel(luma, offset, true) as int + 0x80) % 0x100,
        channel(luma, offset, false) <= channel(brighter, offset, false),
        luma + offset <= -128 ==> channel(luma, offset, false) == 0,
        luma + offset >= 127 ==> channel(luma, offset, false) == 0xFF,
{
}

proof fn lemma_idct_sum_single(src: Seq<i16>, scale: Seq<i16>, x: int, y: int, n: nat, j: int)
    requires
        src.len() == 64,
        0 <= j < 64,
        0 <= y < 8,
        n <= 8,
        forall|m: int| 0 <= m < 64 && m != j ==> src[m] == 0,
    ensures
        idct_sum(src, scale, x, y, n) == (if y == j % 8 && j / 8 < n { src[j] * trunc_div(
            scale[x + (j / 8) * 8] as int,
            8,
        ) } else { 0 }),
    decreases n,
{
    if n > 0 {
        lemma_idct_sum_single(src, scale, x, y, (n - 1) as nat, j);
        let z = n - 1;
        if y + z * 8 != j {
            assert(src[y + z * 8] == 0);
            assert(idct_term(src, scale, x, y, z) == 0);
        } else {
            assert(y == j % 8 && z == j / 8);
        }
    }
}

/// One IDCT pass keeps a single coefficient in its row of the block: when
/// only entry j = c + 8 r of the source is nonzero, output x + 8 y is 0
/// outside row y = c and, in it, trunc((src[j] * trunc(scale[x + 8 r] / 8)
/// + FFFh) / 2000h).
pub proof fn lemma_idct_pass_single(src: Seq<i16>, scale: Seq<i16>, j: int)
    requires
        src.len() == 64,
        scale.len() == 64,
        0 <= j < 64,
        forall|m: int| 0 <= m < 64 && m != j ==> src[m] == 0,
    ensures
        forall|i: int|
            #![trigger idct_pass(src, scale)[i]]
            0 <= i < 64 ==> idct_pass(src, scale)[i] as int == (if i / 8 == j % 8 {
                trunc_div(src[j] * trunc_div(scale[i % 8 + (j / 8) * 8] as int, 8) + 0xFFF, 0x2000)
            } else {
                0
            }),
{
    assert forall|i: int| #![trigger idct_pass(src, scale)[i]] 0 <= i < 64 implies idct_pass(src, scale)[i] as int == (
    if i / 8 == j % 8 {
        trunc_div(src[j] * trunc_div(scale[i % 8 + (j / 8) * 8] as int, 8) + 0xFFF, 0x2000)
    } else {
        0
    }) by {
        lemma_idct_sum_single(src, scale, i % 8, i / 8, 8, j);
        let sum = idct_sum(src, scale, i % 8, i / 8, 8);
        let v = scale[i % 8 + (j / 8) * 8] as int;
        let t = trunc_div(v, 8);
        assert(-0x1000 <= t <= 0x1000);
        let c = src[j] as int;
        assert(-0x800_0000 <= c * t <= 0x800_0000) by (nonlinear_arith)
            requires -0x8000 <= c <= 0x7FFF, -0x1000 <= t <= 0x1000;
        let w = sum + 0xFFF;
        assert(-0x800_1000 <= w <= 0x800_1000);
        let aw = crate::cpu::instrs::abs(w);
        assert(aw / 0x2000 <= 0x4001) by (nonlinear_arith)
            requires 0 <= aw <= 0x800_1000;
        assert(crate::cpu::instrs::abs(0x2000) == 0x2000);
        assert(-0x4001 <= trunc_div(w, 0x2000) <= 0x4001);
        if i / 8 != j % 8 {
            assert(sum == 0);
            assert(0xFFFint / 0x2000int == 0) by (nonlinear_arith);
            assert(crate::cpu::instrs::abs(0xFFF) == 0xFFF);
            assert(trunc_div(0xFFF, 0x2000) == 0);
        }
    }
}

} // verus!
