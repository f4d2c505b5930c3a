//! Properties of the engine that hold across its operations.
use vstd::prelude::*;

use crate::gte::math::{
    Vector3,
    wrap32, clamp, lemma_pack_facts, lower_half, pack_halves, range_min, sext16, upper_half, wrap44,
    SaturationRange,
};
use crate::gte::regs::{matrix_word, matrix_written, vec3_component, vec3_written};
use crate::gte::{in44, rgbc_of, CommandFields, GteModel};
use crate::gte::commands::spec_divide;

verus! {

proof fn lemma_halves_roundtrip(d: u32)
    ensures
        pack_halves(upper_half(d), lower_half(d)) == d,
        upper_half(pack_halves(upper_half(d), lower_half(d))) == upper_half(d),
{
    lemma_pack_facts();
    let hi = (d >> 16u32) as i16;
    let lo = (d & 0xFFFFu32) as i16;
    assert(hi as int == sext16(d as int / 0x1_0000));
    assert(lo as int == sext16(d as int % 0x1_0000));
    assert(upper_half(d) == hi);
    assert(lower_half(d) == lo);
    assert((((d >> 16u32) as i16) as u16 as u32) * 0x1_0000 + (((d & 0xFFFFu32) as i16) as u16 as u32) == d)
        by (bit_vector);
}

proof fn lemma_rgbc_roundtrip(d: u32)
    ensures
        rgbc_of(d).word() == d,
{
}

/// Registers that read back exactly the word written to them.
pub open spec fn is_word_register(r: int) -> bool {
    ||| r == 0 || r == 2 || r == 4 || r == 6
    ||| 12 <= r <= 15
    ||| 20 <= r <= 27
    ||| r == 30
    ||| 32 <= r <= 35 || 37 <= r <= 43 || 45 <= r <= 51 || 53 <= r <= 57
    ||| r == 60
}

/// Reading a word register right after writing `d` to it gives `d` back.
pub proof fn lemma_register_roundtrip(s: GteModel, r: int, d: u32)
    requires
        s.wf(),
        is_word_register(r),
    ensures
        s.write_reg(r, d).read_reg(r) == d,
{
    lemma_halves_roundtrip(d);
    lemma_rgbc_roundtrip(d);
    assert((d as i32) as u32 == d) by (bit_vector);
    lemma_pack_facts();
    if 32 <= r <= 35 {
        let m = matrix_written(s.rtm, r - 32, d);
        assert(matrix_word(m, r - 32) == d);
    } else if 40 <= r <= 43 {
        let m = matrix_written(s.llm, r - 40, d);
        assert(matrix_word(m, r - 40) == d);
    } else if 48 <= r <= 51 {
        let m = matrix_written(s.lcm, r - 48, d);
        assert(matrix_word(m, r - 48) == d);
    } else if 37 <= r <= 39 {
        assert(vec3_component(vec3_written(s.tr, r - 37, d as i32), r - 37) == d as i32);
    } else if 45 <= r <= 47 {
        assert(vec3_component(vec3_written(s.bk, r - 45, d as i32), r - 45) == d as i32);
    } else if 53 <= r <= 55 {
        assert(vec3_component(vec3_written(s.fc, r - 53, d as i32), r - 53) == d as i32);
    } else if r == 30 || 24 <= r <= 27 || r == 56 || r == 57 || r == 60 {
    }
}

/// Loading IR1..3 from MAC1..3 leaves them inside the range that `lm` selects.
pub proof fn lemma_mac_to_ir_in_range(s: GteModel, lm: SaturationRange)
    ensures
        range_min(lm) <= s.mac_to_ir(lm).ir1 <= 0x7FFF,
        range_min(lm) <= s.mac_to_ir(lm).ir2 <= 0x7FFF,
        range_min(lm) <= s.mac_to_ir(lm).ir3 <= 0x7FFF,
        s.mac_to_ir(lm).mac1 == s.mac1 && s.mac_to_ir(lm).mac2 == s.mac2 && s.mac_to_ir(lm).mac3 == s.mac3,
{
}

/// Reducing a value to 44 bits leaves a value in the accumulator range unchanged.
pub proof fn lemma_wrap44_identity(v: int)
    requires
        in44(v),
    ensures
        wrap44(v) == v,
{
}

/// Saturation leaves values that are already in range unchanged.
pub proof fn lemma_clamp_identity(v: int, lo: int, hi: int)
    requires
        lo <= v <= hi,
    ensures
        clamp(v, lo, hi) == v,
{
}

/// The cross product of the edges from the first screen point of the SXY
/// FIFO to the other two: twice the signed area of the screen triangle.
pub open spec fn screen_cross(m: GteModel) -> int {
    let (x0, y0) = (m.sxy[0].x as int, m.sxy[0].y as int);
    let (x1, y1) = (m.sxy[1].x as int, m.sxy[1].y as int);
    let (x2, y2) = (m.sxy[2].x as int, m.sxy[2].y as int);
    (x1 - x0) * (y2 - y0) - (x2 - x0) * (y1 - y0)
}

proof fn lemma_wrap32_range(v: int)
    ensures
        -0x8000_0000 <= wrap32(v) <= 0x7FFF_FFFF,
        -0x8000_0000 <= v <= 0x7FFF_FFFF ==> wrap32(v) == v,
{
}

/// NCLIP leaves in MAC0 the cross product (x1-x0)*(y2-y0) - (x2-x0)*(y1-y0)
/// of the three screen points, wrapped to 32 bits: exactly that product
/// when it fits. So MAC0 keeps its value when the three points are rotated,
/// and changes sign when two of them are swapped.
pub proof fn lemma_nclip_is_cross_product(m: GteModel)
    requires
        m.sxy.len() == 3,
    ensures
        m.nclip().mac0 as int == wrap32(screen_cross(m)),
        -0x8000_0000 <= screen_cross(m) <= 0x7FFF_FFFF ==> m.nclip().mac0 as int == screen_cross(m),
        (GteModel { sxy: seq![m.sxy[1], m.sxy[2], m.sxy[0]], ..m }).nclip().mac0 == m.nclip().mac0,
        (GteModel { sxy: seq![m.sxy[1], m.sxy[0], m.sxy[2]], ..m }).nclip().mac0 as int == wrap32(-screen_cross(m)),
{
    let (x0, y0) = (m.sxy[0].x as int, m.sxy[0].y as int);
    let (x1, y1) = (m.sxy[1].x as int, m.sxy[1].y as int);
    let (x2, y2) = (m.sxy[2].x as int, m.sxy[2].y as int);
    assert(x0 * (y1 - y2) + x1 * (y2 - y0) + x2 * (y0 - y1) == (x1 - x0) * (y2 - y0) - (x2 - x0) * (y1 - y0))
        by (nonlinear_arith);
    assert(x1 * (y2 - y0) + x2 * (y0 - y1) + x0 * (y1 - y2) == (x1 - x0) * (y2 - y0) - (x2 - x0) * (y1 - y0))
        by (nonlinear_arith);
    assert(x1 * (y0 - y2) + x0 * (y2 - y1) + x2 * (y1 - y0) == -((x1 - x0) * (y2 - y0) - (x2 - x0) * (y1 - y0)))
        by (nonlinear_arith);
    lemma_wrap32_range(screen_cross(m));
    lemma_wrap32_range(-screen_cross(m));
}

proof fn lemma_flags_keep_fifos(m: GteModel, cond: bool, n: u32, v: int, idx: int)
    ensures
        m.flag_if(cond, n).sxy == m.sxy && m.flag_if(cond, n).sz == m.sz,
        m.check_mac0(v).sxy == m.sxy && m.check_mac0(v).sz == m.sz,
        m.check44(idx, v).sxy == m.sxy && m.check44(idx, v).sz == m.sz,
{
}

proof fn lemma_mvmv_row_keeps_fifos(
    m: GteModel,
    idx: int,
    shift: int,
    m0: int,
    m1: int,
    m2: int,
    v: Vector3<i16>,
    t: int,
    far: bool,
)
    ensures
        m.mvmv_row(idx, shift, m0, m1, m2, v, t, far).0.sxy == m.sxy,
        m.mvmv_row(idx, shift, m0, m1, m2, v, t, far).0.sz == m.sz,
{
}

#[verifier::rlimit(40)]
proof fn lemma_rtp_head_keeps_fifos(m: GteModel, vec: Vector3<i16>, f: CommandFields)
    ensures
        m.rtp_head(vec, f).0.sxy == m.sxy,
        m.rtp_head(vec, f).0.sz == m.sz,
{
    let shift = f.shift();
    let (s1, a1) = m.mvmv_row(1, shift, m.rtm[0] as int, m.rtm[1] as int, m.rtm[2] as int, vec, m.tr.x as int, false);
    lemma_mvmv_row_keeps_fifos(m, 1, shift, m.rtm[0] as int, m.rtm[1] as int, m.rtm[2] as int, vec, m.tr.x as int, false);
    let (s2, a2) = s1.mvmv_row(2, shift, m.rtm[3] as int, m.rtm[4] as int, m.rtm[5] as int, vec, m.tr.y as int, false);
    lemma_mvmv_row_keeps_fifos(s1, 2, shift, m.rtm[3] as int, m.rtm[4] as int, m.rtm[5] as int, vec, m.tr.y as int, false);
    let (s3, a3) = s2.mvmv_row(3, shift, m.rtm[6] as int, m.rtm[7] as int, m.rtm[8] as int, vec, m.tr.z as int, false);
    lemma_mvmv_row_keeps_fifos(s2, 3, shift, m.rtm[6] as int, m.rtm[7] as int, m.rtm[8] as int, vec, m.tr.z as int, false);
    assert(s3.sxy == m.sxy && s3.sz == m.sz);
}

proof fn lemma_rtp_tail_pushes(m: GteModel, last_z: int)
    requires
        m.sxy.len() == 3,
        m.sz.len() == 4,
    ensures
        ({
            let r = m.rtp_tail(last_z).0;
            &&& r.sxy.len() == 3 && r.sz.len() == 4
            &&& r.sxy[0] == m.sxy[1] && r.sxy[1] == m.sxy[2]
            &&& r.sz[0] == m.sz[1] && r.sz[1] == m.sz[2] && r.sz[2] == m.sz[3]
            &&& -0x400 <= r.sxy[2].x <= 0x3FF && -0x400 <= r.sxy[2].y <= 0x3FF
        }),
{
}

proof fn lemma_rtp_pushes(m: GteModel, vec: Vector3<i16>, f: CommandFields)
    requires
        m.sxy.len() == 3,
        m.sz.len() == 4,
    ensures
        ({
            let r = m.rtp(vec, f).0;
            &&& r.sxy.len() == 3 && r.sz.len() == 4
            &&& r.sxy[0] == m.sxy[1] && r.sxy[1] == m.sxy[2]
            &&& r.sz[0] == m.sz[1] && r.sz[1] == m.sz[2] && r.sz[2] == m.sz[3]
            &&& -0x400 <= r.sxy[2].x <= 0x3FF && -0x400 <= r.sxy[2].y <= 0x3FF
        }),
{
    let (s, last_z) = m.rtp_head(vec, f);
    lemma_rtp_head_keeps_fifos(m, vec, f);
    lemma_rtp_tail_pushes(s, last_z);
}

proof fn lemma_depth_queuing_keeps_fifos(m: GteModel, pf: int)
    ensures
        m.depth_queuing(pf).sxy == m.sxy,
        m.depth_queuing(pf).sz == m.sz,
{
}

/// RTPS pushes one screen point onto the SXY FIFO and one screen Z onto the
/// SZ FIFO: the older entries move one place toward the front and the oldest
/// drops out; the new screen point lies in -400h..3FFh on both axes.
pub proof fn lemma_rtps_pushes_fifos(m: GteModel, f: CommandFields)
    requires
        m.sxy.len() == 3,
        m.sz.len() == 4,
    ensures
        ({
            let r = m.rtps(f);
            &&& r.sxy.len() == 3 && r.sz.len() == 4
            &&& r.sxy[0] == m.sxy[1] && r.sxy[1] == m.sxy[2]
            &&& r.sz[0] == m.sz[1] && r.sz[1] == m.sz[2] && r.sz[2] == m.sz[3]
            &&& -0x400 <= r.sxy[2].x <= 0x3FF && -0x400 <= r.sxy[2].y <= 0x3FF
        }),
{
    let (s, pf) = m.rtp(m.v0, f);
    lemma_rtp_pushes(m, m.v0, f);
    lemma_depth_queuing_keeps_fifos(s, pf);
}

/// AVSZ3 averages the three newest screen Z values (SZ1..SZ3, not SZ0)
/// scaled by ZSF3: MAC0 gets ZSF3 * (SZ1 + SZ2 + SZ3) wrapped to 32 bits and
/// OTZ that product / 1000h, saturated to 0..FFFFh. AVSZ4 does the same with
/// all four and ZSF4. The oldest Z plays no part in AVSZ3.
pub proof fn lemma_average_z(m: GteModel, z0: u16)
    requires
        m.sz.len() == 4,
    ensures
        ({
            let p3 = m.zsf3 * (m.sz[1] + m.sz[2] + m.sz[3]);
            let p4 = m.zsf4 * (m.sz[0] + m.sz[1] + m.sz[2] + m.sz[3]);
            &&& m.avsz3().mac0 as int == wrap32(p3)
            &&& m.avsz3().otz as int == clamp(p3 / 0x1000, 0, 0xFFFF)
            &&& m.avsz4().mac0 as int == wrap32(p4)
            &&& m.avsz4().otz as int == clamp(p4 / 0x1000, 0, 0xFFFF)
            &&& (GteModel { sz: m.sz.update(0, z0), ..m }).avsz3().otz == m.avsz3().otz
            &&& (GteModel { sz: m.sz.update(0, z0), ..m }).avsz3().mac0 == m.avsz3().mac0
        }),
{
    let p3 = m.zsf3 * (m.sz[1] + m.sz[2] + m.sz[3]);
    let p4 = m.zsf4 * (m.sz[0] + m.sz[1] + m.sz[2] + m.sz[3]);
    lemma_wrap32_range(p3);
    lemma_wrap32_range(p4);
}

/// The perspective factor H / SZ is rounded to the nearest 1/10000h: unless
/// it saturates at 1FFFFh, twice the factor times SZ is within SZ of
/// H * 20000h.
pub proof fn lemma_divide_rounds(h: int, sz: int)
    requires
        0 <= h,
        0 < sz,
    ensures
        spec_divide(h, sz) <= 0x1FFFF,
        spec_divide(h, sz) < 0x1FFFF ==> 2 * spec_divide(h, sz) * sz - sz <= h * 0x20000 < 2 * spec_divide(h, sz) * sz + sz,
{
    let n = h * 0x20000;
    let t = n / sz;
    let q = (t + 1) / 2;
    assert(t * sz <= n < t * sz + sz) by (nonlinear_arith)
        requires
            t == n / sz,
            sz > 0,
            n >= 0,
    ;
    assert(2 * q == t || 2 * q == t + 1);
    assert(2 * q * sz - sz <= n < 2 * q * sz + sz) by (nonlinear_arith)
        requires
            t * sz <= n < t * sz + sz,
            2 * q == t || 2 * q == t + 1,
            sz > 0,
    ;
}

/// Depth cueing from a projection factor: MAC0 gets DQB + DQA * factor
/// wrapped to 32 bits, and IR0 that sum / 1000h saturated to 0..1000h; the
/// FIFOs, the other accumulators and the IR1..3 registers stay as they were.
pub proof fn lemma_depth_cue(m: GteModel, pf: int)
    ensures
        ({
            let r = m.depth_queuing(pf);
            let res = m.dqb + m.dqa * pf;
            &&& r.mac0 as int == wrap32(res)
            &&& r.ir0 as int == clamp(res / 0x1000, 0, 0x1000)
            &&& r.sxy == m.sxy && r.sz == m.sz
            &&& r.mac1 == m.mac1 && r.mac2 == m.mac2 && r.mac3 == m.mac3
            &&& r.ir1 == m.ir1 && r.ir2 == m.ir2 && r.ir3 == m.ir3
        }),
{
    let res = m.dqb + m.dqa * pf;
    lemma_wrap32_range(res);
}

} // verus!
