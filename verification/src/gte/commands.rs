//! The coprocessor 2 commands.
use vstd::prelude::*;

use crate::gte::math::{
    asr, clamp, lemma_i16_product, lemma_shift_facts, lemma_u8_i16_product, range_min,
    wrap32, wrap44, Matrix3, SaturationRange, Vector2, Vector3,
};
use crate::gte::{
    in44, ir_sat_bit, CommandFields, ControlVec, GTEngine, GteModel, Matrix, Rgbc, Vector,
};

verus! {

/// Perspective division `h / sz` as an unsigned 1.16 fixed-point value,
/// rounded to nearest and limited to 1FFFFh.
pub open spec fn spec_divide(h: int, sz: int) -> int {
    let q = (h * 0x20000 / sz + 1) / 2;
    if q > 0x1FFFF { 0x1FFFF } else { q }
}

/// Unsigned division of the projection plane distance by a screen Z value.
pub fn divide(h: u16, sz: u16) -> (r: u32)
    requires
        sz > 0,
    ensures
        r == spec_divide(h as int, sz as int),
        r <= 0x1FFFF,
{
    let n = (h as u64) * 0x20000;
    let q = (n / sz as u64 + 1) / 2;
    if q > 0x1FFFF {
        0x1FFFF
    } else {
        q as u32
    }
}

/// The rows of the matrix that MVMVA reads for the `Reserved` selector.
pub open spec fn garbage_matrix(s: GteModel) -> Seq<i16> {
    let red = s.rgbc.r as int;
    let r13 = s.rtm[2];
    let r22 = s.rtm[4];
    seq![(-red * 16) as i16, (red * 16) as i16, s.ir0, r13, r13, r13, r22, r22, r22]
}

impl GteModel {
    /// The matrix that a matrix selector names.
    pub open spec fn matrix_of(self, mx: Matrix) -> Seq<i16> {
        match mx {
            Matrix::Rotation => self.rtm,
            Matrix::Light => self.llm,
            Matrix::Color => self.lcm,
            Matrix::Reserved => garbage_matrix(self),
        }
    }

    /// The vector that a vector selector names.
    pub open spec fn vector_of(self, vx: Vector) -> Vector3<i16> {
        match vx {
            Vector::V0 => self.v0,
            Vector::V1 => self.v1,
            Vector::V2 => self.v2,
            Vector::IR => Vector3 { x: self.ir1, y: self.ir2, z: self.ir3 },
        }
    }

    /// The translation vector that a control vector selector names.
    pub open spec fn control_of(self, cv: ControlVec) -> Vector3<i32> {
        match cv {
            ControlVec::Translation => self.tr,
            ControlVec::Background => self.bk,
            ControlVec::FarColor => self.fc,
            ControlVec::Zero => Vector3 { x: 0, y: 0, z: 0 },
        }
    }

    /// One row of a matrix-vector product with translation, accumulated in
    /// 44 bits: the flags after it and the accumulator. With `far`, the first
    /// partial sum only sets the IR flag and is then discarded.
    pub open spec fn mvmv_row(
        self,
        idx: int,
        shift: int,
        m0: int,
        m1: int,
        m2: int,
        v: Vector3<i16>,
        t: int,
        far: bool,
    ) -> (GteModel, int) {
        let a = t * 4096 + m0 * v.x;
        let s1 = self.check44(idx, a);
        let s2 = if far {
            s1.check_ir(idx, wrap32(asr(wrap44(a), shift)), SaturationRange::Signed16)
        } else {
            s1
        };
        let w = if far { 0 } else { wrap44(a) };
        let b = w + m1 * v.y;
        let s3 = s2.check44(idx, b);
        let c = wrap44(b) + m2 * v.z;
        let s4 = s3.check44(idx, c);
        (s4, wrap44(c))
    }

    /// MAC1..3 loaded from three accumulators shifted by `shift`.
    pub open spec fn set_macs(self, a1: int, a2: int, a3: int, shift: int) -> GteModel {
        GteModel {
            mac1: wrap32(asr(a1, shift)) as i32,
            mac2: wrap32(asr(a2, shift)) as i32,
            mac3: wrap32(asr(a3, shift)) as i32,
            ..self
        }
    }

    /// `[MAC1..3] = (T + M * V) >> shift`, then IR1..3 loaded from MAC1..3.
    pub open spec fn mvmv(
        self,
        shift: int,
        lm: SaturationRange,
        m: Seq<i16>,
        v: Vector3<i16>,
        t: Vector3<i32>,
        far: bool,
    ) -> GteModel {
        let (s1, a1) = self.mvmv_row(1, shift, m[0] as int, m[1] as int, m[2] as int, v, t.x as int, far);
        let (s2, a2) = s1.mvmv_row(2, shift, m[3] as int, m[4] as int, m[5] as int, v, t.y as int, far);
        let (s3, a3) = s2.mvmv_row(3, shift, m[6] as int, m[7] as int, m[8] as int, v, t.z as int, far);
        s3.set_macs(a1, a2, a3, shift).mac_to_ir(lm)
    }

    /// MVMVA with the operands that the selectors name.
    pub open spec fn mvmv_sel(self, f: CommandFields, mx: Matrix, vx: Vector, cv: ControlVec) -> GteModel {
        self.mvmv(
            f.shift(),
            f.spec_lm(),
            self.matrix_of(mx),
            self.vector_of(vx),
            self.control_of(cv),
            cv == ControlVec::FarColor,
        )
    }

    /// One accumulator checked against 44 bits: the flags and the MAC value.
    pub open spec fn acc(self, idx: int, a: int, shift: int) -> (GteModel, int) {
        (self.check44(idx, a), wrap32(asr(wrap44(a), shift)))
    }

    /// MAC1..3 from three accumulators, then IR1..3 and a color FIFO push.
    pub open spec fn acc3_push(self, a1: int, a2: int, a3: int, f: CommandFields) -> GteModel {
        let (s1, m1) = self.acc(1, a1, f.shift());
        let (s2, m2) = s1.acc(2, a2, f.shift());
        let (s3, m3) = s2.acc(3, a3, f.shift());
        GteModel { mac1: m1 as i32, mac2: m2 as i32, mac3: m3 as i32, ..s3 }.mac_to_ir(
            f.spec_lm(),
        ).mac_to_color_push()
    }

    /// One component of an interpolation towards the far color.
    pub open spec fn dpc_comp(self, idx: int, x: int, far: int, shift: int) -> (GteModel, int) {
        let a = far * 4096 - x;
        let s1 = self.check44(idx, a);
        let sub = wrap32(asr(wrap44(a), shift));
        let s2 = s1.check_ir(idx, sub, SaturationRange::Signed16);
        let sat = clamp(sub, -0x8000, 0x7FFF);
        let b = x + self.ir0 * sat;
        let s3 = s2.check44(idx, b);
        (s3, wrap32(asr(wrap44(b), shift)))
    }

    /// `[MAC1..3] = (X + IR0 * (FC - X)) >> shift`, then IR1..3 and a color push.
    pub open spec fn dpc(self, x: int, y: int, z: int, f: CommandFields) -> GteModel {
        let (s1, m1) = self.dpc_comp(1, x, self.fc.x as int, f.shift());
        let (s2, m2) = s1.dpc_comp(2, y, self.fc.y as int, f.shift());
        let (s3, m3) = s2.dpc_comp(3, z, self.fc.z as int, f.shift());
        GteModel { mac1: m1 as i32, mac2: m2 as i32, mac3: m3 as i32, ..s3 }.mac_to_ir(
            f.spec_lm(),
        ).mac_to_color_push()
    }

    /// DCPL: the color of RGBC shaded by IR1..3, interpolated towards the far color.
    pub open spec fn dcpl(self, f: CommandFields) -> GteModel {
        self.dpc(
            self.rgbc.r * self.ir1 * 16,
            self.rgbc.g * self.ir2 * 16,
            self.rgbc.b * self.ir3 * 16,
            f,
        )
    }

    /// DPCS: the color of RGBC interpolated towards the far color.
    pub open spec fn dpcs(self, f: CommandFields) -> GteModel {
        self.dpc(self.rgbc.r * 0x1_0000, self.rgbc.g * 0x1_0000, self.rgbc.b * 0x1_0000, f)
    }

    /// DPCT: DPCS applied three times to the oldest entry of the color FIFO.
    pub open spec fn dpct(self, f: CommandFields) -> GteModel {
        let s1 = self.dpc(self.colors[0].r * 0x1_0000, self.colors[0].g * 0x1_0000, self.colors[0].b * 0x1_0000, f);
        let s2 = s1.dpc(s1.colors[0].r * 0x1_0000, s1.colors[0].g * 0x1_0000, s1.colors[0].b * 0x1_0000, f);
        s2.dpc(s2.colors[0].r * 0x1_0000, s2.colors[0].g * 0x1_0000, s2.colors[0].b * 0x1_0000, f)
    }

    /// INTPL: IR1..3 interpolated towards the far color.
    pub open spec fn intpl(self, f: CommandFields) -> GteModel {
        self.dpc(self.ir1 * 4096, self.ir2 * 4096, self.ir3 * 4096, f)
    }

    /// CC: `[BK + LCM * IR]`, then the RGBC color shaded by IR1..3.
    pub open spec fn cc(self, f: CommandFields) -> GteModel {
        let s = self.mvmv_sel(f, Matrix::Color, Vector::IR, ControlVec::Background);
        s.acc3_push(s.rgbc.r * s.ir1 * 16, s.rgbc.g * s.ir2 * 16, s.rgbc.b * s.ir3 * 16, f)
    }

    /// Light source matrix times `vx` without translation.
    pub open spec fn light(self, f: CommandFields, vx: Vector) -> GteModel {
        self.mvmv_sel(f, Matrix::Light, vx, ControlVec::Zero)
    }

    /// Light color matrix times IR plus the background color.
    pub open spec fn color(self, f: CommandFields) -> GteModel {
        self.mvmv_sel(f, Matrix::Color, Vector::IR, ControlVec::Background)
    }

    /// NCDS for one vector.
    pub open spec fn ncd(self, f: CommandFields, vx: Vector) -> GteModel {
        self.light(f, vx).color(f).dcpl(f)
    }

    /// NCS for one vector.
    pub open spec fn nc(self, f: CommandFields, vx: Vector) -> GteModel {
        self.light(f, vx).color(f).mac_to_ir(f.spec_lm()).mac_to_color_push()
    }

    /// NCCS for one vector.
    pub open spec fn ncc(self, f: CommandFields, vx: Vector) -> GteModel {
        self.light(f, vx).cc(f)
    }

    /// SQR: the squares of IR1..3.
    pub open spec fn sqr(self, f: CommandFields) -> GteModel {
        GteModel {
            mac1: asr(self.ir1 * self.ir1, f.shift()) as i32,
            mac2: asr(self.ir2 * self.ir2, f.shift()) as i32,
            mac3: asr(self.ir3 * self.ir3, f.shift()) as i32,
            ..self
        }.mac_to_ir(f.spec_lm())
    }

    /// OP: cross product of the rotation matrix diagonal and IR1..3.
    pub open spec fn op(self, f: CommandFields) -> GteModel {
        let d1 = self.rtm[0] as int;
        let d2 = self.rtm[4] as int;
        let d3 = self.rtm[8] as int;
        GteModel {
            mac1: asr(d2 * self.ir3 - d3 * self.ir2, f.shift()) as i32,
            mac2: asr(d3 * self.ir1 - d1 * self.ir3, f.shift()) as i32,
            mac3: asr(d1 * self.ir2 - d2 * self.ir1, f.shift()) as i32,
            ..self
        }.mac_to_ir(f.spec_lm())
    }

    /// GPF: IR1..3 scaled by IR0.
    pub open spec fn gpf(self, f: CommandFields) -> GteModel {
        self.acc3_push(self.ir1 * self.ir0, self.ir2 * self.ir0, self.ir3 * self.ir0, f)
    }

    /// GPL: MAC1..3 plus IR1..3 scaled by IR0.
    pub open spec fn gpl(self, f: CommandFields) -> GteModel {
        let k = if f.spec_sf() { 4096int } else { 1int };
        self.acc3_push(
            self.mac1 * k + self.ir1 * self.ir0,
            self.mac2 * k + self.ir2 * self.ir0,
            self.mac3 * k + self.ir3 * self.ir0,
            f,
        )
    }

    /// NCLIP: twice the signed area of the screen triangle in the SXY FIFO.
    pub open spec fn nclip_sum(self) -> int {
        let (x0, y0) = (self.sxy[0].x as int, self.sxy[0].y as int);
        let (x1, y1) = (self.sxy[1].x as int, self.sxy[1].y as int);
        let (x2, y2) = (self.sxy[2].x as int, self.sxy[2].y as int);
        x0 * (y1 - y2) + x1 * (y2 - y0) + x2 * (y0 - y1)
    }

    pub open spec fn nclip(self) -> GteModel {
        GteModel { mac0: wrap32(self.nclip_sum()) as i32, ..self }.check_mac0(self.nclip_sum())
    }

    /// MAC0 and OTZ from a scaled average of screen Z values.
    pub open spec fn avsz(self, average: int) -> GteModel {
        GteModel {
            mac0: wrap32(average) as i32,
            otz: clamp(average / 4096, 0, 0xFFFF) as u16,
            ..self
        }.check_mac0(average).check_otz(average)
    }

    pub open spec fn avsz3(self) -> GteModel {
        self.avsz(self.zsf3 * (self.sz[1] + self.sz[2] + self.sz[3]))
    }

    pub open spec fn avsz4(self) -> GteModel {
        self.avsz(self.zsf4 * (self.sz[0] + self.sz[1] + self.sz[2] + self.sz[3]))
    }

    /// First half of a perspective transformation: `[MAC1..3] = (TR + RTM * V) >> sf`,
    /// IR1..3 from them (IR3 flagged by the unshifted Z), and that Z.
    pub open spec fn rtp_head(self, vec: Vector3<i16>, f: CommandFields) -> (GteModel, int) {
        let shift = f.shift();
        let lm = f.spec_lm();
        let (s1, a1) = self.mvmv_row(1, shift, self.rtm[0] as int, self.rtm[1] as int, self.rtm[2] as int, vec, self.tr.x as int, false);
        let (s2, a2) = s1.mvmv_row(2, shift, self.rtm[3] as int, self.rtm[4] as int, self.rtm[5] as int, vec, self.tr.y as int, false);
        let (s3, a3) = s2.mvmv_row(3, shift, self.rtm[6] as int, self.rtm[7] as int, self.rtm[8] as int, vec, self.tr.z as int, false);
        let s4 = s3.set_macs(a1, a2, a3, shift);
        let s5 = s4.check_ir(1, s4.mac1 as int, lm).check_ir(2, s4.mac2 as int, lm);
        let last_z = wrap32(a3 / 4096);
        let s6 = s5.flag_if(last_z > 0x7FFF || last_z < -0x8000, ir_sat_bit(3));
        (
            GteModel {
                ir1: clamp(s4.mac1 as int, range_min(lm), 0x7FFF) as i16,
                ir2: clamp(s4.mac2 as int, range_min(lm), 0x7FFF) as i16,
                ir3: clamp(s4.mac3 as int, range_min(lm), 0x7FFF) as i16,
                ..s6
            },
            last_z,
        )
    }

    /// Second half of a perspective transformation: SZ3 from the Z value,
    /// the projection factor, and the screen coordinates pushed onto SXY.
    pub open spec fn rtp_tail(self, last_z: int) -> (GteModel, int) {
        let s7 = self.flag_if(last_z < 0 || last_z > 0xFFFF, 18);
        let sz3 = clamp(last_z, 0, 0xFFFF);
        let divisible = sz3 > self.h / 2;
        let pf = if divisible { spec_divide(self.h as int, sz3) } else { 0x1FFFF };
        let s8 = GteModel { sz: s7.sz.drop_first().push(sz3 as u16), ..s7 }.flag_if(!divisible, 17);
        let sx = self.ir1 * pf + self.of.x;
        let sy = self.ir2 * pf + self.of.y;
        let s9 = s8.check_mac0(sx).check_mac0(sy);
        let sx2 = wrap32(sx / 0x1_0000);
        let sy2 = wrap32(sy / 0x1_0000);
        let s10 = s9.check_screen(0, sx2).check_screen(1, sy2);
        let screen = Vector2 { x: clamp(sx2, -0x400, 0x3FF) as i16, y: clamp(sy2, -0x400, 0x3FF) as i16 };
        (GteModel { sxy: s10.sxy.drop_first().push(screen), ..s10 }, pf)
    }

    /// Perspective transformation of one vector: the state after it and the
    /// projection factor.
    pub open spec fn rtp(self, vec: Vector3<i16>, f: CommandFields) -> (GteModel, int) {
        let (s, last_z) = self.rtp_head(vec, f);
        s.rtp_tail(last_z)
    }

    /// Depth cueing: MAC0 and IR0 from the projection factor.
    pub open spec fn depth_queuing(self, pf: int) -> GteModel {
        let res = self.dqb + self.dqa * pf;
        let q = res / 4096;
        GteModel {
            mac0: wrap32(res) as i32,
            ir0: clamp(q, 0, 0x1000) as i16,
            ..self.check_mac0(res)
        }.flag_if(q < 0 || q > 0x1000, 12)
    }

    pub open spec fn rtps(self, f: CommandFields) -> GteModel {
        let (s, pf) = self.rtp(self.v0, f);
        s.depth_queuing(pf)
    }

    pub open spec fn rtpt(self, f: CommandFields) -> GteModel {
        let (s1, _pf0) = self.rtp(self.v0, f);
        let (s2, _pf1) = s1.rtp(s1.v1, f);
        let (s3, pf) = s2.rtp(s2.v2, f);
        s3.depth_queuing(pf)
    }
}

impl GTEngine {
    /// One row of a matrix-vector product with translation.
    fn mvmv_row(
        &mut self,
        idx: usize,
        fields: CommandFields,
        m0: i16,
        m1: i16,
        m2: i16,
        v: Vector3<i16>,
        t: i32,
        far: bool,
    ) -> (r: i64)
        requires
            1 <= idx <= 3,
        ensures
            final(self)@ == old(self)@.mvmv_row(idx as int, fields.shift(), m0 as int, m1 as int, m2 as int, v, t as int, far).0,
            r == old(self)@.mvmv_row(idx as int, fields.shift(), m0 as int, m1 as int, m2 as int, v, t as int, far).1,
            in44(r as int),
    {
        proof {
            lemma_shift_facts();
            lemma_i16_product(m0 as int, v.x as int);
            lemma_i16_product(m1 as int, v.y as int);
            lemma_i16_product(m2 as int, v.z as int);
        }
        let a = ((t as i64) << 12u64) + (m0 as i64) * (v.x as i64);
        let w = self.i64_to_i44(idx, a);
        let w = if far {
            let shifted = shift_sf(w, fields.sf());
            self.i32_to_i16(idx, shifted as i32, SaturationRange::Signed16);
            0i64
        } else {
            w
        };
        let b = w + (m1 as i64) * (v.y as i64);
        let w = self.i64_to_i44(idx, b);
        let c = w + (m2 as i64) * (v.z as i64);
        self.i64_to_i44(idx, c)
    }

    /// Loads MAC1..3 from three accumulators shifted as `fields` selects.
    fn set_macs(&mut self, a1: i64, a2: i64, a3: i64, fields: CommandFields)
        ensures
            final(self)@ == old(self)@.set_macs(a1 as int, a2 as int, a3 as int, fields.shift()),
    {
        proof { lemma_shift_facts(); }
        self.mac1 = shift_sf(a1, fields.sf()) as i32;
        self.mac2 = shift_sf(a2, fields.sf()) as i32;
        self.mac3 = shift_sf(a3, fields.sf()) as i32;
    }

    /// `[MAC1..3] = (T + M * V) >> sf`, then IR1..3 from MAC1..3.
    pub fn multiply_matrix_by_vector(&mut self, fields: CommandFields, mx: Matrix, vx: Vector, cv: ControlVec)
        ensures
            final(self)@ == old(self)@.mvmv_sel(fields, mx, vx, cv),
    {
        let m: [i16; 9] = match mx {
            Matrix::Rotation => self.rtm.elems,
            Matrix::Light => self.llm.elems,
            Matrix::Color => self.lcm.elems,
            Matrix::Reserved => {
                let r13 = self.rtm.elems[2];
                let r22 = self.rtm.elems[4];
                let red = self.rgbc.r as i16;
                [-red * 16, red * 16, self.ir0, r13, r13, r13, r22, r22, r22]
            },
        };
        let v = match vx {
            Vector::V0 => self.v0,
            Vector::V1 => self.v1,
            Vector::V2 => self.v2,
            Vector::IR => Vector3 { x: self.ir1, y: self.ir2, z: self.ir3 },
        };
        let t = match cv {
            ControlVec::Translation => self.tr,
            ControlVec::Background => self.bk,
            ControlVec::FarColor => self.fc,
            ControlVec::Zero => Vector3 { x: 0, y: 0, z: 0 },
        };
        let far = match cv {
            ControlVec::FarColor => true,
            _ => false,
        };
        assert(m@ == old(self)@.matrix_of(mx));
        let a1 = self.mvmv_row(1, fields, m[0], m[1], m[2], v, t.x, far);
        let a2 = self.mvmv_row(2, fields, m[3], m[4], m[5], v, t.y, far);
        let a3 = self.mvmv_row(3, fields, m[6], m[7], m[8], v, t.z, far);
        self.set_macs(a1, a2, a3, fields);
        self.mac_to_ir(fields);
    }
}


impl GTEngine {
    /// One component of an interpolation towards the far color.
    fn dpc_comp(&mut self, idx: usize, x: i64, far: i32, fields: CommandFields) -> (r: i32)
        requires
            1 <= idx <= 3,
            -0x8000_0000 <= x <= 0x8000_0000,
        ensures
            final(self)@ == old(self)@.dpc_comp(idx as int, x as int, far as int, fields.shift()).0,
            r == old(self)@.dpc_comp(idx as int, x as int, far as int, fields.shift()).1,
    {
        proof { lemma_shift_facts(); }
        let a = ((far as i64) << 12u64) - x;
        let w = self.i64_to_i44(idx, a);
        let sub = shift_sf(w, fields.sf()) as i32;
        let sat = self.i32_to_i16(idx, sub, SaturationRange::Signed16);
        proof { lemma_i16_product(self.ir0 as int, sat as int); }
        let b = x + (self.ir0 as i64) * (sat as i64);
        let w = self.i64_to_i44(idx, b);
        shift_sf(w, fields.sf()) as i32
    }

    /// `[MAC1..3] = (X + IR0 * (FC - X)) >> sf`, then IR1..3 and a color push.
    fn dpc_xyz(&mut self, x: i64, y: i64, z: i64, fields: CommandFields)
        requires
            -0x8000_0000 <= x <= 0x8000_0000,
            -0x8000_0000 <= y <= 0x8000_0000,
            -0x8000_0000 <= z <= 0x8000_0000,
        ensures
            final(self)@ == old(self)@.dpc(x as int, y as int, z as int, fields),
    {
        let fc = self.fc;
        let m1 = self.dpc_comp(1, x, fc.x, fields);
        let m2 = self.dpc_comp(2, y, fc.y, fields);
        let m3 = self.dpc_comp(3, z, fc.z, fields);
        self.mac1 = m1;
        self.mac2 = m2;
        self.mac3 = m3;
        self.mac_to_ir(fields);
        self.mac_to_color_push();
    }

    /// Interpolation of `vec << shift` towards the far color.
    pub fn do_dpc(&mut self, vec: [i64; 3], shift: u8, fields: CommandFields)
        requires
            shift == 12 || shift == 16,
            -0x8000 <= vec[0] <= 0x7FFF,
            -0x8000 <= vec[1] <= 0x7FFF,
            -0x8000 <= vec[2] <= 0x7FFF,
        ensures
            final(self)@ == old(self)@.dpc(
                vec[0] * (if shift == 16 { 0x1_0000int } else { 4096int }),
                vec[1] * (if shift == 16 { 0x1_0000int } else { 4096int }),
                vec[2] * (if shift == 16 { 0x1_0000int } else { 4096int }),
                fields,
            ),
    {
        let k: i64 = if shift == 16 { 0x1_0000 } else { 4096 };
        let x = vec[0] * k;
        let y = vec[1] * k;
        let z = vec[2] * k;
        self.dpc_xyz(x, y, z, fields);
    }

    /// The RGBC color shaded by IR1..3, scaled by 16: the products that
    /// DCPL and CC start from.
    fn shaded(&self) -> (r: (i64, i64, i64))
        ensures
            r.0 == self.rgbc.r * self.ir1 * 16,
            r.1 == self.rgbc.g * self.ir2 * 16,
            r.2 == self.rgbc.b * self.ir3 * 16,
            -0x800_0000 <= r.0 <= 0x800_0000,
            -0x800_0000 <= r.1 <= 0x800_0000,
            -0x800_0000 <= r.2 <= 0x800_0000,
    {
        proof {
            lemma_shift_facts();
            lemma_u8_i16_product(self.rgbc.r as int, self.ir1 as int);
            lemma_u8_i16_product(self.rgbc.g as int, self.ir2 as int);
            lemma_u8_i16_product(self.rgbc.b as int, self.ir3 as int);
        }
        let s1 = ((self.rgbc.r as i64) * (self.ir1 as i64)) << 4u64;
        let s2 = ((self.rgbc.g as i64) * (self.ir2 as i64)) << 4u64;
        let s3 = ((self.rgbc.b as i64) * (self.ir3 as i64)) << 4u64;
        (s1, s2, s3)
    }

    /// One accumulator checked against 44 bits and shifted into a MAC value.
    fn acc(&mut self, idx: usize, a: i64, fields: CommandFields) -> (r: i32)
        requires
            1 <= idx <= 3,
        ensures
            final(self)@ == old(self)@.acc(idx as int, a as int, fields.shift()).0,
            r == old(self)@.acc(idx as int, a as int, fields.shift()).1,
    {
        proof { lemma_shift_facts(); }
        let w = self.i64_to_i44(idx, a);
        shift_sf(w, fields.sf()) as i32
    }

    /// MAC1..3 from three accumulators, then IR1..3 and a color push.
    fn acc3_push(&mut self, a1: i64, a2: i64, a3: i64, fields: CommandFields)
        ensures
            final(self)@ == old(self)@.acc3_push(a1 as int, a2 as int, a3 as int, fields),
    {
        let m1 = self.acc(1, a1, fields);
        let m2 = self.acc(2, a2, fields);
        let m3 = self.acc(3, a3, fields);
        self.mac1 = m1;
        self.mac2 = m2;
        self.mac3 = m3;
        self.mac_to_ir(fields);
        self.mac_to_color_push();
    }

    /// Perspective transformation (single)
    pub fn rtps(&mut self, fields: CommandFields)
        ensures
            final(self)@ == old(self)@.rtps(fields),
    {
        let projection_factor = self.do_rtp(fields, Vector::V0);
        self.depth_queuing(projection_factor);
    }

    /// Normal clipping
    pub fn nclip(&mut self)
        ensures
            final(self)@ == old(self)@.nclip(),
    {
        let p0 = self.sxy.fifo[0];
        let p1 = self.sxy.fifo[1];
        let p2 = self.sxy.fifo[2];
        let (x0, y0) = (p0.x as i64, p0.y as i64);
        let (x1, y1) = (p1.x as i64, p1.y as i64);
        let (x2, y2) = (p2.x as i64, p2.y as i64);
        proof {
            lemma_nclip_bounds(x0 as int, y1 - y2, 1);
            lemma_nclip_bounds(x1 as int, y2 - y0, 1);
            lemma_nclip_bounds(x2 as int, y0 - y1, 1);
        }
        let a = x0 * (y1 - y2);
        let b = x1 * (y2 - y0);
        let c = x2 * (y0 - y1);
        let sum = a + b + c;
        proof { lemma_shift_facts(); }
        self.mac0 = sum as i32;
        self.mac0_overflow_check(sum);
    }

    /// Cross product of two vectors
    pub fn op(&mut self, fields: CommandFields)
        ensures
            final(self)@ == old(self)@.op(fields),
    {
        let ir1 = self.ir1 as i32;
        let ir2 = self.ir2 as i32;
        let ir3 = self.ir3 as i32;
        let d1 = self.rtm.elems[0] as i32;
        let d2 = self.rtm.elems[4] as i32;
        let d3 = self.rtm.elems[8] as i32;
        proof {
            lemma_i16_product(d2 as int, ir3 as int);
            lemma_i16_product(d3 as int, ir2 as int);
            lemma_i16_product(d3 as int, ir1 as int);
            lemma_i16_product(d1 as int, ir3 as int);
            lemma_i16_product(d1 as int, ir2 as int);
            lemma_i16_product(d2 as int, ir1 as int);
            lemma_shift_facts();
        }
        let sf = fields.sf();
        self.mac1 = shift32(d2 * ir3 - d3 * ir2, sf);
        self.mac2 = shift32(d3 * ir1 - d1 * ir3, sf);
        self.mac3 = shift32(d1 * ir2 - d2 * ir1, sf);
        self.mac_to_ir(fields);
    }

    /// Depth cueing (single)
    pub fn dpcs(&mut self, fields: CommandFields)
        ensures
            final(self)@ == old(self)@.dpcs(fields),
    {
        let c = self.rgbc;
        self.dpc_xyz((c.r as i64) * 0x1_0000, (c.g as i64) * 0x1_0000, (c.b as i64) * 0x1_0000, fields);
    }

    /// Interpolation of a vector and far color
    pub fn intpl(&mut self, fields: CommandFields)
        ensures
            final(self)@ == old(self)@.intpl(fields),
    {
        let (x, y, z) = (self.ir1 as i64, self.ir2 as i64, self.ir3 as i64);
        self.dpc_xyz(x * 4096, y * 4096, z * 4096, fields);
    }

    /// Multiply vector by matrix and vector addition
    pub fn mvmva(&mut self, fields: CommandFields)
        ensures
            final(self)@ == old(self)@.mvmv_sel(fields, fields.spec_mx(), fields.spec_vx(), fields.spec_cv()),
    {
        let mx = fields.mx();
        let vx = fields.vx();
        let cv = fields.cv();
        self.multiply_matrix_by_vector(fields, mx, vx, cv);
    }

    /// Normal color depth cue single vector
    pub fn ncds(&mut self, fields: CommandFields)
        ensures
            final(self)@ == old(self)@.ncd(fields, Vector::V0),
    {
        self.multiply_matrix_by_vector(fields, Matrix::Light, Vector::V0, ControlVec::Zero);
        self.multiply_matrix_by_vector(fields, Matrix::Color, Vector::IR, ControlVec::Background);
        self.dcpl(fields);
    }

    /// Color depth cue
    pub fn cdp(&mut self, fields: CommandFields)
        ensures
            final(self)@ == old(self)@.color(fields).dcpl(fields),
    {
        self.multiply_matrix_by_vector(fields, Matrix::Color, Vector::IR, ControlVec::Background);
        self.dcpl(fields);
    }

    /// Normal color depth cue triple vectors
    pub fn ncdt(&mut self, fields: CommandFields)
        ensures
            final(self)@ == old(self)@.ncd(fields, Vector::V0).ncd(fields, Vector::V1).ncd(fields, Vector::V2),
    {
        self.ncds(fields);
        self.multiply_matrix_by_vector(fields, Matrix::Light, Vector::V1, ControlVec::Zero);
        self.multiply_matrix_by_vector(fields, Matrix::Color, Vector::IR, ControlVec::Background);
        self.dcpl(fields);
        self.multiply_matrix_by_vector(fields, Matrix::Light, Vector::V2, ControlVec::Zero);
        self.multiply_matrix_by_vector(fields, Matrix::Color, Vector::IR, ControlVec::Background);
        self.dcpl(fields);
    }

    /// Normal color color single vector
    pub fn nccs(&mut self, fields: CommandFields)
        ensures
            final(self)@ == old(self)@.ncc(fields, Vector::V0),
    {
        self.multiply_matrix_by_vector(fields, Matrix::Light, Vector::V0, ControlVec::Zero);
        self.cc(fields);
    }

    /// Color color
    pub fn cc(&mut self, fields: CommandFields)
        ensures
            final(self)@ == old(self)@.cc(fields),
    {
        self.multiply_matrix_by_vector(fields, Matrix::Color, Vector::IR, ControlVec::Background);
        let (s1, s2, s3) = self.shaded();
        self.acc3_push(s1, s2, s3, fields);
    }

    /// Normal color single
    pub fn ncs(&mut self, fields: CommandFields)
        ensures
            final(self)@ == old(self)@.nc(fields, Vector::V0),
    {
        self.multiply_matrix_by_vector(fields, Matrix::Light, Vector::V0, ControlVec::Zero);
        self.multiply_matrix_by_vector(fields, Matrix::Color, Vector::IR, ControlVec::Background);
        self.mac_to_ir(fields);
        self.mac_to_color_push();
    }

    /// Normal color triple
    pub fn nct(&mut self, fields: CommandFields)
        ensures
            final(self)@ == old(self)@.nc(fields, Vector::V0).nc(fields, Vector::V1).nc(fields, Vector::V2),
    {
        self.ncs(fields);
        self.multiply_matrix_by_vector(fields, Matrix::Light, Vector::V1, ControlVec::Zero);
        self.multiply_matrix_by_vector(fields, Matrix::Color, Vector::IR, ControlVec::Background);
        self.mac_to_ir(fields);
        self.mac_to_color_push();
        self.multiply_matrix_by_vector(fields, Matrix::Light, Vector::V2, ControlVec::Zero);
        self.multiply_matrix_by_vector(fields, Matrix::Color, Vector::IR, ControlVec::Background);
        self.mac_to_ir(fields);
        self.mac_to_color_push();
    }

    /// Square vector
    pub fn sqr(&mut self, fields: CommandFields)
        ensures
            final(self)@ == old(self)@.sqr(fields),
    {
        let ir1 = self.ir1 as i32;
        let ir2 = self.ir2 as i32;
        let ir3 = self.ir3 as i32;
        proof {
            lemma_i16_product(ir1 as int, ir1 as int);
            lemma_i16_product(ir2 as int, ir2 as int);
            lemma_i16_product(ir3 as int, ir3 as int);
        }
        let sf = fields.sf();
        self.mac1 = shift32(ir1 * ir1, sf);
        self.mac2 = shift32(ir2 * ir2, sf);
        self.mac3 = shift32(ir3 * ir3, sf);
        self.mac_to_ir(fields);
    }

    /// Depth cue color light
    pub fn dcpl(&mut self, fields: CommandFields)
        ensures
            final(self)@ == old(self)@.dcpl(fields),
    {
        let (s1, s2, s3) = self.shaded();
        self.dpc_xyz(s1, s2, s3, fields);
    }

    /// Depth cueing (triple)
    pub fn dpct(&mut self, fields: CommandFields)
        ensures
            final(self)@ == old(self)@.dpct(fields),
    {
        let c = self.colors.fifo[0];
        self.dpc_xyz((c.r as i64) * 0x1_0000, (c.g as i64) * 0x1_0000, (c.b as i64) * 0x1_0000, fields);
        let c = self.colors.fifo[0];
        self.dpc_xyz((c.r as i64) * 0x1_0000, (c.g as i64) * 0x1_0000, (c.b as i64) * 0x1_0000, fields);
        let c = self.colors.fifo[0];
        self.dpc_xyz((c.r as i64) * 0x1_0000, (c.g as i64) * 0x1_0000, (c.b as i64) * 0x1_0000, fields);
    }

    /// Average of three Z values (for triangles)
    pub fn avsz3(&mut self)
        ensures
            final(self)@ == old(self)@.avsz3(),
    {
        let z1 = self.sz.fifo[1] as u32;
        let z2 = self.sz.fifo[2] as u32;
        let z3 = self.sz.fifo[3] as u32;
        let sum = z1 + z2 + z3;
        proof { lemma_avsz_bounds(self.zsf3 as int, sum as int); }
        let average = (self.zsf3 as i64) * (sum as i64);
        self.store_average(average);
    }

    /// Average of four Z values (for quads)
    pub fn avsz4(&mut self)
        ensures
            final(self)@ == old(self)@.avsz4(),
    {
        let z0 = self.sz.fifo[0] as u32;
        let z1 = self.sz.fifo[1] as u32;
        let z2 = self.sz.fifo[2] as u32;
        let z3 = self.sz.fifo[3] as u32;
        let sum = z0 + z1 + z2 + z3;
        proof { lemma_avsz_bounds(self.zsf4 as int, sum as int); }
        let average = (self.zsf4 as i64) * (sum as i64);
        self.store_average(average);
    }

    /// MAC0 and OTZ from a scaled Z average.
    fn store_average(&mut self, average: i64)
        ensures
            final(self)@ == old(self)@.avsz(average as int),
    {
        proof { lemma_shift_facts(); }
        self.mac0 = average as i32;
        self.mac0_overflow_check(average);
        self.otz = self.i64_to_otz(average);
    }

    /// Perspective transformation (triple)
    pub fn rtpt(&mut self, fields: CommandFields)
        ensures
            final(self)@ == old(self)@.rtpt(fields),
    {
        self.do_rtp(fields, Vector::V0);
        self.do_rtp(fields, Vector::V1);
        // Depth queuing uses the last vector's projection factor
        let projection_factor = self.do_rtp(fields, Vector::V2);
        self.depth_queuing(projection_factor);
    }

    /// General purpose interpolation
    pub fn gpf(&mut self, fields: CommandFields)
        ensures
            final(self)@ == old(self)@.gpf(fields),
    {
        let ir0 = self.ir0 as i64;
        proof {
            lemma_i16_product(self.ir1 as int, ir0 as int);
            lemma_i16_product(self.ir2 as int, ir0 as int);
            lemma_i16_product(self.ir3 as int, ir0 as int);
        }
        let p1 = (self.ir1 as i64) * ir0;
        let p2 = (self.ir2 as i64) * ir0;
        let p3 = (self.ir3 as i64) * ir0;
        self.acc3_push(p1, p2, p3, fields);
    }

    /// General purpose interpolation with base
    pub fn gpl(&mut self, fields: CommandFields)
        ensures
            final(self)@ == old(self)@.gpl(fields),
    {
        proof { lemma_shift_facts(); }
        let ir0 = self.ir0 as i64;
        proof {
            lemma_i16_product(self.ir1 as int, ir0 as int);
            lemma_i16_product(self.ir2 as int, ir0 as int);
            lemma_i16_product(self.ir3 as int, ir0 as int);
        }
        let sf = fields.sf();
        let (m1, m2, m3) = if sf {
            ((self.mac1 as i64) << 12u64, (self.mac2 as i64) << 12u64, (self.mac3 as i64) << 12u64)
        } else {
            (self.mac1 as i64, self.mac2 as i64, self.mac3 as i64)
        };
        let p1 = (self.ir1 as i64) * ir0;
        let p2 = (self.ir2 as i64) * ir0;
        let p3 = (self.ir3 as i64) * ir0;
        self.acc3_push(m1 + p1, m2 + p2, m3 + p3, fields);
    }

    /// Normal color color (triple vector)
    pub fn ncct(&mut self, fields: CommandFields)
        ensures
            final(self)@ == old(self)@.ncc(fields, Vector::V0).ncc(fields, Vector::V1).ncc(fields, Vector::V2),
    {
        self.nccs(fields);
        self.multiply_matrix_by_vector(fields, Matrix::Light, Vector::V1, ControlVec::Zero);
        self.cc(fields);
        self.multiply_matrix_by_vector(fields, Matrix::Light, Vector::V2, ControlVec::Zero);
        self.cc(fields);
    }
}


impl GTEngine {
    /// Perspective transformation of the vector that `vx` names; returns the
    /// projection factor.
    pub fn do_rtp(&mut self, fields: CommandFields, vx: Vector) -> (r: u32)
        requires
            vx != Vector::IR,
        ensures
            final(self)@ == old(self)@.rtp(old(self)@.vector_of(vx), fields).0,
            r == old(self)@.rtp(old(self)@.vector_of(vx), fields).1,
            r <= 0x1FFFF,
    {
        let vec = match vx {
            Vector::V0 => self.v0,
            Vector::V1 => self.v1,
            _ => self.v2,
        };
        let last_z = self.rtp_head(fields, vec);
        self.rtp_tail(last_z)
    }

    fn rtp_head(&mut self, fields: CommandFields, vec: Vector3<i16>) -> (r: i32)
        ensures
            final(self)@ == old(self)@.rtp_head(vec, fields).0,
            r == old(self)@.rtp_head(vec, fields).1,
    {
        proof { lemma_shift_facts(); }
        let m = self.rtm.elems;
        let tr = self.tr;
        let a1 = self.mvmv_row(1, fields, m[0], m[1], m[2], vec, tr.x, false);
        let a2 = self.mvmv_row(2, fields, m[3], m[4], m[5], vec, tr.y, false);
        let a3 = self.mvmv_row(3, fields, m[6], m[7], m[8], vec, tr.z, false);
        self.set_macs(a1, a2, a3, fields);

        // IR3 is saturated without its flag; the flag follows the unshifted Z
        let lm = fields.lm();
        let mac1 = self.mac1;
        let mac2 = self.mac2;
        self.ir1 = self.i32_to_i16(1, mac1, lm);
        self.ir2 = self.i32_to_i16(2, mac2, lm);

        let last_z = (a3 >> 12u64) as i32;
        if last_z > 0x7FFF || last_z < -0x8000 {
            self.flag.set_bit(22);
        }
        let min: i32 = match lm {
            SaturationRange::Signed16 => -0x8000,
            SaturationRange::Unsigned15 => 0,
        };
        let val = self.mac3;
        self.ir3 = if val < min {
            min as i16
        } else if val > 0x7FFF {
            0x7FFFi16
        } else {
            val as i16
        };
        last_z
    }

    fn rtp_tail(&mut self, last_z: i32) -> (r: u32)
        ensures
            final(self)@ == old(self)@.rtp_tail(last_z as int).0,
            r == old(self)@.rtp_tail(last_z as int).1,
            r <= 0x1FFFF,
    {
        proof { lemma_shift_facts(); }
        let h = self.h;
        let ofs = self.of;
        let sz3: u16 = if last_z < 0 {
            self.flag.set_bit(18);
            0
        } else if last_z > 0xFFFF {
            self.flag.set_bit(18);
            0xFFFF
        } else {
            last_z as u16
        };
        self.sz.push(sz3);

        let projection_factor = if sz3 > h / 2 {
            divide(h, sz3)
        } else {
            self.flag.set_bit(17);
            0x1FFFF
        };

        let factor = projection_factor as i64;
        let (x, y) = (self.ir1 as i64, self.ir2 as i64);
        proof {
            lemma_factor_product(x as int, factor as int);
            lemma_factor_product(y as int, factor as int);
        }
        let screen_x = x * factor + ofs.x as i64;
        let screen_y = y * factor + ofs.y as i64;
        self.mac0_overflow_check(screen_x);
        self.mac0_overflow_check(screen_y);

        let sx2 = self.i32_to_i11(0, (screen_x >> 16u64) as i32);
        let sy2 = self.i32_to_i11(1, (screen_y >> 16u64) as i32);
        self.sxy.push(Vector2 { x: sx2, y: sy2 });
        projection_factor
    }

    /// Depth cueing: MAC0 and IR0 from the projection factor.
    pub fn depth_queuing(&mut self, projection_factor: u32)
        requires
            projection_factor <= 0x1FFFF,
        ensures
            final(self)@ == old(self)@.depth_queuing(projection_factor as int),
    {
        proof {
            lemma_shift_facts();
            lemma_factor_product(self.dqa as int, projection_factor as int);
        }
        let (dqa, dqb) = (self.dqa as i64, self.dqb as i64);
        let factor = projection_factor as i64;
        let res = dqb + dqa * factor;
        self.mac0_overflow_check(res);
        self.mac0 = res as i32;
        let res = res >> 12u64;
        self.ir0 = if res < 0 {
            self.flag.set_bit(12);
            0
        } else if res > 0x1000 {
            self.flag.set_bit(12);
            0x1000
        } else {
            res as i16
        };
    }
}

proof fn lemma_factor_product(x: int, f: int)
    requires
        -0x8000 <= x <= 0x7FFF,
        0 <= f <= 0x1FFFF,
    ensures
        -0x1_0000_0000 <= x * f <= 0x1_0000_0000,
{
    assert(-0x1_0000_0000 <= x * f <= 0x1_0000_0000) by (nonlinear_arith)
        requires
            -0x8000 <= x <= 0x7FFF,
            0 <= f <= 0x1FFFF,
    ;
}

/// `v` shifted right by 12 when `sf` is set.
pub fn shift32(v: i32, sf: bool) -> (r: i32)
    ensures
        r == asr(v as int, if sf { 12 } else { 0 }),
{
    proof { lemma_shift_facts(); }
    if sf {
        v >> 12u32
    } else {
        v
    }
}

proof fn lemma_nclip_bounds(x: int, d: int, k: int)
    requires
        -0x8000 <= x <= 0x7FFF,
        -0x1_0000 <= d <= 0x1_0000,
        k == 1,
    ensures
        -0x8000_0000 <= x * d <= 0x8000_0000,
{
    assert(-0x8000_0000 <= x * d <= 0x8000_0000) by (nonlinear_arith)
        requires
            -0x8000 <= x <= 0x7FFF,
            -0x1_0000 <= d <= 0x1_0000,
    ;
}

proof fn lemma_avsz_bounds(zsf: int, sum: int)
    requires
        -0x8000 <= zsf <= 0x7FFF,
        0 <= sum <= 0x4_0000,
    ensures
        -0x2_0000_0000 <= zsf * sum <= 0x2_0000_0000,
{
    assert(-0x2_0000_0000 <= zsf * sum <= 0x2_0000_0000) by (nonlinear_arith)
        requires
            -0x8000 <= zsf <= 0x7FFF,
            0 <= sum <= 0x4_0000,
    ;
}

/// `v` shifted right by 12 when `sf` is set.
pub fn shift_sf(v: i64, sf: bool) -> (r: i64)
    ensures
        r == asr(v as int, if sf { 12 } else { 0 }),
{
    proof { lemma_shift_facts(); }
    if sf {
        v >> 12u64
    } else {
        v
    }
}

} // verus!
