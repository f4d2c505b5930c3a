//! The register file of the geometry transformation engine and command dispatch.
use vstd::prelude::*;
use vstd::std_specs::bits::u32_leading_zeros;

use crate::gte::math::{
    clamp, lemma_pack_facts, lower_half, pack_halves, upper_half, Vector2, Vector3,
};
use crate::gte::{rgbc_of, CommandFields, GTEngine, GteModel, Rgbc};

verus! {

/// Whether `op` is one of the implemented command opcodes.
pub open spec fn is_command(op: u32) -> bool {
    op == 0x01 || op == 0x06 || op == 0x0C || op == 0x10 || op == 0x11 || op == 0x12 || op == 0x13
        || op == 0x14 || op == 0x16 || op == 0x1B || op == 0x1C || op == 0x1E || op == 0x20 || op
        == 0x28 || op == 0x29 || op == 0x2A || op == 0x2D || op == 0x2E || op == 0x30 || op == 0x3D
        || op == 0x3E || op == 0x3F
}

/// A 5-bit color component of IRGB/ORGB as an interpolation value.
pub open spec fn irgb_component(v: u32, shift: int) -> i16 {
    (((v as int / pow2_of(shift)) % 32) * 0x80) as i16
}

pub open spec fn pow2_of(shift: int) -> int {
    if shift == 0 {
        1
    } else if shift == 5 {
        32
    } else {
        1024
    }
}

/// IR value converted to a 5-bit color component.
pub open spec fn orgb_component(ir: i16) -> int {
    clamp(ir as int / 0x80, 0, 0x1F)
}

/// Number of leading bits of `v` equal to its sign bit.
pub open spec fn leading_sign_bits(v: i32) -> u32 {
    if v < 0 {
        u32_leading_zeros(!(v as u32))
    } else {
        u32_leading_zeros(v as u32)
    }
}

impl GteModel {
    /// ORGB: IR1..3 as 5-bit color components.
    pub open spec fn orgb(self) -> u32 {
        (orgb_component(self.ir1) + orgb_component(self.ir2) * 32 + orgb_component(self.ir3) * 1024) as u32
    }

    /// The value that reading register `r` gives.
    pub open spec fn read_reg(self, r: int) -> u32 {
        if r == 0 {
            pack_halves(self.v0.y, self.v0.x)
        } else if r == 1 {
            self.v0.z as u32
        } else if r == 2 {
            pack_halves(self.v1.y, self.v1.x)
        } else if r == 3 {
            self.v1.z as u32
        } else if r == 4 {
            pack_halves(self.v2.y, self.v2.x)
        } else if r == 5 {
            self.v2.z as u32
        } else if r == 6 {
            self.rgbc.word()
        } else if r == 7 {
            self.otz as u32
        } else if r == 8 {
            self.ir0 as u32
        } else if r == 9 {
            self.ir1 as u32
        } else if r == 10 {
            self.ir2 as u32
        } else if r == 11 {
            self.ir3 as u32
        } else if 12 <= r <= 14 {
            pack_halves(self.sxy[r - 12].y, self.sxy[r - 12].x)
        } else if r == 15 {
            pack_halves(self.sxy[2].y, self.sxy[2].x)
        } else if 16 <= r <= 19 {
            self.sz[r - 16] as u32
        } else if 20 <= r <= 22 {
            self.colors[r - 20].word()
        } else if r == 23 {
            self.res1
        } else if r == 24 {
            self.mac0 as u32
        } else if r == 25 {
            self.mac1 as u32
        } else if r == 26 {
            self.mac2 as u32
        } else if r == 27 {
            self.mac3 as u32
        } else if r == 28 || r == 29 {
            self.orgb()
        } else if r == 30 {
            self.lzcs as u32
        } else if r == 31 {
            leading_sign_bits(self.lzcs)
        } else if 32 <= r <= 36 {
            matrix_word(self.rtm, r - 32)
        } else if 37 <= r <= 39 {
            vec3_component(self.tr, r - 37) as u32
        } else if 40 <= r <= 44 {
            matrix_word(self.llm, r - 40)
        } else if 45 <= r <= 47 {
            vec3_component(self.bk, r - 45) as u32
        } else if 48 <= r <= 52 {
            matrix_word(self.lcm, r - 48)
        } else if 53 <= r <= 55 {
            vec3_component(self.fc, r - 53) as u32
        } else if r == 56 {
            self.of.x as u32
        } else if r == 57 {
            self.of.y as u32
        } else if r == 58 {
            self.h as i16 as u32
        } else if r == 59 {
            self.dqa as u32
        } else if r == 60 {
            self.dqb as u32
        } else if r == 61 {
            self.zsf3 as u32
        } else if r == 62 {
            self.zsf4 as u32
        } else {
            if self.flag & 0x7F87_E000 != 0 {
                self.flag | 0x8000_0000
            } else {
                self.flag
            }
        }
    }

    /// The state after writing `d` to register `r`.
    pub open spec fn write_reg(self, r: int, d: u32) -> GteModel {
        if r == 0 {
            GteModel { v0: Vector3 { x: lower_half(d), y: upper_half(d), z: self.v0.z }, ..self }
        } else if r == 1 {
            GteModel { v0: Vector3 { z: d as i16, ..self.v0 }, ..self }
        } else if r == 2 {
            GteModel { v1: Vector3 { x: lower_half(d), y: upper_half(d), z: self.v1.z }, ..self }
        } else if r == 3 {
            GteModel { v1: Vector3 { z: d as i16, ..self.v1 }, ..self }
        } else if r == 4 {
            GteModel { v2: Vector3 { x: lower_half(d), y: upper_half(d), z: self.v2.z }, ..self }
        } else if r == 5 {
            GteModel { v2: Vector3 { z: d as i16, ..self.v2 }, ..self }
        } else if r == 6 {
            GteModel { rgbc: rgbc_of(d), ..self }
        } else if r == 7 {
            GteModel { otz: d as u16, ..self }
        } else if r == 8 {
            GteModel { ir0: d as i16, ..self }
        } else if r == 9 {
            GteModel { ir1: d as i16, ..self }
        } else if r == 10 {
            GteModel { ir2: d as i16, ..self }
        } else if r == 11 {
            GteModel { ir3: d as i16, ..self }
        } else if 12 <= r <= 14 {
            GteModel { sxy: self.sxy.update(r - 12, Vector2 { x: lower_half(d), y: upper_half(d) }), ..self }
        } else if r == 15 {
            GteModel { sxy: self.sxy.drop_first().push(Vector2 { x: lower_half(d), y: upper_half(d) }), ..self }
        } else if 16 <= r <= 19 {
            GteModel { sz: self.sz.update(r - 16, d as u16), ..self }
        } else if 20 <= r <= 22 {
            GteModel { colors: self.colors.update(r - 20, rgbc_of(d)), ..self }
        } else if r == 23 {
            GteModel { res1: d, ..self }
        } else if r == 24 {
            GteModel { mac0: d as i32, ..self }
        } else if r == 25 {
            GteModel { mac1: d as i32, ..self }
        } else if r == 26 {
            GteModel { mac2: d as i32, ..self }
        } else if r == 27 {
            GteModel { mac3: d as i32, ..self }
        } else if r == 28 {
            GteModel {
                ir1: irgb_component(d, 0),
                ir2: irgb_component(d, 5),
                ir3: irgb_component(d, 10),
                ..self
            }
        } else if r == 30 {
            GteModel { lzcs: d as i32, ..self }
        } else if 32 <= r <= 36 {
            GteModel { rtm: matrix_written(self.rtm, r - 32, d), ..self }
        } else if 37 <= r <= 39 {
            GteModel { tr: vec3_written(self.tr, r - 37, d as i32), ..self }
        } else if 40 <= r <= 44 {
            GteModel { llm: matrix_written(self.llm, r - 40, d), ..self }
        } else if 45 <= r <= 47 {
            GteModel { bk: vec3_written(self.bk, r - 45, d as i32), ..self }
        } else if 48 <= r <= 52 {
            GteModel { lcm: matrix_written(self.lcm, r - 48, d), ..self }
        } else if 53 <= r <= 55 {
            GteModel { fc: vec3_written(self.fc, r - 53, d as i32), ..self }
        } else if r == 56 {
            GteModel { of: Vector2 { x: d as i32, ..self.of }, ..self }
        } else if r == 57 {
            GteModel { of: Vector2 { y: d as i32, ..self.of }, ..self }
        } else if r == 58 {
            GteModel { h: d as u16, ..self }
        } else if r == 59 {
            GteModel { dqa: d as i16, ..self }
        } else if r == 60 {
            GteModel { dqb: d as i32, ..self }
        } else if r == 61 {
            GteModel { zsf3: d as i16, ..self }
        } else if r == 62 {
            GteModel { zsf4: d as i16, ..self }
        } else if r == 63 {
            GteModel { flag: d & 0x7FFF_F000, ..self }
        } else {
            self
        }
    }

    /// The state after running the command that `f` encodes.
    pub open spec fn run(self, f: CommandFields) -> GteModel {
        let op = f.spec_opcode();
        if op == 0x01 {
            self.rtps(f)
        } else if op == 0x06 {
            self.nclip()
        } else if op == 0x0C {
            self.op(f)
        } else if op == 0x10 {
            self.dpcs(f)
        } else if op == 0x11 {
            self.intpl(f)
        } else if op == 0x12 {
            self.mvmv_sel(f, f.spec_mx(), f.spec_vx(), f.spec_cv())
        } else if op == 0x13 {
            self.ncd(f, crate::gte::Vector::V0)
        } else if op == 0x14 {
            self.color(f).dcpl(f)
        } else if op == 0x16 {
            self.ncd(f, crate::gte::Vector::V0).ncd(f, crate::gte::Vector::V1).ncd(f, crate::gte::Vector::V2)
        } else if op == 0x1B {
            self.ncc(f, crate::gte::Vector::V0)
        } else if op == 0x1C {
            self.cc(f)
        } else if op == 0x1E {
            self.nc(f, crate::gte::Vector::V0)
        } else if op == 0x20 {
            self.nc(f, crate::gte::Vector::V0).nc(f, crate::gte::Vector::V1).nc(f, crate::gte::Vector::V2)
        } else if op == 0x28 {
            self.sqr(f)
        } else if op == 0x29 {
            self.dcpl(f)
        } else if op == 0x2A {
            self.dpct(f)
        } else if op == 0x2D {
            self.avsz3()
        } else if op == 0x2E {
            self.avsz4()
        } else if op == 0x30 {
            self.rtpt(f)
        } else if op == 0x3D {
            self.gpf(f)
        } else if op == 0x3E {
            self.gpl(f)
        } else {
            self.ncc(f, crate::gte::Vector::V0).ncc(f, crate::gte::Vector::V1).ncc(f, crate::gte::Vector::V2)
        }
    }
}

/// Control register `r` (0..4) of a matrix.
pub open spec fn matrix_word(m: Seq<i16>, r: int) -> u32 {
    if r == 4 {
        m[8] as u32
    } else {
        pack_halves(m[2 * r + 1], m[2 * r])
    }
}

/// A matrix after writing its control register `r` (0..4).
pub open spec fn matrix_written(m: Seq<i16>, r: int, d: u32) -> Seq<i16> {
    if r == 4 {
        m.update(8, lower_half(d))
    } else {
        m.update(2 * r + 1, upper_half(d)).update(2 * r, lower_half(d))
    }
}

pub open spec fn vec3_component(v: Vector3<i32>, i: int) -> i32 {
    if i == 0 {
        v.x
    } else if i == 1 {
        v.y
    } else {
        v.z
    }
}

pub open spec fn vec3_written(v: Vector3<i32>, i: int, d: i32) -> Vector3<i32> {
    if i == 0 {
        Vector3 { x: d, ..v }
    } else if i == 1 {
        Vector3 { y: d, ..v }
    } else {
        Vector3 { z: d, ..v }
    }
}

fn vec3_get(v: &Vector3<i32>, i: usize) -> (r: i32)
    requires
        i < 3,
    ensures
        r == vec3_component(*v, i as int),
{
    if i == 0 {
        v.x
    } else if i == 1 {
        v.y
    } else {
        v.z
    }
}

fn vec3_set(v: &mut Vector3<i32>, i: usize, d: i32)
    requires
        i < 3,
    ensures
        *final(v) == vec3_written(*old(v), i as int, d),
{
    if i == 0 {
        v.x = d;
    } else if i == 1 {
        v.y = d;
    } else {
        v.z = d;
    }
}

/// A 5-bit color component converted from an IR value.
fn ir_to_5bit(ir: i16) -> (r: u32)
    ensures
        r == orgb_component(ir),
{
    if ir < 0 {
        0
    } else {
        let q = (ir as u16) / 0x80;
        if q > 0x1F {
            0x1F
        } else {
            q as u32
        }
    }
}

impl GTEngine {
    /// Leading bit count of LZCS: leading ones of a negative value, leading
    /// zeros otherwise.
    pub fn lzcr(&self) -> (r: u32)
        ensures
            r == leading_sign_bits(self.lzcs),
    {
        let v = self.lzcs as u32;
        if self.lzcs < 0 {
            (!v).leading_zeros()
        } else {
            v.leading_zeros()
        }
    }

    /// Writes IRGB: its three 5-bit components, scaled by 80h, into IR1..3.
    pub fn set_irgb(&mut self, irgb: u32)
        ensures
            final(self)@ == old(self)@.write_reg(28, irgb),
    {
        let r = (irgb & 0x1F) as i16;
        let g = ((irgb >> 5) & 0x1F) as i16;
        let b = ((irgb >> 10) & 0x1F) as i16;
        proof { lemma_irgb_fields(irgb); }
        self.ir1 = r * 0x80;
        self.ir2 = g * 0x80;
        self.ir3 = b * 0x80;
    }

    /// ORGB: IR1..3 divided by 80h and limited to 5 bits.
    pub fn orgb(&self) -> (r: u32)
        ensures
            r == self@.orgb(),
    {
        let r = ir_to_5bit(self.ir1);
        let g = ir_to_5bit(self.ir2);
        let b = ir_to_5bit(self.ir3);
        r + g * 32 + b * 1024
    }

    /// Writes `data` to register `r` (0..31 data, 32..63 control registers).
    pub fn write_reg(&mut self, r: usize, data: u32)
        requires
            r < 64,
        ensures
            final(self)@ == old(self)@.write_reg(r as int, data),
    {
        proof { lemma_pack_facts(); }
        if r == 0 {
            self.v0.write_xy(data);
        } else if r == 1 {
            self.v0.z = data as i16;
        } else if r == 2 {
            self.v1.write_xy(data);
        } else if r == 3 {
            self.v1.z = data as i16;
        } else if r == 4 {
            self.v2.write_xy(data);
        } else if r == 5 {
            self.v2.z = data as i16;
        } else if r == 6 {
            self.rgbc = Rgbc::from_word(data);
        } else if r == 7 {
            self.otz = data as u16;
        } else if r == 8 {
            self.ir0 = data as i16;
        } else if r == 9 {
            self.ir1 = data as i16;
        } else if r == 10 {
            self.ir2 = data as i16;
        } else if r == 11 {
            self.ir3 = data as i16;
        } else if r <= 14 {
            self.sxy.set(r - 12, Vector2::from_u32(data));
        } else if r == 15 {
            // SXYP is a mirror of SXY2 that moves the FIFO on write
            self.sxy.push(Vector2::from_u32(data));
        } else if r <= 19 {
            self.sz.set(r - 16, data as u16);
        } else if r <= 22 {
            self.colors.set(r - 20, Rgbc::from_word(data));
        } else if r == 23 {
            self.res1 = data;
        } else if r == 24 {
            self.mac0 = data as i32;
        } else if r == 25 {
            self.mac1 = data as i32;
        } else if r == 26 {
            self.mac2 = data as i32;
        } else if r == 27 {
            self.mac3 = data as i32;
        } else if r == 28 {
            self.set_irgb(data);
        } else if r == 29 {
            // ORGB is read only
        } else if r == 30 {
            self.lzcs = data as i32;
        } else if r == 31 {
            // LZCR is read only
        } else if r <= 36 {
            self.rtm.write_reg_u32(r - 32, data);
        } else if r <= 39 {
            vec3_set(&mut self.tr, r - 37, data as i32);
        } else if r <= 44 {
            self.llm.write_reg_u32(r - 40, data);
        } else if r <= 47 {
            vec3_set(&mut self.bk, r - 45, data as i32);
        } else if r <= 52 {
            self.lcm.write_reg_u32(r - 48, data);
        } else if r <= 55 {
            vec3_set(&mut self.fc, r - 53, data as i32);
        } else if r == 56 {
            self.of.x = data as i32;
        } else if r == 57 {
            self.of.y = data as i32;
        } else if r == 58 {
            self.h = data as u16;
        } else if r == 59 {
            self.dqa = data as i16;
        } else if r == 60 {
            self.dqb = data as i32;
        } else if r == 61 {
            self.zsf3 = data as i16;
        } else if r == 62 {
            self.zsf4 = data as i16;
        } else {
            self.flag.write(data);
        }
    }

    /// Reads register `r` (0..31 data, 32..63 control registers).
    pub fn read_reg(&self, r: usize) -> (res: u32)
        requires
            r < 64,
        ensures
            res == self@.read_reg(r as int),
    {
        if r == 0 {
            self.v0.xy()
        } else if r == 1 {
            self.v0.zs()
        } else if r == 2 {
            self.v1.xy()
        } else if r == 3 {
            self.v1.zs()
        } else if r == 4 {
            self.v2.xy()
        } else if r == 5 {
            self.v2.zs()
        } else if r == 6 {
            self.rgbc.to_word()
        } else if r == 7 {
            self.otz as u32
        } else if r == 8 {
            self.ir0 as u32
        } else if r == 9 {
            self.ir1 as u32
        } else if r == 10 {
            self.ir2 as u32
        } else if r == 11 {
            self.ir3 as u32
        } else if r <= 14 {
            self.sxy.get(r - 12).as_u32()
        } else if r == 15 {
            self.sxy.get(2).as_u32()
        } else if r <= 19 {
            self.sz.get(r - 16) as u32
        } else if r <= 22 {
            self.colors.get(r - 20).to_word()
        } else if r == 23 {
            self.res1
        } else if r == 24 {
            self.mac0 as u32
        } else if r == 25 {
            self.mac1 as u32
        } else if r == 26 {
            self.mac2 as u32
        } else if r == 27 {
            self.mac3 as u32
        } else if r <= 29 {
            // IRGB and ORGB both read as ORGB
            self.orgb()
        } else if r == 30 {
            self.lzcs as u32
        } else if r == 31 {
            self.lzcr()
        } else if r <= 36 {
            self.rtm.as_reg_u32(r - 32)
        } else if r <= 39 {
            vec3_get(&self.tr, r - 37) as u32
        } else if r <= 44 {
            self.llm.as_reg_u32(r - 40)
        } else if r <= 47 {
            vec3_get(&self.bk, r - 45) as u32
        } else if r <= 52 {
            self.lcm.as_reg_u32(r - 48)
        } else if r <= 55 {
            vec3_get(&self.fc, r - 53) as u32
        } else if r == 56 {
            self.of.x as u32
        } else if r == 57 {
            self.of.y as u32
        } else if r == 58 {
            // Sign extended despite being unsigned
            self.h as i16 as u32
        } else if r == 59 {
            self.dqa as u32
        } else if r == 60 {
            self.dqb as u32
        } else if r == 61 {
            self.zsf3 as u32
        } else if r == 62 {
            self.zsf4 as u32
        } else {
            self.flag.read()
        }
    }

    /// Runs the command that `fields` encodes, starting from a cleared flag register.
    pub fn command(&mut self, fields: CommandFields)
        requires
            is_command(fields.spec_opcode()),
        ensures
            final(self)@ == (GteModel { flag: 0, ..old(self)@ }).run(fields),
    {
        self.flag.clear();
        let op = fields.opcode();
        if op == 0x01 {
            self.rtps(fields)
        } else if op == 0x06 {
            self.nclip()
        } else if op == 0x0C {
            self.op(fields)
        } else if op == 0x10 {
            self.dpcs(fields)
        } else if op == 0x11 {
            self.intpl(fields)
        } else if op == 0x12 {
            self.mvmva(fields)
        } else if op == 0x13 {
            self.ncds(fields)
        } else if op == 0x14 {
            self.cdp(fields)
        } else if op == 0x16 {
            self.ncdt(fields)
        } else if op == 0x1B {
            self.nccs(fields)
        } else if op == 0x1C {
            self.cc(fields)
        } else if op == 0x1E {
            self.ncs(fields)
        } else if op == 0x20 {
            self.nct(fields)
        } else if op == 0x28 {
            self.sqr(fields)
        } else if op == 0x29 {
            self.dcpl(fields)
        } else if op == 0x2A {
            self.dpct(fields)
        } else if op == 0x2D {
            self.avsz3()
        } else if op == 0x2E {
            self.avsz4()
        } else if op == 0x30 {
            self.rtpt(fields)
        } else if op == 0x3D {
            self.gpf(fields)
        } else if op == 0x3E {
            self.gpl(fields)
        } else {
            self.ncct(fields)
        }
    }
}

proof fn lemma_irgb_fields(v: u32)
    ensures
        (v & 0x1F) as int == (v as int / 1) % 32,
        ((v >> 5) & 0x1F) as int == (v as int / 32) % 32,
        ((v >> 10) & 0x1F) as int == (v as int / 1024) % 32,
{
    assert((v & 0x1F) as int == (v as int / 1) % 32 && ((v >> 5) & 0x1F) as int == (v as int / 32) % 32
        && ((v >> 10) & 0x1F) as int == (v as int / 1024) % 32) by (bit_vector);
}

/// Reads matrix control register `r`: registers 0 to 3 hold two entries
/// each (the later one in the upper half), register 4 the last entry.
pub fn matrix_reg_read(m: &[[i16; 3]; 3], r: usize) -> (res: u32)
    requires
        r <= 4,
    ensures
        r == 4 ==> res == m@[2]@[2] as u32,
        r < 4 ==> res == pack_halves(
            m@[(2 * r + 1) / 3]@[(2 * r + 1) % 3],
            m@[(2 * r) / 3]@[(2 * r) % 3],
        ),
{
    proof { lemma_pack_facts(); }
    if r == 4 {
        return m[2][2] as u32;
    }
    let hi = 2 * r + 1;
    let lo = 2 * r;
    let msb = m[hi / 3][hi % 3] as u32;
    let lsb = m[lo / 3][lo % 3] as u32;
    (msb << 16) | (lsb & 0xFFFF)
}

/// Writes matrix control register `r`.
pub fn matrix_reg_write(m: &mut [[i16; 3]; 3], r: usize, v: u32)
    requires
        r <= 4,
    ensures
        forall|i: int, j: int|
            0 <= i < 3 && 0 <= j < 3 ==> #[trigger] final(m)@[i]@[j] == (if r == 4 && 3 * i + j == 8 {
                lower_half(v)
            } else if r < 4 && 3 * i + j == 2 * r + 1 {
                upper_half(v)
            } else if r < 4 && 3 * i + j == 2 * r {
                lower_half(v)
            } else {
                old(m)@[i]@[j]
            }),
{
    proof { lemma_pack_facts(); }
    if r == 4 {
        m[2][2] = (v & 0xFFFF) as i16;
        return;
    }
    let hi = 2 * r + 1;
    let lo = 2 * r;
    m[hi / 3][hi % 3] = (v >> 16) as i16;
    m[lo / 3][lo % 3] = (v & 0xFFFF) as i16;
}

/// The register word of a vector's `x` (lower half) and `y` (upper half).
pub fn vec_xy_read(v: &[i16]) -> (r: u32)
    requires
        v@.len() >= 2,
    ensures
        r == pack_halves(v@[1], v@[0]),
{
    proof { lemma_pack_facts(); }
    let lsb = v[0] as u32;
    let msb = v[1] as u32;
    (msb << 16) | (lsb & 0xFFFF)
}

/// Writes a register word into a vector's `x` and `y`.
pub fn vec_xy_write(v: &mut [i16], d: u32)
    requires
        old(v)@.len() >= 2,
    ensures
        final(v)@ == old(v)@.update(0, lower_half(d)).update(1, upper_half(d)),
{
    proof { lemma_pack_facts(); }
    v[0] = (d & 0xFFFF) as i16;
    v[1] = (d >> 16) as i16;
}

} // verus!
