//! Geometry transformation engine (coprocessor 2): register file, flag
//! register and the saturation steps that its commands are built from.
pub mod commands;
pub mod laws;
pub mod math;
pub mod regs;

use vstd::prelude::*;

use crate::gte::math::{
    clamp, lemma_shift_facts, m44, range_min, wrap44, Matrix3, SaturationRange, Vector2, Vector3,
};

verus! {

/// A color with its code byte, as held by the RGBC register and the color FIFO.
#[derive(Clone, Copy)]
pub struct Rgbc {
    pub r: u8,
    pub g: u8,
    pub b: u8,
    pub code: u8,
}

impl Rgbc {
    /// The register word: red in the lowest byte, code in the highest.
    pub open spec fn word(self) -> u32 {
        (self.r as int + self.g as int * 0x100 + self.b as int * 0x1_0000 + self.code as int
            * 0x100_0000) as u32
    }

    pub fn from_word(v: u32) -> (r: Self)
        ensures
            r == rgbc_of(v),
            r.word() == v,
    {
        let r = Rgbc {
            r: (v & 0xFF) as u8,
            g: ((v >> 8) & 0xFF) as u8,
            b: ((v >> 16) & 0xFF) as u8,
            code: (v >> 24) as u8,
        };
        proof {
            lemma_rgbc_bytes(v);
        }
        r
    }

    pub fn to_word(&self) -> (r: u32)
        ensures
            r == self.word(),
    {
        self.r as u32 + self.g as u32 * 0x100 + self.b as u32 * 0x1_0000 + self.code as u32
            * 0x100_0000
    }
}

/// The color whose register word is `v`.
pub open spec fn rgbc_of(v: u32) -> Rgbc {
    Rgbc {
        r: (v as int % 0x100) as u8,
        g: (v as int / 0x100 % 0x100) as u8,
        b: (v as int / 0x1_0000 % 0x100) as u8,
        code: (v as int / 0x100_0000) as u8,
    }
}

proof fn lemma_rgbc_bytes(v: u32)
    ensures
        ((v & 0xFF) as u8) as int + ((v >> 8) & 0xFF) as u8 as int * 0x100 + ((v >> 16) & 0xFF) as u8 as int
            * 0x1_0000 + ((v >> 24) as u8) as int * 0x100_0000 == v as int,
        ((v & 0xFF) as u8) as int == v as int % 0x100,
        (((v >> 8) & 0xFF) as u8) as int == v as int / 0x100 % 0x100,
        (((v >> 16) & 0xFF) as u8) as int == v as int / 0x1_0000 % 0x100,
        ((v >> 24) as u8) as int == v as int / 0x100_0000,
{
    assert(((v & 0xFF) as u8) as int + ((v >> 8) & 0xFF) as u8 as int * 0x100 + ((v >> 16) & 0xFF) as u8 as int
        * 0x1_0000 + ((v >> 24) as u8) as int * 0x100_0000 == v as int
        && ((v & 0xFF) as u8) as int == v as int % 0x100
        && (((v >> 8) & 0xFF) as u8) as int == v as int / 0x100 % 0x100
        && (((v >> 16) & 0xFF) as u8) as int == v as int / 0x1_0000 % 0x100
        && ((v >> 24) as u8) as int == v as int / 0x100_0000) by (bit_vector);
}

/// Calculation error flags (control register 63).
pub struct Flag(pub u32);

impl Flag {
    /// Bits 30..23 and 18..13 are the error bits summarised in bit 31.
    pub open spec fn has_error(v: u32) -> bool {
        v & 0x7F87_E000 != 0
    }

    /// The register value with bit 31 set when any error bit is set.
    pub fn read(&self) -> (r: u32)
        ensures
            r == (if Flag::has_error(self.0) { self.0 | 0x8000_0000 } else { self.0 }),
    {
        if self.0 & 0x7F87_E000 != 0 {
            self.0 | 0x8000_0000
        } else {
            self.0
        }
    }

    /// Only bits 30..12 can be written.
    pub fn write(&mut self, v: u32)
        ensures
            final(self).0 == v & 0x7FFF_F000,
    {
        self.0 = v & 0x7FFF_F000;
    }

    pub fn clear(&mut self)
        ensures
            final(self).0 == 0,
    {
        self.0 = 0;
    }

    pub fn set_bit(&mut self, n: u32)
        requires
            n < 32,
        ensures
            final(self).0 == old(self).0 | (1u32 << n),
    {
        self.0 = self.0 | (1u32 << n);
    }
}

/// Fixed size first-in-first-out storage: a push drops the oldest entry.
pub struct FixedFifo<T, const LEN: usize> {
    pub fifo: [T; LEN],
}

impl<T: Copy, const LEN: usize> FixedFifo<T, LEN> {
    /// Shifts every entry one place towards the front and stores `v` last.
    pub fn push(&mut self, v: T)
        requires
            LEN >= 1,
        ensures
            final(self).fifo@ == old(self).fifo@.drop_first().push(v),
    {
        let mut i: usize = 0;
        while i + 1 < LEN
            invariant
                LEN >= 1,
                i + 1 <= LEN,
                self.fifo@.len() == LEN,
                old(self).fifo@.len() == LEN,
                forall|j: int| 0 <= j < i ==> self.fifo@[j] == old(self).fifo@[j + 1],
                forall|j: int| i <= j < LEN ==> self.fifo@[j] == old(self).fifo@[j],
            decreases LEN - i,
        {
            let x = self.fifo[i + 1];
            self.fifo[i] = x;
            i = i + 1;
        }
        self.fifo[LEN - 1] = v;
        assert(self.fifo@ =~= old(self).fifo@.drop_first().push(v));
    }

    pub fn get(&self, i: usize) -> (r: T)
        requires
            i < LEN,
        ensures
            r == self.fifo@[i as int],
    {
        self.fifo[i]
    }

    pub fn set(&mut self, i: usize, v: T)
        requires
            i < LEN,
        ensures
            final(self).fifo@ == old(self).fifo@.update(i as int, v),
    {
        self.fifo[i] = v;
    }
}

/// The fields of a coprocessor 2 command word.
#[derive(Clone, Copy)]
pub struct CommandFields(pub u32);

/// Matrix operand of MVMVA.
#[derive(Clone, Copy, PartialEq, Eq, Structural)]
pub enum Matrix {
    Rotation,
    Light,
    Color,
    Reserved,
}

/// Vector operand of MVMVA.
#[derive(Clone, Copy, PartialEq, Eq, Structural)]
pub enum Vector {
    V0,
    V1,
    V2,
    IR,
}

/// Translation operand of MVMVA.
#[derive(Clone, Copy, PartialEq, Eq, Structural)]
pub enum ControlVec {
    Translation,
    Background,
    FarColor,
    Zero,
}

pub open spec fn spec_matrix(v: u32) -> Matrix {
    if v == 0 {
        Matrix::Rotation
    } else if v == 1 {
        Matrix::Light
    } else if v == 2 {
        Matrix::Color
    } else {
        Matrix::Reserved
    }
}

pub open spec fn spec_vector(v: u32) -> Vector {
    if v == 0 {
        Vector::V0
    } else if v == 1 {
        Vector::V1
    } else if v == 2 {
        Vector::V2
    } else {
        Vector::IR
    }
}

pub open spec fn spec_control_vec(v: u32) -> ControlVec {
    if v == 0 {
        ControlVec::Translation
    } else if v == 1 {
        ControlVec::Background
    } else if v == 2 {
        ControlVec::FarColor
    } else {
        ControlVec::Zero
    }
}

impl CommandFields {
    /// Bit 19: shift results right by 12.
    pub open spec fn spec_sf(self) -> bool {
        (self.0 >> 19u32) & 1 == 1
    }

    /// Bit 10: saturate interpolation results to 0..=7FFFh instead of the signed range.
    pub open spec fn spec_lm(self) -> SaturationRange {
        if (self.0 >> 10u32) & 1 == 1 {
            SaturationRange::Unsigned15
        } else {
            SaturationRange::Signed16
        }
    }

    /// Shift amount that the `sf` bit selects.
    pub open spec fn shift(self) -> int {
        if self.spec_sf() { 12 } else { 0 }
    }

    pub open spec fn spec_mx(self) -> Matrix {
        spec_matrix((self.0 >> 17u32) & 3)
    }

    pub open spec fn spec_vx(self) -> Vector {
        spec_vector((self.0 >> 15u32) & 3)
    }

    pub open spec fn spec_cv(self) -> ControlVec {
        spec_control_vec((self.0 >> 13u32) & 3)
    }

    pub open spec fn spec_opcode(self) -> u32 {
        self.0 & 0x3F
    }

    pub fn sf(&self) -> (r: bool)
        ensures
            r == self.spec_sf(),
    {
        (self.0 >> 19u32) & 1 == 1
    }

    pub fn lm(&self) -> (r: SaturationRange)
        ensures
            r == self.spec_lm(),
    {
        if (self.0 >> 10u32) & 1 == 1 {
            SaturationRange::Unsigned15
        } else {
            SaturationRange::Signed16
        }
    }

    pub fn mx(&self) -> (r: Matrix)
        ensures
            r == self.spec_mx(),
    {
        let v = (self.0 >> 17u32) & 3;
        if v == 0 {
            Matrix::Rotation
        } else if v == 1 {
            Matrix::Light
        } else if v == 2 {
            Matrix::Color
        } else {
            Matrix::Reserved
        }
    }

    pub fn vx(&self) -> (r: Vector)
        ensures
            r == self.spec_vx(),
    {
        let v = (self.0 >> 15u32) & 3;
        if v == 0 {
            Vector::V0
        } else if v == 1 {
            Vector::V1
        } else if v == 2 {
            Vector::V2
        } else {
            Vector::IR
        }
    }

    pub fn cv(&self) -> (r: ControlVec)
        ensures
            r == self.spec_cv(),
    {
        let v = (self.0 >> 13u32) & 3;
        if v == 0 {
            ControlVec::Translation
        } else if v == 1 {
            ControlVec::Background
        } else if v == 2 {
            ControlVec::FarColor
        } else {
            ControlVec::Zero
        }
    }

    pub fn opcode(&self) -> (r: u32)
        ensures
            r == self.spec_opcode(),
    {
        self.0 & 0x3F
    }
}

/// Coprocessor 2 state.
pub struct GTEngine {
    /// Rotation matrix (1, 3, 12)
    pub rtm: Matrix3,
    /// Light source matrix (1, 3, 12)
    pub llm: Matrix3,
    /// Light color matrix (1, 3, 12)
    pub lcm: Matrix3,
    /// Translation vector (1, 31, 0)
    pub tr: Vector3<i32>,
    /// Background color (1, 19, 12)
    pub bk: Vector3<i32>,
    /// Far color (1, 27, 4)
    pub fc: Vector3<i32>,
    /// Screen offset (1, 15, 16)
    pub of: Vector2<i32>,
    /// Projection plane distance (0, 16, 0)
    pub h: u16,
    /// Depth queuing parameter A (coeff) (1, 7, 8)
    pub dqa: i16,
    /// Depth queuing parameter B (offset) (1, 7, 24)
    pub dqb: i32,
    /// Z3 average scale factor (1, 3, 12)
    pub zsf3: i16,
    /// Z4 average scale factor (1, 3, 12)
    pub zsf4: i16,
    /// Average Z value (for Ordering Table) (0, 15, 0)
    pub otz: u16,
    /// Screen XY coordinates (1, 15, 0)
    pub sxy: FixedFifo<Vector2<i16>, 3>,
    /// Screen Z coordinates (0, 16, 0)
    pub sz: FixedFifo<u16, 4>,
    /// Color and code register
    pub rgbc: Rgbc,
    /// Prohibited register, readable and writeable
    pub res1: u32,
    /// Color and code FIFO
    pub colors: FixedFifo<Rgbc, 3>,
    /// 16-bit vectors
    pub v0: Vector3<i16>,
    pub v1: Vector3<i16>,
    pub v2: Vector3<i16>,
    /// Interpolation factors
    pub ir0: i16,
    pub ir1: i16,
    pub ir2: i16,
    pub ir3: i16,
    /// Sums of products
    pub mac0: i32,
    pub mac1: i32,
    pub mac2: i32,
    pub mac3: i32,
    /// Leading bit count source
    pub lzcs: i32,
    /// Calculation errors
    pub flag: Flag,
}

/// Mathematical model of the engine: every register, with the FIFOs and
/// matrices as sequences.
#[verifier::ext_equal]
pub struct GteModel {
    pub rtm: Seq<i16>,
    pub llm: Seq<i16>,
    pub lcm: Seq<i16>,
    pub tr: Vector3<i32>,
    pub bk: Vector3<i32>,
    pub fc: Vector3<i32>,
    pub of: Vector2<i32>,
    pub h: u16,
    pub dqa: i16,
    pub dqb: i32,
    pub zsf3: i16,
    pub zsf4: i16,
    pub otz: u16,
    pub sxy: Seq<Vector2<i16>>,
    pub sz: Seq<u16>,
    pub rgbc: Rgbc,
    pub res1: u32,
    pub colors: Seq<Rgbc>,
    pub v0: Vector3<i16>,
    pub v1: Vector3<i16>,
    pub v2: Vector3<i16>,
    pub ir0: i16,
    pub ir1: i16,
    pub ir2: i16,
    pub ir3: i16,
    pub mac0: i32,
    pub mac1: i32,
    pub mac2: i32,
    pub mac3: i32,
    pub lzcs: i32,
    pub flag: u32,
}

impl View for GTEngine {
    type V = GteModel;

    open spec fn view(&self) -> GteModel {
        GteModel {
            rtm: self.rtm.elems@,
            llm: self.llm.elems@,
            lcm: self.lcm.elems@,
            tr: self.tr,
            bk: self.bk,
            fc: self.fc,
            of: self.of,
            h: self.h,
            dqa: self.dqa,
            dqb: self.dqb,
            zsf3: self.zsf3,
            zsf4: self.zsf4,
            otz: self.otz,
            sxy: self.sxy.fifo@,
            sz: self.sz.fifo@,
            rgbc: self.rgbc,
            res1: self.res1,
            colors: self.colors.fifo@,
            v0: self.v0,
            v1: self.v1,
            v2: self.v2,
            ir0: self.ir0,
            ir1: self.ir1,
            ir2: self.ir2,
            ir3: self.ir3,
            mac0: self.mac0,
            mac1: self.mac1,
            mac2: self.mac2,
            mac3: self.mac3,
            lzcs: self.lzcs,
            flag: self.flag.0,
        }
    }
}

/// Flag bit of the positive overflow of MAC1..3 (`idx` 1..3).
pub open spec fn mac_pos_bit(idx: int) -> u32 {
    (31 - idx) as u32
}

/// Flag bit of the negative overflow of MAC1..3 (`idx` 1..3).
pub open spec fn mac_neg_bit(idx: int) -> u32 {
    (28 - idx) as u32
}

/// Flag bit of the saturation of IR1..3 (`idx` 1..3).
pub open spec fn ir_sat_bit(idx: int) -> u32 {
    (25 - idx) as u32
}

/// Flag bit of the saturation of the color FIFO's red, green, blue (`idx` 0..2).
pub open spec fn color_sat_bit(idx: int) -> u32 {
    (21 - idx) as u32
}

/// Flag bit of the saturation of SX2, SY2 (`idx` 0..1).
pub open spec fn screen_sat_bit(idx: int) -> u32 {
    (14 - idx) as u32
}

/// Largest value of a signed 44-bit accumulator.
pub open spec fn max44() -> int {
    0x7FF_FFFF_FFFF
}

/// Smallest value of a signed 44-bit accumulator.
pub open spec fn min44() -> int {
    -0x800_0000_0000
}

/// Whether a value lies in the range of the 44-bit accumulators.
pub open spec fn in44(v: int) -> bool {
    min44() <= v <= max44()
}

impl GteModel {
    pub open spec fn with_flag_bit(self, n: u32) -> GteModel {
        GteModel { flag: self.flag | (1u32 << n), ..self }
    }

    pub open spec fn flag_if(self, cond: bool, n: u32) -> GteModel {
        if cond {
            self.with_flag_bit(n)
        } else {
            self
        }
    }

    /// Flags after checking `v` against the 44-bit range of MAC`idx`.
    pub open spec fn check44(self, idx: int, v: int) -> GteModel {
        if v > max44() {
            self.with_flag_bit(mac_pos_bit(idx))
        } else if v < min44() {
            self.with_flag_bit(mac_neg_bit(idx))
        } else {
            self
        }
    }

    /// Flags after saturating `v` into IR`idx`.
    pub open spec fn check_ir(self, idx: int, v: int, lm: SaturationRange) -> GteModel {
        self.flag_if(v > 0x7FFF || v < range_min(lm), ir_sat_bit(idx))
    }

    /// Flags after saturating `v` into a color component.
    pub open spec fn check_color(self, idx: int, v: int) -> GteModel {
        self.flag_if(v > 0xFF || v < 0, color_sat_bit(idx))
    }

    /// Flags after saturating `v` into a screen coordinate.
    pub open spec fn check_screen(self, idx: int, v: int) -> GteModel {
        self.flag_if(v < -0x400 || v > 0x3FF, screen_sat_bit(idx))
    }

    /// Flags after checking `v` against the 32-bit range of MAC0.
    pub open spec fn check_mac0(self, v: int) -> GteModel {
        if v > 0x7FFF_FFFF {
            self.with_flag_bit(16)
        } else if v < -0x8000_0000 {
            self.with_flag_bit(15)
        } else {
            self
        }
    }

    /// Flags after saturating `v / 4096` into OTZ.
    pub open spec fn check_otz(self, v: int) -> GteModel {
        self.flag_if(v / 4096 < 0 || v / 4096 > 0xFFFF, 18)
    }

    /// IR1..3 loaded from MAC1..3 with saturation.
    pub open spec fn mac_to_ir(self, lm: SaturationRange) -> GteModel {
        let s = self.check_ir(1, self.mac1 as int, lm).check_ir(2, self.mac2 as int, lm).check_ir(
            3,
            self.mac3 as int,
            lm,
        );
        GteModel {
            ir1: clamp(self.mac1 as int, range_min(lm), 0x7FFF) as i16,
            ir2: clamp(self.mac2 as int, range_min(lm), 0x7FFF) as i16,
            ir3: clamp(self.mac3 as int, range_min(lm), 0x7FFF) as i16,
            ..s
        }
    }

    /// The color that MAC1..3 describe, with the code byte of RGBC.
    pub open spec fn mac_color(self) -> Rgbc {
        Rgbc {
            r: clamp(self.mac1 as int / 16, 0, 0xFF) as u8,
            g: clamp(self.mac2 as int / 16, 0, 0xFF) as u8,
            b: clamp(self.mac3 as int / 16, 0, 0xFF) as u8,
            code: self.rgbc.code,
        }
    }

    /// MAC1..3 / 16 saturated to bytes and pushed onto the color FIFO.
    pub open spec fn mac_to_color_push(self) -> GteModel {
        let s = self.check_color(0, self.mac1 as int / 16).check_color(1, self.mac2 as int / 16).check_color(
            2,
            self.mac3 as int / 16,
        );
        GteModel { colors: self.colors.drop_first().push(self.mac_color()), ..s }
    }

    /// The three FIFOs hold three, four and three entries.
    pub open spec fn wf(self) -> bool {
        &&& self.rtm.len() == 9
        &&& self.llm.len() == 9
        &&& self.lcm.len() == 9
        &&& self.sxy.len() == 3
        &&& self.sz.len() == 4
        &&& self.colors.len() == 3
    }
}

impl GTEngine {
    pub fn new() -> (r: Self)
        ensures
            r@.flag == 0,
            r@.mac0 == 0 && r@.ir0 == 0,
    {
        let zero3 = Vector3 { x: 0i16, y: 0i16, z: 0i16 };
        let zero3w = Vector3 { x: 0i32, y: 0i32, z: 0i32 };
        let black = Rgbc { r: 0, g: 0, b: 0, code: 0 };
        GTEngine {
            rtm: Matrix3 { elems: [0; 9] },
            llm: Matrix3 { elems: [0; 9] },
            lcm: Matrix3 { elems: [0; 9] },
            tr: zero3w,
            bk: zero3w,
            fc: zero3w,
            of: Vector2 { x: 0, y: 0 },
            h: 0,
            dqa: 0,
            dqb: 0,
            zsf3: 0,
            zsf4: 0,
            otz: 0,
            sxy: FixedFifo { fifo: [Vector2 { x: 0, y: 0 }; 3] },
            sz: FixedFifo { fifo: [0; 4] },
            rgbc: black,
            res1: 0,
            colors: FixedFifo { fifo: [black; 3] },
            v0: zero3,
            v1: zero3,
            v2: zero3,
            ir0: 0,
            ir1: 0,
            ir2: 0,
            ir3: 0,
            mac0: 0,
            mac1: 0,
            mac2: 0,
            mac3: 0,
            lzcs: 0,
            flag: Flag(0),
        }
    }

    pub proof fn lemma_wf(&self)
        ensures
            self@.wf(),
    {
    }

    fn set_flag(&mut self, n: u32)
        requires
            n < 32,
        ensures
            final(self)@ == old(self)@.with_flag_bit(n),
    {
        self.flag.set_bit(n);
    }

    /// Reduces `val` to 44 bits, flagging an overflow of MAC`idx`.
    pub fn i64_to_i44(&mut self, idx: usize, val: i64) -> (r: i64)
        requires
            1 <= idx <= 3,
        ensures
            r == wrap44(val as int),
            final(self)@ == old(self)@.check44(idx as int, val as int),
    {
        if val > 0x7FF_FFFF_FFFF {
            self.set_flag(31 - idx as u32);
        } else if val < -0x800_0000_0000 {
            self.set_flag(28 - idx as u32);
        }
        m44(val)
    }

    /// Saturates `val` into IR`idx`, flagging when it had to.
    pub fn i32_to_i16(&mut self, idx: usize, val: i32, lm: SaturationRange) -> (r: i16)
        requires
            1 <= idx <= 3,
        ensures
            r == clamp(val as int, range_min(lm), 0x7FFF),
            final(self)@ == old(self)@.check_ir(idx as int, val as int, lm),
    {
        let min: i32 = match lm {
            SaturationRange::Signed16 => -0x8000,
            SaturationRange::Unsigned15 => 0,
        };
        let (res, saturated) = if val > 0x7FFF {
            (0x7FFFi16, true)
        } else if val < min {
            (min as i16, true)
        } else {
            (val as i16, false)
        };
        if saturated {
            self.set_flag(25 - idx as u32);
        }
        res
    }

    /// Saturates `val` into a color byte, flagging when it had to.
    pub fn i32_to_u8(&mut self, idx: usize, val: i32) -> (r: u8)
        requires
            idx <= 2,
        ensures
            r == clamp(val as int, 0, 0xFF),
            final(self)@ == old(self)@.check_color(idx as int, val as int),
    {
        let (res, saturated) = if val > 0xFF {
            (0xFFu8, true)
        } else if val < 0 {
            (0u8, true)
        } else {
            (val as u8, false)
        };
        if saturated {
            self.set_flag(21 - idx as u32);
        }
        res
    }

    /// Saturates `val` into an 11-bit screen coordinate, flagging when it had to.
    pub fn i32_to_i11(&mut self, idx: usize, val: i32) -> (r: i16)
        requires
            idx <= 1,
        ensures
            r == clamp(val as int, -0x400, 0x3FF),
            final(self)@ == old(self)@.check_screen(idx as int, val as int),
    {
        let (res, saturated) = if val < -0x400 {
            (-0x400i32, true)
        } else if val > 0x3FF {
            (0x3FFi32, true)
        } else {
            (val, false)
        };
        if saturated {
            self.set_flag(14 - idx as u32);
        }
        res as i16
    }

    /// Saturates `val / 4096` into the ordering table range, flagging when it had to.
    pub fn i64_to_otz(&mut self, val: i64) -> (r: u16)
        ensures
            r == clamp(val as int / 4096, 0, 0xFFFF),
            final(self)@ == old(self)@.check_otz(val as int),
    {
        proof { lemma_shift_facts(); }
        let val = val >> 12u64;
        let (res, saturated) = if val < 0 {
            (0i64, true)
        } else if val > 0xFFFF {
            (0xFFFFi64, true)
        } else {
            (val, false)
        };
        if saturated {
            self.set_flag(18);
        }
        res as u16
    }

    /// Flags `val` when it does not fit MAC0.
    pub fn mac0_overflow_check(&mut self, val: i64)
        ensures
            final(self)@ == old(self)@.check_mac0(val as int),
    {
        if val > 0x7FFF_FFFF {
            self.set_flag(16);
        } else if val < -0x8000_0000 {
            self.set_flag(15);
        }
    }

    /// Loads IR1..3 from MAC1..3 with saturation.
    pub fn mac_to_ir(&mut self, fields: CommandFields)
        ensures
            final(self)@ == old(self)@.mac_to_ir(fields.spec_lm()),
    {
        let lm = fields.lm();
        let mac1 = self.mac1;
        let mac2 = self.mac2;
        let mac3 = self.mac3;
        self.ir1 = self.i32_to_i16(1, mac1, lm);
        self.ir2 = self.i32_to_i16(2, mac2, lm);
        self.ir3 = self.i32_to_i16(3, mac3, lm);
    }

    /// Pushes the color that MAC1..3 describe onto the color FIFO.
    pub fn mac_to_color_push(&mut self)
        ensures
            final(self)@ == old(self)@.mac_to_color_push(),
    {
        proof { lemma_shift_facts(); }
        let mac1 = self.mac1;
        let mac2 = self.mac2;
        let mac3 = self.mac3;
        let r = self.i32_to_u8(0, mac1 >> 4u32);
        let g = self.i32_to_u8(1, mac2 >> 4u32);
        let b = self.i32_to_u8(2, mac3 >> 4u32);
        let color = Rgbc { r, g, b, code: self.rgbc.code };
        self.colors.push(color);
    }
}

} // verus!
