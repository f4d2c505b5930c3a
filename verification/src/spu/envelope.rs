use vstd::prelude::*;

use crate::gte::math::clamp;

verus! {

#[derive(Clone, Copy, PartialEq, Eq, Structural, Debug)]
pub enum AdsrPhase {
    Off,
    Attack,
    Decay,
    Sustain,
    Release,
}

/// `2^k` for a small `k`.
pub open spec fn pow2(k: int) -> int
    decreases k,
{
    if k <= 0 {
        1
    } else {
        2 * pow2(k - 1)
    }
}

/// The step table: 7, 6, 5, 4 when increasing, -8, -7, -6, -5 when
/// decreasing.
pub open spec fn base_step(decreasing: bool, step_index: u8) -> int {
    if decreasing {
        -8 + step_index
    } else {
        7 - step_index
    }
}

/// Fields of the 32-bit ADSR configuration register.
pub open spec fn attack_exponential(r: u32) -> bool {
    r & 0x8000 != 0
}

pub open spec fn attack_shift(r: u32) -> u8 {
    ((r >> 10u32) & 0x1F) as u8
}

pub open spec fn attack_step(r: u32) -> u8 {
    ((r >> 8u32) & 3) as u8
}

pub open spec fn decay_shift(r: u32) -> u8 {
    ((r >> 4u32) & 0xF) as u8
}

pub open spec fn sustain_level_field(r: u32) -> u16 {
    (r & 0xF) as u16
}

pub open spec fn sustain_exponential(r: u32) -> bool {
    r & 0x8000_0000 != 0
}

pub open spec fn sustain_decreasing(r: u32) -> bool {
    r & 0x4000_0000 != 0
}

pub open spec fn sustain_shift(r: u32) -> u8 {
    ((r >> 24u32) & 0x1F) as u8
}

pub open spec fn sustain_step(r: u32) -> u8 {
    ((r >> 22u32) & 3) as u8
}

pub open spec fn release_exponential(r: u32) -> bool {
    r & 0x20_0000 != 0
}

pub open spec fn release_shift(r: u32) -> u8 {
    ((r >> 16u32) & 0x1F) as u8
}

proof fn lemma_fields(r: u32)
    ensures
        attack_shift(r) < 32,
        attack_step(r) < 4,
        decay_shift(r) < 16,
        sustain_level_field(r) < 16,
        sustain_shift(r) < 32,
        sustain_step(r) < 4,
        release_shift(r) < 32,
{
    assert((r >> 10u32) & 0x1F < 32 && (r >> 8u32) & 3 < 4 && (r >> 4u32) & 0xF < 16 && r & 0xF < 16
        && (r >> 24u32) & 0x1F < 32 && (r >> 22u32) & 3 < 4 && (r >> 16u32) & 0x1F < 32) by (bit_vector);
}

#[derive(Clone, Copy)]
pub struct AdsrEnvelope {
    pub phase: AdsrPhase,
    pub volume: u16,
    pub register: u32,
    pub counter: u32,
    pub counter_reload: u32,
    pub step: i16,
    pub exponential: bool,
    pub decreasing: bool,
    pub shift: u8,
    pub step_index: u8,
    pub sustain_level: u16,
}

impl AdsrEnvelope {
    /// The step index and shift come from 2-bit and 5-bit fields, and a
    /// running envelope has a counter to count down.
    pub open spec fn wf(&self) -> bool {
        &&& self.step_index < 4
        &&& self.shift < 32
        &&& self.phase != AdsrPhase::Off ==> self.counter >= 1
    }

    /// The volume step for the current rate: the table step shifted left by
    /// `11 - shift` (when positive); exponential increases above 6000h step
    /// a quarter as far (shift up to 10), exponential decreases scale by the
    /// volume.
    pub open spec fn next_step(&self) -> int {
        let s0 = base_step(self.decreasing, self.step_index) * pow2(
            if self.shift < 11 { 11 - self.shift } else { 0 },
        );
        if self.exponential && !self.decreasing && self.volume > 0x6000 {
            if self.shift <= 10 { s0 / 4 } else { s0 }
        } else if self.exponential && self.decreasing {
            (s0 * self.volume) / 0x8000
        } else {
            s0
        }
    }

    /// The number of ticks between steps: `2^(shift - 11)` (when positive),
    /// four times as many for exponential increases above 6000h from shift
    /// 10 on, at most 8000h unless the rate is the slowest one.
    pub open spec fn next_reload(&self) -> int {
        let c0 = pow2(if self.shift > 11 { self.shift - 11 } else { 0 });
        let c1 = if self.exponential && !self.decreasing && self.volume > 0x6000 && self.shift >= 10 {
            c0 * 4
        } else {
            c0
        };
        if self.step_index + 4 * self.shift != 0x7F && c1 > 0x8000 {
            0x8000
        } else {
            c1
        }
    }

    /// The envelope with its step and counter recomputed for its rate.
    pub open spec fn calculated(self) -> Self {
        AdsrEnvelope {
            step: self.next_step() as i16,
            counter_reload: self.next_reload() as u32,
            counter: self.next_reload() as u32,
            ..self
        }
    }

    pub open spec fn attack_loaded(self) -> Self {
        AdsrEnvelope {
            phase: AdsrPhase::Attack,
            decreasing: false,
            exponential: attack_exponential(self.register),
            shift: attack_shift(self.register),
            step_index: attack_step(self.register),
            volume: 0,
            ..self
        }.calculated()
    }

    pub open spec fn decay_loaded(self) -> Self {
        AdsrEnvelope {
            phase: AdsrPhase::Decay,
            decreasing: true,
            exponential: true,
            shift: decay_shift(self.register),
            step_index: 0,
            volume: 0x7FFF,
            ..self
        }.calculated()
    }

    pub open spec fn sustain_loaded(self) -> Self {
        AdsrEnvelope {
            phase: AdsrPhase::Sustain,
            decreasing: sustain_decreasing(self.register),
            exponential: sustain_exponential(self.register),
            shift: sustain_shift(self.register),
            step_index: sustain_step(self.register),
            volume: self.sustain_level,
            ..self
        }.calculated()
    }

    pub open spec fn release_loaded(self) -> Self {
        AdsrEnvelope {
            phase: AdsrPhase::Release,
            decreasing: true,
            exponential: release_exponential(self.register),
            shift: release_shift(self.register),
            step_index: 0,
            ..self
        }.calculated()
    }

    /// One tick of the envelope: the counter counts down; when it runs out
    /// the volume takes a step (kept within 0..7FFFh), the rate is
    /// recomputed, and the phase moves on where its target was reached.
    pub open spec fn ticked(self) -> Self {
        if self.phase == AdsrPhase::Off {
            self
        } else if self.counter > 1 {
            AdsrEnvelope { counter: (self.counter - 1) as u32, ..self }
        } else {
            let e = AdsrEnvelope {
                counter: self.counter_reload,
                volume: clamp(self.volume + self.step, 0, 0x7FFF) as u16,
                ..self
            }.calculated();
            if e.phase == AdsrPhase::Attack && e.volume >= 0x7FFF {
                e.decay_loaded()
            } else if e.phase == AdsrPhase::Decay && e.volume <= e.sustain_level {
                e.sustain_loaded()
            } else if e.phase == AdsrPhase::Release && e.volume == 0 {
                AdsrEnvelope { phase: AdsrPhase::Off, ..e }
            } else {
                e
            }
        }
    }

    /// An envelope at power-on: off, silent, all settings zero.
    pub fn new() -> (e: Self)
        ensures
            e.wf(),
            e.phase == AdsrPhase::Off,
            e.volume == 0,
            e.register == 0,
    {
        AdsrEnvelope {
            phase: AdsrPhase::Off,
            volume: 0,
            register: 0,
            counter: 0,
            counter_reload: 0,
            step: 0,
            exponential: false,
            decreasing: false,
            shift: 0,
            step_index: 0,
            sustain_level: 0,
        }
    }

    fn calc(&mut self)
        requires
            old(self).step_index < 4,
            old(self).shift < 32,
        ensures
            *final(self) == old(self).calculated(),
            final(self).counter >= 1,
    {
        proof {
            lemma_step_bounds(*old(self));
        }
        let base: i32 = if self.decreasing {
            -8 + self.step_index as i32
        } else {
            7 - self.step_index as i32
        };
        let up: u8 = if self.shift < 11 { 11 - self.shift } else { 0 };
        let down: u8 = if self.shift > 11 { self.shift - 11 } else { 0 };
        let mut mul: i32 = 1;
        let mut i: u8 = 0;
        while i < up
            invariant
                i <= up <= 11,
                mul == pow2(i as int),
            decreases up - i,
        {
            proof { lemma_pow2_bound(i as int + 1); }
            mul = mul * 2;
            i = i + 1;
        }
        let mut counter: u32 = 1;
        let mut j: u8 = 0;
        while j < down
            invariant
                j <= down <= 20,
                counter == pow2(j as int),
            decreases down - j,
        {
            proof { lemma_pow2_bound(j as int + 1); }
            counter = counter * 2;
            j = j + 1;
        }
        proof {
            lemma_pow2_bound(up as int);
            lemma_pow2_bound(down as int);
        }
        let mut step: i32 = base * mul;
        if self.exponential && !self.decreasing && self.volume > 0x6000 {
            if self.shift < 10 {
                step = div_floor4(step);
            } else if self.shift >= 11 {
                counter = counter * 4;
            } else {
                step = div_floor4(step);
                counter = counter * 4;
            }
        } else if self.exponential && self.decreasing {
            proof {
                assert(-0x4000 * 0x1_0000 <= step * self.volume <= 0) by (nonlinear_arith)
                    requires -0x4000 <= step <= 0;
            }
            step = div_floor_8000(step * self.volume as i32);
        }
        self.step = step as i16;
        let mut reload = counter;
        if self.step_index as u32 + 4 * self.shift as u32 != 0x7F && reload > 0x8000 {
            reload = 0x8000;
        }
        self.counter_reload = reload;
        self.counter = reload;
    }

    fn load_attack(&mut self)
        ensures
            *final(self) == old(self).attack_loaded(),
            final(self).wf(),
    {
        proof { lemma_fields(self.register); }
        self.phase = AdsrPhase::Attack;
        self.decreasing = false;
        self.exponential = self.register & 0x8000 != 0;
        self.shift = ((self.register >> 10u32) & 0x1F) as u8;
        self.step_index = ((self.register >> 8u32) & 3) as u8;
        self.volume = 0;
        self.calc();
    }

    fn load_decay(&mut self)
        ensures
            *final(self) == old(self).decay_loaded(),
            final(self).wf(),
    {
        proof { lemma_fields(self.register); }
        self.phase = AdsrPhase::Decay;
        self.decreasing = true;
        self.exponential = true;
        self.shift = ((self.register >> 4u32) & 0xF) as u8;
        self.step_index = 0;
        self.volume = 0x7FFF;
        self.calc();
    }

    fn load_sustain(&mut self)
        ensures
            *final(self) == old(self).sustain_loaded(),
            final(self).wf(),
    {
        proof { lemma_fields(self.register); }
        self.phase = AdsrPhase::Sustain;
        self.decreasing = self.register & 0x4000_0000 != 0;
        self.exponential = self.register & 0x8000_0000 != 0;
        self.shift = ((self.register >> 24u32) & 0x1F) as u8;
        self.step_index = ((self.register >> 22u32) & 3) as u8;
        self.volume = self.sustain_level;
        self.calc();
    }

    fn load_release(&mut self)
        ensures
            *final(self) == old(self).release_loaded(),
            final(self).wf(),
    {
        proof { lemma_fields(self.register); }
        self.phase = AdsrPhase::Release;
        self.decreasing = true;
        self.exponential = self.register & 0x20_0000 != 0;
        self.shift = ((self.register >> 16u32) & 0x1F) as u8;
        self.step_index = 0;
        self.calc();
    }

    /// Advances the envelope by one sample.
    pub fn tick(&mut self)
        requires
            old(self).wf(),
        ensures
            final(self).wf(),
            *final(self) == old(self).ticked(),
    {
        if self.phase == AdsrPhase::Off {
            return;
        }
        self.counter = self.counter - 1;
        if self.counter > 0 {
            return;
        }
        self.counter = self.counter_reload;
        let v: i32 = self.volume as i32 + self.step as i32;
        self.volume = if v < 0 {
            0
        } else if v > 0x7FFF {
            0x7FFF
        } else {
            v as u16
        };
        self.calc();
        if self.phase == AdsrPhase::Attack && self.volume >= 0x7FFF {
            self.load_decay();
        } else if self.phase == AdsrPhase::Decay && self.volume <= self.sustain_level {
            self.load_sustain();
        } else if self.phase == AdsrPhase::Release && self.volume == 0 {
            self.phase = AdsrPhase::Off;
        }
    }

    /// Starts the attack phase from silence.
    pub fn key_on(&mut self)
        ensures
            *final(self) == old(self).attack_loaded(),
            final(self).wf(),
    {
        self.load_attack();
    }

    /// Starts the release phase from the current volume.
    pub fn key_off(&mut self)
        ensures
            *final(self) == old(self).release_loaded(),
            final(self).wf(),
    {
        self.load_release();
    }

    /// The sustain level is (field + 1) * 800h, at most 7FFFh.
    pub fn update_sustain_level(&mut self)
        requires
            old(self).wf(),
        ensures
            final(self).wf(),
            *final(self) == (AdsrEnvelope {
                sustain_level: (if (sustain_level_field(old(self).register) + 1) * 0x800 > 0x7FFF {
                    0x7FFF
                } else {
                    (sustain_level_field(old(self).register) + 1) * 0x800
                }) as u16,
                ..*old(self)
            }),
    {
        proof { lemma_fields(self.register); }
        let level: u16 = ((self.register & 0xF) as u16 + 1) * 0x800;
        self.sustain_level = if level > 0x7FFF { 0x7FFF } else { level };
    }
}

pub proof fn lemma_pow2_mono(a: int, b: int)
    requires
        0 <= a <= b,
    ensures
        1 <= pow2(a) <= pow2(b),
    decreases b,
{
    if b > a {
        lemma_pow2_mono(a, b - 1);
    } else if a > 0 {
        lemma_pow2_mono(0, a - 1);
    }
}

pub proof fn lemma_pow2_bound(k: int)
    requires
        0 <= k <= 31,
    ensures
        1 <= pow2(k) <= 0x8000_0000,
        k <= 11 ==> pow2(k) <= 0x800,
        k <= 12 ==> pow2(k) <= 0x1000,
        k <= 20 ==> pow2(k) <= 0x10_0000,
{
    reveal_with_fuel(pow2, 32);
    assert(pow2(11) == 0x800 && pow2(12) == 0x1000 && pow2(20) == 0x10_0000 && pow2(31) == 0x8000_0000);
    if k <= 12 {
        lemma_pow2_mono(k, 12);
    }
    lemma_pow2_mono(k, 31);
    if k <= 11 {
        lemma_pow2_mono(k, 11);
    }
    if k <= 20 {
        lemma_pow2_mono(k, 20);
    }
}

proof fn lemma_step_bounds(e: AdsrEnvelope)
    requires
        e.step_index < 4,
        e.shift < 32,
    ensures
        -0x4000 <= base_step(e.decreasing, e.step_index) * pow2(
            if e.shift < 11 { 11 - e.shift } else { 0 },
        ) <= 0x3800,
        e.decreasing ==> base_step(e.decreasing, e.step_index) * pow2(
            if e.shift < 11 { 11 - e.shift } else { 0 },
        ) <= 0,
{
    let k: int = if e.shift < 11 { 11 - e.shift } else { 0 };
    lemma_pow2_bound(k);
    let b = base_step(e.decreasing, e.step_index);
    let p = pow2(k);
    assert(-0x4000 <= b * p <= 0x3800 && (b <= 0 ==> b * p <= 0)) by (nonlinear_arith)
        requires -8 <= b <= 7, 1 <= p <= 0x800;
}

/// Floor division by 4 (an arithmetic shift right by 2).
fn div_floor4(v: i32) -> (r: i32)
    ensures
        r == v / 4,
{
    if v >= 0 {
        v / 4
    } else {
        let m: i32 = -(v + 1);
        proof {
            assert((-(m as int) - 1) / 4 == -((m as int) / 4) - 1) by (nonlinear_arith)
                requires m >= 0;
        }
        -(m / 4) - 1
    }
}

/// Floor division by 8000h (an arithmetic shift right by 15).
pub(crate) fn div_floor_8000(v: i32) -> (r: i32)
    ensures
        r == v / 0x8000,
{
    if v >= 0 {
        v / 0x8000
    } else {
        let m: i32 = -(v + 1);
        proof {
            assert((-(m as int) - 1) / 0x8000 == -((m as int) / 0x8000) - 1) by (nonlinear_arith)
                requires m >= 0;
        }
        -(m / 0x8000) - 1
    }
}

proof fn lemma_next_step_sign(e: AdsrEnvelope)
    requires
        e.step_index < 4,
        e.shift < 32,
        e.volume <= 0x7FFF,
    ensures
        e.decreasing ==> -0x4000 <= e.next_step() <= 0,
        !e.decreasing ==> 0 <= e.next_step() <= 0x3800,
{
    lemma_step_bounds(e);
    let k: int = if e.shift < 11 { 11 - e.shift } else { 0 };
    lemma_pow2_bound(k);
    let s0 = base_step(e.decreasing, e.step_index) * pow2(k);
    if !e.decreasing {
        assert(s0 >= 0) by (nonlinear_arith)
            requires s0 == base_step(e.decreasing, e.step_index) * pow2(k), base_step(e.decreasing, e.step_index) >= 4, pow2(k) >= 1;
    }
    if e.exponential && e.decreasing {
        let v = e.volume as int;
        assert(-0x4000 <= (s0 * v) / 0x8000 <= 0) by (nonlinear_arith)
            requires -0x4000 <= s0 <= 0, 0 <= v <= 0x7FFF;
    }
}

/// In the release phase a tick never raises the volume: the envelope keeps
/// decreasing until the volume reaches zero, and then the voice is off.
pub proof fn lemma_release_never_rises(e: AdsrEnvelope)
    requires
        e.phase == AdsrPhase::Release,
        e.decreasing,
        e.step <= 0,
        e.step_index < 4,
        e.shift < 32,
        e.volume <= 0x7FFF,
    ensures
        ({
            let r = e.ticked();
            &&& r.volume <= e.volume
            &&& (r.phase == AdsrPhase::Release && r.decreasing && r.step <= 0 && r.step_index == e.step_index
                && r.shift == e.shift) || (r.phase == AdsrPhase::Off && r.volume == 0)
        }),
{
    if e.counter <= 1 {
        let e1 = AdsrEnvelope {
            counter: e.counter_reload,
            volume: clamp(e.volume + e.step, 0, 0x7FFF) as u16,
            ..e
        };
        lemma_next_step_sign(e1);
    }
}

/// In the attack phase a tick never lowers the volume: the envelope keeps
/// rising until it reaches 7FFFh, where the decay phase starts at 7FFFh.
pub proof fn lemma_attack_never_falls(e: AdsrEnvelope)
    requires
        e.phase == AdsrPhase::Attack,
        !e.decreasing,
        e.step >= 0,
        e.step_index < 4,
        e.shift < 32,
        e.volume <= 0x7FFF,
    ensures
        ({
            let r = e.ticked();
            &&& r.volume >= e.volume
            &&& (r.phase == AdsrPhase::Attack && !r.decreasing && r.step >= 0 && r.step_index == e.step_index
                && r.shift == e.shift) || (r.phase == AdsrPhase::Decay && r.volume == 0x7FFF)
        }),
{
    if e.counter <= 1 {
        let e1 = AdsrEnvelope {
            counter: e.counter_reload,
            volume: clamp(e.volume + e.step, 0, 0x7FFF) as u16,
            ..e
        };
        lemma_next_step_sign(e1);
    }
}

} // verus!
