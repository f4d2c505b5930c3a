use vstd::prelude::*;

use crate::cpu::instrs::trunc_div;
use crate::gte::math::clamp;
use crate::spu::envelope::pow2;
use crate::spu::voice::{signed4bit, spec_signed4bit};

verus! {

/// The two most recent decoded samples of an XA-ADPCM channel.
#[derive(Clone, Copy, PartialEq, Eq, Structural, Debug)]
pub struct AdpcmHistory {
    pub old: i16,
    pub older: i16,
}

impl AdpcmHistory {
    pub fn new() -> (h: Self)
        ensures
            h.old == 0 && h.older == 0,
    {
        AdpcmHistory { old: 0, older: 0 }
    }
}

/// The XA-ADPCM prediction filters (filters 0 to 3), in 64ths.
pub open spec fn xa_pos(f: int) -> int {
    if f == 1 {
        60
    } else if f == 2 {
        115
    } else if f == 3 {
        98
    } else {
        0
    }
}

pub open spec fn xa_neg(f: int) -> int {
    if f == 2 {
        -52
    } else if f == 3 {
        -55
    } else {
        0
    }
}

/// The parameter byte of block `blk` (0-3) and nibble `nib` (0-1) of a
/// 128-byte sound group.
pub open spec fn xa_param(section: Seq<u8>, blk: int, nib: int) -> u8 {
    section[4 + blk * 2 + nib]
}

/// Sample `i` of block `blk`, nibble `nib`, given the two before it.
pub open spec fn xa_sample(section: Seq<u8>, blk: int, nib: int, i: int, old: i16, older: i16) -> i16 {
    let param = xa_param(section, blk, nib);
    let raw = param % 16;
    let shift = 12 - (if raw > 12 { 9 } else { raw as int });
    let filter = (param / 16) % 4;
    let byte = section[16 + blk + i * 4];
    let nibble = (if nib == 0 { byte % 16 } else { byte / 16 }) as u8;
    let s = spec_signed4bit(nibble) * pow2(shift) + trunc_div(
        old * xa_pos(filter as int) + older * xa_neg(filter as int) + 32,
        64,
    );
    clamp(s, -0x8000, 0x7FFF) as i16
}

/// The history after the first `n` samples of a block.
pub open spec fn xa_history(section: Seq<u8>, blk: int, nib: int, n: nat, h: AdpcmHistory) -> AdpcmHistory
    decreases n,
{
    if n == 0 {
        h
    } else {
        let p = xa_history(section, blk, nib, (n - 1) as nat, h);
        AdpcmHistory { old: xa_sample(section, blk, nib, n - 1, p.old, p.older), older: p.old }
    }
}

/// The 28 samples of a block.
pub open spec fn xa_block(section: Seq<u8>, blk: int, nib: int, h: AdpcmHistory) -> Seq<i16> {
    Seq::new(28, |i: int| xa_history(section, blk, nib, (i + 1) as nat, h).old)
}

/// Decodes the 28 samples of block `blk` (0-3) and nibble `nib` (0 or 1) of
/// a 128-byte sound group, continuing from `history`.
pub fn decode_28_nibbles(section: &[u8], blk: usize, nib: usize, history: &mut AdpcmHistory) -> (samples: [i16; 28])
    requires
        section@.len() >= 128,
        blk < 4,
        nib < 2,
    ensures
        samples@ == xa_block(section@, blk as int, nib as int, *old(history)),
        *final(history) == xa_history(section@, blk as int, nib as int, 28, *old(history)),
{
    let param = section[4 + blk * 2 + nib];
    let raw = param % 16;
    let shift: u32 = 12 - if raw > 12 { 9 } else { raw as u32 };
    let filter = (param / 16) % 4;
    let (f0, f1): (i32, i32) = if filter == 1 {
        (60, 0)
    } else if filter == 2 {
        (115, -52)
    } else if filter == 3 {
        (98, -55)
    } else {
        (0, 0)
    };
    let mut mul: i32 = 1;
    let mut j: u32 = 0;
    while j < shift
        invariant
            j <= shift <= 12,
            mul == pow2(j as int),
        decreases shift - j,
    {
        proof { crate::spu::envelope::lemma_pow2_bound(j as int + 1); }
        mul = mul * 2;
        j = j + 1;
    }
    proof { crate::spu::envelope::lemma_pow2_bound(shift as int); }
    let mut samples = [0i16; 28];
    let ghost h0 = *history;
    for i in 0..28usize
        invariant
            section@.len() >= 128,
            blk < 4,
            nib < 2,
            param == xa_param(section@, blk as int, nib as int),
            mul == pow2(12 - (if param % 16 > 12 { 9 } else { (param % 16) as int })),
            1 <= mul <= 0x1000,
            f0 == xa_pos(((param / 16) % 4) as int),
            f1 == xa_neg(((param / 16) % 4) as int),
            *history == xa_history(section@, blk as int, nib as int, i as nat, h0),
            forall|k: int| 0 <= k < i ==> #[trigger] samples@[k] == xa_history(section@, blk as int, nib as int, (k + 1) as nat, h0).old,
    {
        let old = history.old as i32;
        let older = history.older as i32;
        let byte = section[16 + blk + i * 4];
        let nibble = if nib == 0 { byte % 16 } else { byte / 16 };
        let t = signed4bit(nibble);
        proof {
            assert(-0x8000 * 115 <= old * f0 <= 0x8000 * 115) by (nonlinear_arith)
                requires -0x8000 <= old < 0x8000, 0 <= f0 <= 115;
            assert(-0x8000 * 55 <= older * f1 <= 0x8000 * 55) by (nonlinear_arith)
                requires -0x8000 <= older < 0x8000, -55 <= f1 <= 0;
            assert(-0x8000 <= t * mul <= 0x8000) by (nonlinear_arith)
                requires -8 <= t < 8, 1 <= mul <= 0x1000;
        }
        let p = crate::mdec::util::div_trunc(old * f0 + older * f1 + 32, 64);
        let v = t * mul + p;
        let s: i16 = if v < -0x8000 {
            -0x8000
        } else if v > 0x7FFF {
            0x7FFF
        } else {
            v as i16
        };
        history.older = history.old;
        history.old = s;
        samples[i] = s;
    }
    proof {
        assert(samples@ =~= xa_block(section@, blk as int, nib as int, h0));
    }
    samples
}

/// Channel layout and sample rate of an XA audio sector, from its coding
/// byte (bits 1-0 channels, 3-2 rate, 5-4 bits per sample).
pub open spec fn header_ok(coding: u8) -> bool {
    &&& (coding / 16) % 4 == 0
    &&& (coding / 4) % 4 < 2
    &&& coding % 4 < 2
}

pub open spec fn header_stereo(coding: u8) -> bool {
    coding % 4 == 1
}

pub open spec fn header_18900(coding: u8) -> bool {
    (coding / 4) % 4 == 1
}

/// The histories as (left, right, mono).
pub type Histories = (AdpcmHistory, AdpcmHistory, AdpcmHistory);

/// The native samples of sound group block number `g` (section `g / 4`,
/// block `g % 4`) of a sector, and the histories after it: in stereo the
/// left and right samples interleaved, in mono the two nibble halves one
/// after the other, both from the mono history.
pub open spec fn xa_group(sector: Seq<u8>, g: int, stereo: bool, h: Histories) -> (Seq<i16>, Histories) {
    let section = sector.subrange(0x18 + (g / 4) * 128, 0x18 + (g / 4) * 128 + 128);
    let blk = g % 4;
    if stereo {
        let l = xa_block(section, blk, 0, h.0);
        let r = xa_block(section, blk, 1, h.1);
        (
            Seq::new(56, |i: int| if i % 2 == 0 { l[i / 2] } else { r[i / 2] }),
            (xa_history(section, blk, 0, 28, h.0), xa_history(section, blk, 1, 28, h.1), h.2),
        )
    } else {
        let m1 = xa_block(section, blk, 0, h.2);
        let h2 = xa_history(section, blk, 0, 28, h.2);
        let m2 = xa_block(section, blk, 1, h2);
        (m1 + m2, (h.0, h.1, xa_history(section, blk, 1, 28, h2)))
    }
}

/// The native samples of the first `n` sound group blocks of a sector.
pub open spec fn xa_groups(sector: Seq<u8>, n: nat, stereo: bool, h: Histories) -> (Seq<i16>, Histories)
    decreases n,
{
    if n == 0 {
        (Seq::<i16>::empty(), h)
    } else {
        let p = xa_groups(sector, (n - 1) as nat, stereo, h);
        let q = xa_group(sector, n - 1, stereo, p.1);
        (p.0 + q.0, q.1)
    }
}

/// The native samples of an XA audio sector, before resampling to 44.1 kHz.
pub struct XaSamples {
    pub stereo: bool,
    pub is_18900: bool,
    /// In stereo the left and right samples interleaved.
    pub samples: Vec<i16>,
}

/// A resampler from an XA rate to 44.1 kHz: it keeps the last four input
/// samples and the phase, in sevenths of an input sample, of the next
/// output sample.
#[derive(Clone, Copy)]
pub struct CubicResampler {
    pub history: [i16; 4],
    pub phase: usize,
    /// 3 for 18.9 kHz, 6 for 37.8 kHz.
    pub step: usize,
}

impl CubicResampler {
    pub open spec fn wf(&self) -> bool {
        &&& self.phase < 7
        &&& self.step == 3 || self.step == 6
    }

    pub fn new(is_18900: bool) -> (r: Self)
        ensures
            r.wf(),
            r.history@ == seq![0i16, 0, 0, 0],
            r.phase == 0,
            r.step == (if is_18900 { 3usize } else { 6 }),
    {
        let r = CubicResampler { history: [0; 4], phase: 0, step: if is_18900 { 3 } else { 6 } };
        assert(r.history@ =~= seq![0i16, 0, 0, 0]);
        r
    }

    /// Takes one input sample into the history, and gives the phases (in
    /// sevenths) of the output samples that fall before the next input:
    /// the current phase and each step after it below 7.
    pub fn push_sample(&mut self, sample: i16) -> (phases: Vec<usize>)
        requires
            old(self).wf(),
        ensures
            final(self).wf(),
            final(self).step == old(self).step,
            final(self).history@ == old(self).history@.subrange(1, 4).push(sample),
            1 <= phases@.len() <= 3,
            forall|k: int| 0 <= k < phases@.len() ==> #[trigger] phases@[k] == old(self).phase + k * old(self).step,
            old(self).phase + phases@.len() * old(self).step >= 7,
            final(self).phase == old(self).phase + phases@.len() * old(self).step - 7,
    {
        self.history = [self.history[1], self.history[2], self.history[3], sample];
        proof {
            assert(self.history@ =~= old(self).history@.subrange(1, 4).push(sample));
        }
        let mut phases: Vec<usize> = Vec::new();
        let ghost p0 = old(self).phase as int;
        while self.phase < 7
            invariant
                self.step == old(self).step,
                self.step == 3 || self.step == 6,
                old(self).phase < 7,
                p0 == old(self).phase,
                self.phase == old(self).phase + phases@.len() * self.step,
                self.phase < 7 + self.step,
                phases@.len() <= 3,
                phases@.len() > 0 ==> self.phase >= 3,
                self.history@ == old(self).history@.subrange(1, 4).push(sample),
                forall|k: int| 0 <= k < phases@.len() ==> #[trigger] phases@[k] == old(self).phase + k * self.step,
            decreases 7 + self.step - self.phase,
        {
            proof {
                let n = phases@.len() as int;
                let st = self.step as int;
                let ph = self.phase as int;
                assert(n < 3) by (nonlinear_arith)
                    requires
                        ph == p0 + n * st,
                        ph < 7,
                        st >= 3,
                        p0 >= 0,
                        n >= 0;
            }
            proof {
                let n = phases@.len() as int;
                let st = self.step as int;
                assert(p0 + (n + 1) * st == p0 + n * st + st) by (nonlinear_arith);
            }
            phases.push(self.phase);
            self.phase = self.phase + self.step;
        }
        self.phase = self.phase - 7;
        phases
    }
}

/// Resets a resampler for a rate it was not set up for.
fn prepare_resampler(r: &mut CubicResampler, is_18900: bool)
    requires
        old(r).wf(),
    ensures
        final(r).wf(),
        final(r).step == (if is_18900 { 3usize } else { 6 }),
        old(r).step == (if is_18900 { 3usize } else { 6 }) ==> *final(r) == *old(r),
        old(r).step != (if is_18900 { 3usize } else { 6 }) ==> final(r).phase == 0 && final(r).history@ == seq![0i16, 0, 0, 0],
{
    let expected: usize = if is_18900 { 3 } else { 6 };
    if r.step != expected {
        *r = CubicResampler::new(is_18900);
    }
}

/// Decodes the sound groups of an XA-ADPCM audio sector (4-bit samples,
/// a known rate and channel layout): 18 groups of 128 bytes from byte 18h,
/// each of four blocks. The resamplers are reset for the sector's rate;
/// the native samples are returned for resampling.
pub fn decode_sector(
    sector: &[u8],
    history: &mut [AdpcmHistory; 3],
    resamplers: &mut [CubicResampler; 3],
) -> (r: XaSamples)
    requires
        sector@.len() >= 0x92C,
        header_ok(sector@[0x13]),
        forall|i: int| 0 <= i < 3 ==> #[trigger] old(resamplers)@[i].wf(),
    ensures
        r.stereo == header_stereo(sector@[0x13]),
        r.is_18900 == header_18900(sector@[0x13]),
        ({
            let h = (old(history)@[0], old(history)@[1], old(history)@[2]);
            let d = xa_groups(sector@, 72, r.stereo, h);
            &&& r.samples@ == d.0
            &&& (final(history)@[0], final(history)@[1], final(history)@[2]) == d.1
        }),
        forall|i: int| 0 <= i < 3 ==> #[trigger] final(resamplers)@[i].wf(),
        forall|i: int|
            0 <= i < 3 ==> #[trigger] final(resamplers)@[i].step == (if r.is_18900 { 3usize } else { 6 }),
        forall|i: int|
            0 <= i < 3 ==> (old(resamplers)@[i].step == (if r.is_18900 { 3usize } else { 6 }) ==> #[trigger] final(resamplers)@[i]
                == old(resamplers)@[i]),
{
    let coding = sector[0x13];
    let stereo = coding % 4 == 1;
    let is_18900 = (coding / 4) % 4 == 1;
    let mut r0 = resamplers[0];
    prepare_resampler(&mut r0, is_18900);
    resamplers[0] = r0;
    let mut r1 = resamplers[1];
    prepare_resampler(&mut r1, is_18900);
    resamplers[1] = r1;
    let mut r2 = resamplers[2];
    prepare_resampler(&mut r2, is_18900);
    resamplers[2] = r2;
    let ghost h0 = (history@[0], history@[1], history@[2]);
    let mut samples: Vec<i16> = Vec::new();
    for g in 0..72usize
        invariant
            sector@.len() >= 0x92C,
            samples@ == xa_groups(sector@, g as nat, stereo, h0).0,
            (history@[0], history@[1], history@[2]) == xa_groups(sector@, g as nat, stereo, h0).1,
    {
        let start = 0x18 + (g / 4) * 128;
        let section = sub_slice(sector, start);
        let blk = g % 4;
        let ghost before = samples@;
        if stereo {
            let mut hl = history[0];
            let mut hr = history[1];
            let l = decode_28_nibbles(section.as_slice(), blk, 0, &mut hl);
            let rr = decode_28_nibbles(section.as_slice(), blk, 1, &mut hr);
            history[0] = hl;
            history[1] = hr;
            for i in 0..28usize
                invariant
                    samples@.len() == before.len() + 2 * i,
                    forall|k: int| 0 <= k < before.len() ==> #[trigger] samples@[k] == before[k],
                    forall|k: int|
                        0 <= k < 2 * i ==> #[trigger] samples@[before.len() + k] == (if k % 2 == 0 {
                            l@[k / 2]
                        } else {
                            rr@[k / 2]
                        }),
            {
                samples.push(l[i]);
                samples.push(rr[i]);
            }
            proof {
                let q = xa_group(sector@, g as int, stereo, xa_groups(sector@, g as nat, stereo, h0).1);
                assert(section@ =~= sector@.subrange(0x18 + (g as int / 4) * 128, 0x18 + (g as int / 4) * 128 + 128));
                assert forall|j: int| before.len() <= j < samples@.len() implies samples@[j] == q.0[j - before.len()] by {
                    let k = j - before.len();
                    assert(samples@[before.len() + k] == (if k % 2 == 0 { l@[k / 2] } else { rr@[k / 2] }));
                }
                assert(samples@ =~= before + q.0);
            }
        } else {
            let mut hm = history[2];
            let m1 = decode_28_nibbles(section.as_slice(), blk, 0, &mut hm);
            let m2 = decode_28_nibbles(section.as_slice(), blk, 1, &mut hm);
            history[2] = hm;
            for i in 0..28usize
                invariant
                    samples@.len() == before.len() + i,
                    forall|k: int| 0 <= k < before.len() ==> #[trigger] samples@[k] == before[k],
                    forall|k: int| 0 <= k < i ==> #[trigger] samples@[before.len() + k] == m1@[k],
            {
                samples.push(m1[i]);
            }
            for i in 0..28usize
                invariant
                    samples@.len() == before.len() + 28 + i,
                    forall|k: int| 0 <= k < before.len() ==> #[trigger] samples@[k] == before[k],
                    forall|k: int| 0 <= k < 28 ==> #[trigger] samples@[before.len() + k] == m1@[k],
                    forall|k: int| 0 <= k < i ==> #[trigger] samples@[before.len() + 28 + k] == m2@[k],
            {
                samples.push(m2[i]);
            }
            proof {
                let q = xa_group(sector@, g as int, stereo, xa_groups(sector@, g as nat, stereo, h0).1);
                assert(section@ =~= sector@.subrange(0x18 + (g as int / 4) * 128, 0x18 + (g as int / 4) * 128 + 128));
                assert forall|j: int| before.len() <= j < samples@.len() implies samples@[j] == q.0[j - before.len()] by {
                    let k = j - before.len();
                    if k < 28 {
                        assert(samples@[before.len() + k] == m1@[k]);
                    } else {
                        assert(samples@[before.len() + 28 + (k - 28)] == m2@[k - 28]);
                    }
                }
                assert(samples@ =~= before + q.0);
            }
        }
    }
    XaSamples { stereo, is_18900, samples }
}

/// The 128 bytes of `sector` from `start` on.
fn sub_slice(sector: &[u8], start: usize) -> (r: Vec<u8>)
    requires
        start + 128 <= sector@.len(),
    ensures
        r@ == sector@.subrange(start as int, start + 128),
{
    let len = sector.len();
    let mut r: Vec<u8> = Vec::new();
    for i in 0..128usize
        invariant
            len == sector@.len(),
            start + 128 <= sector@.len(),
            r@ == sector@.subrange(start as int, start + i),
    {
        r.push(sector[start + i]);
        proof {
            assert(sector@.subrange(start as int, start + i + 1) =~= sector@.subrange(start as int, start + i).push(sector@[start + i]));
        }
    }
    r
}

} // verus!
