use vstd::prelude::*;

use crate::cpu::instrs::trunc_div;
use crate::gte::math::clamp;
use crate::spu::envelope::{pow2, AdsrEnvelope};

verus! {

/// Size in bytes of one ADPCM block: a 2-byte header and 28 4-bit samples.
pub const BLOCK_SIZE: u32 = 16;

/// Size in bytes of the sound RAM.
pub const SOUND_RAM_SIZE: usize = 0x8_0000;

/// The 4-bit two's complement value in the low bits of `v`.
pub open spec fn spec_signed4bit(v: u8) -> int {
    let low = v % 16;
    if low >= 8 { low - 16 } else { low as int }
}

/// Sign-extends the low 4 bits of `v`.
pub fn signed4bit(v: u8) -> (r: i32)
    ensures
        r == spec_signed4bit(v),
{
    let low = v % 16;
    if low >= 8 {
        low as i32 - 16
    } else {
        low as i32
    }
}

/// The ADPCM prediction filters: the weights of the previous sample and of
/// the one before it, in 64ths (filters 5 to 7 weigh nothing).
pub open spec fn filter_pos(f: int) -> int {
    if f == 1 {
        60
    } else if f == 2 {
        115
    } else if f == 3 {
        98
    } else if f == 4 {
        122
    } else {
        0
    }
}

pub open spec fn filter_neg(f: int) -> int {
    if f == 2 {
        -52
    } else if f == 3 {
        -55
    } else if f == 4 {
        -60
    } else {
        0
    }
}

fn filter_weights(f: u8) -> (r: (i32, i32))
    ensures
        r.0 == filter_pos(f as int),
        r.1 == filter_neg(f as int),
{
    if f == 1 {
        (60, 0)
    } else if f == 2 {
        (115, -52)
    } else if f == 3 {
        (98, -55)
    } else if f == 4 {
        (122, -60)
    } else {
        (0, 0)
    }
}

/// The shift of an ADPCM block: 12 minus its header's low nibble, where a
/// nibble above 12 counts as 9.
pub open spec fn block_shift(header: u8) -> int {
    let s = header % 16;
    12 - (if s > 12 { 9 } else { s as int })
}

/// Sample `i` of an ADPCM block, given the two samples before it.
pub open spec fn adpcm_sample(block: Seq<u8>, i: int, old: i16, older: i16) -> i16 {
    let filter = (block[0] / 16) % 8;
    let nibble = (if i % 2 == 0 { block[2 + i / 2] % 16 } else { block[2 + i / 2] / 16 }) as u8;
    let t = spec_signed4bit(nibble);
    let s = t * pow2(block_shift(block[0])) + trunc_div(
        old * filter_pos(filter as int) + older * filter_neg(filter as int) + 32,
        64,
    );
    clamp(s, -0x8000, 0x7FFF) as i16
}

/// The two most recent samples after decoding the first `n` samples of a
/// block that follows `old0` and `older0`.
pub open spec fn adpcm_history(block: Seq<u8>, n: nat, old0: i16, older0: i16) -> (i16, i16)
    decreases n,
{
    if n == 0 {
        (old0, older0)
    } else {
        let h = adpcm_history(block, (n - 1) as nat, old0, older0);
        (adpcm_sample(block, n - 1, h.0, h.1), h.0)
    }
}

#[derive(Clone, Copy)]
pub struct Voice {
    pub volume_l: i16,
    pub volume_r: i16,
    pub sample_rate: u16,
    /// The sample start address; it is copied to the current address upon
    /// key on.
    pub start_address: u32,
    /// Where a block with the loop-end flag sends the current address; a
    /// block with the loop-start flag sets it, unless it was written.
    pub repeat_address: u32,
    pub current_address: u32,
    pub keyed_off: bool,
    pub decode_buffer: [i16; 28],
    pub current_buffer_idx: usize,
    pub adpcm_old_sample: i16,
    pub adpcm_older_sample: i16,
    pub force_loop_index: bool,
    pub pitch_counter: u16,
    pub current_sample: i16,
    pub envelope: AdsrEnvelope,
    pub pitch_modulation_enabled: bool,
    pub noise_enabled: bool,
    pub reverb_enabled: bool,
}

impl Voice {
    pub open spec fn wf(&self) -> bool {
        &&& self.current_buffer_idx < 28
        &&& self.pitch_counter < 0x1000
        &&& self.envelope.wf()
    }

    /// The 16 bytes of the block at the current address.
    pub open spec fn current_block(&self, ram: Seq<u8>) -> Seq<u8> {
        ram.subrange(self.current_address as int, self.current_address + 16)
    }

    /// The voice after decoding the block at its current address and moving
    /// on: to the repeat address after a loop-end block, else to the next
    /// block.
    pub open spec fn next_block_decoded(self, ram: Seq<u8>) -> Self {
        let block = self.current_block(ram);
        let flags = block[1];
        let loop_end = flags % 2 == 1;
        let loop_start = (flags / 4) % 2 == 1;
        let repeat = if loop_start && !self.force_loop_index {
            self.current_address
        } else {
            self.repeat_address
        };
        let h = adpcm_history(block, 28, self.adpcm_old_sample, self.adpcm_older_sample);
        Voice {
            decode_buffer: self.decode_buffer,
            adpcm_old_sample: h.0,
            adpcm_older_sample: h.1,
            repeat_address: repeat,
            current_address: if loop_end { repeat } else { (self.current_address + 16) as u32 },
            ..self
        }
    }

    /// The decode buffer holds sample `i` of `block` at index `i`.
    pub open spec fn buffer_holds(buffer: Seq<i16>, block: Seq<u8>, old0: i16, older0: i16) -> bool {
        &&& buffer.len() == 28
        &&& forall|i: int|
            0 <= i < 28 ==> #[trigger] buffer[i] == adpcm_history(block, (i + 1) as nat, old0, older0).0
    }

    /// A silent voice at power-on.
    pub fn new() -> (v: Self)
        ensures
            v.wf(),
            v.sample_rate == 0,
            v.start_address == 0,
            v.repeat_address == 0,
            v.current_address == 0,
    {
        Voice {
            volume_l: 0,
            volume_r: 0,
            sample_rate: 0,
            start_address: 0,
            repeat_address: 0,
            current_address: 0,
            keyed_off: false,
            decode_buffer: [0; 28],
            current_buffer_idx: 0,
            adpcm_old_sample: 0,
            adpcm_older_sample: 0,
            force_loop_index: false,
            pitch_counter: 0,
            current_sample: 0,
            envelope: AdsrEnvelope::new(),
            pitch_modulation_enabled: false,
            noise_enabled: false,
            reverb_enabled: false,
        }
    }

    /// Sets the sample rate (0 stops the voice, 4000h is the fastest).
    pub fn set_sample_rate(&mut self, val: u16)
        ensures
            *final(self) == (Voice { sample_rate: val, ..*old(self) }),
    {
        self.sample_rate = val;
    }

    /// Sets the start address, given in units of 8 bytes.
    pub fn set_start_address(&mut self, val: u16)
        ensures
            *final(self) == (Voice { start_address: (val * 8) as u32, ..*old(self) }),
    {
        self.start_address = val as u32 * 8;
    }

    /// Sets the repeat address, given in units of 8 bytes; loop-start blocks
    /// no longer move it.
    pub fn set_repeat_address(&mut self, val: u16)
        ensures
            *final(self) == (Voice {
                repeat_address: (val * 8) as u32,
                force_loop_index: true,
                ..*old(self)
            }),
    {
        self.repeat_address = val as u32 * 8;
        self.force_loop_index = true;
    }

    /// Writes the lower or upper half of the ADSR configuration register;
    /// the sustain level follows the new setting.
    pub fn set_adsr(&mut self, high: bool, val: u16)
        requires
            old(self).wf(),
        ensures
            final(self).wf(),
            final(self).envelope.register == crate::spu::half_written(old(self).envelope.register, high, val),
            final(self).envelope == (AdsrEnvelope {
                register: final(self).envelope.register,
                sustain_level: final(self).envelope.sustain_level,
                ..old(self).envelope
            }),
            final(self).envelope.sustain_level == (if (crate::spu::envelope::sustain_level_field(final(self).envelope.register) + 1) * 0x800 > 0x7FFF {
                0x7FFF
            } else {
                (crate::spu::envelope::sustain_level_field(final(self).envelope.register) + 1) * 0x800
            }),
            *final(self) == (Voice { envelope: final(self).envelope, ..*old(self) }),
    {
        crate::spu::write_half(&mut self.envelope.register, high, val);
        self.envelope.update_sustain_level();
    }

    /// Stops the voice from being keyed on.
    pub fn key_off(&mut self)
        ensures
            *final(self) == (Voice { keyed_off: true, ..*old(self) }),
    {
        self.keyed_off = true;
    }

    fn decode_adpcm_block(&mut self, block: &[u8])
        requires
            block@.len() == 16,
        ensures
            Self::buffer_holds(
                final(self).decode_buffer@,
                block@,
                old(self).adpcm_old_sample,
                old(self).adpcm_older_sample,
            ),
            (final(self).adpcm_old_sample, final(self).adpcm_older_sample) == adpcm_history(
                block@,
                28,
                old(self).adpcm_old_sample,
                old(self).adpcm_older_sample,
            ),
            *final(self) == (Voice {
                decode_buffer: final(self).decode_buffer,
                adpcm_old_sample: final(self).adpcm_old_sample,
                adpcm_older_sample: final(self).adpcm_older_sample,
                ..*old(self)
            }),
    {
        let header = block[0];
        let s = header % 16;
        let shift: u32 = 12 - if s > 12 { 9 } else { s as u32 };
        let filter = (header / 16) % 8;
        let (f0, f1) = filter_weights(filter);
        let mut mul: i32 = 1;
        let mut j: u32 = 0;
        while j < shift
            invariant
                j <= shift <= 12,
                mul == pow2(j as int),
            decreases shift - j,
        {
            proof { crate::spu::envelope::lemma_pow2_bound(j as int + 1); }
            mul = mul * 2;
            j = j + 1;
        }
        proof {
            crate::spu::envelope::lemma_pow2_bound(shift as int);
        }
        let ghost old0 = self.adpcm_old_sample;
        let ghost older0 = self.adpcm_older_sample;
        for i in 0..28usize
            invariant
                block@.len() == 16,
                mul == pow2(block_shift(block@[0])),
                1 <= mul <= 0x1000,
                f0 == filter_pos(((block@[0] / 16) % 8) as int),
                f1 == filter_neg(((block@[0] / 16) % 8) as int),
                (self.adpcm_old_sample, self.adpcm_older_sample) == adpcm_history(block@, i as nat, old0, older0),
                forall|k: int|
                    0 <= k < i ==> #[trigger] self.decode_buffer@[k] == adpcm_history(
                        block@,
                        (k + 1) as nat,
                        old0,
                        older0,
                    ).0,
                *self == (Voice {
                    decode_buffer: self.decode_buffer,
                    adpcm_old_sample: self.adpcm_old_sample,
                    adpcm_older_sample: self.adpcm_older_sample,
                    ..*old(self)
                }),
        {
            let old = self.adpcm_old_sample as i32;
            let older = self.adpcm_older_sample as i32;
            let byte = block[2 + i / 2];
            let nibble = if i % 2 == 0 { byte % 16 } else { byte / 16 };
            let t = signed4bit(nibble);
            proof {
                assert(-0x8000 * 122 <= old * f0 <= 0x8000 * 122) by (nonlinear_arith)
                    requires -0x8000 <= old < 0x8000, 0 <= f0 <= 122;
                assert(-0x8000 * 60 <= older * f1 <= 0x8000 * 60) by (nonlinear_arith)
                    requires -0x8000 <= older < 0x8000, -60 <= f1 <= 0;
                assert(-0x8000 <= t * mul <= 0x8000) by (nonlinear_arith)
                    requires -8 <= t < 8, 1 <= mul <= 0x1000;
            }
            let p = crate::mdec::util::div_trunc(old * f0 + older * f1 + 32, 64);
            let v = t * mul + p;
            let sample: i16 = if v < -0x8000 {
                -0x8000
            } else if v > 0x7FFF {
                0x7FFF
            } else {
                v as i16
            };
            self.adpcm_older_sample = self.adpcm_old_sample;
            self.adpcm_old_sample = sample;
            self.decode_buffer[i] = sample;
        }
    }

    fn decode_next_block(&mut self, sound_ram: &[u8])
        requires
            old(self).current_address + 16 <= sound_ram@.len() <= SOUND_RAM_SIZE,
        ensures
            Self::buffer_holds(
                final(self).decode_buffer@,
                old(self).current_block(sound_ram@),
                old(self).adpcm_old_sample,
                old(self).adpcm_older_sample,
            ),
            *final(self) == (Voice {
                decode_buffer: final(self).decode_buffer,
                ..old(self).next_block_decoded(sound_ram@)
            }),
    {
        let addr = self.current_address as usize;
        let block = slice_of(sound_ram, addr);
        self.decode_adpcm_block(block.as_slice());
        let flags = block[1];
        let loop_end = flags % 2 == 1;
        let loop_start = (flags / 4) % 2 == 1;
        if loop_start && !self.force_loop_index {
            self.repeat_address = self.current_address;
        }
        if loop_end {
            self.current_address = self.repeat_address;
        } else {
            self.current_address = self.current_address + 16;
        }
    }

    /// Starts the voice at its start address and decodes its first block.
    pub fn key_on(&mut self, sound_ram: &[u8])
        requires
            old(self).start_address + 16 <= sound_ram@.len() <= SOUND_RAM_SIZE,
        ensures
            keyed_on(*old(self), *final(self), sound_ram@),
    {
        self.current_address = self.start_address;
        self.force_loop_index = false;
        self.keyed_off = false;
        self.decode_next_block(sound_ram);
    }

    /// Advances the voice by one output sample: the pitch counter steps by
    /// the sample rate (at most 4000h); each 1000h moves to the next decoded
    /// sample, and passing the end of the buffer decodes the next block.
    pub fn tick(&mut self, sound_ram: &[u8])
        requires
            old(self).wf(),
            old(self).current_address + 16 <= sound_ram@.len() <= SOUND_RAM_SIZE,
        ensures
            final(self).wf(),
            ({
                let step = if old(self).sample_rate > 0x4000 { 0x4000 } else { old(self).sample_rate as int };
                let pc = old(self).pitch_counter + step;
                let idx = old(self).current_buffer_idx + pc / 0x1000;
                &&& final(self).pitch_counter == pc % 0x1000
                &&& if idx >= 28 {
                    &&& final(self).current_buffer_idx == idx - 28
                    &&& Self::buffer_holds(
                        final(self).decode_buffer@,
                        old(self).current_block(sound_ram@),
                        old(self).adpcm_old_sample,
                        old(self).adpcm_older_sample,
                    )
                    &&& *final(self) == (Voice {
                        decode_buffer: final(self).decode_buffer,
                        pitch_counter: final(self).pitch_counter,
                        current_buffer_idx: final(self).current_buffer_idx,
                        current_sample: final(self).current_sample,
                        ..old(self).next_block_decoded(sound_ram@)
                    })
                } else {
                    &&& final(self).current_buffer_idx == idx
                    &&& *final(self) == (Voice {
                        pitch_counter: final(self).pitch_counter,
                        current_buffer_idx: final(self).current_buffer_idx,
                        current_sample: final(self).current_sample,
                        ..*old(self)
                    })
                }
                &&& final(self).current_sample == final(self).decode_buffer@[final(self).current_buffer_idx as int]
            }),
    {
        let step: u16 = if self.sample_rate > 0x4000 { 0x4000 } else { self.sample_rate };
        self.pitch_counter = self.pitch_counter + step;
        let ghost pc = self.pitch_counter as int;
        let ghost idx0 = old(self).current_buffer_idx as int;
        let ghost decoded = false;
        while self.pitch_counter >= 0x1000
            invariant
                0 <= pc < 0x5000,
                self.pitch_counter < 0x5000,
                self.pitch_counter % 0x1000 == pc % 0x1000,
                self.current_buffer_idx < 28,
                idx0 < 28,
                ({
                    let done = pc / 0x1000 - self.pitch_counter / 0x1000;
                    &&& 0 <= done <= 4
                    &&& if idx0 + done >= 28 {
                        &&& decoded
                        &&& self.current_buffer_idx == idx0 + done - 28
                        &&& Self::buffer_holds(
                            self.decode_buffer@,
                            old(self).current_block(sound_ram@),
                            old(self).adpcm_old_sample,
                            old(self).adpcm_older_sample,
                        )
                        &&& *self == (Voice {
                            decode_buffer: self.decode_buffer,
                            pitch_counter: self.pitch_counter,
                            current_buffer_idx: self.current_buffer_idx,
                            ..old(self).next_block_decoded(sound_ram@)
                        })
                    } else {
                        &&& !decoded
                        &&& self.current_buffer_idx == idx0 + done
                        &&& *self == (Voice {
                            pitch_counter: self.pitch_counter,
                            current_buffer_idx: self.current_buffer_idx,
                            ..*old(self)
                        })
                    }
                }),
                old(self).current_address + 16 <= sound_ram@.len() <= SOUND_RAM_SIZE,
                old(self).envelope.wf(),
            decreases self.pitch_counter,
        {
            self.pitch_counter = self.pitch_counter - 0x1000;
            self.current_buffer_idx = self.current_buffer_idx + 1;
            if self.current_buffer_idx == 28 {
                self.current_buffer_idx = 0;
                self.decode_next_block(sound_ram);
                proof {
                    decoded = true;
                }
            }
        }
        self.current_sample = self.decode_buffer[self.current_buffer_idx];
    }
}

/// `after` is `v` once keyed on: restarted at its start address, with the
/// first block decoded.
pub open spec fn keyed_on(v: Voice, after: Voice, ram: Seq<u8>) -> bool {
    let v2 = Voice { current_address: v.start_address, force_loop_index: false, keyed_off: false, ..v };
    &&& after == (Voice { decode_buffer: after.decode_buffer, ..v2.next_block_decoded(ram) })
    &&& Voice::buffer_holds(after.decode_buffer@, v2.current_block(ram), v2.adpcm_old_sample, v2.adpcm_older_sample)
}

/// The 16 bytes of `ram` from `addr` on.
fn slice_of(ram: &[u8], addr: usize) -> (block: Vec<u8>)
    requires
        addr + 16 <= ram@.len() <= SOUND_RAM_SIZE,
    ensures
        block@ == ram@.subrange(addr as int, addr + 16),
{
    let mut block: Vec<u8> = Vec::new();
    for i in 0..16usize
        invariant
            addr + 16 <= ram@.len() <= SOUND_RAM_SIZE,
            block@ == ram@.subrange(addr as int, addr + i),
    {
        block.push(ram[addr + i]);
        proof {
            assert(ram@.subrange(addr as int, addr + i + 1) =~= ram@.subrange(addr as int, addr + i).push(ram@[addr + i]));
        }
    }
    block
}

/// The signed value of the 4-bit nibble of byte `b` at bit `4 * half`.
pub open spec fn nibble_value(b: u8, half: int) -> int {
    let n = (b >> (4 * half) as u8) & 0xF;
    if n >= 8 { n - 16 } else { n as int }
}

proof fn lemma_nibbles(b: u8)
    ensures
        (b >> 0u8) & 0xF == b % 16,
        (b >> 4u8) & 0xF == b / 16,
{
    assert((b >> 0u8) & 0xF == b % 16 && (b >> 4u8) & 0xF == b / 16) by (bit_vector);
}

/// ADPCM decoding with filter 0 (no prediction): sample i of a block is the
/// signed nibble of data byte i/2 (the low nibble for even i, the high one
/// for odd i) times 2 to the power 12 minus the header's shift nibble
/// (at most 12), whatever samples came before.
pub proof fn lemma_adpcm_filter0_sample(block: Seq<u8>, i: int, old0: i16, older0: i16)
    requires
        block.len() == 16,
        0 <= i < 28,
        block[0] & 0x70 == 0,
        block[0] & 0xF <= 12,
    ensures
        adpcm_history(block, (i + 1) as nat, old0, older0).0 as int == nibble_value(block[2 + i / 2], i % 2)
            * pow2(12 - (block[0] & 0xF)),
{
    let h0 = block[0];
    assert((h0 / 16) % 8 == 0 && h0 % 16 == h0 & 0xF) by (bit_vector)
        requires
            h0 & 0x70 == 0,
    ;
    lemma_nibbles(block[2 + i / 2]);
    let k = 12 - (h0 & 0xF);
    crate::spu::envelope::lemma_pow2_bound(k as int);
    let h = adpcm_history(block, i as nat, old0, older0);
    assert(filter_pos(0) == 0 && filter_neg(0) == 0);
    assert(h.0 * filter_pos(0) + h.1 * filter_neg(0) + 32 == 32) by (nonlinear_arith)
        requires
            filter_pos(0) == 0,
            filter_neg(0) == 0,
    ;
    assert(crate::cpu::instrs::abs(32) == 32 && crate::cpu::instrs::abs(64) == 64);
    assert(32int / 64int == 0) by (nonlinear_arith);
    assert(trunc_div(32, 64) == 0);
    let t = nibble_value(block[2 + i / 2], i % 2);
    assert(-8 <= t <= 7);
    assert(-0x8000 <= t * pow2(k as int) <= 0x7FFF) by (nonlinear_arith)
        requires
            -8 <= t <= 7,
            1 <= pow2(k as int) <= 0x1000,
    ;
}

/// Every ADPCM sample is the block's nibble for it, scaled by 2 to the
/// power 12 minus the shift nibble (a nibble above 12 counts as 9), plus the
/// prediction of filter f = bits 6..4 of the header: (60, 115, 98, 122)/64
/// of the previous sample and (0, -52, -55, -60)/64 of the one before, for
/// f = 1..4, rounded (+32, truncated), and nothing for f = 0 or 5..7; the
/// sum saturates to 16 bits. The sample before becomes the older one.
pub proof fn lemma_adpcm_prediction(block: Seq<u8>, i: int, old0: i16, older0: i16)
    requires
        block.len() == 16,
        0 <= i < 28,
    ensures
        ({
            let h = adpcm_history(block, i as nat, old0, older0);
            let next = adpcm_history(block, (i + 1) as nat, old0, older0);
            let f = (block[0] >> 4u8) & 7;
            let pos = seq![0int, 60, 115, 98, 122, 0, 0, 0][f as int];
            let neg = seq![0int, 0, -52, -55, -60, 0, 0, 0][f as int];
            let sn = block[0] & 0xF;
            let shift = 12 - (if sn > 12 { 9 } else { sn as int });
            &&& next.1 == h.0
            &&& next.0 as int == clamp(
                nibble_value(block[2 + i / 2], i % 2) * pow2(shift) + trunc_div(h.0 * pos + h.1 * neg + 32, 64),
                -0x8000,
                0x7FFF,
            )
        }),
{
    let h0 = block[0];
    assert((h0 / 16) % 8 == (h0 >> 4u8) & 7 && h0 % 16 == h0 & 0xF && (h0 >> 4u8) & 7 < 8) by (bit_vector);
    lemma_nibbles(block[2 + i / 2]);
    let f = (h0 >> 4u8) & 7;
    assert(seq![0int, 60, 115, 98, 122, 0, 0, 0][f as int] == filter_pos(f as int));
    assert(seq![0int, 0, -52, -55, -60, 0, 0, 0][f as int] == filter_neg(f as int));
}

} // verus!
