pub mod envelope;
pub mod reverb;
pub mod regs;
pub mod voice;

pub use voice::signed4bit;

use vstd::prelude::*;

use crate::memory::{le_value, read_bytes, stored, write_bytes};
use crate::spu::envelope::{pow2, AdsrEnvelope};
use crate::spu::voice::{keyed_on, Voice, SOUND_RAM_SIZE};

verus! {

pub const PADDR_START: u32 = 0x1F80_1C00;

pub const PADDR_END: u32 = 0x1F80_1E80;

pub const VOICE_COUNT: usize = 24;

/// `reg` with its upper (`high`) or lower half replaced by `val`.
pub open spec fn half_written(reg: u32, high: bool, val: u16) -> u32 {
    if high {
        (reg & 0xFFFF) | ((val as u32) << 16u32)
    } else {
        (reg & 0xFFFF_0000) | (val as u32)
    }
}

/// Replaces the upper or lower half of a 32-bit register.
pub fn write_half(reg: &mut u32, high: bool, val: u16)
    ensures
        *final(reg) == half_written(*old(reg), high, val),
{
    if high {
        *reg = (*reg & 0xFFFF) | ((val as u32) << 16u32);
    } else {
        *reg = (*reg & 0xFFFF_0000) | (val as u32);
    }
}

/// A left and right volume.
#[derive(Clone, Copy)]
pub struct Volume {
    pub l: i16,
    pub r: i16,
}

impl Volume {
    pub fn new() -> (v: Self)
        ensures
            v.l == 0 && v.r == 0,
    {
        Volume { l: 0, r: 0 }
    }

    /// Sets the left volume of a plain volume register.
    pub fn set_l(&mut self, v: u16)
        ensures
            final(self).l == v as i16,
            final(self).r == old(self).r,
    {
        self.l = v as i16;
    }

    pub fn set_r(&mut self, v: u16)
        ensures
            final(self).r == v as i16,
            final(self).l == old(self).l,
    {
        self.r = v as i16;
    }

    /// Sets the left volume of a sweep-capable register in fixed mode (bit
    /// 15 clear): the 15-bit value times two.
    pub fn set_sweep_l(&mut self, v: u16)
        requires
            v < 0x8000,
        ensures
            final(self).l == ((2 * v) as u16) as i16,
            final(self).r == old(self).r,
    {
        self.l = (v * 2) as i16;
    }

    pub fn set_sweep_r(&mut self, v: u16)
        requires
            v < 0x8000,
        ensures
            final(self).r == ((2 * v) as u16) as i16,
            final(self).l == old(self).l,
    {
        self.r = (v * 2) as i16;
    }
}

/// The period of the noise timer for a shift below 16: 20000h >> shift.
pub open spec fn noise_period(shift: u8) -> int {
    pow2(17 - shift)
}

/// The noise generator's next shift register value.
pub open spec fn next_lfsr(lfsr: u16) -> u16 {
    let parity = ((lfsr >> 15u16) & 1) ^ ((lfsr >> 12u16) & 1) ^ ((lfsr >> 11u16) & 1) ^ ((lfsr >> 10u16)
        & 1) ^ 1;
    (lfsr << 1u16) | parity
}

pub struct NoiseGenerator {
    pub lfsr: u16,
    pub step: u8,
    pub shift: u8,
    pub timer: i32,
}

fn period(shift: u8) -> (r: i32)
    requires
        shift < 16,
    ensures
        r == noise_period(shift),
        4 <= r <= 0x2_0000,
{
    let mut r: i32 = 0x2_0000;
    let mut i: u8 = 0;
    proof {
        reveal_with_fuel(pow2, 18);
    }
    while i < shift
        invariant
            i <= shift < 16,
            r == pow2(17 - i),
        decreases shift - i,
    {
        proof {
            assert(pow2(17 - i) == 2 * pow2(16 - i));
        }
        r = r / 2;
        i = i + 1;
    }
    proof {
        crate::spu::envelope::lemma_pow2_mono(2, 17 - shift);
        crate::spu::envelope::lemma_pow2_mono(17 - shift, 17);
        reveal_with_fuel(pow2, 18);
    }
    r
}

impl NoiseGenerator {
    pub open spec fn wf(&self) -> bool {
        &&& self.step < 4
        &&& self.shift < 16
        &&& 0 <= self.timer <= 0x2_0000
    }

    /// The generator after one tick: the timer counts down by step + 4; on
    /// running out the shift register advances and the timer wraps by the
    /// period.
    pub open spec fn ticked(self) -> Self {
        let t = self.timer - (self.step + 4);
        if t > 0 {
            NoiseGenerator { timer: t as i32, ..self }
        } else {
            NoiseGenerator { lfsr: next_lfsr(self.lfsr), timer: (t % noise_period(self.shift)) as i32, ..self }
        }
    }

    pub fn new() -> (n: Self)
        ensures
            n.wf(),
            n.lfsr == 0 && n.step == 0 && n.shift == 0 && n.timer == 0,
    {
        NoiseGenerator { lfsr: 0, step: 0, shift: 0, timer: 0 }
    }

    pub fn tick(&mut self)
        requires
            old(self).wf(),
        ensures
            final(self).wf(),
            *final(self) == old(self).ticked(),
    {
        self.timer = self.timer - (self.step as i32 + 4);
        if self.timer > 0 {
            return;
        }
        self.tick_lfsr();
        let p = period(self.shift);
        let ghost t = self.timer as int;
        while self.timer < 0
            invariant
                p == noise_period(self.shift),
                4 <= p <= 0x2_0000,
                t <= self.timer < p,
                (self.timer as int) % (p as int) == t % (p as int),
                self.lfsr == next_lfsr(old(self).lfsr),
                self.step == old(self).step,
                self.shift == old(self).shift,
                t == old(self).timer - (old(self).step + 4),
            decreases p - self.timer,
        {
            proof {
                vstd::arithmetic::div_mod::lemma_mod_add_multiples_vanish(self.timer as int, p as int);
            }
            self.timer = self.timer + p;
        }
        proof {
            vstd::arithmetic::div_mod::lemma_small_mod(self.timer as nat, p as nat);
        }
    }

    fn tick_lfsr(&mut self)
        ensures
            *final(self) == (NoiseGenerator { lfsr: next_lfsr(old(self).lfsr), ..*old(self) }),
    {
        let lfsr = self.lfsr;
        let parity = ((lfsr >> 15u16) & 1) ^ ((lfsr >> 12u16) & 1) ^ ((lfsr >> 11u16) & 1) ^ ((lfsr
            >> 10u16) & 1) ^ 1;
        self.lfsr = (lfsr << 1u16) | parity;
    }

    /// Sets the step and shift; a new shift restarts the timer at its period.
    pub fn update_frequency(&mut self, step: u8, shift: u8)
        requires
            old(self).wf(),
            step < 4,
            shift < 16,
        ensures
            final(self).wf(),
            final(self).step == step,
            final(self).shift == shift,
            final(self).lfsr == old(self).lfsr,
            final(self).timer == (if shift != old(self).shift {
                noise_period(shift) as i32
            } else {
                old(self).timer
            }),
    {
        if shift != self.shift {
            self.timer = period(shift);
        }
        self.step = step;
        self.shift = shift;
    }
}

/// Whether bit `i` of `val` is set.
pub open spec fn bit_set(val: u16, i: int) -> bool {
    (val >> (i as u16)) & 1 != 0
}

/// The first voice and the number of voices that a register half covers.
pub open spec fn voice_base(high: bool) -> int {
    if high { 16 } else { 0 }
}

pub open spec fn voice_count(high: bool) -> int {
    if high { 8 } else { 16 }
}

pub struct Spu {
    pub control: u16,
    pub main_volume: Volume,
    pub cd_volume: Volume,
    pub ex_volume: Volume,
    pub voice_pitch_enable: u32,
    pub voice_noise_enable: u32,
    pub voice_reverb_enable: u32,
    pub ram_data_transfer_control: u16,
    pub ram_data_transfer_address: u16,
    pub voice_key_off: u32,
    pub voice_key_on: u32,
    pub current_address: usize,
    pub voices: Vec<Voice>,
    pub sound_ram: Vec<u8>,
    pub irq_enabled: bool,
    pub irq_address: usize,
    /// Set when the sound RAM is accessed at the IRQ address while the IRQ
    /// is enabled.
    pub irq: bool,
    pub last_irq_line: bool,
    pub irq_requested: bool,
    pub noise_generator: NoiseGenerator,
    pub capture_buffer_ptr: usize,
}

impl Spu {
    pub open spec fn wf(&self) -> bool {
        &&& self.voices@.len() == VOICE_COUNT
        &&& self.sound_ram@.len() == SOUND_RAM_SIZE
        &&& forall|i: int| 0 <= i < VOICE_COUNT ==> #[trigger] self.voices@[i].wf()
        &&& self.noise_generator.wf()
        &&& self.capture_buffer_ptr < 0x400
    }

    /// Whether an access to `width` bytes of sound RAM at `addr` raises the
    /// sound RAM IRQ flag.
    pub open spec fn hits_irq(&self, addr: int, width: int) -> bool {
        self.irq_enabled && addr <= self.irq_address < addr + width
    }

    /// The status register: the low 6 bits of the control register, the IRQ
    /// flag in bit 6, and in bit 11 whether the capture buffers are in their
    /// second half.
    pub open spec fn status_word(&self) -> u16 {
        (self.control & 0x3F) | (if self.irq_requested { 0x40u16 } else { 0 }) | (if self.capture_buffer_ptr
            >= 0x200 { 0x800u16 } else { 0 })
    }

    pub fn new() -> (s: Self)
        ensures
            s.wf(),
            s.control == 0,
            s.current_address == 0,
            s.irq == false,
            s.irq_requested == false,
            forall|i: int| 0 <= i < SOUND_RAM_SIZE ==> #[trigger] s.sound_ram@[i] == 0,
    {
        let mut voices: Vec<Voice> = Vec::new();
        for i in 0..VOICE_COUNT
            invariant
                voices@.len() == i,
                forall|j: int| 0 <= j < i ==> #[trigger] voices@[j].wf(),
        {
            voices.push(Voice::new());
        }
        Spu {
            control: 0,
            main_volume: Volume::new(),
            cd_volume: Volume::new(),
            ex_volume: Volume::new(),
            voice_pitch_enable: 0,
            voice_noise_enable: 0,
            voice_reverb_enable: 0,
            ram_data_transfer_control: 0,
            ram_data_transfer_address: 0,
            voice_key_off: 0,
            voice_key_on: 0,
            current_address: 0,
            voices,
            sound_ram: vec![0u8; SOUND_RAM_SIZE],
            irq_enabled: false,
            irq_address: 0,
            irq: false,
            last_irq_line: false,
            irq_requested: false,
            noise_generator: NoiseGenerator::new(),
            capture_buffer_ptr: 0,
        }
    }

    /// Reads `width` bytes of sound RAM little-endian at the transfer address
    /// (kept to 19 bits), and moves the transfer address past them.
    pub fn ram_read(&mut self, width: usize) -> (r: u32)
        requires
            old(self).wf(),
            width == 1 || width == 2 || width == 4,
            (old(self).current_address % 0x8_0000) as int + width <= SOUND_RAM_SIZE,
            old(self).current_address + width <= usize::MAX,
        ensures
            final(self).wf(),
            r == le_value(old(self).sound_ram@, (old(self).current_address % 0x8_0000) as int, width as int),
            final(self).current_address == old(self).current_address + width,
            final(self).irq == (old(self).irq || old(self).hits_irq(
                (old(self).current_address % 0x8_0000) as int,
                width as int,
            )),
            *final(self) == (Spu {
                current_address: final(self).current_address,
                irq: final(self).irq,
                ..*old(self)
            }),
    {
        let addr = self.current_address % 0x8_0000;
        let r = read_bytes(&self.sound_ram, addr, width);
        if self.irq_enabled && addr <= self.irq_address && self.irq_address < addr + width {
            self.irq = true;
        }
        self.current_address = self.current_address + width;
        r
    }

    /// Writes the low `width` bytes of `word` little-endian to sound RAM at
    /// the transfer address (kept to 19 bits), and moves the transfer
    /// address past them.
    pub fn ram_write(&mut self, width: usize, word: u32)
        requires
            old(self).wf(),
            width == 1 || width == 2 || width == 4,
            (old(self).current_address % 0x8_0000) as int + width <= SOUND_RAM_SIZE,
            old(self).current_address + width <= usize::MAX,
        ensures
            final(self).wf(),
            stored(
                old(self).sound_ram@,
                final(self).sound_ram@,
                (old(self).current_address % 0x8_0000) as int,
                width as int,
                word,
            ),
            final(self).current_address == old(self).current_address + width,
            final(self).irq == (old(self).irq || old(self).hits_irq(
                (old(self).current_address % 0x8_0000) as int,
                width as int,
            )),
            *final(self) == (Spu {
                current_address: final(self).current_address,
                irq: final(self).irq,
                sound_ram: final(self).sound_ram,
                ..*old(self)
            }),
    {
        let addr = self.current_address % 0x8_0000;
        write_bytes(&mut self.sound_ram, addr, width, word);
        if self.irq_enabled && addr <= self.irq_address && self.irq_address < addr + width {
            self.irq = true;
        }
        self.current_address = self.current_address + width;
    }

    /// Writes the control register: it also sets the noise frequency (step
    /// in bits 9-8, shift in bits 13-10) and the IRQ enable (bit 6), whose
    /// clearing acknowledges the IRQ.
    pub fn write_control(&mut self, value: u16)
        requires
            old(self).wf(),
        ensures
            final(self).wf(),
            final(self).control == value,
            final(self).noise_generator.step == (value / 0x100) % 4,
            final(self).noise_generator.shift == (value / 0x400) % 16,
            final(self).noise_generator.lfsr == old(self).noise_generator.lfsr,
            final(self).noise_generator.timer == (if (value / 0x400) % 16 != old(self).noise_generator.shift {
                noise_period(((value / 0x400) % 16) as u8) as i32
            } else {
                old(self).noise_generator.timer
            }),
            final(self).irq_enabled == (value & 0x40 != 0),
            final(self).irq_requested == (old(self).irq_requested && value & 0x40 != 0),
            final(self).irq == (old(self).irq && value & 0x40 != 0),
            *final(self) == (Spu {
                control: final(self).control,
                noise_generator: final(self).noise_generator,
                irq_enabled: final(self).irq_enabled,
                irq_requested: final(self).irq_requested,
                irq: final(self).irq,
                ..*old(self)
            }),
    {
        self.control = value;
        let step = ((value / 0x100) % 4) as u8;
        let shift = ((value / 0x400) % 16) as u8;
        self.noise_generator.update_frequency(step, shift);
        self.irq_enabled = value & 0x40 != 0;
        if !self.irq_enabled {
            self.irq_requested = false;
            self.irq = false;
        }
    }

    pub fn status(&self) -> (r: u16)
        ensures
            r == self.status_word(),
    {
        let irq: u16 = if self.irq_requested { 0x40 } else { 0 };
        let half: u16 = if self.capture_buffer_ptr >= 0x200 { 0x800 } else { 0 };
        (self.control & 0x3F) | irq | half
    }

    /// Keys off the voices whose bits are set in `val`: voices 0-15 for the
    /// lower half, 16-23 for the upper half.
    pub fn write_key_off(&mut self, high: bool, val: u16)
        requires
            old(self).wf(),
        ensures
            final(self).wf(),
            final(self).voice_key_off == half_written(old(self).voice_key_off, high, val),
            forall|j: int|
                0 <= j < VOICE_COUNT ==> #[trigger] final(self).voices@[j] == (if voice_base(high) <= j
                    < voice_base(high) + voice_count(high) && bit_set(val, j - voice_base(high)) {
                    Voice { keyed_off: true, ..old(self).voices@[j] }
                } else {
                    old(self).voices@[j]
                }),
            *final(self) == (Spu {
                voice_key_off: final(self).voice_key_off,
                voices: final(self).voices,
                ..*old(self)
            }),
    {
        write_half(&mut self.voice_key_off, high, val);
        let base: usize = if high { 16 } else { 0 };
        let count: usize = if high { 8 } else { 16 };
        for i in 0..count
            invariant
                base == voice_base(high),
                count == voice_count(high),
                self.voices@.len() == VOICE_COUNT,
                forall|j: int| 0 <= j < VOICE_COUNT ==> #[trigger] self.voices@[j].wf(),
                forall|j: int|
                    0 <= j < VOICE_COUNT ==> #[trigger] self.voices@[j] == (if base <= j < base + i
                        && bit_set(val, j - base) {
                        Voice { keyed_off: true, ..old(self).voices@[j] }
                    } else {
                        old(self).voices@[j]
                    }),
                *self == (Spu {
                    voice_key_off: self.voice_key_off,
                    voices: self.voices,
                    ..*old(self)
                }),
                self.voice_key_off == half_written(old(self).voice_key_off, high, val),
        {
            if (val >> (i as u16)) & 1 != 0 {
                let mut voice = self.voices[base + i];
                assert(self.voices@[(base + i) as int].wf());
                voice.key_off();
                self.voices.set(base + i, voice);
            }
        }
    }

    /// Keys on the voices whose bits are set in `val`, each restarting at its
    /// start address.
    pub fn write_key_on(&mut self, high: bool, val: u16)
        requires
            old(self).wf(),
            forall|j: int|
                voice_base(high) <= j < voice_base(high) + voice_count(high) && bit_set(val, j - voice_base(high))
                    ==> #[trigger] old(self).voices@[j].start_address + 16 <= SOUND_RAM_SIZE,
        ensures
            final(self).wf(),
            final(self).voice_key_on == half_written(old(self).voice_key_on, high, val),
            forall|j: int|
                0 <= j < VOICE_COUNT ==> (if voice_base(high) <= j < voice_base(high) + voice_count(high)
                    && bit_set(val, j - voice_base(high)) {
                    keyed_on(old(self).voices@[j], #[trigger] final(self).voices@[j], old(self).sound_ram@)
                } else {
                    final(self).voices@[j] == old(self).voices@[j]
                }),
            *final(self) == (Spu {
                voice_key_on: final(self).voice_key_on,
                voices: final(self).voices,
                ..*old(self)
            }),
    {
        write_half(&mut self.voice_key_on, high, val);
        let base: usize = if high { 16 } else { 0 };
        let count: usize = if high { 8 } else { 16 };
        for i in 0..count
            invariant
                base == voice_base(high),
                count == voice_count(high),
                self.voices@.len() == VOICE_COUNT,
                self.sound_ram@ == old(self).sound_ram@,
                self.sound_ram@.len() == SOUND_RAM_SIZE,
                forall|j: int| 0 <= j < VOICE_COUNT ==> #[trigger] self.voices@[j].wf(),
                forall|j: int|
                    base <= j < base + count && bit_set(val, j - base) ==> #[trigger] old(self).voices@[j].start_address
                        + 16 <= SOUND_RAM_SIZE,
                forall|j: int|
                    0 <= j < VOICE_COUNT ==> (if base <= j < base + i && bit_set(val, j - base) {
                        keyed_on(old(self).voices@[j], #[trigger] self.voices@[j], old(self).sound_ram@)
                    } else {
                        self.voices@[j] == old(self).voices@[j]
                    }),
                *self == (Spu {
                    voice_key_on: self.voice_key_on,
                    voices: self.voices,
                    ..*old(self)
                }),
                self.voice_key_on == half_written(old(self).voice_key_on, high, val),
        {
            if (val >> (i as u16)) & 1 != 0 {
                let mut voice = self.voices[base + i];
                assert(self.voices@[(base + i) as int].wf());
                assert(bit_set(val, (base + i) - base));
                voice.key_on(self.sound_ram.as_slice());
                self.voices.set(base + i, voice);
            }
        }
    }

    /// Sets the flag chosen by `which` (0 pitch modulation, 1 noise, 2
    /// reverb) of the voices in a register half from the bits of `val`;
    /// pitch modulation is never set for the first voice of a half.
    fn write_voice_flags(&mut self, which: u8, high: bool, val: u16)
        requires
            old(self).wf(),
            which < 3,
        ensures
            final(self).wf(),
            forall|j: int|
                0 <= j < VOICE_COUNT ==> #[trigger] final(self).voices@[j] == (if voice_base(high) + (if which
                    == 0 { 1int } else { 0 }) <= j < voice_base(high) + voice_count(high) {
                    voice_flag_set(old(self).voices@[j], which, bit_set(val, j - voice_base(high)))
                } else {
                    old(self).voices@[j]
                }),
            *final(self) == (Spu { voices: final(self).voices, ..*old(self) }),
    {
        let base: usize = if high { 16 } else { 0 };
        let count: usize = if high { 8 } else { 16 };
        let first: usize = if which == 0 { 1 } else { 0 };
        for i in first..count
            invariant
                base == voice_base(high),
                count == voice_count(high),
                first == (if which == 0 { 1int } else { 0 }),
                which < 3,
                self.voices@.len() == VOICE_COUNT,
                forall|j: int| 0 <= j < VOICE_COUNT ==> #[trigger] self.voices@[j].wf(),
                forall|j: int|
                    0 <= j < VOICE_COUNT ==> #[trigger] self.voices@[j] == (if base + first <= j < base + i {
                        voice_flag_set(old(self).voices@[j], which, bit_set(val, j - base))
                    } else {
                        old(self).voices@[j]
                    }),
                *self == (Spu { voices: self.voices, ..*old(self) }),
        {
            let on = (val >> (i as u16)) & 1 != 0;
            let voice = with_flag(self.voices[base + i], which, on);
            proof {
                assert(self.voices@[(base + i) as int].wf());
                assert(on == bit_set(val, (base + i) - base));
            }
            self.voices.set(base + i, voice);
        }
    }

    /// Writes the pitch modulation enable bits of a register half.
    pub fn write_pitch_enable(&mut self, high: bool, val: u16)
        requires
            old(self).wf(),
        ensures
            final(self).wf(),
            final(self).voice_pitch_enable == half_written(old(self).voice_pitch_enable, high, val),
            forall|j: int|
                0 <= j < VOICE_COUNT ==> #[trigger] final(self).voices@[j] == (if voice_base(high) + 1 <= j
                    < voice_base(high) + voice_count(high) {
                    voice_flag_set(old(self).voices@[j], 0, bit_set(val, j - voice_base(high)))
                } else {
                    old(self).voices@[j]
                }),
            *final(self) == (Spu {
                voice_pitch_enable: final(self).voice_pitch_enable,
                voices: final(self).voices,
                ..*old(self)
            }),
    {
        write_half(&mut self.voice_pitch_enable, high, val);
        self.write_voice_flags(0, high, val);
    }

    /// Writes the noise enable bits of a register half.
    pub fn write_noise_enable(&mut self, high: bool, val: u16)
        requires
            old(self).wf(),
        ensures
            final(self).wf(),
            final(self).voice_noise_enable == half_written(old(self).voice_noise_enable, high, val),
            forall|j: int|
                0 <= j < VOICE_COUNT ==> #[trigger] final(self).voices@[j] == (if voice_base(high) <= j
                    < voice_base(high) + voice_count(high) {
                    voice_flag_set(old(self).voices@[j], 1, bit_set(val, j - voice_base(high)))
                } else {
                    old(self).voices@[j]
                }),
            *final(self) == (Spu {
                voice_noise_enable: final(self).voice_noise_enable,
                voices: final(self).voices,
                ..*old(self)
            }),
    {
        write_half(&mut self.voice_noise_enable, high, val);
        self.write_voice_flags(1, high, val);
    }

    /// Writes the reverb enable bits of a register half.
    pub fn write_reverb_enable(&mut self, high: bool, val: u16)
        requires
            old(self).wf(),
        ensures
            final(self).wf(),
            final(self).voice_reverb_enable == half_written(old(self).voice_reverb_enable, high, val),
            forall|j: int|
                0 <= j < VOICE_COUNT ==> #[trigger] final(self).voices@[j] == (if voice_base(high) <= j
                    < voice_base(high) + voice_count(high) {
                    voice_flag_set(old(self).voices@[j], 2, bit_set(val, j - voice_base(high)))
                } else {
                    old(self).voices@[j]
                }),
            *final(self) == (Spu {
                voice_reverb_enable: final(self).voice_reverb_enable,
                voices: final(self).voices,
                ..*old(self)
            }),
    {
        write_half(&mut self.voice_reverb_enable, high, val);
        self.write_voice_flags(2, high, val);
    }

    /// Sets the transfer address register; the sound RAM transfer address
    /// becomes eight times its value.
    pub fn write_transfer_address(&mut self, val: u16)
        ensures
            *final(self) == (Spu {
                ram_data_transfer_address: val,
                current_address: (val * 8) as usize,
                ..*old(self)
            }),
    {
        self.ram_data_transfer_address = val;
        self.current_address = val as usize * 8;
    }

    /// Stores a sample little-endian in a capture buffer at the current
    /// capture position.
    pub fn write_capture_buffer(&mut self, sample: i16, offset: usize)
        requires
            old(self).wf(),
            offset <= 0xC00,
        ensures
            final(self).wf(),
            stored(
                old(self).sound_ram@,
                final(self).sound_ram@,
                offset + old(self).capture_buffer_ptr,
                2,
                (sample as u16) as u32,
            ),
            final(self).irq == (old(self).irq || old(self).hits_irq(
                offset + old(self).capture_buffer_ptr,
                2,
            )),
            *final(self) == (Spu { sound_ram: final(self).sound_ram, irq: final(self).irq, ..*old(self) }),
    {
        let addr = offset + self.capture_buffer_ptr;
        write_bytes(&mut self.sound_ram, addr, 2, (sample as u16) as u32);
        if self.irq_enabled && addr <= self.irq_address && self.irq_address < addr + 2 {
            self.irq = true;
        }
    }
}

fn with_flag(v: Voice, which: u8, on: bool) -> (r: Voice)
    ensures
        r == voice_flag_set(v, which, on),
        r.wf() == v.wf(),
{
    let mut r = v;
    if which == 0 {
        r.pitch_modulation_enabled = on;
    } else if which == 1 {
        r.noise_enabled = on;
    } else {
        r.reverb_enabled = on;
    }
    r
}

/// A voice with one of its flags (0 pitch modulation, 1 noise, 2 reverb)
/// set to `on`.
pub open spec fn voice_flag_set(v: Voice, which: u8, on: bool) -> Voice {
    if which == 0 {
        Voice { pitch_modulation_enabled: on, ..v }
    } else if which == 1 {
        Voice { noise_enabled: on, ..v }
    } else {
        Voice { reverb_enabled: on, ..v }
    }
}

} // verus!
