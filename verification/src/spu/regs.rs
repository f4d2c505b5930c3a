use vstd::prelude::*;

use crate::memory::stored;
use crate::spu::envelope::AdsrEnvelope;
use crate::spu::voice::{keyed_on, Voice, SOUND_RAM_SIZE};
use crate::spu::{bit_set, half_written, voice_base, voice_count, voice_flag_set, Spu, VOICE_COUNT};

verus! {

pub const VOICE_REGS_START: u32 = 0x1F80_1C00;

pub const VOICE_REGS_END: u32 = 0x1F80_1D7F;

pub const VOICE_VOLUME_START: u32 = 0x1F80_1E00;

pub const VOICE_VOLUME_END: u32 = 0x1F80_1E5F;

/// An even address among the 16-byte register blocks of the 24 voices.
pub open spec fn is_voice_reg(addr: u32) -> bool {
    VOICE_REGS_START <= addr <= VOICE_REGS_END && (addr - VOICE_REGS_START) % 2 == 0
}

/// An even address among the 4-byte current volume blocks of the voices.
pub open spec fn is_voice_volume(addr: u32) -> bool {
    VOICE_VOLUME_START <= addr <= VOICE_VOLUME_END && (addr - VOICE_VOLUME_START) % 2 == 0
}

/// The registers that can be read.
pub open spec fn readable(addr: u32) -> bool {
    ||| is_voice_reg(addr)
    ||| is_voice_volume(addr)
    ||| addr == 0x1F80_1D80 || addr == 0x1F80_1D82 || addr == 0x1F80_1D88 || addr == 0x1F80_1D8A
    ||| addr == 0x1F80_1D8C || addr == 0x1F80_1D8E || addr == 0x1F80_1DAA || addr == 0x1F80_1DAC
    ||| addr == 0x1F80_1DAE || addr == 0x1F80_1DA6 || addr == 0x1F80_1DB0 || addr == 0x1F80_1DB2
    ||| addr == 0x1F80_1DB4 || addr == 0x1F80_1DB6 || addr == 0x1F80_1DB8 || addr == 0x1F80_1DBA
    ||| addr == 0x1F80_1D90 || addr == 0x1F80_1D92 || addr == 0x1F80_1D94 || addr == 0x1F80_1D96
    ||| addr == 0x1F80_1D98 || addr == 0x1F80_1D9A
}

/// The value of voice register `r` (an even offset below 16).
pub open spec fn voice_reg_value(v: Voice, r: int) -> u32 {
    if r == 0 {
        v.volume_l as u32
    } else if r == 2 {
        v.volume_r as u32
    } else if r == 4 {
        v.sample_rate as u32
    } else if r == 6 {
        v.start_address / 8
    } else if r == 8 {
        v.envelope.register
    } else if r == 0xA {
        v.envelope.register >> 16u32
    } else if r == 0xC {
        v.envelope.volume as u32
    } else {
        v.repeat_address / 8
    }
}

/// The value read from a readable register.
pub open spec fn register_value(spu: Spu, addr: u32) -> u32 {
    if is_voice_reg(addr) {
        voice_reg_value(
            spu.voices@[((addr - VOICE_REGS_START) / 16) as int],
            ((addr - VOICE_REGS_START) % 16) as int,
        )
    } else if is_voice_volume(addr) {
        let v = spu.voices@[((addr - VOICE_VOLUME_START) / 4) as int];
        if (addr - VOICE_VOLUME_START) % 4 == 0 {
            v.volume_l as u32
        } else {
            v.volume_r as u32
        }
    } else if addr == 0x1F80_1D80 || addr == 0x1F80_1DB8 {
        spu.main_volume.l as u32
    } else if addr == 0x1F80_1D82 || addr == 0x1F80_1DBA {
        spu.main_volume.r as u32
    } else if addr == 0x1F80_1D88 {
        spu.voice_key_on
    } else if addr == 0x1F80_1D8A {
        spu.voice_key_on >> 16u32
    } else if addr == 0x1F80_1D8C {
        spu.voice_key_off
    } else if addr == 0x1F80_1D8E {
        spu.voice_key_off >> 16u32
    } else if addr == 0x1F80_1DAA {
        spu.control as u32
    } else if addr == 0x1F80_1DAC {
        spu.ram_data_transfer_control as u32
    } else if addr == 0x1F80_1DAE {
        spu.status_word() as u32
    } else if addr == 0x1F80_1DA6 {
        spu.ram_data_transfer_address as u32
    } else if addr == 0x1F80_1DB0 {
        spu.cd_volume.l as u32
    } else if addr == 0x1F80_1DB2 {
        spu.cd_volume.r as u32
    } else if addr == 0x1F80_1DB4 {
        spu.ex_volume.l as u32
    } else if addr == 0x1F80_1DB6 {
        spu.ex_volume.r as u32
    } else if addr == 0x1F80_1D90 {
        spu.voice_pitch_enable
    } else if addr == 0x1F80_1D92 {
        spu.voice_pitch_enable >> 16u32
    } else if addr == 0x1F80_1D94 {
        spu.voice_noise_enable
    } else if addr == 0x1F80_1D96 {
        spu.voice_noise_enable >> 16u32
    } else if addr == 0x1F80_1D98 {
        spu.voice_reverb_enable
    } else {
        spu.voice_reverb_enable >> 16u32
    }
}

/// Reads an SPU register (any access width reads the same value).
pub fn read(spu: &Spu, addr: u32) -> (r: u32)
    requires
        spu.wf(),
        readable(addr),
    ensures
        r == register_value(*spu, addr),
{
    if VOICE_REGS_START <= addr && addr <= VOICE_REGS_END && (addr - VOICE_REGS_START) % 2 == 0 {
        let i = ((addr - VOICE_REGS_START) / 16) as usize;
        let r = (addr - VOICE_REGS_START) % 16;
        let v = &spu.voices[i];
        if r == 0 {
            v.volume_l as u32
        } else if r == 2 {
            v.volume_r as u32
        } else if r == 4 {
            v.sample_rate as u32
        } else if r == 6 {
            v.start_address / 8
        } else if r == 8 {
            v.envelope.register
        } else if r == 0xA {
            v.envelope.register >> 16u32
        } else if r == 0xC {
            v.envelope.volume as u32
        } else {
            v.repeat_address / 8
        }
    } else if VOICE_VOLUME_START <= addr && addr <= VOICE_VOLUME_END && (addr - VOICE_VOLUME_START) % 2 == 0 {
        let v = &spu.voices[((addr - VOICE_VOLUME_START) / 4) as usize];
        if (addr - VOICE_VOLUME_START) % 4 == 0 {
            v.volume_l as u32
        } else {
            v.volume_r as u32
        }
    } else if addr == 0x1F80_1D80 || addr == 0x1F80_1DB8 {
        spu.main_volume.l as u32
    } else if addr == 0x1F80_1D82 || addr == 0x1F80_1DBA {
        spu.main_volume.r as u32
    } else if addr == 0x1F80_1D88 {
        spu.voice_key_on
    } else if addr == 0x1F80_1D8A {
        spu.voice_key_on >> 16u32
    } else if addr == 0x1F80_1D8C {
        spu.voice_key_off
    } else if addr == 0x1F80_1D8E {
        spu.voice_key_off >> 16u32
    } else if addr == 0x1F80_1DAA {
        spu.control as u32
    } else if addr == 0x1F80_1DAC {
        spu.ram_data_transfer_control as u32
    } else if addr == 0x1F80_1DAE {
        spu.status() as u32
    } else if addr == 0x1F80_1DA6 {
        spu.ram_data_transfer_address as u32
    } else if addr == 0x1F80_1DB0 {
        spu.cd_volume.l as u32
    } else if addr == 0x1F80_1DB2 {
        spu.cd_volume.r as u32
    } else if addr == 0x1F80_1DB4 {
        spu.ex_volume.l as u32
    } else if addr == 0x1F80_1DB6 {
        spu.ex_volume.r as u32
    } else if addr == 0x1F80_1D90 {
        spu.voice_pitch_enable
    } else if addr == 0x1F80_1D92 {
        spu.voice_pitch_enable >> 16u32
    } else if addr == 0x1F80_1D94 {
        spu.voice_noise_enable
    } else if addr == 0x1F80_1D96 {
        spu.voice_noise_enable >> 16u32
    } else if addr == 0x1F80_1D98 {
        spu.voice_reverb_enable
    } else {
        spu.voice_reverb_enable >> 16u32
    }
}

/// The registers whose 16-bit writes are handled (reverb settings and ENDX
/// are taken and ignored).
pub open spec fn writable(addr: u32) -> bool {
    ||| is_voice_reg(addr)
    ||| addr == 0x1F80_1D80 || addr == 0x1F80_1D82 || addr == 0x1F80_1D84 || addr == 0x1F80_1D86
    ||| addr == 0x1F80_1D88 || addr == 0x1F80_1D8A || addr == 0x1F80_1D8C || addr == 0x1F80_1D8E
    ||| addr == 0x1F80_1D90 || addr == 0x1F80_1D92 || addr == 0x1F80_1D94 || addr == 0x1F80_1D96
    ||| addr == 0x1F80_1D98 || addr == 0x1F80_1D9A || addr == 0x1F80_1D9C || addr == 0x1F80_1D9E
    ||| addr == 0x1F80_1DA2 || addr == 0x1F80_1DA4 || addr == 0x1F80_1DA6 || addr == 0x1F80_1DA8
    ||| addr == 0x1F80_1DAA || addr == 0x1F80_1DAC || addr == 0x1F80_1DB0 || addr == 0x1F80_1DB2
    ||| addr == 0x1F80_1DB4 || addr == 0x1F80_1DB6
    ||| 0x1F80_1DC0 <= addr <= 0x1F80_1DFE
}

/// The registers that take a volume in fixed mode, whose bit 15 must be
/// clear.
pub open spec fn is_sweep_volume(addr: u32) -> bool {
    ||| is_voice_reg(addr) && ((addr - VOICE_REGS_START) % 16 == 0 || (addr - VOICE_REGS_START) % 16 == 2)
    ||| addr == 0x1F80_1D80 || addr == 0x1F80_1D82
}

/// What a 16-bit write needs: a handled register, a fixed-mode volume where
/// one is written, voices keyed on with a whole first block in sound RAM,
/// and a sound RAM transfer that fits.
pub open spec fn write_ok(spu: Spu, addr: u32, val: u16) -> bool {
    &&& writable(addr)
    &&& is_sweep_volume(addr) ==> val < 0x8000
    &&& (addr == 0x1F80_1D88 || addr == 0x1F80_1D8A) ==> {
        let high = addr == 0x1F80_1D8A;
        forall|j: int|
            voice_base(high) <= j < voice_base(high) + voice_count(high) && bit_set(val, j - voice_base(high))
                ==> #[trigger] spu.voices@[j].start_address + 16 <= SOUND_RAM_SIZE
    }
    &&& addr == 0x1F80_1DA8 ==> spu.current_address % 0x8_0000 + 2 <= SOUND_RAM_SIZE && spu.current_address
        + 2 <= usize::MAX
}

/// `after` is `spu` with voice `i` replaced by `v`.
pub open spec fn voice_replaced(spu: Spu, after: Spu, i: int, v: Voice) -> bool {
    &&& after.voices@ == spu.voices@.update(i, v)
    &&& after == (Spu { voices: after.voices, ..spu })
}

/// The effect of a 16-bit write to voice register `r` of voice `i`.
pub open spec fn voice_reg_written(spu: Spu, after: Spu, i: int, r: int, val: u16) -> bool {
    let v = spu.voices@[i];
    if r == 0 {
        voice_replaced(spu, after, i, Voice { volume_l: ((2 * val) as u16) as i16, ..v })
    } else if r == 2 {
        voice_replaced(spu, after, i, Voice { volume_r: ((2 * val) as u16) as i16, ..v })
    } else if r == 4 {
        voice_replaced(spu, after, i, Voice { sample_rate: val, ..v })
    } else if r == 6 {
        voice_replaced(spu, after, i, Voice { start_address: (val * 8) as u32, ..v })
    } else if r == 8 || r == 0xA {
        let reg = half_written(v.envelope.register, r == 0xA, val);
        let field = crate::spu::envelope::sustain_level_field(reg);
        let level = if (field + 1) * 0x800 > 0x7FFF { 0x7FFF } else { (field + 1) * 0x800 };
        voice_replaced(
            spu,
            after,
            i,
            Voice { envelope: AdsrEnvelope { register: reg, sustain_level: level as u16, ..v.envelope }, ..v },
        )
    } else if r == 0xC {
        voice_replaced(spu, after, i, Voice { envelope: AdsrEnvelope { volume: val, ..v.envelope }, ..v })
    } else {
        voice_replaced(spu, after, i, Voice { repeat_address: (val * 8) as u32, force_loop_index: true, ..v })
    }
}

/// The effect of a 16-bit write of `val` to register `addr`.
pub open spec fn written(spu: Spu, after: Spu, addr: u32, val: u16) -> bool {
    if is_voice_reg(addr) {
        voice_reg_written(
            spu,
            after,
            ((addr - VOICE_REGS_START) / 16) as int,
            ((addr - VOICE_REGS_START) % 16) as int,
            val,
        )
    } else if addr == 0x1F80_1D80 {
        after == (Spu { main_volume: crate::spu::Volume { l: ((2 * val) as u16) as i16, ..spu.main_volume }, ..spu })
    } else if addr == 0x1F80_1D82 {
        after == (Spu { main_volume: crate::spu::Volume { r: ((2 * val) as u16) as i16, ..spu.main_volume }, ..spu })
    } else if addr == 0x1F80_1D88 || addr == 0x1F80_1D8A {
        let high = addr == 0x1F80_1D8A;
        &&& after.voice_key_on == half_written(spu.voice_key_on, high, val)
        &&& forall|j: int|
            0 <= j < VOICE_COUNT ==> (if voice_base(high) <= j < voice_base(high) + voice_count(high)
                && bit_set(val, j - voice_base(high)) {
                keyed_on(spu.voices@[j], #[trigger] after.voices@[j], spu.sound_ram@)
            } else {
                after.voices@[j] == spu.voices@[j]
            })
        &&& after == (Spu { voice_key_on: after.voice_key_on, voices: after.voices, ..spu })
    } else if addr == 0x1F80_1D8C || addr == 0x1F80_1D8E {
        let high = addr == 0x1F80_1D8E;
        &&& after.voice_key_off == half_written(spu.voice_key_off, high, val)
        &&& forall|j: int|
            0 <= j < VOICE_COUNT ==> #[trigger] after.voices@[j] == (if voice_base(high) <= j < voice_base(high)
                + voice_count(high) && bit_set(val, j - voice_base(high)) {
                Voice { keyed_off: true, ..spu.voices@[j] }
            } else {
                spu.voices@[j]
            })
        &&& after == (Spu { voice_key_off: after.voice_key_off, voices: after.voices, ..spu })
    } else if addr == 0x1F80_1D90 || addr == 0x1F80_1D92 || addr == 0x1F80_1D94 || addr == 0x1F80_1D96
        || addr == 0x1F80_1D98 || addr == 0x1F80_1D9A {
        let high = addr == 0x1F80_1D92 || addr == 0x1F80_1D96 || addr == 0x1F80_1D9A;
        let which: u8 = if addr <= 0x1F80_1D92 { 0 } else if addr <= 0x1F80_1D96 { 1 } else { 2 };
        let first = voice_base(high) + (if which == 0 { 1int } else { 0 });
        &&& forall|j: int|
            0 <= j < VOICE_COUNT ==> #[trigger] after.voices@[j] == (if first <= j < voice_base(high) + voice_count(high) {
                voice_flag_set(spu.voices@[j], which, bit_set(val, j - voice_base(high)))
            } else {
                spu.voices@[j]
            })
        &&& if which == 0 {
            after == (Spu {
                voice_pitch_enable: half_written(spu.voice_pitch_enable, high, val),
                voices: after.voices,
                ..spu
            })
        } else if which == 1 {
            after == (Spu {
                voice_noise_enable: half_written(spu.voice_noise_enable, high, val),
                voices: after.voices,
                ..spu
            })
        } else {
            after == (Spu {
                voice_reverb_enable: half_written(spu.voice_reverb_enable, high, val),
                voices: after.voices,
                ..spu
            })
        }
    } else if addr == 0x1F80_1DAA {
        &&& after.control == val
        &&& after.irq_enabled == (val & 0x40 != 0)
        &&& after.irq_requested == (spu.irq_requested && val & 0x40 != 0)
        &&& after.irq == (spu.irq && val & 0x40 != 0)
        &&& after.noise_generator.step == (val / 0x100) % 4
        &&& after.noise_generator.shift == (val / 0x400) % 16
        &&& after == (Spu {
            control: after.control,
            noise_generator: after.noise_generator,
            irq_enabled: after.irq_enabled,
            irq_requested: after.irq_requested,
            irq: after.irq,
            ..spu
        })
    } else if addr == 0x1F80_1DA6 {
        after == (Spu { ram_data_transfer_address: val, current_address: (val * 8) as usize, ..spu })
    } else if addr == 0x1F80_1DA8 {
        let a = (spu.current_address % 0x8_0000) as int;
        &&& stored(spu.sound_ram@, after.sound_ram@, a, 2, val as u32)
        &&& after.irq == (spu.irq || spu.hits_irq(a, 2))
        &&& after == (Spu {
            current_address: (spu.current_address + 2) as usize,
            irq: after.irq,
            sound_ram: after.sound_ram,
            ..spu
        })
    } else if addr == 0x1F80_1DAC {
        after == (Spu { ram_data_transfer_control: val, ..spu })
    } else if addr == 0x1F80_1DA4 {
        after == (Spu { irq_address: (val * 8) as usize, ..spu })
    } else if addr == 0x1F80_1DB0 {
        after == (Spu { cd_volume: crate::spu::Volume { l: val as i16, ..spu.cd_volume }, ..spu })
    } else if addr == 0x1F80_1DB2 {
        after == (Spu { cd_volume: crate::spu::Volume { r: val as i16, ..spu.cd_volume }, ..spu })
    } else if addr == 0x1F80_1DB4 {
        after == (Spu { ex_volume: crate::spu::Volume { l: val as i16, ..spu.ex_volume }, ..spu })
    } else if addr == 0x1F80_1DB6 {
        after == (Spu { ex_volume: crate::spu::Volume { r: val as i16, ..spu.ex_volume }, ..spu })
    } else {
        after == spu
    }
}

fn write_voice_reg(spu: &mut Spu, i: usize, r: u32, val: u16)
    requires
        old(spu).wf(),
        i < VOICE_COUNT,
        r < 16,
        r % 2 == 0,
        (r == 0 || r == 2) ==> val < 0x8000,
    ensures
        final(spu).wf(),
        voice_reg_written(*old(spu), *final(spu), i as int, r as int, val),
{
    let mut v = spu.voices[i];
    assert(spu.voices@[i as int].wf());
    if r == 0 {
        v.volume_l = (val * 2) as i16;
    } else if r == 2 {
        v.volume_r = (val * 2) as i16;
    } else if r == 4 {
        v.set_sample_rate(val);
    } else if r == 6 {
        v.set_start_address(val);
    } else if r == 8 {
        v.set_adsr(false, val);
    } else if r == 0xA {
        v.set_adsr(true, val);
    } else if r == 0xC {
        v.envelope.volume = val;
    } else {
        v.set_repeat_address(val);
    }
    spu.voices.set(i, v);
}

/// Writes 16 bits to an SPU register.
pub fn write16(spu: &mut Spu, addr: u32, val: u16)
    requires
        old(spu).wf(),
        write_ok(*old(spu), addr, val),
    ensures
        final(spu).wf(),
        written(*old(spu), *final(spu), addr, val),
{
    if VOICE_REGS_START <= addr && addr <= VOICE_REGS_END && (addr - VOICE_REGS_START) % 2 == 0 {
        let i = ((addr - VOICE_REGS_START) / 16) as usize;
        let r = (addr - VOICE_REGS_START) % 16;
        write_voice_reg(spu, i, r, val);
    } else if addr == 0x1F80_1D80 {
        spu.main_volume.set_sweep_l(val);
    } else if addr == 0x1F80_1D82 {
        spu.main_volume.set_sweep_r(val);
    } else if addr == 0x1F80_1D88 {
        spu.write_key_on(false, val);
    } else if addr == 0x1F80_1D8A {
        spu.write_key_on(true, val);
    } else if addr == 0x1F80_1D8C {
        spu.write_key_off(false, val);
    } else if addr == 0x1F80_1D8E {
        spu.write_key_off(true, val);
    } else if addr == 0x1F80_1D90 {
        spu.write_pitch_enable(false, val);
    } else if addr == 0x1F80_1D92 {
        spu.write_pitch_enable(true, val);
    } else if addr == 0x1F80_1D94 {
        spu.write_noise_enable(false, val);
    } else if addr == 0x1F80_1D96 {
        spu.write_noise_enable(true, val);
    } else if addr == 0x1F80_1D98 {
        spu.write_reverb_enable(false, val);
    } else if addr == 0x1F80_1D9A {
        spu.write_reverb_enable(true, val);
    } else if addr == 0x1F80_1DAA {
        spu.write_control(val);
    } else if addr == 0x1F80_1DA6 {
        spu.write_transfer_address(val);
    } else if addr == 0x1F80_1DA8 {
        spu.ram_write(2, val as u32);
    } else if addr == 0x1F80_1DAC {
        spu.ram_data_transfer_control = val;
    } else if addr == 0x1F80_1DA4 {
        spu.irq_address = val as usize * 8;
    } else if addr == 0x1F80_1DB0 {
        spu.cd_volume.set_l(val);
    } else if addr == 0x1F80_1DB2 {
        spu.cd_volume.set_r(val);
    } else if addr == 0x1F80_1DB4 {
        spu.ex_volume.set_l(val);
    } else if addr == 0x1F80_1DB6 {
        spu.ex_volume.set_r(val);
    }
}

/// What a write of `width` bytes needs: 16-bit writes as `write_ok` says,
/// a 32-bit write two of them, the upper half at `addr + 2`, and bytes at
/// odd addresses nothing.
pub open spec fn write_width_ok(spu: Spu, addr: u32, width: usize, val: u32) -> bool {
    if width == 4 {
        &&& addr + 2 <= u32::MAX
        &&& write_ok(spu, addr, val as u16)
        &&& write_ok(spu, (addr + 2) as u32, (val >> 16u32) as u16)
    } else if width == 1 {
        addr % 2 == 1 || write_ok(spu, addr, val as u16)
    } else {
        width == 2 && write_ok(spu, addr, val as u16)
    }
}

/// Whether a register can be read.
pub fn is_readable(addr: u32) -> (r: bool)
    ensures
        r == readable(addr),
{
    (VOICE_REGS_START <= addr && addr <= VOICE_REGS_END && (addr - VOICE_REGS_START) % 2 == 0)
        || (VOICE_VOLUME_START <= addr && addr <= VOICE_VOLUME_END && (addr - VOICE_VOLUME_START) % 2 == 0)
        || addr == 0x1F80_1D80 || addr == 0x1F80_1D82 || addr == 0x1F80_1D88 || addr == 0x1F80_1D8A
        || addr == 0x1F80_1D8C || addr == 0x1F80_1D8E || addr == 0x1F80_1DAA || addr == 0x1F80_1DAC
        || addr == 0x1F80_1DAE || addr == 0x1F80_1DA6 || addr == 0x1F80_1DB0 || addr == 0x1F80_1DB2
        || addr == 0x1F80_1DB4 || addr == 0x1F80_1DB6 || addr == 0x1F80_1DB8 || addr == 0x1F80_1DBA
        || addr == 0x1F80_1D90 || addr == 0x1F80_1D92 || addr == 0x1F80_1D94 || addr == 0x1F80_1D96
        || addr == 0x1F80_1D98 || addr == 0x1F80_1D9A
}

/// Whether a 16-bit write of `val` to `addr` can be taken.
pub fn write_allowed(spu: &Spu, addr: u32, val: u16) -> (r: bool)
    requires
        spu.wf(),
    ensures
        r == write_ok(*spu, addr, val),
{
    let voice_reg = VOICE_REGS_START <= addr && addr <= VOICE_REGS_END && (addr - VOICE_REGS_START) % 2 == 0;
    let writable = voice_reg || addr == 0x1F80_1D80 || addr == 0x1F80_1D82 || addr == 0x1F80_1D84
        || addr == 0x1F80_1D86 || addr == 0x1F80_1D88 || addr == 0x1F80_1D8A || addr == 0x1F80_1D8C
        || addr == 0x1F80_1D8E || addr == 0x1F80_1D90 || addr == 0x1F80_1D92 || addr == 0x1F80_1D94
        || addr == 0x1F80_1D96 || addr == 0x1F80_1D98 || addr == 0x1F80_1D9A || addr == 0x1F80_1D9C
        || addr == 0x1F80_1D9E || addr == 0x1F80_1DA2 || addr == 0x1F80_1DA4 || addr == 0x1F80_1DA6
        || addr == 0x1F80_1DA8 || addr == 0x1F80_1DAA || addr == 0x1F80_1DAC || addr == 0x1F80_1DB0
        || addr == 0x1F80_1DB2 || addr == 0x1F80_1DB4 || addr == 0x1F80_1DB6 || (0x1F80_1DC0 <= addr
        && addr <= 0x1F80_1DFE);
    if !writable {
        return false;
    }
    let sweep = (voice_reg && ((addr - VOICE_REGS_START) % 16 == 0 || (addr - VOICE_REGS_START) % 16 == 2))
        || addr == 0x1F80_1D80 || addr == 0x1F80_1D82;
    if sweep && val >= 0x8000 {
        return false;
    }
    if addr == 0x1F80_1D88 || addr == 0x1F80_1D8A {
        let high = addr == 0x1F80_1D8A;
        let base: usize = if high { 16 } else { 0 };
        let count: usize = if high { 8 } else { 16 };
        let mut i: usize = 0;
        while i < count
            invariant
                spu.wf(),
                high == (addr == 0x1F80_1D8A),
                addr == 0x1F80_1D88 || addr == 0x1F80_1D8A,
                base == voice_base(high),
                count == voice_count(high),
                i <= count,
                forall|j: int|
                    voice_base(high) <= j < voice_base(high) + i && bit_set(val, j - voice_base(high))
                        ==> #[trigger] spu.voices@[j].start_address + 16 <= SOUND_RAM_SIZE,
            decreases count - i,
        {
            if (val >> (i as u16)) & 1 != 0 && spu.voices[base + i].start_address as u64 + 16 > SOUND_RAM_SIZE as u64 {
                proof {
                    let j = (base + i) as int;
                    assert(bit_set(val, j - voice_base(high)));
                    assert(!(spu.voices@[j].start_address + 16 <= SOUND_RAM_SIZE));
                    assert(voice_base(high) <= j < voice_base(high) + voice_count(high));
                    if write_ok(*spu, addr, val) {
                        assert(spu.voices@[j].start_address + 16 <= SOUND_RAM_SIZE);
                    }
                }
                return false;
            }
            i = i + 1;
        }
    }
    if addr == 0x1F80_1DA8 {
        return spu.current_address % 0x8_0000 + 2 <= SOUND_RAM_SIZE && spu.current_address <= usize::MAX - 2;
    }
    true
}

/// Whether a write of `width` bytes of `val` to `addr` can be taken.
pub fn write_width_allowed(spu: &Spu, addr: u32, width: usize, val: u32) -> (r: bool)
    requires
        spu.wf(),
    ensures
        r == write_width_ok(*spu, addr, width, val),
{
    if width == 4 {
        addr <= u32::MAX - 2 && write_allowed(spu, addr, val as u16) && write_allowed(
            spu,
            addr + 2,
            (val >> 16u32) as u16,
        )
    } else if width == 1 {
        addr % 2 == 1 || write_allowed(spu, addr, val as u16)
    } else {
        width == 2 && write_allowed(spu, addr, val as u16)
    }
}

/// Writes an SPU register: 32-bit writes are split into two 16-bit writes,
/// bytes at even addresses are written as 16 bits and bytes at odd
/// addresses are ignored.
pub fn write(spu: &mut Spu, addr: u32, width: usize, val: u32)
    requires
        old(spu).wf(),
        write_width_ok(*old(spu), addr, width, val),
    ensures
        final(spu).wf(),
        width == 2 ==> written(*old(spu), *final(spu), addr, val as u16),
        width == 1 && addr % 2 == 0 ==> written(*old(spu), *final(spu), addr, val as u16),
        width == 1 && addr % 2 == 1 ==> *final(spu) == *old(spu),
        width == 4 ==> exists|mid: Spu|
            written(*old(spu), mid, addr, val as u16) && #[trigger] written(mid, *final(spu), (addr + 2) as u32, (val >> 16u32) as u16),
{
    if width == 4 {
        write16(spu, addr, val as u16);
        let ghost mid = *spu;
        proof {
            let hi = (val >> 16u32) as u16;
            if addr + 2 == 0x1F80_1D8A {
                assert forall|j: int|
                    voice_base(true) <= j < voice_base(true) + voice_count(true) && bit_set(hi, j - voice_base(true))
                        implies #[trigger] mid.voices@[j].start_address + 16 <= SOUND_RAM_SIZE by {
                    assert(old(spu).voices@[j].start_address + 16 <= SOUND_RAM_SIZE);
                }
            }
        }
        write16(spu, addr + 2, (val >> 16u32) as u16);
    } else if width == 1 {
        if addr % 2 == 0 {
            write16(spu, addr, val as u16);
        }
    } else {
        write16(spu, addr, val as u16);
    }
}

} // verus!
