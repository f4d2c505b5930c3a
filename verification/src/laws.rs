use vstd::prelude::*;

use crate::bytes::byte_items;
use crate::cdrom::status::{spec_from_bcd, spec_to_bcd};
use crate::gpu::draw_mode_stat;
use crate::gpu::utils::{field, lemma_field_kept, lemma_field_roundtrip, with_field};
use crate::sio::memory_card::{CARD_SIZE, FRAME_SIZE, MemoryCard};
use crate::sio::{CTRL_DTR_OUTPUT_ON, CTRL_RX_ENABLED, Sio0, flag16, received_into};
use crate::spu::regs::{is_voice_reg, register_value, written, VOICE_REGS_START};
use crate::spu::{Spu, VOICE_COUNT};
use crate::timers::{Timers, clock_ticks};

verus! {

/// Saving a memory card's sector buffer and loading the same sector gives
/// the buffer back; every other byte of the card is kept.
pub proof fn lemma_card_save_then_load(c: MemoryCard)
    requires
        c.format@.len() == CARD_SIZE,
        c.sector_number <= 0x3FF,
    ensures
        c.saved_format().subrange(
            c.sector_number * FRAME_SIZE,
            c.sector_number * FRAME_SIZE + 128,
        ) == c.sector@,
        forall|i: int|
            0 <= i < CARD_SIZE && !(c.sector_number * FRAME_SIZE <= i < c.sector_number * FRAME_SIZE + 128)
                ==> #[trigger] c.saved_format()[i] == c.format@[i],
{
    let a = c.sector_number * FRAME_SIZE;
    assert(c.saved_format().subrange(a, a + 128) =~= c.sector@);
}

/// A byte received into the empty FIFO of a port that is receiving (or has
/// DTR on) is what the next read of the data register gives, and the FIFO
/// is empty again.
pub proof fn lemma_sio_receive_then_read(s: Sio0, data: u8, mid: Sio0, r: u32, after: Sio0)
    requires
        byte_items(s.received).len() == 0,
        flag16(s.control, CTRL_RX_ENABLED) || flag16(s.control, CTRL_DTR_OUTPUT_ON),
        received_into(byte_items(s.received), s.control, s.status, data, &mid),
        mid.read_outcome(0, r, &after),
    ensures
        r == data as u32,
        byte_items(after.received).len() == 0,
{
}

/// Binary-coded decimal round trip: every value up to 99 has a BCD form,
/// which reads back as the value.
pub proof fn lemma_bcd_roundtrip(v: u8)
    requires
        v <= 99,
    ensures
        spec_to_bcd(v) is Some,
        spec_from_bcd(spec_to_bcd(v)->0) == Some(v),
{
}

/// A counter written at cycle `sysclk` and read back at the same cycle
/// (with no hblank in between) reads as written, when within the timer's
/// reset value.
pub proof fn lemma_counter_write_then_read(tm: Timers, which: int, sysclk: u64, dot_divider: u32)
    requires
        0 <= which < 3,
        tm.timers@[which].last_read == sysclk,
        tm.hblanks == 0,
        dot_divider > 0,
        tm.timers@[which].counter <= tm.timers@[which].reset_value(),
    ensures
        tm.updated_timer(which, sysclk, dot_divider).counter == tm.timers@[which].counter,
{
    let t = tm.timers@[which];
    vstd::arithmetic::div_mod::lemma_small_mod(t.counter as nat, (t.reset_value() + 1) as nat);
    assert(clock_ticks(which, t.mode, 0, 0, dot_divider as int) == 0) by {
        assert(0int / dot_divider as int == 0) by (nonlinear_arith)
            requires
                dot_divider > 0,
        ;
    }
}

/// A draw-mode command sets the texture page bits and the dithering bit
/// of the GPU status register to its own.
pub proof fn lemma_draw_mode_readback(stat: u32, c: u32)
    ensures
        field(draw_mode_stat(stat, c), 0, 0xF) == field(c, 0, 0xF),
        field(draw_mode_stat(stat, c), 4, 1) == field(c, 4, 1),
        field(draw_mode_stat(stat, c), 9, 1) == field(c, 9, 1),
{
    let s1 = with_field(stat, 0, 0xF, field(c, 0, 0xF));
    let s2 = with_field(s1, 4, 1, field(c, 4, 1));
    let s3 = with_field(s2, 5, 3, field(c, 5, 3));
    let s4 = with_field(s3, 7, 3, crate::gpu::utils::TextureDepth::from_bits_spec(field(c, 7, 3)).bits());
    let s5 = with_field(s4, 9, 1, field(c, 9, 1));
    let s6 = with_field(s5, 10, 1, field(c, 10, 1));
    assert({
        &&& (0xFu32 << 0u32) >> 0u32 == 0xFu32
        &&& (1u32 << 4u32) >> 4u32 == 1u32
        &&& (3u32 << 5u32) >> 5u32 == 3u32
        &&& (3u32 << 7u32) >> 7u32 == 3u32
        &&& (1u32 << 9u32) >> 9u32 == 1u32
        &&& (1u32 << 10u32) >> 10u32 == 1u32
        &&& (1u32 << 15u32) >> 15u32 == 1u32
        &&& (1u32 << 4u32) & (0xFu32 << 0u32) == 0
        &&& (3u32 << 5u32) & (0xFu32 << 0u32) == 0
        &&& (3u32 << 5u32) & (1u32 << 4u32) == 0
        &&& (3u32 << 7u32) & (0xFu32 << 0u32) == 0
        &&& (3u32 << 7u32) & (1u32 << 4u32) == 0
        &&& (1u32 << 9u32) & (0xFu32 << 0u32) == 0
        &&& (1u32 << 9u32) & (1u32 << 4u32) == 0
        &&& (1u32 << 10u32) & (0xFu32 << 0u32) == 0
        &&& (1u32 << 10u32) & (1u32 << 4u32) == 0
        &&& (1u32 << 10u32) & (1u32 << 9u32) == 0
        &&& (1u32 << 15u32) & (0xFu32 << 0u32) == 0
        &&& (1u32 << 15u32) & (1u32 << 4u32) == 0
        &&& (1u32 << 15u32) & (1u32 << 9u32) == 0
    }) by (bit_vector);
    lemma_field_roundtrip(stat, 0, 0xF, field(c, 0, 0xF));
    lemma_field_kept(s1, 4, 1, field(c, 4, 1), 0, 0xF);
    lemma_field_roundtrip(s1, 4, 1, field(c, 4, 1));
    lemma_field_kept(s2, 5, 3, field(c, 5, 3), 0, 0xF);
    lemma_field_kept(s2, 5, 3, field(c, 5, 3), 4, 1);
    lemma_field_kept(s3, 7, 3, crate::gpu::utils::TextureDepth::from_bits_spec(field(c, 7, 3)).bits(), 0, 0xF);
    lemma_field_kept(s3, 7, 3, crate::gpu::utils::TextureDepth::from_bits_spec(field(c, 7, 3)).bits(), 4, 1);
    lemma_field_kept(s4, 9, 1, field(c, 9, 1), 0, 0xF);
    lemma_field_kept(s4, 9, 1, field(c, 9, 1), 4, 1);
    lemma_field_roundtrip(s4, 9, 1, field(c, 9, 1));
    lemma_field_kept(s5, 10, 1, field(c, 10, 1), 0, 0xF);
    lemma_field_kept(s5, 10, 1, field(c, 10, 1), 4, 1);
    lemma_field_kept(s5, 10, 1, field(c, 10, 1), 9, 1);
    lemma_field_kept(s6, 15, 1, field(c, 11, 1), 0, 0xF);
    lemma_field_kept(s6, 15, 1, field(c, 11, 1), 4, 1);
    lemma_field_kept(s6, 15, 1, field(c, 11, 1), 9, 1);
    assert(field(c, 0, 0xF) & 0xF == field(c, 0, 0xF) && field(c, 4, 1) & 1 == field(c, 4, 1) && field(c, 9, 1) & 1
        == field(c, 9, 1)) by (bit_vector);
}

/// The SPU registers that keep what is written read it back: a voice's
/// sample rate, start address, envelope volume and repeat address, the
/// sound RAM transfer address and control, and the control register.
pub proof fn lemma_spu_register_readback(spu: Spu, after: Spu, addr: u32, val: u16)
    requires
        spu.voices@.len() == VOICE_COUNT,
        written(spu, after, addr, val),
        ({
            let r = (addr - VOICE_REGS_START) % 16;
            ||| is_voice_reg(addr) && (r == 4 || r == 6 || r == 0xC || r == 0xE)
            ||| addr == 0x1F80_1DA6 || addr == 0x1F80_1DAA || addr == 0x1F80_1DAC
        }),
    ensures
        register_value(after, addr) == val as u32,
{
}

} // verus!
