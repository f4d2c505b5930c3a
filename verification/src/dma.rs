//! DMA controller: channel registers, the interrupt register and the
//! ordering table clear transfer.
use vstd::prelude::*;

use crate::memory::{byte_of, le_value, lemma_read_after_write, Ram, stored, RAM_SIZE};

verus! {

pub const DMA_START: u32 = 0x1F80_1080;
pub const DMA_END: u32 = 0x1F80_1100;

#[derive(Clone, Copy, PartialEq, Eq, Structural)]
pub enum Direction {
    ToRam,
    FromRam,
}

#[derive(Clone, Copy, PartialEq, Eq, Structural)]
pub enum Step {
    Increment,
    Decrement,
}

#[derive(Clone, Copy, PartialEq, Eq, Structural)]
pub enum Mode {
    Burst,
    Slice,
    LinkedList,
}

#[derive(Clone, Copy, PartialEq, Eq, Structural)]
pub enum Port {
    /// Macroblock decoder input
    MdecIn,
    /// Macroblock decoder output
    MdecOut,
    /// Graphics Processing Unit
    Gpu,
    /// CD-ROM Drive
    CdRom,
    /// Sound Processing Unit
    Spu,
    /// Extension Port
    Pio,
    /// Clear ordering table
    Otc,
}

/// Channel number of a port.
pub open spec fn spec_port_index(p: Port) -> usize {
    match p {
        Port::MdecIn => 0,
        Port::MdecOut => 1,
        Port::Gpu => 2,
        Port::CdRom => 3,
        Port::Spu => 4,
        Port::Pio => 5,
        Port::Otc => 6,
    }
}

/// Port of a channel number; numbers past the last channel give the first port.
pub open spec fn spec_port_of(i: usize) -> Port {
    if i == 1 {
        Port::MdecOut
    } else if i == 2 {
        Port::Gpu
    } else if i == 3 {
        Port::CdRom
    } else if i == 4 {
        Port::Spu
    } else if i == 5 {
        Port::Pio
    } else if i == 6 {
        Port::Otc
    } else {
        Port::MdecIn
    }
}

impl Port {
    pub fn index(&self) -> (r: usize)
        ensures
            r == spec_port_index(*self),
            r < 7,
    {
        match self {
            Port::MdecIn => 0,
            Port::MdecOut => 1,
            Port::Gpu => 2,
            Port::CdRom => 3,
            Port::Spu => 4,
            Port::Pio => 5,
            Port::Otc => 6,
        }
    }

    pub fn from_index(i: usize) -> (r: Port)
        ensures
            r == spec_port_of(i),
    {
        if i == 1 {
            Port::MdecOut
        } else if i == 2 {
            Port::Gpu
        } else if i == 3 {
            Port::CdRom
        } else if i == 4 {
            Port::Spu
        } else if i == 5 {
            Port::Pio
        } else if i == 6 {
            Port::Otc
        } else {
            Port::MdecIn
        }
    }
}

/// Channel control register.
#[derive(Clone, Copy)]
pub struct Control(pub u32);

impl Control {
    pub open spec fn spec_enabled(self) -> bool {
        (self.0 >> 24u32) & 1 == 1
    }

    pub open spec fn spec_forced(self) -> bool {
        (self.0 >> 28u32) & 1 == 1
    }

    pub open spec fn spec_dir(self) -> Direction {
        if self.0 & 1 == 1 { Direction::FromRam } else { Direction::ToRam }
    }

    pub open spec fn spec_step(self) -> Step {
        if (self.0 >> 1u32) & 1 == 1 { Step::Decrement } else { Step::Increment }
    }

    /// Sync mode, bits 10..9; the unused value 3 reads as burst.
    pub open spec fn spec_mode(self) -> Mode {
        let m = (self.0 >> 9u32) & 3;
        if m == 1 {
            Mode::Slice
        } else if m == 2 {
            Mode::LinkedList
        } else {
            Mode::Burst
        }
    }

    pub fn enabled(&self) -> (r: bool)
        ensures
            r == self.spec_enabled(),
    {
        (self.0 >> 24u32) & 1 == 1
    }

    pub fn forced(&self) -> (r: bool)
        ensures
            r == self.spec_forced(),
    {
        (self.0 >> 28u32) & 1 == 1
    }

    pub fn dir(&self) -> (r: Direction)
        ensures
            r == self.spec_dir(),
    {
        if self.0 & 1 == 1 {
            Direction::FromRam
        } else {
            Direction::ToRam
        }
    }

    pub fn step(&self) -> (r: Step)
        ensures
            r == self.spec_step(),
    {
        if (self.0 >> 1u32) & 1 == 1 {
            Step::Decrement
        } else {
            Step::Increment
        }
    }

    pub fn mode(&self) -> (r: Mode)
        ensures
            r == self.spec_mode(),
    {
        let m = (self.0 >> 9u32) & 3;
        if m == 1 {
            Mode::Slice
        } else if m == 2 {
            Mode::LinkedList
        } else {
            Mode::Burst
        }
    }
}

/// Block control register: block size (bits 15..0) and block count (bits 31..16).
#[derive(Clone, Copy)]
pub struct Block(pub u32);

impl Block {
    pub open spec fn spec_block_size(self) -> u32 {
        self.0 & 0xFFFF
    }

    pub open spec fn spec_block_count(self) -> u32 {
        self.0 >> 16u32
    }
}

pub struct Channel {
    pub ctl: Control,
    pub base: u32,
    pub block_ctl: Block,
}

impl Channel {
    pub fn new() -> (r: Self)
        ensures
            r.ctl.0 == 0 && r.base == 0 && r.block_ctl.0 == 0,
    {
        Channel { ctl: Control(0), block_ctl: Block(0), base: 0 }
    }

    /// Whether a transfer should run: enabled, and for burst mode also triggered.
    pub open spec fn spec_active(self) -> bool {
        self.ctl.spec_enabled() && (self.ctl.spec_mode() == Mode::Burst ==> self.ctl.spec_forced())
    }

    pub fn active(&self) -> (r: bool)
        ensures
            r == self.spec_active(),
    {
        let trigger = match self.ctl.mode() {
            Mode::Burst => self.ctl.forced(),
            _ => true,
        };
        self.ctl.enabled() && trigger
    }

    /// Transfer size in words: the block size (0 meaning 10000h) in burst
    /// mode, block size times block count (at least 1) in slice mode, none
    /// for linked lists.
    pub open spec fn spec_transfer_size(self) -> Option<u32> {
        let bs = self.block_ctl.spec_block_size();
        let bc = self.block_ctl.spec_block_count();
        match self.ctl.spec_mode() {
            Mode::Burst => Some(if bs == 0 { 0x1_0000u32 } else { bs }),
            Mode::Slice => Some(((if bc > 1 { bc } else { 1 }) * bs) as u32),
            Mode::LinkedList => None,
        }
    }

    pub fn transfer_size(&self) -> (r: Option<u32>)
        ensures
            r == self.spec_transfer_size(),
    {
        let bs = self.block_ctl.0 & 0xFFFF;
        let bc = self.block_ctl.0 >> 16u32;
        proof { lemma_block_fields(self.block_ctl.0); }
        match self.ctl.mode() {
            Mode::Burst => Some(if bs == 0 { 0x1_0000 } else { bs }),
            Mode::Slice => {
                let n: u32 = if bc > 1 { bc } else { 1 };
                assert(n * bs <= 0xFFFF * 0xFFFF) by (nonlinear_arith)
                    requires n <= 0xFFFF, bs <= 0xFFFF;
                Some(n * bs)
            },
            Mode::LinkedList => None,
        }
    }

    /// Puts the channel in its completed state: enable and trigger cleared.
    pub fn done(&mut self)
        ensures
            final(self).ctl.0 == old(self).ctl.0 & !0x1100_0000u32,
            final(self).base == old(self).base,
            final(self).block_ctl == old(self).block_ctl,
            !final(self).ctl.spec_enabled(),
            !final(self).ctl.spec_forced(),
    {
        self.ctl.0 = self.ctl.0 & !0x1100_0000u32;
        proof { lemma_done_bits(old(self).ctl.0); }
    }

    /// Reads register 0 (base address), 4 (block control) or 8 (channel control).
    pub fn read(&self, reg: u32) -> (r: u32)
        requires
            reg == 0 || reg == 4 || reg == 8,
        ensures
            r == (if reg == 0 { self.base } else if reg == 4 { self.block_ctl.0 } else { self.ctl.0 }),
    {
        if reg == 0 {
            self.base
        } else if reg == 4 {
            self.block_ctl.0
        } else {
            self.ctl.0
        }
    }

    /// Writes register 0 (base address, 24 bits), 4 or 8.
    pub fn write(&mut self, reg: u32, data: u32)
        requires
            reg == 0 || reg == 4 || reg == 8,
        ensures
            reg == 0 ==> final(self).base == data & 0xFF_FFFF && final(self).ctl == old(self).ctl && final(self).block_ctl == old(self).block_ctl,
            reg == 4 ==> final(self).block_ctl.0 == data && final(self).ctl == old(self).ctl && final(self).base == old(self).base,
            reg == 8 ==> final(self).ctl.0 == data && final(self).base == old(self).base && final(self).block_ctl == old(self).block_ctl,
    {
        if reg == 0 {
            self.base = data & 0xFF_FFFF;
        } else if reg == 4 {
            self.block_ctl.0 = data;
        } else {
            self.ctl.0 = data;
        }
    }
}

proof fn lemma_block_fields(v: u32)
    ensures
        v & 0xFFFF <= 0xFFFF,
        v >> 16u32 <= 0xFFFF,
{
    assert(v & 0xFFFF <= 0xFFFF && v >> 16u32 <= 0xFFFF) by (bit_vector);
}

proof fn lemma_done_bits(v: u32)
    ensures
        ((v & !0x1100_0000u32) >> 24u32) & 1 != 1,
        ((v & !0x1100_0000u32) >> 28u32) & 1 != 1,
{
    assert(((v & !0x1100_0000u32) >> 24u32) & 1 != 1 && ((v & !0x1100_0000u32) >> 28u32) & 1 != 1) by (bit_vector);
}

/// DMA interrupt register (DICR).
#[derive(Clone, Copy)]
pub struct Interrupt(pub u32);

impl Interrupt {
    /// Channel interrupt flags, bits 30..24.
    pub open spec fn flags(self) -> u32 {
        (self.0 >> 24u32) & 0x7F
    }

    /// Channel interrupt masks, bits 22..16.
    pub open spec fn masks(self) -> u32 {
        (self.0 >> 16u32) & 0x7F
    }

    /// The master interrupt flag that the register's other bits call for:
    /// bus error, or master enable with a flagged and unmasked channel.
    pub open spec fn spec_master_flag(self) -> bool {
        (self.0 >> 15u32) & 1 == 1 || ((self.0 >> 23u32) & 1 == 1 && self.flags() & self.masks() != 0)
    }

    pub fn master_flag(&self) -> (r: bool)
        ensures
            r == self.spec_master_flag(),
    {
        let flags = (self.0 >> 24u32) & 0x7f;
        let mask = (self.0 >> 16u32) & 0x7f;
        (self.0 >> 15u32) & 1 == 1 || ((self.0 >> 23u32) & 1 == 1 && (flags & mask) != 0)
    }

    /// Recomputes bit 31 and tells whether it rose.
    pub fn update_irq(&mut self) -> (r: bool)
        ensures
            final(self).0 == (if old(self).spec_master_flag() { old(self).0 | 0x8000_0000 } else { old(self).0 & 0x7FFF_FFFF }),
            r == (old(self).0 & 0x8000_0000 == 0 && old(self).spec_master_flag()),
    {
        let new_master_flag = self.master_flag();
        let old_master_flag = self.0 & 0x8000_0000 != 0;
        if new_master_flag {
            self.0 = self.0 | 0x8000_0000;
        } else {
            self.0 = self.0 & 0x7FFF_FFFF;
        }
        !old_master_flag && new_master_flag
    }

    /// Whether the channel's interrupt is unmasked.
    pub fn mask_enabled(&self, port: Port) -> (r: bool)
        ensures
            r == (self.0 & (1u32 << (spec_port_index(port) + 16) as u32) != 0),
    {
        let i = port.index() as u32;
        self.0 & (1u32 << (i + 16)) != 0
    }

    pub fn set_channel_irq_flag_bit(&mut self, port: Port)
        ensures
            final(self).0 == old(self).0 | (1u32 << (spec_port_index(port) + 24) as u32),
    {
        let i = port.index() as u32;
        self.0 = self.0 | (1u32 << (i + 24));
    }

    /// A channel completed: its flag is set when unmasked; tells whether the
    /// master interrupt flag rose.
    pub fn should_irq_on_channel_complete(&mut self, port: Port) -> (r: bool)
        ensures
            ({
                let v = flagged_on_complete(old(self).0, port);
                &&& final(self).0 == (if Interrupt(v).spec_master_flag() { v | 0x8000_0000 } else { v & 0x7FFF_FFFF })
                &&& r == (v & 0x8000_0000 == 0 && Interrupt(v).spec_master_flag())
            }),
    {
        if self.mask_enabled(port) {
            self.set_channel_irq_flag_bit(port);
        }
        self.update_irq()
    }
}

/// DICR after a CPU write: bit 31 is read only and writing 1 to a channel
/// flag acknowledges it.
pub open spec fn dicr_written(old: u32, data: u32) -> u32 {
    let merged = (data & 0x7FFF_FFFF) | (old & 0x8000_0000);
    let flags = ((old >> 24u32) & 0x7F) & !((merged >> 24u32) & 0x7F);
    (merged & !0x7F00_0000u32) | (flags << 24u32)
}

pub struct DMAController {
    pub dpcr: u32,
    pub dicr: Interrupt,
    pub channels: [Channel; 7],
}

/// What a write to a DMA register asks of the rest of the system.
#[derive(Clone, Copy, PartialEq, Eq, Structural)]
pub enum DmaEffect {
    Nothing,
    /// Run the transfer of a channel.
    Transfer(Port),
    /// Raise the DMA interrupt.
    Interrupt,
}

impl DMAController {
    pub fn new() -> (r: Self)
        ensures
            r.dpcr == 0x0765_4321,
            r.dicr.0 == 0,
    {
        DMAController {
            dpcr: 0x0765_4321,
            dicr: Interrupt(0),
            channels: [Channel::new(), Channel::new(), Channel::new(), Channel::new(), Channel::new(), Channel::new(), Channel::new()],
        }
    }

    /// Whether a channel is master-enabled in DPCR (bit 3 of its nibble).
    pub fn channel_enabled(&self, port: Port) -> (r: bool)
        ensures
            r == (self.dpcr & (1u32 << (spec_port_index(port) * 4 + 3) as u32) != 0),
    {
        let bit = port.index() as u32 * 4 + 3;
        self.dpcr & (1u32 << bit) != 0
    }

    pub fn write_dpcr(&mut self, data: u32)
        ensures
            final(self).dpcr == data,
            final(self).dicr == old(self).dicr,
            final(self).channels == old(self).channels,
    {
        self.dpcr = data;
    }

    /// Writes DICR; tells whether the master interrupt flag rose.
    pub fn write_dicr(&mut self, data: u32) -> (r: bool)
        ensures
            ({
                let v = dicr_written(old(self).dicr.0, data);
                &&& final(self).dicr.0 == (if Interrupt(v).spec_master_flag() { v | 0x8000_0000 } else { v & 0x7FFF_FFFF })
                &&& r == (v & 0x8000_0000 == 0 && Interrupt(v).spec_master_flag())
            }),
            final(self).dpcr == old(self).dpcr,
            final(self).channels == old(self).channels,
    {
        let old_irq = self.dicr.0;
        let merged = (data & 0x7FFF_FFFF) | (old_irq & 0x8000_0000);
        let flags = ((old_irq >> 24u32) & 0x7F) & !((merged >> 24u32) & 0x7F);
        self.dicr = Interrupt((merged & !0x7F00_0000u32) | (flags << 24u32));
        self.dicr.update_irq()
    }

    /// Reads a DMA register: a channel register, DPCR, DICR or its upper half.
    pub fn read_reg(&self, addr: u32) -> (r: u32)
        requires
            (DMA_START <= addr < 0x1F80_10F0 && (addr & 0xF == 0 || addr & 0xF == 4 || addr & 0xF == 8))
                || addr == 0x1F80_10F0 || addr == 0x1F80_10F4 || addr == 0x1F80_10F6,
        ensures
            addr == 0x1F80_10F0 ==> r == self.dpcr,
            addr == 0x1F80_10F4 ==> r == self.dicr.0,
            addr == 0x1F80_10F6 ==> r == self.dicr.0 >> 16u32,
            addr < 0x1F80_10F0 ==> ({
                let ch = self.channels@[((addr - DMA_START) / 16) as int];
                let reg = addr & 0xF;
                r == (if reg == 0 { ch.base } else if reg == 4 { ch.block_ctl.0 } else { ch.ctl.0 })
            }),
    {
        if addr < 0x1F80_10F0 {
            let channel = ((addr - DMA_START) / 16) as usize;
            proof { lemma_channel_index(addr); }
            self.channels[channel].read(addr & 0xF)
        } else if addr == 0x1F80_10F0 {
            self.dpcr
        } else if addr == 0x1F80_10F4 {
            self.dicr.0
        } else {
            self.dicr.0 >> 16u32
        }
    }

    /// Writes a DMA register and tells what follows from it: the transfer
    /// of a channel that became active, or a DMA interrupt.
    pub fn write_reg(&mut self, addr: u32, data: u32) -> (r: DmaEffect)
        requires
            (DMA_START <= addr < 0x1F80_10F0 && (addr & 0xF == 0 || addr & 0xF == 4 || addr & 0xF == 8))
                || addr == 0x1F80_10F0 || addr == 0x1F80_10F4 || addr == 0x1F80_10F6,
        ensures
            addr == 0x1F80_10F0 ==> final(self).dpcr == data && r == DmaEffect::Nothing,
            addr == 0x1F80_10F4 || addr == 0x1F80_10F6 ==> ({
                let d = if addr == 0x1F80_10F4 { data } else { data << 16u32 };
                let v = dicr_written(old(self).dicr.0, d);
                r == (if v & 0x8000_0000 == 0 && Interrupt(v).spec_master_flag() { DmaEffect::Interrupt } else { DmaEffect::Nothing })
            }),
            addr < 0x1F80_10F0 ==> ({
                let i = ((addr - DMA_START) / 16) as int;
                let port = spec_port_of(i as usize);
                let ch = final(self).channels@[i];
                &&& final(self).dpcr == old(self).dpcr
                &&& (port == Port::Otc && addr & 0xF == 8 ==> ch.ctl.0 == (data & 0x5100_0000) | 2)
                &&& r == (if (final(self).dpcr & (1u32 << (spec_port_index(port) * 4 + 3) as u32) != 0) && ch.spec_active() {
                    DmaEffect::Transfer(port)
                } else {
                    DmaEffect::Nothing
                })
            }),
    {
        if addr < 0x1F80_10F0 {
            proof { lemma_channel_index(addr); }
            let channel = ((addr - DMA_START) / 16) as usize;
            let register = addr & 0xF;
            let port = Port::from_index(channel);
            self.channels[channel].write(register, data);

            // OTC only supports backwards transfers to RAM
            if port == Port::Otc && register == 8 {
                self.channels[channel].ctl.0 = (self.channels[channel].ctl.0 & 0x5100_0000) | 2;
            }

            if self.channel_enabled(port) && self.channels[channel].active() {
                DmaEffect::Transfer(port)
            } else {
                DmaEffect::Nothing
            }
        } else if addr == 0x1F80_10F0 {
            self.write_dpcr(data);
            DmaEffect::Nothing
        } else {
            let d = if addr == 0x1F80_10F4 { data } else { data << 16u32 };
            if self.write_dicr(d) {
                DmaEffect::Interrupt
            } else {
                DmaEffect::Nothing
            }
        }
    }

    /// Marks the channel of `port` complete (enable and trigger cleared) and
    /// flags its interrupt where unmasked; tells whether the DMA interrupt
    /// should be raised.
    pub fn complete(&mut self, port: Port) -> (r: bool)
        ensures
            ({
                let i = spec_port_index(port) as int;
                let ch = old(self).channels@[i];
                final(self).channels@ == old(self).channels@.update(
                    i,
                    Channel { ctl: Control(ch.ctl.0 & !0x1100_0000u32), ..ch },
                )
            }),
            final(self).dpcr == old(self).dpcr,
            ({
                let v = flagged_on_complete(old(self).dicr.0, port);
                &&& final(self).dicr.0 == (if Interrupt(v).spec_master_flag() { v | 0x8000_0000 } else { v & 0x7FFF_FFFF })
                &&& r == (v & 0x8000_0000 == 0 && Interrupt(v).spec_master_flag())
            }),
    {
        let i = port.index();
        self.channels[i].done();
        proof {
            let ch = old(self).channels@[i as int];
            assert(self.channels@ =~= old(self).channels@.update(
                i as int,
                Channel { ctl: Control(ch.ctl.0 & !0x1100_0000u32), ..ch },
            ));
        }
        self.dicr.should_irq_on_channel_complete(port)
    }

    /// The ordering table clear: from the base address of channel 6
    /// downwards, each word links to the word below it and the last one
    /// holds the end marker FFFFFFh.
    pub fn clear_ordering_table(&self, ram: &mut Ram)
        requires
            old(ram).wf(),
            self.channels@[6].spec_transfer_size() is Some,
        ensures
            final(ram).wf(),
            final(ram).bytes@ == otc_fill(
                old(ram).bytes@,
                self.channels@[6].base,
                self.channels@[6].spec_transfer_size()->0,
            ),
    {
        let ch = &self.channels[6];
        let size = match ch.transfer_size() {
            Some(s) => s,
            None => 0,
        };
        let mut addr = ch.base;
        let mut s = size;
        while s > 0
            invariant
                ram.wf(),
                otc_fill(ram.bytes@, addr, s) == otc_fill(old(ram).bytes@, self.channels@[6].base, size),
            decreases s,
        {
            let ghost before = ram.bytes@;
            let cur = addr & 0x1F_FFFC;
            let word = if s == 1 { 0xFF_FFFF } else { addr.wrapping_sub(4) & 0x1F_FFFC };
            proof { lemma_word_aligned(addr); }
            ram.write(cur, 4, word);
            assert(ram.bytes@ =~= stored_word(before, cur as int, word));
            addr = addr.wrapping_sub(4);
            s = s - 1;
        }
    }
}

/// DICR after a channel completes: the channel's flag is set where its
/// interrupt is unmasked.
pub open spec fn flagged_on_complete(dicr: u32, port: Port) -> u32 {
    if dicr & (1u32 << (spec_port_index(port) + 16) as u32) != 0 {
        dicr | (1u32 << (spec_port_index(port) + 24) as u32)
    } else {
        dicr
    }
}

/// `mem` with the word `v` stored little-endian at byte `a`.
pub open spec fn stored_word(mem: Seq<u8>, a: int, v: u32) -> Seq<u8> {
    Seq::new(mem.len(), |i: int| if a <= i < a + 4 { byte_of(v, i - a) } else { mem[i] })
}

/// RAM after an ordering-table clear of `s` words starting at `addr` and
/// going down: each word points to the one below it, the last holds the end
/// marker.
pub open spec fn otc_fill(mem: Seq<u8>, addr: u32, s: u32) -> Seq<u8>
    decreases s,
{
    if s == 0 {
        mem
    } else {
        let word = if s == 1 { 0xFF_FFFFu32 } else { addr.wrapping_sub(4) & 0x1F_FFFC };
        otc_fill(stored_word(mem, (addr & 0x1F_FFFC) as int, word), addr.wrapping_sub(4), (s - 1) as u32)
    }
}

/// The address `k` words below `a`, wrapping below zero as the clear's
/// address does.
pub open spec fn otc_addr(a: u32, k: int) -> u32 {
    (if a >= 4 * k { a - 4 * k } else { a - 4 * k + 0x1_0000_0000 }) as u32
}

proof fn lemma_otc_shift(a: u32, k: int)
    requires
        0 <= k,
        4 * (k + 1) < 0x1_0000_0000,
    ensures
        otc_addr(a.wrapping_sub(4), k) == otc_addr(a, k + 1),
        otc_addr(a, 0) == a,
{
}

proof fn lemma_otc_distinct(a: u32, j: int)
    requires
        1 <= j < 0x8_0000,
    ensures
        otc_addr(a, j) & 0x1F_FFFC != a & 0x1F_FFFC,
{
    let x = otc_addr(a, j);
    let jj = j as u32;
    assert(x + 4 * jj == a || x + 4 * jj == a + 0x1_0000_0000);
    assert(x & 0x1F_FFFC != a & 0x1F_FFFC) by (bit_vector)
        requires
            x + 4 * jj == a || x + 4 * jj == a + 0x1_0000_0000,
            1 <= jj < 0x8_0000,
    ;
}

proof fn lemma_word_slot(p: u32)
    ensures
        (p & 0x1F_FFFC) % 4 == 0,
        (p & 0x1F_FFFC) + 4 <= 0x20_0000,
{
    assert((p & 0x1F_FFFC) % 4 == 0 && (p & 0x1F_FFFC) + 4 <= 0x20_0000) by (bit_vector);
}

proof fn lemma_same_word(s1: Seq<u8>, s2: Seq<u8>, p: int)
    requires
        0 <= p,
        p + 4 <= s1.len(),
        p + 4 <= s2.len(),
        forall|i: int| p <= i < p + 4 ==> s1[i] == s2[i],
    ensures
        le_value(s1, p, 4) == le_value(s2, p, 4),
{
    reveal_with_fuel(le_value, 5);
    assert(s1[p] == s2[p] && s1[p + 1] == s2[p + 1] && s1[p + 2] == s2[p + 2] && s1[p + 3] == s2[p + 3]);
}

/// The bytes of a word that no step of a clear writes keep their values.
proof fn lemma_otc_frame(mem: Seq<u8>, a: u32, s: u32, p: int)
    requires
        0 <= p,
        p + 4 <= mem.len(),
        p % 4 == 0,
        s <= 0x8_0000,
        forall|j: int| 0 <= j < s ==> #[trigger] otc_addr(a, j) & 0x1F_FFFC != p,
        mem.len() == RAM_SIZE,
    ensures
        otc_fill(mem, a, s).len() == mem.len(),
        forall|i: int| p <= i < p + 4 ==> otc_fill(mem, a, s)[i] == mem[i],
    decreases s,
{
    if s > 0 {
        let word = if s == 1 { 0xFF_FFFFu32 } else { a.wrapping_sub(4) & 0x1F_FFFC };
        let q = (a & 0x1F_FFFC) as int;
        lemma_word_slot(a);
        lemma_otc_shift(a, 0);
        assert(otc_addr(a, 0) & 0x1F_FFFC != p);
        let mem1 = stored_word(mem, q, word);
        assert forall|j: int| 0 <= j < s - 1 implies #[trigger] otc_addr(a.wrapping_sub(4), j) & 0x1F_FFFC != p by {
            lemma_otc_shift(a, j);
            assert(otc_addr(a, j + 1) & 0x1F_FFFC != p);
        }
        lemma_otc_frame(mem1, a.wrapping_sub(4), (s - 1) as u32, p);
        assert forall|i: int| p <= i < p + 4 implies mem1[i] == mem[i] by {
            assert(!(q <= i < q + 4));
        }
    }
}

/// An ordering-table clear of `s` words (fewer than 80000h, so that no two
/// of its words fall on one address) from `a` downwards leaves a linked
/// list: the word `k` steps down holds the address of the word one step
/// further down, and the last one holds the end marker FFFFFFh.
pub proof fn lemma_otc_links(mem: Seq<u8>, a: u32, s: u32, k: int)
    requires
        mem.len() == RAM_SIZE,
        s <= 0x8_0000,
        0 <= k < s,
    ensures
        le_value(otc_fill(mem, a, s), (otc_addr(a, k) & 0x1F_FFFC) as int, 4) == (if k == s - 1 {
            0xFF_FFFFu32
        } else {
            otc_addr(a, k + 1) & 0x1F_FFFC
        }) as int,
    decreases s,
{
    let q = (a & 0x1F_FFFC) as int;
    let word = if s == 1 { 0xFF_FFFFu32 } else { a.wrapping_sub(4) & 0x1F_FFFC };
    let mem1 = stored_word(mem, q, word);
    lemma_word_slot(a);
    lemma_otc_shift(a, 0);
    if k == 0 {
        assert forall|j: int| 0 <= j < s - 1 implies #[trigger] otc_addr(a.wrapping_sub(4), j) & 0x1F_FFFC != q by {
            lemma_otc_shift(a, j);
            lemma_otc_distinct(a, j + 1);
        }
        lemma_otc_frame(mem1, a.wrapping_sub(4), (s - 1) as u32, q);
        lemma_same_word(otc_fill(mem, a, s), mem1, q);
        assert(stored(mem, mem1, q, 4, word));
        lemma_read_after_write(mem, mem1, q, 4, word);
        assert(word & 0xFFFF_FFFFu32 == word) by (bit_vector);
    } else {
        lemma_otc_links(mem1, a.wrapping_sub(4), (s - 1) as u32, k - 1);
        lemma_otc_shift(a, k - 1);
        lemma_otc_shift(a, k);
    }
}

proof fn lemma_word_aligned(addr: u32)
    ensures
        (addr & 0x1F_FFFC) & 0x1F_FFFF == addr & 0x1F_FFFC,
        (addr & 0x1F_FFFC) + 4 <= 0x20_0000,
{
    assert((addr & 0x1F_FFFC) & 0x1F_FFFF == addr & 0x1F_FFFC && (addr & 0x1F_FFFC) + 4 <= 0x20_0000) by (bit_vector);
}

proof fn lemma_channel_index(addr: u32)
    requires
        DMA_START <= addr < 0x1F80_10F0,
    ensures
        (addr - DMA_START) / 16 < 7,
{
}

/// The RAM word address of word `k` of a block transfer that starts at
/// `base` and steps by four bytes in the given direction (wrapping, within
/// 2 MiB).
pub open spec fn block_addr(base: u32, step: Step, k: u32) -> u32 {
    let offset = k.wrapping_mul(4);
    (match step {
        Step::Increment => base.wrapping_add(offset),
        Step::Decrement => base.wrapping_sub(offset),
    }) & 0x1F_FFFC
}

pub fn block_word_addr(base: u32, step: Step, k: u32) -> (r: u32)
    ensures
        r == block_addr(base, step, k),
{
    let offset = k.wrapping_mul(4);
    (match step {
        Step::Increment => base.wrapping_add(offset),
        Step::Decrement => base.wrapping_sub(offset),
    }) & 0x1F_FFFC
}

/// A linked-list node's header: how many words follow it, and the next
/// node's address unless bit 23 ends the list.
pub fn list_node(header: u32) -> (r: (u32, Option<u32>))
    ensures
        r.0 == header >> 24u32,
        r.1 == (if header & 0x80_0000 != 0 { None } else { Some(header & 0x1F_FFFC) }),
{
    let next = header & 0xFF_FFFF;
    assert(next & 0x80_0000 == header & 0x80_0000 && next & 0x1F_FFFC == header & 0x1F_FFFC) by (bit_vector)
        requires
            next == header & 0xFF_FFFF,
    ;
    (header >> 24u32, if next & 0x80_0000 != 0 { None } else { Some(next & 0x1F_FFFC) })
}

} // verus!
