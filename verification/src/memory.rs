//! Main RAM, BIOS ROM, scratchpad and the physical memory map.
use vstd::prelude::*;

use crate::cpu::instruction::Exception;

verus! {

pub const RAM_SIZE: usize = 0x20_0000;
pub const BIOS_SIZE: usize = 512 * 1024;
pub const SCRATCH_SIZE: usize = 0x400;

pub const RAM_START: u32 = 0x0000_0000;
pub const RAM_END: u32 = 0x0080_0000;
pub const BIOS_START: u32 = 0x1FC0_0000;
pub const BIOS_END: u32 = 0x1FC8_0000;
pub const SCRATCH_START: u32 = 0x1F80_0000;
pub const SCRATCH_END: u32 = 0x1F80_0400;

/// Byte `i` (0..3) of `v`, least significant first.
pub open spec fn byte_of(v: u32, i: int) -> u8 {
    if i == 0 {
        (v & 0xFF) as u8
    } else if i == 1 {
        ((v >> 8u32) & 0xFF) as u8
    } else if i == 2 {
        ((v >> 16u32) & 0xFF) as u8
    } else {
        (v >> 24u32) as u8
    }
}

/// The little-endian value of the `w` bytes of `s` starting at `a`.
pub open spec fn le_value(s: Seq<u8>, a: int, w: int) -> int
    decreases w,
{
    if w <= 0 {
        0
    } else {
        s[a] + 0x100 * le_value(s, a + 1, w - 1)
    }
}

/// Mask of the low `width` bytes.
pub open spec fn width_mask(width: usize) -> u32 {
    if width == 1 {
        0xFF
    } else if width == 2 {
        0xFFFF
    } else {
        0xFFFF_FFFF
    }
}

pub open spec fn valid_width(width: usize) -> bool {
    width == 1 || width == 2 || width == 4
}

/// `new` is `old` with the low `width` bytes of `v` stored little-endian at `a`.
pub open spec fn stored(old: Seq<u8>, new: Seq<u8>, a: int, width: int, v: u32) -> bool {
    &&& new.len() == old.len()
    &&& forall|i: int| 0 <= i < old.len() ==> #[trigger] new[i] == (if a <= i < a + width { byte_of(v, i - a) } else { old[i] })
}

proof fn lemma_bytes_facts(v: u32)
    ensures
        (v & 0xFF) as int + 0x100 * ((v >> 8u32) & 0xFF) as int + 0x1_0000 * ((v >> 16u32) & 0xFF) as int
            + 0x100_0000 * ((v >> 24u32) as u8) as int == v as int,
        (v & 0xFF) as int + 0x100 * ((v >> 8u32) & 0xFF) as int == (v & 0xFFFF) as int,
        (v & 0xFF) as int == (v & 0xFF) as u8 as int,
        ((v >> 8u32) & 0xFF) as int == ((v >> 8u32) & 0xFF) as u8 as int,
        ((v >> 16u32) & 0xFF) as int == ((v >> 16u32) & 0xFF) as u8 as int,
{
    assert((v & 0xFF) as int + 0x100 * ((v >> 8u32) & 0xFF) as int + 0x1_0000 * ((v >> 16u32) & 0xFF) as int
        + 0x100_0000 * ((v >> 24u32) as u8) as int == v as int && (v & 0xFF) as int + 0x100 * ((v >> 8u32)
        & 0xFF) as int == (v & 0xFFFF) as int && (v & 0xFF) as int == (v & 0xFF) as u8 as int && ((v
        >> 8u32) & 0xFF) as int == ((v >> 8u32) & 0xFF) as u8 as int && ((v >> 16u32) & 0xFF) as int == ((v
        >> 16u32) & 0xFF) as u8 as int) by (bit_vector);
}

/// Reads `width` bytes little-endian at `a`.
pub(crate) fn read_bytes(s: &Vec<u8>, a: usize, width: usize) -> (r: u32)
    requires
        valid_width(width),
        a + width <= s@.len(),
    ensures
        r as int == le_value(s@, a as int, width as int),
{
    let _len = s.len();
    proof { reveal_with_fuel(le_value, 5); }
    let b0 = s[a] as u32;
    if width == 1 {
        return b0;
    }
    let b1 = s[a + 1] as u32;
    if width == 2 {
        return b0 + b1 * 0x100;
    }
    let b2 = s[a + 2] as u32;
    let b3 = s[a + 3] as u32;
    b0 + b1 * 0x100 + b2 * 0x1_0000 + b3 * 0x100_0000
}

/// Stores the low `width` bytes of `v` little-endian at `a`.
pub(crate) fn write_bytes(s: &mut Vec<u8>, a: usize, width: usize, v: u32)
    requires
        valid_width(width),
        a + width <= old(s)@.len(),
    ensures
        stored(old(s)@, final(s)@, a as int, width as int, v),
{
    let _len = s.len();
    proof { lemma_bytes_facts(v); }
    s.set(a, (v & 0xFF) as u8);
    if width >= 2 {
        s.set(a + 1, ((v >> 8u32) & 0xFF) as u8);
    }
    if width == 4 {
        s.set(a + 2, ((v >> 16u32) & 0xFF) as u8);
        s.set(a + 3, (v >> 24u32) as u8);
    }
}

/// Reading back the bytes just stored gives the stored value, cut to its width.
pub proof fn lemma_read_after_write(old: Seq<u8>, new: Seq<u8>, a: int, width: int, v: u32)
    requires
        width == 1 || width == 2 || width == 4,
        0 <= a,
        a + width <= old.len(),
        stored(old, new, a, width, v),
    ensures
        le_value(new, a, width) == (v & width_mask(width as usize)) as int,
{
    lemma_bytes_facts(v);
    reveal_with_fuel(le_value, 5);
    assert(new[a] == byte_of(v, 0));
    if width >= 2 {
        assert(new[a + 1] == byte_of(v, 1));
    }
    if width == 4 {
        assert(new[a + 2] == byte_of(v, 2));
        assert(new[a + 3] == byte_of(v, 3));
    }
    assert((v & 0xFFFF_FFFFu32) == v) by (bit_vector);
    assert((v & 0xFFu32) as int == (v & 0xFF) as u8 as int);
}

/// Bytes outside a stored range keep their values.
pub proof fn lemma_write_elsewhere(old: Seq<u8>, new: Seq<u8>, a: int, width: int, v: u32, b: int, w2: int)
    requires
        0 <= b,
        0 <= w2 <= 4,
        b + w2 <= old.len(),
        stored(old, new, a, width, v),
        b + w2 <= a || a + width <= b,
    ensures
        le_value(new, b, w2) == le_value(old, b, w2),
{
    reveal_with_fuel(le_value, 5);
    if w2 >= 1 {
        assert(new[b] == old[b]);
    }
    if w2 >= 2 {
        assert(new[b + 1] == old[b + 1]);
    }
    if w2 >= 3 {
        assert(new[b + 2] == old[b + 2]);
    }
    if w2 >= 4 {
        assert(new[b + 3] == old[b + 3]);
    }
}

/// Main RAM (2 MiB, mirrored over the first 8 MiB).
pub struct Ram {
    pub bytes: Vec<u8>,
}

impl Ram {
    pub open spec fn wf(&self) -> bool {
        self.bytes@.len() == RAM_SIZE
    }

    /// Offset into RAM of a physical address.
    pub open spec fn offset(addr: u32) -> int {
        (addr & 0x1F_FFFF) as int
    }

    pub fn new() -> (r: Self)
        ensures
            r.wf(),
            forall|i: int| 0 <= i < RAM_SIZE ==> r.bytes@[i] == 0,
    {
        Ram { bytes: vec![0u8; RAM_SIZE] }
    }

    /// Reads `width` bytes at `addr`, which must not run past the end of RAM.
    pub fn read(&self, addr: u32, width: usize) -> (r: u32)
        requires
            self.wf(),
            valid_width(width),
            Ram::offset(addr) + width <= RAM_SIZE,
        ensures
            r as int == le_value(self.bytes@, Ram::offset(addr), width as int),
    {
        read_bytes(&self.bytes, (addr & 0x1F_FFFF) as usize, width)
    }

    /// Writes the low `width` bytes of `val` at `addr`.
    pub fn write(&mut self, addr: u32, width: usize, val: u32)
        requires
            old(self).wf(),
            valid_width(width),
            Ram::offset(addr) + width <= RAM_SIZE,
        ensures
            final(self).wf(),
            stored(old(self).bytes@, final(self).bytes@, Ram::offset(addr), width as int, val),
    {
        write_bytes(&mut self.bytes, (addr & 0x1F_FFFF) as usize, width, val);
    }
}

/// Scratchpad (1 KiB of fast RAM).
pub struct Scratch {
    pub bytes: Vec<u8>,
}

impl Scratch {
    pub open spec fn wf(&self) -> bool {
        self.bytes@.len() == SCRATCH_SIZE
    }

    pub fn new() -> (r: Self)
        ensures
            r.wf(),
            forall|i: int| 0 <= i < SCRATCH_SIZE ==> r.bytes@[i] == 0,
    {
        Scratch { bytes: vec![0u8; SCRATCH_SIZE] }
    }

    pub fn read(&self, addr: u32, width: usize) -> (r: u32)
        requires
            self.wf(),
            valid_width(width),
            SCRATCH_START <= addr,
            addr - SCRATCH_START + width <= SCRATCH_SIZE,
        ensures
            r as int == le_value(self.bytes@, addr - SCRATCH_START, width as int),
    {
        read_bytes(&self.bytes, (addr - SCRATCH_START) as usize, width)
    }

    pub fn write(&mut self, addr: u32, width: usize, val: u32)
        requires
            old(self).wf(),
            valid_width(width),
            SCRATCH_START <= addr,
            addr - SCRATCH_START + width <= SCRATCH_SIZE,
        ensures
            final(self).wf(),
            stored(old(self).bytes@, final(self).bytes@, addr - SCRATCH_START, width as int, val),
    {
        write_bytes(&mut self.bytes, (addr - SCRATCH_START) as usize, width, val);
    }
}

/// Why a BIOS image was refused.
#[derive(Clone, Copy, PartialEq, Eq, Structural)]
pub enum BiosError {
    /// The image is not exactly 512 KiB.
    InvalidImage,
}

/// BIOS ROM (512 KiB).
pub struct Bios {
    pub bytes: Vec<u8>,
}

impl Bios {
    pub open spec fn wf(&self) -> bool {
        self.bytes@.len() == BIOS_SIZE
    }

    /// Accepts an image of exactly 512 KiB.
    pub fn new(bytes: Vec<u8>) -> (r: Result<Self, BiosError>)
        ensures
            bytes@.len() == BIOS_SIZE <==> r is Ok,
            r matches Ok(b) ==> b.bytes@ == bytes@ && b.wf(),
            r matches Err(e) ==> e == BiosError::InvalidImage,
    {
        if bytes.len() != BIOS_SIZE {
            return Err(BiosError::InvalidImage);
        }
        Ok(Bios { bytes })
    }

    pub fn read(&self, addr: u32, width: usize) -> (r: u32)
        requires
            self.wf(),
            valid_width(width),
            BIOS_START <= addr,
            addr - BIOS_START + width <= BIOS_SIZE,
        ensures
            r as int == le_value(self.bytes@, addr - BIOS_START, width as int),
    {
        read_bytes(&self.bytes, (addr - BIOS_START) as usize, width)
    }
}

/// What a debugger fetch at `addr` shows: the word in RAM, BIOS or
/// scratchpad, else FFFFFFFFh.
pub open spec fn fetched_word(ram: &Ram, bios: &Bios, scratch: &Scratch, addr: u32) -> int {
    let a = spec_mask_region(addr);
    if RAM_START <= a < RAM_END {
        le_value(ram.bytes@, Ram::offset(a), 4)
    } else if BIOS_START <= a < BIOS_END {
        le_value(bios.bytes@, a - BIOS_START, 4)
    } else if SCRATCH_START <= a < SCRATCH_END {
        le_value(scratch.bytes@, a - SCRATCH_START, 4)
    } else {
        0xFFFF_FFFF
    }
}

/// A word fetch at `addr` stays inside the memory it falls in.
pub open spec fn fetch_in_bounds(addr: u32) -> bool {
    let a = spec_mask_region(addr);
    &&& RAM_START <= a < RAM_END ==> Ram::offset(a) + 4 <= RAM_SIZE
    &&& BIOS_START <= a < BIOS_END ==> a - BIOS_START + 4 <= BIOS_SIZE
    &&& SCRATCH_START <= a < SCRATCH_END ==> a - SCRATCH_START + 4 <= SCRATCH_SIZE
}

/// Whether a word fetch at `addr` stays inside the memory it falls in.
pub fn fetch_in_range(addr: u32) -> (r: bool)
    ensures
        r == fetch_in_bounds(addr),
{
    let a = mask_region(addr);
    (!(a < RAM_END) || (a & 0x1F_FFFF) <= 0x1F_FFFC)
        && (!(BIOS_START <= a && a < BIOS_END) || a - BIOS_START + 4 <= 0x8_0000)
        && (!(SCRATCH_START <= a && a < SCRATCH_END) || a - SCRATCH_START + 4 <= 0x400)
}

/// Reads the instruction word at `addr` for a debugger, without touching
/// any device: RAM, BIOS and scratchpad give their word, anything else
/// FFFFFFFFh.
pub fn fetch_instruction(ram: &Ram, bios: &Bios, scratch: &Scratch, addr: u32) -> (r: u32)
    requires
        ram.wf(),
        bios.wf(),
        scratch.wf(),
        fetch_in_bounds(addr),
    ensures
        r as int == fetched_word(ram, bios, scratch, addr),
{
    let a = mask_region(addr);
    if a < RAM_END {
        ram.read(a, 4)
    } else if BIOS_START <= a && a < BIOS_END {
        bios.read(a, 4)
    } else if SCRATCH_START <= a && a < SCRATCH_END {
        scratch.read(a, 4)
    } else {
        0xFFFF_FFFF
    }
}

/// Physical address of a virtual one: KSEG0 and KSEG1 drop their segment bits.
pub open spec fn spec_mask_region(addr: u32) -> u32 {
    let seg = addr >> 29u32;
    if seg == 4 {
        addr & 0x7FFF_FFFF
    } else if seg == 5 {
        addr & 0x1FFF_FFFF
    } else {
        addr
    }
}

pub fn mask_region(addr: u32) -> (r: u32)
    ensures
        r == spec_mask_region(addr),
{
    let seg = addr >> 29u32;
    if seg == 4 {
        addr & 0x7FFF_FFFF
    } else if seg == 5 {
        addr & 0x1FFF_FFFF
    } else {
        addr
    }
}

/// A window of the address space: start and length.
pub struct Range(pub u32, pub u32);

impl Range {
    /// The offset of `addr` in the window, if it lies in it.
    pub fn contains(&self, addr: u32) -> (r: Option<u32>)
        requires
            self.0 + self.1 <= u32::MAX,
        ensures
            r == (if self.0 <= addr < self.0 + self.1 { Some((addr - self.0) as u32) } else { None::<u32> }),
    {
        if self.0 <= addr && addr < self.0 + self.1 {
            Some(addr - self.0)
        } else {
            None
        }
    }
}

/// What a physical address maps to.
#[derive(Clone, Copy, PartialEq, Eq, Structural)]
pub enum Region {
    Ram,
    Bios,
    Scratch,
    Gpu,
    Dma,
    Irq,
    Timers,
    CdRom,
    Sio,
    Spu,
    Mdec,
    /// Memory control registers: stubbed
    MemCtl,
    /// RAM size register: reads the configured 2 MiB
    RamSize,
    /// Cache control register
    CacheCtl,
    /// Expansion region 1: stubbed
    Expansion1,
    /// Expansion region 2
    Expansion2,
    Unmapped,
}

/// The region of a physical address.
pub open spec fn spec_region(a: u32) -> Region {
    if RAM_START <= a < RAM_END {
        Region::Ram
    } else if BIOS_START <= a < BIOS_END {
        Region::Bios
    } else if SCRATCH_START <= a < SCRATCH_END {
        Region::Scratch
    } else if 0x1F80_1810 <= a < 0x1F80_1818 {
        Region::Gpu
    } else if 0x1F80_1080 <= a < 0x1F80_1100 {
        Region::Dma
    } else if 0x1F80_1070 <= a < 0x1F80_1077 {
        Region::Irq
    } else if 0x1F80_1100 <= a < 0x1F80_112F {
        Region::Timers
    } else if 0x1F80_1800 <= a < 0x1F80_1804 {
        Region::CdRom
    } else if 0x1F80_1040 <= a < 0x1F80_105F {
        Region::Sio
    } else if 0x1F80_1C00 <= a < 0x1F80_1E80 {
        Region::Spu
    } else if 0x1F80_1820 <= a < 0x1F80_1828 {
        Region::Mdec
    } else if 0x1F80_1000 <= a < 0x1F80_1024 {
        Region::MemCtl
    } else if 0x1F80_1060 <= a < 0x1F80_1064 {
        Region::RamSize
    } else if 0xFFFE_0130 <= a < 0xFFFE_0134 {
        Region::CacheCtl
    } else if 0x1F00_0000 <= a < 0x1F00_0100 {
        Region::Expansion1
    } else if 0x1F80_2000 <= a < 0x1F80_2042 {
        Region::Expansion2
    } else {
        Region::Unmapped
    }
}

pub fn region(a: u32) -> (r: Region)
    ensures
        r == spec_region(a),
{
    if a < RAM_END {
        Region::Ram
    } else if BIOS_START <= a && a < BIOS_END {
        Region::Bios
    } else if SCRATCH_START <= a && a < SCRATCH_END {
        Region::Scratch
    } else if 0x1F80_1810 <= a && a < 0x1F80_1818 {
        Region::Gpu
    } else if 0x1F80_1080 <= a && a < 0x1F80_1100 {
        Region::Dma
    } else if 0x1F80_1070 <= a && a < 0x1F80_1077 {
        Region::Irq
    } else if 0x1F80_1100 <= a && a < 0x1F80_112F {
        Region::Timers
    } else if 0x1F80_1800 <= a && a < 0x1F80_1804 {
        Region::CdRom
    } else if 0x1F80_1040 <= a && a < 0x1F80_105F {
        Region::Sio
    } else if 0x1F80_1C00 <= a && a < 0x1F80_1E80 {
        Region::Spu
    } else if 0x1F80_1820 <= a && a < 0x1F80_1828 {
        Region::Mdec
    } else if 0x1F80_1000 <= a && a < 0x1F80_1024 {
        Region::MemCtl
    } else if 0x1F80_1060 <= a && a < 0x1F80_1064 {
        Region::RamSize
    } else if 0xFFFE_0130 <= a && a < 0xFFFE_0134 {
        Region::CacheCtl
    } else if 0x1F00_0000 <= a && a < 0x1F00_0100 {
        Region::Expansion1
    } else if 0x1F80_2000 <= a && a < 0x1F80_2042 {
        Region::Expansion2
    } else {
        Region::Unmapped
    }
}

/// Decodes a bus read: a misaligned address raises a load address error,
/// else the physical address and its region.
pub fn decode_read(addr: u32, width: usize) -> (r: Result<(u32, Region), Exception>)
    requires
        valid_width(width),
    ensures
        addr % (width as u32) != 0 ==> r == Err::<(u32, Region), Exception>(Exception::LoadAddressError(addr)),
        addr % (width as u32) == 0 ==> r == Ok::<(u32, Region), Exception>((spec_mask_region(addr), spec_region(spec_mask_region(addr)))),
{
    if addr % (width as u32) != 0 {
        return Err(Exception::LoadAddressError(addr));
    }
    let a = mask_region(addr);
    Ok((a, region(a)))
}

/// Decodes a bus write: a misaligned address raises a store address error,
/// else the physical address and its region.
pub fn decode_write(addr: u32, width: usize) -> (r: Result<(u32, Region), Exception>)
    requires
        valid_width(width),
    ensures
        addr % (width as u32) != 0 ==> r == Err::<(u32, Region), Exception>(Exception::StoreAddressError(addr)),
        addr % (width as u32) == 0 ==> r == Ok::<(u32, Region), Exception>((spec_mask_region(addr), spec_region(spec_mask_region(addr)))),
{
    if addr % (width as u32) != 0 {
        return Err(Exception::StoreAddressError(addr));
    }
    let a = mask_region(addr);
    Ok((a, region(a)))
}

/// A bus read value cut to its width, so that byte and half word loads see
/// clean values.
pub fn mask_to_width(data: u32, width: usize) -> (r: u32)
    ensures
        r == data & width_mask(width),
{
    if width == 1 {
        data & 0xFF
    } else if width == 2 {
        data & 0xFFFF
    } else {
        data & 0xFFFF_FFFF
    }
}

} // verus!
