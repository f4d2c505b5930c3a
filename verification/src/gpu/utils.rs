use vstd::prelude::*;

use arrayvec::ArrayVec;

use crate::bytes::{word_items, words_len, words_new, words_push};

verus! {

/// The field of `width` bits (as the low-bit `mask`) at bit `lo` of `v`.
pub open spec fn field(v: u32, lo: u32, mask: u32) -> u32 {
    (v >> lo) & mask
}

/// `v` with the field at bit `lo` (low-bit `mask`) replaced by `x`.
pub open spec fn with_field(v: u32, lo: u32, mask: u32, x: u32) -> u32 {
    (v & !(mask << lo)) | ((x & mask) << lo)
}

pub fn get_field(v: u32, lo: u32, mask: u32) -> (r: u32)
    requires
        lo < 32,
    ensures
        r == field(v, lo, mask),
{
    (v >> lo) & mask
}

pub fn set_field(v: u32, lo: u32, mask: u32, x: u32) -> (r: u32)
    requires
        lo < 32,
    ensures
        r == with_field(v, lo, mask, x),
{
    (v & !(mask << lo)) | ((x & mask) << lo)
}

/// Writing a field and reading it back gives the value written, cut to the
/// field's width.
pub proof fn lemma_field_roundtrip(v: u32, lo: u32, mask: u32, x: u32)
    requires
        lo < 32,
        mask == 1 || mask == 3 || mask == 7 || mask == 0xF,
        (mask << lo) >> lo == mask,
    ensures
        field(with_field(v, lo, mask, x), lo, mask) == x & mask,
{
    assert((((v & !(mask << lo)) | ((x & mask) << lo)) >> lo) & mask == x & mask) by (bit_vector)
        requires
            lo < 32,
            mask == 1 || mask == 3 || mask == 7 || mask == 0xF,
            (mask << lo) >> lo == mask,
    ;
}

/// Writing a field keeps every field that does not overlap it.
pub proof fn lemma_field_kept(v: u32, lo: u32, mask: u32, x: u32, lo2: u32, mask2: u32)
    requires
        lo < 32,
        lo2 < 32,
        (mask2 << lo2) >> lo2 == mask2,
        (mask << lo) & (mask2 << lo2) == 0,
    ensures
        field(with_field(v, lo, mask, x), lo2, mask2) == field(v, lo2, mask2),
{
    assert(((((v & !(mask << lo)) | ((x & mask) << lo)) >> lo2) & mask2) == (v >> lo2) & mask2) by (bit_vector)
        requires
            lo < 32,
            lo2 < 32,
            (mask2 << lo2) >> lo2 == mask2,
            (mask << lo) & (mask2 << lo2) == 0,
    ;
}

/// Texture color bits per pixel.
#[derive(Clone, Copy, Debug, PartialEq, Eq, Structural)]
pub enum TextureDepth {
    T4,
    T8,
    T15,
}

impl TextureDepth {
    pub open spec fn from_bits_spec(b: u32) -> TextureDepth {
        if b == 1 {
            TextureDepth::T8
        } else if b == 2 {
            TextureDepth::T15
        } else {
            TextureDepth::T4
        }
    }

    pub open spec fn bits(self) -> u32 {
        match self {
            TextureDepth::T4 => 0,
            TextureDepth::T8 => 1,
            TextureDepth::T15 => 2,
        }
    }

    /// The depth of a field value; a value with no depth reads as 4-bit.
    pub fn from_bits(b: u32) -> (r: TextureDepth)
        ensures
            r == Self::from_bits_spec(b),
    {
        if b == 1 {
            TextureDepth::T8
        } else if b == 2 {
            TextureDepth::T15
        } else {
            TextureDepth::T4
        }
    }

    pub fn to_bits(self) -> (r: u32)
        ensures
            r == self.bits(),
    {
        match self {
            TextureDepth::T4 => 0,
            TextureDepth::T8 => 1,
            TextureDepth::T15 => 2,
        }
    }
}

/// Video modes.
#[derive(Clone, Copy, Debug, PartialEq, Eq, Structural)]
pub enum VMode {
    Ntsc,
    Pal,
}

impl VMode {
    pub fn from_bit(b: bool) -> (r: VMode)
        ensures
            r == (if b { VMode::Pal } else { VMode::Ntsc }),
    {
        if b {
            VMode::Pal
        } else {
            VMode::Ntsc
        }
    }
}

/// Requested DMA direction.
#[derive(Clone, Copy, Debug, PartialEq, Eq, Structural)]
pub enum DmaDirection {
    Off,
    Fifo,
    CpuToGpu,
    VRamToCpu,
}

impl DmaDirection {
    pub open spec fn bits(self) -> u32 {
        match self {
            DmaDirection::Off => 0,
            DmaDirection::Fifo => 1,
            DmaDirection::CpuToGpu => 2,
            DmaDirection::VRamToCpu => 3,
        }
    }

    /// The direction of a two-bit field value.
    pub fn from_bits(b: u32) -> (r: DmaDirection)
        requires
            b < 4,
        ensures
            r.bits() == b,
    {
        if b == 0 {
            DmaDirection::Off
        } else if b == 1 {
            DmaDirection::Fifo
        } else if b == 2 {
            DmaDirection::CpuToGpu
        } else {
            DmaDirection::VRamToCpu
        }
    }
}

/// Video output horizontal resolution.
#[derive(Clone, Copy, Debug, PartialEq, Eq, Structural)]
pub enum HorizontalRes {
    X256,
    X320,
    X512,
    X640,
    X368,
}

impl HorizontalRes {
    pub open spec fn from_bits_spec(b: u32) -> HorizontalRes {
        if b == 0 {
            HorizontalRes::X256
        } else if b == 1 {
            HorizontalRes::X320
        } else if b == 2 {
            HorizontalRes::X512
        } else if b == 3 {
            HorizontalRes::X640
        } else if b < 8 {
            HorizontalRes::X368
        } else {
            HorizontalRes::X256
        }
    }

    pub open spec fn value(self) -> u16 {
        match self {
            HorizontalRes::X256 => 256,
            HorizontalRes::X320 => 320,
            HorizontalRes::X368 => 368,
            HorizontalRes::X512 => 512,
            HorizontalRes::X640 => 640,
        }
    }

    /// The resolution of the three-bit field value: 4 to 7 all select 368.
    pub fn from_bits(b: u32) -> (r: HorizontalRes)
        ensures
            r == Self::from_bits_spec(b),
    {
        if b == 0 {
            HorizontalRes::X256
        } else if b == 1 {
            HorizontalRes::X320
        } else if b == 2 {
            HorizontalRes::X512
        } else if b == 3 {
            HorizontalRes::X640
        } else if b < 8 {
            HorizontalRes::X368
        } else {
            HorizontalRes::X256
        }
    }

    /// The width in pixels.
    pub fn as_value(self) -> (r: u16)
        ensures
            r == self.value(),
    {
        match self {
            HorizontalRes::X256 => 256,
            HorizontalRes::X320 => 320,
            HorizontalRes::X368 => 368,
            HorizontalRes::X512 => 512,
            HorizontalRes::X640 => 640,
        }
    }
}

/// Video output vertical resolution.
#[derive(Clone, Copy, Debug, PartialEq, Eq, Structural)]
pub enum VerticalRes {
    Y240,
    Y480,
}

impl VerticalRes {
    pub open spec fn value(self) -> u16 {
        match self {
            VerticalRes::Y240 => 240,
            VerticalRes::Y480 => 480,
        }
    }

    pub fn from_bit(b: bool) -> (r: VerticalRes)
        ensures
            r == (if b { VerticalRes::Y480 } else { VerticalRes::Y240 }),
    {
        if b {
            VerticalRes::Y480
        } else {
            VerticalRes::Y240
        }
    }

    /// The height in lines.
    pub fn as_value(self) -> (r: u16)
        ensures
            r == self.value(),
    {
        match self {
            VerticalRes::Y240 => 240,
            VerticalRes::Y480 => 480,
        }
    }
}

/// A rectangle being copied between VRAM and the CPU, halfword by halfword,
/// row by row.
#[derive(Clone, Copy, Debug, PartialEq, Eq, Structural)]
pub struct VramCopyFields {
    pub vram_x: u16,
    pub vram_y: u16,
    pub width: u16,
    pub height: u16,
    pub current_row: u16,
    pub current_col: u16,
}

impl VramCopyFields {
    /// The copy is under way: its position lies inside the rectangle.
    pub open spec fn wf(self) -> bool {
        self.current_col < self.width && self.current_row < self.height
    }

    /// The VRAM column and row of the current position, wrapped to the
    /// 1024 x 512 VRAM.
    pub open spec fn position(self) -> (usize, usize) {
        (
            (self.vram_x.wrapping_add(self.current_col) & 0x3FF) as usize,
            (self.vram_y.wrapping_add(self.current_row) & 0x1FF) as usize,
        )
    }

    pub fn current_position(&self) -> (r: (usize, usize))
        ensures
            r == self.position(),
    {
        (
            (self.vram_x.wrapping_add(self.current_col) & 0x3FF) as usize,
            (self.vram_y.wrapping_add(self.current_row) & 0x1FF) as usize,
        )
    }
}

/// The GP0 commands that take a fixed number of words.
#[derive(Clone, Copy, Debug, PartialEq, Eq, Structural)]
pub enum Gp0Op {
    PolyMono { quad: bool, trans: bool },
    PolyShaded { quad: bool, trans: bool },
    PolyTexture { quad: bool, trans: bool, blend: bool },
    PolyTextureShaded { quad: bool, trans: bool, blend: bool },
    LineMono { trans: bool },
    LineShaded { trans: bool },
    RectVariable { trans: bool },
    RectFixed { size: u8, trans: bool },
    QuickRectFill,
    VramToVramBlit,
    ImageLoad,
    ImageStore,
    Nop,
    ClearCache,
    DrawMode,
    TextureWindow,
    DrawingAreaTopLeft,
    DrawingAreaBottomRight,
    DrawingAreaOffset,
    MaskBitSetting,
}

/// The GP0 polyline commands, which run until a terminator word.
#[derive(Clone, Copy, Debug, PartialEq, Eq, Structural)]
pub enum PolyLineOp {
    Mono { trans: bool },
    Shaded { trans: bool },
}

/// The words of a fixed-length command gathered so far, with the command
/// they belong to and how many it takes.
pub struct CommandArguments {
    pub op: Gp0Op,
    pub params: ArrayVec<u32, 16>,
    pub target_len: usize,
}

impl CommandArguments {
    /// More words are awaited.
    pub open spec fn wf(&self) -> bool {
        word_items(self.params).len() < self.target_len <= 16
    }

    pub fn new(op: Gp0Op, target_len: usize) -> (c: Self)
        ensures
            c.op == op,
            c.target_len == target_len,
            word_items(c.params) == Seq::<u32>::empty(),
    {
        CommandArguments { op, params: words_new(), target_len }
    }

    pub fn push(&mut self, data: u32)
        requires
            word_items(old(self).params).len() < 16,
        ensures
            final(self).op == old(self).op,
            final(self).target_len == old(self).target_len,
            word_items(final(self).params) == word_items(old(self).params).push(data),
    {
        words_push(&mut self.params, data);
    }

    /// All the words the command takes are there.
    pub fn done(&self) -> (r: bool)
        ensures
            r == (word_items(self.params).len() == self.target_len),
    {
        words_len(&self.params) == self.target_len
    }
}

/// Whether a polyline word is the terminator (`5xxx5xxx`).
pub open spec fn is_terminator(data: u32) -> bool {
    data & 0xF000_F000 == 0x5000_5000
}

/// The words of a polyline gathered so far: its colors (the command word's
/// first) and its vertices.
pub struct PolyLineArguments {
    pub op: PolyLineOp,
    pub vertices: Vec<u32>,
    pub colors: Vec<u32>,
    pub shaded: bool,
    pub done: bool,
}

impl PolyLineArguments {
    /// Whether the next word is a color: the first word is, and on a shaded
    /// line a color comes before each vertex.
    pub open spec fn needs_color(&self) -> bool {
        self.colors@.len() == 0 || (self.shaded && self.colors@.len() <= self.vertices@.len())
    }

    pub fn new(op: PolyLineOp, color: bool) -> (p: Self)
        ensures
            p.op == op,
            p.shaded == color,
            !p.done,
            p.vertices@ == Seq::<u32>::empty(),
            p.colors@ == Seq::<u32>::empty(),
    {
        PolyLineArguments { op, vertices: Vec::new(), colors: Vec::new(), shaded: color, done: false }
    }

    /// The vertices, colors and end flag after taking word `data`: nothing
    /// changes once done; the terminator ends the line; any other word is
    /// the next color or the next vertex.
    pub open spec fn after_push(&self, data: u32) -> (Seq<u32>, Seq<u32>, bool) {
        if self.done {
            (self.vertices@, self.colors@, true)
        } else if is_terminator(data) {
            (self.vertices@, self.colors@, true)
        } else if self.needs_color() {
            (self.vertices@, self.colors@.push(data), false)
        } else {
            (self.vertices@.push(data), self.colors@, false)
        }
    }

    pub fn push(&mut self, data: u32)
        ensures
            final(self).op == old(self).op,
            final(self).shaded == old(self).shaded,
            (final(self).vertices@, final(self).colors@, final(self).done) == old(self).after_push(data),
    {
        if self.done {
            return;
        }
        if data & 0xF000_F000 == 0x5000_5000 {
            self.done = true;
            return;
        }
        let needs_color = self.colors.len() == 0 || (self.shaded && self.colors.len() <= self.vertices.len());
        if needs_color {
            self.colors.push(data);
        } else {
            self.vertices.push(data);
        }
    }

    pub fn is_done(&self) -> (r: bool)
        ensures
            r == self.done,
    {
        self.done
    }
}

/// An 11-bit two's complement value held in the low bits of `v`.
pub open spec fn sign_extend_11(v: u32) -> i32 {
    let low = v % 2048;
    if low >= 1024 {
        (low - 2048) as i32
    } else {
        low as i32
    }
}

pub open spec fn xy_of(data: u32) -> (i32, i32) {
    (sign_extend_11(data & 0xFFFF), sign_extend_11((data >> 16) & 0xFFFF))
}

/// Parses `YYYYXXXX` into x and y vertex coordinates, both 11-bit signed
/// numbers.
pub fn parse_xy(data: u32) -> (r: (i32, i32))
    ensures
        r == xy_of(data),
{
    (sext11(data & 0xFFFF), sext11((data >> 16) & 0xFFFF))
}

fn sext11(v: u32) -> (r: i32)
    ensures
        r == sign_extend_11(v),
{
    let low = v % 2048;
    if low >= 1024 {
        low as i32 - 2048
    } else {
        low as i32
    }
}

/// Parses a texture coordinate word: u in bits 0-7, v in bits 8-15.
pub fn parse_uv(data: u32) -> (r: (i32, i32))
    ensures
        r == ((data & 0xFF) as i32, ((data >> 8) & 0xFF) as i32),
{
    let u = data & 0xFF;
    let v = (data >> 8) & 0xFF;
    assert(u <= 0xFF && v <= 0xFF) by (bit_vector)
        requires
            u == data & 0xFF,
            v == (data >> 8) & 0xFF,
    ;
    (u as i32, v as i32)
}

} // verus!
