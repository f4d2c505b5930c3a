pub mod draw;
pub mod renderer;
pub mod utils;

use vstd::prelude::*;

use crate::bytes::{word_items, words_to_vec};
use utils::{
    CommandArguments, Gp0Op, HorizontalRes, PolyLineArguments, PolyLineOp, TextureDepth,
    VerticalRes, VramCopyFields, field, get_field, is_terminator, parse_xy, set_field, with_field,
    xy_of,
};

verus! {

/// What the GP0 port waits for.
pub enum GP0State {
    AwaitCommand,
    AwaitArgs(CommandArguments),
    CopyToVram(VramCopyFields),
    CopyFromVram(VramCopyFields),
    PolyLine(PolyLineArguments),
}

/// A halfword to store in VRAM at a column and row.
#[derive(Clone, Copy, Debug, PartialEq, Eq, Structural)]
pub struct VramWrite {
    pub col: usize,
    pub row: usize,
    pub value: u16,
}

/// What a GP0 word leaves for the renderer to do.
pub enum Gp0Effect {
    Nothing,
    /// A complete command with all its words, the command word first.
    Command { op: Gp0Op, params: Vec<u32> },
    /// A complete polyline.
    PolyLine { op: PolyLineOp, vertices: Vec<u32>, colors: Vec<u32> },
    /// Halfwords of a CPU-to-VRAM copy, in order.
    VramWrites(Vec<VramWrite>),
}

/// What a GP1 command leaves for the renderer to do.
#[derive(Clone, Copy, Debug, PartialEq, Eq, Structural)]
pub enum Gp1Effect {
    Nothing,
    ResetContext,
    DisplayEnable { off: bool },
    DisplayVramStart { x: u16, y: u16 },
    /// The displayed width in pixels: the range's length in dot clock
    /// divided by the divider, rounded to a multiple of 4.
    HorizontalRange { width: u16 },
    VerticalRange { lines: u16 },
    DisplayMode { width: u16, height: u16, depth_24: bool, interlaced: bool },
    /// Latch the drawing-context register `index` (3 to 5) into the read
    /// port.
    ReadContext { index: u32 },
}

/// The command that a GP0 opcode starts, unless it starts a polyline.
pub open spec fn gp0_command(opcode: u32) -> Option<Gp0Op> {
    match opcode {
        0x20 => Some(Gp0Op::PolyMono { quad: false, trans: false }),
        0x22 => Some(Gp0Op::PolyMono { quad: false, trans: true }),
        0x30 => Some(Gp0Op::PolyShaded { quad: false, trans: false }),
        0x32 => Some(Gp0Op::PolyShaded { quad: false, trans: true }),
        0x24 => Some(Gp0Op::PolyTexture { quad: false, trans: false, blend: true }),
        0x25 => Some(Gp0Op::PolyTexture { quad: false, trans: false, blend: false }),
        0x26 => Some(Gp0Op::PolyTexture { quad: false, trans: true, blend: true }),
        0x27 => Some(Gp0Op::PolyTexture { quad: false, trans: true, blend: false }),
        0x34 => Some(Gp0Op::PolyTextureShaded { quad: false, trans: false, blend: true }),
        0x36 => Some(Gp0Op::PolyTextureShaded { quad: false, trans: true, blend: true }),
        0x28 => Some(Gp0Op::PolyMono { quad: true, trans: false }),
        0x2A => Some(Gp0Op::PolyMono { quad: true, trans: true }),
        0x38 => Some(Gp0Op::PolyShaded { quad: true, trans: false }),
        0x3A => Some(Gp0Op::PolyShaded { quad: true, trans: true }),
        0x2C => Some(Gp0Op::PolyTexture { quad: true, trans: false, blend: true }),
        0x2D => Some(Gp0Op::PolyTexture { quad: true, trans: false, blend: false }),
        0x2E => Some(Gp0Op::PolyTexture { quad: true, trans: true, blend: true }),
        0x2F => Some(Gp0Op::PolyTexture { quad: true, trans: true, blend: false }),
        0x3C => Some(Gp0Op::PolyTextureShaded { quad: true, trans: false, blend: true }),
        0x3E => Some(Gp0Op::PolyTextureShaded { quad: true, trans: true, blend: true }),
        0x40 => Some(Gp0Op::LineMono { trans: false }),
        0x42 => Some(Gp0Op::LineMono { trans: true }),
        0x50 => Some(Gp0Op::LineShaded { trans: false }),
        0x52 => Some(Gp0Op::LineShaded { trans: true }),
        0x60 => Some(Gp0Op::RectVariable { trans: false }),
        0x68 => Some(Gp0Op::RectFixed { size: 1, trans: false }),
        0x70 => Some(Gp0Op::RectFixed { size: 8, trans: false }),
        0x78 => Some(Gp0Op::RectFixed { size: 16, trans: false }),
        0x62 => Some(Gp0Op::RectVariable { trans: true }),
        0x6A => Some(Gp0Op::RectFixed { size: 1, trans: true }),
        0x72 => Some(Gp0Op::RectFixed { size: 8, trans: true }),
        0x7A => Some(Gp0Op::RectFixed { size: 16, trans: true }),
        0x02 => Some(Gp0Op::QuickRectFill),
        0x80 => Some(Gp0Op::VramToVramBlit),
        0xA0 => Some(Gp0Op::ImageLoad),
        0xC0 => Some(Gp0Op::ImageStore),
        0x00 => Some(Gp0Op::Nop),
        0x01 => Some(Gp0Op::ClearCache),
        0xE1 => Some(Gp0Op::DrawMode),
        0xE2 => Some(Gp0Op::TextureWindow),
        0xE3 => Some(Gp0Op::DrawingAreaTopLeft),
        0xE4 => Some(Gp0Op::DrawingAreaBottomRight),
        0xE5 => Some(Gp0Op::DrawingAreaOffset),
        0xE6 => Some(Gp0Op::MaskBitSetting),
        _ => None,
    }
}

/// The polyline that a GP0 opcode starts, and whether it is shaded.
pub open spec fn polyline_command(opcode: u32) -> Option<(PolyLineOp, bool)> {
    match opcode {
        0x48 => Some((PolyLineOp::Mono { trans: false }, false)),
        0x4A => Some((PolyLineOp::Mono { trans: true }, false)),
        0x58 => Some((PolyLineOp::Shaded { trans: false }, true)),
        0x5A => Some((PolyLineOp::Shaded { trans: true }, true)),
        _ => None,
    }
}

/// The number of words a command takes, its command word included.
pub open spec fn op_len(op: Gp0Op) -> usize {
    match op {
        Gp0Op::PolyMono { quad, .. } => if quad { 5 } else { 4 },
        Gp0Op::PolyShaded { quad, .. } => if quad { 8 } else { 6 },
        Gp0Op::PolyTexture { quad, .. } => if quad { 9 } else { 7 },
        Gp0Op::PolyTextureShaded { quad, .. } => if quad { 12 } else { 9 },
        Gp0Op::LineMono { .. } => 3,
        Gp0Op::LineShaded { .. } => 4,
        Gp0Op::RectVariable { .. } => 3,
        Gp0Op::RectFixed { .. } => 2,
        Gp0Op::QuickRectFill => 3,
        Gp0Op::VramToVramBlit => 4,
        Gp0Op::ImageLoad => 3,
        Gp0Op::ImageStore => 3,
        _ => 1,
    }
}

/// Whether a word can start a GP0 command (anything else is refused).
pub open spec fn known_gp0(data: u32) -> bool {
    gp0_command(data >> 24) is Some || polyline_command(data >> 24) is Some
}

fn gp0_command_exec(opcode: u32) -> (r: Option<Gp0Op>)
    ensures
        r == gp0_command(opcode),
{
    match opcode {
        0x20 => Some(Gp0Op::PolyMono { quad: false, trans: false }),
        0x22 => Some(Gp0Op::PolyMono { quad: false, trans: true }),
        0x30 => Some(Gp0Op::PolyShaded { quad: false, trans: false }),
        0x32 => Some(Gp0Op::PolyShaded { quad: false, trans: true }),
        0x24 => Some(Gp0Op::PolyTexture { quad: false, trans: false, blend: true }),
        0x25 => Some(Gp0Op::PolyTexture { quad: false, trans: false, blend: false }),
        0x26 => Some(Gp0Op::PolyTexture { quad: false, trans: true, blend: true }),
        0x27 => Some(Gp0Op::PolyTexture { quad: false, trans: true, blend: false }),
        0x34 => Some(Gp0Op::PolyTextureShaded { quad: false, trans: false, blend: true }),
        0x36 => Some(Gp0Op::PolyTextureShaded { quad: false, trans: true, blend: true }),
        0x28 => Some(Gp0Op::PolyMono { quad: true, trans: false }),
        0x2A => Some(Gp0Op::PolyMono { quad: true, trans: true }),
        0x38 => Some(Gp0Op::PolyShaded { quad: true, trans: false }),
        0x3A => Some(Gp0Op::PolyShaded { quad: true, trans: true }),
        0x2C => Some(Gp0Op::PolyTexture { quad: true, trans: false, blend: true }),
        0x2D => Some(Gp0Op::PolyTexture { quad: true, trans: false, blend: false }),
        0x2E => Some(Gp0Op::PolyTexture { quad: true, trans: true, blend: true }),
        0x2F => Some(Gp0Op::PolyTexture { quad: true, trans: true, blend: false }),
        0x3C => Some(Gp0Op::PolyTextureShaded { quad: true, trans: false, blend: true }),
        0x3E => Some(Gp0Op::PolyTextureShaded { quad: true, trans: true, blend: true }),
        0x40 => Some(Gp0Op::LineMono { trans: false }),
        0x42 => Some(Gp0Op::LineMono { trans: true }),
        0x50 => Some(Gp0Op::LineShaded { trans: false }),
        0x52 => Some(Gp0Op::LineShaded { trans: true }),
        0x60 => Some(Gp0Op::RectVariable { trans: false }),
        0x68 => Some(Gp0Op::RectFixed { size: 1, trans: false }),
        0x70 => Some(Gp0Op::RectFixed { size: 8, trans: false }),
        0x78 => Some(Gp0Op::RectFixed { size: 16, trans: false }),
        0x62 => Some(Gp0Op::RectVariable { trans: true }),
        0x6A => Some(Gp0Op::RectFixed { size: 1, trans: true }),
        0x72 => Some(Gp0Op::RectFixed { size: 8, trans: true }),
        0x7A => Some(Gp0Op::RectFixed { size: 16, trans: true }),
        0x02 => Some(Gp0Op::QuickRectFill),
        0x80 => Some(Gp0Op::VramToVramBlit),
        0xA0 => Some(Gp0Op::ImageLoad),
        0xC0 => Some(Gp0Op::ImageStore),
        0x00 => Some(Gp0Op::Nop),
        0x01 => Some(Gp0Op::ClearCache),
        0xE1 => Some(Gp0Op::DrawMode),
        0xE2 => Some(Gp0Op::TextureWindow),
        0xE3 => Some(Gp0Op::DrawingAreaTopLeft),
        0xE4 => Some(Gp0Op::DrawingAreaBottomRight),
        0xE5 => Some(Gp0Op::DrawingAreaOffset),
        0xE6 => Some(Gp0Op::MaskBitSetting),
        _ => None,
    }
}

fn polyline_command_exec(opcode: u32) -> (r: Option<(PolyLineOp, bool)>)
    ensures
        r == polyline_command(opcode),
{
    match opcode {
        0x48 => Some((PolyLineOp::Mono { trans: false }, false)),
        0x4A => Some((PolyLineOp::Mono { trans: true }, false)),
        0x58 => Some((PolyLineOp::Shaded { trans: false }, true)),
        0x5A => Some((PolyLineOp::Shaded { trans: true }, true)),
        _ => None,
    }
}

fn op_len_exec(op: Gp0Op) -> (r: usize)
    ensures
        r == op_len(op),
{
    match op {
        Gp0Op::PolyMono { quad, .. } => if quad { 5 } else { 4 },
        Gp0Op::PolyShaded { quad, .. } => if quad { 8 } else { 6 },
        Gp0Op::PolyTexture { quad, .. } => if quad { 9 } else { 7 },
        Gp0Op::PolyTextureShaded { quad, .. } => if quad { 12 } else { 9 },
        Gp0Op::LineMono { .. } => 3,
        Gp0Op::LineShaded { .. } => 4,
        Gp0Op::RectVariable { .. } => 3,
        Gp0Op::RectFixed { .. } => 2,
        Gp0Op::QuickRectFill => 3,
        Gp0Op::VramToVramBlit => 4,
        Gp0Op::ImageLoad => 3,
        Gp0Op::ImageStore => 3,
        _ => 1,
    }
}

/// Whether a word can start a GP0 command.
pub fn is_known_gp0(data: u32) -> (r: bool)
    ensures
        r == known_gp0(data),
{
    gp0_command_exec(data >> 24).is_some() || polyline_command_exec(data >> 24).is_some()
}

/// The status register after a draw-mode command `c`: texture page,
/// semi-transparency, texture depth (an undefined depth reads as 4-bit),
/// dithering, drawing to the display area and texture disable.
pub open spec fn draw_mode_stat(stat: u32, c: u32) -> u32 {
    let s1 = with_field(stat, 0, 0xF, field(c, 0, 0xF));
    let s2 = with_field(s1, 4, 1, field(c, 4, 1));
    let s3 = with_field(s2, 5, 3, field(c, 5, 3));
    let s4 = with_field(s3, 7, 3, TextureDepth::from_bits_spec(field(c, 7, 3)).bits());
    let s5 = with_field(s4, 9, 1, field(c, 9, 1));
    let s6 = with_field(s5, 10, 1, field(c, 10, 1));
    with_field(s6, 15, 1, field(c, 11, 1))
}

/// The status register after a mask-bit command `c`.
pub open spec fn mask_bit_stat(stat: u32, c: u32) -> u32 {
    with_field(with_field(stat, 11, 1, field(c, 0, 1)), 12, 1, field(c, 1, 1))
}

/// The status register after a complete command.
pub open spec fn stat_after(stat: u32, op: Gp0Op, params: Seq<u32>) -> u32 {
    match op {
        Gp0Op::DrawMode => draw_mode_stat(stat, params[0]),
        Gp0Op::MaskBitSetting => mask_bit_stat(stat, params[0]),
        _ => stat,
    }
}

/// The rectangle of an image load or store: position from one word, size
/// from the next (a size of 0 is the whole VRAM width or height).
pub open spec fn copy_fields(pos: u32, size: u32) -> VramCopyFields {
    let (x, y) = xy_of(pos);
    let (w, h) = xy_of(size);
    VramCopyFields {
        vram_x: x as u16,
        vram_y: y as u16,
        width: if w as u16 == 0 { 1024 } else { w as u16 },
        height: if h as u16 == 0 { 512 } else { h as u16 },
        current_row: 0,
        current_col: 0,
    }
}

/// What the port waits for after a complete command.
pub open spec fn state_after(op: Gp0Op, params: Seq<u32>) -> GP0State {
    match op {
        Gp0Op::ImageLoad => GP0State::CopyToVram(copy_fields(params[1], params[2])),
        Gp0Op::ImageStore => GP0State::CopyFromVram(copy_fields(params[1], params[2])),
        _ => GP0State::AwaitCommand,
    }
}

/// After the words `params` of command `op`: a complete command updates the
/// status register, leaves for the renderer and starts an image copy where
/// it is one; an incomplete one waits for more.
pub open spec fn args_outcome(stat: u32, op: Gp0Op, params: Seq<u32>, g: &Gpu, e: &Gp0Effect) -> bool {
    if params.len() == op_len(op) {
        &&& g.stat == stat_after(stat, op, params)
        &&& g.gp0_state == state_after(op, params)
        &&& e matches Gp0Effect::Command { op: o, params: p } && o == op && p@ == params
    } else {
        &&& g.stat == stat
        &&& g.gp0_state matches GP0State::AwaitArgs(c) && c.op == op && word_items(c.params) == params
            && c.target_len == op_len(op)
        &&& e is Nothing
    }
}

/// After a polyline word: a finished line goes to the renderer, an
/// unfinished one waits for more.
pub open spec fn polyline_outcome(
    op: PolyLineOp,
    shaded: bool,
    vertices: Seq<u32>,
    colors: Seq<u32>,
    done: bool,
    stat: u32,
    g: &Gpu,
    e: &Gp0Effect,
) -> bool {
    &&& g.stat == stat
    &&& done ==> g.gp0_state is AwaitCommand
    &&& done ==> (e matches Gp0Effect::PolyLine { op: o, vertices: v, colors: c } && o == op && v@ == vertices
        && c@ == colors)
    &&& !done ==> (g.gp0_state matches GP0State::PolyLine(q) && q.op == op && q.shaded == shaded && !q.done
        && q.vertices@ == vertices && q.colors@ == colors)
    &&& !done ==> e is Nothing
}

/// A CPU-to-VRAM copy one halfword on, and whether that was its last.
pub open spec fn to_vram_advance(f: VramCopyFields) -> (VramCopyFields, bool) {
    if f.current_col + 1 == f.width {
        (
            VramCopyFields { current_col: 0, current_row: (f.current_row + 1) as u16, ..f },
            f.current_row + 1 == f.height,
        )
    } else {
        (VramCopyFields { current_col: (f.current_col + 1) as u16, ..f }, false)
    }
}

/// A VRAM-to-CPU copy one word (two halfwords) on, and whether that was
/// its last.
pub open spec fn from_vram_advance(f: VramCopyFields) -> (VramCopyFields, bool) {
    let col = f.current_col.wrapping_add(2);
    if col >= f.width {
        (
            VramCopyFields { current_col: 0, current_row: (f.current_row + 1) as u16, ..f },
            f.current_row + 1 == f.height,
        )
    } else {
        (VramCopyFields { current_col: col, ..f }, false)
    }
}

/// After a word of a CPU-to-VRAM copy: its low halfword, then its high one
/// unless the copy ended, are stored at the copy's positions.
pub open spec fn to_vram_outcome(f: VramCopyFields, data: u32, g: &Gpu, e: &Gp0Effect) -> bool {
    let (f1, end1) = to_vram_advance(f);
    let (f2, end2) = to_vram_advance(f1);
    let w0 = VramWrite { col: f.position().0, row: f.position().1, value: data as u16 };
    let w1 = VramWrite { col: f1.position().0, row: f1.position().1, value: (data >> 16) as u16 };
    &&& end1 ==> g.gp0_state is AwaitCommand && (e matches Gp0Effect::VramWrites(w) && w@ == seq![w0])
    &&& !end1 ==> (e matches Gp0Effect::VramWrites(w) && w@ == seq![w0, w1])
    &&& !end1 && end2 ==> g.gp0_state is AwaitCommand
    &&& !end1 && !end2 ==> g.gp0_state == GP0State::CopyToVram(f2)
}

/// Whether GP1 takes a command word: opcodes 00h-08h and 10h. A display
/// mode that flips the screen, and a read of the texture window register,
/// are refused.
pub open spec fn known_gp1(data: u32) -> bool {
    let op = data >> 24;
    &&& (op <= 8 || op == 0x10)
    &&& op == 8 ==> field(data, 7, 1) == 0
    &&& op == 0x10 ==> data & 7 != 2
}

/// The three-bit horizontal resolution of a display mode command: bits 0-1,
/// and bit 6 as the high bit.
pub open spec fn display_mode_hres(data: u32) -> u32 {
    field(data, 0, 3) | (field(data, 6, 1) << 2)
}

/// The status register after a display mode command: horizontal
/// resolution, color depth, interlacing, vertical resolution (480 lines
/// only when interlaced) and video mode.
pub open spec fn display_mode_stat(stat: u32, data: u32) -> u32 {
    let s1 = with_field(stat, 16, 7, display_mode_hres(data));
    let s2 = with_field(s1, 21, 1, field(data, 4, 1));
    let s3 = with_field(s2, 22, 1, field(data, 5, 1));
    let s4 = with_field(s3, 19, 1, if field(data, 5, 1) == 1 { field(data, 2, 1) } else { 0 });
    with_field(s4, 20, 1, field(data, 3, 1))
}

/// The status register after a GP1 command.
pub open spec fn gp1_stat(stat: u32, data: u32) -> u32 {
    let op = data >> 24;
    if op == 0 {
        with_field(0x1480_2000, 16, 7, 1)
    } else if op == 2 {
        with_field(stat, 24, 1, 0)
    } else if op == 3 {
        with_field(stat, 23, 1, field(data, 0, 1))
    } else if op == 4 {
        with_field(stat, 29, 3, field(data, 0, 3))
    } else if op == 8 {
        display_mode_stat(stat, data)
    } else {
        stat
    }
}

/// The dot clock divider of a horizontal resolution: 10 for 256 pixels, 8
/// for 320, 7 for 368, 5 for 512 and 4 for 640.
pub open spec fn dot_clock_divider(h: HorizontalRes) -> u32 {
    match h {
        HorizontalRes::X256 => 10u32,
        HorizontalRes::X320 => 8,
        HorizontalRes::X368 => 7,
        HorizontalRes::X512 => 5,
        HorizontalRes::X640 => 4,
    }
}

/// The displayed width of a horizontal range from `x1` to `x2` (in dot
/// clock cycles; a range that ends before it starts wraps around) at a
/// divider.
pub open spec fn display_width(x1: u16, x2: u16, divider: u32) -> u16 {
    ((((x2.wrapping_sub(x1) as u32 / divider) + 2) as u32) & !3u32) as u16
}

/// What a GP1 command leaves for the renderer, with the status register
/// `stat` before it.
pub open spec fn gp1_effect(stat: u32, data: u32) -> Gp1Effect {
    let op = data >> 24;
    if op == 0 {
        Gp1Effect::ResetContext
    } else if op == 3 {
        Gp1Effect::DisplayEnable { off: field(data, 0, 1) == 1 }
    } else if op == 5 {
        Gp1Effect::DisplayVramStart { x: (field(data, 1, 0x1FF) & !1u32) as u16, y: field(data, 10, 0x1FF) as u16 }
    } else if op == 6 {
        Gp1Effect::HorizontalRange {
            width: display_width(
                field(data, 0, 0xFFF) as u16,
                field(data, 12, 0xFFF) as u16,
                dot_clock_divider(HorizontalRes::from_bits_spec(field(stat, 16, 7))),
            ),
        }
    } else if op == 7 {
        Gp1Effect::VerticalRange {
            lines: (field(data, 10, 0x3FF) as u16).wrapping_sub(field(data, 0, 0x3FF) as u16),
        }
    } else if op == 8 {
        Gp1Effect::DisplayMode {
            width: HorizontalRes::from_bits_spec(display_mode_hres(data)).value(),
            height: if field(data, 5, 1) == 1 && field(data, 2, 1) == 1 { 480 } else { 240 },
            depth_24: field(data, 4, 1) == 1,
            interlaced: field(data, 5, 1) == 1,
        }
    } else if op == 0x10 && 3 <= data & 7 <= 5 {
        Gp1Effect::ReadContext { index: data & 7 }
    } else {
        Gp1Effect::Nothing
    }
}

pub struct Gpu {
    pub gpu_read: u32,
    pub stat: u32,
    pub gp0_state: GP0State,
}

impl Gpu {
    /// The port's state is consistent: a gathering command still wants
    /// words, a copy lies inside its rectangle, a polyline is unfinished.
    pub open spec fn wf(&self) -> bool {
        match self.gp0_state {
            GP0State::AwaitCommand => true,
            GP0State::AwaitArgs(c) => c.wf() && c.target_len == op_len(c.op),
            GP0State::CopyToVram(f) => f.wf(),
            GP0State::CopyFromVram(f) => f.wf(),
            GP0State::PolyLine(p) => !p.done,
        }
    }

    /// What a GP0 word does, by what the port waits for.
    pub open spec fn gp0_outcome(&self, data: u32, g: &Gpu, e: &Gp0Effect) -> bool {
        match self.gp0_state {
            GP0State::AwaitCommand => {
                let opcode = data >> 24;
                &&& polyline_command(opcode) matches Some(pl) ==> polyline_outcome(
                    pl.0,
                    pl.1,
                    Seq::empty(),
                    if is_terminator(data) { Seq::empty() } else { seq![data] },
                    is_terminator(data),
                    self.stat,
                    g,
                    e,
                )
                &&& polyline_command(opcode) is None ==> (gp0_command(opcode) matches Some(op)
                    ==> args_outcome(self.stat, op, seq![data], g, e))
            },
            GP0State::AwaitArgs(c) => args_outcome(self.stat, c.op, word_items(c.params).push(data), g, e),
            GP0State::CopyToVram(f) => g.stat == self.stat && to_vram_outcome(f, data, g, e),
            GP0State::PolyLine(p) => {
                let (v, c, d) = p.after_push(data);
                polyline_outcome(p.op, p.shaded, v, c, d, self.stat, g, e)
            },
            GP0State::CopyFromVram(_) => false,
        }
    }

    pub fn new() -> (g: Self)
        ensures
            g.gpu_read == 0,
            g.stat == 0,
            g.gp0_state is AwaitCommand,
            g.wf(),
    {
        Gpu { gpu_read: 0, stat: 0, gp0_state: GP0State::AwaitCommand }
    }

    /// The status register as read: always ready for commands, VRAM and DMA
    /// (bits 26-28), and reporting 240 lines (bit 19 clear).
    pub fn stat(&self) -> (r: u32)
        ensures
            r == (self.stat | 0x1C00_0000) & !0x0008_0000u32,
    {
        (self.stat | 0x1C00_0000) & !0x0008_0000u32
    }

    /// The display size that the status register selects.
    pub fn get_resolution(&self) -> (r: (usize, usize))
        ensures
            r.0 == HorizontalRes::from_bits_spec(field(self.stat, 16, 7)).value(),
            r.1 == (if field(self.stat, 19, 1) == 1 { 480usize } else { 240 }),
    {
        let width = HorizontalRes::from_bits(get_field(self.stat, 16, 7)).as_value();
        let height = VerticalRes::from_bit(get_field(self.stat, 19, 1) == 1).as_value();
        (width as usize, height as usize)
    }

    /// The dot clock divider of the horizontal resolution that the status
    /// register selects: 10 for 256 pixels, 8 for 320, 7 for 368, 5 for 512
    /// and 4 for 640.
    pub fn get_dot_clock_divider(&self) -> (r: u32)
        ensures
            r == dot_clock_divider(HorizontalRes::from_bits_spec(field(self.stat, 16, 7))),
            r > 0,
    {
        match HorizontalRes::from_bits(get_field(self.stat, 16, 7)) {
            HorizontalRes::X256 => 10,
            HorizontalRes::X320 => 8,
            HorizontalRes::X368 => 7,
            HorizontalRes::X512 => 5,
            HorizontalRes::X640 => 4,
        }
    }

    /// Where the next word of a VRAM-to-CPU copy is read: the halfwords at
    /// this column and row and at the next column.
    pub fn pending_vram_read(&self) -> (r: Option<(usize, usize)>)
        ensures
            match self.gp0_state {
                GP0State::CopyFromVram(f) => r == Some(f.position()),
                _ => r is None,
            },
    {
        match &self.gp0_state {
            GP0State::CopyFromVram(f) => Some(f.current_position()),
            _ => None,
        }
    }

    /// Reads the GPUREAD port. During a VRAM-to-CPU copy the word made of
    /// `lo` and `hi` (the halfwords at the position that
    /// `pending_vram_read` gives) is latched and the copy moves on; the
    /// copy's last word is not latched.
    pub fn read(&mut self, lo: u16, hi: u16) -> (r: u32)
        requires
            old(self).wf(),
        ensures
            final(self).wf(),
            final(self).stat == old(self).stat,
            r == final(self).gpu_read,
            match old(self).gp0_state {
                GP0State::CopyFromVram(f) => {
                    let (f2, end) = from_vram_advance(f);
                    &&& end ==> final(self).gp0_state is AwaitCommand && final(self).gpu_read == old(self).gpu_read
                    &&& !end ==> final(self).gp0_state == GP0State::CopyFromVram(f2) && final(self).gpu_read == (lo as u32 | ((hi as u32) << 16))
                },
                _ => final(self).gp0_state == old(self).gp0_state && final(self).gpu_read == old(self).gpu_read,
            },
    {
        let is_copy = match &self.gp0_state {
            GP0State::CopyFromVram(_) => true,
            _ => false,
        };
        if is_copy {
            let mut state = GP0State::AwaitCommand;
            std::mem::swap(&mut state, &mut self.gp0_state);
            if let GP0State::CopyFromVram(f) = state {
                self.gp0_state = self.process_vram_to_cpu_copy(lo, hi, f);
            }
        }
        self.gpu_read
    }

    fn process_vram_to_cpu_copy(&mut self, lo: u16, hi: u16, fields: VramCopyFields) -> (s: GP0State)
        requires
            fields.wf(),
        ensures
            final(self).stat == old(self).stat,
            ({
                let (f2, end) = from_vram_advance(fields);
                &&& end ==> s is AwaitCommand && final(self).gpu_read == old(self).gpu_read
                &&& !end ==> s == GP0State::CopyFromVram(f2) && final(self).gpu_read == (lo as u32 | ((hi as u32) << 16))
                &&& !end ==> f2.wf()
            }),
    {
        let mut fields = fields;
        let data = lo as u32 | ((hi as u32) << 16);
        fields.current_col = fields.current_col.wrapping_add(2);
        if fields.current_col >= fields.width {
            fields.current_col = 0;
            fields.current_row = fields.current_row + 1;
            if fields.current_row == fields.height {
                return GP0State::AwaitCommand;
            }
        }
        self.gpu_read = data;
        GP0State::CopyFromVram(fields)
    }

    /// Takes a word on the GP0 port: a command word, a further word of a
    /// command or polyline, or a word of a CPU-to-VRAM copy. A word that
    /// starts no known command is refused.
    pub fn gp0(&mut self, data: u32) -> (e: Gp0Effect)
        requires
            old(self).wf(),
            !(old(self).gp0_state is CopyFromVram),
            old(self).gp0_state is AwaitCommand ==> known_gp0(data),
        ensures
            final(self).wf(),
            final(self).gpu_read == old(self).gpu_read,
            old(self).gp0_outcome(data, final(self), &e),
    {
        let mut state = GP0State::AwaitCommand;
        std::mem::swap(&mut state, &mut self.gp0_state);
        match state {
            GP0State::AwaitCommand => self.process_command(data),
            GP0State::AwaitArgs(c) => self.process_argument(data, c),
            GP0State::CopyToVram(f) => self.process_cpu_to_vram_copy(data, f),
            GP0State::PolyLine(p) => self.process_polyline_argument(data, p),
            GP0State::CopyFromVram(f) => {
                self.gp0_state = GP0State::CopyFromVram(f);
                Gp0Effect::Nothing
            },
        }
    }

    fn process_command(&mut self, data: u32) -> (e: Gp0Effect)
        requires
            known_gp0(data),
        ensures
            final(self).wf(),
            final(self).gpu_read == old(self).gpu_read,
            (Gpu { gp0_state: GP0State::AwaitCommand, ..*old(self) }).gp0_outcome(data, final(self), &e),
    {
        let opcode = data >> 24;
        match polyline_command_exec(opcode) {
            Some((op, color)) => {
                let p = PolyLineArguments::new(op, color);
                self.process_polyline_argument(data, p)
            },
            None => match gp0_command_exec(opcode) {
                Some(op) => {
                    let c = CommandArguments::new(op, op_len_exec(op));
                    self.process_argument(data, c)
                },
                None => {
                    self.gp0_state = GP0State::AwaitCommand;
                    Gp0Effect::Nothing
                },
            },
        }
    }

    fn process_argument(&mut self, word: u32, c: CommandArguments) -> (e: Gp0Effect)
        requires
            c.wf(),
            c.target_len == op_len(c.op),
        ensures
            final(self).wf(),
            final(self).gpu_read == old(self).gpu_read,
            args_outcome(old(self).stat, c.op, word_items(c.params).push(word), final(self), &e),
    {
        let mut c = c;
        c.push(word);
        if c.done() {
            let op = c.op;
            let params = words_to_vec(&c.params);
            self.run_command(op, params)
        } else {
            self.gp0_state = GP0State::AwaitArgs(c);
            Gp0Effect::Nothing
        }
    }

    /// Carries out a complete command's effect on the GPU's own state.
    fn run_command(&mut self, op: Gp0Op, params: Vec<u32>) -> (e: Gp0Effect)
        requires
            params@.len() == op_len(op),
        ensures
            final(self).wf(),
            final(self).gpu_read == old(self).gpu_read,
            final(self).stat == stat_after(old(self).stat, op, params@),
            final(self).gp0_state == state_after(op, params@),
            e matches Gp0Effect::Command { op: o, params: p } && o == op && p@ == params@,
    {
        match op {
            Gp0Op::DrawMode => self.gp0_draw_mode(params[0]),
            Gp0Op::MaskBitSetting => self.gp0_mask_bit_setting(params[0]),
            Gp0Op::ImageLoad => self.gp0_image_load(params[1], params[2]),
            Gp0Op::ImageStore => self.gp0_image_store(params[1], params[2]),
            _ => {
                self.gp0_state = GP0State::AwaitCommand;
            },
        }
        Gp0Effect::Command { op, params }
    }

    /// GP0(E1h): texture page, semi-transparency, texture depth, dithering,
    /// drawing to the display area and texture disable go to the status
    /// register.
    pub fn gp0_draw_mode(&mut self, c: u32)
        ensures
            final(self).stat == draw_mode_stat(old(self).stat, c),
            final(self).gp0_state is AwaitCommand,
            final(self).gpu_read == old(self).gpu_read,
    {
        self.stat = draw_mode(self.stat, c);
        self.gp0_state = GP0State::AwaitCommand;
    }

    /// GP0(E6h): the force-mask and preserve-masked bits (status bits 11
    /// and 12).
    pub fn gp0_mask_bit_setting(&mut self, c: u32)
        ensures
            final(self).stat == mask_bit_stat(old(self).stat, c),
            final(self).gp0_state is AwaitCommand,
            final(self).gpu_read == old(self).gpu_read,
    {
        let s = set_field(self.stat, 11, 1, get_field(c, 0, 1));
        self.stat = set_field(s, 12, 1, get_field(c, 1, 1));
        self.gp0_state = GP0State::AwaitCommand;
    }

    /// GP0(A0h): a CPU-to-VRAM copy of the rectangle at `pos` of size
    /// `size` starts.
    pub fn gp0_image_load(&mut self, pos: u32, size: u32)
        ensures
            final(self).stat == old(self).stat,
            final(self).gp0_state == GP0State::CopyToVram(copy_fields(pos, size)),
            final(self).gpu_read == old(self).gpu_read,
            copy_fields(pos, size).wf(),
    {
        self.gp0_state = GP0State::CopyToVram(image_fields(pos, size));
    }

    /// GP0(C0h): a VRAM-to-CPU copy of the rectangle at `pos` of size
    /// `size` starts.
    pub fn gp0_image_store(&mut self, pos: u32, size: u32)
        ensures
            final(self).stat == old(self).stat,
            final(self).gp0_state == GP0State::CopyFromVram(copy_fields(pos, size)),
            final(self).gpu_read == old(self).gpu_read,
            copy_fields(pos, size).wf(),
    {
        self.gp0_state = GP0State::CopyFromVram(image_fields(pos, size));
    }

    fn process_polyline_argument(&mut self, word: u32, p: PolyLineArguments) -> (e: Gp0Effect)
        requires
            !p.done,
        ensures
            final(self).wf(),
            final(self).gpu_read == old(self).gpu_read,
            ({
                let (v, c, d) = p.after_push(word);
                polyline_outcome(p.op, p.shaded, v, c, d, old(self).stat, final(self), &e)
            }),
    {
        let mut p = p;
        p.push(word);
        if p.is_done() {
            self.gp0_state = GP0State::AwaitCommand;
            Gp0Effect::PolyLine { op: p.op, vertices: p.vertices, colors: p.colors }
        } else {
            self.gp0_state = GP0State::PolyLine(p);
            Gp0Effect::Nothing
        }
    }

    fn process_cpu_to_vram_copy(&mut self, word: u32, fields: VramCopyFields) -> (e: Gp0Effect)
        requires
            fields.wf(),
        ensures
            final(self).wf(),
            final(self).gpu_read == old(self).gpu_read,
            final(self).stat == old(self).stat,
            to_vram_outcome(fields, word, final(self), &e),
    {
        let ghost f0 = fields;
        let mut fields = fields;
        let mut writes: Vec<VramWrite> = Vec::new();
        let (col, row) = fields.current_position();
        let w0 = VramWrite { col, row, value: word as u16 };
        writes.push(w0);
        assert(writes@ =~= seq![w0]);
        fields.current_col = fields.current_col + 1;
        if fields.current_col == fields.width {
            fields.current_col = 0;
            fields.current_row = fields.current_row + 1;
            if fields.current_row == fields.height {
                self.gp0_state = GP0State::AwaitCommand;
                return Gp0Effect::VramWrites(writes);
            }
        }
        assert(fields == to_vram_advance(f0).0);
        let (col, row) = fields.current_position();
        let w1 = VramWrite { col, row, value: (word >> 16) as u16 };
        writes.push(w1);
        assert(writes@ =~= seq![w0, w1]);
        fields.current_col = fields.current_col + 1;
        if fields.current_col == fields.width {
            fields.current_col = 0;
            fields.current_row = fields.current_row + 1;
            if fields.current_row == fields.height {
                self.gp0_state = GP0State::AwaitCommand;
                return Gp0Effect::VramWrites(writes);
            }
        }
        self.gp0_state = GP0State::CopyToVram(fields);
        Gp0Effect::VramWrites(writes)
    }

    /// Takes a GP1 command: reset, command buffer reset, interrupt
    /// acknowledge, display enable, DMA direction, display area and range,
    /// display mode, or a GPU info read. A reset or a command buffer reset
    /// drops whatever GP0 was gathering.
    pub fn gp1(&mut self, data: u32) -> (e: Gp1Effect)
        requires
            old(self).wf(),
            known_gp1(data),
        ensures
            final(self).wf(),
            final(self).gpu_read == old(self).gpu_read,
            final(self).stat == gp1_stat(old(self).stat, data),
            (data >> 24 == 0 || data >> 24 == 1) ==> final(self).gp0_state is AwaitCommand,
            !(data >> 24 == 0 || data >> 24 == 1) ==> final(self).gp0_state == old(self).gp0_state,
            e == gp1_effect(old(self).stat, data),
    {
        let op = data >> 24;
        if op == 0 {
            self.gp1_reset()
        } else if op == 1 {
            self.gp1_reset_command_buffer()
        } else if op == 2 {
            self.gp1_acknowledge_irq()
        } else if op == 3 {
            self.gp1_display_enable(data)
        } else if op == 4 {
            self.gp1_dma_direction(data)
        } else if op == 5 {
            self.gp1_display_vram_start(data)
        } else if op == 6 {
            self.gp1_display_horizontal_range(data)
        } else if op == 7 {
            self.gp1_display_vertical_range(data)
        } else if op == 8 {
            self.gp1_display_mode(data)
        } else {
            self.gp1_read_internal_reg(data)
        }
    }

    /// GP1(00h): the status register goes back to its reset value (display
    /// off, 256-pixel mode, interrupt flag set) and GP0 drops what it was
    /// gathering; the renderer resets its drawing context.
    pub fn gp1_reset(&mut self) -> (e: Gp1Effect)
        ensures
            final(self).stat == with_field(0x1480_2000, 16, 7, 1),
            final(self).gp0_state is AwaitCommand,
            final(self).gpu_read == old(self).gpu_read,
            e == Gp1Effect::ResetContext,
    {
        self.stat = set_field(0x1480_2000, 16, 7, 1);
        self.gp0_state = GP0State::AwaitCommand;
        Gp1Effect::ResetContext
    }

    /// GP1(01h): GP0 drops what it was gathering.
    pub fn gp1_reset_command_buffer(&mut self) -> (e: Gp1Effect)
        ensures
            final(self).stat == old(self).stat,
            final(self).gp0_state is AwaitCommand,
            final(self).gpu_read == old(self).gpu_read,
            e == Gp1Effect::Nothing,
    {
        self.gp0_state = GP0State::AwaitCommand;
        Gp1Effect::Nothing
    }

    /// GP1(02h): clears the interrupt flag (status bit 24).
    pub fn gp1_acknowledge_irq(&mut self) -> (e: Gp1Effect)
        ensures
            final(self).stat == with_field(old(self).stat, 24, 1, 0),
            final(self).gp0_state == old(self).gp0_state,
            final(self).gpu_read == old(self).gpu_read,
            e == Gp1Effect::Nothing,
    {
        self.stat = set_field(self.stat, 24, 1, 0);
        Gp1Effect::Nothing
    }

    /// GP1(03h): bit 0 turns the display off (status bit 23).
    pub fn gp1_display_enable(&mut self, data: u32) -> (e: Gp1Effect)
        ensures
            final(self).stat == with_field(old(self).stat, 23, 1, field(data, 0, 1)),
            final(self).gp0_state == old(self).gp0_state,
            final(self).gpu_read == old(self).gpu_read,
            e == (Gp1Effect::DisplayEnable { off: field(data, 0, 1) == 1 }),
    {
        let off = get_field(data, 0, 1);
        self.stat = set_field(self.stat, 23, 1, off);
        Gp1Effect::DisplayEnable { off: off == 1 }
    }

    /// GP1(04h): the DMA direction (status bits 29-30).
    pub fn gp1_dma_direction(&mut self, data: u32) -> (e: Gp1Effect)
        ensures
            final(self).stat == with_field(old(self).stat, 29, 3, field(data, 0, 3)),
            final(self).gp0_state == old(self).gp0_state,
            final(self).gpu_read == old(self).gpu_read,
            e == Gp1Effect::Nothing,
    {
        self.stat = set_field(self.stat, 29, 3, get_field(data, 0, 3));
        Gp1Effect::Nothing
    }

    /// GP1(05h): the top left of the displayed VRAM area (x on a halfword
    /// boundary pair, bits 1-9; y, bits 10-18).
    pub fn gp1_display_vram_start(&mut self, data: u32) -> (e: Gp1Effect)
        ensures
            *final(self) == *old(self),
            e == (Gp1Effect::DisplayVramStart {
                x: (field(data, 1, 0x1FF) & !1u32) as u16,
                y: field(data, 10, 0x1FF) as u16,
            }),
    {
        let x = get_field(data, 1, 0x1FF) & !1u32;
        let y = get_field(data, 10, 0x1FF);
        Gp1Effect::DisplayVramStart { x: x as u16, y: y as u16 }
    }

    /// GP1(06h): the horizontal display range, x1 in bits 0-11 and x2 in
    /// bits 12-23; the renderer is told the width it shows at the current
    /// dot clock divider.
    pub fn gp1_display_horizontal_range(&mut self, data: u32) -> (e: Gp1Effect)
        ensures
            *final(self) == *old(self),
            e == (Gp1Effect::HorizontalRange {
                width: display_width(
                    field(data, 0, 0xFFF) as u16,
                    field(data, 12, 0xFFF) as u16,
                    dot_clock_divider(HorizontalRes::from_bits_spec(field(old(self).stat, 16, 7))),
                ),
            }),
    {
        let x1 = get_field(data, 0, 0xFFF) as u16;
        let x2 = get_field(data, 12, 0xFFF) as u16;
        let divider = self.get_dot_clock_divider();
        let width = (((x2.wrapping_sub(x1) as u32) / divider + 2) & !3u32) as u16;
        Gp1Effect::HorizontalRange { width }
    }

    /// GP1(07h): the vertical display range; the renderer is told how many
    /// lines lie between y1 (bits 0-9) and y2 (bits 10-19).
    pub fn gp1_display_vertical_range(&mut self, data: u32) -> (e: Gp1Effect)
        ensures
            *final(self) == *old(self),
            e == (Gp1Effect::VerticalRange {
                lines: (field(data, 10, 0x3FF) as u16).wrapping_sub(field(data, 0, 0x3FF) as u16),
            }),
    {
        let y1 = get_field(data, 0, 0x3FF) as u16;
        let y2 = get_field(data, 10, 0x3FF) as u16;
        Gp1Effect::VerticalRange { lines: y2.wrapping_sub(y1) }
    }

    /// GP1(10h): asks for a drawing-context register (3 to 5) to be latched
    /// into the read port; other indices do nothing.
    pub fn gp1_read_internal_reg(&mut self, data: u32) -> (e: Gp1Effect)
        ensures
            *final(self) == *old(self),
            e == (if 3 <= data & 7 <= 5 { Gp1Effect::ReadContext { index: data & 7 } } else { Gp1Effect::Nothing }),
    {
        let index = data & 7;
        if 3 <= index && index <= 5 {
            Gp1Effect::ReadContext { index }
        } else {
            Gp1Effect::Nothing
        }
    }

    /// GP1(08h): the display mode: horizontal resolution, vertical
    /// resolution (480 lines only when interlaced), video mode, color depth
    /// and interlacing.
    pub fn gp1_display_mode(&mut self, data: u32) -> (e: Gp1Effect)
        requires
            data >> 24 == 8,
        ensures
            final(self).gpu_read == old(self).gpu_read,
            final(self).gp0_state == old(self).gp0_state,
            final(self).stat == display_mode_stat(old(self).stat, data),
            e == gp1_effect(old(self).stat, data),
    {
        let hres = get_field(data, 0, 3) | (get_field(data, 6, 1) << 2);
        let interlaced = get_field(data, 5, 1);
        let s1 = set_field(self.stat, 16, 7, hres);
        let s2 = set_field(s1, 21, 1, get_field(data, 4, 1));
        let s3 = set_field(s2, 22, 1, interlaced);
        let s4 = set_field(s3, 19, 1, if interlaced == 1 { get_field(data, 2, 1) } else { 0 });
        self.stat = set_field(s4, 20, 1, get_field(data, 3, 1));
        let width = HorizontalRes::from_bits(hres).as_value();
        let height = VerticalRes::from_bit(interlaced == 1 && get_field(data, 2, 1) == 1).as_value();
        Gp1Effect::DisplayMode { width, height, depth_24: get_field(data, 4, 1) == 1, interlaced: interlaced == 1 }
    }

    /// Latches a drawing-context register value (asked for by
    /// `Gp1Effect::ReadContext`) into the read port.
    pub fn latch_read(&mut self, value: u32)
        ensures
            final(self).gpu_read == value,
            final(self).stat == old(self).stat,
            final(self).gp0_state == old(self).gp0_state,
    {
        self.gpu_read = value;
    }
}

impl Default for Gpu {
    fn default() -> (g: Self)
        ensures
            g.gpu_read == 0,
            g.stat == 0,
            g.gp0_state is AwaitCommand,
    {
        Gpu::new()
    }
}

/// Whether GP1 takes a command word.
pub fn is_known_gp1(data: u32) -> (r: bool)
    ensures
        r == known_gp1(data),
{
    let op = data >> 24;
    (op <= 8 || op == 0x10) && (op != 8 || get_field(data, 7, 1) == 0) && (op != 0x10 || data & 7 != 2)
}

fn draw_mode(stat: u32, c: u32) -> (r: u32)
    ensures
        r == draw_mode_stat(stat, c),
{
    let s1 = set_field(stat, 0, 0xF, get_field(c, 0, 0xF));
    let s2 = set_field(s1, 4, 1, get_field(c, 4, 1));
    let s3 = set_field(s2, 5, 3, get_field(c, 5, 3));
    let s4 = set_field(s3, 7, 3, TextureDepth::from_bits(get_field(c, 7, 3)).to_bits());
    let s5 = set_field(s4, 9, 1, get_field(c, 9, 1));
    let s6 = set_field(s5, 10, 1, get_field(c, 10, 1));
    set_field(s6, 15, 1, get_field(c, 11, 1))
}

fn image_fields(pos: u32, size: u32) -> (f: VramCopyFields)
    ensures
        f == copy_fields(pos, size),
        f.wf(),
{
    let (x, y) = parse_xy(pos);
    let (w, h) = parse_xy(size);
    let width: u16 = if w as u16 == 0 { 1024 } else { w as u16 };
    let height: u16 = if h as u16 == 0 { 512 } else { h as u16 };
    VramCopyFields { vram_x: x as u16, vram_y: y as u16, width, height, current_row: 0, current_col: 0 }
}

} // verus!
