pub mod block;
pub mod util;

use vstd::prelude::*;

use std::collections::VecDeque;

use crate::mdec::block::{decode_block_from, decoded_block, drop_padding, lemma_decoded_block_len, skip_padding};
use crate::mdec::util::{level_shift_4bpp, level_shift_8bpp, packed_nibbles, shifted_pixel};

verus! {

broadcast use vstd::std_specs::vecdeque::group_vec_dequeue_axioms;

pub const PADDR_START: u32 = 0x1F801820;

pub const PADDR_END: u32 = 0x1F801828;

/// Status bit 31: the output FIFO is empty.
pub const OUT_FIFO_EMPTY: u32 = 0x8000_0000;

/// Status bit 29: a command is busy collecting its parameters.
pub const BUSY: u32 = 0x2000_0000;

/// The word read from an empty output FIFO.
pub const EMPTY_RESPONSE: u32 = 0xFE00_FE00;

#[derive(Clone, Copy, PartialEq, Eq, Structural, Debug)]
pub enum Depth {
    Bit4,
    Bit8,
    Bit24,
    Bit15,
}

#[derive(Clone, Copy, PartialEq, Eq, Structural, Debug)]
pub enum Color {
    Luminance,
    LuminanceAndColor,
}

#[derive(Clone, Copy, PartialEq, Eq, Structural, Debug)]
pub enum CommandType {
    SetQuantTable(Color),
    SetScaleTable,
    DecodeMacroblock { depth: Depth, is_signed: bool, b15: bool },
}

/// A command collecting its parameter words.
pub struct Command {
    pub command_type: CommandType,
    pub parameters: Vec<u32>,
}

/// The decoded blocks of 15-bit or 24-bit macroblocks, six per macroblock
/// (Cr, Cb, then the four luminance blocks), whose color conversion is still
/// to be done before the pixels go to the output FIFO.
pub struct ColorJob {
    pub depth: Depth,
    pub is_signed: bool,
    pub b15: bool,
    pub blocks: Vec<[i16; 64]>,
}

pub struct MacroDecoder {
    pub status: u32,
    pub collecting: Option<Command>,
    pub output_fifo: VecDeque<u32>,
    pub params_remaining: u16,
    pub scale_table: [i16; 64],
    pub luminance_table: [u8; 64],
    pub chrominance_table: [u8; 64],
}

/// The halfwords of `p` in little-endian order.
pub open spec fn halves(p: Seq<u32>) -> Seq<u16> {
    Seq::new(
        2 * p.len(),
        |i: int| if i % 2 == 0 { (p[i / 2] % 0x1_0000) as u16 } else { (p[i / 2] / 0x1_0000) as u16 },
    )
}

pub open spec fn byte_weight(j: int) -> int {
    if j == 0 {
        1
    } else if j == 1 {
        0x100
    } else if j == 2 {
        0x1_0000
    } else {
        0x100_0000
    }
}

/// The bytes of `p` in little-endian order.
pub open spec fn bytes_of_words(p: Seq<u32>) -> Seq<u8> {
    Seq::new(4 * p.len(), |i: int| (((p[i / 4] as int) / byte_weight(i % 4)) % 0x100) as u8)
}

/// The little-endian words made of `b`, four bytes each.
pub open spec fn words_of_bytes(b: Seq<u8>) -> Seq<u32> {
    Seq::new(
        b.len() / 4,
        |i: int| (b[4 * i] + 0x100 * b[4 * i + 1] + 0x1_0000 * b[4 * i + 2] + 0x100_0000 * b[4 * i + 3]) as u32,
    )
}

/// The pixels of a decoded luminance block at 8 bits each.
pub open spec fn pixels_8bpp(block: Seq<i16>) -> Seq<u8> {
    Seq::new(64, |i: int| shifted_pixel(block[i]) as u8)
}

/// The pixels of a decoded luminance block at 4 bits each.
pub open spec fn pixels_4bpp(block: Seq<i16>) -> Seq<u8> {
    Seq::new(32, |i: int| packed_nibbles(shifted_pixel(block[2 * i]), shifted_pixel(block[2 * i + 1])) as u8)
}

/// The blocks of the color macroblocks in `s`: for each macroblock that
/// starts with more than padding, its Cr, Cb and four luminance blocks.
pub open spec fn color_blocks(s: Seq<u16>, lum: Seq<u8>, chrom: Seq<u8>, scale: Seq<i16>) -> Seq<Seq<i16>>
    decreases s.len(),
{
    let t = skip_padding(s);
    if t.len() == 0 {
        seq![]
    } else {
        let cr = decoded_block(t, chrom, scale);
        let cb = decoded_block(cr.1, chrom, scale);
        let y1 = decoded_block(cb.1, lum, scale);
        let y2 = decoded_block(y1.1, lum, scale);
        let y3 = decoded_block(y2.1, lum, scale);
        let y4 = decoded_block(y3.1, lum, scale);
        if y4.1.len() < s.len() {
            seq![cr.0, cb.0, y1.0, y2.0, y3.0, y4.0] + color_blocks(y4.1, lum, chrom, scale)
        } else {
            seq![]
        }
    }
}

/// The command that a command word starts: none for codes 0 and 4 to 7.
pub open spec fn command_kind(data: u32) -> Option<CommandType> {
    let code = data >> 29u32;
    if code == 1 {
        Some(
            CommandType::DecodeMacroblock {
                depth: depth_of((data >> 27u32) & 3),
                is_signed: data & (1u32 << 26u32) != 0,
                b15: data & (1u32 << 25u32) != 0,
            },
        )
    } else if code == 2 {
        Some(
            CommandType::SetQuantTable(
                if data & 1 == 0 { Color::Luminance } else { Color::LuminanceAndColor },
            ),
        )
    } else if code == 3 {
        Some(CommandType::SetScaleTable)
    } else {
        None
    }
}

/// The number of parameter words that a command word announces.
pub open spec fn command_params(data: u32) -> u16 {
    let code = data >> 29u32;
    let len = (data & 0xFFFF) as u16;
    if code == 1 {
        len
    } else if code == 2 {
        if data & 1 == 0 { 16 } else { 32 }
    } else if code == 3 {
        32
    } else {
        len.wrapping_add(1)
    }
}

pub open spec fn depth_of(v: u32) -> Depth {
    if v == 0 {
        Depth::Bit4
    } else if v == 1 {
        Depth::Bit8
    } else if v == 2 {
        Depth::Bit24
    } else {
        Depth::Bit15
    }
}

/// Status bits 26-23 take bits 28-25 of a command word.
pub open spec fn status_with_command(status: u32, data: u32) -> u32 {
    (status & !(0xFu32 << 23u32)) | (((data >> 25u32) & 0xF) << 23u32)
}

impl MacroDecoder {
    /// What holds of the command being collected: its parameter count, and
    /// for the tables the exact number of words they take.
    pub open spec fn wf(&self) -> bool {
        match self.collecting {
            None => true,
            Some(c) => {
                &&& c.parameters@.len() + self.params_remaining <= 0x1_0000
                &&& c.parameters@.len() > 0 ==> self.params_remaining > 0
                &&& match c.command_type {
                    CommandType::SetScaleTable => {
                        &&& c.parameters@.len() + self.params_remaining == 32
                        &&& self.params_remaining > 0
                    },
                    CommandType::SetQuantTable(Color::Luminance) => {
                        &&& c.parameters@.len() + self.params_remaining == 16
                        &&& self.params_remaining > 0
                    },
                    CommandType::SetQuantTable(Color::LuminanceAndColor) => {
                        &&& c.parameters@.len() + self.params_remaining == 32
                        &&& self.params_remaining > 0
                    },
                    _ => true,
                }
            },
        }
    }

    /// `after` is this decoder once it has taken `data` as a command word.
    pub open spec fn decodes_command(&self, data: u32, after: &Self) -> bool {
        let st = status_with_command(self.status, data);
        &&& after.status == (if command_kind(data) is Some { st | BUSY } else { st })
        &&& after.params_remaining == command_params(data)
        &&& match command_kind(data) {
            Some(t) => after.collecting matches Some(c) && c.command_type == t && c.parameters@
                == Seq::<u32>::empty(),
            None => after.collecting == self.collecting,
        }
        &&& after.output_fifo@ == self.output_fifo@
        &&& after.scale_table == self.scale_table
        &&& after.luminance_table == self.luminance_table
        &&& after.chrominance_table == self.chrominance_table
    }

    /// `after` is this decoder, with `r` returned, once it has run command
    /// `ty` on its parameter words `params`.
    pub open spec fn handles(&self, ty: CommandType, params: Seq<u32>, after: &Self, r: Option<ColorJob>) -> bool {
        &&& after.params_remaining == self.params_remaining
        &&& after.collecting == self.collecting
        &&& match ty {
            CommandType::DecodeMacroblock { depth, is_signed, b15 } => {
                let h = halves(params);
                let block = decoded_block(h, self.luminance_table@, self.scale_table@).0;
                &&& after.status == self.status & !OUT_FIFO_EMPTY
                &&& after.scale_table == self.scale_table
                &&& after.luminance_table == self.luminance_table
                &&& after.chrominance_table == self.chrominance_table
                &&& match depth {
                    Depth::Bit4 => {
                        &&& after.output_fifo@ == self.output_fifo@ + words_of_bytes(pixels_4bpp(block))
                        &&& r is None
                    },
                    Depth::Bit8 => {
                        &&& after.output_fifo@ == self.output_fifo@ + words_of_bytes(pixels_8bpp(block))
                        &&& r is None
                    },
                    _ => {
                        &&& after.output_fifo@ == self.output_fifo@
                        &&& r matches Some(job) && job.depth == depth && job.is_signed == is_signed
                            && job.b15 == b15 && job.blocks@.map_values(|b: [i16; 64]| b@)
                            == color_blocks(
                            h,
                            self.luminance_table@,
                            self.chrominance_table@,
                            self.scale_table@,
                        )
                    },
                }
            },
            CommandType::SetQuantTable(color) => {
                let bytes = bytes_of_words(params);
                &&& after.status == self.status
                &&& after.output_fifo@ == self.output_fifo@
                &&& after.scale_table == self.scale_table
                &&& after.luminance_table@ == bytes.subrange(0, 64)
                &&& after.chrominance_table@ == (if color == Color::LuminanceAndColor {
                    bytes.subrange(64, 128)
                } else {
                    self.chrominance_table@
                })
                &&& r is None
            },
            CommandType::SetScaleTable => {
                &&& after.status == self.status
                &&& after.output_fifo@ == self.output_fifo@
                &&& after.scale_table@ == Seq::new(64, |i: int| halves(params)[i] as i16)
                &&& after.luminance_table == self.luminance_table
                &&& after.chrominance_table == self.chrominance_table
                &&& r is None
            },
        }
    }

    /// A decoder at power-on: status 0, nothing collected, an empty output
    /// FIFO and zeroed tables.
    pub fn new() -> (d: Self)
        ensures
            d.wf(),
            d.status == 0,
            d.collecting is None,
            d.output_fifo@.len() == 0,
            d.params_remaining == 0,
            d.scale_table@ == Seq::new(64, |i: int| 0i16),
            d.luminance_table@ == Seq::new(64, |i: int| 0u8),
            d.chrominance_table@ == Seq::new(64, |i: int| 0u8),
    {
        let d = MacroDecoder {
            status: 0,
            collecting: None,
            output_fifo: VecDeque::new(),
            params_remaining: 0,
            scale_table: [0; 64],
            luminance_table: [0; 64],
            chrominance_table: [0; 64],
        };
        proof {
            assert(d.scale_table@ =~= Seq::new(64, |i: int| 0i16));
            assert(d.luminance_table@ =~= Seq::new(64, |i: int| 0u8));
            assert(d.chrominance_table@ =~= Seq::new(64, |i: int| 0u8));
        }
        d
    }

    /// The status register: bits 0-15 hold the remaining parameter count
    /// minus one (FFFFh for none).
    pub open spec fn status_word(&self) -> u32 {
        (self.status & !0xFFFFu32) | (self.params_remaining.wrapping_sub(1) as u32)
    }

    pub fn status(&self) -> (r: u32)
        ensures
            r == self.status_word(),
    {
        (self.status & !0xFFFFu32) | (self.params_remaining.wrapping_sub(1) as u32)
    }

    /// A word taken on the data port: decoded as a command word when
    /// nothing is being collected, else added to the parameters; the
    /// command runs once its last parameter has come.
    pub open spec fn param_outcome(&self, data: u32, after: &MacroDecoder, r: Option<ColorJob>) -> bool {
        &&& self.collecting is None ==> self.decodes_command(data, after) && r is None
        &&& self.collecting matches Some(c) ==> ({
            let rem = self.params_remaining.wrapping_sub(1);
            let params = c.parameters@.push(data);
            if rem == 0 {
                (MacroDecoder {
                    status: self.status & !BUSY,
                    collecting: None,
                    params_remaining: 0,
                    ..*self
                }).handles(c.command_type, params, after, r)
            } else {
                &&& after.collecting matches Some(c2) && c2.command_type == c.command_type
                    && c2.parameters@ == params
                &&& after.params_remaining == rem
                &&& after.status == self.status
                &&& after.output_fifo@ == self.output_fifo@
                &&& after.scale_table == self.scale_table
                &&& after.luminance_table == self.luminance_table
                &&& after.chrominance_table == self.chrominance_table
                &&& r is None
            }
        })
    }

    /// A read of the data port: the next output word, or FE00FE00h when the
    /// FIFO is empty; the status shows when it has been emptied.
    pub open spec fn response_outcome(&self, after: &MacroDecoder, r: u32) -> bool {
        &&& self.output_fifo@.len() > 0 ==> r == self.output_fifo@[0]
            && after.output_fifo@ == self.output_fifo@.drop_first()
        &&& self.output_fifo@.len() == 0 ==> r == EMPTY_RESPONSE && after.output_fifo@ == self.output_fifo@
        &&& after.status == (if after.output_fifo@.len() == 0 { self.status | OUT_FIFO_EMPTY } else { self.status })
        &&& after.collecting == self.collecting
        &&& after.params_remaining == self.params_remaining
        &&& after.scale_table == self.scale_table
        &&& after.luminance_table == self.luminance_table
        &&& after.chrominance_table == self.chrominance_table
    }

    /// A write of the control register: bit 31 resets the decoder; bits 30
    /// and 29 set the data-in and data-out request bits (28 and 27).
    pub open spec fn control_outcome(&self, data: u32, after: &MacroDecoder) -> bool {
        let base = if data & 0x8000_0000 != 0 { 0x8004_0000u32 } else { self.status };
        let s1 = if data & (1u32 << 30u32) != 0 { base | (1u32 << 28u32) } else { base & !(1u32 << 28u32) };
        &&& after.status == (if data & (1u32 << 29u32) != 0 { s1 | (1u32 << 27u32) } else { s1 & !(1u32 << 27u32) })
        &&& data & 0x8000_0000 != 0 ==> after.params_remaining == 0 && after.collecting is None
        &&& data & 0x8000_0000 == 0 ==> after.params_remaining == self.params_remaining
            && after.collecting == self.collecting
        &&& after.output_fifo@ == self.output_fifo@
        &&& after.scale_table == self.scale_table
        &&& after.luminance_table == self.luminance_table
        &&& after.chrominance_table == self.chrominance_table
    }

    /// Writes the control register: bit 31 resets the decoder; bits 30 and
    /// 29 set the data-in and data-out request bits (28 and 27).
    pub fn write_control(&mut self, data: u32)
        requires
            old(self).wf(),
        ensures
            final(self).wf(),
            old(self).control_outcome(data, &*final(self)),
    {
        if data & 0x8000_0000 != 0 {
            self.status = 0x8004_0000;
            self.params_remaining = 0;
            self.collecting = None;
        }
        if data & (1u32 << 30u32) != 0 {
            self.status = self.status | (1u32 << 28u32);
        } else {
            self.status = self.status & !(1u32 << 28u32);
        }
        if data & (1u32 << 29u32) != 0 {
            self.status = self.status | (1u32 << 27u32);
        } else {
            self.status = self.status & !(1u32 << 27u32);
        }
    }

    /// Takes `data` as a command word: the status shows its bits 28-25, and
    /// commands 1 to 3 start collecting their parameters.
    pub fn decode_command(&mut self, data: u32)
        requires
            old(self).wf(),
            old(self).collecting is None,
        ensures
            final(self).wf(),
            old(self).decodes_command(data, &*final(self)),
    {
        self.status = (self.status & !(0xFu32 << 23u32)) | (((data >> 25u32) & 0xF) << 23u32);
        let code = data >> 29u32;
        let len = (data & 0xFFFF) as u16;
        if code == 1 {
            let depth_bits = (data >> 27u32) & 3;
            let depth = if depth_bits == 0 {
                Depth::Bit4
            } else if depth_bits == 1 {
                Depth::Bit8
            } else if depth_bits == 2 {
                Depth::Bit24
            } else {
                Depth::Bit15
            };
            self.status = self.status | BUSY;
            self.params_remaining = len;
            self.collecting = Some(
                Command {
                    command_type: CommandType::DecodeMacroblock {
                        depth,
                        is_signed: data & (1u32 << 26u32) != 0,
                        b15: data & (1u32 << 25u32) != 0,
                    },
                    parameters: Vec::new(),
                },
            );
        } else if code == 2 {
            let color = if data & 1 == 0 { Color::Luminance } else { Color::LuminanceAndColor };
            self.status = self.status | BUSY;
            self.params_remaining = if data & 1 == 0 { 16 } else { 32 };
            self.collecting = Some(
                Command { command_type: CommandType::SetQuantTable(color), parameters: Vec::new() },
            );
        } else if code == 3 {
            self.status = self.status | BUSY;
            self.params_remaining = 32;
            self.collecting = Some(
                Command { command_type: CommandType::SetScaleTable, parameters: Vec::new() },
            );
        } else {
            self.params_remaining = len.wrapping_add(1);
        }
    }
}

impl MacroDecoder {
    /// Decodes one block from the front of `source` with quantization table
    /// `qt` and this decoder's scale table, consuming its words.
    pub fn decode_block(&self, source: &mut VecDeque<u16>, qt: &[u8]) -> (block: [i16; 64])
        requires
            qt@.len() >= 64,
        ensures
            block@ == decoded_block(old(source)@, qt@, self.scale_table@).0,
            final(source)@ == decoded_block(old(source)@, qt@, self.scale_table@).1,
    {
        decode_block_from(source, qt, &self.scale_table)
    }

    /// Decodes the color macroblocks of `source` until only padding is left.
    fn decode_color_blocks(&self, source: &mut VecDeque<u16>) -> (blocks: Vec<[i16; 64]>)
        ensures
            blocks@.map_values(|b: [i16; 64]| b@) == color_blocks(
                old(source)@,
                self.luminance_table@,
                self.chrominance_table@,
                self.scale_table@,
            ),
    {
        let ghost lum = self.luminance_table@;
        let ghost chrom = self.chrominance_table@;
        let ghost scale = self.scale_table@;
        let ghost h = source@;
        let mut blocks: Vec<[i16; 64]> = Vec::new();
        loop
            invariant_except_break
                lum == self.luminance_table@,
                chrom == self.chrominance_table@,
                scale == self.scale_table@,
                blocks@.map_values(|b: [i16; 64]| b@) + color_blocks(source@, lum, chrom, scale)
                    == color_blocks(h, lum, chrom, scale),
            ensures
                blocks@.map_values(|b: [i16; 64]| b@) == color_blocks(h, lum, chrom, scale),
            decreases source@.len(),
        {
            let ghost s0 = source@;
            drop_padding(source);
            if source.len() == 0 {
                proof {
                    assert(color_blocks(s0, lum, chrom, scale) =~= seq![]);
                    assert(blocks@.map_values(|b: [i16; 64]| b@) + seq![] =~= blocks@.map_values(|b: [i16; 64]| b@));
                }
                break;
            }
            let ghost t = source@;
            let cr = decode_block_from(source, &self.chrominance_table, &self.scale_table);
            let ghost s1 = source@;
            let cb = decode_block_from(source, &self.chrominance_table, &self.scale_table);
            let ghost s2 = source@;
            let y1 = decode_block_from(source, &self.luminance_table, &self.scale_table);
            let ghost s3 = source@;
            let y2 = decode_block_from(source, &self.luminance_table, &self.scale_table);
            let ghost s4 = source@;
            let y3 = decode_block_from(source, &self.luminance_table, &self.scale_table);
            let ghost s5 = source@;
            let y4 = decode_block_from(source, &self.luminance_table, &self.scale_table);
            proof {
                lemma_decoded_block_len(s0, chrom, scale);
                lemma_decoded_block_len(t, chrom, scale);
                lemma_decoded_block_len(s1, chrom, scale);
                lemma_decoded_block_len(s2, lum, scale);
                lemma_decoded_block_len(s3, lum, scale);
                lemma_decoded_block_len(s4, lum, scale);
                lemma_decoded_block_len(s5, lum, scale);
                crate::mdec::block::lemma_skip_padding_idempotent(s0);
                assert(source@.len() < s0.len());
            }
            let ghost before = blocks@.map_values(|b: [i16; 64]| b@);
            blocks.push(cr);
            blocks.push(cb);
            blocks.push(y1);
            blocks.push(y2);
            blocks.push(y3);
            blocks.push(y4);
            proof {
                assert(blocks@.map_values(|b: [i16; 64]| b@) =~= before + seq![cr@, cb@, y1@, y2@, y3@, y4@]);
                assert(color_blocks(s0, lum, chrom, scale) == seq![cr@, cb@, y1@, y2@, y3@, y4@]
                    + color_blocks(source@, lum, chrom, scale));
                assert(before + seq![cr@, cb@, y1@, y2@, y3@, y4@] + color_blocks(source@, lum, chrom, scale)
                    =~= before + (seq![cr@, cb@, y1@, y2@, y3@, y4@] + color_blocks(source@, lum, chrom, scale)));
            }
        }
        blocks
    }

    /// Runs a command on its collected parameter words: decodes a macroblock
    /// (monochrome ones straight to the output FIFO, color ones handed back
    /// for their color conversion), or loads a quantization or scale table.
    fn handle_command(&mut self, collected: Command) -> (r: Option<ColorJob>)
        requires
            match collected.command_type {
                CommandType::SetScaleTable => collected.parameters@.len() == 32,
                CommandType::SetQuantTable(Color::Luminance) => collected.parameters@.len() == 16,
                CommandType::SetQuantTable(Color::LuminanceAndColor) => collected.parameters@.len() == 32,
                _ => collected.parameters@.len() <= 0x1_0000,
            },
        ensures
            old(self).handles(collected.command_type, collected.parameters@, &*final(self), r),
    {
        match collected.command_type {
            CommandType::DecodeMacroblock { depth, is_signed, b15 } => {
                let mut source = halves_of(&collected.parameters);
                let r = match depth {
                    Depth::Bit4 => {
                        let block = decode_block_from(&mut source, &self.luminance_table, &self.scale_table);
                        let pixels = level_shift_4bpp(block);
                        proof {
                            assert(pixels@ =~= pixels_4bpp(block@));
                        }
                        push_words_from_bytes(&mut self.output_fifo, &pixels);
                        None
                    },
                    Depth::Bit8 => {
                        let block = decode_block_from(&mut source, &self.luminance_table, &self.scale_table);
                        let pixels = level_shift_8bpp(block);
                        proof {
                            assert(pixels@ =~= pixels_8bpp(block@));
                        }
                        push_words_from_bytes(&mut self.output_fifo, &pixels);
                        None
                    },
                    _ => {
                        let blocks = self.decode_color_blocks(&mut source);
                        Some(ColorJob { depth, is_signed, b15, blocks })
                    },
                };
                self.status = self.status & !OUT_FIFO_EMPTY;
                r
            },
            CommandType::SetQuantTable(color) => {
                self.luminance_table = table_bytes(&collected.parameters, 0);
                if color == Color::LuminanceAndColor {
                    self.chrominance_table = table_bytes(&collected.parameters, 64);
                }
                None
            },
            CommandType::SetScaleTable => {
                let mut table = [0i16; 64];
                for i in 0..64usize
                    invariant
                        collected.parameters@.len() == 32,
                        forall|j: int| 0 <= j < i ==> #[trigger] table@[j] == halves(collected.parameters@)[j] as i16,
                {
                    let w = collected.parameters[i / 2];
                    let half: u16 = if i % 2 == 0 { (w % 0x1_0000) as u16 } else { (w / 0x1_0000) as u16 };
                    table[i] = half as i16;
                }
                proof {
                    assert(table@ =~= Seq::new(64, |i: int| halves(collected.parameters@)[i] as i16));
                }
                self.scale_table = table;
                None
            },
        }
    }

    /// Takes a word written to the command/parameter register: a command
    /// word when nothing is being collected, else the next parameter, and
    /// the command runs once its last parameter has come.
    pub fn command_or_param(&mut self, data: u32) -> (r: Option<ColorJob>)
        requires
            old(self).wf(),
        ensures
            final(self).wf(),
            old(self).param_outcome(data, &*final(self), r),
    {
        let collecting_command = self.collecting.take();
        match collecting_command {
            None => {
                self.decode_command(data);
                None
            },
            Some(mut collected) => {
                self.params_remaining = self.params_remaining.wrapping_sub(1);
                collected.parameters.push(data);
                if self.params_remaining == 0 {
                    self.status = self.status & !BUSY;
                    self.handle_command(collected)
                } else {
                    self.collecting = Some(collected);
                    None
                }
            },
        }
    }

    /// Reads the data register: the next output word, or FE00FE00h when the
    /// FIFO is empty; the status shows when it has been emptied.
    pub fn response(&mut self) -> (r: u32)
        requires
            old(self).wf(),
        ensures
            final(self).wf(),
            old(self).response_outcome(&*final(self), r),
    {
        let data = match self.output_fifo.pop_front() {
            Some(v) => v,
            None => EMPTY_RESPONSE,
        };
        proof {
            if old(self).output_fifo@.len() > 0 {
                assert(self.output_fifo@ =~= old(self).output_fifo@.drop_first());
            }
        }
        if self.output_fifo.len() == 0 {
            self.status = self.status | OUT_FIFO_EMPTY;
        }
        data
    }

    /// Appends converted pixel words to the output FIFO.
    pub fn push_output(&mut self, words: &[u32])
        requires
            old(self).wf(),
        ensures
            final(self).wf(),
            final(self).output_fifo@ == old(self).output_fifo@ + words@,
            final(self).status == old(self).status,
            final(self).collecting == old(self).collecting,
            final(self).params_remaining == old(self).params_remaining,
            final(self).scale_table == old(self).scale_table,
            final(self).luminance_table == old(self).luminance_table,
            final(self).chrominance_table == old(self).chrominance_table,
    {
        for i in 0..words.len()
            invariant
                self.output_fifo@ == old(self).output_fifo@ + words@.subrange(0, i as int),
                self.status == old(self).status,
                self.collecting == old(self).collecting,
                self.params_remaining == old(self).params_remaining,
                self.scale_table == old(self).scale_table,
                self.luminance_table == old(self).luminance_table,
                self.chrominance_table == old(self).chrominance_table,
        {
            self.output_fifo.push_back(words[i]);
            proof {
                assert(words@.subrange(0, i + 1) =~= words@.subrange(0, i as int).push(words@[i as int]));
            }
        }
        proof {
            assert(words@.subrange(0, words@.len() as int) =~= words@);
        }
    }
}

/// 64 bytes of the little-endian bytes of `params`, from byte `start` on.
fn table_bytes(params: &Vec<u32>, start: usize) -> (t: [u8; 64])
    requires
        start + 64 <= 4 * params@.len(),
        params@.len() <= 32,
    ensures
        t@ == bytes_of_words(params@).subrange(start as int, start + 64),
{
    let mut t = [0u8; 64];
    for j in 0..64usize
        invariant
            start + 64 <= 4 * params@.len(),
            params@.len() <= 32,
            forall|k: int| 0 <= k < j ==> #[trigger] t@[k] == bytes_of_words(params@)[start + k],
    {
        let i = start + j;
        let w = params[i / 4];
        let sh = i % 4;
        let b = if sh == 0 {
            w % 0x100
        } else if sh == 1 {
            (w / 0x100) % 0x100
        } else if sh == 2 {
            (w / 0x1_0000) % 0x100
        } else {
            (w / 0x100_0000) % 0x100
        };
        t[j] = b as u8;
    }
    proof {
        assert(t@ =~= bytes_of_words(params@).subrange(start as int, start + 64));
    }
    t
}

/// Reads an MDEC register: 1F801820h is the data register, 1F801824h the
/// status register.
pub fn read(mdec: &mut MacroDecoder, addr: u32) -> (r: u32)
    requires
        old(mdec).wf(),
        addr == 0x1F80_1820 || addr == 0x1F80_1824,
    ensures
        final(mdec).wf(),
        addr == 0x1F80_1824 ==> r == old(mdec).status_word() && *final(mdec) == *old(mdec),
        addr == 0x1F80_1820 ==> old(mdec).response_outcome(&*final(mdec), r),
{
    if addr == 0x1F80_1820 {
        mdec.response()
    } else {
        mdec.status()
    }
}

/// Writes an MDEC register: 1F801820h takes commands and parameters,
/// 1F801824h is the control register.
pub fn write(mdec: &mut MacroDecoder, addr: u32, data: u32) -> (r: Option<ColorJob>)
    requires
        old(mdec).wf(),
        addr == 0x1F80_1820 || addr == 0x1F80_1824,
    ensures
        final(mdec).wf(),
        addr == 0x1F80_1820 ==> old(mdec).param_outcome(data, &*final(mdec), r),
        addr == 0x1F80_1824 ==> old(mdec).control_outcome(data, &*final(mdec)) && r is None,
{
    if addr == 0x1F80_1820 {
        mdec.command_or_param(data)
    } else {
        mdec.write_control(data);
        None
    }
}

/// Appends the little-endian words made of `bytes` to `fifo`.
pub fn push_words_from_bytes(fifo: &mut VecDeque<u32>, bytes: &[u8])
    requires
        bytes@.len() % 4 == 0,
    ensures
        final(fifo)@ == old(fifo)@ + words_of_bytes(bytes@),
{
    let len = bytes.len();
    let mut j: usize = 0;
    while j < len
        invariant
            len == bytes@.len(),
            len % 4 == 0,
            j % 4 == 0,
            j <= len,
            fifo@ == old(fifo)@ + words_of_bytes(bytes@).subrange(0, j as int / 4),
        decreases len - j,
    {
        let b0 = bytes[j] as u32;
        let b1 = bytes[j + 1] as u32;
        let b2 = bytes[j + 2] as u32;
        let b3 = bytes[j + 3] as u32;
        let w: u32 = b0 + 0x100 * b1 + 0x1_0000 * b2 + 0x100_0000 * b3;
        fifo.push_back(w);
        proof {
            let i = j as int / 4;
            assert(4 * i == j);
            assert(words_of_bytes(bytes@).subrange(0, i + 1) =~= words_of_bytes(bytes@).subrange(0, i).push(w));
        }
        j = j + 4;
    }
    proof {
        assert(words_of_bytes(bytes@).subrange(0, len as int / 4) =~= words_of_bytes(bytes@));
    }
}

/// The halfwords of `params` in little-endian order, as a queue.
pub fn halves_of(params: &Vec<u32>) -> (q: VecDeque<u16>)
    requires
        params@.len() <= 0x1_0000,
    ensures
        q@ == halves(params@),
{
    let mut q: VecDeque<u16> = VecDeque::new();
    for i in 0..params.len()
        invariant
            q@.len() == 2 * i,
            forall|j: int| 0 <= j < 2 * i ==> #[trigger] q@[j] == halves(params@)[j],
    {
        let w = params[i];
        q.push_back((w % 0x1_0000) as u16);
        q.push_back((w / 0x1_0000) as u16);
    }
    proof {
        assert(q@ =~= halves(params@));
    }
    q
}

} // verus!
