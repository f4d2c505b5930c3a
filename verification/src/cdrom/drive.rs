use vstd::prelude::*;

use std::collections::VecDeque;

use arrayvec::ArrayVec;

use crate::bytes::{param_items, params_default, params_len, params_push};
use crate::cdrom::cd_image::CdImage;
use crate::cdrom::status::{Mode, Status};
use crate::cdrom::xa::{AdpcmHistory, CubicResampler};

verus! {

broadcast use vstd::std_specs::vecdeque::group_vec_dequeue_axioms;

/// Address register bits: the parameter FIFO is empty (3), can take more
/// (4), a result is ready (5), data is ready (6); bits 1-0 select the bank.
pub const PARAM_EMPTY: u8 = 0x08;

pub const PARAM_WRITE_READY: u8 = 0x10;

pub const RESULT_READ_READY: u8 = 0x20;

pub const DATA_REQUEST: u8 = 0x40;

/// `v` with the bits of `bit` set or cleared.
pub open spec fn with_bit(v: u8, bit: u8, on: bool) -> u8 {
    if on {
        v | bit
    } else {
        v & !bit
    }
}

pub fn set_bit(v: u8, bit: u8, on: bool) -> (r: u8)
    ensures
        r == with_bit(v, bit, on),
{
    if on {
        v | bit
    } else {
        v & !bit
    }
}

pub struct CdRom {
    pub status: Status,
    pub address: u8,
    pub hintsts: u8,
    pub hintmsk: u8,
    pub parameters: ArrayVec<u8, 16>,
    pub results: Vec<u8>,
    pub mode: Mode,
    pub data_buffer: VecDeque<u8>,
    pub audio_buffer: VecDeque<i16>,
    pub audio_muted: bool,
    /// Left, right, mono.
    pub adpcm_history: [AdpcmHistory; 3],
    pub resamplers: [CubicResampler; 3],
    pub filter_file: u8,
    pub filter_channel: u8,
    pub disk: Option<CdImage>,
}

impl CdRom {
    pub open spec fn params(&self) -> Seq<u8> {
        param_items(self.parameters)
    }

    pub open spec fn wf(&self) -> bool {
        &&& forall|i: int| 0 <= i < 3 ==> #[trigger] self.resamplers@[i].wf()
        &&& self.disk matches Some(d) ==> d.wf()
    }

    /// A drive at power-on: status 0, address register 18h (parameters
    /// empty and writable), nothing queued, no disc.
    pub fn new() -> (c: Self)
        ensures
            c.wf(),
            c.status.0 == 0,
            c.address == 0x18,
            c.hintsts == 0,
            c.hintmsk == 0,
            c.params().len() == 0,
            c.results@.len() == 0,
            c.data_buffer@.len() == 0,
            c.audio_buffer@.len() == 0,
            !c.audio_muted,
            c.disk is None,
    {
        CdRom {
            status: Status(0),
            address: 0x18,
            hintsts: 0,
            hintmsk: 0,
            parameters: params_default(),
            results: Vec::new(),
            mode: Mode::new(),
            data_buffer: VecDeque::new(),
            audio_buffer: VecDeque::new(),
            audio_muted: false,
            adpcm_history: [AdpcmHistory::new(), AdpcmHistory::new(), AdpcmHistory::new()],
            resamplers: [CubicResampler::new(false), CubicResampler::new(false), CubicResampler::new(false)],
            filter_file: 0,
            filter_channel: 0,
            disk: None,
        }
    }

    /// Writes the bank select bits (the only writable bits of the address
    /// register).
    pub fn write_addr(&mut self, val: u8)
        ensures
            final(self).address == (old(self).address & !3u8) | (val & 3),
            *final(self) == (CdRom { address: final(self).address, ..*old(self) }),
    {
        self.address = (self.address & !3u8) | (val & 3);
    }

    pub fn read_addr(&self) -> (r: u8)
        ensures
            r == self.address,
    {
        self.address
    }

    /// Acknowledges interrupt bits: the set bits among the low five are
    /// cleared.
    pub fn write_hclrctl(&mut self, val: u8)
        ensures
            final(self).hintsts == old(self).hintsts & !(val & 0x1F),
            *final(self) == (CdRom { hintsts: final(self).hintsts, ..*old(self) }),
    {
        self.hintsts = self.hintsts & !(val & 0x1F);
    }

    /// The interrupt flags; bits 5-7 always read as 1.
    pub fn read_hintsts(&self) -> (r: u8)
        ensures
            r == self.hintsts | 0xE0,
    {
        self.hintsts | 0xE0
    }

    pub fn write_hintmsk(&mut self, val: u8)
        ensures
            final(self).hintmsk == val,
            *final(self) == (CdRom { hintmsk: final(self).hintmsk, ..*old(self) }),
    {
        self.hintmsk = val;
    }

    /// The interrupt mask; bits 5-7 always read as 1.
    pub fn read_hintmsk(&self) -> (r: u8)
        ensures
            r == self.hintmsk | 0xE0,
    {
        self.hintmsk | 0xE0
    }

    /// Replaces the data buffer with a sector's data; data is then ready.
    pub fn push_to_data_buffer(&mut self, new_buffer: VecDeque<u8>)
        ensures
            final(self).data_buffer@ == new_buffer@,
            final(self).address == old(self).address | DATA_REQUEST,
            *final(self) == (CdRom { data_buffer: final(self).data_buffer, address: final(self).address, ..*old(self) }),
    {
        self.data_buffer = new_buffer;
        self.address = self.address | DATA_REQUEST;
    }

    /// Appends little-endian 16-bit samples (from pairs of bytes; a last odd
    /// byte is ignored) to the audio buffer.
    pub fn push_to_audio_buffer(&mut self, data: &[u8])
        ensures
            final(self).audio_buffer@ == old(self).audio_buffer@ + Seq::new(
                data@.len() / 2,
                |i: int| (data@[2 * i] + 0x100 * data@[2 * i + 1]) as u16 as i16,
            ),
            *final(self) == (CdRom { audio_buffer: final(self).audio_buffer, ..*old(self) }),
    {
        let dlen = data.len();
        let n = dlen / 2;
        let ghost start = self.audio_buffer@;
        for i in 0..n
            invariant
                dlen == data@.len(),
                n == data@.len() / 2,
                *self == (CdRom { audio_buffer: self.audio_buffer, ..*old(self) }),
                self.audio_buffer@ == start + Seq::new(
                    i as nat,
                    |k: int| (data@[2 * k] + 0x100 * data@[2 * k + 1]) as u16 as i16,
                ),
        {
            assert(2 * i + 1 < data@.len()) by (nonlinear_arith)
                requires i < n, n == data@.len() / 2;
            let lo = data[2 * i] as u16;
            let hi = data[2 * i + 1] as u16;
            let v = (lo + 0x100 * hi) as u16 as i16;
            self.audio_buffer.push_back(v);
            proof {
                assert(self.audio_buffer@ =~= start + Seq::new(
                    (i + 1) as nat,
                    |k: int| (data@[2 * k] + 0x100 * data@[2 * k + 1]) as u16 as i16,
                ));
            }
        }
    }

    /// Appends resampled audio samples to the audio buffer.
    pub fn push_audio_samples(&mut self, samples: &[i16])
        ensures
            final(self).audio_buffer@ == old(self).audio_buffer@ + samples@,
            *final(self) == (CdRom { audio_buffer: final(self).audio_buffer, ..*old(self) }),
    {
        let ghost start = self.audio_buffer@;
        for i in 0..samples.len()
            invariant
                self.audio_buffer@ == start + samples@.subrange(0, i as int),
                *self == (CdRom { audio_buffer: self.audio_buffer, ..*old(self) }),
        {
            self.audio_buffer.push_back(samples[i]);
            proof {
                assert(samples@.subrange(0, i + 1) =~= samples@.subrange(0, i as int).push(samples@[i as int]));
            }
        }
        proof {
            assert(samples@.subrange(0, samples@.len() as int) =~= samples@);
        }
    }

    /// The next data byte (0 when there is none); data stays ready while
    /// bytes are left.
    pub fn pop_from_data_buffer(&mut self) -> (r: u8)
        ensures
            old(self).data_buffer@.len() > 0 ==> r == old(self).data_buffer@[0]
                && final(self).data_buffer@ == old(self).data_buffer@.drop_first(),
            old(self).data_buffer@.len() == 0 ==> r == 0 && final(self).data_buffer@ == old(self).data_buffer@,
            final(self).address == (if final(self).data_buffer@.len() == 0 {
                old(self).address & !DATA_REQUEST
            } else {
                old(self).address
            }),
            *final(self) == (CdRom { data_buffer: final(self).data_buffer, address: final(self).address, ..*old(self) }),
    {
        let data = match self.data_buffer.pop_front() {
            Some(v) => v,
            None => 0,
        };
        proof {
            if old(self).data_buffer@.len() > 0 {
                assert(self.data_buffer@ =~= old(self).data_buffer@.drop_first());
            }
        }
        if self.data_buffer.len() == 0 {
            self.address = self.address & !DATA_REQUEST;
        }
        data
    }

    /// Reads `width` data bytes as a little-endian word.
    pub fn read_rddata(&mut self, width: usize) -> (r: u32)
        requires
            width == 1 || width == 2 || width == 4,
        ensures
            forall|k: int|
                0 <= k < width ==> (#[trigger] ((r >> (8 * k) as u32) & 0xFF)) as int == (if k < old(
                    self,
                ).data_buffer@.len() {
                    old(self).data_buffer@[k] as int
                } else {
                    0
                }),
            final(self).data_buffer@ == old(self).data_buffer@.skip(
                if width < old(self).data_buffer@.len() { width as int } else { old(self).data_buffer@.len() as int },
            ),
            width == 1 ==> r <= 0xFF,
            width == 2 ==> r <= 0xFFFF,
            *final(self) == (CdRom { data_buffer: final(self).data_buffer, address: final(self).address, ..*old(self) }),
    {
        let b0 = self.pop_from_data_buffer() as u32;
        let b1 = if width >= 2 { self.pop_from_data_buffer() as u32 } else { 0 };
        let b2 = if width == 4 { self.pop_from_data_buffer() as u32 } else { 0 };
        let b3 = if width == 4 { self.pop_from_data_buffer() as u32 } else { 0 };
        let r = b0 | (b1 << 8u32) | (b2 << 16u32) | (b3 << 24u32);
        proof {
            lemma_word_bytes(b0, b1, b2, b3);
            let s = old(self).data_buffer@;
            if s.len() > 0 {
                assert(s.drop_first() =~= s.skip(1));
            }
            if s.len() > 1 {
                assert(s.skip(1).drop_first() =~= s.skip(2));
            }
            if s.len() > 2 {
                assert(s.skip(2).drop_first() =~= s.skip(3));
            }
            if s.len() > 3 {
                assert(s.skip(3).drop_first() =~= s.skip(4));
            }
            assert(s.skip(0) =~= s);
        }
        r
    }

    /// The next audio sample (0 while muted), if any.
    pub fn pop_from_audio_buffer(&mut self) -> (r: Option<i16>)
        ensures
            old(self).audio_buffer@.len() == 0 ==> r is None && final(self).audio_buffer@ == old(self).audio_buffer@,
            old(self).audio_buffer@.len() > 0 ==> r == Some(if old(self).audio_muted { 0i16 } else { old(self).audio_buffer@[0] })
                && final(self).audio_buffer@ == old(self).audio_buffer@.drop_first(),
            *final(self) == (CdRom { audio_buffer: final(self).audio_buffer, ..*old(self) }),
    {
        let r = match self.audio_buffer.pop_front() {
            Some(x) => Some(if self.audio_muted { 0 } else { x }),
            None => None,
        };
        proof {
            if old(self).audio_buffer@.len() > 0 {
                assert(self.audio_buffer@ =~= old(self).audio_buffer@.drop_first());
            }
        }
        r
    }

    /// Takes a parameter byte: the FIFO is then not empty, and no longer
    /// writable once full.
    pub fn push_parameter(&mut self, val: u8)
        requires
            old(self).params().len() < 16,
        ensures
            final(self).params() == old(self).params().push(val),
            old(self).params().len() == 0 ==> final(self).address & PARAM_EMPTY == 0,
            old(self).params().len() + 1 == 16 ==> final(self).address & PARAM_WRITE_READY == 0,
            final(self).address == ({
                let a1 = if old(self).params().len() == 0 { old(self).address & !PARAM_EMPTY } else { old(self).address };
                if old(self).params().len() + 1 == 16 { a1 & !PARAM_WRITE_READY } else { a1 }
            }),
            *final(self) == (CdRom { address: final(self).address, parameters: final(self).parameters, ..*old(self) }),
    {
        if params_len(&self.parameters) == 0 {
            self.address = self.address & !PARAM_EMPTY;
        }
        params_push(&mut self.parameters, val);
        if params_len(&self.parameters) == 16 {
            self.address = self.address & !PARAM_WRITE_READY;
        }
        proof {
            lemma_clear_bits(old(self).address);
        }
    }

    /// Takes the first result byte; results stay ready while bytes are left.
    pub fn pop_result(&mut self) -> (r: u8)
        requires
            old(self).results@.len() > 0,
        ensures
            r == old(self).results@[0],
            final(self).results@ == old(self).results@.drop_first(),
            final(self).address == (if final(self).results@.len() == 0 {
                old(self).address & !RESULT_READ_READY
            } else {
                old(self).address
            }),
            *final(self) == (CdRom { results: final(self).results, address: final(self).address, ..*old(self) }),
    {
        let val = self.results.remove(0);
        proof {
            assert(self.results@ =~= old(self).results@.drop_first());
        }
        if self.results.len() == 0 {
            self.address = self.address & !RESULT_READ_READY;
        }
        val
    }

    /// Inserts a disc: the parameter and result FIFOs are emptied.
    pub fn insert_disc(&mut self, image: CdImage)
        requires
            old(self).wf(),
            image.wf(),
        ensures
            final(self).wf(),
            final(self).disk == Some(image),
            final(self).params().len() == 0,
            final(self).results@.len() == 0,
            final(self).status == old(self).status,
            *final(self) == (CdRom {
                disk: Some(image),
                parameters: final(self).parameters,
                results: final(self).results,
                ..*old(self)
            }),
    {
        self.disk = Some(image);
        crate::bytes::params_clear(&mut self.parameters);
        self.results.clear();
    }

    /// Opens the shell.
    pub fn open_shell(&mut self)
        ensures
            final(self).status.0 == old(self).status.0 | 0x10,
            *final(self) == (CdRom { status: final(self).status, ..*old(self) }),
    {
        self.status.set_shell_open();
    }
}

proof fn lemma_word_bytes(b0: u32, b1: u32, b2: u32, b3: u32)
    requires
        b0 < 256,
        b1 < 256,
        b2 < 256,
        b3 < 256,
    ensures
        ({
            let r = b0 | (b1 << 8u32) | (b2 << 16u32) | (b3 << 24u32);
            &&& (r >> 0u32) & 0xFF == b0
            &&& (r >> 8u32) & 0xFF == b1
            &&& (r >> 16u32) & 0xFF == b2
            &&& (r >> 24u32) & 0xFF == b3
            &&& b2 == 0 && b3 == 0 ==> r <= 0xFFFF
            &&& b1 == 0 && b2 == 0 && b3 == 0 ==> r <= 0xFF
        }),
{
    assert(({
        let r = b0 | (b1 << 8u32) | (b2 << 16u32) | (b3 << 24u32);
        &&& (r >> 0u32) & 0xFF == b0
        &&& (r >> 8u32) & 0xFF == b1
        &&& (r >> 16u32) & 0xFF == b2
        &&& (r >> 24u32) & 0xFF == b3
        &&& b2 == 0 && b3 == 0 ==> r <= 0xFFFF
        &&& b1 == 0 && b2 == 0 && b3 == 0 ==> r <= 0xFF
    })) by (bit_vector)
        requires
            b0 < 256,
            b1 < 256,
            b2 < 256,
            b3 < 256,
    ;
}

proof fn lemma_clear_bits(a: u8)
    ensures
        (a & !PARAM_EMPTY) & PARAM_EMPTY == 0,
        (a & !PARAM_WRITE_READY) & PARAM_WRITE_READY == 0,
        ((a & !PARAM_EMPTY) & !PARAM_WRITE_READY) & PARAM_EMPTY == 0,
{
    assert((a & !8u8) & 8u8 == 0 && (a & !16u8) & 16u8 == 0 && ((a & !8u8) & !16u8) & 8u8 == 0) by (bit_vector);
}

} // verus!
