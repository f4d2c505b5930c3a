use vstd::prelude::*;

use crate::bytes::{param_items, params_at, params_len};
use crate::cdrom::cd_image::CdImage;
use crate::cdrom::drive::CdRom;
use crate::cdrom::response::CommandResponse;
use crate::cdrom::status::{
    from_bcd, spec_from_bcd, spec_mm_ss_ff, spec_to_bcd, spec_validate_seek, to_bcd, validate_seek, with_state_bit,
    Mode, Speed, Status,
};

verus! {

pub const AVG_1ST_RESP_GENERIC: u64 = 0xC4E1;

pub const AVG_1ST_RESP_INIT: u64 = 0x1_3CCE;

pub const AVG_2ND_RESP_GET_ID: u64 = 0x4A00;

pub const AVG_2ND_RESP_PAUSE: u64 = 0x21_181C;

pub const AVG_2ND_RESP_SEEKL: u64 = 0x6_E1CD;

pub const AVG_RATE_INT1: u64 = 0x6_E1CD;

/// The error response: INT5 with the status (error bit set) and the error
/// code.
pub open spec fn error_views(status: u8, err: u8) -> Seq<((u8, Seq<u8>), u64)> {
    seq![((5u8, seq![status | 0x01, err]), AVG_1ST_RESP_INIT)]
}

pub fn error_response(stat: &Status, err_byte: u8) -> (r: CommandResponse)
    ensures
        r.views() == error_views(stat.0, err_byte),
        r.items().len() == 1,
{
    let data = [stat.with_error(), err_byte];
    let r = CommandResponse::new().int5(data, AVG_1ST_RESP_INIT);
    proof {
        assert(data@ =~= seq![stat.0 | 0x01, err_byte]);
        assert(r.views() =~= error_views(stat.0, err_byte));
    }
    r
}

/// One INT3 response of the status byte.
pub open spec fn status_views(status: u8, delay: u64) -> Seq<((u8, Seq<u8>), u64)> {
    seq![((3u8, seq![status]), delay)]
}

fn status_response(status: u8, delay: u64) -> (r: CommandResponse)
    ensures
        r.views() == status_views(status, delay),
        r.items().len() == 1,
{
    let data = [status];
    let r = CommandResponse::new().int3(data.as_slice(), delay);
    proof {
        assert(data@ =~= seq![status]);
        assert(r.views() =~= status_views(status, delay));
    }
    r
}

/// An INT3 of `first` followed by an INT2 of `second`.
pub open spec fn two_views(first: u8, d1: u64, second: u8, d2: u64) -> Seq<((u8, Seq<u8>), u64)> {
    seq![((3u8, seq![first]), d1), ((2u8, seq![second]), d2)]
}

fn two_responses(first: u8, d1: u64, second: u8, d2: u64) -> (r: CommandResponse)
    ensures
        r.views() == two_views(first, d1, second, d2),
{
    let a = [first];
    let b = [second];
    let r = CommandResponse::new().int3(a.as_slice(), d1).int2(b.as_slice(), d2);
    proof {
        assert(a@ =~= seq![first]);
        assert(b@ =~= seq![second]);
        assert(r.views() =~= two_views(first, d1, second, d2));
    }
    r
}

/// The drive with only its status, mode, muting, filter and disc looked at:
/// what the commands change.
pub open spec fn unchanged_except(a: CdRom, b: CdRom) -> bool {
    &&& b.address == a.address
    &&& b.hintsts == a.hintsts
    &&& b.hintmsk == a.hintmsk
    &&& b.params() == a.params()
    &&& b.results@ == a.results@
    &&& b.data_buffer@ == a.data_buffer@
    &&& b.audio_buffer@ == a.audio_buffer@
    &&& b.adpcm_history == a.adpcm_history
    &&& b.resamplers == a.resamplers
}

impl CdRom {
    /// Test: sub-function 20h gives the version, 60h one byte of drive
    /// memory (0); 77h and up are errors; it takes one parameter.
    pub fn test(&self) -> (r: CommandResponse)
        requires
            self.params().len() == 1 ==> {
                let c = self.params()[0];
                c == 0x20 || c == 0x60 || c >= 0x77
            },
        ensures
            test_done(*self, *self, r.views()),
    {
        if params_len(&self.parameters) != 1 {
            return error_response(&self.status, 0x20);
        }
        let cmd = params_at(&self.parameters, 0);
        if cmd == 0x20 {
            let data = [149u8, 5, 22, 193];
            let r = CommandResponse::new().int3(data.as_slice(), AVG_1ST_RESP_GENERIC);
            proof {
                assert(data@ =~= seq![149u8, 5u8, 22u8, 193u8]);
                assert(r.views() =~= seq![((3u8, seq![149u8, 5u8, 22u8, 193u8]), AVG_1ST_RESP_GENERIC)]);
            }
            r
        } else if cmd == 0x60 {
            status_response(0, AVG_1ST_RESP_GENERIC)
        } else {
            error_response(&self.status, 0x10)
        }
    }

    /// An unknown command: error 40h.
    pub fn invalid(&self) -> (r: CommandResponse)
        ensures
            r.views() == error_views(self.status.0, 0x40),
    {
        error_response(&self.status, 0x40)
    }

    /// Nop (GetStat): the status byte.
    pub fn nop(&self) -> (r: CommandResponse)
        ensures
            nop_done(*self, *self, r.views()),
    {
        if params_len(&self.parameters) != 0 {
            return error_response(&self.status, 0x20);
        }
        status_response(self.status.0, AVG_1ST_RESP_GENERIC)
    }

    /// GetID: the status, then the identification of a licensed disc.
    pub fn get_id(&self) -> (r: CommandResponse)
        ensures
            get_id_done(*self, *self, r.views()),
    {
        if params_len(&self.parameters) != 0 {
            return error_response(&self.status, 0x20);
        }
        let a = [self.status.0];
        let b = [0x02u8, 0x00, 0x20, 0x00, 0x53, 0x43, 0x45, 0x41];
        let r = CommandResponse::new().int3(a.as_slice(), AVG_1ST_RESP_GENERIC).int2(
            b.as_slice(),
            AVG_1ST_RESP_GENERIC + AVG_2ND_RESP_GET_ID,
        );
        proof {
            assert(a@ =~= seq![self.status.0]);
            assert(b@ =~= seq![0x02u8, 0x00u8, 0x20u8, 0x00u8, 0x53u8, 0x43u8, 0x45u8, 0x41u8]);
            assert(r.views() =~= seq![
                ((3u8, seq![self.status.0]), AVG_1ST_RESP_GENERIC),
                ((2u8, seq![0x02u8, 0x00u8, 0x20u8, 0x00u8, 0x53u8, 0x43u8, 0x45u8, 0x41u8]), (AVG_1ST_RESP_GENERIC + AVG_2ND_RESP_GET_ID) as u64),
            ]);
        }
        r
    }

    /// SetLoc: moves the read head to a BCD position (three parameters); an
    /// invalid position gives error 10h.
    pub fn set_loc(&mut self) -> (r: CommandResponse)
        requires
            old(self).wf(),
            old(self).params().len() == 3 && spec_validate_seek(old(self).params()[0], old(self).params()[1], old(self).params()[2]) is Some
                ==> old(self).disk is Some,
        ensures
            set_loc_done(*old(self), *final(self), r.views()),
    {
        if params_len(&self.parameters) != 3 {
            return error_response(&self.status, 0x20);
        }
        let mm = params_at(&self.parameters, 0);
        let ss = params_at(&self.parameters, 1);
        let ff = params_at(&self.parameters, 2);
        match validate_seek(mm, ss, ff) {
            None => {
                let data = [self.status.with_error(), 0x10];
                let r = CommandResponse::new().int5(data, AVG_1ST_RESP_GENERIC);
                proof {
                    assert(data@ =~= seq![old(self).status.0 | 0x01, 0x10u8]);
                    assert(r.views() =~= seq![((5u8, seq![old(self).status.0 | 0x01, 0x10u8]), AVG_1ST_RESP_GENERIC)]);
                }
                r
            },
            Some((m, s, f)) => {
                let mut d = self.disk.take().unwrap();
                d.seek_location(m, s, f);
                self.disk = Some(d);
                status_response(self.status.0, AVG_1ST_RESP_GENERIC)
            },
        }
    }

    /// SeekL: a seek that completes at once: the status with the seeking bit
    /// set, then the status after it.
    pub fn seekl(&mut self) -> (r: CommandResponse)
        ensures
            seekl_done(*old(self), *final(self), r.views()),
    {
        if params_len(&self.parameters) != 0 {
            return error_response(&self.status, 0x20);
        }
        self.status.set_seeking(true);
        let seeking_status = self.status.set_seeking(false);
        two_responses(seeking_status, AVG_1ST_RESP_GENERIC, self.status.0, AVG_1ST_RESP_GENERIC + AVG_2ND_RESP_SEEKL)
    }

    /// SeekP: as SeekL.
    pub fn seekp(&mut self) -> (r: CommandResponse)
        ensures
            seekp_done(*old(self), *final(self), r.views()),
    {
        if params_len(&self.parameters) != 0 {
            return error_response(&self.status, 0x20);
        }
        self.status.set_seeking(true);
        let seeking_status = self.status.set_seeking(false);
        two_responses(seeking_status, AVG_1ST_RESP_GENERIC, self.status.0, AVG_1ST_RESP_GENERIC + AVG_2ND_RESP_SEEKL)
    }

    /// SetMode: one parameter, the new mode.
    pub fn setmode(&mut self) -> (r: CommandResponse)
        ensures
            setmode_done(*old(self), *final(self), r.views()),
    {
        if params_len(&self.parameters) != 1 {
            return error_response(&self.status, 0x20);
        }
        let p = params_at(&self.parameters, 0);
        self.mode.set_value(p);
        status_response(self.status.0, AVG_1ST_RESP_GENERIC)
    }

    /// ReadN: starts reading: the status, then a sector ready (INT1) after
    /// the read delay at the current speed.
    pub fn readn(&mut self) -> (r: CommandResponse)
        ensures
            readn_done(*old(self), *final(self), r.views()),
    {
        if params_len(&self.parameters) != 0 {
            return error_response(&self.status, 0x20);
        }
        self.status.set_reading(true);
        let a = [self.status.0];
        let r = CommandResponse::new().int3(a.as_slice(), AVG_1ST_RESP_GENERIC).int1(
            AVG_1ST_RESP_GENERIC + self.mode.speed.transform(AVG_RATE_INT1),
        );
        proof {
            assert(a@ =~= seq![self.status.0]);
            assert(r.views() =~= seq![
                ((3u8, seq![self.status.0]), AVG_1ST_RESP_GENERIC),
                ((1u8, Seq::<u8>::empty()), (AVG_1ST_RESP_GENERIC + (match self.mode.speed {
                    Speed::Normal => AVG_RATE_INT1,
                    Speed::Double => AVG_RATE_INT1 / 2,
                })) as u64),
            ]);
        }
        r
    }

    /// ReadS: as ReadN.
    pub fn reads(&mut self) -> (r: CommandResponse)
        ensures
            reads_done(*old(self), *final(self), r.views()),
    {
        if params_len(&self.parameters) != 0 {
            return error_response(&self.status, 0x20);
        }
        self.readn()
    }

    /// Pause: stops reading and playing: the status before, then after.
    pub fn pause(&mut self) -> (r: CommandResponse)
        ensures
            pause_done(*old(self), *final(self), r.views()),
    {
        if params_len(&self.parameters) != 0 {
            return error_response(&self.status, 0x20);
        }
        let before = self.status.0;
        self.status.set_reading(false);
        self.status.set_playing(false);
        two_responses(
            before,
            AVG_1ST_RESP_GENERIC,
            self.status.0,
            AVG_1ST_RESP_GENERIC + self.mode.speed.transform(AVG_2ND_RESP_PAUSE),
        )
    }

    /// Init: mode 20h, the read head back to the start, the motor on: the
    /// status before, then after.
    pub fn init(&mut self) -> (r: CommandResponse)
        requires
            old(self).wf(),
        ensures
            init_done(*old(self), *final(self), r.views()),
    {
        if params_len(&self.parameters) != 0 {
            return error_response(&self.status, 0x20);
        }
        self.mode.set_value(0x20);
        if self.disk.is_some() {
            let mut d = self.disk.take().unwrap();
            d.reset_read_head();
            self.disk = Some(d);
        }
        let before = self.status.enable_motor();
        two_responses(before, AVG_1ST_RESP_INIT, self.status.0, AVG_1ST_RESP_GENERIC + AVG_2ND_RESP_SEEKL)
    }

    /// SetFilter: two parameters, the file and channel of the XA audio to
    /// take.
    pub fn set_filter(&mut self) -> (r: CommandResponse)
        ensures
            set_filter_done(*old(self), *final(self), r.views()),
    {
        if params_len(&self.parameters) != 2 {
            return error_response(&self.status, 0x20);
        }
        self.filter_file = params_at(&self.parameters, 0);
        self.filter_channel = params_at(&self.parameters, 1);
        status_response(self.status.0, AVG_1ST_RESP_INIT)
    }

    /// Play: starts playing audio (an optional track parameter is ignored):
    /// the status, then a sector ready after the read delay.
    pub fn play(&mut self) -> (r: CommandResponse)
        ensures
            play_done(*old(self), *final(self), r.views()),
    {
        self.status.set_playing(true);
        let a = [self.status.0];
        let r = CommandResponse::new().int3(a.as_slice(), AVG_1ST_RESP_INIT).int1(AVG_RATE_INT1);
        proof {
            assert(a@ =~= seq![self.status.0]);
            assert(r.views() =~= seq![
                ((3u8, seq![self.status.0]), AVG_1ST_RESP_INIT),
                ((1u8, Seq::<u8>::empty()), AVG_RATE_INT1),
            ]);
        }
        r
    }

    /// Demute: audio is heard again.
    pub fn demute(&mut self) -> (r: CommandResponse)
        ensures
            demute_done(*old(self), *final(self), r.views()),
    {
        if params_len(&self.parameters) != 0 {
            return error_response(&self.status, 0x20);
        }
        self.audio_muted = false;
        status_response(self.status.0, AVG_1ST_RESP_INIT)
    }

    /// GetTN: the status and the first and last track numbers in BCD.
    pub fn get_tn(&self) -> (r: CommandResponse)
        requires
            self.wf(),
            self.params().len() == 0 ==> (self.disk matches Some(d) && d.tracks@[0].id <= 99 && d.tracks@.last().id <= 99),
        ensures
            get_tn_done(*self, *self, r.views()),
    {
        if params_len(&self.parameters) != 0 {
            return error_response(&self.status, 0x20);
        }
        let disk = self.disk.as_ref().unwrap();
        let first = to_bcd(disk.first_track_id()).unwrap();
        let last = to_bcd(disk.last_track_id()).unwrap();
        let a = [self.status.0, first, last];
        let r = CommandResponse::new().int3(a.as_slice(), AVG_1ST_RESP_INIT);
        proof {
            assert(a@ =~= seq![self.status.0, first, last]);
        }
        r
    }

    /// Stop: stops reading, moves the read head to 00:02:00 and turns the
    /// motor off: the status after reading stops, then the final status
    /// after the spin-down delay.
    pub fn stop(&mut self) -> (r: CommandResponse)
        requires
            old(self).wf(),
        ensures
            stop_done(*old(self), *final(self), r.views()),
    {
        if params_len(&self.parameters) != 0 {
            return error_response(&self.status, 0x20);
        }
        self.status.set_reading(false);
        let after_reading = self.status.0;
        if self.disk.is_some() {
            let mut d = self.disk.take().unwrap();
            d.seek_location(0, 2, 0);
            self.disk = Some(d);
        }
        self.status.disable_motor();
        let delay: u64 = match self.mode.speed {
            Speed::Normal => 0xD3_8ACA,
            Speed::Double => 0x18A_6076,
        };
        two_responses(after_reading, AVG_1ST_RESP_INIT, self.status.0, delay)
    }

    /// GetTD: the status and the start (minutes, seconds in BCD) of a track
    /// given in BCD, or of the end of the disc for track 0; a track past the
    /// last gives error 10h.
    pub fn get_td(&self) -> (r: CommandResponse)
        requires
            self.wf(),
            self.params().len() == 1 ==> (self.disk matches Some(d) && match spec_from_bcd(self.params()[0]) {
                Some(track) => track <= d.tracks@.last().id ==> {
                    let pos = if track != 0 {
                        let tr = d.tracks@[track - 1];
                        spec_mm_ss_ff(if tr.indexes@[0].id == 1 { tr.indexes@[0].lba } else { tr.indexes@[1].lba })
                    } else {
                        spec_mm_ss_ff(d.data@.len() as usize)
                    };
                    &&& track != 0 ==> track <= d.tracks@.len()
                    &&& track != 0 ==> (d.tracks@[track - 1].indexes@[0].id != 1 ==> d.tracks@[track - 1].indexes@.len() > 1)
                    &&& pos.0 <= 99
                    &&& pos.1 <= 99
                },
                None => true,
            }),
        ensures
            get_td_done(*self, *self, r.views()),
    {
        if params_len(&self.parameters) != 1 {
            return error_response(&self.status, 0x20);
        }
        let disk = self.disk.as_ref().unwrap();
        let last_track = disk.last_track_id();
        let track = match from_bcd(params_at(&self.parameters, 0)) {
            Some(t) => if t <= last_track { t } else { return error_response(&self.status, 0x10); },
            None => return error_response(&self.status, 0x10),
        };
        let (mm, ss, _) = if track != 0 { disk.track_mm_ss_ff(track) } else { disk.last_track_end() };
        let a = [self.status.0, to_bcd(mm).unwrap(), to_bcd(ss).unwrap()];
        let r = CommandResponse::new().int3(a.as_slice(), AVG_1ST_RESP_INIT);
        proof {
            assert(a@ =~= seq![self.status.0, spec_to_bcd(mm).unwrap(), spec_to_bcd(ss).unwrap()]);
        }
        r
    }

    /// GetLocP: the position of the read head (track, index, position in
    /// the index and on the disc), each in BCD.
    pub fn get_locp(&self) -> (r: CommandResponse)
        requires
            self.wf(),
            self.params().len() == 0 ==> (self.disk matches Some(d) && forall|i: int|
                0 <= i < 8 ==> #[trigger] position_of(d)[i] <= 99),
        ensures
            get_locp_done(*self, *self, r.views()),
    {
        if params_len(&self.parameters) != 0 {
            return error_response(&self.status, 0x20);
        }
        let disk = self.disk.as_ref().unwrap();
        let info = disk.position_info();
        assert forall|k: int| 0 <= k < 8 implies #[trigger] info@[k] <= 99 by {
            assert(info@[k] == position_of(*disk)[k]);
        }
        let mut out = [0u8; 8];
        for i in 0..8usize
            invariant
                info@ == position_of(*disk),
                forall|k: int| 0 <= k < 8 ==> #[trigger] info@[k] <= 99,
                forall|k: int| 0 <= k < i ==> #[trigger] out@[k] == spec_to_bcd(info@[k]).unwrap(),
        {
            out[i] = to_bcd(info[i]).unwrap();
        }
        let r = CommandResponse::new().int3(out.as_slice(), AVG_1ST_RESP_GENERIC);
        proof {
            assert(out@ =~= position_of(*disk).map_values(|x: u8| spec_to_bcd(x).unwrap()));
        }
        r
    }
}

/// The position information of a disc's read head: track, index, position
/// in the index and on the disc (minutes, seconds, sector each).
pub open spec fn position_of(d: CdImage) -> Seq<u8> {
    let t = d.tracks@[d.current_track()];
    let n = crate::cdrom::cd_image::indexes_started(t.indexes@, d.read_head, t.indexes@.len() as int);
    let idx = t.indexes@[if n > 0 { n - 1 } else { 0 }];
    let track_pos = spec_mm_ss_ff(if d.read_head >= idx.lba { (d.read_head - idx.lba) as usize } else { 0 });
    let disk_pos = spec_mm_ss_ff(d.read_head);
    seq![t.id, idx.id, track_pos.0, track_pos.1, track_pos.2, disk_pos.0, disk_pos.1, disk_pos.2]
}

/// What `test` leaves of drive `c` and responds.
pub open spec fn test_done(c: CdRom, after: CdRom, rv: Seq<((u8, Seq<u8>), u64)>) -> bool {
    &&& (c.params().len() != 1 ==> rv == error_views(c.status.0, 0x20))
    &&& (c.params().len() == 1 && c.params()[0] == 0x20 ==> rv == seq![
            ((3u8, seq![149u8, 5u8, 22u8, 193u8]), AVG_1ST_RESP_GENERIC),
        ])
    &&& (c.params().len() == 1 && c.params()[0] == 0x60 ==> rv == seq![
            ((3u8, seq![0u8]), AVG_1ST_RESP_GENERIC),
        ])
    &&& (c.params().len() == 1 && c.params()[0] >= 0x77 ==> rv == error_views(c.status.0, 0x10))
    &&& after == c
}

/// What `nop` leaves of drive `c` and responds.
pub open spec fn nop_done(c: CdRom, after: CdRom, rv: Seq<((u8, Seq<u8>), u64)>) -> bool {
    &&& (c.params().len() != 0 ==> rv == error_views(c.status.0, 0x20))
    &&& (c.params().len() == 0 ==> rv == status_views(c.status.0, AVG_1ST_RESP_GENERIC))
    &&& after == c
}

/// What `get_id` leaves of drive `c` and responds.
pub open spec fn get_id_done(c: CdRom, after: CdRom, rv: Seq<((u8, Seq<u8>), u64)>) -> bool {
    &&& (c.params().len() != 0 ==> rv == error_views(c.status.0, 0x20))
    &&& (c.params().len() == 0 ==> rv == seq![
            ((3u8, seq![c.status.0]), AVG_1ST_RESP_GENERIC),
            ((2u8, seq![0x02u8, 0x00u8, 0x20u8, 0x00u8, 0x53u8, 0x43u8, 0x45u8, 0x41u8]), (AVG_1ST_RESP_GENERIC + AVG_2ND_RESP_GET_ID) as u64),
        ])
    &&& after == c
}

/// What `set_loc` leaves of drive `c` and responds.
pub open spec fn set_loc_done(c: CdRom, after: CdRom, rv: Seq<((u8, Seq<u8>), u64)>) -> bool {
    &&& (after.wf())
    &&& (unchanged_except(c, after))
    &&& (after.status == c.status)
    &&& (after.mode == c.mode)
    &&& (c.params().len() != 3 ==> rv == error_views(c.status.0, 0x20) && after.disk == c.disk)
    &&& (c.params().len() == 3 ==> match spec_validate_seek(c.params()[0], c.params()[1], c.params()[2]) {
            None => rv == seq![((5u8, seq![c.status.0 | 0x01, 0x10u8]), AVG_1ST_RESP_GENERIC)]
                && after.disk == c.disk,
            Some((m, s, f)) => rv == status_views(c.status.0, AVG_1ST_RESP_GENERIC)
                && (after.disk matches Some(d) && c.disk matches Some(d0)
                && d.read_head == (m * 60 * 75 + s * 75 + f) * 0x930 && d.data@ == d0.data@ && d.tracks@ == d0.tracks@),
        })
}

/// What `seekl` leaves of drive `c` and responds.
pub open spec fn seekl_done(c: CdRom, after: CdRom, rv: Seq<((u8, Seq<u8>), u64)>) -> bool {
    &&& (unchanged_except(c, after))
    &&& (after.mode == c.mode)
    &&& (after.disk == c.disk)
    &&& (c.params().len() != 0 ==> rv == error_views(c.status.0, 0x20)
            && after.status == c.status)
    &&& (c.params().len() == 0 ==> {
            let seeking = with_state_bit(c.status.0, 0x40, true);
            &&& after.status.0 == with_state_bit(seeking, 0x40, false)
            &&& rv == two_views(seeking, AVG_1ST_RESP_GENERIC, after.status.0, (AVG_1ST_RESP_GENERIC + AVG_2ND_RESP_SEEKL) as u64)
        })
}

/// What `seekp` leaves of drive `c` and responds.
pub open spec fn seekp_done(c: CdRom, after: CdRom, rv: Seq<((u8, Seq<u8>), u64)>) -> bool {
    &&& (unchanged_except(c, after))
    &&& (after.mode == c.mode)
    &&& (after.disk == c.disk)
    &&& (c.params().len() != 0 ==> rv == error_views(c.status.0, 0x20)
            && after.status == c.status)
    &&& (c.params().len() == 0 ==> {
            let seeking = with_state_bit(c.status.0, 0x40, true);
            &&& after.status.0 == with_state_bit(seeking, 0x40, false)
            &&& rv == two_views(seeking, AVG_1ST_RESP_GENERIC, after.status.0, (AVG_1ST_RESP_GENERIC + AVG_2ND_RESP_SEEKL) as u64)
        })
}

/// What `setmode` leaves of drive `c` and responds.
pub open spec fn setmode_done(c: CdRom, after: CdRom, rv: Seq<((u8, Seq<u8>), u64)>) -> bool {
    &&& (unchanged_except(c, after))
    &&& (after.status == c.status)
    &&& (after.disk == c.disk)
    &&& (c.params().len() != 1 ==> rv == error_views(c.status.0, 0x20)
            && after.mode == c.mode)
    &&& (c.params().len() == 1 ==> after.mode == c.mode.after_set(c.params()[0])
            && rv == status_views(c.status.0, AVG_1ST_RESP_GENERIC))
}

/// What `readn` leaves of drive `c` and responds.
pub open spec fn readn_done(c: CdRom, after: CdRom, rv: Seq<((u8, Seq<u8>), u64)>) -> bool {
    &&& (unchanged_except(c, after))
    &&& (after.mode == c.mode)
    &&& (after.disk == c.disk)
    &&& (c.params().len() != 0 ==> rv == error_views(c.status.0, 0x20)
            && after.status == c.status)
    &&& (c.params().len() == 0 ==> {
            &&& after.status.0 == with_state_bit(c.status.0, 0x20, true)
            &&& rv == seq![
                ((3u8, seq![after.status.0]), AVG_1ST_RESP_GENERIC),
                ((1u8, Seq::<u8>::empty()), (AVG_1ST_RESP_GENERIC + (match c.mode.speed {
                    Speed::Normal => AVG_RATE_INT1,
                    Speed::Double => AVG_RATE_INT1 / 2,
                })) as u64),
            ]
        })
}

/// What `reads` leaves of drive `c` and responds.
pub open spec fn reads_done(c: CdRom, after: CdRom, rv: Seq<((u8, Seq<u8>), u64)>) -> bool {
    &&& (unchanged_except(c, after))
    &&& (after.mode == c.mode)
    &&& (after.disk == c.disk)
    &&& (c.params().len() != 0 ==> rv == error_views(c.status.0, 0x20)
            && after.status == c.status)
    &&& (c.params().len() == 0 ==> {
            &&& after.status.0 == with_state_bit(c.status.0, 0x20, true)
            &&& rv == seq![
                ((3u8, seq![after.status.0]), AVG_1ST_RESP_GENERIC),
                ((1u8, Seq::<u8>::empty()), (AVG_1ST_RESP_GENERIC + (match c.mode.speed {
                    Speed::Normal => AVG_RATE_INT1,
                    Speed::Double => AVG_RATE_INT1 / 2,
                })) as u64),
            ]
        })
}

/// What `pause` leaves of drive `c` and responds.
pub open spec fn pause_done(c: CdRom, after: CdRom, rv: Seq<((u8, Seq<u8>), u64)>) -> bool {
    &&& (unchanged_except(c, after))
    &&& (after.mode == c.mode)
    &&& (after.disk == c.disk)
    &&& (c.params().len() != 0 ==> rv == error_views(c.status.0, 0x20)
            && after.status == c.status)
    &&& (c.params().len() == 0 ==> {
            &&& after.status.0 == with_state_bit(with_state_bit(c.status.0, 0x20, false), 0x80, false)
            &&& rv == two_views(
                c.status.0,
                AVG_1ST_RESP_GENERIC,
                after.status.0,
                (AVG_1ST_RESP_GENERIC + (match c.mode.speed {
                    Speed::Normal => AVG_2ND_RESP_PAUSE,
                    Speed::Double => AVG_2ND_RESP_PAUSE / 2,
                })) as u64,
            )
        })
}

/// What `init` leaves of drive `c` and responds.
pub open spec fn init_done(c: CdRom, after: CdRom, rv: Seq<((u8, Seq<u8>), u64)>) -> bool {
    &&& (after.wf())
    &&& (unchanged_except(c, after))
    &&& (c.params().len() != 0 ==> rv == error_views(c.status.0, 0x20)
            && after.status == c.status && after.mode == c.mode
            && after.disk == c.disk)
    &&& (c.params().len() == 0 ==> {
            &&& after.mode == c.mode.after_set(0x20)
            &&& after.status.0 == c.status.0 | 0x02
            &&& rv == two_views(
                c.status.0,
                AVG_1ST_RESP_INIT,
                after.status.0,
                (AVG_1ST_RESP_GENERIC + AVG_2ND_RESP_SEEKL) as u64,
            )
            &&& match c.disk {
                None => after.disk is None,
                Some(d0) => after.disk matches Some(d) && d.read_head
                    == crate::cdrom::cd_image::LEAD_IN && d.data@ == d0.data@ && d.tracks@ == d0.tracks@,
            }
        })
}

/// What `set_filter` leaves of drive `c` and responds.
pub open spec fn set_filter_done(c: CdRom, after: CdRom, rv: Seq<((u8, Seq<u8>), u64)>) -> bool {
    &&& (unchanged_except(c, after))
    &&& (after.status == c.status)
    &&& (after.mode == c.mode)
    &&& (after.disk == c.disk)
    &&& (c.params().len() != 2 ==> rv == error_views(c.status.0, 0x20)
            && after.filter_file == c.filter_file
            && after.filter_channel == c.filter_channel)
    &&& (c.params().len() == 2 ==> after.filter_file == c.params()[0]
            && after.filter_channel == c.params()[1]
            && rv == status_views(c.status.0, AVG_1ST_RESP_INIT))
}

/// What `play` leaves of drive `c` and responds.
pub open spec fn play_done(c: CdRom, after: CdRom, rv: Seq<((u8, Seq<u8>), u64)>) -> bool {
    &&& (unchanged_except(c, after))
    &&& (after.mode == c.mode)
    &&& (after.disk == c.disk)
    &&& (after.status.0 == with_state_bit(c.status.0, 0x80, true))
    &&& (rv == seq![
            ((3u8, seq![after.status.0]), AVG_1ST_RESP_INIT),
            ((1u8, Seq::<u8>::empty()), AVG_RATE_INT1),
        ])
}

/// What `demute` leaves of drive `c` and responds.
pub open spec fn demute_done(c: CdRom, after: CdRom, rv: Seq<((u8, Seq<u8>), u64)>) -> bool {
    &&& (unchanged_except(c, after))
    &&& (after.status == c.status)
    &&& (after.mode == c.mode)
    &&& (after.disk == c.disk)
    &&& (c.params().len() != 0 ==> rv == error_views(c.status.0, 0x20)
            && after.audio_muted == c.audio_muted)
    &&& (c.params().len() == 0 ==> !after.audio_muted
            && rv == status_views(c.status.0, AVG_1ST_RESP_INIT))
}

/// What `get_tn` leaves of drive `c` and responds.
pub open spec fn get_tn_done(c: CdRom, after: CdRom, rv: Seq<((u8, Seq<u8>), u64)>) -> bool {
    &&& (c.params().len() != 0 ==> rv == error_views(c.status.0, 0x20))
    &&& (c.params().len() == 0 ==> (c.disk matches Some(d) && rv == seq![
            ((3u8, seq![c.status.0, spec_to_bcd(d.tracks@[0].id).unwrap(), spec_to_bcd(d.tracks@.last().id).unwrap()]), AVG_1ST_RESP_INIT),
        ]))
    &&& after == c
}

/// What `stop` leaves of drive `c` and responds.
pub open spec fn stop_done(c: CdRom, after: CdRom, rv: Seq<((u8, Seq<u8>), u64)>) -> bool {
    &&& (after.wf())
    &&& (unchanged_except(c, after))
    &&& (after.mode == c.mode)
    &&& (c.params().len() != 0 ==> rv == error_views(c.status.0, 0x20)
            && after.status == c.status && after.disk == c.disk)
    &&& (c.params().len() == 0 ==> {
            let after_reading = with_state_bit(c.status.0, 0x20, false);
            &&& after.status.0 == after_reading & !0x02u8
            &&& rv == two_views(
                after_reading,
                AVG_1ST_RESP_INIT,
                after.status.0,
                match c.mode.speed {
                    Speed::Normal => 0xD3_8ACAu64,
                    Speed::Double => 0x18A_6076u64,
                },
            )
            &&& match c.disk {
                None => after.disk is None,
                Some(d0) => after.disk matches Some(d) && d.read_head == 150 * 0x930
                    && d.data@ == d0.data@ && d.tracks@ == d0.tracks@,
            }
        })
}

/// What `get_td` leaves of drive `c` and responds.
pub open spec fn get_td_done(c: CdRom, after: CdRom, rv: Seq<((u8, Seq<u8>), u64)>) -> bool {
    &&& (c.params().len() != 1 ==> rv == error_views(c.status.0, 0x20))
    &&& (c.params().len() == 1 ==> (c.disk matches Some(d) && match spec_from_bcd(c.params()[0]) {
            Some(track) => if track <= d.tracks@.last().id {
                let pos = if track != 0 {
                    let tr = d.tracks@[track - 1];
                    spec_mm_ss_ff(if tr.indexes@[0].id == 1 { tr.indexes@[0].lba } else { tr.indexes@[1].lba })
                } else {
                    spec_mm_ss_ff(d.data@.len() as usize)
                };
                rv == seq![
                    ((3u8, seq![c.status.0, spec_to_bcd(pos.0).unwrap(), spec_to_bcd(pos.1).unwrap()]), AVG_1ST_RESP_INIT),
                ]
            } else {
                rv == error_views(c.status.0, 0x10)
            },
            None => rv == error_views(c.status.0, 0x10),
        }))
    &&& after == c
}

/// What `get_locp` leaves of drive `c` and responds.
pub open spec fn get_locp_done(c: CdRom, after: CdRom, rv: Seq<((u8, Seq<u8>), u64)>) -> bool {
    &&& (c.params().len() != 0 ==> rv == error_views(c.status.0, 0x20))
    &&& (c.params().len() == 0 ==> (c.disk matches Some(d) && rv == seq![
            ((3u8, position_of(d).map_values(|x: u8| spec_to_bcd(x).unwrap())), AVG_1ST_RESP_GENERIC),
        ]))
    &&& after == c
}

} // verus!
