use vstd::prelude::*;

use std::collections::VecDeque;

use crate::bytes::{byte_items, bytes_to_vec, params_at, params_clear, params_len};
use crate::cdrom::commands::{
    AVG_RATE_INT1, demute_done, get_id_done, get_locp_done, get_td_done, get_tn_done, init_done, nop_done, pause_done,
    play_done, readn_done, reads_done, seekl_done, seekp_done, set_filter_done, set_loc_done, setmode_done, stop_done,
    test_done,
};
use crate::cdrom::status::Speed;
use crate::cdrom::drive::{CdRom, DATA_REQUEST, PARAM_EMPTY, PARAM_WRITE_READY, RESULT_READ_READY};
use crate::cdrom::response::{response_code, response_items, response_view, responses_len, responses_pop_front, CommandResponse, ResponseType};
use crate::cdrom::status::{SectorSize, SECTOR_SIZE};
use crate::cdrom::xa::{decode_sector, header_ok, header_stereo, header_18900, xa_groups, XaSamples};
use crate::sched::{event_view, has_task, lemma_has_task_without, lemma_schedule_keeps, Event, EventScheduler, MAX_TASKS};

verus! {

broadcast use vstd::std_specs::vecdeque::group_vec_dequeue_axioms;

/// What a sector is taken as: CD-DA audio while playing (0), dropped by the
/// filter (1), XA-ADPCM audio (2), or data (3).
pub open spec fn sector_kind(c: CdRom, sector: Seq<u8>) -> int {
    let mode2 = sector[0xF] == 2;
    let matches_filter = sector[0x10] == c.filter_file && sector[0x11] == c.filter_channel;
    let realtime = sector[0x12] & 0x44 == 0x44;
    if c.status.spec_playing() {
        0
    } else if mode2 && c.mode.filter_enabled && !matches_filter {
        1
    } else if mode2 && c.mode.adpcm_enabled && realtime {
        2
    } else if mode2 && c.mode.filter_enabled && realtime {
        1
    } else {
        3
    }
}

/// The bytes of a data sector that reach the data buffer.
pub open spec fn sector_data(c: CdRom, sector: Seq<u8>) -> Seq<u8> {
    match c.mode.sector_size {
        SectorSize::DataOnly => sector.subrange(0x18, 0x818),
        SectorSize::WholeSectorExceptSyncBytes => sector.subrange(0xC, SECTOR_SIZE as int),
    }
}

impl CdRom {
    /// Takes a sector read from the disc: while playing it is CD-DA audio;
    /// an XA-ADPCM sector is decoded (its native samples returned for
    /// resampling); otherwise, unless the filter drops it, its data replaces
    /// the data buffer. Returns whether it was audio.
    pub fn process_sector(&mut self, sector: &[u8]) -> (r: (bool, Option<XaSamples>))
        requires
            old(self).wf(),
            sector@.len() == SECTOR_SIZE,
            old(self).status.spec_playing() ==> old(self).mode.cdda_enabled,
            sector_kind(*old(self), sector@) == 2 ==> header_ok(sector@[0x13]) && sector@[0x12] & 0x20 != 0,
        ensures
            final(self).wf(),
            final(self).status == old(self).status,
            final(self).mode == old(self).mode,
            final(self).results@ == old(self).results@,
            final(self).params() == old(self).params(),
            final(self).disk == old(self).disk,
            final(self).hintsts == old(self).hintsts,
            final(self).hintmsk == old(self).hintmsk,
            sector_kind(*old(self), sector@) == 0 ==> r.0 && r.1 is None
                && final(self).audio_buffer@ == old(self).audio_buffer@ + Seq::new(
                    sector@.len() / 2,
                    |i: int| (sector@[2 * i] + 0x100 * sector@[2 * i + 1]) as u16 as i16,
                ) && final(self).data_buffer@ == old(self).data_buffer@,
            sector_kind(*old(self), sector@) == 1 ==> !r.0 && r.1 is None
                && final(self).data_buffer@ == old(self).data_buffer@
                && final(self).audio_buffer@ == old(self).audio_buffer@
                && final(self).address == old(self).address,
            sector_kind(*old(self), sector@) == 2 ==> r.0 && (r.1 matches Some(x) && ({
                let h = (old(self).adpcm_history@[0], old(self).adpcm_history@[1], old(self).adpcm_history@[2]);
                let d = xa_groups(sector@, 72, header_stereo(sector@[0x13]), h);
                &&& x.stereo == header_stereo(sector@[0x13])
                &&& x.is_18900 == header_18900(sector@[0x13])
                &&& x.samples@ == d.0
                &&& (final(self).adpcm_history@[0], final(self).adpcm_history@[1], final(self).adpcm_history@[2]) == d.1
            })) && final(self).data_buffer@ == old(self).data_buffer@
                && final(self).audio_buffer@ == old(self).audio_buffer@,
            sector_kind(*old(self), sector@) == 3 ==> !r.0 && r.1 is None
                && final(self).data_buffer@ == sector_data(*old(self), sector@)
                && final(self).address == old(self).address | DATA_REQUEST
                && final(self).audio_buffer@ == old(self).audio_buffer@,
    {
        if self.status.playing() {
            self.push_to_audio_buffer(sector);
            return (true, None);
        }
        let sector_mode = sector[0xF];
        let file = sector[0x10];
        let channel = sector[0x11];
        let submode = sector[0x12];
        let is_realtime_audio = submode & 0x44 == 0x44;
        if sector_mode == 2 {
            if self.mode.filter_enabled && (file != self.filter_file || channel != self.filter_channel) {
                return (false, None);
            }
            if self.mode.adpcm_enabled && is_realtime_audio {
                let xa = decode_sector(sector, &mut self.adpcm_history, &mut self.resamplers);
                return (true, Some(xa));
            }
            if self.mode.filter_enabled && is_realtime_audio {
                return (false, None);
            }
        }
        let (from, to): (usize, usize) = match self.mode.sector_size {
            SectorSize::DataOnly => (0x18, 0x818),
            SectorSize::WholeSectorExceptSyncBytes => (0xC, SECTOR_SIZE),
        };
        let mut data: VecDeque<u8> = VecDeque::new();
        let mut i = from;
        while i < to
            invariant
                from <= i <= to <= SECTOR_SIZE,
                sector@.len() == SECTOR_SIZE,
                data@ == sector@.subrange(from as int, i as int),
            decreases to - i,
        {
            data.push_back(sector[i]);
            proof {
                assert(sector@.subrange(from as int, i + 1) =~= sector@.subrange(from as int, i as int).push(sector@[i as int]));
            }
            i = i + 1;
        }
        self.push_to_data_buffer(data);
        (false, None)
    }

    /// Handles a response that has fallen due: its bytes become the results
    /// (for INT1 a sector is read first, and audio sectors raise nothing),
    /// its number the interrupt flags, and results become ready. Returns
    /// whether the interrupt is unmasked, and any XA audio to resample.
    pub fn handle_response(&mut self, response: ResponseType) -> (r: (bool, Option<XaSamples>))
        requires
            old(self).wf(),
            response is INT1 ==> (old(self).disk matches Some(d) && d.read_head + SECTOR_SIZE <= d.data@.len()
                && (old(self).status.spec_playing() ==> old(self).mode.cdda_enabled)
                && ({
                    let s = d.data@.subrange(d.read_head as int, d.read_head + SECTOR_SIZE);
                    sector_kind(*old(self), s) == 2 ==> header_ok(s[0x13]) && s[0x12] & 0x20 != 0
                })),
        ensures
            final(self).wf(),
            !(response is INT1) ==> {
                &&& final(self).results@ == response_view(response).1
                &&& final(self).hintsts == (old(self).hintsts & !7u8) | response_view(response).0
                &&& final(self).address == old(self).address | RESULT_READ_READY
                &&& r.0 == (final(self).hintsts & final(self).hintmsk != 0)
                &&& r.1 is None
            },
            response is INT1 ==> (old(self).disk matches Some(d) && ({
                let s = d.data@.subrange(d.read_head as int, d.read_head + SECTOR_SIZE);
                let kind = sector_kind(*old(self), s);
                &&& final(self).disk matches Some(d2) && d2.read_head == d.read_head + SECTOR_SIZE
                &&& (kind == 0 || kind == 2) ==> !r.0 && final(self).results@ == old(self).results@
                    && final(self).hintsts == old(self).hintsts
                &&& (kind == 1 || kind == 3) ==> {
                    &&& final(self).results@ == seq![old(self).status.0]
                    &&& final(self).hintsts == (old(self).hintsts & !7u8) | 1
                    &&& r.0 == (final(self).hintsts & final(self).hintmsk != 0)
                    &&& r.1 is None
                }
            })),
    {
        let irq = response_code(&response);
        let results = match response {
            ResponseType::INT5(data) => {
                let mut v = Vec::new();
                v.push(data[0]);
                v.push(data[1]);
                proof {
                    assert(v@ =~= data@);
                }
                v
            },
            ResponseType::INT3(data) => bytes_to_vec(data),
            ResponseType::INT2(data) => bytes_to_vec(data),
            ResponseType::INT1 => {
                let mut disk = self.disk.take().unwrap();
                let sector = disk.advance_sector();
                self.disk = Some(disk);
                let (was_audio, xa) = self.process_sector(sector.as_slice());
                if was_audio {
                    return (false, xa);
                }
                let mut v = Vec::new();
                v.push(self.status.0);
                v
            },
        };
        self.results = results;
        self.hintsts = (self.hintsts & !7u8) | irq;
        self.address = self.address | RESULT_READ_READY;
        (self.hintsts & self.hintmsk != 0, None)
    }
}

/// The commands the drive knows.
pub open spec fn known_command(cmd: u8) -> bool {
    cmd == 0x01 || cmd == 0x02 || cmd == 0x03 || cmd == 0x06 || cmd == 0x08 || cmd == 0x09 || cmd == 0x0A
        || cmd == 0x0C || cmd == 0x0D || cmd == 0x0E || cmd == 0x11 || cmd == 0x13 || cmd == 0x14 || cmd == 0x15
        || cmd == 0x16
        || cmd == 0x19 || cmd == 0x1A || cmd == 0x1B
}

/// What a known command needs of the drive: a test sub-function it knows,
/// a disc to seek on, track numbers and positions that fit in BCD.
pub open spec fn command_ok(c: CdRom, cmd: u8) -> bool {
    &&& known_command(cmd)
    &&& cmd == 0x19 && c.params().len() == 1 ==> {
        let p = c.params()[0];
        p == 0x20 || p == 0x60 || p >= 0x77
    }
    &&& cmd == 0x02 && c.params().len() == 3 && crate::cdrom::status::spec_validate_seek(c.params()[0], c.params()[1], c.params()[2]) is Some
        ==> c.disk is Some
    &&& cmd == 0x13 && c.params().len() == 0 ==> (c.disk matches Some(d) && d.tracks@[0].id <= 99 && d.tracks@.last().id <= 99)
    &&& cmd == 0x14 && c.params().len() == 1 ==> (c.disk matches Some(d) && match crate::cdrom::status::spec_from_bcd(c.params()[0]) {
        Some(track) => track <= d.tracks@.last().id ==> {
            let pos = if track != 0 {
                let tr = d.tracks@[track - 1];
                crate::cdrom::status::spec_mm_ss_ff(if tr.indexes@[0].id == 1 { tr.indexes@[0].lba } else { tr.indexes@[1].lba })
            } else {
                crate::cdrom::status::spec_mm_ss_ff(d.data@.len() as usize)
            };
            &&& track != 0 ==> track <= d.tracks@.len()
            &&& track != 0 ==> (d.tracks@[track - 1].indexes@[0].id != 1 ==> d.tracks@[track - 1].indexes@.len() > 1)
            &&& pos.0 <= 99
            &&& pos.1 <= 99
        },
        None => true,
    })
    &&& cmd == 0x11 && c.params().len() == 0 ==> (c.disk matches Some(d) && forall|i: int|
        0 <= i < 8 ==> #[trigger] crate::cdrom::commands::position_of(d)[i] <= 99)
}

/// Whether drive `c` can run command `cmd` as it stands.
pub fn command_allowed(c: &CdRom, cmd: u8) -> (r: bool)
    requires
        c.wf(),
    ensures
        r == command_ok(*c, cmd),
{
    let known = cmd == 0x01 || cmd == 0x02 || cmd == 0x03 || cmd == 0x06 || cmd == 0x08 || cmd == 0x09 || cmd == 0x0A
        || cmd == 0x0C || cmd == 0x0D || cmd == 0x0E || cmd == 0x11 || cmd == 0x13 || cmd == 0x14 || cmd == 0x15
        || cmd == 0x16 || cmd == 0x19 || cmd == 0x1A || cmd == 0x1B;
    if !known {
        return false;
    }
    let n = params_len(&c.parameters);
    if cmd == 0x19 && n == 1 {
        let p = params_at(&c.parameters, 0);
        return p == 0x20 || p == 0x60 || p >= 0x77;
    }
    if cmd == 0x02 && n == 3 {
        let v = crate::cdrom::status::validate_seek(
            params_at(&c.parameters, 0),
            params_at(&c.parameters, 1),
            params_at(&c.parameters, 2),
        );
        return v.is_none() || c.disk.is_some();
    }
    if cmd == 0x13 && n == 0 {
        return match &c.disk {
            Some(d) => d.first_track_id() <= 99 && d.last_track_id() <= 99,
            None => false,
        };
    }
    if cmd == 0x14 && n == 1 {
        return match &c.disk {
            None => false,
            Some(d) => match crate::cdrom::status::from_bcd(params_at(&c.parameters, 0)) {
                None => true,
                Some(track) => {
                    if track > d.last_track_id() {
                        true
                    } else if track == 0 {
                        let (mm, ss, _) = d.last_track_end();
                        mm <= 99 && ss <= 99
                    } else if track as usize > d.tracks.len() {
                        false
                    } else {
                        let t = &d.tracks[track as usize - 1];
                        if t.indexes[0].id != 1 && t.indexes.len() <= 1 {
                            false
                        } else {
                            let (mm, ss, _) = d.track_mm_ss_ff(track);
                            mm <= 99 && ss <= 99
                        }
                    }
                },
            },
        };
    }
    if cmd == 0x11 && n == 0 {
        return match &c.disk {
            None => false,
            Some(d) => {
                let info = d.position_info();
                let mut i: usize = 0;
                while i < 8
                    invariant
                        info@ == crate::cdrom::commands::position_of(*d),
                        c.disk == Some(*d),
                        cmd == 0x11,
                        c.params().len() == 0,
                        i <= 8,
                        forall|k: int| 0 <= k < i ==> #[trigger] info@[k] <= 99,
                    decreases 8 - i,
                {
                    if info[i] > 99 {
                        assert(!(crate::cdrom::commands::position_of(*d)[i as int] <= 99));
                        return false;
                    }
                    i = i + 1;
                }
                true
            },
        };
    }
    true
}

/// Whether drive `c` can take `response` as it falls due: a sector read
/// (INT1) needs a disc with a whole sector at the read head, playing only
/// with CD-DA enabled, and an XA-ADPCM sector with a coding it decodes.
pub fn response_allowed(c: &CdRom, response: &ResponseType) -> (r: bool)
    requires
        c.wf(),
    ensures
        r == (*response is INT1 ==> (c.disk matches Some(d) && d.read_head + SECTOR_SIZE <= d.data@.len()
            && (c.status.spec_playing() ==> c.mode.cdda_enabled) && ({
                let s = d.data@.subrange(d.read_head as int, d.read_head + SECTOR_SIZE);
                sector_kind(*c, s) == 2 ==> header_ok(s[0x13]) && s[0x12] & 0x20 != 0
            }))),
{
    match response {
        ResponseType::INT1 => match &c.disk {
            None => false,
            Some(d) => {
                let h = d.read_head;
                if h > d.data.len() || d.data.len() - h < SECTOR_SIZE {
                    return false;
                }
                let playing = c.status.playing();
                if playing && !c.mode.cdda_enabled {
                    return false;
                }
                let ghost s = d.data@.subrange(h as int, h + SECTOR_SIZE);
                let b0f = d.data[h + 0xF];
                let b10 = d.data[h + 0x10];
                let b11 = d.data[h + 0x11];
                let b12 = d.data[h + 0x12];
                let b13 = d.data[h + 0x13];
                assert(s[0xF] == b0f && s[0x10] == b10 && s[0x11] == b11 && s[0x12] == b12 && s[0x13] == b13);
                let mode2 = b0f == 2;
                let matches_filter = b10 == c.filter_file && b11 == c.filter_channel;
                let realtime = b12 & 0x44 == 0x44;
                let xa = !playing && mode2 && !(c.mode.filter_enabled && !matches_filter) && c.mode.adpcm_enabled
                    && realtime;
                !xa || ((b13 / 16) % 4 == 0 && (b13 / 4) % 4 < 2 && b13 % 4 < 2 && b12 & 0x20 != 0)
            },
        },
        _ => true,
    }
}

/// The longest delay of a command's response.
pub const MAX_RESPONSE_DELAY: u64 = 0x200_0000;

/// What command `cmd` leaves of drive `c` and what it responds.
pub open spec fn command_done(cmd: u8, c: CdRom, after: CdRom, rv: Seq<((u8, Seq<u8>), u64)>) -> bool {
    if cmd == 0x01 {
        nop_done(c, after, rv)
    } else if cmd == 0x02 {
        set_loc_done(c, after, rv)
    } else if cmd == 0x03 {
        play_done(c, after, rv)
    } else if cmd == 0x06 {
        readn_done(c, after, rv)
    } else if cmd == 0x08 {
        stop_done(c, after, rv)
    } else if cmd == 0x09 {
        pause_done(c, after, rv)
    } else if cmd == 0x0A {
        init_done(c, after, rv)
    } else if cmd == 0x0C {
        demute_done(c, after, rv)
    } else if cmd == 0x0D {
        set_filter_done(c, after, rv)
    } else if cmd == 0x0E {
        setmode_done(c, after, rv)
    } else if cmd == 0x11 {
        get_locp_done(c, after, rv)
    } else if cmd == 0x13 {
        get_tn_done(c, after, rv)
    } else if cmd == 0x14 {
        get_td_done(c, after, rv)
    } else if cmd == 0x15 {
        seekl_done(c, after, rv)
    } else if cmd == 0x16 {
        seekp_done(c, after, rv)
    } else if cmd == 0x19 {
        test_done(c, after, rv)
    } else if cmd == 0x1A {
        get_id_done(c, after, rv)
    } else {
        reads_done(c, after, rv)
    }
}

/// The scheduler's view of a response's interrupt event.
pub open spec fn response_task_view(x: ((u8, Seq<u8>), u64)) -> (int, int, bool, Seq<u8>) {
    (5, x.0.0 as int, false, x.0.1)
}

/// A response's repeat period: INT1 comes again every read period at the
/// drive's speed.
pub open spec fn response_repeat(x: ((u8, Seq<u8>), u64), speed: Speed) -> Option<u64> {
    if x.0.0 == 1 {
        Some(
            match speed {
                Speed::Normal => AVG_RATE_INT1,
                Speed::Double => AVG_RATE_INT1 / 2,
            },
        )
    } else {
        None
    }
}

/// Each response (the last of its kind, since a later one replaces it) is
/// scheduled after its delay from `sysclk`.
pub open spec fn responses_scheduled(rv: Seq<((u8, Seq<u8>), u64)>, speed: Speed, sysclk: u64, items: Seq<crate::sched::Task>, upto: int) -> bool {
    forall|k: int|
        0 <= k < upto && (forall|j: int| k < j < upto ==> rv[j].0.0 != rv[k].0.0) ==> has_task(
            items,
            response_task_view(#[trigger] rv[k]),
            (sysclk + rv[k].1) as u64,
            response_repeat(rv[k], speed),
        )
}

/// What running command `cmd` does to drive `c` (leaving `after`) and to
/// the scheduler (from `s0` to `s1`): the command's own outcome, its
/// parameters cleared, each of its responses scheduled, and every task
/// other than the drive's kept.
pub open spec fn command_run(c: CdRom, cmd: u8, after: CdRom, s0: EventScheduler, s1: EventScheduler) -> bool {
    &&& s1.sysclk == s0.sysclk
    &&& after.params().len() == 0
    &&& after.address & PARAM_EMPTY != 0
    &&& after.address & PARAM_WRITE_READY != 0
    &&& exists|mid: CdRom, rv: Seq<((u8, Seq<u8>), u64)>|
        {
            &&& #[trigger] command_done(cmd, c, mid, rv)
            &&& after == (CdRom {
                parameters: after.parameters,
                address: mid.address | PARAM_EMPTY | PARAM_WRITE_READY,
                ..mid
            })
            &&& responses_scheduled(rv, mid.mode.speed, s0.sysclk, s1.items(), rv.len() as int)
        }
    &&& forall|e2: (int, int, bool, Seq<u8>), c2: u64, r2: Option<u64>|
        e2.0 != 5 && has_task(s0.items(), e2, c2, r2) ==> #[trigger] has_task(s1.items(), e2, c2, r2)
}

impl CdRom {
    /// Runs a command: reads 08h and 09h first cancel pending sector reads;
    /// the parameters are then cleared, and each response is scheduled after
    /// its delay (an INT1 again every read period at the current speed).
    #[verifier::rlimit(60)]
    pub fn exec_command(&mut self, sched: &mut EventScheduler, cmd: u8)
        requires
            old(self).wf(),
            command_ok(*old(self), cmd),
            old(sched).wf(),
            old(sched).items().len() + 2 < MAX_TASKS,
            old(sched).sysclk + MAX_RESPONSE_DELAY <= u64::MAX,
        ensures
            final(self).wf(),
            final(sched).wf(),
            final(sched).sysclk == old(sched).sysclk,
            final(self).params().len() == 0,
            final(self).address & PARAM_EMPTY != 0,
            final(self).address & PARAM_WRITE_READY != 0,
            exists|mid: CdRom, rv: Seq<((u8, Seq<u8>), u64)>|
                {
                    &&& #[trigger] command_done(cmd, *old(self), mid, rv)
                    &&& *final(self) == (CdRom {
                        parameters: final(self).parameters,
                        address: mid.address | PARAM_EMPTY | PARAM_WRITE_READY,
                        ..mid
                    })
                    &&& responses_scheduled(rv, mid.mode.speed, old(sched).sysclk, final(sched).items(), rv.len() as int)
                },
            forall|e2: (int, int, bool, Seq<u8>), c2: u64, r2: Option<u64>|
                e2.0 != 5 && has_task(old(sched).items(), e2, c2, r2) ==> #[trigger] has_task(final(sched).items(), e2, c2, r2),
    {
        if cmd == 0x08 || cmd == 0x09 {
            sched.unschedule(&Event::CdromResultIrq(ResponseType::INT1));
            proof {
                old(sched).items().lemma_filter_len(crate::sched::not_event(Event::CdromResultIrq(ResponseType::INT1)));
            }
        }
        let mut response = if cmd == 0x01 {
            self.nop()
        } else if cmd == 0x02 {
            self.set_loc()
        } else if cmd == 0x03 {
            self.play()
        } else if cmd == 0x06 {
            self.readn()
        } else if cmd == 0x08 {
            self.stop()
        } else if cmd == 0x09 {
            self.pause()
        } else if cmd == 0x0A {
            self.init()
        } else if cmd == 0x0C {
            self.demute()
        } else if cmd == 0x0D {
            self.set_filter()
        } else if cmd == 0x0E {
            self.setmode()
        } else if cmd == 0x11 {
            self.get_locp()
        } else if cmd == 0x13 {
            self.get_tn()
        } else if cmd == 0x14 {
            self.get_td()
        } else if cmd == 0x15 {
            self.seekl()
        } else if cmd == 0x16 {
            self.seekp()
        } else if cmd == 0x19 {
            self.test()
        } else if cmd == 0x1A {
            self.get_id()
        } else {
            self.reads()
        };
        proof {
            assert(forall|k: int| 0 <= k < response.views().len() ==> #[trigger] response.views()[k].1 <= MAX_RESPONSE_DELAY);
            assert forall|k: int| 0 <= k < response.items().len() implies #[trigger] response.items()[k].1 <= MAX_RESPONSE_DELAY by {
                assert(response.views()[k].1 == response.items()[k].1);
            }
        }
        let ghost mid = *self;
        let ghost rv = response.views();
        assert(command_done(cmd, *old(self), mid, rv));
        let ghost items_all = response.items();
        let ghost sys0 = sched.sysclk;
        let ghost sched_before = sched.items();
        proof {
            assert forall|e2: (int, int, bool, Seq<u8>), c2: u64, r2: Option<u64>|
                e2.0 != 5 && has_task(old(sched).items(), e2, c2, r2) implies #[trigger] has_task(sched.items(), e2, c2, r2) by {
                if cmd == 0x08 || cmd == 0x09 {
                    lemma_has_task_without(old(sched).items(), Event::CdromResultIrq(ResponseType::INT1), e2, c2, r2);
                }
            }
        }
        params_clear(&mut self.parameters);
        let ghost a0 = self.address;
        self.address = self.address | PARAM_EMPTY | PARAM_WRITE_READY;
        proof {
            lemma_set_bits(a0);
        }
        let n = responses_len(&response.responses);
        let mut i: usize = 0;
        while i < n
            invariant
                i <= n <= 2,
                response_items(response.responses).len() == n - i,
                sched.wf(),
                sched.sysclk == old(sched).sysclk,
                sched.items().len() + (n - i) + (if cmd == 0x08 || cmd == 0x09 { 0int } else { 0 }) <= old(sched).items().len() + n,
                old(sched).items().len() + 2 < MAX_TASKS,
                old(sched).sysclk + MAX_RESPONSE_DELAY <= u64::MAX,
                forall|k: int| 0 <= k < response_items(response.responses).len() ==> #[trigger] response_items(response.responses)[k].1 <= MAX_RESPONSE_DELAY,
                self.wf(),
                self.params().len() == 0,
                self.address & PARAM_EMPTY != 0,
                self.address & PARAM_WRITE_READY != 0,
                *self == (CdRom { parameters: self.parameters, address: mid.address | PARAM_EMPTY | PARAM_WRITE_READY, ..mid }),
                n == items_all.len(),
                command_done(cmd, *old(self), mid, rv),
                response_items(response.responses) == items_all.subrange(i as int, n as int),
                rv == items_all.map_values(|p: (ResponseType, u64)| (response_view(p.0), p.1)),
                sys0 == old(sched).sysclk,
                responses_scheduled(rv, mid.mode.speed, sys0, sched.items(), i as int),
                forall|e2: (int, int, bool, Seq<u8>), c2: u64, r2: Option<u64>|
                    e2.0 != 5 && has_task(old(sched).items(), e2, c2, r2) ==> #[trigger] has_task(sched.items(), e2, c2, r2),
            decreases n - i,
        {
            let (res_type, delay) = responses_pop_front(&mut response.responses).unwrap();
            let repeat = match res_type {
                ResponseType::INT1 => Some(self.mode.speed.transform(AVG_RATE_INT1)),
                _ => None,
            };
            let event = Event::CdromResultIrq(res_type);
            let ghost before_items = sched.items();
            proof {
                sched.items().lemma_filter_len(crate::sched::not_event(event));
                assert(items_all[i as int] == (res_type, delay));
            }
            sched.schedule(event, delay, repeat);
            proof {
                lemma_schedule_keeps(before_items, event, (old(sched).sysclk + delay) as u64, repeat, sched.items());
                assert(rv[i as int] == (response_view(res_type), delay));
                assert forall|k: int|
                    0 <= k < i + 1 && (forall|j: int| k < j < i + 1 ==> rv[j].0.0 != rv[k].0.0) implies has_task(
                        sched.items(),
                        response_task_view(#[trigger] rv[k]),
                        (sys0 + rv[k].1) as u64,
                        response_repeat(rv[k], mid.mode.speed),
                    ) by {
                    if k < i {
                        assert(rv[i as int].0.0 != rv[k].0.0);
                    }
                }
            }
            i = i + 1;
        }
    }
}

proof fn lemma_set_bits(a: u8)
    ensures
        (a | PARAM_EMPTY | PARAM_WRITE_READY) & PARAM_EMPTY != 0,
        (a | PARAM_EMPTY | PARAM_WRITE_READY) & PARAM_WRITE_READY != 0,
{
    assert((a | 8u8 | 16u8) & 8u8 != 0 && (a | 8u8 | 16u8) & 16u8 != 0) by (bit_vector);
}

} // verus!
