use vstd::prelude::*;

use std::collections::VecDeque;

use crate::cdrom::status::{mm_ss_ff, spec_mm_ss_ff, SectorSize, SECTOR_SIZE};

verus! {

broadcast use vstd::std_specs::vecdeque::group_vec_dequeue_axioms;

/// Two seconds of sectors: where a disc's data starts.
pub const LEAD_IN: usize = 2 * 75 * SECTOR_SIZE;

#[derive(Clone, Copy, PartialEq, Eq, Structural, Debug)]
pub enum TrackType {
    Audio,
    Data,
}

/// An index point of a track: its number and its byte position on the disc.
#[derive(Clone, Copy, PartialEq, Eq, Structural, Debug)]
pub struct TrackIndex {
    pub id: u8,
    pub lba: usize,
}

pub struct Track {
    pub id: u8,
    pub indexes: Vec<TrackIndex>,
    pub track_type: TrackType,
}

impl Track {
    /// The single data track of a plain image: track 1, index 1 at the
    /// start.
    pub fn single() -> (t: Self)
        ensures
            t.id == 1,
            t.indexes@ == seq![TrackIndex { id: 1, lba: 0 }],
            t.track_type == TrackType::Data,
    {
        let mut indexes = Vec::new();
        indexes.push(TrackIndex { id: 1, lba: 0 });
        Track { id: 1, indexes, track_type: TrackType::Data }
    }
}

/// The number of leading tracks that start at or before `head`.
pub open spec fn tracks_started(tracks: Seq<Track>, head: usize, n: int) -> int
    decreases n,
{
    if n <= 0 {
        0
    } else if tracks_started(tracks, head, n - 1) == n - 1 && tracks[n - 1].indexes@[0].lba <= head {
        n
    } else {
        tracks_started(tracks, head, n - 1)
    }
}

/// The number of leading indexes at or before `head`.
pub open spec fn indexes_started(indexes: Seq<TrackIndex>, head: usize, n: int) -> int
    decreases n,
{
    if n <= 0 {
        0
    } else if indexes_started(indexes, head, n - 1) == n - 1 && indexes[n - 1].lba <= head {
        n
    } else {
        indexes_started(indexes, head, n - 1)
    }
}

pub struct CdImage {
    pub read_head: usize,
    pub data: Vec<u8>,
    pub tracks: Vec<Track>,
}

impl CdImage {
    /// There is a track, and each track has an index.
    pub open spec fn wf(&self) -> bool {
        &&& self.tracks@.len() > 0
        &&& forall|i: int| 0 <= i < self.tracks@.len() ==> #[trigger] self.tracks@[i].indexes@.len() > 0
    }

    /// The track the read head is in: the last of the leading tracks that
    /// start at or before it (the first track when none does).
    pub open spec fn current_track(&self) -> int {
        let n = tracks_started(self.tracks@, self.read_head, self.tracks@.len() as int);
        if n > 0 { n - 1 } else { 0 }
    }

    /// A disc image of a plain data track: two seconds of silence, then
    /// `bytes`, with the read head after the silence.
    pub fn from_bytes(bytes: Vec<u8>) -> (c: Self)
        requires
            LEAD_IN + bytes@.len() <= usize::MAX,
        ensures
            c.wf(),
            c.read_head == LEAD_IN,
            c.data@ == Seq::new(LEAD_IN as nat, |i: int| 0u8) + bytes@,
            c.tracks@.len() == 1,
            c.tracks@[0].id == 1,
    {
        let mut data = vec![0u8; LEAD_IN];
        let mut i: usize = 0;
        while i < bytes.len()
            invariant
                i <= bytes@.len(),
                LEAD_IN + bytes@.len() <= usize::MAX,
                data@ == Seq::new(LEAD_IN as nat, |k: int| 0u8) + bytes@.subrange(0, i as int),
            decreases bytes@.len() - i,
        {
            data.push(bytes[i]);
            proof {
                assert(bytes@.subrange(0, i + 1) =~= bytes@.subrange(0, i as int).push(bytes@[i as int]));
                assert(Seq::new(LEAD_IN as nat, |k: int| 0u8) + bytes@.subrange(0, i + 1) =~= (Seq::new(
                    LEAD_IN as nat,
                    |k: int| 0u8,
                ) + bytes@.subrange(0, i as int)).push(bytes@[i as int]));
            }
            i = i + 1;
        }
        proof {
            assert(bytes@.subrange(0, bytes@.len() as int) =~= bytes@);
        }
        let mut tracks = Vec::new();
        tracks.push(Track::single());
        CdImage { read_head: LEAD_IN, data, tracks }
    }

    /// A disc image of the given sectors and tracks, the read head after
    /// the two-second lead-in.
    pub fn from_disk(sectors: Vec<u8>, tracks: Vec<Track>) -> (c: Self)
        requires
            tracks@.len() > 0,
            forall|i: int| 0 <= i < tracks@.len() ==> #[trigger] tracks@[i].indexes@.len() > 0,
        ensures
            c.wf(),
            c.read_head == LEAD_IN,
            c.data@ == sectors@,
            c.tracks@ == tracks@,
    {
        CdImage { read_head: LEAD_IN, data: sectors, tracks }
    }

    pub fn first_track_id(&self) -> (r: u8)
        requires
            self.wf(),
        ensures
            r == self.tracks@[0].id,
    {
        self.tracks[0].id
    }

    pub fn last_track_id(&self) -> (r: u8)
        requires
            self.wf(),
        ensures
            r == self.tracks@.last().id,
    {
        self.tracks[self.tracks.len() - 1].id
    }

    /// The minutes, seconds and sector where track `track_id` (counted from
    /// 1) starts: at its index 1, which is its first index or else its
    /// second.
    pub fn track_mm_ss_ff(&self, track_id: u8) -> (r: (u8, u8, u8))
        requires
            self.wf(),
            1 <= track_id <= self.tracks@.len(),
            self.tracks@[track_id - 1].indexes@[0].id != 1 ==> self.tracks@[track_id - 1].indexes@.len() > 1,
        ensures
            ({
                let t = self.tracks@[track_id - 1];
                r == spec_mm_ss_ff(if t.indexes@[0].id == 1 { t.indexes@[0].lba } else { t.indexes@[1].lba })
            }),
    {
        let track = &self.tracks[track_id as usize - 1];
        let start = if track.indexes[0].id == 1 {
            track.indexes[0].lba
        } else {
            track.indexes[1].lba
        };
        mm_ss_ff(start)
    }

    /// The minutes, seconds and sector of the end of the disc.
    pub fn last_track_end(&self) -> (r: (u8, u8, u8))
        ensures
            r == spec_mm_ss_ff(self.data@.len() as usize),
    {
        mm_ss_ff(self.data.len())
    }

    /// Moves the read head back to the end of the lead-in.
    pub fn reset_read_head(&mut self)
        ensures
            final(self).read_head == LEAD_IN,
            final(self).data@ == old(self).data@,
            final(self).tracks@ == old(self).tracks@,
    {
        self.read_head = LEAD_IN;
    }

    fn current_track_index(&self) -> (r: usize)
        requires
            self.wf(),
        ensures
            r == self.current_track(),
            r < self.tracks@.len(),
    {
        let len = self.tracks.len();
        let mut n: usize = 0;
        while n < len
            invariant
                self.wf(),
                len == self.tracks@.len(),
                n <= len,
                tracks_started(self.tracks@, self.read_head, n as int) == n,
            ensures
                n <= len,
                tracks_started(self.tracks@, self.read_head, len as int) == n,
            decreases len - n,
        {
            if self.tracks[n].indexes[0].lba > self.read_head {
                proof {
                    lemma_tracks_started_stops(self.tracks@, self.read_head, n as int, len as int);
                }
                break;
            }
            n = n + 1;
        }
        if n > 0 { n - 1 } else { 0 }
    }

    /// Where the read head is: the current track and index numbers, the
    /// position within the index and on the disc (minutes, seconds,
    /// sector each).
    pub fn position_info(&self) -> (r: [u8; 8])
        requires
            self.wf(),
        ensures
            ({
                let t = self.tracks@[self.current_track()];
                let n = indexes_started(t.indexes@, self.read_head, t.indexes@.len() as int);
                let idx = t.indexes@[if n > 0 { n - 1 } else { 0 }];
                let track_pos = spec_mm_ss_ff(if self.read_head >= idx.lba { (self.read_head - idx.lba) as usize } else { 0 });
                let disk_pos = spec_mm_ss_ff(self.read_head);
                r@ == seq![t.id, idx.id, track_pos.0, track_pos.1, track_pos.2, disk_pos.0, disk_pos.1, disk_pos.2]
            }),
    {
        let ti = self.current_track_index();
        let track = &self.tracks[ti];
        let len = track.indexes.len();
        assert(self.tracks@[ti as int].indexes@.len() > 0);
        let mut n: usize = 0;
        while n < len
            invariant
                len == track.indexes@.len(),
                n <= len,
                indexes_started(track.indexes@, self.read_head, n as int) == n,
            ensures
                n <= len,
                indexes_started(track.indexes@, self.read_head, len as int) == n,
            decreases len - n,
        {
            if track.indexes[n].lba > self.read_head {
                proof {
                    lemma_indexes_started_stops(track.indexes@, self.read_head, n as int, len as int);
                }
                break;
            }
            n = n + 1;
        }
        let ii = if n > 0 { n - 1 } else { 0 };
        let index = track.indexes[ii];
        let rel = if self.read_head >= index.lba { self.read_head - index.lba } else { 0 };
        let track_pos = mm_ss_ff(rel);
        let disk_pos = mm_ss_ff(self.read_head);
        let r = [track.id, index.id, track_pos.0, track_pos.1, track_pos.2, disk_pos.0, disk_pos.1, disk_pos.2];
        proof {
            assert(r@ =~= seq![track.id, index.id, track_pos.0, track_pos.1, track_pos.2, disk_pos.0, disk_pos.1, disk_pos.2]);
        }
        r
    }

    /// The type of the current track.
    pub fn current_sector_type(&self) -> (r: TrackType)
        requires
            self.wf(),
        ensures
            r == self.tracks@[self.current_track()].track_type,
    {
        let ti = self.current_track_index();
        self.tracks[ti].track_type
    }

    /// Moves the read head to a position given in minutes, seconds and
    /// sectors.
    pub fn seek_location(&mut self, mins: u8, secs: u8, sect: u8)
        ensures
            final(self).read_head == (mins * 60 * 75 + secs * 75 + sect) * SECTOR_SIZE,
            final(self).data@ == old(self).data@,
            final(self).tracks@ == old(self).tracks@,
    {
        let total_sectors = (mins as usize) * 60 * 75 + (secs as usize) * 75 + (sect as usize);
        self.read_head = total_sectors * SECTOR_SIZE;
    }

    /// The raw sector at the read head; the head moves to the next sector.
    pub fn advance_sector(&mut self) -> (sector: Vec<u8>)
        requires
            old(self).read_head + SECTOR_SIZE <= old(self).data@.len(),
        ensures
            sector@ == old(self).data@.subrange(old(self).read_head as int, old(self).read_head + SECTOR_SIZE),
            final(self).read_head == old(self).read_head + SECTOR_SIZE,
            final(self).data@ == old(self).data@,
            final(self).tracks@ == old(self).tracks@,
    {
        let start = self.read_head;
        let dlen = self.data.len();
        let mut sector: Vec<u8> = Vec::new();
        for i in 0..SECTOR_SIZE
            invariant
                dlen == self.data@.len(),
                start == self.read_head,
                start + SECTOR_SIZE <= self.data@.len(),
                sector@ == self.data@.subrange(start as int, start + i),
        {
            sector.push(self.data[start + i]);
            proof {
                assert(self.data@.subrange(start as int, start + i + 1) =~= self.data@.subrange(start as int, start + i).push(self.data@[start + i]));
            }
        }
        self.read_head = self.read_head + SECTOR_SIZE;
        sector
    }

    /// The data part of the sector at the read head (bytes 18h-817h, or all
    /// but the 12 sync bytes); the head moves to the next sector.
    pub fn read_sector_and_advance(&mut self, sect_size: SectorSize) -> (r: VecDeque<u8>)
        requires
            old(self).wf(),
            old(self).read_head + SECTOR_SIZE <= old(self).data@.len(),
            old(self).tracks@[old(self).current_track()].track_type != TrackType::Audio,
        ensures
            ({
                let h = old(self).read_head as int;
                r@ == (match sect_size {
                    SectorSize::DataOnly => old(self).data@.subrange(h + 0x18, h + 0x818),
                    SectorSize::WholeSectorExceptSyncBytes => old(self).data@.subrange(h + 0xC, h + SECTOR_SIZE),
                })
            }),
            final(self).read_head == old(self).read_head + SECTOR_SIZE,
            final(self).data@ == old(self).data@,
            final(self).tracks@ == old(self).tracks@,
    {
        let start = self.read_head;
        let dlen = self.data.len();
        let (from, to): (usize, usize) = match sect_size {
            SectorSize::DataOnly => (0x18, 0x818),
            SectorSize::WholeSectorExceptSyncBytes => (0xC, SECTOR_SIZE),
        };
        let mut out: VecDeque<u8> = VecDeque::new();
        let mut i = from;
        while i < to
            invariant
                dlen == self.data@.len(),
                from <= i <= to <= SECTOR_SIZE,
                start == self.read_head,
                start + SECTOR_SIZE <= self.data@.len(),
                out@ == self.data@.subrange(start + from, start + i),
            decreases to - i,
        {
            out.push_back(self.data[start + i]);
            proof {
                assert(self.data@.subrange(start + from, start + i + 1) =~= self.data@.subrange(start + from, start + i).push(self.data@[start + i]));
            }
            i = i + 1;
        }
        self.read_head = self.read_head + SECTOR_SIZE;
        out
    }
}

proof fn lemma_tracks_started_stops(tracks: Seq<Track>, head: usize, n: int, m: int)
    requires
        0 <= n < m <= tracks.len(),
        tracks_started(tracks, head, n) == n,
        tracks[n].indexes@[0].lba > head,
    ensures
        tracks_started(tracks, head, m) == n,
    decreases m - n,
{
    if m > n + 1 {
        lemma_tracks_started_stops(tracks, head, n, m - 1);
    }
}

proof fn lemma_indexes_started_stops(indexes: Seq<TrackIndex>, head: usize, n: int, m: int)
    requires
        0 <= n < m <= indexes.len(),
        indexes_started(indexes, head, n) == n,
        indexes[n].lba > head,
    ensures
        indexes_started(indexes, head, m) == n,
    decreases m - n,
{
    if m > n + 1 {
        lemma_indexes_started_stops(indexes, head, n, m - 1);
    }
}

} // verus!
