use vstd::prelude::*;

verus! {

/// Size in bytes of a raw sector.
pub const SECTOR_SIZE: usize = 0x930;

/// The status byte of the drive. Bit 7 playing, 6 seeking, 5 reading (at
/// most one of these three at a time), 4 shell open, 1 motor on, 0 error.
#[derive(Clone, Copy, PartialEq, Eq, Structural, Debug)]
pub struct Status(pub u8);

/// The three mutually exclusive activity bits.
pub const STATE_MASK: u8 = 0xE0;

/// The status byte with an activity bit set alone among the three, or that
/// bit cleared.
pub open spec fn with_state_bit(s: u8, bit: u8, value: bool) -> u8 {
    if value {
        (s & !STATE_MASK) | bit
    } else {
        s & !bit
    }
}

impl Status {
    pub open spec fn spec_playing(&self) -> bool {
        self.0 & 0x80 != 0
    }

    pub open spec fn spec_seeking(&self) -> bool {
        self.0 & 0x40 != 0
    }

    pub fn playing(&self) -> (r: bool)
        ensures
            r == self.spec_playing(),
    {
        self.0 & 0x80 != 0
    }

    pub fn seeking(&self) -> (r: bool)
        ensures
            r == self.spec_seeking(),
    {
        self.0 & 0x40 != 0
    }

    /// Sets or clears the reading bit (setting it clears playing and
    /// seeking); returns the status byte from before.
    pub fn set_reading(&mut self, value: bool) -> (before: u8)
        ensures
            before == old(self).0,
            final(self).0 == with_state_bit(old(self).0, 0x20, value),
    {
        let before = self.0;
        if value {
            self.0 = (self.0 & !STATE_MASK) | 0x20;
        } else {
            self.0 = self.0 & !0x20u8;
        }
        before
    }

    /// Sets or clears the seeking bit (setting it clears playing and
    /// reading); returns the status byte from before.
    pub fn set_seeking(&mut self, value: bool) -> (before: u8)
        ensures
            before == old(self).0,
            final(self).0 == with_state_bit(old(self).0, 0x40, value),
    {
        let before = self.0;
        if value {
            self.0 = (self.0 & !STATE_MASK) | 0x40;
        } else {
            self.0 = self.0 & !0x40u8;
        }
        before
    }

    /// Sets or clears the playing bit (setting it clears reading and
    /// seeking); returns the status byte from before.
    pub fn set_playing(&mut self, value: bool) -> (before: u8)
        ensures
            before == old(self).0,
            final(self).0 == with_state_bit(old(self).0, 0x80, value),
    {
        let before = self.0;
        if value {
            self.0 = (self.0 & !STATE_MASK) | 0x80;
        } else {
            self.0 = self.0 & !0x80u8;
        }
        before
    }

    /// The status byte with the error bit set, leaving the status as it is.
    pub fn with_error(&self) -> (r: u8)
        ensures
            r == self.0 | 0x01,
    {
        self.0 | 0x01
    }

    /// Sets the motor-on bit; returns the status byte from before.
    pub fn enable_motor(&mut self) -> (before: u8)
        ensures
            before == old(self).0,
            final(self).0 == old(self).0 | 0x02,
    {
        let before = self.0;
        self.0 = self.0 | 0x02;
        before
    }

    /// Clears the motor-on bit; returns the status byte from before.
    pub fn disable_motor(&mut self) -> (before: u8)
        ensures
            before == old(self).0,
            final(self).0 == old(self).0 & !0x02u8,
    {
        let before = self.0;
        self.0 = self.0 & !0x02u8;
        before
    }

    /// Sets the shell-open bit.
    pub fn set_shell_open(&mut self)
        ensures
            final(self).0 == old(self).0 | 0x10,
    {
        self.0 = self.0 | 0x10;
    }
}

#[derive(Clone, Copy, PartialEq, Eq, Structural, Debug)]
pub enum Speed {
    Normal,
    Double,
}

impl Speed {
    /// A delay at this speed: halved at double speed.
    pub fn transform(self, value: u64) -> (r: u64)
        ensures
            r == (match self {
                Speed::Normal => value,
                Speed::Double => value / 2,
            }),
    {
        match self {
            Speed::Normal => value,
            Speed::Double => value / 2,
        }
    }
}

#[derive(Clone, Copy, PartialEq, Eq, Structural, Debug)]
pub enum SectorSize {
    DataOnly,
    WholeSectorExceptSyncBytes,
}

#[derive(Clone, Copy, PartialEq, Eq, Structural, Debug)]
pub struct Mode {
    pub speed: Speed,
    pub sector_size: SectorSize,
    pub adpcm_enabled: bool,
    pub filter_enabled: bool,
    pub cdda_enabled: bool,
    pub auto_pause: bool,
}

impl Mode {
    /// The mode at power-on: normal speed, data-only sectors, all off.
    pub fn new() -> (m: Self)
        ensures
            m == (Mode {
                speed: Speed::Normal,
                sector_size: SectorSize::DataOnly,
                adpcm_enabled: false,
                filter_enabled: false,
                cdda_enabled: false,
                auto_pause: false,
            }),
    {
        Mode {
            speed: Speed::Normal,
            sector_size: SectorSize::DataOnly,
            adpcm_enabled: false,
            filter_enabled: false,
            cdda_enabled: false,
            auto_pause: false,
        }
    }

    /// The mode set by a SetMode byte: bit 7 double speed, 6 ADPCM, 5
    /// whole sectors (ignored when bit 4 is set), 3 filter, 1 auto pause,
    /// 0 CD-DA.
    pub open spec fn after_set(self, data: u8) -> Self {
        Mode {
            speed: if data & 0x80 != 0 { Speed::Double } else { Speed::Normal },
            adpcm_enabled: data & 0x40 != 0,
            filter_enabled: data & 0x08 != 0,
            cdda_enabled: data & 0x01 != 0,
            auto_pause: data & 0x02 != 0,
            sector_size: if data & 0x10 == 0 {
                if data & 0x20 != 0 { SectorSize::WholeSectorExceptSyncBytes } else { SectorSize::DataOnly }
            } else {
                self.sector_size
            },
        }
    }

    pub fn set_value(&mut self, data: u8)
        ensures
            *final(self) == old(self).after_set(data),
    {
        self.speed = if data & 0x80 != 0 { Speed::Double } else { Speed::Normal };
        self.adpcm_enabled = data & 0x40 != 0;
        self.filter_enabled = data & 0x08 != 0;
        self.cdda_enabled = data & 0x01 != 0;
        self.auto_pause = data & 0x02 != 0;
        if data & 0x10 == 0 {
            self.sector_size = if data & 0x20 != 0 {
                SectorSize::WholeSectorExceptSyncBytes
            } else {
                SectorSize::DataOnly
            };
        }
    }
}

/// The value of a BCD byte whose two digits are both decimal digits.
pub open spec fn spec_from_bcd(bcd: u8) -> Option<u8> {
    let tens = bcd / 16;
    let ones = bcd % 16;
    if tens <= 9 && ones <= 9 {
        Some((tens * 10 + ones) as u8)
    } else {
        None
    }
}

pub fn from_bcd(bcd: u8) -> (r: Option<u8>)
    ensures
        r == spec_from_bcd(bcd),
{
    let tens = bcd / 16;
    let ones = bcd % 16;
    if tens <= 9 && ones <= 9 {
        Some(tens * 10 + ones)
    } else {
        None
    }
}

/// The BCD byte of a value up to 99.
pub open spec fn spec_to_bcd(val: u8) -> Option<u8> {
    if val > 99 {
        None
    } else {
        Some(((val / 10) * 16 + val % 10) as u8)
    }
}

pub fn to_bcd(val: u8) -> (r: Option<u8>)
    ensures
        r == spec_to_bcd(val),
{
    if val > 99 {
        return None;
    }
    Some((val / 10) * 16 + val % 10)
}

/// The minutes, seconds and sector of a BCD seek target, when all three are
/// valid BCD, the seconds below 60 and the sector below 75.
pub open spec fn spec_validate_seek(mins: u8, secs: u8, sect: u8) -> Option<(u8, u8, u8)> {
    match (spec_from_bcd(mins), spec_from_bcd(secs), spec_from_bcd(sect)) {
        (Some(m), Some(s), Some(f)) => if s > 59 || f > 74 { None } else { Some((m, s, f)) },
        _ => None,
    }
}

pub fn validate_seek(mins: u8, secs: u8, sect: u8) -> (r: Option<(u8, u8, u8)>)
    ensures
        r == spec_validate_seek(mins, secs, sect),
{
    let m = match from_bcd(mins) {
        Some(v) => v,
        None => return None,
    };
    let s = match from_bcd(secs) {
        Some(v) => v,
        None => return None,
    };
    let f = match from_bcd(sect) {
        Some(v) => v,
        None => return None,
    };
    if s > 59 || f > 74 {
        return None;
    }
    Some((m, s, f))
}

/// The minutes, seconds and sector (each kept to 8 bits) of a byte
/// position on the disc: 75 sectors a second, 60 seconds a minute.
pub open spec fn spec_mm_ss_ff(read_head: usize) -> (u8, u8, u8) {
    let sectors = read_head / SECTOR_SIZE;
    ((sectors / 75 / 60) as u8, ((sectors / 75) % 60) as u8, (sectors % 75) as u8)
}

pub fn mm_ss_ff(read_head: usize) -> (r: (u8, u8, u8))
    ensures
        r == spec_mm_ss_ff(read_head),
{
    let sectors = read_head / SECTOR_SIZE;
    let secs = sectors / 75;
    let sect = sectors % 75;
    let mins = secs / 60;
    let secs = secs % 60;
    (mins as u8, secs as u8, sect as u8)
}

} // verus!
