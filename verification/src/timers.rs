use vstd::prelude::*;

use crate::sched::{event_view, inserted_in_order, not_event, Event, EventScheduler, TimerInterrupt, LINE_DURATION, MAX_TASKS};

verus! {

pub const PADDR_START: u32 = 0x1F80_1100;

pub const PADDR_END: u32 = 0x1F80_112F;

#[derive(Clone, Copy, PartialEq, Eq, Structural, Debug)]
pub enum SyncMode {
    FreeRun,
    Paused,
    ResetOnHSync,
    HSyncOnly,
    PauseOnHsync,
    ResetOnVSync,
    VSyncOnly,
    PauseOnVsync,
    StartOnNextLine,
    StartOnNextFrame,
}

#[derive(Clone, Copy, PartialEq, Eq, Structural, Debug)]
pub enum Clock {
    Cpu,
    CpuDiv8,
    Dot,
    HBlank,
}

/// The clock of timer `which` for clock source `src` (0-3): timer 0 counts
/// the CPU or dot clock, timer 1 the CPU clock or hblanks, timer 2 the CPU
/// clock or an eighth of it.
pub open spec fn clock_of(which: int, src: int) -> Clock {
    if which == 0 {
        if src % 2 == 0 { Clock::Cpu } else { Clock::Dot }
    } else if which == 1 {
        if src % 2 == 0 { Clock::Cpu } else { Clock::HBlank }
    } else {
        if src < 2 { Clock::Cpu } else { Clock::CpuDiv8 }
    }
}

/// The synchronisation of timer `which` for sync mode `m` (0-3).
pub open spec fn sync_of(which: int, m: int) -> SyncMode {
    if which == 0 {
        if m == 0 { SyncMode::PauseOnHsync } else if m == 1 { SyncMode::ResetOnHSync } else if m == 2 { SyncMode::HSyncOnly } else { SyncMode::StartOnNextLine }
    } else if which == 1 {
        if m == 0 { SyncMode::PauseOnVsync } else if m == 1 { SyncMode::ResetOnVSync } else if m == 2 { SyncMode::VSyncOnly } else { SyncMode::StartOnNextFrame }
    } else {
        if m == 0 || m == 3 { SyncMode::Paused } else { SyncMode::FreeRun }
    }
}

/// Mode register fields.
pub open spec fn sync_enabled(mode: u16) -> bool {
    mode % 2 == 1
}

pub open spec fn sync_mode_bits(mode: u16) -> int {
    ((mode / 2) % 4) as int
}

pub open spec fn reset_to_target(mode: u16) -> bool {
    (mode / 8) % 2 == 1
}

pub open spec fn irq_target_bits(mode: u16) -> int {
    ((mode / 16) % 4) as int
}

pub open spec fn irq_repeat(mode: u16) -> bool {
    (mode / 64) % 2 == 1
}

pub open spec fn irq_toggle(mode: u16) -> bool {
    (mode / 128) % 2 == 1
}

pub open spec fn clock_src_bits(mode: u16) -> int {
    ((mode / 256) % 4) as int
}

pub open spec fn irq_disabled(mode: u16) -> bool {
    (mode / 1024) % 2 == 1
}

#[derive(Clone, Copy)]
pub struct Timer {
    pub counter: u32,
    pub mode: u16,
    pub target: u16,
    pub last_read: u64,
}

impl Timer {
    pub open spec fn reset_value(&self) -> u32 {
        if reset_to_target(self.mode) { self.target as u32 } else { 0xFFFF }
    }

    /// The wrap point when counting to `v`: `v` itself when the timer
    /// resets at its target, else FFFFh.
    pub open spec fn wrap_for(&self, v: u16) -> int {
        if reset_to_target(self.mode) { v as int } else { 0xFFFF }
    }

    /// Ticks until the counter reaches `v`: directly when at or below it,
    /// else through the wrap.
    pub open spec fn ticks_to(&self, v: u16) -> int {
        if self.counter <= v {
            v - self.counter
        } else {
            self.wrap_for(v) + 1 - self.counter + v
        }
    }

    /// The count of ticks to `v` can be taken without going below zero.
    pub open spec fn ticks_ok(&self, v: u16) -> bool {
        self.counter <= v || self.counter <= self.wrap_for(v) + 1
    }

    /// Whether the count of ticks to `v` can be taken.
    pub fn ticks_fit(&self, v: u16) -> (r: bool)
        ensures
            r == self.ticks_ok(v),
    {
        let wrap: u32 = if (self.mode / 8) % 2 == 1 { v as u32 } else { 0xFFFF };
        self.counter <= v as u32 || self.counter <= wrap + 1
    }

    pub fn new() -> (t: Self)
        ensures
            t.counter == 0 && t.mode == 0 && t.target == 0 && t.last_read == 0,
    {
        Timer { counter: 0, mode: 0, target: 0, last_read: 0 }
    }

    /// The counter's low 16 bits.
    pub fn counter(&self) -> (r: u16)
        ensures
            r == self.counter as u16,
    {
        self.counter as u16
    }

    pub fn set_counter(&mut self, val: u16)
        ensures
            *final(self) == (Timer { counter: val as u32, ..*old(self) }),
    {
        self.counter = val as u32;
    }

    /// Reads the mode: the reached-target and reached-FFFFh bits (11 and
    /// 12) are cleared by the read.
    pub fn read_mode(&mut self) -> (r: u16)
        ensures
            r == old(self).mode,
            *final(self) == (Timer { mode: old(self).mode & !0x1800u16, ..*old(self) }),
    {
        let v = self.mode;
        self.mode = self.mode & !0x1800u16;
        v
    }

    /// Writes the mode: the counter restarts at 0, bits 11-12 keep their
    /// value, and bit 10 (IRQ not requested) is set.
    pub fn set_mode(&mut self, val: u16)
        ensures
            *final(self) == (Timer {
                counter: 0,
                mode: ((val & !0x1800u16) | (old(self).mode & 0x1800)) | 0x400,
                ..*old(self)
            }),
    {
        self.counter = 0;
        self.mode = (val & !0x1800u16) | (self.mode & 0x1800);
        self.mode = self.mode | 0x400;
    }

    pub fn get_ticks_to_value(&self, target: u16) -> (r: u32)
        requires
            self.ticks_ok(target),
            self.counter <= 0x1_0000 || self.counter <= target,
        ensures
            r == self.ticks_to(target),
    {
        let counter = self.counter;
        let t = target as u32;
        let reset: u32 = if (self.mode / 8) % 2 == 1 { t } else { 0xFFFF };
        if counter <= t {
            t - counter
        } else {
            (reset + 1 - counter) + t
        }
    }
}

pub struct Timers {
    pub timers: [Timer; 3],
    pub in_vsync: bool,
    pub in_hsync: bool,
    pub hblanks: u32,
}

impl Timers {
    pub open spec fn clock_source(&self, which: int) -> Clock {
        clock_of(which, clock_src_bits(self.timers@[which].mode))
    }

    pub open spec fn sync(&self, which: int) -> SyncMode {
        if sync_enabled(self.timers@[which].mode) {
            sync_of(which, sync_mode_bits(self.timers@[which].mode))
        } else {
            SyncMode::FreeRun
        }
    }

    /// Whether timer `which` does not count at the moment.
    pub open spec fn paused(&self, which: int) -> bool {
        match self.sync(which) {
            SyncMode::Paused => true,
            SyncMode::PauseOnHsync => self.in_hsync,
            SyncMode::PauseOnVsync => self.in_vsync,
            SyncMode::HSyncOnly => !self.in_hsync,
            SyncMode::VSyncOnly => !self.in_vsync,
            _ => false,
        }
    }

    pub fn new() -> (t: Self)
        ensures
            forall|i: int| 0 <= i < 3 ==> #[trigger] t.timers@[i] == Timer::new_spec(),
            !t.in_vsync && !t.in_hsync && t.hblanks == 0,
    {
        Timers { timers: [Timer::new(), Timer::new(), Timer::new()], in_vsync: false, in_hsync: false, hblanks: 0 }
    }

    fn clock_source_exec(&self, which: usize) -> (c: Clock)
        requires
            which < 3,
        ensures
            c == self.clock_source(which as int),
    {
        let src = (self.timers[which].mode / 256) % 4;
        if which == 0 {
            if src % 2 == 0 { Clock::Cpu } else { Clock::Dot }
        } else if which == 1 {
            if src % 2 == 0 { Clock::Cpu } else { Clock::HBlank }
        } else {
            if src < 2 { Clock::Cpu } else { Clock::CpuDiv8 }
        }
    }

    fn sync_mode(&self, which: usize) -> (s: SyncMode)
        requires
            which < 3,
        ensures
            s == self.sync(which as int),
    {
        let mode = self.timers[which].mode;
        if mode % 2 == 1 {
            let m = (mode / 2) % 4;
            if which == 0 {
                if m == 0 { SyncMode::PauseOnHsync } else if m == 1 { SyncMode::ResetOnHSync } else if m == 2 { SyncMode::HSyncOnly } else { SyncMode::StartOnNextLine }
            } else if which == 1 {
                if m == 0 { SyncMode::PauseOnVsync } else if m == 1 { SyncMode::ResetOnVSync } else if m == 2 { SyncMode::VSyncOnly } else { SyncMode::StartOnNextFrame }
            } else {
                if m == 0 || m == 3 { SyncMode::Paused } else { SyncMode::FreeRun }
            }
        } else {
            SyncMode::FreeRun
        }
    }

    fn is_paused(&self, which: usize) -> (r: bool)
        requires
            which < 3,
        ensures
            r == self.paused(which as int),
    {
        match self.sync_mode(which) {
            SyncMode::Paused => true,
            SyncMode::PauseOnHsync => self.in_hsync,
            SyncMode::PauseOnVsync => self.in_vsync,
            SyncMode::HSyncOnly => !self.in_hsync,
            SyncMode::VSyncOnly => !self.in_vsync,
            _ => false,
        }
    }

    /// Ticks of timer `which`'s clock in CPU cycles: a dot lasts
    /// `dot_divider` cycles, an hblank a whole scanline.
    pub fn ticks_to_cycles(&self, which: usize, ticks: u32, dot_divider: u32) -> (r: u64)
        requires
            which < 3,
        ensures
            r == ticks * (match self.clock_source(which as int) {
                Clock::Cpu => 1int,
                Clock::CpuDiv8 => 8,
                Clock::Dot => dot_divider as int,
                Clock::HBlank => LINE_DURATION as int,
            }),
    {
        let t = ticks as u64;
        proof {
            assert(t * 0x1_0000_0000 <= 0xFFFF_FFFF * 0x1_0000_0000) by (nonlinear_arith) requires t <= 0xFFFF_FFFF;
            assert(t * (dot_divider as u64) <= 0xFFFF_FFFF * 0xFFFF_FFFF) by (nonlinear_arith)
                requires t <= 0xFFFF_FFFF, dot_divider <= 0xFFFF_FFFF;
        }
        match self.clock_source_exec(which) {
            Clock::Cpu => t,
            Clock::CpuDiv8 => t * 8,
            Clock::Dot => t * (dot_divider as u64),
            Clock::HBlank => t * LINE_DURATION,
        }
    }

    /// Vertical sync starts: timer 1 restarts in its vsync-reset modes.
    pub fn enter_vsync(&mut self)
        ensures
            final(self).in_vsync,
            final(self).in_hsync == old(self).in_hsync,
            final(self).hblanks == old(self).hblanks,
            final(self).timers@ == (if old(self).sync(1) == SyncMode::ResetOnVSync || old(self).sync(1) == SyncMode::VSyncOnly {
                old(self).timers@.update(1, Timer { counter: 0, ..old(self).timers@[1] })
            } else {
                old(self).timers@
            }),
    {
        self.in_vsync = true;
        let s = self.sync_mode(1);
        if s == SyncMode::ResetOnVSync || s == SyncMode::VSyncOnly {
            self.timers[1].counter = 0;
        }
        proof {
            assert(self.timers@ =~= (if old(self).sync(1) == SyncMode::ResetOnVSync || old(self).sync(1) == SyncMode::VSyncOnly {
                old(self).timers@.update(1, Timer { counter: 0, ..old(self).timers@[1] })
            } else {
                old(self).timers@
            }));
        }
    }

    /// Vertical sync ends: timer 1 leaves its start-on-next-frame mode
    /// (synchronisation off).
    pub fn exit_vsync(&mut self)
        ensures
            !final(self).in_vsync,
            final(self).in_hsync == old(self).in_hsync,
            final(self).hblanks == old(self).hblanks,
            final(self).timers@ == (if old(self).sync(1) == SyncMode::StartOnNextFrame {
                old(self).timers@.update(1, Timer { mode: old(self).timers@[1].mode & !1u16, ..old(self).timers@[1] })
            } else {
                old(self).timers@
            }),
    {
        self.in_vsync = false;
        if self.sync_mode(1) == SyncMode::StartOnNextFrame {
            self.timers[1].mode = self.timers[1].mode & !1u16;
        }
        proof {
            assert(self.timers@ =~= (if old(self).sync(1) == SyncMode::StartOnNextFrame {
                old(self).timers@.update(1, Timer { mode: old(self).timers@[1].mode & !1u16, ..old(self).timers@[1] })
            } else {
                old(self).timers@
            }));
        }
    }

    /// Horizontal sync starts: an hblank is counted, and timer 0 restarts in
    /// its hsync-reset modes.
    pub fn enter_hsync(&mut self)
        requires
            old(self).hblanks < u32::MAX,
        ensures
            final(self).in_hsync,
            final(self).in_vsync == old(self).in_vsync,
            final(self).hblanks == old(self).hblanks + 1,
            final(self).timers@ == (if old(self).sync(0) == SyncMode::ResetOnHSync || old(self).sync(0) == SyncMode::HSyncOnly {
                old(self).timers@.update(0, Timer { counter: 0, ..old(self).timers@[0] })
            } else {
                old(self).timers@
            }),
    {
        self.hblanks = self.hblanks + 1;
        self.in_hsync = true;
        let s = self.sync_mode(0);
        if s == SyncMode::ResetOnHSync || s == SyncMode::HSyncOnly {
            self.timers[0].counter = 0;
        }
        proof {
            assert(self.timers@ =~= (if old(self).sync(0) == SyncMode::ResetOnHSync || old(self).sync(0) == SyncMode::HSyncOnly {
                old(self).timers@.update(0, Timer { counter: 0, ..old(self).timers@[0] })
            } else {
                old(self).timers@
            }));
        }
    }

    /// Horizontal sync ends: timer 0 leaves its start-on-next-line mode.
    pub fn exit_hsync(&mut self)
        ensures
            !final(self).in_hsync,
            final(self).in_vsync == old(self).in_vsync,
            final(self).hblanks == old(self).hblanks,
            final(self).timers@ == (if old(self).sync(0) == SyncMode::StartOnNextLine {
                old(self).timers@.update(0, Timer { mode: old(self).timers@[0].mode & !1u16, ..old(self).timers@[0] })
            } else {
                old(self).timers@
            }),
    {
        self.in_hsync = false;
        if self.sync_mode(0) == SyncMode::StartOnNextLine {
            self.timers[0].mode = self.timers[0].mode & !1u16;
        }
        proof {
            assert(self.timers@ =~= (if old(self).sync(0) == SyncMode::StartOnNextLine {
                old(self).timers@.update(0, Timer { mode: old(self).timers@[0].mode & !1u16, ..old(self).timers@[0] })
            } else {
                old(self).timers@
            }));
        }
    }

    /// Handles a timer interrupt event: a pulse sets the not-requested bit
    /// (10) and raises the interrupt; a toggle flips the bit and raises it
    /// when the bit goes from set to clear. Returns whether it is raised.
    pub fn process_interrupt(&mut self, irq: TimerInterrupt) -> (raised: bool)
        requires
            irq.which < 3,
        ensures
            ({
                let m = old(self).timers@[irq.which as int].mode;
                let prev = irq_disabled(m);
                let new_mode = if irq.toggle {
                    if prev { m & !0x400u16 } else { m | 0x400 }
                } else {
                    m | 0x400
                };
                &&& final(self).timers@ == old(self).timers@.update(
                    irq.which as int,
                    Timer { mode: new_mode, ..old(self).timers@[irq.which as int] },
                )
                &&& raised == (if irq.toggle { prev } else { true })
            }),
            final(self).in_vsync == old(self).in_vsync,
            final(self).in_hsync == old(self).in_hsync,
            final(self).hblanks == old(self).hblanks,
    {
        let m = self.timers[irq.which].mode;
        let prev = (m / 1024) % 2 == 1;
        let set_irq = if irq.toggle {
            if prev {
                self.timers[irq.which].mode = m & !0x400u16;
            } else {
                self.timers[irq.which].mode = m | 0x400;
            }
            prev
        } else {
            self.timers[irq.which].mode = m | 0x400;
            true
        };
        proof {
            let new_mode = if irq.toggle {
                if prev { m & !0x400u16 } else { m | 0x400 }
            } else {
                m | 0x400
            };
            assert(self.timers@ =~= old(self).timers@.update(
                irq.which as int,
                Timer { mode: new_mode, ..old(self).timers@[irq.which as int] },
            ));
        }
        set_irq
    }
}

impl Timer {
    pub open spec fn new_spec() -> Timer {
        Timer { counter: 0, mode: 0, target: 0, last_read: 0 }
    }
}

/// Whether a timer in `mode` with sync state `hsync`/`vsync` is paused.
pub open spec fn paused_in(which: int, mode: u16, in_hsync: bool, in_vsync: bool) -> bool {
    let sync = if sync_enabled(mode) { sync_of(which, sync_mode_bits(mode)) } else { SyncMode::FreeRun };
    match sync {
        SyncMode::Paused => true,
        SyncMode::PauseOnHsync => in_hsync,
        SyncMode::PauseOnVsync => in_vsync,
        SyncMode::HSyncOnly => !in_hsync,
        SyncMode::VSyncOnly => !in_vsync,
        _ => false,
    }
}

/// The number of counts of timer `which`'s clock in `cycles` CPU cycles,
/// or the hblanks counted, by its clock.
pub open spec fn clock_ticks(which: int, mode: u16, cycles: int, hblanks: int, dot_divider: int) -> int {
    match clock_of(which, clock_src_bits(mode)) {
        Clock::Cpu => cycles,
        Clock::CpuDiv8 => cycles / 8,
        Clock::Dot => cycles / dot_divider,
        Clock::HBlank => hblanks,
    }
}

impl Timers {
    /// Timer `which` brought up to date at cycle `sysclk`: unless paused it
    /// counts the ticks of its clock since its last update, wrapping after
    /// its reset value, and notes whether the target and FFFFh were reached.
    pub open spec fn updated_timer(&self, which: int, sysclk: u64, dot_divider: u32) -> Timer {
        let t = self.timers@[which];
        let cycles = ((sysclk - t.last_read) as u32) as int;
        let t1 = Timer { last_read: sysclk, ..t };
        if self.paused(which) {
            t1
        } else {
            let delta = clock_ticks(which, t.mode, cycles, self.hblanks as int, dot_divider as int);
            let reached_target = delta >= t.ticks_to(t.target);
            let reached_ffff = delta >= t.ticks_to(0xFFFF);
            let m1 = if reached_target { t.mode | 0x800 } else { t.mode & !0x800u16 };
            let m2 = if reached_ffff { m1 | 0x1000 } else { m1 & !0x1000u16 };
            Timer {
                counter: ((t.counter + delta) % (t.reset_value() + 1)) as u32,
                mode: m2,
                ..t1
            }
        }
    }

    /// What bringing timer `which` up to date needs: a clock that does not
    /// run backwards, a dot clock divider, and a counter whose counts fit.
    pub open spec fn update_ok(&self, which: int, sysclk: u64, dot_divider: u32) -> bool {
        let t = self.timers@[which];
        &&& sysclk >= t.last_read
        &&& dot_divider > 0
        &&& !self.paused(which) ==> {
            &&& t.counter + clock_ticks(which, t.mode, ((sysclk - t.last_read) as u32) as int, self.hblanks as int, dot_divider as int) <= u32::MAX
            &&& t.ticks_ok(t.target)
            &&& t.ticks_ok(0xFFFF)
        }
    }

    /// Whether timer `which` can be brought up to date at cycle `sysclk`.
    pub fn update_possible(&self, which: usize, sysclk: u64, dot_divider: u32) -> (r: bool)
        requires
            which < 3,
        ensures
            r == self.update_ok(which as int, sysclk, dot_divider),
    {
        let t = self.timers[which];
        if sysclk < t.last_read || dot_divider == 0 {
            return false;
        }
        if self.is_paused(which) {
            return true;
        }
        let clock_delta = (sysclk - t.last_read) as u32;
        let delta: u32 = match self.clock_source_exec(which) {
            Clock::Cpu => clock_delta,
            Clock::CpuDiv8 => clock_delta / 8,
            Clock::Dot => clock_delta / dot_divider,
            Clock::HBlank => self.hblanks,
        };
        delta <= u32::MAX - t.counter && t.ticks_fit(t.target) && t.ticks_fit(0xFFFF)
    }

    /// Brings timer `which` up to date at cycle `sysclk`; the hblank count
    /// starts again.
    pub fn update_value(&mut self, which: usize, sysclk: u64, dot_divider: u32)
        requires
            which < 3,
            old(self).update_ok(which as int, sysclk, dot_divider),
        ensures
            final(self).timers@ == old(self).timers@.update(which as int, old(self).updated_timer(which as int, sysclk, dot_divider)),
            final(self).hblanks == 0,
            final(self).in_vsync == old(self).in_vsync,
            final(self).in_hsync == old(self).in_hsync,
    {
        let t = self.timers[which];
        let clock_delta = (sysclk - t.last_read) as u32;
        self.timers[which].last_read = sysclk;
        let hblanks_since_last_read = self.hblanks;
        self.hblanks = 0;
        if self.is_paused(which) {
            proof {
                assert(self.timers@ =~= old(self).timers@.update(which as int, old(self).updated_timer(which as int, sysclk, dot_divider)));
            }
            return;
        }
        let reset: u32 = if (t.mode / 8) % 2 == 1 { t.target as u32 } else { 0xFFFF };
        let delta: u32 = match self.clock_source_exec(which) {
            Clock::Cpu => clock_delta,
            Clock::CpuDiv8 => clock_delta / 8,
            Clock::Dot => clock_delta / dot_divider,
            Clock::HBlank => hblanks_since_last_read,
        };
        let ticks_until_target = t.get_ticks_to_value(t.target);
        let ticks_until_ffff = t.get_ticks_to_value(0xFFFF);
        let counter = (t.counter + delta) % (reset + 1);
        let m1: u16 = if delta >= ticks_until_target { t.mode | 0x800 } else { t.mode & !0x800u16 };
        let m2: u16 = if delta >= ticks_until_ffff { m1 | 0x1000 } else { m1 & !0x1000u16 };
        self.timers[which].counter = counter;
        self.timers[which].mode = m2;
        proof {
            assert(self.timers@ =~= old(self).timers@.update(which as int, old(self).updated_timer(which as int, sysclk, dot_divider)));
        }
    }
}

/// The event of a timer's interrupt.
pub open spec fn timer_event(which: usize, mode: u16) -> Event {
    Event::Timer(TimerInterrupt { which, toggle: irq_toggle(mode) })
}

/// The cycles until a timer's interrupt and its repeat period, as the
/// interrupt settings (bits 5-4: target, FFFFh, or whichever comes first)
/// choose; none when it raises none.
pub open spec fn irq_schedule(tm: &Timers, which: int, dot_divider: u32) -> Option<(int, int)> {
    let t = tm.timers@[which];
    let unit = match tm.clock_source(which) {
        Clock::Cpu => 1int,
        Clock::CpuDiv8 => 8,
        Clock::Dot => dot_divider as int,
        Clock::HBlank => LINE_DURATION as int,
    };
    let to_target = t.ticks_to(t.target) * unit;
    let target_reset = t.target * unit;
    let to_ffff = t.ticks_to(0xFFFF) * unit;
    let ffff_reset = 0xFFFF * unit;
    let bits = irq_target_bits(t.mode);
    if bits == 0 {
        None
    } else if bits == 1 {
        Some((to_target, target_reset))
    } else if bits == 2 {
        Some((to_ffff, ffff_reset))
    } else if to_target < to_ffff {
        Some((to_target, target_reset))
    } else {
        Some((to_ffff, ffff_reset))
    }
}

/// The scheduler `s1` is `s0` with timer `which`'s interrupt scheduled
/// anew: unless the timer is paused or raises none, its event comes after
/// the cycles `irq_schedule` gives, repeating every full count where the
/// timer repeats.
pub open spec fn rescheduled(tm: &Timers, which: usize, dot_divider: u32, s0: EventScheduler, s1: EventScheduler) -> bool {
    &&& (tm.paused(which as int) || irq_schedule(tm, which as int, dot_divider) is None) ==> s1.items() == s0.items()
    &&& !tm.paused(which as int) ==> (irq_schedule(tm, which as int, dot_divider) matches Some(p) ==> {
        let ev = timer_event(which, tm.timers@[which as int].mode);
        inserted_in_order(
            s0.without(ev),
            event_view(ev),
            (s0.sysclk + p.0) as u64,
            if irq_repeat(tm.timers@[which as int].mode) { Some(p.1 as u64) } else { None },
            s1.items(),
        )
    })
}

impl Timers {
    /// What rescheduling a timer's interrupt needs: counts to its target and
    /// to FFFFh that can be taken, a dot clock divider that keeps the delays
    /// within reach of the scheduler's clock, and room for the task.
    pub open spec fn reschedule_ok(&self, which: int, sched: &EventScheduler, dot_divider: u32) -> bool {
        let t = self.timers@[which];
        &&& !self.paused(which) ==> t.ticks_ok(t.target) && t.ticks_ok(0xFFFF)
        &&& dot_divider <= 0x1_0000
        &&& sched.wf()
        &&& sched.items().len() < MAX_TASKS
        &&& sched.sysclk + 0x1_0000_0000_0000 <= u64::MAX
    }

    /// Schedules the next interrupt of timer `which`, unless it is paused or
    /// raises none; a repeating interrupt repeats every full count.
    pub fn reschedule_interrupt_if_needed(&self, which: usize, sched: &mut EventScheduler, dot_divider: u32)
        requires
            which < 3,
            self.reschedule_ok(which as int, old(sched), dot_divider),
        ensures
            final(sched).wf(),
            final(sched).sysclk == old(sched).sysclk,
            rescheduled(self, which, dot_divider, *old(sched), *final(sched)),
    {
        if self.is_paused(which) {
            return;
        }
        let timer = &self.timers[which];
        let ticks_til_target = timer.get_ticks_to_value(timer.target);
        let ticks_til_ffff = timer.get_ticks_to_value(0xFFFF);
        let target = timer.target as u32;
        let cycles_til_target = self.ticks_to_cycles(which, ticks_til_target, dot_divider);
        let cycles_til_target_reset = self.ticks_to_cycles(which, target, dot_divider);
        let cycles_til_ffff = self.ticks_to_cycles(which, ticks_til_ffff, dot_divider);
        let cycles_til_ffff_reset = self.ticks_to_cycles(which, 0xFFFF, dot_divider);
        let bits = (timer.mode / 16) % 4;
        let (cycles_til_irq, cycles_til_irq_reset) = if bits == 0 {
            return;
        } else if bits == 1 {
            (cycles_til_target, cycles_til_target_reset)
        } else if bits == 2 {
            (cycles_til_ffff, cycles_til_ffff_reset)
        } else if cycles_til_target < cycles_til_ffff {
            (cycles_til_target, cycles_til_target_reset)
        } else {
            (cycles_til_ffff, cycles_til_ffff_reset)
        };
        let toggle = (timer.mode / 128) % 2 == 1;
        let repeat = if (timer.mode / 64) % 2 == 1 { Some(cycles_til_irq_reset) } else { None };
        proof {
            let e = Event::Timer(TimerInterrupt { which, toggle });
            sched.items().lemma_filter_len(not_event(e));
            let unit: int = match self.clock_source(which as int) {
                Clock::Cpu => 1int,
                Clock::CpuDiv8 => 8,
                Clock::Dot => dot_divider as int,
                Clock::HBlank => LINE_DURATION as int,
            };
            assert(0 <= unit <= 0x1_0000);
            assert(ticks_til_target <= 0x2_0000);
            assert(ticks_til_ffff <= 0x2_0000);
            assert(ticks_til_target * unit <= 0x2_0000 * 0x1_0000) by (nonlinear_arith)
                requires ticks_til_target <= 0x2_0000, 0 <= unit <= 0x1_0000;
            assert(ticks_til_ffff * unit <= 0x2_0000 * 0x1_0000) by (nonlinear_arith)
                requires ticks_til_ffff <= 0x2_0000, 0 <= unit <= 0x1_0000;
            assert(cycles_til_irq <= 0x2_0000 * 0x1_0000) by (nonlinear_arith)
                requires
                    cycles_til_irq == cycles_til_target || cycles_til_irq == cycles_til_ffff,
                    cycles_til_target <= 0x2_0000 * 0x1_0000,
                    cycles_til_ffff <= 0x2_0000 * 0x1_0000;
        }
        sched.schedule(Event::Timer(TimerInterrupt { which, toggle }), cycles_til_irq, repeat);
    }
}

/// Reads a timer register: offset 0 the counter, 4 the mode (clearing the
/// reached bits), 8 the target; the timer is brought up to date first.
pub fn read(timers: &mut Timers, addr: u32, sysclk: u64, dot_divider: u32) -> (r: u32)
    requires
        PADDR_START <= addr < PADDR_START + 0x30,
        ({
            let reg = (addr - PADDR_START) % 16;
            reg == 0 || reg == 4 || reg == 8
        }),
        old(timers).update_ok(((addr - PADDR_START) / 16) as int, sysclk, dot_divider),
    ensures
        ({
            let which = ((addr - PADDR_START) / 16) as int;
            let reg = (addr - PADDR_START) % 16;
            let t = old(timers).updated_timer(which, sysclk, dot_divider);
            &&& reg == 0 ==> r == t.counter as u16 as u32 && final(timers).timers@ == old(timers).timers@.update(which, t)
            &&& reg == 4 ==> r == t.mode as u32 && final(timers).timers@ == old(timers).timers@.update(which, Timer { mode: t.mode & !0x1800u16, ..t })
            &&& reg == 8 ==> r == t.target as u32 && final(timers).timers@ == old(timers).timers@.update(which, t)
            &&& final(timers).hblanks == 0
            &&& final(timers).in_vsync == old(timers).in_vsync
            &&& final(timers).in_hsync == old(timers).in_hsync
        }),
{
    let offs = addr - PADDR_START;
    let which = (offs / 16) as usize;
    timers.update_value(which, sysclk, dot_divider);
    let reg = offs % 16;
    let v: u16 = if reg == 0 {
        timers.timers[which].counter()
    } else if reg == 4 {
        let m = timers.timers[which].mode;
        timers.timers[which].mode = m & !0x1800u16;
        m
    } else {
        timers.timers[which].target
    };
    proof {
        let t = old(timers).updated_timer(which as int, sysclk, dot_divider);
        if reg == 4 {
            assert(timers.timers@ =~= old(timers).timers@.update(which as int, Timer { mode: t.mode & !0x1800u16, ..t }));
        }
    }
    v as u32
}

/// The timer `t` after a write of `data` to register `reg`.
pub open spec fn written_timer(t: Timer, reg: u32, data: u16) -> Timer {
    if reg == 0 {
        Timer { counter: data as u32, ..t }
    } else if reg == 4 {
        Timer { counter: 0, mode: ((data & !0x1800u16) | (t.mode & 0x1800)) | 0x400, ..t }
    } else {
        Timer { target: data, ..t }
    }
}

/// Whether a write of `data` to the timer register at `addr` can be taken:
/// the timer can be brought up to date, and the written timer's counts to
/// its target and to FFFFh can be taken where it runs.
pub fn write_possible(timers: &Timers, addr: u32, data: u16, sysclk: u64, dot_divider: u32) -> (r: bool)
    requires
        PADDR_START <= addr < PADDR_START + 0x30,
    ensures
        r == ({
            let which = ((addr - PADDR_START) / 16) as int;
            let t = written_timer(timers.updated_timer(which, sysclk, dot_divider), ((addr - PADDR_START) % 16) as u32, data);
            &&& timers.update_ok(which, sysclk, dot_divider)
            &&& !paused_in(which, t.mode, timers.in_hsync, timers.in_vsync) ==> t.ticks_ok(t.target) && t.ticks_ok(0xFFFF)
        }),
{
    let offs = addr - PADDR_START;
    let which = (offs / 16) as usize;
    if !timers.update_possible(which, sysclk, dot_divider) {
        return false;
    }
    let mut copy = Timers { timers: timers.timers, in_vsync: timers.in_vsync, in_hsync: timers.in_hsync, hblanks: timers.hblanks };
    copy.update_value(which, sysclk, dot_divider);
    let reg = offs % 16;
    let mut t = copy.timers[which];
    if reg == 0 {
        t.set_counter(data);
    } else if reg == 4 {
        t.set_mode(data);
    } else {
        t.target = data;
    }
    copy.timers[which] = t;
    copy.is_paused(which) || (t.ticks_fit(t.target) && t.ticks_fit(0xFFFF))
}

/// Writes a timer register (the counter, the mode or the target), the timer
/// brought up to date first; its interrupt is then rescheduled.
pub fn write(timers: &mut Timers, sched: &mut EventScheduler, addr: u32, data: u16, sysclk: u64, dot_divider: u32)
    requires
        PADDR_START <= addr < PADDR_START + 0x30,
        ({
            let reg = (addr - PADDR_START) % 16;
            reg == 0 || reg == 4 || reg == 8
        }),
        old(timers).update_ok(((addr - PADDR_START) / 16) as int, sysclk, dot_divider),
        ({
            let which = ((addr - PADDR_START) / 16) as int;
            let t = written_timer(old(timers).updated_timer(which, sysclk, dot_divider), ((addr - PADDR_START) % 16) as u32, data);
            &&& !paused_in(which, t.mode, old(timers).in_hsync, old(timers).in_vsync) ==> t.ticks_ok(t.target) && t.ticks_ok(0xFFFF)
        }),
        dot_divider <= 0x1_0000,
        old(sched).wf(),
        old(sched).items().len() < MAX_TASKS,
        old(sched).sysclk + 0x1_0000_0000_0000 <= u64::MAX,
    ensures
        ({
            let which = ((addr - PADDR_START) / 16) as int;
            let t = written_timer(old(timers).updated_timer(which, sysclk, dot_divider), ((addr - PADDR_START) % 16) as u32, data);
            &&& final(timers).timers@ == old(timers).timers@.update(which, t)
            &&& final(timers).hblanks == 0
            &&& final(timers).in_vsync == old(timers).in_vsync
            &&& final(timers).in_hsync == old(timers).in_hsync
        }),
        final(sched).wf(),
        final(sched).sysclk == old(sched).sysclk,
        rescheduled(&*final(timers), ((addr - PADDR_START) / 16) as usize, dot_divider, *old(sched), *final(sched)),
{
    let offs = addr - PADDR_START;
    let which = (offs / 16) as usize;
    timers.update_value(which, sysclk, dot_divider);
    let reg = offs % 16;
    let mut t = timers.timers[which];
    if reg == 0 {
        t.set_counter(data);
    } else if reg == 4 {
        t.set_mode(data);
    } else {
        t.target = data;
    }
    timers.timers[which] = t;
    proof {
        let w = written_timer(old(timers).updated_timer(which as int, sysclk, dot_divider), reg, data);
        assert(timers.timers@ =~= old(timers).timers@.update(which as int, w));
    }
    timers.reschedule_interrupt_if_needed(which, sched, dot_divider);
}

} // verus!
