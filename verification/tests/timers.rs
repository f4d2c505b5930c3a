use starpsx_core::sched::EventScheduler;
use starpsx_core::timers::{read, Timers};

const COUNTER0: u32 = 0x1F80_1100;
const MODE0: u32 = 0x1F80_1104;
const TARGET0: u32 = 0x1F80_1108;

#[test]
fn counter_write_then_read_same_cycle() {
    let mut t = Timers::new();
    let mut sched = EventScheduler::new();
    starpsx_core::timers::write(&mut t, &mut sched, COUNTER0, 0x1234, 0, 1);
    assert_eq!(read(&mut t, COUNTER0, 0, 1), 0x1234);
}

#[test]
fn counter_counts_cpu_cycles() {
    let mut t = Timers::new();
    let mut sched = EventScheduler::new();
    starpsx_core::timers::write(&mut t, &mut sched, COUNTER0, 0x1234, 0, 1);
    assert_eq!(read(&mut t, COUNTER0, 100, 1), 0x1298);
}

#[test]
fn counter_wraps_after_ffff() {
    let mut t = Timers::new();
    let mut sched = EventScheduler::new();
    starpsx_core::timers::write(&mut t, &mut sched, COUNTER0, 0xFFF0, 0, 1);
    assert_eq!(read(&mut t, COUNTER0, 0x20, 1), 0x10);
}

#[test]
fn mode_write_resets_counter_and_sets_bit_10() {
    let mut t = Timers::new();
    let mut sched = EventScheduler::new();
    starpsx_core::timers::write(&mut t, &mut sched, COUNTER0, 0x1234, 0, 1);
    starpsx_core::timers::write(&mut t, &mut sched, MODE0, 0x0008, 0, 1);
    assert_eq!(read(&mut t, COUNTER0, 0, 1), 0);
    // With the target still 0, the zero count has reached it.
    assert_eq!(read(&mut t, MODE0, 0, 1), 0xC08);
}

#[test]
fn mode_read_clears_reached_flags() {
    let mut t = Timers::new();
    let mut sched = EventScheduler::new();
    starpsx_core::timers::write(&mut t, &mut sched, TARGET0, 0x100, 0, 1);
    starpsx_core::timers::write(&mut t, &mut sched, MODE0, 0x0008, 0, 1);
    assert_eq!(read(&mut t, MODE0, 0, 1), 0x408);
}

#[test]
fn reaching_target_sets_flag_cleared_on_read() {
    let mut t = Timers::new();
    let mut sched = EventScheduler::new();
    starpsx_core::timers::write(&mut t, &mut sched, TARGET0, 0x10, 0, 1);
    assert_eq!(read(&mut t, MODE0, 0x20, 1), 0x0800);
    assert_eq!(read(&mut t, MODE0, 0x20, 1), 0);
    assert_eq!(read(&mut t, TARGET0, 0x20, 1), 0x10);
}

#[test]
fn reset_to_target_wraps_at_target() {
    let mut t = Timers::new();
    let mut sched = EventScheduler::new();
    starpsx_core::timers::write(&mut t, &mut sched, TARGET0, 0x10, 0, 1);
    starpsx_core::timers::write(&mut t, &mut sched, MODE0, 0x0008, 0, 1);
    assert_eq!(read(&mut t, COUNTER0, 0x15, 1), 0x4);
}
