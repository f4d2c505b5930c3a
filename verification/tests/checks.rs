use starpsx_core::cdrom::drive::CdRom;
use starpsx_core::cdrom::io::{command_allowed, response_allowed};
use starpsx_core::cdrom::response::ResponseType;
use starpsx_core::cpu::instruction::Instruction;
use starpsx_core::cpu::Cpu;
use starpsx_core::sched::{Event, EventScheduler};
use starpsx_core::sio::gamepad::Gamepad;
use starpsx_core::sio::Sio0;
use starpsx_core::spu::regs::{is_readable, write_width_allowed};
use starpsx_core::spu::Spu;
use starpsx_core::timers::{write_possible, Timers};

#[test]
fn cpu_refuses_unknown_coprocessor_moves() {
    let mut cpu = Cpu::new();
    // mfc0 r1, sr
    assert!(cpu.can_execute(Instruction((0x10 << 26) | (1 << 16) | (12 << 11))));
    // mfc0 r1, cop0r4: no such register
    assert!(!cpu.can_execute(Instruction((0x10 << 26) | (1 << 16) | (4 << 11))));
    // rfe
    assert!(cpu.can_execute(Instruction((0x10 << 26) | (0x10 << 21) | 0x10)));
    // With the engine off every cop2 instruction is taken (and raises an exception).
    assert!(cpu.can_execute(Instruction((0x12 << 26) | (1 << 25) | 0x02)));
    cpu.cop0.sr = 1 << 30;
    assert!(!cpu.can_execute(Instruction((0x12 << 26) | (1 << 25) | 0x02)));
    assert!(cpu.can_execute(Instruction((0x12 << 26) | (1 << 25) | 0x01)));
    // addu is never refused
    assert!(cpu.can_execute(Instruction(0x21)));
}

#[test]
fn drive_refuses_commands_it_cannot_run() {
    let cd = CdRom::new();
    assert!(command_allowed(&cd, 0x01));
    assert!(!command_allowed(&cd, 0x1F));
    // GetTN and GetlocP need a disc.
    assert!(!command_allowed(&cd, 0x13));
    assert!(!command_allowed(&cd, 0x11));
    assert!(starpsx_core::cdrom::write_allowed(&cd, 0x1F80_1800, 1));
    assert!(!starpsx_core::cdrom::write_allowed(&cd, 0x1F80_1804, 1));
    assert!(!starpsx_core::cdrom::write_allowed(&cd, 0x1F80_1801, 0x13));
    // A sector read needs a disc.
    assert!(!response_allowed(&cd, &ResponseType::INT1));
    assert!(response_allowed(&cd, &ResponseType::INT5([0x11, 0x80])));
    let mut with_disc = CdRom::new();
    with_disc.insert_disc(starpsx_core::cdrom::cd_image::CdImage::from_bytes(vec![0u8; 2352]));
    assert!(command_allowed(&with_disc, 0x13));
    assert!(response_allowed(&with_disc, &ResponseType::INT1));
}

#[test]
fn spu_refuses_unhandled_registers_and_sweep_volumes() {
    let spu = Spu::new();
    assert!(is_readable(0x1F80_1DAA));
    assert!(!is_readable(0x1F80_1DA0));
    assert!(write_width_allowed(&spu, 0x1F80_1D80, 2, 0x3FFF));
    assert!(!write_width_allowed(&spu, 0x1F80_1D80, 2, 0x8000));
    assert!(write_width_allowed(&spu, 0x1F80_1D81, 1, 0xFF));
    assert!(!write_width_allowed(&spu, 0x1F80_1DA0, 2, 0));
    assert!(write_width_allowed(&spu, 0x1F80_1D88, 4, 0x0000_0001));
}

#[test]
fn serial_port_refuses_a_byte_the_pad_cannot_take() {
    let mut s = Sio0::new([Some(Gamepad::new()), None], vec![None, None]);
    let mut sched = EventScheduler::new();
    assert!(starpsx_core::sio::write_allowed(&s, 0x1F80_104A, 0x1003));
    s.write(&mut sched, 0xA, 0x1003);
    assert!(starpsx_core::sio::write_allowed(&s, 0x1F80_1040, 0x01));
    s.write(&mut sched, 0, 0x01);
    s.write(&mut sched, 0, 0x42);
    // The pad wants 00h while it sends its id's high byte.
    assert!(!starpsx_core::sio::write_allowed(&s, 0x1F80_1040, 0x42));
    assert!(starpsx_core::sio::write_allowed(&s, 0x1F80_1040, 0x00));
    assert!(!starpsx_core::sio::write_allowed(&s, 0x1F80_1042, 0));
    assert!(starpsx_core::sio::write_allowed(&s, 0x1F80_1050, 0x42));
}

#[test]
fn timers_refuse_a_clock_that_runs_backwards() {
    let mut t = Timers::new();
    assert!(t.update_possible(0, 100, 1));
    assert!(!t.update_possible(0, 100, 0));
    let mut sched = EventScheduler::new();
    starpsx_core::timers::write(&mut t, &mut sched, 0x1F80_1100, 5, 100, 1);
    assert!(!t.update_possible(0, 50, 1));
    assert!(write_possible(&t, 0x1F80_1108, 10, 200, 1));
    assert!(!write_possible(&t, 0x1F80_1108, 10, 50, 1));
}

#[test]
fn scheduler_reports_its_length() {
    let mut s = EventScheduler::new();
    assert_eq!(s.len(), 0);
    assert!(s.next_event_ok());
    s.schedule(Event::SpuTick, 5, Some(u64::MAX));
    assert_eq!(s.len(), 1);
    assert!(s.next_event_ok());
    s.advance(5);
    assert!(!s.next_event_ok());
}
