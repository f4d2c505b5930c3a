use starpsx_core::irq::InterruptController;
use starpsx_core::sched::{Event, EventScheduler};
use starpsx_core::sio::gamepad::{Gamepad, State as PadState};
use starpsx_core::sio::memory_card::MemoryCard;
use starpsx_core::sio::{read, Sio0, Sio1, STATUS_RESET};

fn port_with_pad() -> Sio0 {
    Sio0::new([Some(Gamepad::new()), None], vec![None, None])
}

#[test]
fn new_port_is_reset() {
    let s = port_with_pad();
    assert_eq!(s.status, STATUS_RESET);
    assert_eq!(s.control, 0);
    assert_eq!(s.transfer, None);
}

#[test]
fn reading_an_empty_fifo_gives_ff() {
    let mut s = port_with_pad();
    assert_eq!(s.read(0), 0xFF);
    assert_eq!(s.read(4), STATUS_RESET);
}

#[test]
fn digital_pad_exchange() {
    let mut s = port_with_pad();
    let mut sched = EventScheduler::new();
    // TX enabled, DTR on, DSR interrupt enabled.
    s.write(&mut sched, 0xA, 0x1003);
    let mut answers = Vec::new();
    for byte in [0x01u32, 0x42, 0x00, 0x00, 0x00] {
        s.write(&mut sched, 0, byte);
        answers.push(s.read(0));
    }
    assert_eq!(answers, vec![0xFF, 0x41, 0x5A, 0xFF, 0xFF]);
    // The last byte is not acknowledged: DSR is off.
    assert_eq!(s.status & 0x80, 0);
    assert_eq!(s.device_manager.gamepads[0].unwrap().state, PadState::Init);
}

#[test]
fn acknowledged_byte_schedules_dsr_off_and_interrupt() {
    let mut s = port_with_pad();
    let mut sched = EventScheduler::new();
    s.write(&mut sched, 0xA, 0x1003);
    s.write(&mut sched, 0, 0x01);
    assert_eq!(s.status & 0x80, 0x80);
    assert_eq!(s.status & 0x2, 0x2);
    sched.advance(10);
    assert!(matches!(sched.get_next_event(), Some(Event::DsrOff)));
    assert!(sched.get_next_event().is_none());
    sched.advance(1078);
    assert!(matches!(sched.get_next_event(), Some(Event::SerialSend)));
}

#[test]
fn byte_without_device_is_not_acknowledged() {
    let mut s = port_with_pad();
    let mut sched = EventScheduler::new();
    // Port 2 selected: nothing is connected there.
    s.write(&mut sched, 0xA, 0x2003);
    s.write(&mut sched, 0, 0x01);
    assert_eq!(s.read(0), 0xFF);
    assert_eq!(s.status & 0x80, 0);
    sched.advance(2000);
    assert!(sched.get_next_event().is_none());
}

#[test]
fn byte_waits_until_transmit_enabled() {
    let mut s = port_with_pad();
    let mut sched = EventScheduler::new();
    s.write(&mut sched, 0xA, 0x0002);
    s.write(&mut sched, 0, 0x01);
    assert_eq!(s.transfer, Some(0x01));
    s.write(&mut sched, 0xA, 0x0003);
    assert_eq!(s.transfer, None);
    assert_eq!(s.read(0), 0xFF);
    assert_eq!(s.status & 0x80, 0x80);
}

#[test]
fn received_byte_is_read_back() {
    let mut s = port_with_pad();
    s.control = 0x4;
    s.push_received_data(0x37);
    assert_eq!(s.status & 0x2, 0x2);
    assert_eq!(s.control & 0x4, 0);
    assert_eq!(s.read(0), 0x37);
    assert_eq!(s.status & 0x2, 0);
}

#[test]
fn received_byte_ignored_when_not_receiving() {
    let mut s = port_with_pad();
    s.push_received_data(0x37);
    assert_eq!(s.read(0), 0xFF);
}

#[test]
fn full_fifo_overwrites_last_byte() {
    let mut s = port_with_pad();
    s.control = 0x2;
    for b in 0..9u8 {
        s.push_received_data(b);
    }
    let got: Vec<u32> = (0..8).map(|_| s.read(0)).collect();
    assert_eq!(got, vec![0, 1, 2, 3, 4, 5, 6, 8]);
    assert_eq!(s.read(0), 0xFF);
}

#[test]
fn control_reset_and_acknowledge() {
    let mut s = port_with_pad();
    let mut sched = EventScheduler::new();
    let mut irq = InterruptController::new();
    s.process_serial_send(&mut irq);
    assert_eq!(irq.stat.0, 0x80);
    assert_eq!(s.status & 0x200, 0x200);
    s.write(&mut sched, 0xA, 0x0012);
    assert_eq!(s.status & 0x200, 0);
    assert_eq!(s.control, 0x0002);
    s.write(&mut sched, 8, 0xFFFF);
    assert_eq!(s.read(8), 0x1FF);
    s.write(&mut sched, 0xE, 0x12_3456);
    assert_eq!(s.read(0xE), 0x3456);
    s.write(&mut sched, 0xA, 0x0040);
    assert_eq!(s.status, STATUS_RESET);
    assert_eq!(s.control, 0);
    assert_eq!(s.read(8), 0);
    assert_eq!(s.read(0xE), 0);
}

#[test]
fn turn_off_dsr_clears_flag() {
    let mut s = port_with_pad();
    s.status |= 0x80;
    s.turn_off_dsr();
    assert_eq!(s.status, STATUS_RESET);
}

#[test]
fn second_port_reads_ff_and_ignores_writes() {
    let mut s0 = port_with_pad();
    let mut s1 = Sio1;
    let mut sched = EventScheduler::new();
    assert_eq!(read(&mut s0, &s1, 0x1F80_1050), 0xFF);
    assert_eq!(read(&mut s0, &s1, 0x1F80_1044), STATUS_RESET);
    starpsx_core::sio::write(&mut s0, &mut s1, &mut sched, 0x1F80_1058, 0x1234);
    assert_eq!(s0.mode, 0);
    starpsx_core::sio::write(&mut s0, &mut s1, &mut sched, 0x1F80_1048, 0x1234);
    assert_eq!(s0.mode, 0x34);
}

#[test]
fn memory_card_save_then_load() {
    let mut c = MemoryCard::new(vec![0u8; 0x2_0000]);
    c.sector_number = 5;
    c.sector = [0xAB; 128];
    c.save_sector();
    assert!(c.format[5 * 128..6 * 128].iter().all(|&b| b == 0xAB));
    assert_eq!(c.format[5 * 128 - 1], 0);
    assert_eq!(c.format[6 * 128], 0);
    c.sector = [0; 128];
    c.load_sector();
    assert_eq!(c.sector, [0xAB; 128]);
}

#[test]
fn gamepad_rejects_unexpected_byte() {
    let mut g = Gamepad::new();
    assert_eq!(g.send_and_receive_byte(0x01), 0xFF);
    assert!(g.in_ack());
    assert_eq!(g.send_and_receive_byte(0x43), 0xFF);
    assert!(!g.in_ack());
    assert_eq!(g.state, PadState::Init);
}

#[test]
fn gamepad_reports_buttons() {
    let mut g = Gamepad::new();
    g.set_buttons(0xFFFE);
    let answers: Vec<u8> = [0x01u8, 0x42, 0x00, 0x00, 0x00].iter().map(|&b| g.send_and_receive_byte(b)).collect();
    assert_eq!(answers, vec![0xFF, 0x41, 0x5A, 0xFE, 0xFF]);
}

#[test]
fn pressed_buttons_come_back_in_the_exchange() {
    let mut s = port_with_pad();
    let mut sched = EventScheduler::new();
    s.gamepad_port_0_mut().set_buttons(0xFFFE);
    assert_eq!(s.device_manager.gamepads[0].unwrap().digital_switches, 0xFFFE);
    s.write(&mut sched, 0xA, 0x1003);
    let mut answers = Vec::new();
    for byte in [0x01u32, 0x42, 0x00, 0x00, 0x00] {
        s.write(&mut sched, 0, byte);
        answers.push(s.read(0));
    }
    assert_eq!(answers, vec![0xFF, 0x41, 0x5A, 0xFE, 0xFF]);
}
