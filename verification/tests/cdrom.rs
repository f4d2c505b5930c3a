use starpsx_core::cdrom::drive::CdRom;
use starpsx_core::cdrom::response::ResponseType;
use starpsx_core::cdrom::status::{from_bcd, to_bcd};
use starpsx_core::sched::{Event, EventScheduler};

const INDEX: u32 = 0x1F80_1800;
const COMMAND: u32 = 0x1F80_1801;
const PARAMETER: u32 = 0x1F80_1802;

fn next_response(sched: &mut EventScheduler, cycles: u64) -> ResponseType {
    sched.advance(cycles);
    match sched.get_next_event() {
        Some(Event::CdromResultIrq(r)) => r,
        _ => panic!("expected a drive response"),
    }
}

#[test]
fn nop_answers_status() {
    let mut cd = CdRom::new();
    let mut sched = EventScheduler::new();
    starpsx_core::cdrom::write(&mut cd, &mut sched, INDEX, 0);
    starpsx_core::cdrom::write(&mut cd, &mut sched, COMMAND, 0x01);
    sched.advance(0xC4E0);
    assert!(sched.get_next_event().is_none());
    match next_response(&mut sched, 1) {
        ResponseType::INT3(v) => assert_eq!(v.as_slice(), &[0x00]),
        _ => panic!("expected INT3"),
    }
}

#[test]
fn nop_with_parameter_is_refused() {
    let mut cd = CdRom::new();
    let mut sched = EventScheduler::new();
    starpsx_core::cdrom::write(&mut cd, &mut sched, INDEX, 0);
    starpsx_core::cdrom::write(&mut cd, &mut sched, PARAMETER, 0x55);
    assert_eq!(cd.parameters.as_slice(), &[0x55]);
    starpsx_core::cdrom::write(&mut cd, &mut sched, COMMAND, 0x01);
    assert!(cd.parameters.is_empty());
    match next_response(&mut sched, 0x1_3CCE) {
        ResponseType::INT5(v) => assert_eq!(v, [0x01, 0x20]),
        _ => panic!("expected INT5"),
    }
}

#[test]
fn get_id_without_disc_answers_twice() {
    let mut cd = CdRom::new();
    let mut sched = EventScheduler::new();
    starpsx_core::cdrom::write(&mut cd, &mut sched, INDEX, 0);
    starpsx_core::cdrom::write(&mut cd, &mut sched, COMMAND, 0x1A);
    assert!(matches!(next_response(&mut sched, 0xC4E1), ResponseType::INT3(_)));
    match next_response(&mut sched, 0x4A00) {
        ResponseType::INT2(v) => assert_eq!(v.as_slice(), &[0x02, 0x00, 0x20, 0x00, 0x53, 0x43, 0x45, 0x41]),
        _ => panic!("expected INT2"),
    }
}

#[test]
fn bcd_roundtrip() {
    for v in 0..=99u8 {
        assert_eq!(from_bcd(to_bcd(v).unwrap()), Some(v));
    }
    assert_eq!(to_bcd(45), Some(0x45));
    assert_eq!(to_bcd(100), None);
    assert_eq!(from_bcd(0x1A), None);
    assert_eq!(from_bcd(0x99), Some(99));
}

#[test]
fn get_locp_reports_the_read_head_position() {
    let mut cd = CdRom::new();
    let mut sched = EventScheduler::new();
    cd.insert_disc(starpsx_core::cdrom::cd_image::CdImage::from_bytes(vec![0u8; 2352 * 4]));
    starpsx_core::cdrom::write(&mut cd, &mut sched, INDEX, 0);
    starpsx_core::cdrom::write(&mut cd, &mut sched, COMMAND, 0x11);
    match next_response(&mut sched, 0xC4E1) {
        ResponseType::INT3(v) => assert_eq!(v.as_slice(), &[0x01, 0x01, 0x00, 0x02, 0x00, 0x00, 0x02, 0x00]),
        _ => panic!("expected INT3"),
    }
}
