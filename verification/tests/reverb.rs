use starpsx_core::spu::reverb::{clamped_i16, mul_16, Reverb};

#[test]
fn mul_16_scales_by_8000h() {
    assert_eq!(mul_16(0x4000, 0x4000), 0x2000);
    assert_eq!(mul_16(-1, 1), -1);
    assert_eq!(mul_16(-0x8000, 1), -1);
    assert_eq!(mul_16(0x7FFF, 0x7FFF), 0x7FFE);
}

#[test]
fn mul_16_saturates() {
    assert_eq!(mul_16(i32::MAX, i32::MAX), 0xFFFF);
    assert_eq!(mul_16(i32::MIN, 2), -0x1_0000);
}

#[test]
fn clamp_to_16_bits() {
    assert_eq!(clamped_i16(40000), 32767);
    assert_eq!(clamped_i16(-40000), -32768);
    assert_eq!(clamped_i16(5), 5);
}

#[test]
fn base_address_sets_buffer_address() {
    let mut r = Reverb::new();
    r.set_base_addr(0x1000);
    assert_eq!(r.m_base, 0x8000);
    assert_eq!(r.current_buffer_addr, 0x8000);
}

#[test]
fn runs_on_every_other_tick() {
    let mut r = Reverb::new();
    r.set_base_addr(0xFFFF);
    let mut ram = vec![0u8; 0x8_0000];
    r.tick([0, 0], &mut ram, true);
    assert!(r.half_tick);
    assert_eq!(r.current_buffer_addr, 0x7FFF8);
    r.tick([0, 0], &mut ram, true);
    assert!(!r.half_tick);
    assert_eq!(r.current_buffer_addr, 0x7FFFA);
    r.tick([0, 0], &mut ram, true);
    r.tick([0, 0], &mut ram, true);
    r.tick([0, 0], &mut ram, true);
    r.tick([0, 0], &mut ram, true);
    // The buffer wraps back to its base.
    assert_eq!(r.current_buffer_addr, 0x7FFFE);
    r.tick([0, 0], &mut ram, true);
    r.tick([0, 0], &mut ram, true);
    assert_eq!(r.current_buffer_addr, 0x7FFF8);
}

#[test]
fn same_side_reflection_is_stored() {
    let mut r = Reverb::new();
    r.m_lsame = 0x100;
    r.v_iir = 0x4000;
    r.v_out.l = 0x7FFF;
    let mut ram = vec![0u8; 0x8_0000];
    r.tick([0x1000, 0], &mut ram, true);
    r.tick([0x1000, 0], &mut ram, true);
    assert_eq!(&ram[0x100..0x102], &[0xFF, 0x07]);
    assert_eq!(r.l_out, 0);
}

#[test]
fn nothing_stored_without_write() {
    let mut r = Reverb::new();
    r.m_lsame = 0x100;
    r.v_iir = 0x4000;
    r.v_out.l = 0x7FFF;
    let mut ram = vec![0u8; 0x8_0000];
    r.tick([0x1000, 0], &mut ram, false);
    r.tick([0x1000, 0], &mut ram, false);
    assert!(ram.iter().all(|&b| b == 0));
}
