use starpsx_core::cpu::Cpu;
use starpsx_core::exe::{load_exe, parse_exe_header, tty_char, tty_push, ExeHeader};
use starpsx_core::mdec::util::{chroma_index, color_channel, rgb15_pixel};
use starpsx_core::memory::Ram;

fn put32(v: &mut [u8], at: usize, x: u32) {
    v[at..at + 4].copy_from_slice(&x.to_le_bytes());
}

fn sample_exe() -> Vec<u8> {
    let mut exe = vec![0u8; 0x800 + 8];
    put32(&mut exe, 0x10, 0x8001_0000);
    put32(&mut exe, 0x14, 0x1234_5678);
    put32(&mut exe, 0x18, 0x8001_0000);
    put32(&mut exe, 0x1C, 8);
    put32(&mut exe, 0x30, 0x801F_FF00);
    for i in 0..8 {
        exe[0x800 + i] = 0xA0 + i as u8;
    }
    exe
}

#[test]
fn exe_header_fields() {
    let h = parse_exe_header(&sample_exe());
    assert_eq!(
        h,
        ExeHeader { pc: 0x8001_0000, gp: 0x1234_5678, addr: 0x1_0000, size: 8, sp: 0x801F_FF00 }
    );
}

#[test]
fn exe_is_loaded_into_ram() {
    let exe = sample_exe();
    let mut ram = Ram::new();
    let mut cpu = Cpu::new();
    load_exe(&mut ram, &mut cpu, &exe);
    assert_eq!(&ram.bytes[0x1_0000..0x1_0008], &[0xA0, 0xA1, 0xA2, 0xA3, 0xA4, 0xA5, 0xA6, 0xA7]);
    assert_eq!(ram.bytes[0x1_0008], 0);
    assert_eq!(ram.bytes[0xFFFF], 0);
    assert_eq!(cpu.pc, 0x8001_0000);
    assert_eq!(cpu.regs[28], 0x1234_5678);
    assert_eq!(cpu.regs[29], 0x801F_FF00);
    assert_eq!(cpu.regs[30], 0x801F_FF00);
}

#[test]
fn exe_without_stack_keeps_sp() {
    let mut exe = sample_exe();
    put32(&mut exe, 0x30, 0);
    let mut ram = Ram::new();
    let mut cpu = Cpu::new();
    let sp = cpu.regs[29];
    load_exe(&mut ram, &mut cpu, &exe);
    assert_eq!(cpu.regs[29], sp);
}

#[test]
fn tty_putchar_calls() {
    assert_eq!(tty_char(0xA0, 0x3C, 0x41), Some(0x41));
    assert_eq!(tty_char(0x8000_00B0, 0x3D, 0x142), Some(0x42));
    assert_eq!(tty_char(0xA0, 0x3D, 0x41), None);
    assert_eq!(tty_char(0xB0, 0x3C, 0x41), None);
}

#[test]
fn tty_lines_end_at_newline() {
    let mut tty = Vec::new();
    assert_eq!(tty_push(&mut tty, b'h'), None);
    assert_eq!(tty_push(&mut tty, b'i'), None);
    assert_eq!(tty_push(&mut tty, b'\n'), Some(b"hi".to_vec()));
    assert!(tty.is_empty());
    assert_eq!(tty_push(&mut tty, b'\r'), Some(Vec::new()));
}

#[test]
fn mdec_color_channels() {
    assert_eq!(color_channel(100, 50, true), 127);
    assert_eq!(color_channel(-100, -50, true), 0x80);
    assert_eq!(color_channel(-1, 0, true), 0xFF);
    assert_eq!(color_channel(-1, 0, false), 0x7F);
    assert_eq!(color_channel(100, 50, false), 0xFF);
    assert_eq!(color_channel(-100, -50, false), 0);
    assert_eq!(rgb15_pixel(0xFF, 0x00, 0x08, true), 0x1F | (1 << 10) | 0x8000);
    assert_eq!(chroma_index(7, 7, (8, 8)), 7 + 7 * 8);
    assert_eq!(chroma_index(1, 0, (0, 0)), 0);
}
