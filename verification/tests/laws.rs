use starpsx_core::gpu::utils::{get_field, set_field};
use starpsx_core::gpu::Gpu;

#[test]
fn field_written_reads_back() {
    let v = set_field(0xFFFF_FFFF, 16, 7, 0x5);
    assert_eq!(get_field(v, 16, 7), 5);
    assert_eq!(v, 0xFFFD_FFFF);
    assert_eq!(get_field(v, 0, 0xF), 0xF);
}

#[test]
fn draw_mode_readback() {
    let mut g = Gpu::new();
    g.stat = 0xFFFF_FFFF;
    g.gp0(0xE100_0215);
    assert_eq!(get_field(g.stat, 0, 0xF), 0x5);
    assert_eq!(get_field(g.stat, 4, 1), 1);
    assert_eq!(get_field(g.stat, 9, 1), 1);
    assert_eq!(get_field(g.stat, 15, 1), 0);
}

#[test]
fn spu_registers_read_back_what_was_written() {
    let mut spu = starpsx_core::spu::Spu::new();
    starpsx_core::spu::regs::write(&mut spu, 0x1F80_1C14, 2, 0x1000);
    assert_eq!(starpsx_core::spu::regs::read(&spu, 0x1F80_1C14), 0x1000);
    starpsx_core::spu::regs::write(&mut spu, 0x1F80_1C16, 2, 0x0200);
    assert_eq!(starpsx_core::spu::regs::read(&spu, 0x1F80_1C16), 0x0200);
    starpsx_core::spu::regs::write(&mut spu, 0x1F80_1C1E, 2, 0x0300);
    assert_eq!(starpsx_core::spu::regs::read(&spu, 0x1F80_1C1E), 0x0300);
    starpsx_core::spu::regs::write(&mut spu, 0x1F80_1DA6, 2, 0x0040);
    assert_eq!(starpsx_core::spu::regs::read(&spu, 0x1F80_1DA6), 0x0040);
    starpsx_core::spu::regs::write(&mut spu, 0x1F80_1DAA, 2, 0xC000);
    assert_eq!(starpsx_core::spu::regs::read(&spu, 0x1F80_1DAA), 0xC000);
}
