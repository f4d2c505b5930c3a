use starpsx_core::cpu::execute::{Access, LoadKind};
use starpsx_core::cpu::instruction::Exception;
use starpsx_core::cpu::instrs::signed_div;
use starpsx_core::gte::commands::divide;
use starpsx_core::irq::{Interrupt, InterruptController, IRQ_START};
use starpsx_core::mdec::util::{div_trunc, signed10bit, zag_zig};
use starpsx_core::memory::{fetch_in_range, fetch_instruction, mask_region, Bios, Ram, Scratch};
use starpsx_core::sched::{Event, EventScheduler};

#[test]
fn ram_read_after_write() {
    let mut ram = Ram::new();
    ram.write(0x100, 4, 0x1234_5678);
    assert_eq!(ram.read(0x100, 4), 0x1234_5678);
    assert_eq!(ram.read(0x100, 1), 0x78);
    assert_eq!(ram.read(0x102, 2), 0x1234);
    // RAM is mirrored every 2 MiB.
    assert_eq!(ram.read(0x20_0100, 4), 0x1234_5678);
    assert_eq!(ram.read(0x104, 4), 0);
}

#[test]
fn ram_narrow_write_keeps_neighbours() {
    let mut ram = Ram::new();
    ram.write(0x200, 4, 0xAABB_CCDD);
    ram.write(0x201, 1, 0x11);
    assert_eq!(ram.read(0x200, 4), 0xAABB_11DD);
}

#[test]
fn kseg_regions_are_masked() {
    assert_eq!(mask_region(0x8000_1000), 0x0000_1000);
    assert_eq!(mask_region(0xA000_1000), 0x0000_1000);
    assert_eq!(mask_region(0x1F80_1000), 0x1F80_1000);
    assert_eq!(mask_region(0xFFFE_0130), 0xFFFE_0130);
}

#[test]
fn interrupt_pending_needs_mask() {
    let mut irq = InterruptController::new();
    irq.raise(Interrupt::VBlank);
    assert_eq!(irq.read_reg(IRQ_START), 1);
    assert!(!irq.pending());
    irq.write_reg(IRQ_START + 4, 1);
    assert!(irq.pending());
    // Acknowledging writes zeros to clear bits; ones keep them.
    irq.write_reg(IRQ_START, 0xFFFF_FFFF);
    assert!(irq.pending());
    irq.write_reg(IRQ_START, 0);
    assert!(!irq.pending());
}

#[test]
fn signed_division_edge_cases() {
    assert_eq!(signed_div(7, 2), (3, 1));
    assert_eq!(signed_div(-7, 2), (-3, -1));
    assert_eq!(signed_div(5, 0), (-1, 5));
    assert_eq!(signed_div(-5, 0), (1, -5));
    assert_eq!(signed_div(i32::MIN, -1), (i32::MIN, 0));
}

#[test]
fn mdec_helpers() {
    assert_eq!(signed10bit(0x3FF), -1);
    assert_eq!(signed10bit(0x200), -512);
    assert_eq!(signed10bit(0x1FF), 511);
    assert_eq!(signed10bit(0xFC05), 5);
    assert_eq!(zag_zig(0), 0);
    assert_eq!(zag_zig(2), 8);
    assert_eq!(div_trunc(-7, 2), -3);
    assert_eq!(div_trunc(7, 2), 3);
}

#[test]
fn gte_divide_rounds_and_saturates() {
    assert_eq!(divide(0x100, 0x100), 0x1_0000);
    assert_eq!(divide(0xFFFF, 1), 0x1_FFFF);
    assert_eq!(divide(0, 5), 0);
}

#[test]
fn scheduler_replaces_an_event() {
    let mut s = EventScheduler::new();
    s.schedule(Event::SpuTick, 10, None);
    s.schedule(Event::SpuTick, 20, None);
    s.advance(10);
    assert!(s.get_next_event().is_none());
    s.advance(10);
    assert!(matches!(s.get_next_event(), Some(Event::SpuTick)));
    assert!(s.get_next_event().is_none());
}

#[test]
fn scheduler_keeps_other_events_in_order() {
    let mut s = EventScheduler::new();
    s.schedule(Event::VBlankEnd, 30, None);
    s.schedule(Event::DsrOff, 10, None);
    s.schedule(Event::SerialSend, 20, None);
    s.advance(30);
    assert!(matches!(s.get_next_event(), Some(Event::DsrOff)));
    assert!(matches!(s.get_next_event(), Some(Event::SerialSend)));
    assert!(matches!(s.get_next_event(), Some(Event::VBlankEnd)));
}

#[test]
fn repeating_event_comes_back() {
    let mut s = EventScheduler::new();
    s.init_with_events();
    s.advance(768);
    assert!(matches!(s.get_next_event(), Some(Event::SpuTick)));
    assert!(s.get_next_event().is_none());
    s.advance(768);
    assert!(matches!(s.get_next_event(), Some(Event::SpuTick)));
}

fn mem_instr(op: u32, rs: u32, rt: u32, imm: u32) -> starpsx_core::cpu::instruction::Instruction {
    starpsx_core::cpu::instruction::Instruction((op << 26) | (rs << 21) | (rt << 16) | (imm & 0xFFFF))
}

#[test]
fn loads_become_bus_reads() {
    let mut cpu = starpsx_core::cpu::Cpu::new();
    cpu.regs[1] = 0x100;
    cpu.regd[1] = 0x100;
    cpu.regd[2] = 0xAABB_CCDD;
    assert!(matches!(
        cpu.lb(mem_instr(0x20, 1, 2, 3)),
        Ok(Access::Load { reg: 2, addr: 0x103, width: 1, kind: LoadKind::Byte })
    ));
    assert!(matches!(
        cpu.lbu(mem_instr(0x24, 1, 2, 0xFFFF)),
        Ok(Access::Load { reg: 2, addr: 0xFF, width: 1, kind: LoadKind::ByteUnsigned })
    ));
    assert!(matches!(cpu.lh(mem_instr(0x21, 1, 2, 3)), Err(Exception::LoadAddressError(0x103))));
    assert!(matches!(
        cpu.lhu(mem_instr(0x25, 1, 2, 2)),
        Ok(Access::Load { reg: 2, addr: 0x102, width: 2, kind: LoadKind::HalfUnsigned })
    ));
    assert!(matches!(cpu.lw(mem_instr(0x23, 1, 2, 2)), Err(Exception::LoadAddressError(0x102))));
    assert!(matches!(
        cpu.lwl(mem_instr(0x22, 1, 2, 3)),
        Ok(Access::Load { reg: 2, addr: 0x100, width: 4, kind: LoadKind::Left { offset: 3, val: 0xAABB_CCDD } })
    ));
    assert!(matches!(
        cpu.lwr(mem_instr(0x26, 1, 2, 5)),
        Ok(Access::Load { reg: 2, addr: 0x104, width: 4, kind: LoadKind::Right { offset: 1, val: 0xAABB_CCDD } })
    ));
}

#[test]
fn stores_become_bus_writes_unless_cache_is_isolated() {
    let mut cpu = starpsx_core::cpu::Cpu::new();
    cpu.regs[1] = 0x100;
    cpu.regs[2] = 0x1234_5678;
    assert!(matches!(cpu.sb(mem_instr(0x28, 1, 2, 1)), Ok(Access::Store { addr: 0x101, width: 1, data: 0x78 })));
    assert!(matches!(cpu.sh(mem_instr(0x29, 1, 2, 2)), Ok(Access::Store { addr: 0x102, width: 2, data: 0x5678 })));
    assert!(matches!(cpu.sh(mem_instr(0x29, 1, 2, 1)), Err(Exception::StoreAddressError(0x101))));
    assert!(matches!(
        cpu.sw(mem_instr(0x2B, 1, 2, 0xFFFC)),
        Ok(Access::Store { addr: 0xFC, width: 4, data: 0x1234_5678 })
    ));
    assert!(matches!(
        cpu.swl(mem_instr(0x2A, 1, 2, 3)),
        Ok(Access::StoreMerge { addr: 0x100, val: 0x1234_5678, offset: 3, left: true })
    ));
    assert!(matches!(
        cpu.swr(mem_instr(0x2E, 1, 2, 6)),
        Ok(Access::StoreMerge { addr: 0x104, val: 0x1234_5678, offset: 2, left: false })
    ));
    cpu.cop0.sr = 0x1_0000;
    assert!(matches!(cpu.sw(mem_instr(0x2B, 1, 2, 0)), Ok(Access::Nothing)));
    assert!(matches!(cpu.sb(mem_instr(0x28, 1, 2, 0)), Ok(Access::Nothing)));
    assert!(matches!(cpu.lw(mem_instr(0x23, 1, 2, 0)), Ok(Access::Nothing)));
    assert!(matches!(cpu.lb(mem_instr(0x20, 1, 2, 0)), Ok(Access::Load { .. })));
}

#[test]
fn cop0_moves_go_through_the_load_delay() {
    let mut cpu = starpsx_core::cpu::Cpu::new();
    cpu.regs[2] = 0xFFFF_FFFF;
    // mtc0 r2, cause: only bits 8 and 9 take.
    cpu.mtc0(starpsx_core::cpu::instruction::Instruction((0x10 << 26) | (4 << 21) | (2 << 16) | (13 << 11)));
    assert_eq!(cpu.cop0.cause, 0x300);
    // mtc0 r2, sr
    cpu.mtc0(starpsx_core::cpu::instruction::Instruction((0x10 << 26) | (4 << 21) | (2 << 16) | (12 << 11)));
    assert_eq!(cpu.cop0.sr, 0xFFFF_FFFF);
    // mfc0 r3, cause: the value waits in the load slot.
    cpu.mfc0(starpsx_core::cpu::instruction::Instruction((0x10 << 26) | (3 << 16) | (13 << 11)));
    assert_eq!(cpu.load, Some((3, 0x300)));
}

#[test]
fn cpu_snapshot_copies_registers() {
    let mut cpu = starpsx_core::cpu::Cpu::new();
    cpu.hi = 7;
    cpu.regs[5] = 0x55;
    let s = cpu.snapshot();
    assert_eq!(s.pc, 0xBFC0_0000);
    assert_eq!(s.hi, 7);
    assert_eq!(s.lo, cpu.lo);
    assert_eq!(s.regs[0], 0);
    assert_eq!(s.regs[5], 0x55);
}

#[test]
fn debugger_fetch_reads_memory_without_devices() {
    let mut ram = Ram::new();
    ram.write(0x100, 4, 0x2408_0001);
    let mut image = vec![0u8; 512 * 1024];
    image[4] = 0x78;
    image[5] = 0x56;
    image[6] = 0x34;
    image[7] = 0x12;
    let bios = match Bios::new(image) {
        Ok(b) => b,
        Err(_) => panic!("a 512 KiB image is accepted"),
    };
    let scratch = Scratch::new();
    assert_eq!(fetch_instruction(&ram, &bios, &scratch, 0x8000_0100), 0x2408_0001);
    assert_eq!(fetch_instruction(&ram, &bios, &scratch, 0xBFC0_0004), 0x1234_5678);
    assert_eq!(fetch_instruction(&ram, &bios, &scratch, 0x1F80_0000), 0);
    assert_eq!(fetch_instruction(&ram, &bios, &scratch, 0x1F80_1810), 0xFFFF_FFFF);
    assert!(fetch_in_range(0x001F_FFFC));
    assert!(!fetch_in_range(0x001F_FFFE));
    assert!(!fetch_in_range(0xBFC7_FFFD));
}
