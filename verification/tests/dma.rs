use starpsx_core::dma::{block_word_addr, list_node, DMAController, Step};
use starpsx_core::memory::Ram;

#[test]
fn block_addresses_step_and_wrap() {
    assert_eq!(block_word_addr(0x100, Step::Increment, 3), 0x10C);
    assert_eq!(block_word_addr(0x100, Step::Decrement, 3), 0xF4);
    assert_eq!(block_word_addr(0x1F_FFFC, Step::Increment, 1), 0);
    assert_eq!(block_word_addr(0x8000_0103, Step::Increment, 0), 0x100);
}

#[test]
fn ordering_table_clear_links_words_downwards() {
    let mut dma = DMAController::new();
    let mut ram = Ram::new();
    dma.write_reg(0x1F80_10E0, 0x100);
    dma.write_reg(0x1F80_10E4, 3);
    dma.write_reg(0x1F80_10E8, 0x1100_0000);
    dma.clear_ordering_table(&mut ram);
    assert_eq!(ram.read(0x100, 4), 0xFC);
    assert_eq!(ram.read(0xFC, 4), 0xF8);
    assert_eq!(ram.read(0xF8, 4), 0xFF_FFFF);
    assert_eq!(ram.read(0xF4, 4), 0);
    assert_eq!(ram.read(0x104, 4), 0);
}

#[test]
fn ordering_table_clear_wraps_below_zero() {
    let mut dma = DMAController::new();
    let mut ram = Ram::new();
    dma.write_reg(0x1F80_10E0, 0x4);
    dma.write_reg(0x1F80_10E4, 3);
    dma.write_reg(0x1F80_10E8, 0x1100_0000);
    dma.clear_ordering_table(&mut ram);
    assert_eq!(ram.read(0x4, 4), 0x0);
    assert_eq!(ram.read(0x0, 4), 0x1F_FFFC);
    assert_eq!(ram.read(0x1F_FFFC, 4), 0xFF_FFFF);
}

#[test]
fn channel_completion_clears_enable_and_flags_unmasked_irq() {
    let mut dma = DMAController::new();
    dma.write_reg(0x1F80_10F4, 0x0080_0000 | (1 << 22));
    dma.write_reg(0x1F80_10E8, 0x1100_0000);
    assert!(dma.complete(starpsx_core::dma::Port::Otc));
    assert_eq!(dma.channels[6].ctl.0 & 0x1100_0000, 0);
    assert_eq!(dma.dicr.0 >> 24, 0x80 | 0x40);
    assert!(!dma.complete(starpsx_core::dma::Port::Otc));
}

#[test]
fn linked_list_nodes() {
    assert_eq!(list_node(0x0300_1234), (3, Some(0x1234)));
    assert_eq!(list_node(0x00FF_FFFF), (0, None));
    assert_eq!(list_node(0x0160_0003), (1, Some(0x20_0000 & 0x1F_FFFC)));
}
