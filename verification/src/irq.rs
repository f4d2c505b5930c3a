//! Interrupt controller: status and mask registers.
use vstd::prelude::*;

verus! {

pub const IRQ_START: u32 = 0x1F80_1070;
pub const IRQ_END: u32 = 0x1F80_1077;

/// Interrupt sources, by their bit in the status register.
#[derive(Clone, Copy, PartialEq, Eq, Structural)]
pub enum Interrupt {
    VBlank,
    Gpu,
    CdRom,
    Dma,
    Timer0,
    Timer1,
    Timer2,
    ControllerMemoryCard,
    Sio,
    Spu,
    Lightpen,
}

/// The status register bit of an interrupt source.
pub open spec fn spec_irq_bit(i: Interrupt) -> u32 {
    match i {
        Interrupt::VBlank => 0,
        Interrupt::Gpu => 1,
        Interrupt::CdRom => 2,
        Interrupt::Dma => 3,
        Interrupt::Timer0 => 4,
        Interrupt::Timer1 => 5,
        Interrupt::Timer2 => 6,
        Interrupt::ControllerMemoryCard => 7,
        Interrupt::Sio => 8,
        Interrupt::Spu => 9,
        Interrupt::Lightpen => 10,
    }
}

pub fn irq_bit(i: Interrupt) -> (r: u32)
    ensures
        r == spec_irq_bit(i),
        r < 11,
{
    match i {
        Interrupt::VBlank => 0,
        Interrupt::Gpu => 1,
        Interrupt::CdRom => 2,
        Interrupt::Dma => 3,
        Interrupt::Timer0 => 4,
        Interrupt::Timer1 => 5,
        Interrupt::Timer2 => 6,
        Interrupt::ControllerMemoryCard => 7,
        Interrupt::Sio => 8,
        Interrupt::Spu => 9,
        Interrupt::Lightpen => 10,
    }
}

/// Interrupt status register.
#[derive(Clone, Copy)]
pub struct IStat(pub u32);

impl IStat {
    /// Sets or clears the bit of an interrupt source.
    pub fn set(&mut self, i: Interrupt, value: bool)
        ensures
            final(self).0 == (if value { old(self).0 | (1u32 << spec_irq_bit(i)) } else { old(self).0 & !(1u32 << spec_irq_bit(i)) }),
    {
        let b = irq_bit(i);
        if value {
            self.0 = self.0 | (1u32 << b);
        } else {
            self.0 = self.0 & !(1u32 << b);
        }
    }
}

pub struct InterruptController {
    pub mask: u32,
    pub stat: IStat,
}

impl InterruptController {
    pub fn new() -> (r: Self)
        ensures
            r.mask == 0 && r.stat.0 == 0,
    {
        InterruptController { mask: 0, stat: IStat(0) }
    }

    /// Reads I_STAT (offset 0) or I_MASK (offset 4).
    pub fn read_reg(&self, addr: u32) -> (r: u32)
        requires
            addr == IRQ_START || addr == IRQ_START + 4,
        ensures
            r == (if addr == IRQ_START { self.stat.0 } else { self.mask }),
    {
        let offs = addr - IRQ_START;
        if offs == 0 {
            self.stat.0
        } else {
            self.mask
        }
    }

    /// Writing I_STAT acknowledges the interrupts whose bits are clear in
    /// `val`; writing I_MASK replaces the mask.
    pub fn write_reg(&mut self, addr: u32, val: u32)
        requires
            addr == IRQ_START || addr == IRQ_START + 4,
        ensures
            addr == IRQ_START ==> final(self).stat.0 == old(self).stat.0 & val && final(self).mask == old(self).mask,
            addr != IRQ_START ==> final(self).mask == val && final(self).stat.0 == old(self).stat.0,
    {
        let offs = addr - IRQ_START;
        if offs == 0 {
            self.stat.0 = self.stat.0 & val;
        } else {
            self.mask = val;
        }
    }

    /// Whether an unmasked interrupt is requested.
    pub fn pending(&self) -> (r: bool)
        ensures
            r == (self.stat.0 & self.mask != 0),
    {
        self.stat.0 & self.mask != 0
    }

    /// The status register, for a device to raise its interrupt.
    pub fn stat(&mut self) -> (r: &mut IStat)
        ensures
            *r == old(self).stat,
            final(self).stat == *final(r),
            final(self).mask == old(self).mask,
    {
        &mut self.stat
    }

    /// Requests the interrupt of `i`.
    pub fn raise(&mut self, i: Interrupt)
        ensures
            final(self).stat.0 == old(self).stat.0 | (1u32 << spec_irq_bit(i)),
            final(self).mask == old(self).mask,
    {
        self.stat.set(i, true);
    }
}

/// Acknowledging never raises an interrupt: every status bit set after a
/// write to I_STAT was set before it.
pub proof fn lemma_acknowledge_only_clears(stat: u32, val: u32)
    ensures
        (stat & val) & stat == stat & val,
        (stat & val) | stat == stat,
{
    assert((stat & val) & stat == stat & val && (stat & val) | stat == stat) by (bit_vector);
}

/// A raised and unmasked interrupt is pending.
pub proof fn lemma_raised_unmasked_is_pending(stat: u32, mask: u32, bit: u32)
    requires
        bit < 11,
        mask & (1u32 << bit) != 0,
    ensures
        (stat | (1u32 << bit)) & mask != 0,
{
    assert(bit < 11 && mask & (1u32 << bit) != 0 ==> (stat | (1u32 << bit)) & mask != 0) by (bit_vector);
}

} // verus!
