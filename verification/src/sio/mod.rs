pub mod device_manager;
pub mod gamepad;
pub mod memory_card;

use vstd::prelude::*;

use arrayvec::ArrayVec;

use crate::bytes::{byte_items, bytes_default, bytes_len, bytes_pop_front, bytes_push, bytes_set_last};
use crate::irq::{Interrupt, InterruptController, spec_irq_bit};
use crate::sched::{Event, EventScheduler, MAX_TASKS, event_view, has_task, lemma_schedule_keeps, not_event};
use device_manager::{CommState, DeviceManager};
use gamepad::Gamepad;

verus! {

pub const PADDR_START: u32 = 0x1F80_1040;
pub const PADDR_END: u32 = 0x1F80_105F;

/// The fixed delay of a byte transfer at the baud rate all games use.
pub const BAUDRATE_TRANSFER_DELAY: u64 = 1088;
/// The delay after which the device's acknowledge line goes off.
pub const DSR_OFF_DELAY: u64 = 10;

/// The status register after a reset: transmitter idle and ready.
pub const STATUS_RESET: u32 = 0x22005;
pub const STAT_RX_READY: u32 = 0x2;
pub const STAT_DSR_INPUT_ON: u32 = 0x80;
pub const STAT_IRQ: u32 = 0x200;

pub const CTRL_TX_ENABLED: u16 = 0x1;
pub const CTRL_DTR_OUTPUT_ON: u16 = 0x2;
pub const CTRL_RX_ENABLED: u16 = 0x4;
pub const CTRL_ACK: u16 = 0x10;
pub const CTRL_RESET: u16 = 0x40;
pub const CTRL_DSR_IRQ_ENABLE: u16 = 0x1000;
pub const CTRL_PORT_SELECT: u16 = 0x2000;

pub open spec fn flag(v: u32, mask: u32) -> bool {
    v & mask != 0
}

pub open spec fn flag16(v: u16, mask: u16) -> bool {
    v & mask != 0
}

pub open spec fn with_flag(v: u32, mask: u32, on: bool) -> u32 {
    if on {
        v | mask
    } else {
        v & !mask
    }
}

/// The controller port that the control register selects.
pub open spec fn port_of(control: u16) -> int {
    if flag16(control, CTRL_PORT_SELECT) {
        1
    } else {
        0
    }
}

fn set_flag(v: u32, mask: u32, on: bool) -> (r: u32)
    ensures
        r == with_flag(v, mask, on),
{
    if on {
        v | mask
    } else {
        v & !mask
    }
}

/// The controller and memory card serial port.
pub struct Sio0 {
    pub transfer: Option<u8>,
    pub received: ArrayVec<u8, 8>,
    pub status: u32,
    pub control: u16,
    /// Kept only so that reads give back what was written.
    pub mode: u32,
    pub baud_timer_reload_value: u16,
    pub device_manager: DeviceManager,
}

/// The serial port that nothing is connected to.
pub struct Sio1;

impl Sio1 {
    /// Every register reads FFh.
    pub fn read(&self, offs: u32) -> (r: u32)
        ensures
            r == 0xFF,
    {
        0xFF
    }

    /// Writes are ignored.
    pub fn write(&mut self, offs: u32, val: u32)
        ensures
            *final(self) == *old(self),
    {
    }
}

/// What a byte received from a device does to a port whose FIFO holds
/// `items`: ignored unless receiving or the DTR output is on; else it joins
/// the FIFO (overwriting the last byte of a full one), the receive-ready
/// flag goes on and receiving is switched off.
pub open spec fn received_into(items: Seq<u8>, control: u16, status: u32, data: u8, after: &Sio0) -> bool {
    if !flag16(control, CTRL_RX_ENABLED) && !flag16(control, CTRL_DTR_OUTPUT_ON) {
        &&& byte_items(after.received) == items
        &&& after.status == status
        &&& after.control == control
    } else {
        &&& byte_items(after.received) == (if items.len() == 8 {
            items.update(7, data)
        } else {
            items.push(data)
        })
        &&& after.status == status | STAT_RX_READY
        &&& after.control == control & !CTRL_RX_ENABLED
    }
}

/// What a transfer does from a port in the given state: with transmitting
/// enabled and a byte waiting, the byte goes to the device on the selected
/// port; its acknowledge sets DSR, which, with DSR interrupts enabled,
/// schedules the serial interrupt, and in any case schedules DSR off; the
/// device's answer is received. Otherwise nothing changes.
pub open spec fn sent_from(
    transfer: Option<u8>,
    items: Seq<u8>,
    status: u32,
    control: u16,
    dm: DeviceManager,
    after: &Sio0,
    sb: &EventScheduler,
    sa: &EventScheduler,
) -> bool {
    &&& sa.wf()
    &&& sa.sysclk == sb.sysclk
    &&& !(flag16(control, CTRL_TX_ENABLED) && transfer is Some) ==> {
        &&& after.transfer == transfer
        &&& byte_items(after.received) == items
        &&& after.status == status
        &&& after.control == control
        &&& after.device_manager == dm
        &&& sa.items() == sb.items()
    }
    &&& (flag16(control, CTRL_TX_ENABLED) && transfer is Some) ==> exists|r: (u8, bool)|
        {
            &&& #[trigger] dm.exchanged(port_of(control), transfer->0, &after.device_manager, r)
            &&& received_into(items, control, with_flag(status, STAT_DSR_INPUT_ON, r.1), r.0, after)
            &&& after.transfer is None
            &&& (r.1 && flag16(control, CTRL_DSR_IRQ_ENABLE)) ==> has_task(
                sa.items(),
                event_view(Event::SerialSend),
                (sb.sysclk + BAUDRATE_TRANSFER_DELAY) as u64,
                None,
            )
            &&& r.1 ==> has_task(sa.items(), event_view(Event::DsrOff), (sb.sysclk + DSR_OFF_DELAY) as u64, None)
            &&& !r.1 ==> sa.items() == sb.items()
            &&& forall|e2: (int, int, bool, Seq<u8>), c2: u64, r2: Option<u64>|
                e2 != event_view(Event::SerialSend) && e2 != event_view(Event::DsrOff) && has_task(
                    sb.items(),
                    e2,
                    c2,
                    r2,
                ) ==> #[trigger] has_task(sa.items(), e2, c2, r2)
        }
}

/// Whether the byte a transfer would send is one the device takes; `reset`
/// tells whether the device manager is reset first.
pub open spec fn send_ok(transfer: Option<u8>, control: u16, dm: DeviceManager, reset: bool) -> bool {
    (flag16(control, CTRL_TX_ENABLED) && transfer is Some) ==> if reset {
        dm.byte_ok_after_reset(port_of(control), transfer->0)
    } else {
        dm.byte_ok(port_of(control), transfer->0)
    }
}

impl Sio0 {
    pub open spec fn wf(&self) -> bool {
        self.device_manager.wf()
    }

    pub fn new(gamepads: [Option<gamepad::Gamepad>; 2], memcards: Vec<Option<memory_card::MemoryCard>>) -> (s: Self)
        requires
            memcards@.len() == 2,
            forall|i: int| 0 <= i < 2 ==> (#[trigger] memcards@[i] matches Some(c) ==> c.wf()),
        ensures
            s.wf(),
            s.transfer is None,
            byte_items(s.received) == Seq::<u8>::empty(),
            s.status == STATUS_RESET,
            s.control == 0,
            s.mode == 0,
            s.baud_timer_reload_value == 0,
            s.device_manager.current_state == CommState::Idle,
            s.device_manager.gamepads == gamepads,
            s.device_manager.memcards@ == memcards@,
    {
        Sio0 {
            transfer: None,
            received: bytes_default(),
            status: STATUS_RESET,
            control: 0,
            mode: 0,
            baud_timer_reload_value: 0,
            device_manager: DeviceManager::new(gamepads, memcards),
        }
    }

    /// The gamepad plugged into the first port, to set its buttons and
    /// sticks.
    pub fn gamepad_port_0_mut(&mut self) -> (r: &mut Gamepad)
        requires
            old(self).device_manager.gamepads@[0] is Some,
        ensures
            *r == old(self).device_manager.gamepads@[0]->0,
            final(self).device_manager.gamepads@ == old(self).device_manager.gamepads@.update(0, Some(*final(r))),
            final(self).device_manager.memcards == old(self).device_manager.memcards,
            final(self).device_manager.current_state == old(self).device_manager.current_state,
            *final(self) == (Sio0 { device_manager: final(self).device_manager, ..*old(self) }),
    {
        match &mut self.device_manager.gamepads[0] {
            Some(g) => g,
            None => vstd::pervasive::unreached(),
        }
    }

    /// The device's acknowledge line goes off.
    pub fn turn_off_dsr(&mut self)
        ensures
            final(self).status == old(self).status & !STAT_DSR_INPUT_ON,
            final(self).control == old(self).control,
            final(self).transfer == old(self).transfer,
            byte_items(final(self).received) == byte_items(old(self).received),
            final(self).device_manager == old(self).device_manager,
    {
        self.status = self.status & !STAT_DSR_INPUT_ON;
    }

    /// What reading register `offs` gives and leaves: reading the data
    /// register takes the FIFO's first byte (FFh when empty) and clears the
    /// receive-ready flag once the FIFO is empty; the others change nothing.
    pub open spec fn read_outcome(&self, offs: u32, r: u32, after: &Sio0) -> bool {
        &&& offs != 0 ==> *after == *self
        &&& offs == 4 ==> r == self.status
        &&& offs == 8 ==> r == self.mode
        &&& offs == 0xA ==> r == self.control as u32
        &&& offs == 0xE ==> r == self.baud_timer_reload_value as u32
        &&& offs == 0 ==> {
            let items = byte_items(self.received);
            &&& r == (if items.len() == 0 { 0xFFu32 } else { items[0] as u32 })
            &&& byte_items(after.received) == (if items.len() == 0 { items } else { items.drop_first() })
            &&& after.status == (if items.len() <= 1 { self.status & !STAT_RX_READY } else { self.status })
            &&& after.control == self.control
            &&& after.transfer == self.transfer
            &&& after.mode == self.mode
            &&& after.baud_timer_reload_value == self.baud_timer_reload_value
            &&& after.device_manager == self.device_manager
        }
    }

    /// Reads a register: the received data (the FIFO's first byte, FFh when
    /// empty), the status, the mode, the control or the baud timer reload
    /// value.
    pub fn read(&mut self, offs: u32) -> (r: u32)
        requires
            offs == 0 || offs == 4 || offs == 8 || offs == 0xA || offs == 0xE,
        ensures
            old(self).read_outcome(offs, r, final(self)),
    {
        if offs == 0 {
            self.pop_received_data()
        } else if offs == 4 {
            self.status
        } else if offs == 8 {
            self.mode
        } else if offs == 0xA {
            self.control as u32
        } else {
            self.baud_timer_reload_value as u32
        }
    }

    fn pop_received_data(&mut self) -> (r: u32)
        ensures
            ({
                let items = byte_items(old(self).received);
                &&& r == (if items.len() == 0 { 0xFFu32 } else { items[0] as u32 })
                &&& byte_items(final(self).received) == (if items.len() == 0 { items } else { items.drop_first() })
                &&& final(self).status == (if items.len() <= 1 { old(self).status & !STAT_RX_READY } else { old(self).status })
            }),
            final(self).control == old(self).control,
            final(self).transfer == old(self).transfer,
            final(self).mode == old(self).mode,
            final(self).baud_timer_reload_value == old(self).baud_timer_reload_value,
            final(self).device_manager == old(self).device_manager,
    {
        let data: u8 = match bytes_pop_front(&mut self.received) {
            Some(b) => b,
            None => 0xFF,
        };
        if bytes_len(&self.received) == 0 {
            self.status = self.status & !STAT_RX_READY;
        }
        data as u32
    }

    /// Takes a byte received from a device.
    pub fn push_received_data(&mut self, data: u8)
        ensures
            received_into(byte_items(old(self).received), old(self).control, old(self).status, data, final(self)),
            final(self).transfer == old(self).transfer,
            final(self).mode == old(self).mode,
            final(self).baud_timer_reload_value == old(self).baud_timer_reload_value,
            final(self).device_manager == old(self).device_manager,
    {
        if self.control & CTRL_RX_ENABLED == 0 && self.control & CTRL_DTR_OUTPUT_ON == 0 {
            return;
        }
        if bytes_len(&self.received) == 8 {
            bytes_set_last(&mut self.received, data);
        } else {
            bytes_push(&mut self.received, data);
        }
        self.status = self.status | STAT_RX_READY;
        self.control = self.control & !CTRL_RX_ENABLED;
    }

    /// A byte transfer has completed: the controller and memory card
    /// interrupt is raised and the port's interrupt flag set.
    pub fn process_serial_send(&mut self, irq: &mut InterruptController)
        ensures
            final(irq).stat.0 == old(irq).stat.0 | (1u32 << spec_irq_bit(Interrupt::ControllerMemoryCard)),
            final(irq).mask == old(irq).mask,
            final(self).status == old(self).status | STAT_IRQ,
            final(self).control == old(self).control,
            final(self).transfer == old(self).transfer,
            byte_items(final(self).received) == byte_items(old(self).received),
            final(self).device_manager == old(self).device_manager,
    {
        irq.raise(Interrupt::ControllerMemoryCard);
        self.status = self.status | STAT_IRQ;
    }
    /// Sends the byte waiting in TX, if transmitting is enabled.
    fn try_send_data(&mut self, sched: &mut EventScheduler)
        requires
            old(self).wf(),
            old(sched).wf(),
            send_ok(old(self).transfer, old(self).control, old(self).device_manager, false),
            old(sched).items().len() + 2 <= MAX_TASKS,
            old(sched).sysclk + BAUDRATE_TRANSFER_DELAY <= u64::MAX,
        ensures
            final(self).wf(),
            sent_from(
                old(self).transfer,
                byte_items(old(self).received),
                old(self).status,
                old(self).control,
                old(self).device_manager,
                final(self),
                old(sched),
                final(sched),
            ),
            final(self).mode == old(self).mode,
            final(self).baud_timer_reload_value == old(self).baud_timer_reload_value,
    {
        if self.control & CTRL_TX_ENABLED == 0 {
            return;
        }
        let t = self.transfer;
        match t {
            None => {},
            Some(val) => {
                self.transfer = None;
                let port: usize = if self.control & CTRL_PORT_SELECT != 0 { 1 } else { 0 };
                let (received, ack) = self.device_manager.send_and_receive_byte(port, val);
                let ghost r = (received, ack);
                let ghost items0 = sched.items();
                self.status = set_flag(self.status, STAT_DSR_INPUT_ON, ack);
                if self.control & CTRL_DSR_IRQ_ENABLE != 0 && ack {
                    proof {
                        sched.items().lemma_filter_len(not_event(Event::SerialSend));
                    }
                    sched.schedule(Event::SerialSend, BAUDRATE_TRANSFER_DELAY, None);
                    proof {
                        lemma_schedule_keeps(items0, Event::SerialSend, (old(sched).sysclk + BAUDRATE_TRANSFER_DELAY) as u64, None, sched.items());
                    }
                }
                let ghost items1 = sched.items();
                if ack {
                    proof {
                        sched.items().lemma_filter_len(not_event(Event::DsrOff));
                    }
                    sched.schedule(Event::DsrOff, DSR_OFF_DELAY, None);
                    proof {
                        lemma_schedule_keeps(items1, Event::DsrOff, (old(sched).sysclk + DSR_OFF_DELAY) as u64, None, sched.items());
                    }
                }
                self.push_received_data(received);
                proof {
                    assert(old(self).device_manager.exchanged(port_of(old(self).control), val, &self.device_manager, r));
                }
            },
        }
    }

    /// Puts every register back to its reset value and resets the devices.
    fn reset_registers(&mut self)
        requires
            old(self).wf(),
        ensures
            final(self).wf(),
            final(self).transfer is None,
            byte_items(final(self).received) == Seq::<u8>::empty(),
            final(self).status == STATUS_RESET,
            final(self).control == 0,
            final(self).mode == 0,
            final(self).baud_timer_reload_value == 0,
            old(self).device_manager.reset_to(&final(self).device_manager),
    {
        self.transfer = None;
        self.received = bytes_default();
        self.status = STATUS_RESET;
        self.control = 0;
        self.mode = 0;
        self.baud_timer_reload_value = 0;
        self.device_manager.reset();
    }

    /// What writing `val` to the control register does: an acknowledge
    /// clears the interrupt flag; a reset puts every register back and
    /// resets the devices; otherwise DTR off resets the devices and drops
    /// DSR, and a waiting byte is sent if transmitting is enabled.
    pub open spec fn control_outcome(&self, val: u16, after: &Sio0, sb: &EventScheduler, sa: &EventScheduler) -> bool {
        let c = control_written(val);
        let st = if flag16(val & !0xC000u16, CTRL_ACK) { self.status & !STAT_IRQ } else { self.status };
        if flag16(c, CTRL_RESET) {
            &&& after.transfer is None
            &&& byte_items(after.received) == Seq::<u8>::empty()
            &&& after.status == STATUS_RESET
            &&& after.control == 0
            &&& after.mode == 0
            &&& after.baud_timer_reload_value == 0
            &&& self.device_manager.reset_to(&after.device_manager)
            &&& sa.items() == sb.items()
            &&& sa.sysclk == sb.sysclk
            &&& sa.wf()
        } else {
            &&& after.mode == self.mode
            &&& after.baud_timer_reload_value == self.baud_timer_reload_value
            &&& !flag16(c, CTRL_DTR_OUTPUT_ON) ==> exists|dm: DeviceManager|
                #[trigger] self.device_manager.reset_to(&dm) && sent_from(
                    self.transfer,
                    byte_items(self.received),
                    st & !STAT_DSR_INPUT_ON,
                    c,
                    dm,
                    after,
                    sb,
                    sa,
                )
            &&& flag16(c, CTRL_DTR_OUTPUT_ON) ==> sent_from(
                self.transfer,
                byte_items(self.received),
                st,
                c,
                self.device_manager,
                after,
                sb,
                sa,
            )
        }
    
    }

    /// Writes the control register: an acknowledge clears the interrupt
    /// flag, a reset puts the registers back, DTR off resets the devices
    /// and drops DSR, and with transmitting enabled a waiting byte is sent.
    pub fn write_control(&mut self, sched: &mut EventScheduler, val: u16)
        requires
            old(self).wf(),
            old(sched).wf(),
            old(sched).items().len() + 2 <= MAX_TASKS,
            old(sched).sysclk + BAUDRATE_TRANSFER_DELAY <= u64::MAX,
            ({
                let c = control_written(val);
                !flag16(c, CTRL_RESET) ==> send_ok(
                    old(self).transfer,
                    c,
                    old(self).device_manager,
                    !flag16(c, CTRL_DTR_OUTPUT_ON),
                )
            }),
        ensures
            final(self).wf(),
            old(self).control_outcome(val, final(self), old(sched), final(sched)),
    {
        self.control = val & !0xC000u16;
        if self.control & CTRL_ACK != 0 {
            self.status = self.status & !STAT_IRQ;
            self.control = self.control & !CTRL_ACK;
        }
        if self.control & CTRL_RESET != 0 {
            self.reset_registers();
            self.device_manager.reset();
            self.status = self.status & !STAT_DSR_INPUT_ON;
            proof {
                assert(0x22005u32 & !0x80u32 == 0x22005u32) by (bit_vector);
            }
            return;
        }
        if self.control & CTRL_DTR_OUTPUT_ON == 0 {
            let ghost before = self.device_manager;
            self.device_manager.reset();
            self.status = self.status & !STAT_DSR_INPUT_ON;
            proof {
                if flag16(self.control, CTRL_TX_ENABLED) && self.transfer is Some {
                    before.lemma_reset_byte_ok(&self.device_manager, port_of(self.control), self.transfer->0);
                }
            }
        }
        self.try_send_data(sched);
    }

    /// What writing `val` to register `offs` does: TX data is sent at once
    /// if transmitting is enabled; the mode keeps 9 bits; the control write
    /// is `write_control`'s; the baud timer reload value keeps 16 bits.
    pub open spec fn write_outcome(&self, offs: u32, val: u32, after: &Sio0, sb: &EventScheduler, sa: &EventScheduler) -> bool {
        &&& offs == 0 ==> sent_from(
            Some(val as u8),
            byte_items(self.received),
            self.status,
            self.control,
            self.device_manager,
            after,
            sb,
            sa,
        ) && after.mode == self.mode && after.baud_timer_reload_value == self.baud_timer_reload_value
        &&& offs == 0xA ==> self.control_outcome(val as u16, after, sb, sa)
        &&& offs == 8 ==> *after == (Sio0 { mode: val & 0x1FF, ..*self }) && sa.items() == sb.items()
        &&& offs == 0xE ==> *after == (Sio0 { baud_timer_reload_value: val as u16, ..*self }) && sa.items() == sb.items()
    }

    /// Writes a register: the TX data (sent at once if transmitting is
    /// enabled), the mode (9 bits), the control or the baud timer reload
    /// value.
    pub fn write(&mut self, sched: &mut EventScheduler, offs: u32, val: u32)
        requires
            offs == 0 || offs == 8 || offs == 0xA || offs == 0xE,
            old(self).wf(),
            old(sched).wf(),
            old(sched).items().len() + 2 <= MAX_TASKS,
            old(sched).sysclk + BAUDRATE_TRANSFER_DELAY <= u64::MAX,
            offs == 0 ==> send_ok(Some(val as u8), old(self).control, old(self).device_manager, false),
            offs == 0xA ==> ({
                let c = control_written(val as u16);
                !flag16(c, CTRL_RESET) ==> send_ok(
                    old(self).transfer,
                    c,
                    old(self).device_manager,
                    !flag16(c, CTRL_DTR_OUTPUT_ON),
                )
            }),
        ensures
            final(self).wf(),
            final(sched).wf(),
            final(sched).sysclk == old(sched).sysclk,
            old(self).write_outcome(offs, val, final(self), old(sched), final(sched)),
    {
        if offs == 0 {
            self.transfer = Some(val as u8);
            self.try_send_data(sched);
        } else if offs == 8 {
            self.mode = val & 0x1FF;
        } else if offs == 0xA {
            self.write_control(sched, val as u16);
        } else {
            self.baud_timer_reload_value = val as u16;
        }
    }
}

/// The control register as written: the two top bits are unused.
pub open spec fn control_written(val: u16) -> u16 {
    let c = val & !0xC000u16;
    if flag16(c, CTRL_ACK) {
        c & !CTRL_ACK
    } else {
        c
    }
}

/// Reads a serial port register: bit 4 of the offset selects the port.
pub fn read(sio0: &mut Sio0, sio1: &Sio1, addr: u32) -> (r: u32)
    requires
        PADDR_START <= addr <= PADDR_END,
        ((addr - PADDR_START) as u32) & 0x10 == 0 ==> {
            let o = ((addr - PADDR_START) as u32) % 0x10;
            o == 0 || o == 4 || o == 8 || o == 0xA || o == 0xE
        },
    ensures
        ((addr - PADDR_START) as u32) & 0x10 == 0 ==> old(sio0).read_outcome(
            ((addr - PADDR_START) as u32) % 0x10,
            r,
            final(sio0),
        ),
        ((addr - PADDR_START) as u32) & 0x10 != 0 ==> r == 0xFF && *final(sio0) == *old(sio0),
{
    let offs = addr - PADDR_START;
    assert((offs & 0x10) >> 4 == 0 <==> offs & 0x10 == 0) by (bit_vector);
    if (offs & 0x10) >> 4 == 0 {
        sio0.read(offs % 0x10)
    } else {
        sio1.read(offs % 0x10)
    }
}

/// Whether sending `transfer` with control register `control` (after a
/// reset of the devices when `reset`) is a byte the selected device takes.
pub fn send_allowed(transfer: Option<u8>, control: u16, dm: &DeviceManager, reset: bool) -> (r: bool)
    requires
        dm.wf(),
    ensures
        r == send_ok(transfer, control, *dm, reset),
{
    if control & CTRL_TX_ENABLED == 0 {
        return true;
    }
    let port: usize = if control & CTRL_PORT_SELECT != 0 { 1 } else { 0 };
    match transfer {
        None => true,
        Some(b) => if reset {
            dm.byte_allowed_after_reset(port, b)
        } else {
            dm.byte_allowed(port, b)
        },
    }
}

/// Whether a write of `val` to the serial port register at `addr` can be
/// taken: a register that the first port has, and a byte its device takes
/// where one is sent.
pub fn write_allowed(sio0: &Sio0, addr: u32, val: u32) -> (r: bool)
    requires
        PADDR_START <= addr <= PADDR_END,
        sio0.wf(),
    ensures
        r == (((addr - PADDR_START) as u32) & 0x10 == 0 ==> {
            let o = ((addr - PADDR_START) as u32) % 0x10;
            &&& o == 0 || o == 8 || o == 0xA || o == 0xE
            &&& o == 0 ==> send_ok(Some(val as u8), sio0.control, sio0.device_manager, false)
            &&& o == 0xA ==> ({
                let c = control_written(val as u16);
                !flag16(c, CTRL_RESET) ==> send_ok(
                    sio0.transfer,
                    c,
                    sio0.device_manager,
                    !flag16(c, CTRL_DTR_OUTPUT_ON),
                )
            })
        }),
{
    let offs = addr - PADDR_START;
    if offs & 0x10 != 0 {
        return true;
    }
    let o = offs % 0x10;
    if o == 0 {
        send_allowed(Some(val as u8), sio0.control, &sio0.device_manager, false)
    } else if o == 0xA {
        let c0 = (val as u16) & !0xC000u16;
        let c = if c0 & CTRL_ACK != 0 { c0 & !CTRL_ACK } else { c0 };
        c & CTRL_RESET != 0 || send_allowed(sio0.transfer, c, &sio0.device_manager, c & CTRL_DTR_OUTPUT_ON == 0)
    } else {
        o == 8 || o == 0xE
    }
}

/// Writes a serial port register: bit 4 of the offset selects the port;
/// the second port ignores writes.
pub fn write(sio0: &mut Sio0, sio1: &mut Sio1, sched: &mut EventScheduler, addr: u32, val: u32)
    requires
        PADDR_START <= addr <= PADDR_END,
        old(sio0).wf(),
        old(sched).wf(),
        old(sched).items().len() + 2 <= MAX_TASKS,
        old(sched).sysclk + BAUDRATE_TRANSFER_DELAY <= u64::MAX,
        ((addr - PADDR_START) as u32) & 0x10 == 0 ==> {
            let o = ((addr - PADDR_START) as u32) % 0x10;
            &&& o == 0 || o == 8 || o == 0xA || o == 0xE
            &&& o == 0 ==> send_ok(Some(val as u8), old(sio0).control, old(sio0).device_manager, false)
            &&& o == 0xA ==> ({
                let c = control_written(val as u16);
                !flag16(c, CTRL_RESET) ==> send_ok(
                    old(sio0).transfer,
                    c,
                    old(sio0).device_manager,
                    !flag16(c, CTRL_DTR_OUTPUT_ON),
                )
            })
        },
    ensures
        final(sio0).wf(),
        final(sched).wf(),
        final(sched).sysclk == old(sched).sysclk,
        ((addr - PADDR_START) as u32) & 0x10 == 0 ==> old(sio0).write_outcome(
            ((addr - PADDR_START) as u32) % 0x10,
            val,
            final(sio0),
            old(sched),
            final(sched),
        ),
        ((addr - PADDR_START) as u32) & 0x10 != 0 ==> *final(sio0) == *old(sio0) && final(sched).items()
            == old(sched).items(),
{
    let offs = addr - PADDR_START;
    assert((offs & 0x10) >> 4 == 0 <==> offs & 0x10 == 0) by (bit_vector);
    if (offs & 0x10) >> 4 == 0 {
        sio0.write(sched, offs % 0x10, val);
    } else {
        sio1.write(offs % 0x10, val);
    }
}

} // verus!
