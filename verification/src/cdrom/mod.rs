pub mod cd_image;
pub mod commands;
pub mod drive;
pub mod io;
pub mod response;
pub mod status;
pub mod xa;

use vstd::prelude::*;

use crate::cdrom::drive::CdRom;
use crate::cdrom::io::{command_ok, command_run, MAX_RESPONSE_DELAY};
use crate::sched::{EventScheduler, MAX_TASKS};

verus! {

pub const PADDR_START: u32 = 0x1F80_1800;

pub const PADDR_END: u32 = 0x1F80_1804;

/// Reads a drive register: offset 0 the address register, 1 a result byte,
/// 2 data bytes, 3 the interrupt mask (banks 0 and 2) or flags (1 and 3).
pub fn read(cdrom: &mut CdRom, addr: u32, width: usize) -> (r: u32)
    requires
        PADDR_START <= addr < PADDR_END,
        width == 1 || width == 2 || width == 4,
        addr - PADDR_START == 1 ==> old(cdrom).results@.len() > 0,
    ensures
        addr - PADDR_START == 0 ==> r == old(cdrom).address as u32,
        addr - PADDR_START == 1 ==> r == old(cdrom).results@[0] as u32 && final(cdrom).results@ == old(cdrom).results@.drop_first(),
        addr - PADDR_START == 3 ==> r == (if old(cdrom).address & 1 == 0 {
            (old(cdrom).hintmsk | 0xE0) as u32
        } else {
            (old(cdrom).hintsts | 0xE0) as u32
        }),
{
    let offs = addr - PADDR_START;
    if offs == 0 {
        cdrom.read_addr() as u32
    } else if offs == 1 {
        cdrom.pop_result() as u32
    } else if offs == 2 {
        cdrom.read_rddata(width)
    } else if cdrom.address & 1 == 0 {
        cdrom.read_hintmsk() as u32
    } else {
        cdrom.read_hintsts() as u32
    }
}

/// The registers a write can reach: bank 0 offset 1 runs a command, bank 0
/// offset 2 takes a parameter, bank 1 offsets 2 and 3 set the interrupt
/// mask and acknowledge flags; offset 0 selects the bank; the rest (audio
/// volume registers) are taken and ignored; bank 1 and 2 offset 1 are not.
pub open spec fn write_ok(cdrom: CdRom, addr: u32, data: u32) -> bool {
    let offs = addr - PADDR_START;
    let bank = cdrom.address & 3;
    &&& PADDR_START <= addr < PADDR_END
    &&& !(offs == 1 && (bank == 1 || bank == 2))
    &&& offs == 1 && bank == 0 ==> command_ok(cdrom, data as u8)
    &&& offs == 2 && bank == 0 ==> cdrom.params().len() < 16
}

/// Whether a write of `data` to the drive register at `addr` can be taken.
pub fn write_allowed(cdrom: &CdRom, addr: u32, data: u32) -> (r: bool)
    requires
        cdrom.wf(),
    ensures
        r == write_ok(*cdrom, addr, data),
{
    if addr < PADDR_START || addr >= PADDR_END {
        return false;
    }
    let offs = addr - PADDR_START;
    let bank = cdrom.address & 3;
    if offs == 1 && (bank == 1 || bank == 2) {
        false
    } else if offs == 1 && bank == 0 {
        crate::cdrom::io::command_allowed(cdrom, data as u8)
    } else if offs == 2 && bank == 0 {
        crate::bytes::params_len(&cdrom.parameters) < 16
    } else {
        true
    }
}

/// Writes a drive register (the low byte of `data`).
pub fn write(cdrom: &mut CdRom, sched: &mut EventScheduler, addr: u32, data: u32)
    requires
        old(cdrom).wf(),
        old(sched).wf(),
        old(sched).items().len() + 2 < MAX_TASKS,
        old(sched).sysclk + MAX_RESPONSE_DELAY <= u64::MAX,
        write_ok(*old(cdrom), addr, data),
    ensures
        final(cdrom).wf(),
        final(sched).wf(),
        final(sched).sysclk == old(sched).sysclk,
        addr - PADDR_START == 0 ==> final(cdrom).address == (old(cdrom).address & !3u8) | ((data as u8) & 3),
        addr - PADDR_START == 2 && old(cdrom).address & 3 == 0 ==> final(cdrom).params() == old(cdrom).params().push(data as u8),
        addr - PADDR_START == 2 && old(cdrom).address & 3 == 1 ==> final(cdrom).hintmsk == data as u8,
        addr - PADDR_START == 3 && old(cdrom).address & 3 == 1 ==> final(cdrom).hintsts == old(cdrom).hintsts & !((data as u8) & 0x1F),
        addr - PADDR_START == 1 && old(cdrom).address & 3 == 0 ==> command_run(
            *old(cdrom),
            data as u8,
            *final(cdrom),
            *old(sched),
            *final(sched),
        ),
{
    let offs = addr - PADDR_START;
    let bank = cdrom.address & 3;
    let val = data as u8;
    if offs == 0 {
        cdrom.write_addr(val);
    } else if offs == 1 {
        if bank == 0 {
            cdrom.exec_command(sched, val);
        }
    } else if offs == 2 {
        if bank == 0 {
            cdrom.push_parameter(val);
        } else if bank == 1 {
            cdrom.write_hintmsk(val);
        }
    } else {
        if bank == 1 {
            cdrom.write_hclrctl(val);
        }
    }
}

} // verus!
