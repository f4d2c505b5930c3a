use vstd::prelude::*;

use crate::cpu::Cpu;
use crate::memory::{Ram, RAM_SIZE};

verus! {

/// The little-endian word at `i` of `s`.
pub open spec fn le32(s: Seq<u8>, i: int) -> u32 {
    (s[i] as u32 | ((s[i + 1] as u32) << 8u32) | ((s[i + 2] as u32) << 16u32) | ((s[i + 3] as u32) << 24u32)) as u32
}

/// Where an executable's data starts in the file, after its header.
pub const EXE_DATA_START: usize = 0x800;

/// What an executable's header gives: its entry point, the global pointer,
/// where its data goes in RAM and how much there is, and the stack pointer
/// (0 for none).
#[derive(Clone, Copy, Debug, PartialEq, Eq, Structural)]
pub struct ExeHeader {
    pub pc: u32,
    pub gp: u32,
    pub addr: u32,
    pub size: u32,
    pub sp: u32,
}

/// The header of an executable file: entry point at 10h, global pointer
/// at 14h, RAM address at 18h (within 2 MiB), size at 1Ch, stack pointer at
/// 30h.
pub open spec fn exe_header(exe: Seq<u8>) -> ExeHeader {
    ExeHeader {
        pc: le32(exe, 0x10),
        gp: le32(exe, 0x14),
        addr: le32(exe, 0x18) & 0x1F_FFFF,
        size: le32(exe, 0x1C),
        sp: le32(exe, 0x30),
    }
}

fn read_le32(exe: &[u8], i: usize) -> (r: u32)
    requires
        i + 4 <= exe@.len(),
    ensures
        r == le32(exe@, i as int),
{
    exe[i] as u32 | ((exe[i + 1] as u32) << 8u32) | ((exe[i + 2] as u32) << 16u32) | ((exe[i + 3] as u32) << 24u32)
}

/// Parses an executable's header.
pub fn parse_exe_header(exe: &[u8]) -> (h: ExeHeader)
    requires
        exe@.len() >= 0x34,
    ensures
        h == exe_header(exe@),
{
    ExeHeader {
        pc: read_le32(exe, 0x10),
        gp: read_le32(exe, 0x14),
        addr: read_le32(exe, 0x18) & 0x1F_FFFF,
        size: read_le32(exe, 0x1C),
        sp: read_le32(exe, 0x30),
    }
}

/// Whether an executable fits: its header is there, and its data is in the
/// file and fits in RAM at its address.
pub open spec fn exe_fits(exe: Seq<u8>) -> bool {
    &&& exe.len() >= 0x34
    &&& EXE_DATA_START + exe_header(exe).size <= exe.len()
    &&& exe_header(exe).addr + exe_header(exe).size <= RAM_SIZE
}

/// Loads an executable: its data is copied to RAM at its address, the
/// global pointer set, the stack and frame pointers set when it gives a
/// stack, and execution continues at its entry point.
pub fn load_exe(ram: &mut Ram, cpu: &mut Cpu, exe: &[u8])
    requires
        old(ram).wf(),
        exe_fits(exe@),
    ensures
        final(ram).wf(),
        ({
            let h = exe_header(exe@);
            &&& final(ram).bytes@ == old(ram).bytes@.subrange(0, h.addr as int) + exe@.subrange(
                EXE_DATA_START as int,
                EXE_DATA_START + h.size,
            ) + old(ram).bytes@.subrange(h.addr + h.size, RAM_SIZE as int)
            &&& final(cpu).pc == h.pc
            &&& final(cpu).regs@ == if h.sp != 0 {
                old(cpu).regs@.update(28, h.gp).update(29, h.sp).update(30, h.sp)
            } else {
                old(cpu).regs@.update(28, h.gp)
            }
            &&& *final(cpu) == (Cpu { pc: final(cpu).pc, regs: final(cpu).regs, ..*old(cpu) })
        }),
{
    let h = parse_exe_header(exe);
    let addr = h.addr as usize;
    let size = h.size as usize;
    let mut i: usize = 0;
    while i < size
        invariant
            ram.wf(),
            i <= size,
            addr + size <= RAM_SIZE,
            EXE_DATA_START + size <= exe@.len(),
            forall|k: int| 0 <= k < RAM_SIZE ==> #[trigger] ram.bytes@[k] == if addr <= k < addr + i {
                exe@[EXE_DATA_START + k - addr]
            } else {
                old(ram).bytes@[k]
            },
        decreases size - i,
    {
        ram.bytes.set(addr + i, exe[EXE_DATA_START + i]);
        i = i + 1;
    }
    proof {
        let expect = old(ram).bytes@.subrange(0, addr as int) + exe@.subrange(
            EXE_DATA_START as int,
            EXE_DATA_START + size,
        ) + old(ram).bytes@.subrange(addr + size, RAM_SIZE as int);
        assert(ram.bytes@ =~= expect);
    }
    cpu.regs[28] = h.gp;
    if h.sp != 0 {
        cpu.regs[29] = h.sp;
        cpu.regs[30] = h.sp;
    }
    cpu.pc = h.pc;
    proof {
        if h.sp != 0 {
            assert(cpu.regs@ =~= old(cpu).regs@.update(28, h.gp).update(29, h.sp).update(30, h.sp));
        } else {
            assert(cpu.regs@ =~= old(cpu).regs@.update(28, h.gp));
        }
    }
}

/// The character that the BIOS putchar calls (A(3Ch) and B(3Dh)) print, if
/// the CPU is at one of them.
pub fn tty_char(pc: u32, r9: u32, r4: u32) -> (r: Option<u8>)
    ensures
        r == (if ((pc & 0x1FFF_FFFF) == 0xA0 && r9 == 0x3C) || ((pc & 0x1FFF_FFFF) == 0xB0 && r9 == 0x3D) {
            Some(r4 as u8)
        } else {
            None
        }),
{
    let p = pc & 0x1FFF_FFFF;
    if (p == 0xA0 && r9 == 0x3C) || (p == 0xB0 && r9 == 0x3D) {
        Some(r4 as u8)
    } else {
        None
    }
}

/// Adds a printed character to the TTY line: a newline or carriage return
/// ends the line, which is handed back and the buffer emptied.
pub fn tty_push(tty: &mut Vec<u8>, byte: u8) -> (line: Option<Vec<u8>>)
    ensures
        (byte == 0x0A || byte == 0x0D) ==> (line matches Some(l) && l@ == old(tty)@ && final(tty)@.len() == 0),
        !(byte == 0x0A || byte == 0x0D) ==> line is None && final(tty)@ == old(tty)@.push(byte),
{
    if byte == 0x0A || byte == 0x0D {
        let mut done: Vec<u8> = Vec::new();
        std::mem::swap(&mut done, tty);
        Some(done)
    } else {
        tty.push(byte);
        None
    }
}

} // verus!
