use vstd::prelude::*;
use crate::enums::{MemState, IoState, Interrupt};
use crate::loadstore::LoadStore;
use crate::mapper::{Cartridge, Mapper, lemma_prg_ok_readable};
use crate::ppu::PpuReadRegs;
use crate::header::{decimal, push_decimal};
use crate::utils::{dump, hex_lower, print_mem, push_hex_lower};
use vstd::string::StringExecFns;

verus! {

pub const RAM_SIZE: usize = 0x800;
pub const GAMEPAD1: u16 = 0x4016;
pub const GAMEPAD2: u16 = 0x4017;
pub const OAMDMA: u16 = 0x4014;

/// The CPU address space: internal RAM, the PPU and I/O registers, and the cartridge.
pub struct Memory {
    pub ram: [u8; 0x800],
    pub vram: [u8; 0x800],
    pub mapper: Cartridge,
    pub mem_load_status: MemState,
    pub mem_store_status: MemState,
    pub io_load_status: IoState,
    pub ppu_read_regs: PpuReadRegs,
    pub latch: u8,
    pub oamdma: Option<u8>,
    pub interrupt: Option<Interrupt>,
    pub io_strobe: u8,
    pub joy_key: [u8; 2],
}

/// What a read of the PPU register window gives: the status register (2), OAM data (4)
/// and the data port (7) can be read; the other registers are write only.
pub open spec fn ppu_register_read(regs: PpuReadRegs, address: u16) -> (MemState, u8) {
    if address % 8 == 2 {
        (MemState::PpuStatus, regs.status)
    } else if address % 8 == 4 {
        (MemState::OamData, regs.oam)
    } else if address % 8 == 7 {
        (MemState::PpuData, regs.data)
    } else {
        (MemState::NoState, 0)
    }
}

/// Which PPU register a write in the register window reaches; the status register
/// (2) is read only.
pub open spec fn ppu_register_written(address: u16) -> MemState {
    if address % 8 == 0 {
        MemState::PpuCtrl
    } else if address % 8 == 1 {
        MemState::PpuMask
    } else if address % 8 == 3 {
        MemState::OamAddr
    } else if address % 8 == 4 {
        MemState::OamData
    } else if address % 8 == 5 {
        MemState::PpuScroll
    } else if address % 8 == 6 {
        MemState::PpuAddr
    } else if address % 8 == 7 {
        MemState::PpuData
    } else {
        MemState::NoState
    }
}

impl Memory {
    pub open spec fn wf(&self) -> bool {
        self.mapper.wf()
    }

    /// Every CPU read can be served, now and after any access.
    pub open spec fn prg_ok(&self) -> bool {
        self.mapper.prg_ok()
    }

    pub fn new(mapper: Box<Cartridge>) -> (m: Memory)
        ensures
            m.ram@ == Seq::new(0x800, |i: int| 0u8),
            m.vram@ == Seq::new(0x800, |i: int| 0u8),
            m.mapper == *mapper,
            m.mem_load_status == MemState::NoState,
            m.mem_store_status == MemState::NoState,
            m.io_load_status == IoState::NoState,
            m.ppu_read_regs == (PpuReadRegs { data: 0, oam: 0, status: 0 }),
            m.latch == 0,
            m.oamdma is None,
            m.interrupt is None,
            m.io_strobe == 0,
            m.joy_key@ == seq![0u8, 0u8],
    {
        let m = Memory {
            ram: [0u8; 0x800],
            vram: [0u8; 0x800],
            mapper: *mapper,
            mem_load_status: MemState::NoState,
            mem_store_status: MemState::NoState,
            io_load_status: IoState::NoState,
            ppu_read_regs: PpuReadRegs::default(),
            latch: 0,
            oamdma: None,
            interrupt: None,
            io_strobe: 0,
            joy_key: [0u8; 2],
        };
        assert(m.ram@ =~= Seq::new(0x800, |i: int| 0u8));
        assert(m.vram@ =~= Seq::new(0x800, |i: int| 0u8));
        assert(m.joy_key@ =~= seq![0u8, 0u8]);
        m
    }

    pub fn set_interrupt(&mut self, interrupt: Interrupt)
        ensures
            *final(self) == (Memory { interrupt: Some(interrupt), ..*old(self) }),
    {
        self.interrupt = Some(interrupt);
    }

    /// Takes the pending interrupt, if any.
    pub fn get_interrupt(&mut self) -> (r: Option<Interrupt>)
        ensures
            r == old(self).interrupt,
            *final(self) == (Memory { interrupt: None, ..*old(self) }),
    {
        let interrupt = self.interrupt;
        self.interrupt = None;
        interrupt
    }

    /// The last byte written to a PPU register and which register the last write reached;
    /// the write status is consumed.
    pub fn get_latch(&mut self) -> (r: (u8, MemState))
        ensures
            r == (old(self).latch, old(self).mem_store_status),
            *final(self) == (Memory { mem_store_status: MemState::NoState, ..*old(self) }),
    {
        let status = (self.latch, self.mem_store_status);
        self.mem_store_status = MemState::NoState;
        status
    }

    /// Takes the page of a pending OAM DMA request, if any.
    pub fn get_oamdma(&mut self) -> (r: Option<u8>)
        ensures
            r == old(self).oamdma,
            *final(self) == (Memory { oamdma: None, ..*old(self) }),
    {
        let status = self.oamdma;
        self.oamdma = None;
        status
    }

    /// Which register the last read reached; the read status is consumed.
    pub fn ppu_load_status(&mut self) -> (r: MemState)
        ensures
            r == old(self).mem_load_status,
            *final(self) == (Memory { mem_load_status: MemState::NoState, ..*old(self) }),
    {
        let status = self.mem_load_status;
        self.mem_load_status = MemState::NoState;
        status
    }

    pub fn set_ppu_read_regs(&mut self, regs: PpuReadRegs)
        ensures
            *final(self) == (Memory { ppu_read_regs: regs, ..*old(self) }),
    {
        self.ppu_read_regs = regs;
    }

    /// A read of the PPU address space, served by the cartridge and the nametable RAM.
    pub fn chr_load(&mut self, address: u16) -> (r: u8)
        requires
            old(self).mapper.chr_ok() || address >= 0x2000,
        ensures
            r == old(self).mapper.chr_read(old(self).vram@, address),
            *final(self) == *old(self),
    {
        self.mapper.chr_load(&self.vram, address)
    }

    /// A write to the PPU address space; only the nametable RAM can change.
    pub fn chr_store(&mut self, address: u16, value: u8)
        ensures
            *final(self) == (Memory {
                vram: old(self).mapper.chr_written(old(self).vram, address, value),
                ..*old(self)
            }),
    {
        self.mapper.chr_store(&mut self.vram, address, value);
    }

    /// Which gamepad port the last read reached; the status is consumed.
    pub fn get_io_load_status(&mut self) -> (r: IoState)
        ensures
            r == old(self).io_load_status,
            *final(self) == (Memory { io_load_status: IoState::NoState, ..*old(self) }),
    {
        let status = self.io_load_status;
        self.io_load_status = IoState::NoState;
        status
    }

    /// Whether the controller strobe bit (bit 0 of the last write to 0x4016) is set.
    pub fn get_strobe(&self) -> (r: bool)
        ensures
            r == (self.io_strobe % 2 == 1),
    {
        self.io_strobe % 2 == 1
    }

    pub fn set_joy_key(&mut self, index: usize, key: u8)
        requires
            index < 2,
        ensures
            final(self).joy_key@ == old(self).joy_key@.update(index as int, key),
            *final(self) == (Memory { joy_key: final(self).joy_key, ..*old(self) }),
    {
        self.joy_key[index] = key;
    }

    /// Reads a byte as `load` does, then puts back the three bus statuses (the load and
    /// store status and the gamepad port status); the latch still takes the byte of a
    /// readable PPU register.
    pub fn load_no_side_effect(&mut self, address: u16) -> (r: u8)
        requires
            old(self).readable(address),
        ensures
            r == old(self).loaded(address).1,
            *final(self) == (Memory {
                mem_load_status: old(self).mem_load_status,
                mem_store_status: old(self).mem_store_status,
                io_load_status: old(self).io_load_status,
                ..old(self).loaded(address).0
            }),
            old(self).wf() ==> final(self).wf(),
    {
        let mem_load_status = self.mem_load_status;
        let mem_store_status = self.mem_store_status;
        let io_load_status = self.io_load_status;
        let value = self.load(address);
        self.mem_load_status = mem_load_status;
        self.mem_store_status = mem_store_status;
        self.io_load_status = io_load_status;
        value
    }
}

impl Memory {
    #[verifier::opaque]
    pub open spec fn load_result(&self, address: u16) -> (Memory, u8) {
        if address < 0x2000 {
            (Memory { mem_load_status: MemState::Memory, ..*self }, self.ram@[address as int % 0x800])
        } else if address < 0x4000 {
            let (stat, data) = ppu_register_read(self.ppu_read_regs, address);
            (
                Memory {
                    mem_load_status: stat,
                    latch: if stat != MemState::NoState { data } else { self.latch },
                    ..*self
                },
                data,
            )
        } else if address < 0x4020 {
            if address == GAMEPAD1 {
                (
                    Memory {
                        io_load_status: IoState::GamePad1,
                        mem_load_status: MemState::Io,
                        ..*self
                    },
                    self.joy_key@[0],
                )
            } else if address == GAMEPAD2 {
                (
                    Memory {
                        io_load_status: IoState::GamePad2,
                        mem_load_status: MemState::Io,
                        ..*self
                    },
                    self.joy_key@[1],
                )
            } else {
                (*self, 0)
            }
        } else {
            (*self, self.mapper.prg_read(address))
        }
    }

    #[verifier::opaque]
    pub open spec fn store_result(&self, address: u16, value: u8) -> Memory {
        if address < 0x2000 {
            Memory {
                mem_store_status: MemState::Memory,
                ram: vstd::array::spec_array_update(self.ram, address as int % 0x800, value),
                ..*self
            }
        } else if address < 0x4000 {
            Memory { mem_store_status: ppu_register_written(address), latch: value, ..*self }
        } else if address < 0x4020 {
            if address == OAMDMA {
                Memory { mem_store_status: MemState::Io, oamdma: Some(value), ..*self }
            } else if address == GAMEPAD1 {
                Memory { mem_store_status: MemState::Io, io_strobe: value, ..*self }
            } else {
                Memory { mem_store_status: MemState::Io, ..*self }
            }
        } else {
            Memory { mapper: self.mapper.prg_written(address, value), ..*self }
        }
    }

}

/// A pending DMA page as the debugger shows it: "None", or "Some(Wrapping(" and the page in
/// decimal and "))".
pub open spec fn page_text(page: Option<u8>) -> Seq<char> {
    match page {
        None => "None"@,
        Some(p) => "Some(Wrapping("@ + decimal(p as nat) + "))"@,
    }
}

impl Memory {
    /// The state of the memory as the debugger shows it: the latch, the pending DMA
    /// page and the bus status, then dumps of the RAM and the nametable RAM.
    pub open spec fn describe_spec(&self) -> Seq<char> {
        "{ latch: 0x"@ + hex_lower(self.latch as nat) + ", oamdma: "@ + page_text(self.oamdma)
            + ", mem_load_status: "@ + self.mem_load_status.name_spec() + ", mem_store_status: "@
            + self.mem_store_status.name_spec() + "}, \n "@ + "RAM: \n"@ + "RAM:\n"@ + dump(
            self.ram@,
            0x800,
        ) + "VRAM:\n"@ + dump(self.vram@, 0x800)
    }

    pub fn describe(&self) -> (r: String)
        ensures
            r@ == self.describe_spec(),
    {
        let mut out = String::from_str("{ latch: 0x");
        push_hex_lower(&mut out, self.latch as u16);
        out.append(", oamdma: ");
        match self.oamdma {
            None => out.append("None"),
            Some(p) => {
                out.append("Some(Wrapping(");
                push_decimal(&mut out, p as u16);
                out.append("))");
            },
        }
        out.append(", mem_load_status: ");
        out.append(self.mem_load_status.name());
        out.append(", mem_store_status: ");
        out.append(self.mem_store_status.name());
        out.append("}, \n ");
        out.append("RAM: \n");
        out.append("RAM:\n");
        print_mem(&mut out, &self.ram);
        out.append("VRAM:\n");
        print_mem(&mut out, &self.vram);
        assert(out@ =~= self.describe_spec());
        out
    }
}

impl LoadStore for Memory {
    open spec fn accessible(&self) -> bool {
        self.prg_ok()
    }

    open spec fn whole(&self) -> bool {
        self.wf()
    }

    /// Only reads that reach the cartridge (from 0x4020 on) ask anything of it: that
    /// the PRG ROM holds the byte read.
    open spec fn readable(&self, address: u16) -> bool {
        address < 0x4020 || self.mapper.prg_readable(address)
    }

    proof fn lemma_accessible_readable(&self, address: u16) {
        assert(self.mapper.prg_ok());
        lemma_prg_ok_readable(self.mapper, address);
        assert(self.readable(address));
    }

    /// RAM is mirrored every 2 KiB below 0x2000; the PPU registers every 8 bytes below
    /// 0x4000; 0x4016 and 0x4017 are the gamepads; from 0x4020 on the cartridge answers.
    open spec fn loaded(&self, address: u16) -> (Memory, u8) {
        self.load_result(address)
    }

    open spec fn stored(&self, address: u16, value: u8) -> Memory {
        self.store_result(address, value)
    }
    fn load(&mut self, address: u16) -> (r: u8) {
        reveal(Memory::load_result);
        let addr = address;
        if addr < 0x2000 {
            self.mem_load_status = MemState::Memory;
            // 2 KiB of RAM, mirrored up to 0x2000
            self.ram[(addr % 0x800) as usize]
        } else if addr < 0x4000 {
            let reg = addr % 8;
            let (stat, data) = if reg == 2 {
                (MemState::PpuStatus, self.ppu_read_regs.status)
            } else if reg == 4 {
                (MemState::OamData, self.ppu_read_regs.oam)
            } else if reg == 7 {
                (MemState::PpuData, self.ppu_read_regs.data)
            } else {
                (MemState::NoState, 0)
            };
            self.mem_load_status = stat;
            if stat != MemState::NoState {
                self.latch = data;
            }
            data
        } else if addr < 0x4020 {
            if addr == OAMDMA {
                0
            } else if addr == GAMEPAD1 {
                self.io_load_status = IoState::GamePad1;
                self.mem_load_status = MemState::Io;
                self.joy_key[0]
            } else if addr == GAMEPAD2 {
                self.io_load_status = IoState::GamePad2;
                self.mem_load_status = MemState::Io;
                self.joy_key[1]
            } else {
                0
            }
        } else {
            assert(self.readable(address));
            self.mapper.prg_load(address)
        }
    }

    fn store(&mut self, address: u16, value: u8) {
        reveal(Memory::store_result);
        let addr = address;
        if addr < 0x2000 {
            self.mem_store_status = MemState::Memory;
            self.ram[(addr % 0x800) as usize] = value;
        } else if addr < 0x4000 {
            let reg = addr % 8;
            self.mem_store_status = if reg == 0 {
                MemState::PpuCtrl
            } else if reg == 1 {
                MemState::PpuMask
            } else if reg == 3 {
                MemState::OamAddr
            } else if reg == 4 {
                MemState::OamData
            } else if reg == 5 {
                MemState::PpuScroll
            } else if reg == 6 {
                MemState::PpuAddr
            } else if reg == 7 {
                MemState::PpuData
            } else {
                MemState::NoState
            };
            self.latch = value;
        } else if addr < 0x4020 {
            self.mem_store_status = MemState::Io;
            if addr == OAMDMA {
                // Writing the OAMDMA port asks for a copy of the selected page into OAM.
                self.oamdma = Some(value);
            } else if addr == GAMEPAD1 {
                self.io_strobe = value;
            }
        } else {
            self.mapper.prg_store(address, value);
        }
    }
}

/// A read of internal RAM gives back the last byte written there: RAM holds 2 KiB and
/// is mirrored four times below 0x2000, so a write at `a` is seen at every address with
/// the same offset modulo 0x800, and at no other RAM address.
pub proof fn lemma_ram_read_after_write(m: Memory, a: u16, value: u8, b: u16)
    requires
        a < 0x2000,
        b < 0x2000,
    ensures
        a % 0x800 == b % 0x800 ==> m.stored(a, value).loaded(b).1 == value,
        a % 0x800 != b % 0x800 ==> m.stored(a, value).loaded(b).1 == m.loaded(b).1,
{
    reveal(Memory::load_result);
    reveal(Memory::store_result);
}

/// Reading RAM changes nothing but the bus status: the RAM, the nametable RAM, the
/// cartridge and the pending requests stay as they were.
pub proof fn lemma_ram_read_keeps_state(m: Memory, a: u16)
    requires
        a < 0x2000,
    ensures
        m.loaded(a).0 == (Memory { mem_load_status: MemState::Memory, ..m }),
        m.loaded(a).1 == m.ram@[a as int % 0x800],
{
    reveal(Memory::load_result);
}

/// Reads, and writes below the cartridge, keep the memory's validity.
pub proof fn lemma_access_keeps_wf(m: Memory, a: u16, b: u16, value: u8)
    ensures
        m.loaded(a).0.wf() == m.wf(),
        b < 0x4020 ==> m.stored(b, value).wf() == m.wf(),
{
    reveal(Memory::load_result);
    reveal(Memory::store_result);
}

/// What a read changes: only the bus status (and, for the readable PPU registers, the
/// latch, which takes the byte read). RAM, the cartridge, the nametable RAM, the
/// pending interrupt and DMA request, the strobe and the gamepad outputs are kept, so a
/// value left by `set_interrupt`, a write to OAMDMA or 0x4016, or a RAM write is still
/// there after any number of reads.
pub proof fn lemma_read_effects(m: Memory, a: u16)
    ensures
        ({
            let (m1, v) = m.loaded(a);
            &&& m1.ram == m.ram && m1.vram == m.vram && m1.mapper == m.mapper
            &&& m1.interrupt == m.interrupt && m1.oamdma == m.oamdma
            &&& m1.io_strobe == m.io_strobe && m1.joy_key == m.joy_key
            &&& m1.ppu_read_regs == m.ppu_read_regs
            &&& m1.mem_store_status == m.mem_store_status
            &&& m1.latch == if 0x2000 <= a < 0x4000 && ppu_register_read(m.ppu_read_regs, a).0
                != MemState::NoState {
                v
            } else {
                m.latch
            }
        }),
{
    reveal(Memory::load_result);
}

/// What a write changes: RAM at its offset (below 0x2000), the latch and the register
/// reached (0x2000-0x3FFF), the DMA request (0x4014), the strobe (0x4016), the bank
/// registers (from 0x4020); the pending interrupt, the nametable RAM and the gamepad
/// outputs are kept. A later `get_oamdma`, `get_strobe` or `get_latch` gives back what
/// the last such write left, whatever other accesses came between.
pub proof fn lemma_write_effects(m: Memory, a: u16, value: u8, i: int)
    requires
        0 <= i < 0x800,
    ensures
        ({
            let m1 = m.stored(a, value);
            &&& m1.ram@[i] == if a < 0x2000 && a % 0x800 == i { value } else { m.ram@[i] }
            &&& m1.latch == if 0x2000 <= a < 0x4000 { value } else { m.latch }
            &&& m1.oamdma == if a == OAMDMA { Some(value) } else { m.oamdma }
            &&& m1.io_strobe == if a == GAMEPAD1 { value } else { m.io_strobe }
            &&& a < 0x4020 ==> m1.mapper == m.mapper
            &&& m1.interrupt == m.interrupt && m1.vram == m.vram && m1.joy_key == m.joy_key
            &&& m1.ppu_read_regs == m.ppu_read_regs && m1.mem_load_status == m.mem_load_status
            &&& m1.io_load_status == m.io_load_status
        }),
{
    reveal(Memory::store_result);
}

/// A CPU access to memory: a read, or a write of a byte.
pub enum Access {
    Read(u16),
    Write(u16, u8),
}

/// The memory after a sequence of accesses, in order.
pub open spec fn accessed(m: Memory, s: Seq<Access>) -> Memory
    decreases s.len(),
{
    if s.len() == 0 {
        m
    } else {
        let m1 = accessed(m, s.drop_last());
        match s.last() {
            Access::Read(a) => m1.loaded(a).0,
            Access::Write(a, v) => m1.stored(a, v),
        }
    }
}

/// Whether an access writes RAM at offset `i`.
pub open spec fn writes_ram_at(x: Access, i: int) -> bool {
    match x {
        Access::Read(_) => false,
        Access::Write(a, _) => a < 0x2000 && a % 0x800 == i,
    }
}

/// RAM keeps a byte across any accesses that do not write RAM at its offset: after a
/// write of `value` at `a` below 0x2000 and such accesses, a read at any mirror of `a`
/// gives `value` (and marks the bus status as a memory read).
pub proof fn lemma_ram_read_after_accesses(m: Memory, a: u16, value: u8, s: Seq<Access>, b: u16)
    requires
        a < 0x2000,
        b < 0x2000,
        a % 0x800 == b % 0x800,
        forall|k: int| 0 <= k < s.len() ==> !writes_ram_at(#[trigger] s[k], a as int % 0x800),
    ensures
        accessed(m.stored(a, value), s).loaded(b).1 == value,
        accessed(m.stored(a, value), s).loaded(b).0.mem_load_status == MemState::Memory,
    decreases s.len(),
{
    lemma_ram_kept(m.stored(a, value), a as int % 0x800, s);
    lemma_write_effects(m, a, value, a as int % 0x800);
    lemma_ram_read_keeps_state(accessed(m.stored(a, value), s), b);
}

/// The byte of the last write to `a` among the accesses `s`, if there is one.
pub open spec fn last_write(s: Seq<Access>, a: u16) -> Option<u8>
    decreases s.len(),
{
    if s.len() == 0 {
        None
    } else {
        match s.last() {
            Access::Write(b, v) => if b == a {
                Some(v)
            } else {
                last_write(s.drop_last(), a)
            },
            Access::Read(_) => last_write(s.drop_last(), a),
        }
    }
}

/// What the CPU's accesses leave to the PPU and the gamepads: the registers the PPU
/// published and the gamepad outputs stay as they were (only `set_ppu_read_regs` and
/// `set_joy_key` change them), and the strobe is the last byte written to 0x4016.
pub proof fn lemma_published_across_accesses(m: Memory, s: Seq<Access>)
    ensures
        accessed(m, s).ppu_read_regs == m.ppu_read_regs,
        accessed(m, s).joy_key == m.joy_key,
        accessed(m, s).io_strobe == match last_write(s, GAMEPAD1) {
            Some(v) => v,
            None => m.io_strobe,
        },
    decreases s.len(),
{
    if s.len() > 0 {
        let t = s.drop_last();
        lemma_published_across_accesses(m, t);
        let m1 = accessed(m, t);
        match s.last() {
            Access::Read(a) => lemma_read_effects(m1, a),
            Access::Write(a, v) => lemma_write_effects(m1, a, v, 0),
        }
    }
}

/// Reads of the published registers: PPUSTATUS, OAMDATA and PPUDATA (and their mirrors
/// every eight bytes up to 0x3FFF) give what the PPU last published, and the gamepad
/// ports give the gamepads' outputs. With `lemma_published_across_accesses`: until the
/// next `set_ppu_read_regs` or `set_joy_key`, every such read gives what it set.
pub proof fn lemma_published_reads(m: Memory, a: u16)
    ensures
        0x2000 <= a < 0x4000 && a % 8 == 2 ==> m.loaded(a).1 == m.ppu_read_regs.status,
        0x2000 <= a < 0x4000 && a % 8 == 4 ==> m.loaded(a).1 == m.ppu_read_regs.oam,
        0x2000 <= a < 0x4000 && a % 8 == 7 ==> m.loaded(a).1 == m.ppu_read_regs.data,
        m.loaded(GAMEPAD1).1 == m.joy_key@[0],
        m.loaded(GAMEPAD2).1 == m.joy_key@[1],
        m.loaded(GAMEPAD1).0.io_load_status == IoState::GamePad1,
        m.loaded(GAMEPAD2).0.io_load_status == IoState::GamePad2,
{
    reveal(Memory::load_result);
}

proof fn lemma_ram_kept(m: Memory, i: int, s: Seq<Access>)
    requires
        0 <= i < 0x800,
        forall|k: int| 0 <= k < s.len() ==> !writes_ram_at(#[trigger] s[k], i),
    ensures
        accessed(m, s).ram@[i] == m.ram@[i],
    decreases s.len(),
{
    if s.len() > 0 {
        let t = s.drop_last();
        assert forall|k: int| 0 <= k < t.len() implies !writes_ram_at(#[trigger] t[k], i) by {
            assert(t[k] == s[k]);
        }
        lemma_ram_kept(m, i, t);
        let m1 = accessed(m, t);
        assert(!writes_ram_at(s[s.len() - 1], i));
        match s.last() {
            Access::Read(a) => lemma_read_effects(m1, a),
            Access::Write(a, v) => lemma_write_effects(m1, a, v, i),
        }
    }
}

/// Reads never change the pending DMA request, and writes change it only at OAMDMA.
pub proof fn lemma_access_keeps_oamdma(m: Memory, address: u16, value: u8)
    ensures
        m.loaded(address).0.oamdma == m.oamdma,
        address != OAMDMA ==> m.stored(address, value).oamdma == m.oamdma,
        m.loaded(address).0.wf() == m.wf(),
{
    reveal(Memory::load_result);
    reveal(Memory::store_result);
}

} // verus!
