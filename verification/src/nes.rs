use vstd::prelude::*;
use crate::controller::Controller;
use crate::cpu::{Cpu, cpu_default, cpu_reset, cpu_step, pending_cycles};
use crate::enums::{IoState, MemState};
use crate::header::{Header, decimal, has_signature, header_of};
use crate::loadstore::{LoadStore, next_address};
use crate::mapper::{Cartridge, Mapper};
use crate::mem::Memory;
use crate::ppu::{
    Ppu, PpuReadRegs, oam_shown, ppu_step, frame_dot, reads_patterns, lemma_step_ignores_picture,
    lemma_patterns_ignore_picture,
};

verus! {

/// The console: CPU, PPU, memory and gamepads.
pub struct Nes {
    pub cpu: Cpu,
    pub ppu: Ppu,
    pub mem: Memory,
    pub pad: Controller,
    pub keys: [[u8; 8]; 2],
}

/// A ROM image is accepted when it has an iNES header, holds the ROM data that the
/// header announces, and names a known mapper.
pub open spec fn rom_accepted(rom: Seq<u8>) -> bool {
    &&& rom.len() >= 16
    &&& has_signature(rom)
    &&& header_of(rom).data_present(rom)
    &&& Header::known_mapper(header_of(rom).mapper)
}

/// Why a ROM image is refused.
pub open spec fn rom_error(rom: Seq<u8>) -> Seq<char> {
    if rom.len() < 16 {
        "Couldn't read ROM header"@
    } else if !has_signature(rom) {
        "Invalid iNES Header"@
    } else if !header_of(rom).data_present(rom) {
        "Couldn't read ROM data"@
    } else {
        "Unrecognized Mapper "@ + decimal(header_of(rom).mapper as nat)
    }
}

/// Memory after the gamepads have published their outputs and the port status was read.
pub open spec fn after_pad(pad: Controller, m: Memory) -> Memory {
    Memory {
        joy_key: vstd::array::spec_array_update(
            vstd::array::spec_array_update(m.joy_key, 0, pad.gamepad1.output()),
            1,
            pad.gamepad2.output(),
        ),
        io_load_status: IoState::NoState,
        ..m
    }
}

/// The console after one CPU cycle, but for the PPU's picture (see
/// `frame_after_cycle`): the gamepads publish their outputs and advance, then the CPU
/// runs a cycle and the PPU three dots.
pub open spec fn console_step(n: Nes) -> (Cpu, Ppu, Memory, Controller) {
    let m0 = after_pad(n.pad, n.mem);
    let (c, m1) = cpu_step(n.cpu, m0);
    let (p1, m2) = ppu_step(n.ppu, m1);
    let (p2, m3) = ppu_step(p1, m2);
    let (p3, m4) = ppu_step(p2, m3);
    (c, p3, m4, n.pad.stepped(n.mem, n.keys))
}

/// Whether a dot of the CPU cycle would read the pattern tables while the selected CHR
/// bank (after the CPU's part of the cycle) lies outside the CHR ROM.
pub open spec fn cycle_needs_missing_chr(n: Nes) -> bool {
    let m0 = after_pad(n.pad, n.mem);
    let (c, m1) = cpu_step(n.cpu, m0);
    let (p1, m2) = ppu_step(n.ppu, m1);
    let (p2, m3) = ppu_step(p1, m2);
    &&& !m1.mapper.chr_ok()
    &&& reads_patterns(n.ppu, m1) || reads_patterns(p1, m2) || reads_patterns(p2, m3)
}

/// Whether one of the three dots of a CPU cycle is the one at which the OAM is shown.
pub open spec fn oam_shown_in_cycle(n: Nes) -> bool {
    let m0 = after_pad(n.pad, n.mem);
    let (c, m1) = cpu_step(n.cpu, m0);
    let (p1, m2) = ppu_step(n.ppu, m1);
    let (p2, m3) = ppu_step(p1, m2);
    oam_shown(n.ppu, m1) || oam_shown(p1, m2) || oam_shown(p2, m3)
}

/// The picture `frame` after one CPU cycle: three dots drawn in turn.
pub open spec fn frame_after_cycle_from(n: Nes, frame: Seq<u8>) -> Seq<u8> {
    let m0 = after_pad(n.pad, n.mem);
    let (c, m1) = cpu_step(n.cpu, m0);
    let (p1, m2) = ppu_step(n.ppu, m1);
    let (p2, m3) = ppu_step(p1, m2);
    frame_dot(p2, m3, frame_dot(p1, m2, frame_dot(n.ppu, m1, frame)))
}

/// The PPU's picture after one CPU cycle.
pub open spec fn frame_after_cycle(n: Nes) -> Seq<u8> {
    frame_after_cycle_from(n, n.ppu.frame_data@)
}

/// `a` is `b` but for the PPU's picture.
pub open spec fn same_but_picture(a: Nes, b: Nes) -> bool {
    a == (Nes { ppu: Ppu { frame_data: a.ppu.frame_data, ..b.ppu }, ..b })
}

/// The console (but for the PPU's picture) and the picture after `k` CPU cycles from
/// `n` with the picture `frame`.
pub open spec fn run(n: Nes, frame: Seq<u8>, k: nat) -> (Nes, Seq<u8>)
    decreases k,
{
    if k == 0 {
        (n, frame)
    } else {
        let (n1, f1) = run(n, frame, (k - 1) as nat);
        let (c, p, m, pad) = console_step(n1);
        (Nes { cpu: c, ppu: p, mem: m, pad: pad, keys: n1.keys }, frame_after_cycle_from(n1, f1))
    }
}

/// `b` is the console `a` after one CPU cycle.
pub open spec fn cycled(a: Nes, b: Nes) -> bool {
    &&& b.cpu == console_step(a).0
    &&& b.ppu == (Ppu { frame_data: b.ppu.frame_data, ..console_step(a).1 })
    &&& b.ppu.frame_data@ == frame_after_cycle(a)
    &&& b.mem == console_step(a).2
    &&& b.pad == console_step(a).3
    &&& b.keys == a.keys
}

/// `b` is the console `a` after whole cycles run until the instruction in flight
/// completes (at most 1123 of them).
pub open spec fn instruction_run(a: Nes, b: Nes) -> bool {
    exists|k: nat|
        1 <= k <= 1123 && same_but_picture(b, #[trigger] run(a, a.ppu.frame_data@, k).0)
            && b.ppu.frame_data@ == run(a, a.ppu.frame_data@, k).1 && forall|j: nat|
            j < k ==> #[trigger] run(a, a.ppu.frame_data@, j).0.cpu.execution.instructions
                == a.cpu.execution.instructions
}

/// Whether one of the first `k` cycles from `a` showed the OAM.
pub open spec fn oam_shown_in_run(a: Nes, k: nat) -> bool {
    exists|j: nat| j < k && #[trigger] oam_shown_in_cycle(run(a, a.ppu.frame_data@, j).0)
}

/// `b` is `a` after the cycles of an instruction, as in `instruction_run`, and `shown`
/// tells whether one of those cycles showed the OAM.
pub open spec fn instruction_run_showing(a: Nes, b: Nes, shown: bool) -> bool {
    exists|k: nat|
        1 <= k <= 1123 && same_but_picture(b, #[trigger] run(a, a.ppu.frame_data@, k).0)
            && b.ppu.frame_data@ == run(a, a.ppu.frame_data@, k).1 && shown == oam_shown_in_run(
            a,
            k,
        )
}

/// A cycle's work does not depend on the picture drawn so far.
pub proof fn lemma_cycle_ignores_picture(n: Nes, f: Vec<u8>, frame: Seq<u8>)
    ensures
        ({
            let x = Nes { ppu: Ppu { frame_data: f, ..n.ppu }, ..n };
            let (c, p, m, pad) = console_step(n);
            &&& console_step(x) == (c, Ppu { frame_data: f, ..p }, m, pad)
            &&& frame_after_cycle_from(x, frame) == frame_after_cycle_from(n, frame)
            &&& oam_shown_in_cycle(x) == oam_shown_in_cycle(n)
        }),
{
    let x = Nes { ppu: Ppu { frame_data: f, ..n.ppu }, ..n };
    let m0 = after_pad(n.pad, n.mem);
    let (c, m1) = cpu_step(n.cpu, m0);
    lemma_step_ignores_picture(n.ppu, m1, f, frame);
    let (p1, m2) = ppu_step(n.ppu, m1);
    let (q1, _) = ppu_step(x.ppu, m1);
    assert(q1 == Ppu { frame_data: f, ..p1 });
    lemma_step_ignores_picture(p1, m2, f, frame_dot(n.ppu, m1, frame));
    let (p2, m3) = ppu_step(p1, m2);
    lemma_step_ignores_picture(p2, m3, f, frame_dot(p1, m2, frame_dot(n.ppu, m1, frame)));
}

impl Nes {
    pub open spec fn wf(&self) -> bool {
        &&& self.cpu.wf()
        &&& self.ppu.wf()
        &&& self.mem.wf()
        &&& self.pad.wf()
    }

    /// Cycles before the pending instruction runs.
    pub open spec fn pending(&self) -> int {
        pending_cycles(self.cpu, self.mem)
    }

    /// Builds a console for a ROM image in iNES format.
    pub fn new(rom: &[u8]) -> (r: Result<Nes, String>)
        ensures
            r is Ok <==> rom_accepted(rom@),
            r matches Err(e) ==> e@ == rom_error(rom@),
            r matches Ok(n) ==> {
                &&& n.cpu == cpu_default()
                &&& Ppu::powered_up(n.ppu)
                &&& n.pad.wf()
                &&& n.pad.gamepad1.key == 0 && n.pad.gamepad2.key == 0
                &&& n.pad.gamepad1.joykeys@ == seq![0u8; 8] && n.pad.gamepad2.joykeys@ == seq![0u8; 8]
                &&& n.mem.mapper.number() == header_of(rom@).mapper
                &&& n.mem.mapper.banks_reset()
                &&& header_of(rom@).memory_of(n.mem.mapper.game_memory(), rom@)
                &&& n.mem.ram@ == Seq::new(0x800, |i: int| 0u8)
                &&& n.mem.vram@ == Seq::new(0x800, |i: int| 0u8)
                &&& n.mem.oamdma is None
                &&& n.mem.interrupt is None
                &&& n.mem.mem_load_status == MemState::NoState
                &&& n.mem.mem_store_status == MemState::NoState
                &&& n.mem.io_load_status == IoState::NoState
                &&& n.mem.latch == 0 && n.mem.io_strobe == 0
                &&& n.mem.joy_key@ == seq![0u8, 0u8]
                &&& n.mem.ppu_read_regs == (PpuReadRegs { data: 0, oam: 0, status: 0 })
                &&& forall|i: int, j: int| 0 <= i < 2 && 0 <= j < 8 ==> #[trigger] n.keys@[i]@[j] == 0
                &&& n.mem.mapper.wf() ==> n.wf()
                &&& n.mem.mapper.prg_ok() ==> n.runs()
            },
    {
        let mut header = match Header::load_rom(rom) {
            Ok(h) => h,
            Err(e) => {
                return Err(e);
            },
        };
        let mapper = match header.get_mapper(rom) {
            Ok(m) => m,
            Err(e) => {
                return Err(e);
            },
        };
        Ok(
            Nes {
                cpu: Cpu::default(),
                ppu: Ppu::new(),
                mem: Memory::new(mapper),
                pad: Controller::new(),
                keys: [[0u8; 8]; 2],
            },
        )
    }

    /// Whether the cartridge's ROMs are large enough for every bank it can select.
    pub fn is_valid(&self) -> (r: bool)
        ensures
            r == self.mem.mapper.wf(),
    {
        self.mem.mapper.is_valid()
    }

    /// Whether every CPU read of the cartridge can be served, whatever bank a write
    /// selects (the CHR side is checked dot by dot, see `cycle_checked`).
    pub fn can_run(&self) -> (r: bool)
        ensures
            r == self.mem.mapper.prg_ok(),
    {
        self.mem.mapper.prg_valid()
    }

    /// What one CPU cycle takes: every part well formed and every CPU read of the
    /// cartridge served; unlike `wf`, CHR banks the cartridge lacks are allowed.
    pub open spec fn runs(&self) -> bool {
        &&& self.cpu.wf()
        &&& self.ppu.wf()
        &&& self.mem.prg_ok()
        &&& self.pad.wf()
    }

    /// One CPU cycle, checked: it stops, with `None`, before a dot that may read the
    /// pattern tables (rendering on, or a read of PPUDATA) while the selected CHR bank
    /// lies outside the CHR ROM; otherwise it does what `cycle` does.
    pub fn cycle_checked(&mut self) -> (r: Option<bool>)
        requires
            old(self).runs(),
            old(self).cpu.cycles < u64::MAX,
            old(self).ppu.frames < u64::MAX - 3,
        ensures
            final(self).runs(),
            old(self).wf() ==> final(self).wf(),
            r is None <==> cycle_needs_missing_chr(*old(self)),
            old(self).wf() ==> r is Some,
            r is Some ==> {
                &&& cycled(*old(self), *final(self))
                &&& r->0 == oam_shown_in_cycle(*old(self))
                &&& final(self).cpu == cpu_step(old(self).cpu, after_pad(old(self).pad, old(self).mem)).0
                &&& final(self).cpu.cycles == old(self).cpu.cycles + 1
                &&& final(self).ppu.frames <= old(self).ppu.frames + 3
                &&& final(self).keys == old(self).keys
                &&& (final(self).cpu.execution.instructions == old(self).cpu.execution.instructions
                    || final(self).cpu.execution.instructions == ((
                    old(self).cpu.execution.instructions + 1) % 0x1_0000_0000_0000_0000) as u64)
                &&& (final(self).cpu.execution.instructions == old(self).cpu.execution.instructions
                    ==> final(self).pending() < old(self).pending())
            },
    {
        self.pad.cycle(&mut self.mem, &self.keys);
        let ghost expected = after_pad(old(self).pad, old(self).mem);
        assert(self.mem.joy_key@ =~= expected.joy_key@);
        assert(self.mem.joy_key =~= expected.joy_key);
        assert(self.mem == expected);
        self.cpu.cycle(&mut self.mem);
        let ghost m1 = self.mem;
        let ghost p0 = self.ppu;
        let chr = self.mem.mapper.chr_valid();
        if !chr && self.ppu.reads_patterns_next(&self.mem) {
            return None;
        }
        let s1 = self.ppu.cycle(&mut self.mem);
        let ghost (q1, m2) = ppu_step(p0, m1);
        let ghost f1 = self.ppu.frame_data;
        assert(self.ppu == Ppu { frame_data: f1, ..q1 });
        proof {
            lemma_step_ignores_picture(q1, m2, f1, f1@);
            lemma_patterns_ignore_picture(q1, m2, f1);
        }
        if !chr && self.ppu.reads_patterns_next(&self.mem) {
            return None;
        }
        let s2 = self.ppu.cycle(&mut self.mem);
        let ghost (q2, m3) = ppu_step(q1, m2);
        let ghost f2 = self.ppu.frame_data;
        assert(self.ppu == Ppu { frame_data: f2, ..q2 });
        proof {
            lemma_step_ignores_picture(q2, m3, f2, f2@);
            lemma_patterns_ignore_picture(q2, m3, f2);
        }
        if !chr && self.ppu.reads_patterns_next(&self.mem) {
            return None;
        }
        let s3 = self.ppu.cycle(&mut self.mem);
        Some(s1 || s2 || s3)
    }

    // This function does a complete CPU cycle
    // Including joy I/O and 3 PPU cycles.
    /// One CPU cycle; the result tells whether the OAM is to be shown (see
    /// `oam_shown`).
    pub fn cycle(&mut self) -> (r: bool)
        requires
            old(self).wf(),
            old(self).cpu.cycles < u64::MAX,
            old(self).ppu.frames < u64::MAX - 3,
        ensures
            final(self).wf(),
            cycled(*old(self), *final(self)),
            r == oam_shown_in_cycle(*old(self)),
            final(self).cpu == cpu_step(old(self).cpu, after_pad(old(self).pad, old(self).mem)).0,
            final(self).cpu.cycles == old(self).cpu.cycles + 1,
            final(self).ppu.frames <= old(self).ppu.frames + 3,
            final(self).keys == old(self).keys,
            final(self).cpu.execution.instructions == old(self).cpu.execution.instructions
                || final(self).cpu.execution.instructions == ((old(self).cpu.execution.instructions
                + 1) % 0x1_0000_0000_0000_0000) as u64,
            final(self).cpu.execution.instructions == old(self).cpu.execution.instructions
                ==> final(self).pending() < old(self).pending(),
    {
        match self.cycle_checked() {
            Some(shown) => shown,
            None => false,
        }
    }

    // This function steps a single cpu instruction
    /// Runs the instruction in flight; the result tells whether one of its cycles showed
    /// the OAM.
    #[verifier::rlimit(50)]
    #[verifier::spinoff_prover]
    pub fn step(&mut self) -> (shown: bool)
        requires
            old(self).wf(),
            old(self).cpu.cycles < u64::MAX - 2000,
            old(self).ppu.frames < u64::MAX - 4000,
        ensures
            final(self).wf(),
            final(self).cpu.execution.instructions == ((old(self).cpu.execution.instructions + 1)
                % 0x1_0000_0000_0000_0000) as u64,
            final(self).keys == old(self).keys,
            instruction_run(*old(self), *final(self)),
            instruction_run_showing(*old(self), *final(self), shown),
            old(self).cpu.cycles < final(self).cpu.cycles <= old(self).cpu.cycles + 1123,
            final(self).ppu.frames <= old(self).ppu.frames + 3 * (final(self).cpu.cycles
                - old(self).cpu.cycles),
    {
        let start = self.cpu.instruction_count();
        let next = start.wrapping_add(1);
        let ghost start_cycles = self.cpu.cycles;
        let ghost start_frames = self.ppu.frames;
        let ghost start_pending = self.pending();
        let ghost n0 = *self;
        let ghost f0 = self.ppu.frame_data@;
        let ghost mut i: nat = 0;
        let mut shown = false;
        while self.cpu.instruction_count() != next
            invariant
                shown == oam_shown_in_run(n0, i),
                same_but_picture(*self, run(n0, f0, i).0),
                self.ppu.frame_data@ == run(n0, f0, i).1,
                i == self.cpu.cycles - start_cycles,
                n0 == *old(self),
                f0 == old(self).ppu.frame_data@,
                start_cycles == old(self).cpu.cycles,
                start == old(self).cpu.execution.instructions,
                forall|j: nat| j < i ==> #[trigger] run(n0, f0, j).0.cpu.execution.instructions == start,
                self.wf(),
                next == ((start + 1) % 0x1_0000_0000_0000_0000) as u64,
                self.cpu.execution.instructions == start || self.cpu.execution.instructions
                    == next,
                start_pending <= 1122,
                self.pending() >= 0,
                self.cpu.execution.instructions == start ==> self.cpu.cycles + self.pending()
                    <= start_cycles + start_pending,
                self.cpu.cycles <= start_cycles + 1123,
                start_cycles < u64::MAX - 2000,
                self.ppu.frames <= start_frames + 3 * (self.cpu.cycles - start_cycles),
                start_frames < u64::MAX - 4000,
                self.cpu.cycles >= start_cycles,
                self.keys == old(self).keys,
            decreases
                if self.cpu.execution.instructions == next {
                    0
                } else {
                    self.pending() + 1
                },
        {
            proof {
                let (r, fr) = run(n0, f0, i);
                lemma_cycle_ignores_picture(r, self.ppu.frame_data, fr);
                assert(r.cpu.execution.instructions == start);
            }
            let s = self.cycle();
            shown = shown || s;
            proof {
                assert(oam_shown_in_run(n0, (i + 1) as nat) == (oam_shown_in_run(n0, i)
                    || oam_shown_in_cycle(run(n0, f0, i).0)));
                i = i + 1;
            }
        }
        assert(run(n0, f0, i).0.cpu.execution.instructions == next);
        shown
    }

    pub fn set_keys(&mut self, keys: &[[u8; 8]; 2])
        ensures
            *final(self) == (Nes { keys: *keys, ..*old(self) }),
    {
        self.keys = *keys;
    }

    pub fn reset(&mut self)
        requires
            old(self).mem.prg_ok(),
        ensures
            final(self).cpu == cpu_reset(old(self).mem).0,
            final(self).mem == cpu_reset(old(self).mem).1,
            final(self).mem.prg_ok(),
            old(self).mem.wf() ==> final(self).mem.wf(),
            old(self).runs() ==> final(self).runs(),
            final(self).ppu == old(self).ppu,
            final(self).pad == old(self).pad,
            final(self).keys == old(self).keys,
            old(self).wf() ==> final(self).wf(),
    {
        self.cpu.reset(&mut self.mem);
    }

    pub fn cpu(&self) -> (r: &Cpu)
        ensures
            *r == self.cpu,
    {
        &self.cpu
    }

    pub fn ppu(&self) -> (r: &Ppu)
        ensures
            *r == self.ppu,
    {
        &self.ppu
    }
}

} // verus!
