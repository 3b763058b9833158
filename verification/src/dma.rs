use vstd::prelude::*;
use crate::loadstore::LoadStore;
use crate::mem::{Memory, OAMDMA, lemma_access_keeps_oamdma, lemma_access_keeps_wf};

verus! {

broadcast use crate::mapper::lemma_prg_ok_readable;

pub const OAMDATA: u16 = 0x2004;
pub const DMA_CYCLES: u32 = 512;

/// The sprite DMA unit: copies a page of CPU memory into OAM, a byte every two cycles.
#[derive(Clone, Copy, Debug)]
pub struct DMA {
    pub cycles_left: u32,
    pub address: u16,
    pub value: u8,
}

impl Default for DMA {
    fn default() -> (r: DMA)
        ensures
            r == (DMA { cycles_left: 0, address: 0, value: 0 }),
    {
        DMA { cycles_left: 0, address: 0, value: 0 }
    }
}

/// One transfer cycle: the count goes down; past the idle cycle, odd counts read the
/// next byte of the page and even counts write it to OAMDATA.
pub open spec fn dma_execute(d: DMA, m: Memory) -> (DMA, Memory) {
    let left = (d.cycles_left - 1) as u32;
    if left < DMA_CYCLES {
        if left % 2 == 1 {
            let (m1, v) = m.loaded(d.address);
            (DMA { cycles_left: left, value: v, address: ((d.address + 1) % 0x10000) as u16 }, m1)
        } else {
            (DMA { cycles_left: left, ..d }, m.stored(OAMDATA, d.value))
        }
    } else {
        (DMA { cycles_left: left, ..d }, m)
    }
}

/// The DMA state and memory after one cycle, and whether the DMA held the CPU in it.
/// A pending request starts a transfer of 512 cycles, one more when it starts on an odd
/// cycle.
pub open spec fn dma_step(d: DMA, m: Memory, cycles: u64) -> (DMA, Memory, bool) {
    if d.cycles_left > 0 {
        let (d1, m1) = dma_execute(d, m);
        (d1, m1, true)
    } else if m.oamdma is Some {
        (
            DMA {
                address: (m.oamdma->0 * 0x100) as u16,
                cycles_left: (DMA_CYCLES + cycles % 2) as u32,
                ..d
            },
            Memory { oamdma: None, ..m },
            true,
        )
    } else {
        (d, m, false)
    }
}

impl DMA {
    /// Returns true if DMA is active
    pub fn cycle(&mut self, memory: &mut Memory, cycles: u64) -> (r: bool)
        requires
            old(memory).prg_ok(),
        ensures
            (*final(self), *final(memory), r) == dma_step(*old(self), *old(memory), cycles),
            final(memory).prg_ok(),
            old(memory).wf() ==> final(memory).wf(),
            r == (old(self).cycles_left > 0 || old(memory).oamdma is Some),
            old(self).cycles_left <= 513 ==> final(self).cycles_left <= 513,
            old(self).cycles_left > 0 ==> final(self).cycles_left == old(self).cycles_left - 1
                && final(memory).oamdma == old(memory).oamdma,
            old(self).cycles_left == 0 ==> final(memory).oamdma is None,
            !r ==> *final(memory) == *old(memory) && *final(self) == *old(self),
    {
        if self.cycles_left > 0 {
            proof {
                lemma_access_keeps_oamdma(*memory, self.address, 0);
                lemma_access_keeps_oamdma(*memory, OAMDATA, self.value);
            }
            self.execute(memory);
            true
        } else if let Some(page) = memory.get_oamdma() {
            self.start(page, cycles);
            true
        } else {
            false
        }
    }

    fn start(&mut self, page: u8, cycles: u64)
        ensures
            *final(self) == (DMA {
                address: (page * 0x100) as u16,
                cycles_left: (DMA_CYCLES + cycles % 2) as u32,
                ..*old(self)
            }),
    {
        self.address = (page as u16) * 0x100;
        // Additional cycle if on odd cycle
        self.cycles_left = DMA_CYCLES + (cycles % 2) as u32;
    }

    fn execute(&mut self, memory: &mut Memory)
        requires
            old(memory).prg_ok(),
            old(self).cycles_left > 0,
        ensures
            (*final(self), *final(memory)) == dma_execute(*old(self), *old(memory)),
            final(memory).prg_ok(),
            old(memory).wf() ==> final(memory).wf(),
    {
        self.cycles_left = self.cycles_left - 1;
        // Simulate idle cycles
        if self.cycles_left < DMA_CYCLES {
            // Read on odd cycles and write on even cycles
            if self.cycles_left % 2 == 1 {
                self.value = memory.load(self.address);
                self.address = self.address.wrapping_add(1);
            } else {
                memory.store(OAMDATA, self.value);
            }
        }
    }
}

/// The DMA unit and memory after `n` transfer cycles.
pub open spec fn dma_run(d: DMA, m: Memory, n: nat) -> (DMA, Memory)
    decreases n,
{
    if n == 0 {
        (d, m)
    } else {
        let (d1, m1) = dma_run(d, m, (n - 1) as nat);
        dma_execute(d1, m1)
    }
}

/// A sprite DMA transfer copies the page byte by byte: from the start of the 512
/// transfer cycles, each pair of cycles reads the next byte of the page (at the source
/// address, which then moves on by one) and writes it to OAMDATA; after `2k` cycles
/// `k` bytes have been copied and `512 - 2k` cycles are left.
pub proof fn lemma_dma_copies_page(d: DMA, m: Memory, k: nat)
    requires
        d.cycles_left == DMA_CYCLES,
        1 <= k <= 256,
    ensures
        ({
            let (d1, m1) = dma_run(d, m, (2 * k - 2) as nat);
            let (m2, v) = m1.loaded(d1.address);
            &&& d1.cycles_left == DMA_CYCLES - 2 * (k - 1)
            &&& d1.address == (d.address + k - 1) % 0x10000
            &&& dma_run(d, m, 2 * k) == (
                DMA {
                    cycles_left: (DMA_CYCLES - 2 * k) as u32,
                    address: ((d1.address + 1) % 0x10000) as u16,
                    value: v,
                },
                m2.stored(OAMDATA, v),
            )
        }),
    decreases k,
{
    if k > 1 {
        lemma_dma_copies_page(d, m, (k - 1) as nat);
    }
    let (d1, m1) = dma_run(d, m, (2 * k - 2) as nat);
    assert(dma_run(d, m, (2 * k - 1) as nat) == dma_execute(d1, m1));
    assert(dma_run(d, m, 2 * k) == dma_execute(dma_run(d, m, (2 * k - 1) as nat).0, dma_run(d, m, (2 * k - 1) as nat).1));
}

/// A transfer that starts on an odd CPU cycle waits one idle cycle, then runs as one
/// that starts on an even cycle.
pub proof fn lemma_dma_idle_cycle(d: DMA, m: Memory)
    requires
        d.cycles_left == DMA_CYCLES + 1,
    ensures
        dma_execute(d, m) == (DMA { cycles_left: DMA_CYCLES, ..d }, m),
{
}

/// Each transfer cycle counts down by one and leaves a pending request as it was.
proof fn lemma_dma_run_counts(d: DMA, m: Memory, k: nat)
    requires
        k <= d.cycles_left,
    ensures
        dma_run(d, m, k).0.cycles_left == d.cycles_left - k,
        dma_run(d, m, k).1.oamdma == m.oamdma,
        dma_run(d, m, k).1.wf() == m.wf(),
    decreases k,
{
    if k > 0 {
        lemma_dma_run_counts(d, m, (k - 1) as nat);
        let (d1, m1) = dma_run(d, m, (k - 1) as nat);
        lemma_access_keeps_oamdma(m1, d1.address, d1.value);
        lemma_access_keeps_oamdma(m1, OAMDATA, d1.value);
        lemma_access_keeps_wf(m1, d1.address, OAMDATA, d1.value);
    }
}

/// A sprite DMA request holds the CPU: the cycle that takes the request starts a
/// transfer of 512 cycles, 513 when it starts on an odd CPU cycle; each of those cycles
/// is a DMA cycle too, and after the last one the CPU is released unless OAMDMA was
/// written again.
pub proof fn lemma_dma_holds_cpu(d: DMA, m: Memory, cycles: u64, k: nat)
    requires
        d.cycles_left == 0,
        m.oamdma is Some,
        k <= DMA_CYCLES + cycles % 2,
    ensures
        ({
            let (d1, m1, active) = dma_step(d, m, cycles);
            let (dk, mk) = dma_run(d1, m1, k);
            &&& active
            &&& d1.cycles_left == DMA_CYCLES + cycles % 2
            &&& mk.oamdma is None
            &&& forall|c: u64| #[trigger] dma_step(dk, mk, c).2 == (k < DMA_CYCLES + cycles % 2)
            &&& forall|c: u64| k < DMA_CYCLES + cycles % 2 ==> (#[trigger] dma_step(dk, mk, c).0,
                dma_step(dk, mk, c).1) == dma_run(d1, m1, k + 1)
        }),
{
    let (d1, m1, active) = dma_step(d, m, cycles);
    lemma_dma_run_counts(d1, m1, k);
}

} // verus!
