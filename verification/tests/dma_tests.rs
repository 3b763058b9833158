use rnes::loadstore::LoadStore;
use rnes::nes::Nes;

fn console() -> Nes {
    let mut rom = vec![0x4E, 0x45, 0x53, 0x1A, 1, 1, 0, 0, 0, 0, 0, 0, 0, 0, 0, 0];
    rom.extend(vec![0xEAu8; 0x4000]);
    rom.extend(vec![0u8; 0x2000]);
    let mut nes = Nes::new(&rom).unwrap();
    nes.reset();
    nes
}

#[test]
fn sprite_dma_copies_a_page_into_oam() {
    let mut nes = console();
    for i in 0..256u16 {
        nes.mem.store(0x0200 + i, (i as u8) ^ 0x5A);
    }
    nes.mem.store(0x4014, 0x02);
    // One cycle to start, then 512 cycles of transfer that hold the CPU
    for _ in 0..513 {
        nes.cycle();
        assert_eq!(nes.cpu().instruction_count(), 0);
    }
    assert_eq!(nes.cpu.dma.cycles_left, 0);
    for i in 0..256usize {
        assert_eq!(nes.ppu.oam.mem[i], (i as u8) ^ 0x5A);
    }
    assert_eq!(nes.ppu.oam.address, 0);
    assert_eq!(nes.cpu().cycle_count(), 513);
    // The CPU resumes: the instruction in flight needs its last cycle
    nes.cycle();
    assert_eq!(nes.cpu().instruction_count(), 0);
    nes.cycle();
    assert_eq!(nes.cpu().instruction_count(), 1);
}

#[test]
fn sprite_dma_on_an_odd_cycle_waits_one_more() {
    let mut nes = console();
    nes.cycle();
    nes.mem.store(0x4014, 0x03);
    nes.cycle();
    assert_eq!(nes.cpu.dma.cycles_left, 513);
    for _ in 0..513 {
        nes.cycle();
    }
    assert_eq!(nes.cpu.dma.cycles_left, 0);
}
