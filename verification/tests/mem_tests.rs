use rnes::enums::{Interrupt, IoState, MemState};
use rnes::loadstore::LoadStore;
use rnes::mapper::{GameMemory, Nrom};
use rnes::mem::Memory;
use rnes::ppu::PpuReadRegs;

fn game_memory(vmirror: bool) -> GameMemory {
    GameMemory {
        prg_rom: (0..0x4000u32).map(|i| (i % 251) as u8).collect(),
        prg_ram: vec![0; 0x2000],
        prg_bat: vec![],
        chr_rom: (0..0x2000u32).map(|i| (i % 253) as u8).collect(),
        chr_ram: vec![],
        chr_bat: vec![],
        vmirror,
        screen4: false,
    }
}

fn memory() -> Memory {
    Memory::new(Nrom::new_boxed(game_memory(true)))
}

#[test]
fn ram_is_mirrored_every_2k() {
    let mut m = memory();
    m.store(0x0001, 0x42);
    assert_eq!(m.load(0x0001), 0x42);
    assert_eq!(m.load(0x0801), 0x42);
    assert_eq!(m.load(0x1001), 0x42);
    assert_eq!(m.load(0x1801), 0x42);
    assert_eq!(m.load(0x0002), 0);
    m.store(0x1FFF, 0x99);
    assert_eq!(m.load(0x07FF), 0x99);
}

#[test]
fn ram_access_sets_the_bus_status() {
    let mut m = memory();
    m.load(0x0010);
    assert_eq!(m.ppu_load_status(), MemState::Memory);
    assert_eq!(m.ppu_load_status(), MemState::NoState);
    m.store(0x0010, 1);
    assert_eq!(m.get_latch(), (0, MemState::Memory));
    assert_eq!(m.get_latch(), (0, MemState::NoState));
}

#[test]
fn ppu_registers_read() {
    let mut m = memory();
    m.set_ppu_read_regs(PpuReadRegs { data: 1, oam: 2, status: 3 });
    assert_eq!(m.load(0x2002), 3);
    assert_eq!(m.ppu_load_status(), MemState::PpuStatus);
    assert_eq!(m.load(0x200A), 3);
    assert_eq!(m.load(0x2004), 2);
    assert_eq!(m.ppu_load_status(), MemState::OamData);
    assert_eq!(m.load(0x3FFF), 1);
    assert_eq!(m.ppu_load_status(), MemState::PpuData);
    // Write-only registers read as 0
    assert_eq!(m.load(0x2000), 0);
    assert_eq!(m.ppu_load_status(), MemState::NoState);
}

#[test]
fn ppu_register_writes_latch_the_byte() {
    let mut m = memory();
    m.store(0x2006, 0x3F);
    assert_eq!(m.get_latch(), (0x3F, MemState::PpuAddr));
    assert_eq!(m.get_latch(), (0x3F, MemState::NoState));
    m.store(0x2000, 0x80);
    assert_eq!(m.get_latch(), (0x80, MemState::PpuCtrl));
    m.store(0x2001, 0x18);
    assert_eq!(m.get_latch(), (0x18, MemState::PpuMask));
    m.store(0x2003, 0x00);
    assert_eq!(m.get_latch(), (0x00, MemState::OamAddr));
    m.store(0x2004, 0x11);
    assert_eq!(m.get_latch(), (0x11, MemState::OamData));
    m.store(0x2005, 0x22);
    assert_eq!(m.get_latch(), (0x22, MemState::PpuScroll));
    m.store(0x2007, 0x33);
    assert_eq!(m.get_latch(), (0x33, MemState::PpuData));
    // The status register is read only
    m.store(0x2002, 0x44);
    assert_eq!(m.get_latch(), (0x44, MemState::NoState));
}

#[test]
fn oam_dma_request() {
    let mut m = memory();
    assert_eq!(m.get_oamdma(), None);
    m.store(0x4014, 0x02);
    assert_eq!(m.get_latch(), (0, MemState::Io));
    assert_eq!(m.get_oamdma(), Some(0x02));
    assert_eq!(m.get_oamdma(), None);
    // Reading the port requests nothing
    assert_eq!(m.load(0x4014), 0);
    assert_eq!(m.get_oamdma(), None);
}

#[test]
fn gamepad_ports() {
    let mut m = memory();
    m.set_joy_key(0, 1);
    m.set_joy_key(1, 0);
    assert_eq!(m.load(0x4016), 1);
    assert_eq!(m.get_io_load_status(), IoState::GamePad1);
    assert_eq!(m.get_io_load_status(), IoState::NoState);
    assert_eq!(m.load(0x4017), 0);
    assert_eq!(m.get_io_load_status(), IoState::GamePad2);
    assert_eq!(m.ppu_load_status(), MemState::Io);
    assert!(!m.get_strobe());
    m.store(0x4016, 1);
    assert!(m.get_strobe());
    m.store(0x4016, 2);
    assert!(!m.get_strobe());
}

#[test]
fn load_without_side_effect_keeps_the_status() {
    let mut m = memory();
    m.set_joy_key(0, 1);
    assert_eq!(m.load_no_side_effect(0x4016), 1);
    assert_eq!(m.get_io_load_status(), IoState::NoState);
    assert_eq!(m.ppu_load_status(), MemState::NoState);
}

#[test]
fn cartridge_serves_the_top_half() {
    let mut m = memory();
    assert_eq!(m.load(0x8000), 0);
    assert_eq!(m.load(0x8005), 5);
    // 16 KiB of PRG appear twice
    assert_eq!(m.load(0xC005), 5);
    assert_eq!(m.load(0xFFFF), (0x3FFF % 251) as u8);
}

#[test]
fn interrupts_are_taken_once() {
    let mut m = memory();
    assert_eq!(m.get_interrupt(), None);
    m.set_interrupt(Interrupt::NMI);
    assert_eq!(m.get_interrupt(), Some(Interrupt::NMI));
    assert_eq!(m.get_interrupt(), None);
}

#[test]
fn nametable_ram_reads_back() {
    let mut m = memory();
    m.chr_store(0x2005, 7);
    assert_eq!(m.chr_load(0x2005), 7);
    // vertical mirroring: 0x2800 is 0x2000, 0x2400 is other RAM
    assert_eq!(m.chr_load(0x2805), 7);
    assert_eq!(m.chr_load(0x2405), 0);
    // writes to CHR ROM are ignored
    m.chr_store(0x0005, 0xFF);
    assert_eq!(m.chr_load(0x0005), 5);
    let mut h = Memory::new(Nrom::new_boxed(game_memory(false)));
    h.chr_store(0x2005, 9);
    assert_eq!(h.chr_load(0x2405), 9);
    assert_eq!(h.chr_load(0x2805), 0);
}

#[test]
fn memory_description() {
    let mut m = memory();
    let d = m.describe();
    assert!(d.starts_with(
        "{ latch: 0x0, oamdma: None, mem_load_status: NoState, mem_store_status: NoState}, \n RAM: \nRAM:\n00 00 "
    ));
    assert!(d.ends_with("00 00 \n"));
    assert_eq!(d.len(), 95 + 6 + 2 * (0x800 * 3 + 0x80));
    m.store(0x2000, 0xAB);
    m.store(0x4014, 200);
    m.store(0x0001, 0x5C);
    let d = m.describe();
    assert!(d.starts_with(
        "{ latch: 0xab, oamdma: Some(Wrapping(200)), mem_load_status: NoState, mem_store_status: Memory}, \n RAM: \nRAM:\n00 5c 00 "
    ));
    assert!(d.contains("VRAM:\n00 00 "));
}

#[test]
fn ram_and_registers_work_with_an_empty_cartridge() {
    let gm = GameMemory {
        prg_rom: vec![],
        prg_ram: vec![],
        prg_bat: vec![],
        chr_rom: vec![],
        chr_ram: vec![],
        chr_bat: vec![],
        vmirror: true,
        screen4: false,
    };
    let mut m = Memory::new(Nrom::new_boxed(gm));
    assert!(!m.mapper.is_valid());
    m.store(0x0123, 0x5A);
    assert_eq!(m.load(0x1923), 0x5A);
    m.store(0x2000, 0x80);
    assert_eq!(m.get_latch().0, 0x80);
    m.store(0x8000, 0x01);
    m.chr_store(0x2001, 0x33);
    assert_eq!(m.chr_load(0x2001), 0x33);
}
