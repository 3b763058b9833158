use rnes::mapper::{hmirror, vmirror};

#[test]
fn hmirror_folds_second_table_pair() {
    assert_eq!(hmirror(0x2000), 0x000);
    assert_eq!(hmirror(0x2400), 0x000);
    assert_eq!(hmirror(0x2800), 0x400);
    assert_eq!(hmirror(0x2C05), 0x405);
}

#[test]
fn vmirror_folds_second_half() {
    assert_eq!(vmirror(0x2000), 0x000);
    assert_eq!(vmirror(0x2400), 0x400);
    assert_eq!(vmirror(0x2800), 0x000);
    assert_eq!(vmirror(0x2C05), 0x405);
}

use rnes::loadstore::LoadStore;
use rnes::mapper::{Cnrom, GameMemory, Nrom, Pirate225};
use rnes::mem::Memory;

fn game_memory(prg: Vec<u8>, chr: Vec<u8>) -> GameMemory {
    GameMemory {
        prg_rom: prg,
        prg_ram: vec![0; 0x2000],
        prg_bat: vec![],
        chr_rom: chr,
        chr_ram: vec![],
        chr_bat: vec![],
        vmirror: false,
        screen4: false,
    }
}

#[test]
fn nrom_32k_is_not_mirrored() {
    let prg: Vec<u8> = (0..0x8000u32).map(|i| (i / 0x4000) as u8).collect();
    let mut m = Memory::new(Nrom::new_boxed(game_memory(prg, vec![0; 0x2000])));
    assert_eq!(m.load(0x8000), 0);
    assert_eq!(m.load(0xC000), 1);
    assert!(m.mapper.is_valid());
}

#[test]
fn cnrom_switches_chr_banks() {
    let chr: Vec<u8> = (0..0x8000u32).map(|i| (i / 0x2000) as u8 + 10).collect();
    let mut m = Memory::new(Cnrom::new_boxed(game_memory(vec![0; 0x4000], chr)));
    assert!(m.mapper.is_valid());
    assert_eq!(m.chr_load(0x0000), 10);
    m.store(0x8000, 2);
    assert_eq!(m.chr_load(0x0000), 12);
    assert_eq!(m.chr_load(0x1FFF), 12);
    // Only the two low bits select the bank
    m.store(0xFFFF, 7);
    assert_eq!(m.chr_load(0x0000), 13);
    // Writes below the ROM window do not switch
    m.store(0x6000, 0);
    assert_eq!(m.chr_load(0x0000), 13);
}

#[test]
fn pirate225_switches_prg_and_chr() {
    let prg: Vec<u8> = (0..0x100000u32).map(|i| (i / 0x4000) as u8).collect();
    let chr: Vec<u8> = (0..0x80000u32).map(|i| (i / 0x2000) as u8).collect();
    let mut m = Memory::new(Pirate225::new_boxed(game_memory(prg, chr)));
    assert!(m.mapper.is_valid());
    assert_eq!(m.load(0x8000), 0);
    assert_eq!(m.load(0xC000), 1);
    // 32 KiB mode: PRG pair 2-3, CHR bank 5, vertical mirroring
    m.store(0x8000 + (3 << 6) + 5, 0);
    assert_eq!(m.load(0x8000), 2);
    assert_eq!(m.load(0xC000), 3);
    assert_eq!(m.chr_load(0x0000), 5);
    m.chr_store(0x2001, 0x77);
    assert_eq!(m.chr_load(0x2801), 0x77);
    // 16 KiB mode: PRG bank 3 at both halves, horizontal mirroring
    m.store(0x9000 + 0x2000 + (3 << 6), 0);
    assert_eq!(m.load(0x8000), 3);
    assert_eq!(m.load(0xC000), 3);
    assert_eq!(m.chr_load(0x0000), 0);
    m.chr_store(0x2002, 0x66);
    assert_eq!(m.chr_load(0x2402), 0x66);
}

#[test]
fn small_roms_are_not_valid() {
    let m = Memory::new(Nrom::new_boxed(game_memory(vec![0; 0x4000], vec![0; 0x1000])));
    assert!(!m.mapper.is_valid());
    let m = Memory::new(Nrom::new_boxed(game_memory(vec![], vec![0; 0x2000])));
    assert!(!m.mapper.is_valid());
    let m = Memory::new(Cnrom::new_boxed(game_memory(vec![0; 0x4000], vec![0; 0x2000])));
    assert!(!m.mapper.is_valid());
    let m = Memory::new(Pirate225::new_boxed(game_memory(vec![0; 0x8000], vec![0; 0x2000])));
    assert!(!m.mapper.is_valid());
}
