use rnes::header::{push_decimal, Header};
use rnes::nes::Nes;

fn image(h4: u8, h5: u8, h6: u8, h7: u8, data: usize) -> Vec<u8> {
    let mut rom = vec![0x4E, 0x45, 0x53, 0x1A, h4, h5, h6, h7, 0, 0, 0, 0, 0, 0, 0, 0];
    rom.extend((0..data).map(|i| (i % 256) as u8));
    rom
}

#[test]
fn short_image_has_no_header() {
    let r = Header::load_rom(&[0x4E, 0x45, 0x53]);
    assert_eq!(r.err(), Some(String::from("Couldn't read ROM header")));
    assert_eq!(Nes::new(&[0u8; 15]).err(), Some(String::from("Couldn't read ROM header")));
}

#[test]
fn bad_signature_is_refused() {
    let mut rom = image(1, 1, 0, 0, 0x6000);
    rom[3] = 0x1B;
    assert_eq!(Header::load_rom(&rom).err(), Some(String::from("Invalid iNES Header")));
    assert_eq!(Nes::new(&rom).err(), Some(String::from("Invalid iNES Header")));
}

#[test]
fn header_fields() {
    let rom = image(2, 1, 0x13, 0xE0, 0);
    let h = Header::load_rom(&rom).ok().unwrap();
    assert_eq!(h.mapper, 0xE1);
    assert_eq!(h.flags, 0x03);
    assert_eq!(h.prg_rom_size, 0x8000);
    assert_eq!(h.chr_rom_size, 0x2000);
    // PRG RAM defaults to 8 KiB, battery RAM follows the flag
    assert_eq!(h.prg_ram_size, 0x2000);
    assert_eq!(h.prg_bat_size, 0x2000);
    assert_eq!(h.chr_ram_size, 0);
    assert!(!h.is_nes2());
    let h = Header::load_rom(&image(1, 0, 0, 0x08, 0)).ok().unwrap();
    assert_eq!(h.chr_ram_size, 0x2000);
    assert!(h.is_nes2());
}

#[test]
fn missing_data_is_refused() {
    let rom = image(1, 1, 0, 0, 0x5FFF);
    assert_eq!(Nes::new(&rom).err(), Some(String::from("Couldn't read ROM data")));
    let mut h = Header::load_rom(&rom).ok().unwrap();
    assert_eq!(h.get_game_memory(&rom).err(), Some(String::from("Couldn't read ROM data")));
    assert_eq!(h.get_mapper(&rom).err(), Some(String::from("Couldn't read ROM data")));
}

#[test]
fn unknown_mapper_is_refused() {
    let rom = image(1, 1, 0x40, 0, 0x6000);
    assert_eq!(Nes::new(&rom).err(), Some(String::from("Unrecognized Mapper 4")));
    let rom = image(1, 1, 0x10, 0xF0, 0x6000);
    assert_eq!(Nes::new(&rom).err(), Some(String::from("Unrecognized Mapper 241")));
}

#[test]
fn game_memory_is_cut_from_the_image() {
    let rom = image(1, 1, 0x01, 0, 0x6000);
    let h = Header::load_rom(&rom).ok().unwrap();
    let g = h.get_game_memory(&rom).ok().unwrap();
    assert_eq!(g.prg_rom.len(), 0x4000);
    assert_eq!(g.prg_rom[1], 1);
    assert_eq!(g.chr_rom.len(), 0x2000);
    assert_eq!(g.chr_rom[0], 0);
    assert_eq!(g.chr_rom[1], 1);
    assert!(g.vmirror);
    assert!(!g.screen4);
}

#[test]
fn trainer_is_skipped() {
    let mut rom = image(1, 1, 0x04, 0, 0x200 + 0x6000);
    rom[16] = 0xAA;
    rom[16 + 0x200] = 0x55;
    let h = Header::load_rom(&rom).ok().unwrap();
    let g = h.get_game_memory(&rom).ok().unwrap();
    assert_eq!(g.prg_rom[0], 0x55);
}

#[test]
fn known_mappers_build_a_console() {
    assert!(Nes::new(&image(1, 1, 0, 0, 0x6000)).is_ok());
    assert!(Nes::new(&image(1, 4, 0x30, 0, 0x4000 + 0x8000)).is_ok());
    assert!(Nes::new(&image(1, 1, 0x10, 0xE0, 0x6000)).is_ok());
}

#[test]
fn decimal_numbers() {
    let mut s = String::from("n=");
    push_decimal(&mut s, 0);
    assert_eq!(s, "n=0");
    let mut s = String::new();
    push_decimal(&mut s, 65535);
    assert_eq!(s, "65535");
}
