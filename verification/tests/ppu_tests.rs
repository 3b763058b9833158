use rnes::enums::Interrupt;
use rnes::loadstore::LoadStore;
use rnes::mapper::{Cnrom, GameMemory, Nrom};
use rnes::mem::Memory;
use rnes::ppu::{Oam, Ppu, Sprite, FRAME_SIZE};

fn memory() -> Memory {
    Memory::new(Nrom::new_boxed(GameMemory {
        prg_rom: vec![0; 0x4000],
        prg_ram: vec![],
        prg_bat: vec![],
        chr_rom: vec![0; 0x2000],
        chr_ram: vec![],
        chr_bat: vec![],
        vmirror: false,
        screen4: false,
    }))
}

/// A CPU write to a PPU register, taken by the PPU on its next dot.
fn write(ppu: &mut Ppu, m: &mut Memory, address: u16, value: u8) {
    m.store(address, value);
    ppu.cycle(m);
}

/// Points the VRAM address at `address` (the scroll registers load it through the
/// temporal register).
fn set_vram_address(ppu: &mut Ppu, m: &mut Memory, address: u16) {
    let nametable = ((address >> 10) & 3) as u8;
    let x = ((address & 0x1F) << 3) as u8;
    let y = ((((address >> 5) & 0x1F) << 3) | (address >> 12) & 7) as u8;
    write(ppu, m, 0x2000, nametable);
    write(ppu, m, 0x2005, x);
    write(ppu, m, 0x2005, y);
    write(ppu, m, 0x2006, 0);
    write(ppu, m, 0x2006, 0);
    assert_eq!(ppu.address.address, address);
}

#[test]
fn new_ppu_is_blank() {
    let ppu = Ppu::new();
    let (frames, data) = ppu.frame_data();
    assert_eq!(frames, 0);
    assert_eq!(data.len(), FRAME_SIZE);
    assert!(data.iter().all(|&b| b == 0));
    let line = ppu.scanline(239);
    assert_eq!(line.index(255), 0);
    assert_eq!(ppu.scanline, 0);
    assert_eq!(ppu.scycle, 0);
}

#[test]
fn a_frame_is_262_lines_of_341_dots() {
    let mut m = memory();
    let mut ppu = Ppu::new();
    for _ in 0..341 {
        ppu.cycle(&mut m);
    }
    assert_eq!((ppu.scycle, ppu.scanline), (0, 1));
    for _ in 341..89341 {
        ppu.cycle(&mut m);
    }
    assert_eq!((ppu.scycle, ppu.scanline, ppu.frames), (340, 261, 0));
    ppu.cycle(&mut m);
    assert_eq!((ppu.scycle, ppu.scanline, ppu.frames), (0, 0, 1));
    assert_eq!(ppu.frame_data().0, 1);
}

#[test]
fn vertical_blank_from_line_241_to_261() {
    let mut m = memory();
    let mut ppu = Ppu::new();
    for _ in 0..82182 {
        ppu.cycle(&mut m);
    }
    assert_eq!(ppu.status & 0x80, 0);
    ppu.cycle(&mut m);
    assert_ne!(ppu.status & 0x80, 0);
    // The status register is published to the CPU side
    assert_ne!(m.load(0x2002) & 0x80, 0);
    // and reading it clears the bit
    ppu.cycle(&mut m);
    assert_eq!(ppu.status & 0x80, 0);
    assert_eq!(m.get_interrupt(), None);
}

#[test]
fn vertical_blank_raises_nmi_when_enabled() {
    let mut m = memory();
    let mut ppu = Ppu::new();
    write(&mut ppu, &mut m, 0x2000, 0x80);
    for _ in 1..82183 {
        ppu.cycle(&mut m);
    }
    assert_ne!(ppu.status & 0x80, 0);
    assert_eq!(m.get_interrupt(), Some(Interrupt::NMI));
}

#[test]
fn vertical_blank_ends_at_line_261() {
    let mut m = memory();
    let mut ppu = Ppu::new();
    for _ in 0..82183 {
        ppu.cycle(&mut m);
    }
    assert_ne!(ppu.status & 0x80, 0);
    for _ in 82183..(261 * 341 + 2) {
        ppu.cycle(&mut m);
    }
    assert_eq!(ppu.status & 0x80, 0);
}

#[test]
fn palette_reads_back_what_was_written() {
    let mut m = memory();
    let mut ppu = Ppu::new();
    set_vram_address(&mut ppu, &mut m, 0x3F00);
    write(&mut ppu, &mut m, 0x2007, 0x2A);
    write(&mut ppu, &mut m, 0x2007, 0xFF);
    assert_eq!(ppu.palette[0], 0x2A);
    // Only six bits are kept
    assert_eq!(ppu.palette[1], 0x3F);
    // 0x3F10 is the same entry as 0x3F00
    set_vram_address(&mut ppu, &mut m, 0x3F10);
    write(&mut ppu, &mut m, 0x2007, 0x15);
    assert_eq!(ppu.palette[0], 0x15);
    assert_eq!(ppu.palette[0x10], 0);
    // Read back through the data port: the read fills the buffer that the next read gives
    set_vram_address(&mut ppu, &mut m, 0x3F00);
    m.load(0x2007);
    ppu.cycle(&mut m);
    assert_eq!(m.load(0x2007), 0x15);
}

#[test]
fn nametable_writes_through_the_data_port() {
    let mut m = memory();
    let mut ppu = Ppu::new();
    set_vram_address(&mut ppu, &mut m, 0x2401);
    write(&mut ppu, &mut m, 0x2007, 0x77);
    // Horizontal mirroring: 0x2401 is 0x2001
    assert_eq!(m.chr_load(0x2001), 0x77);
    assert_eq!(ppu.address.address, 0x2402);
}

#[test]
fn oam_port_writes() {
    let mut m = memory();
    let mut ppu = Ppu::new();
    write(&mut ppu, &mut m, 0x2003, 0xFE);
    write(&mut ppu, &mut m, 0x2004, 1);
    write(&mut ppu, &mut m, 0x2004, 2);
    write(&mut ppu, &mut m, 0x2004, 3);
    assert_eq!(ppu.oam.mem[0xFE], 1);
    assert_eq!(ppu.oam.mem[0xFF], 2);
    assert_eq!(ppu.oam.mem[0x00], 3);
    assert_eq!(ppu.oam.address, 1);
}

#[test]
fn sprite_attributes() {
    let mut s = Sprite::default();
    s.set_sprite_info(0, 10);
    s.set_sprite_info(1, 0x21);
    s.set_sprite_info(2, 0xE3);
    s.set_sprite_info(3, 50);
    assert_eq!((s.y_pos, s.tile, s.attributes, s.x_pos), (10, 0x21, 0xE3, 50));
    assert_eq!(s.get_palette(), 3);
    assert!(s.get_priority());
    assert!(s.flip_horizontally());
    assert!(s.flip_vertically());
    s.set_sprite_info(2, 0x01);
    assert!(!s.get_priority() && !s.flip_horizontally() && !s.flip_vertically());
    assert!(!s.has_pixel());
    s.lshift = 1;
    assert!(s.has_pixel());
    s.counter = 1;
    assert!(!s.has_pixel());
}

#[test]
fn sprite_evaluation_finds_sprites_in_range() {
    let mut oam: Oam = Ppu::new().oam;
    for i in 0..64 {
        oam.mem[i * 4] = 0xFF;
    }
    oam.mem[252..256].copy_from_slice(&[10, 0x21, 0x03, 50]);
    let mut units = [Sprite::default(); 8];
    let mut overflow = false;
    for dot in 0..=320usize {
        overflow |= oam.cycle(dot, 12, &mut units);
    }
    assert!(!overflow);
    assert_eq!(oam.count, 1);
    assert_eq!((units[0].y_pos, units[0].tile, units[0].attributes, units[0].x_pos), (10, 0x21, 3, 50));
    assert_eq!(units[1], Sprite::default());
}

#[test]
fn ninth_sprite_on_a_line_overflows() {
    let mut oam: Oam = Ppu::new().oam;
    for i in 0..64 {
        oam.mem[i * 4] = if i < 9 { 10 } else { 0xFF };
    }
    let mut units = [Sprite::default(); 8];
    let mut overflow = false;
    for dot in 0..=320usize {
        overflow |= oam.cycle(dot, 12, &mut units);
    }
    assert!(overflow);
    assert_eq!(oam.count, 8);
}

#[test]
fn status_read_resets_the_write_toggle() {
    let mut m = memory();
    let mut ppu = Ppu::new();
    write(&mut ppu, &mut m, 0x2005, 0x10);
    assert!(ppu.address.write_flag);
    m.load(0x2002);
    ppu.cycle(&mut m);
    assert!(!ppu.address.write_flag);
    // The next scroll write is a horizontal one again
    write(&mut ppu, &mut m, 0x2005, 0x28);
    assert_eq!(ppu.address.temporal & 0x1F, 5);
    assert_eq!(ppu.address.fine_x, 0);
}

#[test]
fn power_up_state_by_default() {
    let ppu = Ppu::default();
    assert_eq!(ppu.address.increment, 1);
    assert_eq!(ppu.frames, 0);
    assert_eq!(ppu.palette, [0; 0x20]);
}

#[test]
fn scanline_entries() {
    let mut line = rnes::ppu::Scanline::new();
    *line.index_mut(3) = 9;
    assert_eq!(line.index(3), 9);
    assert_eq!(line.index(4), 0);
}

#[test]
fn oam_reads_back_through_oamdata() {
    let mut m = memory();
    let mut ppu = Ppu::new();
    write(&mut ppu, &mut m, 0x2003, 5);
    write(&mut ppu, &mut m, 0x2004, 0x99);
    write(&mut ppu, &mut m, 0x2003, 5);
    assert_eq!(m.load(0x2004), 0x99);
}

#[test]
fn evaluation_keeps_the_first_eight_sprites_in_order() {
    let mut oam: Oam = Ppu::new().oam;
    for i in 0..64 {
        oam.mem[i * 4] = 0xFF;
    }
    // Ten sprites cover line 12, with sprites that do not in between.
    let covering = [3usize, 5, 6, 20, 21, 33, 40, 41, 50, 63];
    for (k, &i) in covering.iter().enumerate() {
        oam.mem[i * 4..i * 4 + 4].copy_from_slice(&[8 + (k as u8 % 5), k as u8, 0x40, i as u8]);
    }
    oam.mem[4 * 4] = 30; // out of range below
    let mut units = [Sprite::default(); 8];
    for dot in 0..=256usize {
        oam.cycle(dot, 12, &mut units);
    }
    assert_eq!(oam.ssprite, 0x20);
    for (k, &i) in covering.iter().take(8).enumerate() {
        assert_eq!(&oam.smem[k * 4..k * 4 + 4], &oam.mem[i * 4..i * 4 + 4]);
    }
}

#[test]
fn evaluation_with_few_sprites_starts_with_them() {
    let mut oam: Oam = Ppu::new().oam;
    for i in 0..64 {
        oam.mem[i * 4] = 0xFF;
    }
    oam.mem[40..44].copy_from_slice(&[12, 1, 2, 3]);
    oam.mem[80..84].copy_from_slice(&[5, 4, 5, 6]);
    let mut units = [Sprite::default(); 8];
    for dot in 0..=256usize {
        oam.cycle(dot, 12, &mut units);
    }
    assert_eq!(&oam.smem[0..8], &[12, 1, 2, 3, 5, 4, 5, 6]);
}

#[test]
fn vertical_blank_in_every_frame() {
    let mut m = memory();
    let mut ppu = Ppu::new();
    for k in 1..=(3 * 89342u64) {
        ppu.cycle(&mut m);
        let expected = (82182..89002).contains(&((k - 1) % 89342));
        assert_eq!(ppu.status & 0x80 != 0, expected, "after {} dots", k);
        if k % 1000 == 0 {
            assert_eq!(m.load_no_side_effect(0x2002) & 0x80 != 0, expected);
        }
    }
    assert_eq!(ppu.frames, 3);
}

#[test]
fn rendering_reads_only_the_selected_chr_bank() {
    // Two CHR banks of the four a CNROM board can select; bank 0 stays selected.
    let mut m = Memory::new(Cnrom::new_boxed(GameMemory {
        prg_rom: vec![0; 0x8000],
        prg_ram: vec![],
        prg_bat: vec![],
        chr_rom: (0..0x4000u32).map(|i| (i % 7) as u8).collect(),
        chr_ram: vec![],
        chr_bat: vec![],
        vmirror: true,
        screen4: false,
    }));
    assert!(!m.mapper.is_valid());
    let mut ppu = Ppu::new();
    write(&mut ppu, &mut m, 0x2001, 0x18);
    for _ in 0..(2 * 89342) {
        ppu.cycle(&mut m);
    }
    assert_eq!(ppu.frames, 2);
}

#[test]
fn sprite_units_hold_the_first_eight_sprites() {
    let mut oam: Oam = Ppu::new().oam;
    for i in 0..64 {
        oam.mem[i * 4] = 0xFF;
    }
    let covering = [1usize, 2, 9, 17, 18, 30, 44, 45, 46, 60];
    for (k, &i) in covering.iter().enumerate() {
        oam.mem[i * 4..i * 4 + 4].copy_from_slice(&[5 + (k % 6) as u8, 0x10 + k as u8, k as u8, 8 * k as u8]);
    }
    let mut units = [Sprite::default(); 8];
    for dot in 0..=320usize {
        oam.cycle(dot, 12, &mut units);
    }
    assert_eq!(oam.count, 8);
    for (k, &i) in covering.iter().take(8).enumerate() {
        let u = units[k];
        assert_eq!([u.y_pos, u.tile, u.attributes, u.x_pos], oam.mem[i * 4..i * 4 + 4]);
    }
}
