use vstd::prelude::*;
use vstd::arithmetic::div_mod::{lemma_fundamental_div_mod, lemma_fundamental_div_mod_converse};
use crate::enums::{MemState, Interrupt};
use crate::mapper::Mapper;
use crate::mem::Memory;
use crate::scroll::Scroll;
use crate::utils::{bit_of, dump, print_mem, reverse_byte, reversed, lemma_reversed_bits};
use vstd::string::StringExecFns;

verus! {

pub const CTRL_SPRITE_PATTERN: u8 = 0x08;
pub const CTRL_BACKGROUND_PATTERN: u8 = 0x10;
pub const CTRL_SPRITE_SIZE: u8 = 0x20;
pub const CTRL_PPU_SLAVE_MASTER: u8 = 0x40;
pub const CTRL_NMI: u8 = 0x80;

pub const MASK_GRAYSCALE: u8 = 0x01;
// set = show bacgrkound in leftmost 8 pixels of screen
pub const MASK_SHOW_BACKGROUND_LEFT: u8 = 0x02;
// set = show sprites in leftmost 8 pixels of screens
pub const MASK_SHOW_SPRITES_LEFT: u8 = 0x04;
pub const MASK_SHOW_BACKGROUND: u8 = 0x08;
pub const MASK_SHOW_SPRITES: u8 = 0x10;

pub const STATUS_SPRITE_OVERFLOW: u8 = 0x20;
pub const STATUS_SPRITE_0_HIT: u8 = 0x40;
pub const STATUS_VBLANK: u8 = 0x80;

pub const PALETTE_SIZE: usize = 0x20;
pub const PALETTE_ADDRESS: usize = 0x3f00;

pub const VBLANK_END: u32 = 88740;
pub const VBLANK_END_NO_RENDER: u32 = 27902;

// Resolution
pub const SCANLINE_WIDTH: usize = 256;
pub const SCANLINE_COUNT: usize = 240;
pub const FRAME_SIZE: usize = 61440;

/// One row of the picture: a palette color index per pixel.
pub struct Scanline(pub [u8; 256]);

impl Scanline {
    pub fn new() -> (r: Scanline)
        ensures
            forall|i: int| 0 <= i < 256 ==> r.0@[i] == 0,
    {
        Scanline([0u8; 256])
    }

    pub fn index(&self, index: usize) -> (r: u8)
        requires
            index < SCANLINE_WIDTH,
        ensures
            r == self.0@[index as int],
    {
        self.0[index]
    }

    pub fn index_mut(&mut self, index: usize) -> (r: &mut u8)
        requires
            index < SCANLINE_WIDTH,
        ensures
            *r == old(self).0@[index as int],
            final(self).0@ == old(self).0@.update(index as int, *final(r)),
    {
        &mut self.0[index]
    }
}

impl Clone for Scanline {
    fn clone(&self) -> (r: Scanline)
        ensures
            r.0 == self.0,
    {
        Scanline(self.0)
    }
}

/// The PPU registers that the CPU can read, as last published by the PPU.
#[derive(Copy, Clone, Debug, PartialEq, Eq, Structural)]
pub struct PpuReadRegs {
    pub data: u8,
    pub oam: u8,
    pub status: u8,
}

impl Default for PpuReadRegs {
    fn default() -> (r: PpuReadRegs)
        ensures
            r == (PpuReadRegs { data: 0, oam: 0, status: 0 }),
    {
        PpuReadRegs { data: 0, oam: 0, status: 0 }
    }
}

// ----------------------------------------------------------------------------
// Sprites
// ----------------------------------------------------------------------------

/// A sprite unit: the OAM entry of a sprite on the current line and its shift registers.
#[derive(Copy, Clone, Debug, PartialEq, Eq, Structural)]
pub struct Sprite {
    pub y_pos: u8,
    pub tile: u8,
    pub attributes: u8,
    pub x_pos: u8,
    pub counter: u8,
    pub latch: u8,
    pub lshift: u8,
    pub hshift: u8,
}

pub open spec fn sprite_default() -> Sprite {
    Sprite { y_pos: 0, tile: 0, attributes: 0, x_pos: 0, counter: 0, latch: 0, lshift: 0, hshift: 0 }
}

impl Default for Sprite {
    fn default() -> (r: Sprite)
        ensures
            r == sprite_default(),
    {
        Sprite { y_pos: 0, tile: 0, attributes: 0, x_pos: 0, counter: 0, latch: 0, lshift: 0, hshift: 0 }
    }
}

impl Sprite {
    /// The sprite with byte `index` (Y, tile, attributes, X) of its OAM entry set.
    pub open spec fn with_info(self, index: int, value: u8) -> Sprite {
        if index == 0 {
            Sprite { y_pos: value, ..self }
        } else if index == 1 {
            Sprite { tile: value, ..self }
        } else if index == 2 {
            Sprite { attributes: value, ..self }
        } else {
            Sprite { x_pos: value, ..self }
        }
    }

    pub fn set_sprite_info(&mut self, index: usize, value: u8)
        requires
            index < 4,
        ensures
            *final(self) == old(self).with_info(index as int, value),
    {
        if index == 0 {
            self.y_pos = value;
        } else if index == 1 {
            self.tile = value;
        } else if index == 2 {
            self.attributes = value;
        } else {
            self.x_pos = value;
        }
    }

    /// Attribute bit 5: the sprite is behind the background.
    pub fn get_priority(&self) -> (r: bool)
        ensures
            r == (self.attributes & 0x20 != 0),
    {
        self.attributes & 0x20 > 0
    }

    /// Attribute bits 0-1: the sprite palette.
    pub fn get_palette(&self) -> (r: usize)
        ensures
            r == self.attributes % 4,
    {
        (self.attributes % 4) as usize
    }

    /// Attribute bit 6.
    pub fn flip_horizontally(&self) -> (r: bool)
        ensures
            r == (self.attributes & 0x40 != 0),
    {
        self.attributes & 0x40 > 0
    }

    /// Attribute bit 7.
    pub fn flip_vertically(&self) -> (r: bool)
        ensures
            r == (self.attributes & 0x80 != 0),
    {
        self.attributes & 0x80 > 0
    }

    /// The sprite has started on this line and its current pixel is opaque.
    pub open spec fn pixel(self) -> bool {
        self.counter == 0 && (self.lshift % 2 == 1 || self.hshift % 2 == 1)
    }

    pub fn has_pixel(&self) -> (r: bool)
        ensures
            r == self.pixel(),
    {
        self.counter == 0 && (self.lshift % 2 == 1 || self.hshift % 2 == 1)
    }

    /// After a dot, a sprite that has not started counts down; one that has shifts
    /// out a pixel.
    pub open spec fn advanced(self) -> Sprite {
        if self.counter > 0 {
            Sprite { counter: (self.counter - 1) as u8, ..self }
        } else {
            Sprite { lshift: self.lshift / 2, hshift: self.hshift / 2, ..self }
        }
    }
}

// ----------------------------------------------------------------------------
// Object attribute memory
// ----------------------------------------------------------------------------

/// OAM with the secondary OAM and the state of sprite evaluation.
pub struct Oam {
    pub mem: [u8; 0x100],
    pub smem: [u8; 0x20],
    pub sprite: u8,
    pub ssprite: usize,
    pub count: usize,
    pub address: u8,
    pub read: u8,
    pub next_sprite: bool,
}

/// A sprite whose top row is `y` covers `scanline` when the scanline is one of its
/// eight rows; Y values of 0xF0 and above hide the sprite.
pub open spec fn sprite_in_range(y: u8, scanline: u8) -> bool {
    y < 0xF0 && y <= scanline && scanline < y + 8
}

pub open spec fn add8(a: u8, b: int) -> u8 {
    ((a + b) % 0x100) as u8
}

impl Default for Oam {
    fn default() -> (r: Oam)
        ensures
            r.wf(),
            r.mem@ == Seq::new(0x100, |i: int| 0u8),
            r.smem@ == Seq::new(0x20, |i: int| 0u8),
            r.sprite == 0 && r.ssprite == 0 && r.count == 0 && r.address == 0 && r.read == 0
                && !r.next_sprite,
    {
        let r = Oam {
            mem: [0u8; 0x100],
            smem: [0u8; 0x20],
            sprite: 0,
            ssprite: 0,
            count: 0,
            address: 0,
            read: 0,
            next_sprite: false,
        };
        assert(r.mem@ =~= Seq::new(0x100, |i: int| 0u8));
        assert(r.smem@ =~= Seq::new(0x20, |i: int| 0u8));
        r
    }
}

/// One dot of sprite evaluation (`cycles` is the dot). Dot 0 restarts it; dots 1-64
/// clear the secondary OAM; dots 65-256 copy the entries of the sprites in range into
/// it, eight at most, then look for an overflow (reported by the result); dots 257-320
/// load the found sprites into the sprite units.
pub open spec fn oam_step(o: Oam, cycles: usize, scanline: u8, sprites: [Sprite; 8]) -> (
    Oam,
    [Sprite; 8],
    bool,
) {
    if cycles == 0 {
        (Oam { sprite: 0, ssprite: 0, ..o }, sprites, false)
    } else {
        let c = cycles - 1;
        if c < 64 {
            // Fill OAM
            if c % 2 == 0 {
                (Oam { read: 0xFF, ..o }, sprites, false)
            } else {
                (
                    Oam { smem: vstd::array::spec_array_update(o.smem, c / 2, o.read), ..o },
                    sprites,
                    false,
                )
            }
        } else if c < 256 {
            if c % 2 == 0 {
                (Oam { read: o.mem@[o.sprite as int], ..o }, sprites, false)
            } else if o.ssprite % 4 != 0 {
                (
                    Oam {
                        smem: vstd::array::spec_array_update(o.smem, o.ssprite as int, o.read),
                        ssprite: (o.ssprite + 1) as usize,
                        sprite: add8(o.sprite, 1),
                        ..o
                    },
                    sprites,
                    false,
                )
            } else if o.ssprite < 0x20 {
                let o1 = Oam {
                    smem: vstd::array::spec_array_update(o.smem, o.ssprite as int, o.read),
                    ..o
                };
                if sprite_in_range(o.read, scanline) {
                    (
                        Oam { ssprite: (o.ssprite + 1) as usize, sprite: add8(o.sprite, 1), ..o1 },
                        sprites,
                        false,
                    )
                } else {
                    (Oam { sprite: add8(o.sprite, 4), ..o1 }, sprites, false)
                }
            } else {
                if o.sprite % 4 != 0 && !o.next_sprite {
                    (Oam { sprite: add8(o.sprite, 1), ..o }, sprites, false)
                } else if sprite_in_range(o.read, scanline) {
                    (Oam { sprite: add8(o.sprite, 1), next_sprite: false, ..o }, sprites, true)
                } else {
                    (Oam { sprite: add8(o.sprite, 5), next_sprite: true, ..o }, sprites, false)
                }
            }
        } else if c < 320 {
            let o1 = if c == 256 {
                Oam { sprite: 0, count: (o.ssprite / 4) as usize, ..o }
            } else {
                o
            };
            if (c / 4) % 2 == 0 && o1.sprite < o1.ssprite {
                let i = o1.sprite / 4;
                let s = sprites@[i as int].with_info(c % 4, o1.smem@[o1.sprite as int]);
                (
                    Oam { sprite: add8(o1.sprite, 1), ..o1 },
                    vstd::array::spec_array_update(sprites, i as int, s),
                    false,
                )
            } else {
                (o1, sprites, false)
            }
        } else {
            (o, sprites, false)
        }
    }
}

impl Oam {
    /// The OAM as the debugger shows it: a title, then a dump of its 256 bytes.
    pub open spec fn describe_spec(&self) -> Seq<char> {
        "OAM: mem: \n"@ + dump(self.mem@, 0x100)
    }

    pub fn describe(&self) -> (r: String)
        ensures
            r@ == self.describe_spec(),
    {
        let mut out = String::from_str("OAM: mem: \n");
        print_mem(&mut out, &self.mem);
        out
    }

    pub open spec fn wf(&self) -> bool {
        &&& self.ssprite <= 0x20
        &&& self.ssprite % 4 != 0 ==> self.ssprite < 0x20
        &&& self.count <= 8
    }

    fn load_data(&mut self) -> (r: u8)
        ensures
            r == old(self).mem@[old(self).address as int],
            *final(self) == *old(self),
    {
        self.mem[self.address as usize]
    }

    /// OAM after a write to OAMDATA: the byte goes at the OAM address, which moves on.
    pub open spec fn data_written(self, value: u8) -> Oam {
        Oam {
            mem: vstd::array::spec_array_update(self.mem, self.address as int, value),
            address: add8(self.address, 1),
            ..self
        }
    }

    /// A write to OAMDATA stores at the OAM address and moves it on.
    fn store_data(&mut self, value: u8)
        ensures
            *final(self) == old(self).data_written(value),
    {
        self.mem[self.address as usize] = value;
        self.address = self.address.wrapping_add(1);
    }

    fn set_address(&mut self, addr: u8)
        ensures
            *final(self) == (Oam { address: addr, ..*old(self) }),
    {
        self.address = addr;
    }

    // The amount of sprites we found
    fn count(&self) -> (r: usize)
        ensures
            r == self.count,
    {
        self.count
    }

    fn in_range(&self, scanline: u8) -> (r: bool)
        ensures
            r == sprite_in_range(self.read, scanline),
    {
        self.read < 0xF0 && self.read + 8 > scanline && self.read <= scanline
    }

    pub fn cycle(&mut self, cycles: usize, scanline: u8, spr_units: &mut [Sprite; 8]) -> (r: bool)
        requires
            old(self).wf(),
        ensures
            (*final(self), *final(spr_units), r) == oam_step(
                *old(self),
                cycles,
                scanline,
                *old(spr_units),
            ),
            final(self).wf(),
    {
        if cycles == 0 {
            self.sprite = 0;
            self.ssprite = 0;
            return false;
        }
        let cycles = cycles - 1;
        if cycles < 64 {
            // Fill OAM
            if cycles % 2 == 0 {
                self.read = 0xFF;
            } else {
                self.smem[cycles / 2] = self.read;
            }
        } else if cycles < 256 {
            // Read on even cycles
            if cycles % 2 == 0 {
                self.read = self.mem[self.sprite as usize];
                return false;
            }
            if self.ssprite % 4 != 0 {
                // Copy the rest of the sprite data when previous was in range
                self.smem[self.ssprite] = self.read;
                self.ssprite = self.ssprite + 1;
                self.sprite = self.sprite.wrapping_add(1);
            } else if self.ssprite < 0x20 {
                // Copy the Y coordinate and test if in range
                self.smem[self.ssprite] = self.read;
                // If sprite is in range copy the rest, else go to the next one
                if self.in_range(scanline) {
                    self.ssprite = self.ssprite + 1;
                    self.sprite = self.sprite.wrapping_add(1);
                } else {
                    self.sprite = self.sprite.wrapping_add(4);
                }
            } else {
                // 8 sprite limit reached, look for sprite overflow
                if self.sprite % 4 != 0 && !self.next_sprite {
                    self.sprite = self.sprite.wrapping_add(1);
                } else if self.in_range(scanline) {
                    self.sprite = self.sprite.wrapping_add(1);
                    self.next_sprite = false;
                    // Sprite overflow
                    return true;
                } else {
                    // Emulate hardware bug, add 5 instead of 4
                    // FIXME: I think there shouldn't be a carry from bit 1 to 2
                    self.sprite = self.sprite.wrapping_add(5);
                    self.next_sprite = true;
                }
            }
        } else if cycles < 320 {
            // Set index to 0 at start so we can copy to the sprite units.
            // Set also the count to the amount of sprites we have found
            if cycles == 256 {
                self.sprite = 0;
                self.count = self.ssprite / 4;
            }
            // Fill up to eight sprite units with data
            if (cycles / 4) % 2 == 0 && (self.sprite as usize) < self.ssprite {
                let data = self.smem[self.sprite as usize];
                let i = (self.sprite / 4) as usize;
                let mut unit = spr_units[i];
                unit.set_sprite_info(cycles % 4, data);
                spr_units[i] = unit;
                self.sprite = self.sprite.wrapping_add(1);
            }
        }
        return false;
    }
}

// ----------------------------------------------------------------------------
// The picture processing unit
// ----------------------------------------------------------------------------

pub struct Ppu {
    pub palette: [u8; 0x20],
    pub oam: Oam,
    pub address: Scroll,
    // Registers
    pub ctrl: u8,
    pub mask: u8,
    pub status: u8,
    pub data_buffer: u8,
    // Scanline should count up until the total numbers of scanlines (262)
    pub scanline: usize,
    // while scanline width goes up to 340 and visible pixels
    // ie drawn pixels start at 0 and go up to 256 width (240 scanlines)
    pub scycle: usize,
    pub cycles: u32,
    // oam index for rendering
    pub oam_index: u16,
    // for sprite rendering
    pub sprites: [Sprite; 8],
    // Shift registers
    pub ltile_sreg: u16,
    pub htile_sreg: u16,
    pub attr_sreg: u32,
    pub next_ltile: u8,
    pub next_htile: u8,
    pub next_attr: u8,
    pub next_name: u8,
    pub frames: u64,
    /// The last picture, row after row: a palette color (0..64) per pixel.
    pub frame_data: Vec<u8>,
}

impl Default for Ppu {
    fn default() -> (r: Ppu)
        ensures
            Ppu::powered_up(r),
    {
        Ppu::new()
    }
}

/// Entries 0x10, 0x14, 0x18 and 0x1C of the palette are the entries 0x00, 0x04, 0x08
/// and 0x0C; the palette repeats every 32 bytes.
pub open spec fn palette_index(address: int) -> int {
    let i = address % 0x20;
    if i % 4 == 0 {
        i % 0x10
    } else {
        i
    }
}

/// The dot after (`scycle`, `scanline`): 341 dots per scanline, 262 scanlines per frame.
pub open spec fn next_dot(scycle: int, scanline: int) -> (int, int) {
    if scycle == 340 && scanline == 261 {
        (0, 0)
    } else if scycle == 340 {
        (0, scanline + 1)
    } else {
        (scycle + 1, scanline)
    }
}

impl Ppu {
    pub open spec fn wf(&self) -> bool {
        &&& self.scanline <= 261
        &&& self.scycle <= 340
        &&& self.cycles <= self.scanline * 340 + self.scycle
        &&& self.frame_data.len() == FRAME_SIZE
        &&& forall|i: int| 0 <= i < FRAME_SIZE ==> #[trigger] self.frame_data@[i] < 0x40
        &&& forall|i: int| 0 <= i < PALETTE_SIZE ==> #[trigger] self.palette@[i] < 0x40
        &&& self.oam.wf()
        &&& self.address.wf()
    }

    pub open spec fn render_enabled(&self) -> bool {
        self.mask & MASK_SHOW_SPRITES != 0 || self.mask & MASK_SHOW_BACKGROUND != 0
    }

    /// Rendering is on and the scanline is visible or the pre-render one.
    pub open spec fn is_rendering(&self) -> bool {
        self.render_enabled() && (self.scanline < 240 || self.scanline == 261)
    }

    /// The state at power up: everything cleared, the scroll increment 1, a black
    /// picture.
    pub open spec fn powered_up(r: Ppu) -> bool {
        &&& r.wf()
        &&& r.palette@ == Seq::new(0x20, |i: int| 0u8)
        &&& r.ctrl == 0 && r.mask == 0 && r.status == 0 && r.data_buffer == 0
        &&& r.scanline == 0 && r.scycle == 0 && r.cycles == 0 && r.frames == 0
        &&& r.sprites@ == Seq::new(8, |i: int| sprite_default())
        &&& r.frame_data@ == Seq::new(FRAME_SIZE as nat, |i: int| 0u8)
        &&& r.oam.mem@ == Seq::new(0x100, |i: int| 0u8)
        &&& r.oam.smem@ == Seq::new(0x20, |i: int| 0u8)
        &&& r.oam.sprite == 0 && r.oam.ssprite == 0 && r.oam.count == 0 && r.oam.address == 0
            && r.oam.read == 0 && !r.oam.next_sprite
        &&& r.oam_index == 0
        &&& r.ltile_sreg == 0 && r.htile_sreg == 0 && r.attr_sreg == 0
        &&& r.next_ltile == 0 && r.next_htile == 0 && r.next_attr == 0 && r.next_name == 0
        &&& r.address == (Scroll {
            address: 0,
            temporal: 0,
            fine_x: 0,
            write_flag: false,
            bg_offset: 0,
            increment: 1,
        })
    }

    pub fn new() -> (r: Ppu)
        ensures
            Self::powered_up(r),
    {
        let frame_data = vec![0u8; FRAME_SIZE];
        let r = Ppu {
            palette: [0u8; 0x20],
            oam: Oam::default(),
            address: Scroll::default(),
            ctrl: 0,
            mask: 0,
            status: 0,
            data_buffer: 0,
            scanline: 0,
            scycle: 0,
            cycles: 0,
            oam_index: 0,
            sprites: [Sprite::default();8],
            ltile_sreg: 0,
            htile_sreg: 0,
            attr_sreg: 0,
            next_ltile: 0,
            next_htile: 0,
            next_attr: 0,
            next_name: 0,
            frames: 0,
            frame_data: frame_data,
        };
        assert(r.palette@ =~= Seq::new(0x20, |i: int| 0u8));
        assert(r.sprites@ =~= Seq::new(8, |i: int| sprite_default()));
        assert(r.frame_data@ =~= Seq::new(FRAME_SIZE as nat, |i: int| 0u8));
        r
    }

    fn sprite_big(&self) -> (r: bool)
        ensures
            r == (self.ctrl & CTRL_SPRITE_SIZE != 0),
    {
        self.ctrl & CTRL_SPRITE_SIZE > 0
    }

    fn sprite_table(&self) -> (r: u16)
        ensures
            r == if self.ctrl & CTRL_SPRITE_PATTERN != 0 { 0x1000u16 } else { 0u16 },
    {
        if self.ctrl & CTRL_SPRITE_PATTERN > 0 {
            0x1000
        } else {
            0
        }
    }

    /// Whether the next dot may read the pattern tables (see `reads_patterns`).
    pub fn reads_patterns_next(&self, memory: &Memory) -> (r: bool)
        ensures
            r == reads_patterns(*self, *memory),
    {
        let mask = if memory.mem_store_status == MemState::PpuMask {
            memory.latch
        } else {
            self.mask
        };
        let sc = self.scycle;
        let sl = self.scanline;
        let pattern = (sl < 240 || sl == 261) && sc >= 1 && ((sc - 1) % 8 == 5 || (sc - 1) % 8
            == 7) && (sc <= 256 || (258 <= sc && sc <= 320 && !(sl == 261 && 280 <= sc && sc
            <= 304)) || (321 <= sc && sc <= 336));
        memory.mem_load_status == MemState::PpuData || ((mask & MASK_SHOW_SPRITES != 0 || mask
            & MASK_SHOW_BACKGROUND != 0) && pattern)
    }

    fn render_on(&self) -> (r: bool)
        ensures
            r == self.render_enabled(),
    {
        self.show_sprites() || self.show_background()
    }

    fn rendering(&self) -> (r: bool)
        ensures
            r == self.is_rendering(),
    {
        self.render_on() && (self.scanline < 240 || self.scanline == 261)
    }

    fn show_sprites(&self) -> (r: bool)
        ensures
            r == (self.mask & MASK_SHOW_SPRITES != 0),
    {
        self.mask & MASK_SHOW_SPRITES > 0
    }

    fn show_background(&self) -> (r: bool)
        ensures
            r == (self.mask & MASK_SHOW_BACKGROUND != 0),
    {
        self.mask & MASK_SHOW_BACKGROUND > 0
    }

    fn palette_mirror(&self, address: usize) -> (r: usize)
        ensures
            r == palette_index(address as int),
            r < PALETTE_SIZE,
    {
        let index = address % PALETTE_SIZE;
        // Mirroring 0x10/0x14/0x18/0x1C to lower address
        if index % 4 == 0 {
            index % 0x10
        } else {
            index
        }
    }

    /// The scroll registers after an access to the data port: while rendering the
    /// address moves a tile right and a line down, otherwise by the increment.
    pub open spec fn address_moved(&self) -> Scroll {
        Scroll {
            address: if self.is_rendering() {
                Scroll::y_incremented(Scroll::coarse_x_incremented(self.address.address))
            } else {
                ((self.address.address + self.address.increment) % 0x10000) as u16
            },
            ..self.address
        }
    }

    /// The byte a read of the data port gives: from the PPU address space below the
    /// palette, from the palette at and above 0x3F00.
    pub open spec fn data_read(&self, m: Memory) -> u8 {
        let a = self.address.address % 0x4000;
        if a < PALETTE_ADDRESS {
            m.mapper.chr_read(m.vram@, a as u16)
        } else {
            self.palette@[palette_index(a as int)]
        }
    }

    /// The PPU and memory after a write to the data port: below the palette the byte
    /// goes to the PPU address space, above it the palette entry keeps its six low bits.
    pub open spec fn data_written(&self, m: Memory, value: u8) -> (Ppu, Memory) {
        let a = self.address.address % 0x4000;
        if a < PALETTE_ADDRESS {
            (
                Ppu { address: self.address_moved(), ..*self },
                Memory { vram: m.mapper.chr_written(m.vram, a as u16, value), ..m },
            )
        } else {
            (
                Ppu {
                    address: self.address_moved(),
                    palette: vstd::array::spec_array_update(
                        self.palette,
                        palette_index(a as int),
                        value % 0x40,
                    ),
                    ..*self
                },
                m,
            )
        }
    }

    /// A read of the PPU data port: at the current VRAM address (the palette from
    /// 0x3F00 on), after which the address moves on.
    fn load(&mut self, memory: &mut Memory) -> (r: u8)
        requires
            old(self).wf(),
            old(memory).mapper.chr_ok(),
        ensures
            r == old(self).data_read(*old(memory)),
            *final(memory) == *old(memory),
            *final(self) == (Ppu { address: old(self).address_moved(), ..*old(self) }),
            final(self).wf(),
    {
        let rendering = self.rendering();
        let address = self.address.get_address(rendering);
        let addr = address as usize;
        if addr < PALETTE_ADDRESS {
            memory.chr_load(address)
        } else {
            self.palette[self.palette_mirror(addr)]
        }
    }

    /// A write to the PPU data port: at the current VRAM address (palette entries keep
    /// six bits), after which the address moves on.
    fn store(&mut self, memory: &mut Memory, value: u8)
        requires
            old(self).wf(),
        ensures
            (*final(self), *final(memory)) == old(self).data_written(*old(memory), value),
            final(self).wf(),
    {
        let rendering = self.rendering();
        let address = self.address.get_address(rendering);
        let addr = address as usize;
        if addr < PALETTE_ADDRESS {
            memory.chr_store(address, value);
        } else {
            let i = self.palette_mirror(addr);
            self.palette[i] = value % 0x40;
            assert(forall|j: int| 0 <= j < PALETTE_SIZE ==> #[trigger] self.palette@[j] < 0x40);
        }
    }

    pub fn frame_data(&self) -> (r: (u64, &Vec<u8>))
        ensures
            r.0 == self.frames,
            r.1@ == self.frame_data@,
    {
        (self.frames, &self.frame_data)
    }

    /// Row `y` of the last picture.
    pub fn scanline(&self, y: usize) -> (r: Scanline)
        requires
            self.wf(),
            y < SCANLINE_COUNT,
        ensures
            forall|x: int| 0 <= x < 256 ==> r.0@[x] == self.frame_data@[y * 256 + x],
    {
        let mut line = Scanline::new();
        let mut x: usize = 0;
        while x < SCANLINE_WIDTH
            invariant
                x <= SCANLINE_WIDTH,
                y < SCANLINE_COUNT,
                self.frame_data.len() == FRAME_SIZE,
                forall|i: int| 0 <= i < x ==> line.0@[i] == self.frame_data@[y * 256 + i],
            decreases SCANLINE_WIDTH - x,
        {
            line.0[x] = self.frame_data[y * SCANLINE_WIDTH + x];
            x = x + 1;
        }
        line
    }
}

/// The first of the first `count` sprite units, from `i` on, that has an opaque pixel now.
pub open spec fn first_pixel(sprites: Seq<Sprite>, count: int, i: int) -> Option<int>
    decreases count - i,
{
    if i >= count || i >= sprites.len() {
        None
    } else if sprites[i].pixel() {
        Some(i)
    } else {
        first_pixel(sprites, count, i + 1)
    }
}

/// Bit `15 - fine_x` of a tile shift register.
pub open spec fn tile_pixel(sreg: u16, fine_x: u8) -> u16 {
    (sreg >> (15 - fine_x) as u16) & 1
}

/// Bits `31 - 2 fine_x` and `30 - 2 fine_x` of the attribute shift register.
pub open spec fn attribute_pixel(sreg: u32, fine_x: u8) -> u32 {
    (sreg >> (30 - 2 * fine_x) as u32) & 3
}

impl Ppu {
    /// The background color index (0..4) at the current dot.
    pub open spec fn background_index(&self) -> int {
        tile_pixel(self.ltile_sreg, self.address.fine_x) + 2 * tile_pixel(
            self.htile_sreg,
            self.address.fine_x,
        )
    }

    /// The background palette (0..4) at the current dot.
    pub open spec fn background_palette(&self) -> int {
        attribute_pixel(self.attr_sreg, self.address.fine_x) as int
    }

    /// The first sprite of the line with an opaque pixel at the current dot.
    pub open spec fn front_sprite(&self) -> Option<int> {
        first_pixel(self.sprites@, self.oam.count as int, 0)
    }

    /// The sprite color index (0..4) at the current dot; zero is transparent.
    pub open spec fn sprite_index(&self) -> int {
        match self.front_sprite() {
            Some(i) => self.sprites@[i].lshift % 2 + 2 * (self.sprites@[i].hshift % 2),
            None => 0,
        }
    }

    /// The sprite with the pixel is in front of the background.
    pub open spec fn sprite_in_front(&self) -> bool {
        match self.front_sprite() {
            Some(i) => self.sprites@[i].attributes & 0x20 == 0,
            None => false,
        }
    }

    /// The color of the current dot: the universal background color when both pixels
    /// are transparent; the sprite pixel when it is opaque and the background one is
    /// transparent or behind it; else the background pixel.
    pub open spec fn dot_color(&self) -> u8 {
        let b = self.background_index();
        let s = self.sprite_index();
        if b == 0 && s == 0 {
            self.palette@[0]
        } else if s != 0 && (b == 0 || self.sprite_in_front()) {
            let i = self.front_sprite()->0;
            self.palette@[((self.sprites@[i].attributes % 4) + 4) * 4 + s]
        } else {
            self.palette@[self.background_palette() * 4 + b]
        }
    }

    /// Sprite 0 is hit when its opaque pixel is drawn over an opaque background pixel.
    pub open spec fn sprite_zero_hit(&self) -> bool {
        let b = self.background_index();
        let s = self.sprite_index();
        s != 0 && b != 0 && self.sprite_in_front() && self.front_sprite() == Some(0int)
    }

    /// The color of the current dot and whether it hits sprite 0.
    fn pixel_color(&mut self) -> (r: (u8, bool))
        requires
            old(self).wf(),
        ensures
            r.0 == old(self).dot_color(),
            r.0 < 0x40,
            r.1 == old(self).sprite_zero_hit(),
            *final(self) == *old(self),
    {
        let fine_x = self.address.get_fine_x();
        let l = self.ltile_sreg;
        let h = self.htile_sreg;
        let t = self.attr_sreg;
        let lbit = (l & (0x8000u16 >> fine_x)) >> (15 - fine_x);
        let hbit = (h & (0x8000u16 >> fine_x)) >> (15 - fine_x);
        let abits = (t & (0xC0000000u32 >> (fine_x * 2))) >> ((15 - fine_x) * 2);
        assert(lbit == tile_pixel(l, fine_x) && hbit == tile_pixel(h, fine_x) && abits
            == attribute_pixel(t, fine_x) && lbit <= 1 && hbit <= 1 && abits <= 3) by (bit_vector)
            requires
                fine_x < 8,
                lbit == (l & (0x8000u16 >> fine_x)) >> ((15 - fine_x) as u8),
                hbit == (h & (0x8000u16 >> fine_x)) >> ((15 - fine_x) as u8),
                abits == (t & (0xC0000000u32 >> ((fine_x * 2) as u8))) >> (((15 - fine_x) * 2) as u8),
        ;
        let back_index = (lbit + hbit * 2) as usize;
        let back_palette = abits as usize;
        let mut color_id = self.palette[back_palette * 4 + back_index];
        let mut sprite_index: u8 = 0;
        let mut sprite_palette: usize = 0;
        let mut sprite_front = false;
        // Amount of sprites in this scanline
        let count = self.oam.count();
        // Look for the first sprite that has a pixel to draw
        let mut index: Option<usize> = None;
        let mut i: usize = 0;
        while i < count
            invariant_except_break
                index is None,
            invariant
                count == self.oam.count,
                count <= 8,
                i <= count,
                first_pixel(self.sprites@, count as int, 0) == first_pixel(
                    self.sprites@,
                    count as int,
                    i as int,
                ),
            ensures
                index matches Some(k) ==> first_pixel(self.sprites@, count as int, 0) == Some(
                    k as int,
                ) && k < count,
                index is None ==> first_pixel(self.sprites@, count as int, 0) is None,
            decreases count - i,
        {
            if self.sprites[i].has_pixel() {
                index = Some(i);
                break;
            }
            i = i + 1;
        }
        if let Some(index) = index {
            // TODO: Use Latch
            let sprite = self.sprites[index];
            sprite_index = sprite.lshift % 2 + (sprite.hshift % 2) * 2;
            sprite_palette = sprite.get_palette() + 4;
            sprite_front = !sprite.get_priority();
        }
        // Choose which pixel to prioritize
        if back_index == 0 && sprite_index == 0 {
            color_id = self.palette[0];
        } else if sprite_index != 0 && (back_index == 0 || sprite_front) {
            let full_index = sprite_palette * 4 + sprite_index as usize;
            color_id = self.palette[full_index];
        }
        let hit = sprite_index != 0 && back_index != 0 && sprite_front && index == Some(0usize);
        (color_id, hit)
    }

    fn draw_dot(&mut self)
        requires
            old(self).wf(),
            old(self).scanline < SCANLINE_COUNT,
            1 <= old(self).scycle <= SCANLINE_WIDTH,
        ensures
            final(self).wf(),
            final(self).frame_data@ == old(self).frame_data@.update(
                old(self).scanline * SCANLINE_WIDTH + old(self).scycle - 1,
                old(self).dot_color(),
            ),
            final(self).sprites@ == old(self).sprites@.map_values(|s: Sprite| s.advanced()),
            final(self).status == if old(self).sprite_zero_hit() {
                old(self).status | STATUS_SPRITE_0_HIT
            } else {
                old(self).status
            },
            *final(self) == (Ppu {
                frame_data: final(self).frame_data,
                sprites: final(self).sprites,
                status: final(self).status,
                ..*old(self)
            }),
            *final(self) == (Ppu { frame_data: final(self).frame_data, ..dot_drawn(*old(self)) }),
            final(self).frame_data@ == frame_drawn(*old(self)),
    {
        let (color_id, hit) = self.pixel_color();
        if hit {
            self.status = self.status | STATUS_SPRITE_0_HIT;
        }
        let pixel = self.scanline * SCANLINE_WIDTH + self.scycle - 1;
        assert(color_id < 0x40);
        self.frame_data.set(pixel, color_id);
        assert(forall|k: int| 0 <= k < FRAME_SIZE ==> #[trigger] self.frame_data@[k] < 0x40);
        // Decrement the sprite counters or shift their tile data
        let ghost before = self.sprites@;
        let ghost snapshot = *self;
        let mut j: usize = 0;
        while j < 8
            invariant
                *self == (Ppu { sprites: self.sprites, ..snapshot }),
                j <= 8,
                before.len() == 8,
                forall|k: int| 0 <= k < j ==> self.sprites@[k] == before[k].advanced(),
                forall|k: int| j <= k < 8 ==> self.sprites@[k] == before[k],
            decreases 8 - j,
        {
            let mut sprite = self.sprites[j];
            if sprite.counter > 0 {
                sprite.counter = sprite.counter - 1;
            } else {
                sprite.lshift = sprite.lshift / 2;
                sprite.hshift = sprite.hshift / 2;
            }
            self.sprites[j] = sprite;
            j = j + 1;
        }
        assert(self.sprites@ =~= before.map_values(|s: Sprite| s.advanced()));
        assert(self.sprites =~= units_advanced(snapshot.sprites));
    }
}

/// The sprite units after a drawn dot: each counts down to its X position, then shifts
/// out a pixel.
pub open spec fn units_advanced(u: [Sprite; 8]) -> [Sprite; 8] {
    let a0 = vstd::array::spec_array_update(u, 0, u@[0].advanced());
    let a1 = vstd::array::spec_array_update(a0, 1, u@[1].advanced());
    let a2 = vstd::array::spec_array_update(a1, 2, u@[2].advanced());
    let a3 = vstd::array::spec_array_update(a2, 3, u@[3].advanced());
    let a4 = vstd::array::spec_array_update(a3, 4, u@[4].advanced());
    let a5 = vstd::array::spec_array_update(a4, 5, u@[5].advanced());
    let a6 = vstd::array::spec_array_update(a5, 6, u@[6].advanced());
    vstd::array::spec_array_update(a6, 7, u@[7].advanced())
}

/// The PPU after drawing the dot, but for the picture itself (see `frame_drawn`): the
/// sprite units advance and a sprite 0 hit is recorded.
pub open spec fn dot_drawn(p: Ppu) -> Ppu {
    Ppu {
        sprites: units_advanced(p.sprites),
        status: if p.sprite_zero_hit() {
            p.status | STATUS_SPRITE_0_HIT
        } else {
            p.status
        },
        ..p
    }
}

/// The picture after drawing the dot: its color goes at the dot's position.
pub open spec fn frame_drawn(p: Ppu) -> Seq<u8> {
    p.frame_data@.update(p.scanline * SCANLINE_WIDTH + p.scycle - 1, p.dot_color())
}

/// The background shift registers after one dot: the tile registers move by one pixel,
/// the attribute register by one two-bit entry.
pub open spec fn shifted(p: Ppu) -> Ppu {
    Ppu {
        ltile_sreg: ((p.ltile_sreg * 2) % 0x10000) as u16,
        htile_sreg: ((p.htile_sreg * 2) % 0x10000) as u16,
        attr_sreg: ((p.attr_sreg * 4) % 0x1_0000_0000) as u32,
        ..p
    }
}

/// The fetched tile enters the low byte of the tile registers and its palette fills the
/// low half of the attribute register.
pub open spec fn shift_registers_loaded(p: Ppu) -> Ppu {
    let attr = Scroll::tile_attribute(p.address.address, p.next_attr);
    Ppu {
        ltile_sreg: (p.ltile_sreg / 0x100 * 0x100 + p.next_ltile) as u16,
        htile_sreg: (p.htile_sreg / 0x100 * 0x100 + p.next_htile) as u16,
        attr_sreg: (p.attr_sreg / 0x10000 * 0x10000 + attr * 0x5555) as u32,
        ..p
    }
}

/// One dot of background fetching: the shift registers move; over each eight dots the
/// nametable byte, the attribute byte and the two pattern bytes are read, and after the
/// last one the tile enters the shift registers and the address moves a tile right.
pub open spec fn background_fetched(p: Ppu, m: Memory) -> Ppu {
    let p1 = shifted(p);
    let k = (p.scycle - 1) % 8;
    let a = p.address.address;
    if k == 1 {
        Ppu { next_name: m.mapper.chr_read(m.vram@, Scroll::nametable_address(a)), ..p1 }
    } else if k == 3 {
        Ppu { next_attr: m.mapper.chr_read(m.vram@, Scroll::attribute_address(a)), ..p1 }
    } else if k == 5 {
        Ppu { next_ltile: m.mapper.chr_read(m.vram@, p.address.tile_address(p.next_name)), ..p1 }
    } else if k == 7 {
        let high = m.mapper.chr_read(
            m.vram@,
            ((p.address.tile_address(p.next_name) + 8) % 0x10000) as u16,
        );
        let p2 = shift_registers_loaded(Ppu { next_htile: high, ..p1 });
        Ppu {
            address: Scroll { address: Scroll::coarse_x_incremented(a), ..p2.address },
            ..p2
        }
    } else {
        p1
    }
}

/// The pattern address of row `y_offset` of the tile of a sprite: 8x16 sprites take
/// the table from bit 0 of the tile number.
pub open spec fn sprite_pattern_address(big: bool, table: u16, tile: u8, y_offset: u16) -> u16 {
    if big {
        (((tile / 2 + tile % 2 * 0x80) as u16) << 4u16) | y_offset
    } else {
        table | ((tile as u16) << 4u16) | y_offset
    }
}

/// A pattern byte as it enters a sprite shift register, which shifts out bit 0 first:
/// reversed unless the sprite is flipped horizontally.
pub open spec fn sprite_pattern(s: Sprite, b: u8) -> u8 {
    if s.attributes & 0x40 != 0 {
        b
    } else {
        reversed(b)
    }
}

/// One dot of sprite fetching: over each eight dots one sprite unit gets its latch,
/// its X counter and the two pattern bytes of its row.
pub open spec fn sprite_fetched(p: Ppu, m: Memory) -> Ppu {
    let i = ((p.scycle - 1) / 8) % 8;
    let s = p.sprites@[i];
    let y_offset = ((p.scanline as u8 - s.y_pos + 0x100) % 0x100) as u16;
    let table = if p.ctrl & CTRL_SPRITE_PATTERN != 0 { 0x1000u16 } else { 0u16 };
    let address = sprite_pattern_address(p.ctrl & CTRL_SPRITE_SIZE != 0, table, s.tile, y_offset);
    let k = (p.scycle - 1) % 8;
    let s1 = if k == 3 {
        Sprite { latch: s.attributes, ..s }
    } else if k == 4 {
        Sprite { counter: s.x_pos, ..s }
    } else if k == 5 {
        Sprite { lshift: sprite_pattern(s, m.mapper.chr_read(m.vram@, address)), ..s }
    } else if k == 7 {
        Sprite {
            hshift: sprite_pattern(s, m.mapper.chr_read(m.vram@, ((address + 8) % 0x10000) as u16)),
            ..s
        }
    } else {
        s
    };
    Ppu { sprites: vstd::array::spec_array_update(p.sprites, i, s1), ..p }
}

impl Ppu {
    fn set_shift_regs(&mut self)
        requires
            old(self).wf(),
        ensures
            *final(self) == shift_registers_loaded(*old(self)),
            final(self).wf(),
    {
        // The next tile goes into the low byte of each pattern shift register.
        self.ltile_sreg = self.ltile_sreg / 0x100 * 0x100 + self.next_ltile as u16;
        self.htile_sreg = self.htile_sreg / 0x100 * 0x100 + self.next_htile as u16;
        let next = self.next_attr;
        let attr = self.address.get_tile_attribute(next) as u32;
        // attr is a 2 bit palette index, broadcast that into 16 bits
        let broadcast = attr * 0x5555;
        self.attr_sreg = self.attr_sreg / 0x10000 * 0x10000 + broadcast;
    }

    /// Shifts the background registers by one pixel.
    fn shift_registers(&mut self)
        ensures
            *final(self) == shifted(*old(self)),
    {
        let (l, h, t) = (self.ltile_sreg, self.htile_sreg, self.attr_sreg);
        assert(l << 1u16 == (l * 2) % 0x10000 && h << 1u16 == (h * 2) % 0x10000 && t << 2u32 == (t
            * 4) % 0x1_0000_0000) by (bit_vector);
        self.ltile_sreg = self.ltile_sreg << 1;
        self.htile_sreg = self.htile_sreg << 1;
        self.attr_sreg = self.attr_sreg << 2;
    }

    fn fetch_background(&mut self, memory: &mut Memory)
        requires
            old(self).wf(),
            (old(self).scycle - 1) % 8 == 5 || (old(self).scycle - 1) % 8 == 7 ==> old(
                memory,
            ).mapper.chr_ok(),
            old(self).scycle >= 1,
        ensures
            *final(self) == background_fetched(*old(self), *old(memory)),
            *final(memory) == *old(memory),
            final(self).wf(),
    {
        self.shift_registers();
        // First cycle is idle
        let k = (self.scycle - 1) % 8;
        if k == 1 {
            let address = self.address.get_nametable_address();
            self.next_name = memory.chr_load(address);
        } else if k == 3 {
            let address = self.address.get_attribute_address();
            self.next_attr = memory.chr_load(address);
        } else if k == 5 {
            let index = self.next_name;
            let address = self.address.get_tile_address(index);
            self.next_ltile = memory.chr_load(address);
        } else if k == 7 {
            let index = self.next_name;
            let address = self.address.get_tile_address(index);
            self.next_htile = memory.chr_load(address.wrapping_add(8));
            // load the next shift registers.
            self.set_shift_regs();
            // Increment horizontal scroll
            self.address.increment_coarse_x();
        }
    }

    /// The pattern address of the current row of sprite unit `s`.
    fn sprite_address(&self, s: Sprite) -> (r: u16)
        ensures
            r == sprite_pattern_address(
                self.ctrl & CTRL_SPRITE_SIZE != 0,
                if self.ctrl & CTRL_SPRITE_PATTERN != 0 { 0x1000u16 } else { 0u16 },
                s.tile,
                ((self.scanline as u8 - s.y_pos + 0x100) % 0x100) as u16,
            ),
    {
        let big_sprites = self.sprite_big();
        let table = self.sprite_table();
        // Get fine Y position
        let y_offset = (self.scanline as u8).wrapping_sub(s.y_pos) as u16;
        // Compose the table, and the tile address with the fine Y position
        let tile = s.tile;
        // Bit 0 of the tile selects the pattern table of a tall sprite.
        let rotated = tile / 2 + tile % 2 * 0x80;
        if big_sprites {
            ((rotated as u16) << 4) | y_offset
        } else {
            table | ((tile as u16) << 4) | y_offset
        }
    }

    fn fetch_sprite(&mut self, memory: &mut Memory)
        requires
            old(self).wf(),
            (old(self).scycle - 1) % 8 == 5 || (old(self).scycle - 1) % 8 == 7 ==> old(
                memory,
            ).mapper.chr_ok(),
            old(self).scycle >= 1,
        ensures
            *final(self) == sprite_fetched(*old(self), *old(memory)),
            *final(memory) == *old(memory),
            final(self).wf(),
    {
        let i = ((self.scycle - 1) / 8) % 8;
        let mut sprite = self.sprites[i];
        let address = self.sprite_address(sprite);
        let next = address.wrapping_add(8);
        assert(next == ((address + 8) % 0x10000) as u16);
        let k = (self.scycle - 1) % 8;
        if k == 3 {
            sprite.latch = sprite.attributes;
        } else if k == 4 {
            sprite.counter = sprite.x_pos;
        } else if k == 5 {
            let b = memory.chr_load(address);
            sprite.lshift = if !sprite.flip_horizontally() {
                reverse_byte(b)
            } else {
                b
            };
        } else if k == 7 {
            let b = memory.chr_load(next);
            sprite.hshift = if !sprite.flip_horizontally() {
                reverse_byte(b)
            } else {
                b
            };
        }
        self.sprites[i] = sprite;
    }
}

/// Whether the rendering work of a dot draws a pixel: dots 1 to 256 of the visible
/// scanlines.
pub open spec fn draws(p: Ppu) -> bool {
    p.scanline < SCANLINE_COUNT && 1 <= p.scycle <= SCANLINE_WIDTH
}

/// The rendering work of one dot, but for the picture itself (see `frame_drawn`): on
/// the pre-render scanline the vertical scroll is copied (dots 280-304) and the sprite
/// flags are cleared (dot 1); dot 257 copies the horizontal scroll and dots 257-320
/// fetch the sprites; the other dots, up to 336, draw (on visible scanlines) and fetch
/// the background, with the address moving a line down at dot 256; on visible
/// scanlines the sprite evaluation runs too and reports overflows.
pub open spec fn rendered(p: Ppu, m: Memory) -> Ppu {
    let sc = p.scycle;
    let sl = p.scanline;
    let p1 = if 240 <= sl <= 260 {
        p
    } else if 280 <= sc <= 304 && sl == 261 {
        Ppu { address: Scroll::vertical_copied(p.address), ..p }
    } else if sc == 257 {
        Ppu { address: Scroll::horizontal_copied(p.address), ..p }
    } else if 257 <= sc <= 320 {
        sprite_fetched(p, m)
    } else if sc == 1 && sl == 261 {
        Ppu { status: p.status & !(STATUS_SPRITE_0_HIT | STATUS_SPRITE_OVERFLOW), ..p }
    } else if sc == 0 || 337 <= sc <= 340 {
        p
    } else {
        let pd = if sc < 257 && sl != 261 {
            dot_drawn(p)
        } else {
            p
        };
        let pb = background_fetched(pd, m);
        if sc == 256 {
            Ppu {
                address: Scroll { address: Scroll::y_incremented(pb.address.address), ..pb.address },
                ..pb
            }
        } else {
            pb
        }
    };
    if 0 < p1.scanline < 240 {
        let (o, units, overflow) = oam_step(p1.oam, p1.scycle, p1.scanline as u8, p1.sprites);
        Ppu {
            oam: o,
            sprites: units,
            status: if overflow {
                p1.status | STATUS_SPRITE_OVERFLOW
            } else {
                p1.status
            },
            ..p1
        }
    } else {
        p1
    }
}

/// The CPU's view of memory is untouched by the PPU: only the nametable RAM, the bus
/// status, the interrupt line and the published read registers may change.
pub open spec fn cpu_side_unchanged(m0: Memory, m1: Memory) -> bool {
    &&& m1.ram == m0.ram
    &&& m1.mapper == m0.mapper
    &&& m1.io_load_status == m0.io_load_status
    &&& m1.latch == m0.latch
    &&& m1.oamdma == m0.oamdma
    &&& m1.io_strobe == m0.io_strobe
    &&& m1.joy_key == m0.joy_key
}

/// Writing PPUCTRL with the NMI bit newly set during vertical blank raises an NMI.
pub open spec fn nmi_on_ctrl_write(p: Ppu, m: Memory) -> bool {
    &&& m.mem_store_status == MemState::PpuCtrl
    &&& p.ctrl & CTRL_NMI == 0
    &&& m.latch & CTRL_NMI != 0
    &&& p.status & STATUS_VBLANK != 0
}

/// The PPU and memory after the PPU has taken the CPU's last register write and read:
/// a write reaches PPUCTRL, PPUMASK, OAMADDR, OAMDATA, PPUSCROLL, PPUADDR or PPUDATA; a
/// read of PPUSTATUS clears the vertical blank bit and the write toggle, and a read of
/// PPUDATA fills the read buffer. Both bus statuses are consumed.
pub open spec fn latched(p: Ppu, m: Memory) -> (Ppu, Memory) {
    let latch = m.latch;
    let write = m.mem_store_status;
    let m1 = Memory { mem_store_status: MemState::NoState, ..m };
    let (p2, m2) = if write == MemState::PpuCtrl {
        (
            Ppu { ctrl: latch, address: Scroll::ctrl_written(p.address, latch), ..p },
            if nmi_on_ctrl_write(p, m) {
                Memory { interrupt: Some(Interrupt::NMI), ..m1 }
            } else {
                m1
            },
        )
    } else if write == MemState::PpuMask {
        (Ppu { mask: latch, ..p }, m1)
    } else if write == MemState::OamAddr {
        (Ppu { oam: Oam { address: latch, ..p.oam }, ..p }, m1)
    } else if write == MemState::OamData {
        (Ppu { oam: p.oam.data_written(latch), ..p }, m1)
    } else if write == MemState::PpuScroll {
        (Ppu { address: Scroll::scroll_written(p.address, latch), ..p }, m1)
    } else if write == MemState::PpuAddr {
        (Ppu { address: Scroll::address_written(p.address), ..p }, m1)
    } else if write == MemState::PpuData {
        p.data_written(m1, latch)
    } else {
        (p, m1)
    };
    let read = m2.mem_load_status;
    let m3 = Memory { mem_load_status: MemState::NoState, ..m2 };
    if read == MemState::PpuStatus {
        (
            Ppu {
                address: Scroll { write_flag: false, ..p2.address },
                status: p2.status & !STATUS_VBLANK,
                ..p2
            },
            m3,
        )
    } else if read == MemState::PpuData {
        (Ppu { address: p2.address_moved(), data_buffer: p2.data_read(m3), ..p2 }, m3)
    } else {
        (p2, m3)
    }
}

/// The frame counter after a dot: it counts the passes over the last dot of a frame.
pub open spec fn frames_after(p: Ppu) -> u64 {
    if p.scycle == 340 && p.scanline == 261 {
        (p.frames + 1) as u64
    } else {
        p.frames
    }
}

/// Dots since the frame began, counting no dot at the end of a scanline.
pub open spec fn cycles_after(p: Ppu) -> u32 {
    if p.scycle == 340 && p.scanline == 261 {
        0
    } else if p.scycle == 340 {
        p.cycles
    } else {
        (p.cycles + 1) as u32
    }
}

/// The PPU and memory after one dot, but for the picture itself (see
/// `frame_after_dot`): the PPU takes the CPU's register accesses, does the rendering
/// work when rendering is on, sets the vertical blank bit at dot 1 of scanline 241
/// (raising an NMI when enabled) and clears it at dot 1 of scanline 261, moves to the
/// next dot, and publishes the registers that the CPU can read.
#[verifier::opaque]
pub open spec fn ppu_step(p: Ppu, m: Memory) -> (Ppu, Memory) {
    let (p1, m1) = latched(p, m);
    let p2 = if p1.render_enabled() {
        rendered(p1, m1)
    } else {
        p1
    };
    let (p3, m3) = if p2.scycle == 1 && p2.scanline == 241 {
        (
            Ppu { status: p2.status | STATUS_VBLANK, ..p2 },
            if p2.ctrl & CTRL_NMI != 0 {
                Memory { interrupt: Some(Interrupt::NMI), ..m1 }
            } else {
                m1
            },
        )
    } else if p2.scycle == 1 && p2.scanline == 261 {
        (Ppu { status: p2.status & !STATUS_VBLANK, ..p2 }, m1)
    } else {
        (p2, m1)
    };
    let (sc, sl) = next_dot(p3.scycle as int, p3.scanline as int);
    let p4 = Ppu {
        scycle: sc as usize,
        scanline: sl as usize,
        cycles: cycles_after(p3),
        frames: frames_after(p3),
        ..p3
    };
    (
        p4,
        Memory {
            ppu_read_regs: PpuReadRegs {
                data: p4.data_buffer,
                oam: p4.oam.mem@[p4.oam.address as int],
                status: p4.status,
            },
            ..m3
        },
    )
}

/// Whether a dot may read the pattern tables (and so the cartridge's CHR ROM): when
/// rendering is on once the CPU's register writes are taken, or when the CPU reads
/// PPUDATA.
pub open spec fn reads_patterns(p: Ppu, m: Memory) -> bool {
    let p1 = latched(p, m).0;
    m.mem_load_status == MemState::PpuData || (p1.render_enabled() && pattern_dot(p1))
}

/// Whether the rendering work of the dot reads a pattern byte: the low or high plane of
/// a background tile (dots 1-256 and 321-336) or of a sprite (dots 258-320, but for the
/// vertical scroll copy of the pre-render line), on the visible and pre-render lines.
pub open spec fn pattern_dot(p: Ppu) -> bool {
    let sc = p.scycle;
    let sl = p.scanline;
    &&& sl < 240 || sl == 261
    &&& sc >= 1
    &&& (sc - 1) % 8 == 5 || (sc - 1) % 8 == 7
    &&& sc <= 256 || (258 <= sc <= 320 && !(sl == 261 && 280 <= sc <= 304)) || 321 <= sc <= 336
}

/// Whether a dot reads the pattern tables does not depend on the picture.
pub proof fn lemma_patterns_ignore_picture(p: Ppu, m: Memory, f: Vec<u8>)
    ensures
        reads_patterns(Ppu { frame_data: f, ..p }, m) == reads_patterns(p, m),
{
}

/// Whether a dot is the one at which the OAM is shown for debugging: dot 1 of the
/// pre-render scanline, with rendering on.
pub open spec fn oam_shown(p: Ppu, m: Memory) -> bool {
    let p1 = latched(p, m).0;
    p1.render_enabled() && p1.scycle == 1 && p1.scanline == 261
}

/// The picture `frame` after one dot: the dot is drawn when rendering is on and the
/// dot is visible.
#[verifier::opaque]
pub open spec fn frame_dot(p: Ppu, m: Memory, frame: Seq<u8>) -> Seq<u8> {
    let p1 = latched(p, m).0;
    if p1.render_enabled() && draws(p1) {
        frame.update(p1.scanline * SCANLINE_WIDTH + p1.scycle - 1, p1.dot_color())
    } else {
        frame
    }
}

/// The PPU's picture after one dot.
pub open spec fn frame_after_dot(p: Ppu, m: Memory) -> Seq<u8> {
    frame_dot(p, m, p.frame_data@)
}

proof fn lemma_latched_ignores_picture(p: Ppu, m: Memory, f: Vec<u8>)
    ensures
        latched(Ppu { frame_data: f, ..p }, m) == (
            Ppu { frame_data: f, ..latched(p, m).0 },
            latched(p, m).1,
        ),
{
}

proof fn lemma_fetches_ignore_picture(p: Ppu, m: Memory, f: Vec<u8>)
    ensures
        dot_drawn(Ppu { frame_data: f, ..p }) == (Ppu { frame_data: f, ..dot_drawn(p) }),
        background_fetched(Ppu { frame_data: f, ..p }, m) == (Ppu {
            frame_data: f,
            ..background_fetched(p, m)
        }),
        sprite_fetched(Ppu { frame_data: f, ..p }, m) == (Ppu { frame_data: f, ..sprite_fetched(p, m) }),
{
    let q = Ppu { frame_data: f, ..p };
    assert(q.dot_color() == p.dot_color() && q.sprite_zero_hit() == p.sprite_zero_hit());
}

proof fn lemma_rendered_ignores_picture(p: Ppu, m: Memory, f: Vec<u8>)
    ensures
        rendered(Ppu { frame_data: f, ..p }, m) == (Ppu { frame_data: f, ..rendered(p, m) }),
{
    lemma_fetches_ignore_picture(p, m, f);
    lemma_fetches_ignore_picture(dot_drawn(p), m, f);
}

/// The dot's work does not depend on the picture drawn so far.
pub proof fn lemma_step_ignores_picture(p: Ppu, m: Memory, f: Vec<u8>, frame: Seq<u8>)
    ensures
        ppu_step(Ppu { frame_data: f, ..p }, m).0 == (Ppu { frame_data: f, ..ppu_step(p, m).0 }),
        ppu_step(Ppu { frame_data: f, ..p }, m).1 == ppu_step(p, m).1,
        frame_dot(Ppu { frame_data: f, ..p }, m, frame) == frame_dot(p, m, frame),
        oam_shown(Ppu { frame_data: f, ..p }, m) == oam_shown(p, m),
{
    reveal(ppu_step);
    reveal(frame_dot);
    lemma_latched_ignores_picture(p, m, f);
    let (p1, m1) = latched(p, m);
    lemma_rendered_ignores_picture(p1, m1, f);
    assert(Ppu { frame_data: f, ..p1 }.dot_color() == p1.dot_color());
}

/// Setting or clearing the other status bits leaves the vertical blank bit alone.
proof fn lemma_status_bits(s: u8)
    by (bit_vector)
    ensures
        (s | 0x40u8) & 0x80u8 == s & 0x80u8,
        (s | 0x20u8) & 0x80u8 == s & 0x80u8,
        (s & !(0x40u8 | 0x20u8)) & 0x80u8 == s & 0x80u8,
        (s | 0x80u8) & 0x80u8 != 0,
        (s & !0x80u8) & 0x80u8 == 0,
{
}

impl Ppu {
    /* load store latches */
    fn ls_latches(&mut self, memory: &mut Memory)
        requires
            old(self).wf(),
            old(memory).mem_load_status == MemState::PpuData ==> old(memory).mapper.chr_ok(),
        ensures
            (*final(self), *final(memory)) == latched(*old(self), *old(memory)),
            final(self).wf(),
            cpu_side_unchanged(*old(memory), *final(memory)),
            final(memory).mem_store_status == MemState::NoState,
            final(memory).mem_load_status == MemState::NoState,
            final(memory).ppu_read_regs == old(memory).ppu_read_regs,
            final(memory).interrupt == if nmi_on_ctrl_write(*old(self), *old(memory)) {
                Some(Interrupt::NMI)
            } else {
                old(memory).interrupt
            },
            final(self).ctrl == if old(memory).mem_store_status == MemState::PpuCtrl {
                old(memory).latch
            } else {
                old(self).ctrl
            },
            final(self).mask == if old(memory).mem_store_status == MemState::PpuMask {
                old(memory).latch
            } else {
                old(self).mask
            },
            final(self).status == if old(memory).mem_load_status == MemState::PpuStatus {
                old(self).status & !STATUS_VBLANK
            } else {
                old(self).status
            },
            final(self).scanline == old(self).scanline,
            final(self).scycle == old(self).scycle,
            final(self).cycles == old(self).cycles,
            final(self).frames == old(self).frames,
            final(self).frame_data == old(self).frame_data,
            final(self).sprites == old(self).sprites,
    {
        let (latch, status) = memory.get_latch();
        if status == MemState::PpuCtrl {
            if !(self.ctrl & CTRL_NMI > 0) && latch & CTRL_NMI > 0 && self.status & STATUS_VBLANK > 0 {
                memory.set_interrupt(Interrupt::NMI);
            }
            self.ctrl = latch;
            self.address.set_ppuctrl(latch);
        } else if status == MemState::PpuMask {
            self.mask = latch;
        } else if status == MemState::OamAddr {
            self.oam.set_address(latch);
        } else if status == MemState::OamData {
            self.oam.store_data(latch);
        } else if status == MemState::PpuScroll {
            self.address.set_scroll(latch);
        } else if status == MemState::PpuAddr {
            self.address.set_address(latch);
        } else if status == MemState::PpuData {
            self.store(memory, latch);
        }
        let read_status = memory.ppu_load_status();
        if read_status == MemState::PpuStatus {
            self.address.reset();
            self.status = self.status & !STATUS_VBLANK;
        } else if read_status == MemState::PpuData {
            self.data_buffer = self.load(memory);
        }
    }

    /// The rendering work of one dot: scroll copies, background and sprite fetches,
    /// drawing, and sprite evaluation.
    fn render_step(&mut self, memory: &mut Memory)
        requires
            old(self).wf(),
            pattern_dot(*old(self)) ==> old(memory).mapper.chr_ok(),
        ensures
            final(self).frame_data@ == if draws(*old(self)) {
                frame_drawn(*old(self))
            } else {
                old(self).frame_data@
            },
            *final(self) == (Ppu { frame_data: final(self).frame_data, ..rendered(*old(self), *old(memory)) }),
            final(self).wf(),
            *final(memory) == *old(memory),
            (final(self).status & STATUS_VBLANK) == (old(self).status & STATUS_VBLANK),
            final(self).scanline == old(self).scanline,
            final(self).scycle == old(self).scycle,
            final(self).cycles == old(self).cycles,
            final(self).frames == old(self).frames,
            final(self).ctrl == old(self).ctrl,
            final(self).data_buffer == old(self).data_buffer,
    {
        let scycle = self.scycle;
        let scanline = self.scanline;
        if 240 <= scanline && scanline <= 260 {
            // Idle scanlines
        } else if 280 <= scycle && scycle <= 304 && scanline == 261 {
            // Last scanline, updates vertical scroll
            self.address.copy_vertical();
        } else if scycle == 257 {
            // Dot 257 updates horizontal scroll
            self.address.copy_horizontal();
        } else if 257 <= scycle && scycle <= 320 {
            // This syncs with sprite evaluation in oam
            self.fetch_sprite(memory);
        } else if scycle == 1 && scanline == 261 {
            // At prerender scanline we have to reset the sprite 0 hit
            proof {
                lemma_status_bits(self.status);
            }
            self.status = self.status & !(STATUS_SPRITE_0_HIT | STATUS_SPRITE_OVERFLOW);
        } else if scycle == 0 || (337 <= scycle && scycle <= 340) {
            // Idle cycles
        } else {
            // (1...256 + 321..336, 0...239 + 261)
            if scycle < 257 && scanline != 261 {
                proof {
                    lemma_status_bits(self.status);
                }
                self.draw_dot();
            }
            self.fetch_background(memory);
            if scycle == 256 {
                self.address.increment_y();
            }
        }
        if self.scanline < 240 && self.scanline > 0 {
            if self.oam.cycle(self.scycle, self.scanline as u8, &mut self.sprites) {
                proof {
                    lemma_status_bits(self.status);
                }
                self.status = self.status | STATUS_SPRITE_OVERFLOW;
            }
        }
    }

    /// One dot. The result tells whether the dot was the one (dot 1 of the pre-render
    /// scanline, rendering on) at which the OAM is shown for debugging.
    pub fn cycle(&mut self, memory: &mut Memory) -> (r: bool)
        requires
            old(self).wf(),
            reads_patterns(*old(self), *old(memory)) ==> old(memory).mapper.chr_ok(),
            old(self).frames < u64::MAX,
        ensures
            r == oam_shown(*old(self), *old(memory)),
            final(self).frame_data@ == frame_after_dot(*old(self), *old(memory)),
            *final(self) == (Ppu {
                frame_data: final(self).frame_data,
                ..ppu_step(*old(self), *old(memory)).0
            }),
            *final(memory) == ppu_step(*old(self), *old(memory)).1,
            final(self).wf(),
            (final(self).scycle as int, final(self).scanline as int) == next_dot(
                old(self).scycle as int,
                old(self).scanline as int,
            ),
            final(self).frames == frames_after(*old(self)),
            final(self).cycles == cycles_after(*old(self)),
            // VBLANK starts at dot 1 of scanline 241 and ends at dot 1 of scanline 261;
            // reading PPUSTATUS clears it.
            (final(self).status & STATUS_VBLANK != 0) == if old(self).scycle == 1
                && old(self).scanline == 241 {
                true
            } else if old(self).scycle == 1 && old(self).scanline == 261 {
                false
            } else if old(memory).mem_load_status == MemState::PpuStatus {
                false
            } else {
                old(self).status & STATUS_VBLANK != 0
            },
            old(self).scycle == 1 && old(self).scanline == 241 && final(self).ctrl & CTRL_NMI != 0
                ==> final(memory).interrupt == Some(Interrupt::NMI),
            cpu_side_unchanged(*old(memory), *final(memory)),
            final(memory).mem_store_status == MemState::NoState,
            final(memory).mem_load_status == MemState::NoState,
            final(memory).ppu_read_regs == (PpuReadRegs {
                data: final(self).data_buffer,
                oam: final(self).oam.mem@[final(self).oam.address as int],
                status: final(self).status,
            }),
    {
        proof {
            lemma_status_bits(self.status);
            reveal(ppu_step);
            reveal(frame_dot);
        }
        // Update PPU with what the CPU hay have sent to memory latch
        self.ls_latches(memory);
        let shown = self.render_on() && self.scycle == 1 && self.scanline == 261;
        if self.render_on() {
            self.render_step(memory);
        }
        // VBLANK
        if self.scycle == 1 && self.scanline == 241 {
            proof {
                lemma_status_bits(self.status);
            }
            self.status = self.status | STATUS_VBLANK;
            if self.ctrl & CTRL_NMI > 0 {
                memory.set_interrupt(Interrupt::NMI);
            }
        } else if self.scycle == 1 && self.scanline == 261 {
            proof {
                lemma_status_bits(self.status);
            }
            self.status = self.status & !STATUS_VBLANK;
        }
        // When render is not activated the loop is shorter
        if self.scycle == 340 && self.scanline == 261 {
            // reset scanline values and qty of cycles
            // TODO: Skip a cycle on odd frames and background on
            self.scycle = 0;
            self.scanline = 0;
            self.cycles = 0;
            self.frames = self.frames + 1;
        } else if self.scycle == 340 {
            // if we finished the current scanline we pass to the next one
            self.scanline = self.scanline + 1;
            self.scycle = 0;
        } else {
            self.scycle = self.scycle + 1;
            self.cycles = self.cycles + 1;
        }
        let read_regs = PpuReadRegs {
            data: self.data_buffer,
            oam: self.oam.load_data(),
            status: self.status,
        };
        // Update memory PPU registers copy
        memory.set_ppu_read_regs(read_regs);
        shown
    }
}

/// The dot position (dot in the scanline, scanline) after `n` dots from the start of a
/// frame.
pub open spec fn dots(n: nat) -> (int, int)
    decreases n,
{
    if n == 0 {
        (0, 0)
    } else {
        let (scycle, scanline) = dots((n - 1) as nat);
        next_dot(scycle, scanline)
    }
}

/// Frame timing: a frame is 262 scanlines of 341 dots. After `n` dots from the start
/// of a frame the PPU is at dot `k % 341` of scanline `k / 341`, where `k` is `n`
/// modulo the 89342 dots of a frame; a frame ends (and the frame counter moves on) at
/// dot 340 of scanline 261, once every 89342 dots.
pub proof fn lemma_frame_timing(n: nat)
    ensures
        dots(n) == (((n % 89342) % 341) as int, ((n % 89342) / 341) as int),
        (dots(n) == (340int, 261int)) == (n % 89342 == 89341),
    decreases n,
{
    if n > 0 {
        lemma_frame_timing((n - 1) as nat);
        let k = ((n - 1) % 89342) as int;
        let c = k % 341;
        let l = k / 341;
        lemma_fundamental_div_mod(k, 341);
        if k == 89341 {
            lemma_fundamental_div_mod_converse(n as int, 89342, (n - 1) / 89342 + 1, 0);
            lemma_fundamental_div_mod_converse(n as int - 1, 89342, (n - 1) / 89342, 89341);
        } else {
            lemma_fundamental_div_mod(n as int - 1, 89342);
            lemma_fundamental_div_mod_converse(n as int, 89342, (n - 1) / 89342, k + 1);
            if c == 340 {
                lemma_fundamental_div_mod_converse(k + 1, 341, l + 1, 0);
            } else {
                lemma_fundamental_div_mod_converse(k + 1, 341, l, c + 1);
            }
        }
        let m = (n % 89342) as int;
        lemma_fundamental_div_mod(m, 341);
        if m % 341 == 340 && m / 341 == 261 {
            assert(m == 89341);
        }
    } else {
        assert((((0nat % 89342) % 341) as int, ((0nat % 89342) / 341) as int) == (0int, 0int));
    }
}

/// OAM reads back what OAMDATA wrote: after a write at OAM address `a`, pointing the
/// OAM address at `a` again shows the byte written; the other bytes are unchanged.
pub proof fn lemma_oam_read_after_write(o: Oam, a: u8, value: u8, b: u8)
    ensures
        (Oam { address: a, ..o }).data_written(value).mem@[a as int] == value,
        b != a ==> (Oam { address: a, ..o }).data_written(value).mem@[b as int] == o.mem@[b as int],
        (Oam { address: a, ..o }).data_written(value).address == add8(a, 1),
{
}

/// Reading PPUSTATUS clears the vertical blank bit and the write toggle shared by
/// PPUSCROLL and PPUADDR, whatever register the CPU wrote before.
pub proof fn lemma_status_read(p: Ppu, m: Memory)
    requires
        m.mem_load_status == MemState::PpuStatus,
    ensures
        latched(p, m).0.status & STATUS_VBLANK == 0,
        !latched(p, m).0.address.write_flag,
        latched(p, m).1.mem_load_status == MemState::NoState,
{
    let (p1, m1) = latched(p, m);
    lemma_status_bits(p1.status);
    lemma_status_bits(p.status);
}

/// The vertical blank bit after `n` dots from the start of a frame with the bit clear,
/// when the CPU does not read PPUSTATUS: it is set at dot 1 of scanline 241 and cleared
/// at dot 1 of scanline 261, as `Ppu::cycle` does.
pub open spec fn vblank_after(n: nat) -> bool
    decreases n,
{
    if n == 0 {
        false
    } else {
        let (scycle, scanline) = dots((n - 1) as nat);
        if scycle == 1 && scanline == 241 {
            true
        } else if scycle == 1 && scanline == 261 {
            false
        } else {
            vblank_after((n - 1) as nat)
        }
    }
}

/// Vertical blank in every frame: when PPUSTATUS is not read, the bit is set from dot 1
/// of scanline 241 (dot 82182 of the frame) until dot 1 of scanline 261 (dot 89002), and
/// clear in the rest of every frame.
pub proof fn lemma_vblank_each_frame(n: nat)
    requires
        n >= 1,
    ensures
        vblank_after(n) == (82182 <= (n - 1) % 89342 < 89002),
    decreases n,
{
    lemma_frame_timing((n - 1) as nat);
    let j = ((n - 1) % 89342) as int;
    lemma_fundamental_div_mod(j, 341);
    assert((j % 341 == 1 && j / 341 == 241) <==> j == 82182);
    assert((j % 341 == 1 && j / 341 == 261) <==> j == 89002);
    assert(dots((n - 1) as nat) == (j % 341, j / 341));
    if n == 1 {
        assert(j == 0);
        assert(vblank_after(0) == false);
    }
    if n > 1 {
        lemma_vblank_each_frame((n - 1) as nat);
        if j == 0 {
            lemma_fundamental_div_mod_converse(n as int - 1, 89342, (n - 1) / 89342, 0);
            lemma_fundamental_div_mod(n as int - 2, 89342);
            assert((n - 2) % 89342 == 89341);
        } else {
            lemma_fundamental_div_mod(n as int - 1, 89342);
            lemma_fundamental_div_mod_converse(n as int - 2, 89342, (n - 1) / 89342, j - 1);
            assert((n - 2) % 89342 == j - 1);
        }
        assert(vblank_after(n) == if j == 82182 {
            true
        } else if j == 89002 {
            false
        } else {
            vblank_after((n - 1) as nat)
        });
    }
}

/// The PPU and memory after `k` dots of the PPU alone.
pub open spec fn ppu_run(p: Ppu, m: Memory, k: nat) -> (Ppu, Memory)
    decreases k,
{
    if k == 0 {
        (p, m)
    } else {
        let (p1, m1) = ppu_run(p, m, (k - 1) as nat);
        ppu_step(p1, m1)
    }
}

proof fn lemma_vblank_bits(s: u8)
    ensures
        (s | STATUS_VBLANK) & STATUS_VBLANK != 0,
        (s & !STATUS_VBLANK) & STATUS_VBLANK == 0,
{
    lemma_status_bits(s);
}

/// Vertical blank over a run of the PPU alone: from the first dot of a frame, with the
/// bit clear, rendering off and no register access pending, the PPU is at dot `dots(k)`
/// after `k` dots, and its vertical blank bit, as the PPU holds it and as the CPU reads
/// it through PPUSTATUS, is set exactly from dot 1 of scanline 241 until dot 1 of
/// scanline 261 of every frame.
pub proof fn lemma_vblank_over_run(p: Ppu, m: Memory, k: nat)
    requires
        p.scycle == 0,
        p.scanline == 0,
        p.status & STATUS_VBLANK == 0,
        !p.render_enabled(),
        m.mem_load_status == MemState::NoState,
        m.mem_store_status == MemState::NoState,
    ensures
        ({
            let (q, n) = ppu_run(p, m, k);
            &&& (q.scycle as int, q.scanline as int) == dots(k)
            &&& (q.status & STATUS_VBLANK != 0) == vblank_after(k)
            &&& k >= 1 ==> (q.status & STATUS_VBLANK != 0) == (82182 <= (k - 1) % 89342 < 89002)
            &&& k >= 1 ==> n.ppu_read_regs.status == q.status
            &&& !q.render_enabled()
            &&& n.mem_load_status == MemState::NoState
            &&& n.mem_store_status == MemState::NoState
        }),
    decreases k,
{
    if k > 0 {
        lemma_vblank_over_run(p, m, (k - 1) as nat);
        lemma_vblank_each_frame(k);
        lemma_frame_timing((k - 1) as nat);
        let (q, n) = ppu_run(p, m, (k - 1) as nat);
        assert(latched(q, n) == (q, n));
        lemma_vblank_bits(q.status);
        reveal(ppu_step);
    }
}

/// Sprite pattern bytes as fetched: over each eight dots from 258, one sprite unit takes
/// the two pattern bytes of its row (at dot 6 and dot 8 of the eight). A sprite whose
/// attribute bit 6 is clear is not flipped: its shift register gets the byte reversed,
/// so that bit 7, the leftmost pixel, is shifted out first; with bit 6 set the byte goes
/// in as it is, bit 0 first.
pub proof fn lemma_sprite_fetch_order(p: Ppu, m: Memory)
    requires
        p.scycle >= 1,
    ensures
        ({
            let k = (p.scycle - 1) % 8;
            let i = ((p.scycle - 1) / 8) % 8;
            let s = p.sprites@[i as int];
            let y_offset = ((p.scanline as u8 - s.y_pos + 0x100) % 0x100) as u16;
            let table = if p.ctrl & CTRL_SPRITE_PATTERN != 0 { 0x1000u16 } else { 0u16 };
            let address = sprite_pattern_address(p.ctrl & CTRL_SPRITE_SIZE != 0, table, s.tile, y_offset);
            let low = m.mapper.chr_read(m.vram@, address);
            let high = m.mapper.chr_read(m.vram@, ((address + 8) % 0x10000) as u16);
            let u = sprite_fetched(p, m).sprites@[i as int];
            &&& k == 5 ==> forall|n: u8|
                n < 8 ==> #[trigger] bit_of(u.lshift, n) == if s.attributes & 0x40 == 0 {
                    bit_of(low, (7 - n) as u8)
                } else {
                    bit_of(low, n)
                }
            &&& k == 7 ==> forall|n: u8|
                n < 8 ==> #[trigger] bit_of(u.hshift, n) == if s.attributes & 0x40 == 0 {
                    bit_of(high, (7 - n) as u8)
                } else {
                    bit_of(high, n)
                }
        }),
{
    let i = ((p.scycle - 1) / 8) % 8;
    let s = p.sprites@[i as int];
    let y_offset = ((p.scanline as u8 - s.y_pos + 0x100) % 0x100) as u16;
    let table = if p.ctrl & CTRL_SPRITE_PATTERN != 0 { 0x1000u16 } else { 0u16 };
    let address = sprite_pattern_address(p.ctrl & CTRL_SPRITE_SIZE != 0, table, s.tile, y_offset);
    lemma_reversed_bits(m.mapper.chr_read(m.vram@, address));
    lemma_reversed_bits(m.mapper.chr_read(m.vram@, ((address + 8) % 0x10000) as u16));
}

/// Which pixel a dot shows. With both the background pixel and the front sprite pixel
/// transparent (index 0), the universal background color; with only one opaque, that
/// one. With both opaque, the sprite's when its attribute bit 5 is clear (in front of
/// the background), the background's when it is set. The sprite color is entry
/// `(attributes & 3) + 4` of the palettes, the background color entry `palette` of them.
/// Sprite 0 is hit exactly when sprite 0 is the front sprite, both pixels are opaque and
/// the sprite is in front.
pub proof fn lemma_pixel_priority(p: Ppu)
    ensures
        ({
            let b = p.background_index();
            let s = p.sprite_index();
            let f = p.front_sprite();
            let attributes = p.sprites@[f->0].attributes;
            let sprite_color = p.palette@[((attributes & 3) + 4) * 4 + s];
            let background_color = p.palette@[p.background_palette() * 4 + b];
            &&& s != 0 ==> f is Some
            &&& b == 0 && s == 0 ==> p.dot_color() == p.palette@[0] && !p.sprite_zero_hit()
            &&& b == 0 && s != 0 ==> p.dot_color() == sprite_color && !p.sprite_zero_hit()
            &&& b != 0 && s == 0 ==> p.dot_color() == background_color && !p.sprite_zero_hit()
            &&& b != 0 && s != 0 && attributes & 0x20 == 0 ==> p.dot_color() == sprite_color
                && p.sprite_zero_hit() == (f == Some(0int))
            &&& b != 0 && s != 0 && attributes & 0x20 != 0 ==> p.dot_color() == background_color
                && !p.sprite_zero_hit()
        }),
{
    let f = p.front_sprite();
    if f is Some {
        let a = p.sprites@[f->0].attributes;
        assert(a & 3 == a % 4) by (bit_vector);
    }
}

/// Background fetching over the eight dots of a tile, stated over the bits of the VRAM
/// address `a` (coarse X in bits 0-4, coarse Y in 5-9, the nametable in 10-11, fine Y
/// in 12-14): the second dot reads the tile number at 0x2000 + the low twelve bits of
/// `a`; the fourth the attribute byte at 0x23C0, in the same nametable, at row coarse
/// Y / 4 and column coarse X / 4; the sixth the low pattern plane at the pattern table
/// plus 16 times the tile number plus fine Y; the eighth the high plane eight bytes on.
/// On the eighth the tile enters the low bytes of the pattern shift registers, and the
/// two bits of the attribute byte for the tile's quadrant (shift 4 when coarse Y & 2,
/// plus 2 when coarse X & 2) fill the low half of the attribute shift register.
#[verifier::rlimit(40)]
pub proof fn lemma_background_fetch(p: Ppu, m: Memory)
    requires
        p.scycle >= 1,
    ensures
        ({
            let k = (p.scycle - 1) % 8;
            let a = p.address.address;
            let r = background_fetched(p, m);
            let pattern = (p.address.bg_offset + p.next_name * 16 + (a >> 12) % 8) as u16;
            let shift = ((a >> 4) & 4) | (a & 2);
            &&& k == 1 ==> r.next_name == m.mapper.chr_read(m.vram@, (0x2000 | (a & 0x0FFF)) as u16)
            &&& k == 3 ==> r.next_attr == m.mapper.chr_read(
                m.vram@,
                (0x23C0 | (a & 0x0C00) | ((a >> 4) & 0x38) | ((a >> 2) & 0x07)) as u16,
            )
            &&& k == 5 ==> r.next_ltile == m.mapper.chr_read(m.vram@, pattern)
            &&& k == 7 ==> {
                &&& r.next_htile == m.mapper.chr_read(m.vram@, ((pattern + 8) % 0x10000) as u16)
                &&& r.ltile_sreg % 0x100 == p.next_ltile
                &&& r.htile_sreg % 0x100 == r.next_htile
                &&& r.attr_sreg % 0x10000 == 0x5555 * ((p.next_attr >> shift) & 3)
            }
        }),
{
    let a = p.address.address;
    let attr = p.next_attr;
    assert((0x2000 | (a & 0x0FFF)) as u16 == 0x2000 + a % 0x1000 && (0x23C0 | (a & 0x0C00) | ((a
        >> 4) & 0x38) | ((a >> 2) & 0x07)) == 0x23C0 + ((a / 0x800) % 2 * 2 + (a / 0x400) % 2)
        * 0x400 + (a / 32) % 32 / 4 * 8 + a % 32 / 4 && (a >> 12) % 8 == (a / 0x1000) % 8)
        by (bit_vector);
    let shift = ((a >> 4) & 4) | (a & 2);
    let t = Scroll::tile_attribute(a, attr);
    assert(t == (attr >> shift) & 3) by (bit_vector)
        requires
            shift == ((a >> 4) & 4) | (a & 2),
            t == if (a / 32) % 32 % 4 < 2 {
                if a % 32 % 4 < 2 {
                    attr % 4
                } else {
                    attr / 4 % 4
                }
            } else {
                if a % 32 % 4 < 2 {
                    attr / 16 % 4
                } else {
                    attr / 64
                }
            },
    ;
    let p1 = shifted(p);
    assert(((p1.attr_sreg / 0x10000 * 0x10000 + t * 0x5555) as u32) % 0x10000 == t * 0x5555)
        by (nonlinear_arith)
        requires
            t <= 3,
    ;
}

/// The start of vertical blank: at dot 1 of scanline 241 the vertical blank bit (bit 7
/// of the status) is set, and an NMI is requested when bit 7 of PPUCTRL is set; with
/// that bit clear no interrupt is requested by the dot.
pub proof fn lemma_vblank_start(p: Ppu, m: Memory)
    ensures
        ({
            let (p1, m1) = latched(p, m);
            let (q, n) = ppu_step(p, m);
            p1.scycle == 1 && p1.scanline == 241 ==> {
                &&& q.status & 0x80 != 0
                &&& p1.ctrl & 0x80 != 0 ==> n.interrupt == Some(Interrupt::NMI)
                &&& p1.ctrl & 0x80 == 0 ==> n.interrupt == m1.interrupt
            }
        }),
{
    reveal(ppu_step);
    let (p1, m1) = latched(p, m);
    let p2 = if p1.render_enabled() { rendered(p1, m1) } else { p1 };
    lemma_status_bits(p2.status);
}

/// The palette: addresses repeat every 32 bytes; the backdrop entries of the sprite
/// palettes (0x10, 0x14, 0x18, 0x1C) are those of the background palettes; every
/// address reaches one of the 32 entries, and an entry reached maps to itself.
pub proof fn lemma_palette_mirror(address: int)
    requires
        address >= 0,
    ensures
        0 <= palette_index(address) < PALETTE_SIZE,
        palette_index(address) == palette_index(address % 0x20),
        palette_index(palette_index(address)) == palette_index(address),
        address % 0x20 >= 0x10 && address % 4 == 0 ==> palette_index(address) == address % 0x20 - 0x10,
        address % 4 != 0 ==> palette_index(address) == address % 0x20,
{
}

/// A write to a palette entry through the data port is read back, from any address
/// mirroring it, as the six low bits of the byte written.
pub proof fn lemma_palette_read_after_write(palette: [u8; 0x20], a: int, value: u8, b: int)
    requires
        a >= 0,
        b >= 0,
        palette_index(a) == palette_index(b),
    ensures
        vstd::array::spec_array_update(palette, palette_index(a), value % 0x40)@[palette_index(b)]
            == value % 0x40,
{
}

} // verus!
