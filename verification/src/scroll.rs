use vstd::prelude::*;
use vstd::arithmetic::div_mod::lemma_fundamental_div_mod_converse;
use vstd::string::StringExecFns;
use crate::header::{decimal, push_decimal};
use crate::utils::{hex_upper, push_hex};

verus! {

pub const ATTRIBUTE_OFFSET: u16 = 0x03C0;
pub const NAMETABLE_OFFSET: u16 = 0x2000;
pub const NAMETABLE_X_BIT: u16 = 0x0400;
pub const NAMETABLE_Y_BIT: u16 = 0x0800;
pub const NAMETABLE_MASK: u16 = 0x0C00;
pub const COARSE_X_MASK: u16 = 0x001F;
pub const COARSE_Y_MASK: u16 = 0x03E0;
pub const FINE_Y_MASK: u16 = 0x7000;
pub const HORIZONTAL_MASK: u16 = 0x041F;
pub const VERTICAL_MASK: u16 = 0x7BE0;
pub const BG_OFFSET_FLAG: u8 = 0x10;
pub const INCREMENT_FLAG: u8 = 0x40;

/* Coarse is 5 upper bits of a scroll (Byte selection)
 * Fine is 3 lower bits of a scroll (Pixel selection inside byte)
 * Nametable selection is represented by 2 bits
 * Address and temporal are 15 bit wide and composed by:
 * fine_y | nametable | coarse_y | coarse_x
 * fine_x has its own separate register
 */

pub open spec fn coarse_x(a: u16) -> int {
    a as int % 32
}

pub open spec fn coarse_y(a: u16) -> int {
    (a as int / 32) % 32
}

pub open spec fn nametable_x(a: u16) -> int {
    (a as int / 0x400) % 2
}

pub open spec fn nametable_y(a: u16) -> int {
    (a as int / 0x800) % 2
}

pub open spec fn fine_y(a: u16) -> int {
    (a as int / 0x1000) % 8
}

/// Bit 15, outside the 15-bit register but kept by every operation.
pub open spec fn top_bit(a: u16) -> int {
    a as int / 0x8000
}

/// The scroll register made of its fields.
pub open spec fn compose(top: int, fy: int, nty: int, ntx: int, cy: int, cx: int) -> u16 {
    (top * 0x8000 + fy * 0x1000 + nty * 0x800 + ntx * 0x400 + cy * 32 + cx) as u16
}

/// The register with its vertical scroll (coarse and fine Y) set from the byte `value`.
pub open spec fn with_scroll_y(a: u16, value: u8) -> u16 {
    compose(top_bit(a), value as int % 8, nametable_y(a), nametable_x(a), value as int / 8, coarse_x(a))
}

pub fn set_scroll_y(address: &mut u16, value: u8)
    ensures
        *final(address) == with_scroll_y(*old(address), value),
{
    let a = *address;
    let fine = ((value & 0x07) as u16) << 12;
    let coarse = ((value & 0xF8) as u16) << 2;
    let r = a & !(COARSE_Y_MASK | FINE_Y_MASK) | fine | coarse;
    assert(r == with_scroll_y(a, value)) by (bit_vector)
        requires
            fine == ((value & 0x07u8) as u16) << 12u16,
            coarse == ((value & 0xF8u8) as u16) << 2u16,
            r == a & !(0x03E0u16 | 0x7000u16) | fine | coarse,
    ;
    *address = r;
}

/// The PPU scroll and address registers ("loopy" v, t, x and w).
pub struct Scroll {
    pub address: u16,
    pub temporal: u16,
    pub fine_x: u8,
    pub write_flag: bool,
    pub bg_offset: u16,
    pub increment: u16,
}

impl Default for Scroll {
    fn default() -> (r: Scroll)
        ensures
            r == (Scroll {
                address: 0,
                temporal: 0,
                fine_x: 0,
                write_flag: false,
                bg_offset: 0,
                increment: 1,
            }),
            r.wf(),
    {
        Scroll { address: 0, temporal: 0, fine_x: 0, write_flag: false, bg_offset: 0, increment: 1 }
    }
}

impl Scroll {
    pub open spec fn wf(&self) -> bool {
        &&& self.fine_x < 8
        &&& self.bg_offset == 0 || self.bg_offset == 0x1000
        &&& self.increment == 1 || self.increment == 32
    }

    /// The address after moving one tile right, wrapping into the horizontally next
    /// nametable after the last column.
    pub open spec fn coarse_x_incremented(a: u16) -> u16 {
        if coarse_x(a) == 31 {
            compose(top_bit(a), fine_y(a), nametable_y(a), 1 - nametable_x(a), coarse_y(a), 0)
        } else {
            compose(top_bit(a), fine_y(a), nametable_y(a), nametable_x(a), coarse_y(a), coarse_x(a) + 1)
        }
    }

    /// The vertical scroll as a byte: coarse Y times eight plus fine Y.
    pub open spec fn scroll_y(a: u16) -> u8 {
        (coarse_y(a) * 8 + fine_y(a)) as u8
    }

    /// The address after moving one pixel down: the vertical scroll byte goes up by one,
    /// and on reaching 240 (below the last row) it restarts at zero in the vertically
    /// next nametable.
    pub open spec fn y_incremented(a: u16) -> u16 {
        let y = ((Self::scroll_y(a) + 1) % 0x100) as u8;
        if y == 0xF0 {
            with_scroll_y((a ^ NAMETABLE_Y_BIT) as u16, 0)
        } else {
            with_scroll_y(a, y)
        }
    }

    /// The nametable byte of the tile at `a`.
    pub open spec fn nametable_address(a: u16) -> u16 {
        (0x2000 + a % 0x1000) as u16
    }

    /// The attribute byte covering the tile at `a`.
    pub open spec fn attribute_address(a: u16) -> u16 {
        (0x23C0 + (nametable_y(a) * 2 + nametable_x(a)) * 0x400 + coarse_y(a) / 4 * 8 + coarse_x(a)
            / 4) as u16
    }

    /// The low plane of the pattern of tile `index` on the current fine Y row.
    pub open spec fn tile_address(&self, index: u8) -> u16 {
        (self.bg_offset + index * 16 + fine_y(self.address)) as u16
    }

    /// The two attribute bits of the quadrant of the tile at `a`.
    pub open spec fn tile_attribute(a: u16, attribute: u8) -> u8 {
        if coarse_y(a) % 4 < 2 {
            if coarse_x(a) % 4 < 2 {
                attribute % 4
            } else {
                attribute / 4 % 4
            }
        } else {
            if coarse_x(a) % 4 < 2 {
                attribute / 16 % 4
            } else {
                attribute / 64
            }
        }
    }

    pub fn reset(&mut self)
        ensures
            *final(self) == (Scroll { write_flag: false, ..*old(self) }),
    {
        self.write_flag = false;
    }

    /// The current VRAM address (14 bits); then the address moves on: while rendering
    /// by a tile right and a pixel down, otherwise by the increment.
    pub fn get_address(&mut self, rendering: bool) -> (r: u16)
        requires
            old(self).wf(),
        ensures
            r == old(self).address % 0x4000,
            final(self).wf(),
            *final(self) == (Scroll {
                address: if rendering {
                    Self::y_incremented(Self::coarse_x_incremented(old(self).address))
                } else {
                    ((old(self).address + old(self).increment) % 0x10000) as u16
                },
                ..*old(self)
            }),
    {
        // The lower 14 bits compose a full address
        let a = self.address;
        let ret = a & 0x3FFF;
        assert(ret == a % 0x4000) by (bit_vector)
            requires
                ret == a & 0x3FFFu16,
        ;
        // FIXME: While rendering if increment_y or increment_coarse_x
        // were called in the same dot we shouldn't increment them here again
        if rendering {
            self.increment_coarse_x();
            self.increment_y();
        } else {
            self.address = self.address.wrapping_add(self.increment);
        }
        ret
    }

    /// The registers after a write to PPUADDR.
    pub open spec fn address_written(s: Scroll) -> Scroll {
        Scroll {
            address: if s.write_flag { s.temporal } else { s.address },
            write_flag: !s.write_flag,
            ..s
        }
    }

    /// A write to PPUADDR. The second write copies the temporal register into the
    /// address; neither write changes the temporal register.
    pub fn set_address(&mut self, value: u8)
        ensures
            *final(self) == Self::address_written(*old(self)),
    {
        if self.write_flag {
            self.address = self.temporal;
        }
        self.write_flag = !self.write_flag;
    }

    /// The nametable byte of the current tile.
    pub fn get_nametable_address(&self) -> (r: u16)
        ensures
            r == 0x2000 + self.address % 0x1000,
            r == Self::nametable_address(self.address),
    {
        // The lower 12 bits are the position in the nametables
        let a = self.address;
        assert(0x2000u16 | a & 0xFFFu16 == 0x2000 + a % 0x1000) by (bit_vector);
        NAMETABLE_OFFSET | self.address & 0xFFF
    }

    /// The attribute byte covering the current tile: one per 4x4 tiles, after the
    /// 960 tile bytes of the current nametable.
    pub fn get_attribute_address(&self) -> (r: u16)
        ensures
            r == 0x23C0 + (nametable_y(self.address) * 2 + nametable_x(self.address)) * 0x400
                + coarse_y(self.address) / 4 * 8 + coarse_x(self.address) / 4,
            r == Self::attribute_address(self.address),
    {
        // Nametable | High 3 bits of scroll_y | High 3 bits of scroll_x
        let a = self.address;
        let r = NAMETABLE_OFFSET | ATTRIBUTE_OFFSET | a & NAMETABLE_MASK | a >> 4 & 0x0038 | a >> 2
            & 0x0007;
        assert(r == 0x23C0 + (nametable_y(a) * 2 + nametable_x(a)) * 0x400 + coarse_y(a) / 4 * 8
            + coarse_x(a) / 4) by (bit_vector)
            requires
                r == 0x2000u16 | 0x03C0u16 | a & 0x0C00u16 | a >> 4u16 & 0x0038u16 | a >> 2u16
                    & 0x0007u16,
        ;
        r
    }

    /// The pattern table address of the low plane of tile `index`, on the current fine Y row.
    pub fn get_tile_address(&self, index: u8) -> (r: u16)
        requires
            self.wf(),
        ensures
            r == self.bg_offset + index * 16 + fine_y(self.address),
            r == self.tile_address(index),
    {
        let a = self.address;
        let b = self.bg_offset;
        let r = b | (index as u16) << 4 | (a & FINE_Y_MASK) >> 12;
        assert(r == b + index * 16 + fine_y(a)) by (bit_vector)
            requires
                b == 0 || b == 0x1000,
                r == b | (index as u16) << 4u16 | (a & 0x7000u16) >> 12u16,
        ;
        r
    }

    /// The two bits of an attribute byte that give the palette of the current tile:
    /// each bit pair covers a 2x2-tile quadrant of the 4x4-tile area.
    pub fn get_tile_attribute(&self, attribute: u8) -> (r: u8)
        ensures
            r == Self::tile_attribute(self.address, attribute),
            r == (if coarse_y(self.address) % 4 < 2 {
                if coarse_x(self.address) % 4 < 2 {
                    attribute % 4
                } else {
                    attribute / 4 % 4
                }
            } else {
                if coarse_x(self.address) % 4 < 2 {
                    attribute / 16 % 4
                } else {
                    attribute / 64
                }
            }),
    {
        let a = self.address;
        let index = (a & 0x0040) >> 4 | (a & 0x0002);
        assert(index <= 6) by (bit_vector)
            requires
                index == (a & 0x0040u16) >> 4u16 | (a & 0x0002u16),
        ;
        let r = attribute >> index & 0x3;
        assert(r == (if coarse_y(a) % 4 < 2 {
            if coarse_x(a) % 4 < 2 {
                attribute % 4
            } else {
                attribute / 4 % 4
            }
        } else {
            if coarse_x(a) % 4 < 2 {
                attribute / 16 % 4
            } else {
                attribute / 64
            }
        })) by (bit_vector)
            requires
                index == (a & 0x0040u16) >> 4u16 | (a & 0x0002u16),
                r == attribute >> index & 0x3u8,
        ;
        r
    }

    /// The registers after a write of `value` to PPUCTRL.
    pub open spec fn ctrl_written(s: Scroll, value: u8) -> Scroll {
        Scroll {
            temporal: compose(
                top_bit(s.temporal),
                fine_y(s.temporal),
                value as int / 2 % 2,
                value as int % 2,
                coarse_y(s.temporal),
                coarse_x(s.temporal),
            ),
            bg_offset: if value & BG_OFFSET_FLAG != 0 { 0x1000 } else { 0 },
            increment: if value & INCREMENT_FLAG != 0 { 32 } else { 1 },
            ..s
        }
    }

    /// A write to PPUCTRL: bits 0-1 select the nametable in the temporal register,
    /// bit 4 the background pattern table, bit 6 the address increment.
    pub fn set_ppuctrl(&mut self, value: u8)
        ensures
            *final(self) == Self::ctrl_written(*old(self), value),
            old(self).wf() ==> final(self).wf(),
    {
        // Set one of the four nametables from ppuctrl
        let t = self.temporal;
        let nt = ((value & 0x3) as u16) << 10;
        let t2 = t & !NAMETABLE_MASK | nt;
        assert(t2 == compose(top_bit(t), fine_y(t), value as int / 2 % 2, value as int % 2, coarse_y(t), coarse_x(t)))
            by (bit_vector)
            requires
                nt == ((value & 0x3u8) as u16) << 10u16,
                t2 == t & !0x0C00u16 | nt,
        ;
        self.temporal = t2;
        // bg_offset will be either 0x1000 or 0x0000 depending on the flag
        let bg = ((value & BG_OFFSET_FLAG) as u16) << 8;
        assert(bg == if value & 0x10u8 != 0 { 0x1000u16 } else { 0u16 }) by (bit_vector)
            requires
                bg == ((value & 0x10u8) as u16) << 8u16,
        ;
        self.bg_offset = bg;
        self.increment = if value & INCREMENT_FLAG > 0 { 32 } else { 1 };
    }

    /// The registers after a write to PPUSCROLL.
    pub open spec fn scroll_written(s: Scroll, value: u8) -> Scroll {
        if s.write_flag {
            Scroll { temporal: with_scroll_y(s.temporal, value), write_flag: false, ..s }
        } else {
            Scroll {
                fine_x: value % 8,
                temporal: Self::with_scroll_x(s.temporal, value),
                write_flag: true,
                ..s
            }
        }
    }

    /// A write to PPUSCROLL: the first write sets the horizontal scroll, the second the
    /// vertical one.
    pub fn set_scroll(&mut self, value: u8)
        ensures
            *final(self) == Self::scroll_written(*old(self), value),
            old(self).wf() ==> final(self).wf(),
    {
        if self.write_flag {
            set_scroll_y(&mut self.temporal, value);
        } else {
            self.set_scroll_x(value);
        }
        self.write_flag = !self.write_flag;
    }

    /// The register with its coarse X set from the five top bits of `value`.
    pub open spec fn with_scroll_x(a: u16, value: u8) -> u16 {
        compose(top_bit(a), fine_y(a), nametable_y(a), nametable_x(a), coarse_y(a), value as int / 8)
    }

    /// Sets the horizontal scroll: fine X from the low three bits, coarse X in the
    /// temporal register from the five top bits.
    pub fn set_scroll_x(&mut self, value: u8)
        ensures
            *final(self) == (Scroll {
                fine_x: value % 8,
                temporal: Self::with_scroll_x(old(self).temporal, value),
                ..*old(self)
            }),
    {
        assert(value & 7 == value % 8) by (bit_vector);
        self.fine_x = value & 0x7;
        let t = self.temporal;
        let t2 = t & !COARSE_X_MASK | ((value as u16) >> 3);
        assert(t2 == Self::with_scroll_x(t, value)) by (bit_vector)
            requires
                t2 == t & !0x001Fu16 | ((value as u16) >> 3u16),
        ;
        self.temporal = t2;
    }

    pub fn get_fine_x(&mut self) -> (r: u8)
        ensures
            r == old(self).fine_x,
            *final(self) == *old(self),
    {
        self.fine_x
    }

    pub fn get_scroll_y(&mut self) -> (r: u8)
        ensures
            r == Self::scroll_y(old(self).address),
            *final(self) == *old(self),
    {
        let a = self.address;
        let r = ((a & COARSE_Y_MASK) >> 2 | (a & FINE_Y_MASK) >> 12) as u8;
        assert(r == Self::scroll_y(a)) by (bit_vector)
            requires
                r == ((a & 0x03E0u16) >> 2u16 | (a & 0x7000u16) >> 12u16) as u8,
        ;
        r
    }

    /// Moves the address one tile right.
    pub fn increment_coarse_x(&mut self)
        ensures
            *final(self) == (Scroll {
                address: Self::coarse_x_incremented(old(self).address),
                ..*old(self)
            }),
    {
        let a = self.address;
        // If coarse_x is about to overflow
        if a & COARSE_X_MASK == COARSE_X_MASK {
            // Wrap coarse_x to 0 and go to next nametable
            let r = a & !COARSE_X_MASK ^ NAMETABLE_X_BIT;
            assert(r == Self::coarse_x_incremented(a)) by (bit_vector)
                requires
                    a & 0x001Fu16 == 0x001Fu16,
                    r == a & !0x001Fu16 ^ 0x0400u16,
            ;
            self.address = r;
        } else {
            assert(a + 1 == Self::coarse_x_incremented(a) && a + 1 <= 0xFFFF) by (bit_vector)
                requires
                    a & 0x001Fu16 != 0x001Fu16,
            ;
            self.address = a + 1;
        }
    }

    /// Moves the address one pixel down.
    pub fn increment_y(&mut self)
        ensures
            *final(self) == (Scroll { address: Self::y_incremented(old(self).address), ..*old(self) }),
    {
        let mut scroll_y = self.get_scroll_y().wrapping_add(1);
        // If coarse_y overflowed into the attribute table
        if scroll_y == 0xF0 {
            // Wrap coarse_y to 0 and go to next nametable
            scroll_y = 0;
            self.address = self.address ^ NAMETABLE_Y_BIT;
        }
        set_scroll_y(&mut self.address, scroll_y);
    }

    /// The registers with coarse X and the horizontal nametable bit of the address
    /// taken from the temporal register.
    pub open spec fn horizontal_copied(s: Scroll) -> Scroll {
        let (a, t) = (s.address, s.temporal);
        Scroll {
            address: compose(top_bit(a), fine_y(a), nametable_y(a), nametable_x(t), coarse_y(a), coarse_x(t)),
            ..s
        }
    }

    /// The registers with fine Y, coarse Y and the vertical nametable bit of the address
    /// taken from the temporal register.
    pub open spec fn vertical_copied(s: Scroll) -> Scroll {
        let (a, t) = (s.address, s.temporal);
        Scroll {
            address: compose(top_bit(a), fine_y(t), nametable_y(t), nametable_x(a), coarse_y(t), coarse_x(a)),
            ..s
        }
    }

    /// Copies coarse X and the horizontal nametable bit from the temporal register.
    pub fn copy_horizontal(&mut self)
        ensures
            *final(self) == Self::horizontal_copied(*old(self)),
    {
        let a = self.address;
        let t = self.temporal;
        let r = a & !HORIZONTAL_MASK | t & HORIZONTAL_MASK;
        assert(r == compose(top_bit(a), fine_y(a), nametable_y(a), nametable_x(t), coarse_y(a), coarse_x(t)))
            by (bit_vector)
            requires
                r == a & !0x041Fu16 | t & 0x041Fu16,
        ;
        self.address = r;
    }

    /// Copies fine Y, coarse Y and the vertical nametable bit from the temporal register.
    pub fn copy_vertical(&mut self)
        ensures
            *final(self) == Self::vertical_copied(*old(self)),
    {
        let a = self.address;
        let t = self.temporal;
        let r = a & !VERTICAL_MASK | t & VERTICAL_MASK;
        assert(r == compose(top_bit(a), fine_y(t), nametable_y(t), nametable_x(a), coarse_y(t), coarse_x(a)))
            by (bit_vector)
            requires
                r == a & !0x7BE0u16 | t & 0x7BE0u16,
        ;
        self.address = r;
    }
}

impl Scroll {
    /// The registers as the debugger shows them.
    pub open spec fn describe_spec(&self) -> Seq<char> {
        "address: 0x"@ + hex_upper(self.address as nat) + ", temporal: 0x"@ + hex_upper(
            self.temporal as nat,
        ) + ", fine_x: 0x"@ + hex_upper(self.fine_x as nat) + ", write_flag: "@ + (if self.write_flag {
            "true"@
        } else {
            "false"@
        }) + ", bg_offset: 0x"@ + hex_upper(self.bg_offset as nat) + ", increment: "@ + decimal(
            self.increment as nat,
        )
    }

    pub fn describe(&self) -> (r: String)
        ensures
            r@ == self.describe_spec(),
    {
        let mut out = String::from_str("address: 0x");
        push_hex(&mut out, self.address);
        out.append(", temporal: 0x");
        push_hex(&mut out, self.temporal);
        out.append(", fine_x: 0x");
        push_hex(&mut out, self.fine_x as u16);
        out.append(", write_flag: ");
        if self.write_flag {
            out.append("true");
        } else {
            out.append("false");
        }
        out.append(", bg_offset: 0x");
        push_hex(&mut out, self.bg_offset);
        out.append(", increment: ");
        push_decimal(&mut out, self.increment);
        assert(out@ =~= self.describe_spec());
        out
    }
}

/// Every 16-bit value is made of its scroll fields.
pub proof fn lemma_fields_compose(a: u16)
    ensures
        a == compose(top_bit(a), fine_y(a), nametable_y(a), nametable_x(a), coarse_y(a), coarse_x(a)),
        top_bit(a) < 2,
{
    assert(a == (a / 0x8000) * 0x8000 + ((a / 0x1000) % 8) * 0x1000 + ((a / 0x800) % 2) * 0x800
        + ((a / 0x400) % 2) * 0x400 + ((a / 32) % 32) * 32 + a % 32 && a / 0x8000 < 2)
        by (bit_vector);
}

/// Composing fields and reading them back gives the fields.
pub proof fn lemma_compose_fields(top: int, fy: int, nty: int, ntx: int, cy: int, cx: int)
    requires
        0 <= top < 2,
        0 <= fy < 8,
        0 <= nty < 2,
        0 <= ntx < 2,
        0 <= cy < 32,
        0 <= cx < 32,
    ensures
        ({
            let a = compose(top, fy, nty, ntx, cy, cx);
            &&& top_bit(a) == top
            &&& fine_y(a) == fy
            &&& nametable_y(a) == nty
            &&& nametable_x(a) == ntx
            &&& coarse_y(a) == cy
            &&& coarse_x(a) == cx
        }),
{
    let v = top * 0x8000 + fy * 0x1000 + nty * 0x800 + ntx * 0x400 + cy * 32 + cx;
    assert(compose(top, fy, nty, ntx, cy, cx) as int == v);
    let q32 = top * 0x400 + fy * 0x80 + nty * 0x40 + ntx * 0x20 + cy;
    lemma_fundamental_div_mod_converse(v, 32, q32, cx);
    lemma_fundamental_div_mod_converse(q32, 32, top * 0x20 + fy * 4 + nty * 2 + ntx, cy);
    let q400 = top * 0x20 + fy * 4 + nty * 2 + ntx;
    lemma_fundamental_div_mod_converse(v, 0x400, q400, cy * 32 + cx);
    lemma_fundamental_div_mod_converse(q400, 2, top * 0x10 + fy * 2 + nty, ntx);
    let q800 = top * 0x10 + fy * 2 + nty;
    lemma_fundamental_div_mod_converse(v, 0x800, q800, ntx * 0x400 + cy * 32 + cx);
    lemma_fundamental_div_mod_converse(q800, 2, top * 8 + fy, nty);
    let q1000 = top * 8 + fy;
    lemma_fundamental_div_mod_converse(v, 0x1000, q1000, nty * 0x800 + ntx * 0x400 + cy * 32 + cx);
    lemma_fundamental_div_mod_converse(q1000, 8, top, fy);
    lemma_fundamental_div_mod_converse(v, 0x8000, top, fy * 0x1000 + nty * 0x800 + ntx * 0x400 + cy * 32 + cx);
}

/// The field ranges of any 16-bit value.
proof fn lemma_field_ranges(a: u16)
    ensures
        0 <= fine_y(a) < 8,
        0 <= nametable_y(a) < 2,
        0 <= nametable_x(a) < 2,
        0 <= coarse_y(a) < 32,
        0 <= coarse_x(a) < 32,
        0 <= top_bit(a) < 2,
{
    lemma_fields_compose(a);
}

/// Setting the vertical scroll from a byte and reading it back gives the byte; the
/// horizontal scroll, the nametable selection and bit 15 stay as they were.
pub proof fn lemma_scroll_y_round_trip(a: u16, value: u8)
    ensures
        Scroll::scroll_y(with_scroll_y(a, value)) == value,
        coarse_x(with_scroll_y(a, value)) == coarse_x(a),
        nametable_x(with_scroll_y(a, value)) == nametable_x(a),
        nametable_y(with_scroll_y(a, value)) == nametable_y(a),
        top_bit(with_scroll_y(a, value)) == top_bit(a),
{
    lemma_fields_compose(a);
    lemma_compose_fields(
        top_bit(a),
        value as int % 8,
        nametable_y(a),
        nametable_x(a),
        value as int / 8,
        coarse_x(a),
    );
}

/// Moving one tile right: coarse X goes up by one, and from 31 wraps to 0 in the
/// horizontally next nametable; the vertical position and the vertical nametable stay.
pub proof fn lemma_coarse_x_increment(a: u16)
    ensures
        coarse_x(Scroll::coarse_x_incremented(a)) == (coarse_x(a) + 1) % 32,
        nametable_x(Scroll::coarse_x_incremented(a)) == if coarse_x(a) == 31 {
            1 - nametable_x(a)
        } else {
            nametable_x(a)
        },
        coarse_y(Scroll::coarse_x_incremented(a)) == coarse_y(a),
        fine_y(Scroll::coarse_x_incremented(a)) == fine_y(a),
        nametable_y(Scroll::coarse_x_incremented(a)) == nametable_y(a),
        top_bit(Scroll::coarse_x_incremented(a)) == top_bit(a),
{
    lemma_fields_compose(a);
    if coarse_x(a) == 31 {
        lemma_compose_fields(top_bit(a), fine_y(a), nametable_y(a), 1 - nametable_x(a), coarse_y(a), 0);
    } else {
        lemma_compose_fields(
            top_bit(a),
            fine_y(a),
            nametable_y(a),
            nametable_x(a),
            coarse_y(a),
            coarse_x(a) + 1,
        );
    }
}

/// Moving one pixel down: the vertical scroll (coarse Y times eight plus fine Y) goes up
/// by one, and from 239 restarts at 0 in the vertically next nametable; the horizontal
/// position and the horizontal nametable stay.
pub proof fn lemma_y_increment(a: u16)
    ensures
        ({
            let b = Scroll::y_incremented(a);
            let y = Scroll::scroll_y(a);
            &&& Scroll::scroll_y(b) == if y == 239 { 0 } else { (y + 1) % 0x100 }
            &&& nametable_y(b) == if y == 239 { 1 - nametable_y(a) } else { nametable_y(a) }
            &&& coarse_x(b) == coarse_x(a)
            &&& nametable_x(b) == nametable_x(a)
            &&& top_bit(b) == top_bit(a)
        }),
{
    let y = Scroll::scroll_y(a);
    let f = (a ^ 0x800u16) as u16;
    assert((f / 0x800) % 2 == 1 - (a / 0x800) % 2 && f % 32 == a % 32 && (f / 0x400) % 2 == (a
        / 0x400) % 2 && f / 0x8000 == a / 0x8000) by (bit_vector)
        requires
            f == a ^ 0x800u16,
    ;
    lemma_scroll_y_round_trip(a, ((y + 1) % 0x100) as u8);
    lemma_scroll_y_round_trip(f, 0);
}

/// Two writes to PPUSCROLL, from a cleared write toggle, set the horizontal scroll
/// (fine X and coarse X) from the first byte and the vertical scroll (coarse and fine Y)
/// from the second; the toggle is cleared again, and the nametable selection and the
/// current address are untouched.
pub proof fn lemma_scroll_two_writes(s: Scroll, x: u8, y: u8)
    requires
        !s.write_flag,
    ensures
        ({
            let s2 = Scroll::scroll_written(Scroll::scroll_written(s, x), y);
            &&& s2.fine_x == x % 8
            &&& coarse_x(s2.temporal) == x / 8
            &&& Scroll::scroll_y(s2.temporal) == y
            &&& nametable_x(s2.temporal) == nametable_x(s.temporal)
            &&& nametable_y(s2.temporal) == nametable_y(s.temporal)
            &&& !s2.write_flag
            &&& s2.address == s.address
        }),
{
    let t = s.temporal;
    lemma_field_ranges(t);
    let t1 = Scroll::with_scroll_x(t, x);
    lemma_compose_fields(top_bit(t), fine_y(t), nametable_y(t), nametable_x(t), coarse_y(t), x as int / 8);
    lemma_field_ranges(t1);
    let t2 = with_scroll_y(t1, y);
    lemma_compose_fields(top_bit(t1), y as int % 8, nametable_y(t1), nametable_x(t1), y as int / 8, coarse_x(t1));
}

/// Copying the horizontal and then the vertical bits of the temporal register makes the
/// current address equal to it in all fifteen bits of the register.
pub proof fn lemma_copy_both(s: Scroll)
    ensures
        Scroll::vertical_copied(Scroll::horizontal_copied(s)).address % 0x8000 == s.temporal % 0x8000,
        Scroll::vertical_copied(Scroll::horizontal_copied(s)).temporal == s.temporal,
{
    let (a, t) = (s.address, s.temporal);
    lemma_field_ranges(a);
    lemma_field_ranges(t);
    lemma_compose_fields(top_bit(a), fine_y(a), nametable_y(a), nametable_x(t), coarse_y(a), coarse_x(t));
    let a1 = compose(top_bit(a), fine_y(a), nametable_y(a), nametable_x(t), coarse_y(a), coarse_x(t));
    lemma_fields_compose(t);
    let low = fine_y(t) * 0x1000 + nametable_y(t) * 0x800 + nametable_x(t) * 0x400 + coarse_y(t) * 32 + coarse_x(t);
    lemma_fundamental_div_mod_converse(t as int, 0x8000, top_bit(t), low);
    lemma_fundamental_div_mod_converse(
        compose(top_bit(a1), fine_y(t), nametable_y(t), nametable_x(a1), coarse_y(t), coarse_x(a1)) as int,
        0x8000,
        top_bit(a),
        low,
    );
}

/// Two writes to PPUADDR, from a cleared write toggle, load the temporal register into
/// the current address and clear the toggle again.
pub proof fn lemma_address_two_writes(s: Scroll)
    requires
        !s.write_flag,
    ensures
        ({
            let s2 = Scroll::address_written(Scroll::address_written(s));
            s2.address == s.temporal && !s2.write_flag && s2.temporal == s.temporal
        }),
{
}

} // verus!
