use rnes::scroll::{set_scroll_y, Scroll};

fn scroll() -> Scroll {
    Scroll::default()
}

#[test]
fn two_scroll_writes_set_x_then_y() {
    let mut s = scroll();
    s.set_scroll(0x7D); // coarse X 15, fine X 5
    assert!(s.write_flag);
    assert_eq!(s.fine_x, 5);
    assert_eq!(s.temporal & 0x1F, 15);
    s.set_scroll(0x5E); // coarse Y 11, fine Y 6
    assert!(!s.write_flag);
    assert_eq!(s.temporal, (6 << 12) | (11 << 5) | 15);
    // The vertical scroll reads back once the address takes it
    s.copy_vertical();
    assert_eq!(s.get_scroll_y(), 0x5E);
    assert_eq!(s.get_fine_x(), 5);
}

#[test]
fn ppuctrl_selects_nametable_pattern_table_and_increment() {
    let mut s = scroll();
    s.set_ppuctrl(0x53);
    assert_eq!(s.temporal, 0x0C00);
    assert_eq!(s.bg_offset, 0x1000);
    assert_eq!(s.increment, 32);
    s.set_ppuctrl(0x00);
    assert_eq!(s.temporal, 0);
    assert_eq!(s.bg_offset, 0);
    assert_eq!(s.increment, 1);
}

#[test]
fn address_writes_copy_the_temporal_register() {
    let mut s = scroll();
    s.temporal = 0x2345;
    s.set_address(0x21);
    assert!(s.write_flag);
    assert_eq!(s.address, 0);
    s.set_address(0x08);
    assert!(!s.write_flag);
    assert_eq!(s.address, 0x2345);
    s.reset();
    assert!(!s.write_flag);
}

#[test]
fn get_address_moves_by_the_increment() {
    let mut s = scroll();
    s.address = 0x7FFF;
    assert_eq!(s.get_address(false), 0x3FFF);
    assert_eq!(s.address, 0x8000);
    s.set_ppuctrl(0x40);
    assert_eq!(s.get_address(false), 0x0000);
    assert_eq!(s.address, 0x8020);
}

#[test]
fn coarse_x_wraps_into_the_next_nametable() {
    let mut s = scroll();
    s.address = 0x001E;
    s.increment_coarse_x();
    assert_eq!(s.address, 0x001F);
    s.increment_coarse_x();
    assert_eq!(s.address, 0x0400);
    s.address = 0x041F;
    s.increment_coarse_x();
    assert_eq!(s.address, 0x0000);
}

#[test]
fn y_wraps_at_line_240_into_the_next_nametable() {
    let mut s = scroll();
    // coarse Y 29, fine Y 7: the last line of the nametable
    s.address = (7 << 12) | (29 << 5) | 3;
    s.increment_y();
    assert_eq!(s.address, 0x0800 | 3);
    s.address = (7 << 12) | (4 << 5);
    s.increment_y();
    assert_eq!(s.address, 5 << 5);
    s.address = 1 << 12;
    s.increment_y();
    assert_eq!(s.address, 2 << 12);
}

#[test]
fn copies_from_temporal() {
    let mut s = scroll();
    s.address = 0x7BE0;
    s.temporal = 0x041F;
    s.copy_horizontal();
    assert_eq!(s.address, 0x7FFF);
    s.address = 0x041F;
    s.temporal = 0x7BE0 | 0x8000;
    s.copy_vertical();
    assert_eq!(s.address, 0x7FFF);
    s.address = 0x1234;
    s.temporal = 0x6543;
    s.copy_horizontal();
    s.copy_vertical();
    assert_eq!(s.address, 0x6543);
}

#[test]
fn fetch_addresses() {
    let mut s = scroll();
    // nametable 3, coarse Y 17, coarse X 22, fine Y 5
    s.address = (5 << 12) | (3 << 10) | (17 << 5) | 22;
    assert_eq!(s.get_nametable_address(), 0x2000 | ((3 << 10) | (17 << 5) | 22));
    assert_eq!(s.get_attribute_address(), 0x23C0 | (3 << 10) | ((17 / 4) << 3) | (22 / 4));
    s.bg_offset = 0x1000;
    assert_eq!(s.get_tile_address(0x42), 0x1000 + 0x420 + 5);
    // quadrant: coarse Y 17 % 4 = 1 (top), coarse X 22 % 4 = 2 (right)
    assert_eq!(s.get_tile_attribute(0b11_10_01_00), 0b01);
}

#[test]
fn scroll_y_is_written_into_a_register() {
    let mut a: u16 = 0xFFFF;
    set_scroll_y(&mut a, 0);
    assert_eq!(a, 0xFFFF & !0x73E0);
    set_scroll_y(&mut a, 0xEF);
    assert_eq!(a, (0xFFFF & !0x73E0) | (7 << 12) | (29 << 5));
}

#[test]
fn scroll_description() {
    let mut s = scroll();
    assert_eq!(
        s.describe(),
        "address: 0x0, temporal: 0x0, fine_x: 0x0, write_flag: false, bg_offset: 0x0, increment: 1"
    );
    s.address = 0x2C0F;
    s.temporal = 0x7FFF;
    s.set_scroll(0xFF);
    s.set_ppuctrl(0x50);
    assert_eq!(
        s.describe(),
        "address: 0x2C0F, temporal: 0x73FF, fine_x: 0x7, write_flag: true, bg_offset: 0x1000, increment: 32"
    );
}
