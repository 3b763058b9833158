use rnes::utils::{hex_digit, print_mem, push_hex_byte, push_hex_upper, reverse_byte};

#[test]
fn hex_digits() {
    assert_eq!(hex_digit(0), "0");
    assert_eq!(hex_digit(9), "9");
    assert_eq!(hex_digit(10), "a");
    assert_eq!(hex_digit(15), "f");
    let mut s = String::new();
    push_hex_byte(&mut s, 0x0F);
    push_hex_byte(&mut s, 0xA0);
    assert_eq!(s, "0fa0");
}

#[test]
fn memory_dump_lines_of_sixteen() {
    let mem: Vec<u8> = (0..18u8).collect();
    let mut out = String::new();
    print_mem(&mut out, &mem);
    assert_eq!(
        out,
        "00 01 02 03 04 05 06 07 08 09 0a 0b 0c 0d 0e 0f \n10 11 "
    );
    let mut empty = String::from("x");
    print_mem(&mut empty, &[]);
    assert_eq!(empty, "x");
}

#[test]
fn reversed_bits() {
    assert_eq!(reverse_byte(0x01), 0x80);
    assert_eq!(reverse_byte(0x80), 0x01);
    assert_eq!(reverse_byte(0xF0), 0x0F);
    assert_eq!(reverse_byte(0b1011_0010), 0b0100_1101);
    for b in 0..=255u8 {
        assert_eq!(reverse_byte(reverse_byte(b)), b);
    }
}

#[test]
fn padded_uppercase_hex() {
    let mut s = String::new();
    push_hex_upper(&mut s, 0xC0DE, 4);
    push_hex_upper(&mut s, 0x5, 2);
    push_hex_upper(&mut s, 0xAB, 4);
    assert_eq!(s, "C0DE0500AB");
    let mut s = String::new();
    push_hex_upper(&mut s, 0x1234, 2);
    assert_eq!(s, "1234");
}
