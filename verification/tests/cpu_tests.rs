use rnes::cpu::{Regs, FLAG_CARRY, FLAG_OVERFLOW, FLAG_SIGN, FLAG_ZERO};
use rnes::nes::Nes;

/// An NROM image: 16 KiB of PRG (NOPs, with `program` from 0xC001 on) and 8 KiB of CHR.
fn rom_with_program(program: &[u8]) -> Vec<u8> {
    let mut rom = vec![0x4E, 0x45, 0x53, 0x1A, 1, 1, 0, 0, 0, 0, 0, 0, 0, 0, 0, 0];
    let mut prg = vec![0xEAu8; 0x4000];
    prg[1..1 + program.len()].copy_from_slice(program);
    rom.extend(prg);
    rom.extend(vec![0u8; 0x2000]);
    rom
}

/// Runs the instructions of `program` and gives the registers after the last one.
fn run(program: &[u8], instructions: usize) -> Regs {
    let rom = rom_with_program(program);
    let mut nes = Nes::new(&rom).expect("valid image");
    assert!(nes.is_valid());
    nes.reset();
    // The first step runs the operation in flight at power up and fetches 0xC001.
    nes.step();
    for _ in 0..instructions {
        nes.step();
    }
    nes.cpu().registers()
}

fn flag(r: &Regs, f: u8) -> bool {
    r.P & f != 0
}

#[test]
fn reset_starts_at_c000() {
    let rom = rom_with_program(&[]);
    let mut nes = Nes::new(&rom).unwrap();
    nes.reset();
    let r = nes.cpu().registers();
    assert_eq!(r.PC, 0xC000);
    assert_eq!(r.SP, 0xFD);
    assert_eq!(r.P, 0x24);
    assert_eq!(nes.cpu().cycle_count(), 0);
}

#[test]
fn lda_sets_zero_and_sign() {
    let r = run(&[0xA9, 0x00], 1);
    assert_eq!(r.A, 0);
    assert!(flag(&r, FLAG_ZERO));
    assert!(!flag(&r, FLAG_SIGN));
    let r = run(&[0xA9, 0x80], 1);
    assert_eq!(r.A, 0x80);
    assert!(!flag(&r, FLAG_ZERO));
    assert!(flag(&r, FLAG_SIGN));
}

#[test]
fn adc_sets_overflow_and_carry() {
    // CLC; LDA #$50; ADC #$50
    let r = run(&[0x18, 0xA9, 0x50, 0x69, 0x50], 3);
    assert_eq!(r.A, 0xA0);
    assert!(flag(&r, FLAG_OVERFLOW));
    assert!(!flag(&r, FLAG_CARRY));
    // CLC; LDA #$FF; ADC #$02: 0x101, carry out, no signed overflow
    let r = run(&[0x18, 0xA9, 0xFF, 0x69, 0x02], 3);
    assert_eq!(r.A, 0x01);
    assert!(flag(&r, FLAG_CARRY));
    assert!(!flag(&r, FLAG_OVERFLOW));
}

#[test]
fn sbc_subtracts_with_borrow() {
    // SEC; LDA #$05; SBC #$03
    let r = run(&[0x38, 0xA9, 0x05, 0xE9, 0x03], 3);
    assert_eq!(r.A, 0x02);
    assert!(flag(&r, FLAG_CARRY));
    // SEC; LDA #$03; SBC #$05: borrow
    let r = run(&[0x38, 0xA9, 0x03, 0xE9, 0x05], 3);
    assert_eq!(r.A, 0xFE);
    assert!(!flag(&r, FLAG_CARRY));
    assert!(flag(&r, FLAG_SIGN));
    // CLC; LDA #$05; SBC #$03: the clear carry borrows one more
    let r = run(&[0x18, 0xA9, 0x05, 0xE9, 0x03], 3);
    assert_eq!(r.A, 0x01);
    assert!(flag(&r, FLAG_CARRY));
}

#[test]
fn cmp_flags() {
    let r = run(&[0xA9, 0x10, 0xC9, 0x10], 2);
    assert!(flag(&r, FLAG_ZERO) && flag(&r, FLAG_CARRY));
    let r = run(&[0xA9, 0x10, 0xC9, 0x20], 2);
    assert!(!flag(&r, FLAG_ZERO) && !flag(&r, FLAG_CARRY) && flag(&r, FLAG_SIGN));
    let r = run(&[0xA9, 0x20, 0xC9, 0x10], 2);
    assert!(!flag(&r, FLAG_ZERO) && flag(&r, FLAG_CARRY) && !flag(&r, FLAG_SIGN));
    assert_eq!(r.A, 0x20);
}

#[test]
fn pha_pla_round_trip() {
    // LDA #$42; PHA; LDA #$00; PLA
    let r = run(&[0xA9, 0x42, 0x48, 0xA9, 0x00, 0x68], 4);
    assert_eq!(r.A, 0x42);
    assert_eq!(r.SP, 0xFD);
    assert!(!flag(&r, FLAG_ZERO));
}

#[test]
fn rol_then_ror_restores_byte_and_carry() {
    // CLC; LDA #$81; ROL A
    let r = run(&[0x18, 0xA9, 0x81, 0x2A], 3);
    assert_eq!(r.A, 0x02);
    assert!(flag(&r, FLAG_CARRY));
    // ... ROR A
    let r = run(&[0x18, 0xA9, 0x81, 0x2A, 0x6A], 4);
    assert_eq!(r.A, 0x81);
    assert!(!flag(&r, FLAG_CARRY));
}

#[test]
fn shifts() {
    // LDA #$81; ASL A
    let r = run(&[0xA9, 0x81, 0x0A], 2);
    assert_eq!(r.A, 0x02);
    assert!(flag(&r, FLAG_CARRY));
    // LDA #$81; LSR A
    let r = run(&[0xA9, 0x81, 0x4A], 2);
    assert_eq!(r.A, 0x40);
    assert!(flag(&r, FLAG_CARRY));
}

#[test]
fn index_registers_wrap() {
    // LDX #$FF; INX
    let r = run(&[0xA2, 0xFF, 0xE8], 2);
    assert_eq!(r.X, 0);
    assert!(flag(&r, FLAG_ZERO));
    // LDX #$00; DEX
    let r = run(&[0xA2, 0x00, 0xCA], 2);
    assert_eq!(r.X, 0xFF);
    assert!(flag(&r, FLAG_SIGN));
}

#[test]
fn program_counter_moves_past_each_instruction() {
    // LDA #$01 (two bytes); INX (one byte)
    let r = run(&[0xA9, 0x01, 0xE8], 0);
    assert_eq!(r.PC, 0xC001);
    let r = run(&[0xA9, 0x01, 0xE8], 1);
    assert_eq!(r.PC, 0xC003);
    let r = run(&[0xA9, 0x01, 0xE8], 2);
    assert_eq!(r.PC, 0xC004);
}

#[test]
fn step_counts_one_instruction() {
    let rom = rom_with_program(&[0xA9, 0x01, 0x48, 0x68]);
    let mut nes = Nes::new(&rom).unwrap();
    nes.reset();
    nes.step();
    let before = nes.cpu().instruction_count();
    let cycles = nes.cpu().cycle_count();
    nes.step();
    assert_eq!(nes.cpu().instruction_count(), before + 1);
    // LDA #imm takes two cycles
    assert_eq!(nes.cpu().cycle_count(), cycles + 2);
    nes.step();
    // PHA takes three
    assert_eq!(nes.cpu().cycle_count(), cycles + 5);
}

/// An NROM image whose PRG (mirrored at 0x8000 and 0xC000) is `bytes` from 0xC000 on.
fn console(bytes: &[(u16, &[u8])]) -> Nes {
    let mut rom = vec![0x4E, 0x45, 0x53, 0x1A, 1, 1, 0, 0, 0, 0, 0, 0, 0, 0, 0, 0];
    let mut prg = vec![0xEAu8; 0x4000];
    for (address, code) in bytes {
        let at = (*address - 0xC000) as usize;
        prg[at..at + code.len()].copy_from_slice(code);
    }
    rom.extend(prg);
    rom.extend(vec![0u8; 0x2000]);
    let mut nes = Nes::new(&rom).unwrap();
    nes.reset();
    nes
}

#[test]
fn first_step_runs_the_instruction_at_the_reset_address() {
    // JMP $C5F5, as the first line of the nestest log
    let mut nes = console(&[(0xC000, &[0x4C, 0xF5, 0xC5])]);
    assert_eq!(nes.cpu().registers().PC, 0xC000);
    nes.step();
    let r = nes.cpu().registers();
    assert_eq!(r.PC, 0xC5F5);
    assert_eq!((r.A, r.X, r.Y, r.P | 0x20, r.SP), (0, 0, 0, 0x24, 0xFD));
    assert_eq!(nes.cpu().cycle_count() * 3 % 341, 9);
}

#[test]
fn jsr_then_rts_returns_after_the_call() {
    // C000: JSR $C010; C003: LDA #$01  --  C010: LDX #$05; RTS
    let mut nes = console(&[(0xC000, &[0x20, 0x10, 0xC0, 0xA9, 0x01]), (0xC010, &[0xA2, 0x05, 0x60])]);
    nes.step();
    assert_eq!(nes.cpu().registers().PC, 0xC010);
    assert_eq!(nes.cpu().registers().SP, 0xFB);
    nes.step();
    nes.step();
    let r = nes.cpu().registers();
    assert_eq!((r.PC, r.SP, r.X), (0xC003, 0xFD, 5));
    nes.step();
    assert_eq!(nes.cpu().registers().A, 1);
    assert_eq!(nes.cpu().registers().PC, 0xC005);
}

#[test]
fn absolute_modes_take_three_bytes() {
    // C000: LDA #$7F; STA $0200; INC $0200; LDA $0200; NOP
    let mut nes = console(&[(0xC000, &[0xA9, 0x7F, 0x8D, 0x00, 0x02, 0xEE, 0x00, 0x02, 0xAD, 0x00, 0x02])]);
    for _ in 0..4 {
        nes.step();
    }
    let r = nes.cpu().registers();
    assert_eq!(r.A, 0x80);
    assert_eq!(r.PC, 0xC00B);
}

#[test]
fn branches_land_on_their_target() {
    // C000: LDX #$02; C002: DEX; C003: BNE $C002 (offset -3); C005: NOP
    let mut nes = console(&[(0xC000, &[0xA2, 0x02, 0xCA, 0xD0, 0xFD])]);
    nes.step();
    nes.step();
    nes.step();
    assert_eq!(nes.cpu().registers().PC, 0xC002);
    nes.step();
    nes.step();
    let r = nes.cpu().registers();
    assert_eq!((r.X, r.PC), (0, 0xC005));
}

#[test]
fn zero_page_store_and_increment() {
    // C000: LDA #$7F; STA $10; INC $10; LDA $10
    let mut nes = console(&[(0xC000, &[0xA9, 0x7F, 0x85, 0x10, 0xE6, 0x10, 0xA5, 0x10])]);
    for _ in 0..4 {
        nes.step();
    }
    assert_eq!(nes.cpu().registers().A, 0x80);
    assert_eq!(nes.cpu().registers().PC, 0xC008);
}

#[test]
fn indexed_indirect_pointer_wraps_in_page_zero() {
    let program: &[u8] = &[
        0xA9, 0x34, 0x85, 0x01, // lda #34; sta 01
        0xA9, 0x12, 0x85, 0x02, // lda #12; sta 02
        0xA9, 0x77, 0x8D, 0x34, 0x02, // lda #77; sta 0234 (seen at 1234)
        0xA9, 0x99, 0x8D, 0x01, 0x01, // lda #99; sta 0101 (what no wrap would read)
        0xA2, 0x02, // ldx #02
        0xA9, 0x00, // lda #00
        0xA1, 0xFF, // lda (FF,X): pointer 01, high byte from 02
    ];
    let mut nes = console(&[(0xC000, program)]);
    for _ in 0..11 {
        nes.step();
    }
    assert_eq!(nes.cpu().registers().A, 0x77);
}

/// A CNROM image with 32 KiB of PRG and only two of the four 8 KiB CHR banks; the
/// program turns rendering on and then selects CHR bank `bank`.
fn cnrom_selecting(bank: u8) -> Nes {
    let mut rom = vec![0x4E, 0x45, 0x53, 0x1A, 2, 2, 0x30, 0, 0, 0, 0, 0, 0, 0, 0, 0];
    let mut prg = vec![0xEAu8; 0x8000];
    let program = [0xA9, 0x18, 0x8D, 0x01, 0x20, 0xA9, bank, 0x8D, 0x00, 0x80, 0x4C, 0x0A, 0xC0];
    prg[0x4000..0x4000 + program.len()].copy_from_slice(&program);
    rom.extend(prg);
    rom.extend((0..0x4000u32).map(|i| (i % 13) as u8));
    let mut nes = Nes::new(&rom).unwrap();
    assert!(!nes.is_valid());
    assert!(nes.can_run());
    nes.reset();
    nes
}

#[test]
fn checked_cycles_run_while_the_selected_chr_bank_exists() {
    let mut nes = cnrom_selecting(1);
    for _ in 0..70000 {
        assert!(nes.cycle_checked().is_some());
    }
    assert!(nes.ppu().frames >= 2);
}

#[test]
fn checked_cycles_stop_before_reading_a_missing_chr_bank() {
    let mut nes = cnrom_selecting(2);
    let mut stopped = false;
    for _ in 0..70000 {
        if nes.cycle_checked().is_none() {
            stopped = true;
            break;
        }
    }
    assert!(stopped);
    assert_eq!(nes.cpu().registers().PC, 0xC00A);
}
