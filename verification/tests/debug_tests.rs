use rnes::cpu::Operation;
use rnes::debug::{current_operation_text, operation_text, step, step_cycle};
use rnes::loadstore::LoadStore;
use rnes::mapper::{GameMemory, Nrom};
use rnes::mem::Memory;
use rnes::nes::Nes;
use rnes::opcodes::{instruction, AddressingMode, Mnemonic};

fn memory_with(bytes: &[u8]) -> Memory {
    let mut m = Memory::new(Nrom::new_boxed(GameMemory {
        prg_rom: vec![0; 0x4000],
        prg_ram: vec![],
        prg_bat: vec![],
        chr_rom: vec![0; 0x2000],
        chr_ram: vec![],
        chr_bat: vec![],
        vmirror: false,
        screen4: false,
    }));
    for (i, b) in bytes.iter().enumerate() {
        m.store(i as u16, *b);
    }
    m
}

#[test]
fn opcode_table_entries() {
    let lda = instruction(0xA9);
    assert!(lda.op == Mnemonic::Lda);
    assert!(lda.mode.kind == AddressingMode::Imm);
    assert_eq!(lda.mode.size, 2);
    assert_eq!(lda.cycles, 2);
    assert!(!lda.has_extra);
    let lda_abx = instruction(0xBD);
    assert!(lda_abx.op == Mnemonic::Lda && lda_abx.mode.kind == AddressingMode::Abx);
    assert!(lda_abx.has_extra);
    let brk = instruction(0x00);
    assert!(brk.op == Mnemonic::Brk);
    assert_eq!(brk.cycles, 7);
    assert_eq!(instruction(0xEA).mode.size, 1);
    for opcode in 0..=255u8 {
        let i = instruction(opcode);
        assert!(2 <= i.cycles && i.cycles <= 8);
    }
    assert_eq!(Mnemonic::Sbc.name(), "sbc");
    assert_eq!(AddressingMode::Idy.name(), "idy");
}

#[test]
fn operations_are_fetched_with_their_operand() {
    let mut m = memory_with(&[0xA9, 0x05, 0x00, 0xEA, 0x42]);
    let op = Operation::from_address(&mut m, 0);
    assert_eq!(op.opcode, 0xA9);
    assert_eq!(op.operand, 0x0005);
    // implied instructions have no operand
    let op = Operation::from_address(&mut m, 3);
    assert_eq!(op.opcode, 0xEA);
    assert_eq!(op.operand, 0);
}

#[test]
fn disassembly() {
    let mut m = memory_with(&[0xA9, 0x05, 0x00, 0xBD, 0x34, 0x12, 0xB1, 0x80, 0x00, 0xEA]);
    let op = Operation::from_address(&mut m, 0);
    assert_eq!(operation_text(&op, 1), "lda #05");
    let op = Operation::from_address(&mut m, 3);
    assert_eq!(operation_text(&op, 0x1240), "lda 1234,X @ 1240");
    let op = Operation::from_address(&mut m, 6);
    assert_eq!(operation_text(&op, 0x0300), "lda (80),Y @ 0300");
    let op = Operation::from_address(&mut m, 9);
    assert_eq!(operation_text(&op, 0), "nop ");
    let op = Operation::default();
    assert_eq!(operation_text(&op, 0), "nop ");
}

fn console() -> Nes {
    let mut rom = vec![0x4E, 0x45, 0x53, 0x1A, 1, 1, 0, 0, 0, 0, 0, 0, 0, 0, 0, 0];
    let mut prg = vec![0xEAu8; 0x4000];
    prg[1..6].copy_from_slice(&[0xA9, 0x07, 0xAA, 0xE8, 0xEA]);
    rom.extend(prg);
    rom.extend(vec![0u8; 0x2000]);
    let mut nes = Nes::new(&rom).unwrap();
    nes.reset();
    nes
}

#[test]
fn stepping_reports_the_operation_in_flight() {
    let mut nes = console();
    assert_eq!(current_operation_text(&nes), "C000 nop ");
    assert_eq!(step(&mut nes).0, "C001 lda #07");
    assert_eq!(step(&mut nes).0, "C003 tax ");
    assert_eq!(step(&mut nes).0, "C004 inx ");
    assert_eq!(nes.cpu().registers().X, 7);
    let (s, shown) = step_cycle(&mut nes);
    assert_eq!(s, "C004 inx ");
    assert!(!shown);
    let (s, _) = step_cycle(&mut nes);
    assert_eq!(s, "C005 nop ");
    assert_eq!(nes.cpu().registers().X, 8);
}

use rnes::debug::{command_of, get_reg, next, register_of, until, Command, Register};

#[test]
fn commands_by_name() {
    assert_eq!(command_of("n"), Command::Next);
    assert_eq!(command_of("next"), Command::Next);
    assert_eq!(command_of("s"), Command::Step);
    assert_eq!(command_of("step"), Command::Step);
    assert_eq!(command_of("si"), Command::StepCycle);
    assert_eq!(command_of("nexti"), Command::StepCycle);
    assert_eq!(command_of("c"), Command::Continue);
    assert_eq!(command_of("until"), Command::Until);
    assert_eq!(command_of("p"), Command::Print);
    assert_eq!(command_of("pb"), Command::PrintBinary);
    assert_eq!(command_of("b"), Command::Breakpoint);
    assert_eq!(command_of("quit"), Command::Quit);
    assert_eq!(command_of("help"), Command::Help);
    assert_eq!(command_of("x"), Command::Undefined);
    assert_eq!(command_of(""), Command::Undefined);
    assert_eq!(command_of("N"), Command::Undefined);
}

#[test]
fn registers_by_name() {
    assert_eq!(register_of("A"), Some(Register::A));
    assert_eq!(register_of("SP"), Some(Register::SP));
    assert_eq!(register_of("PC"), Some(Register::PC));
    assert_eq!(register_of("pc"), None);
    assert_eq!(register_of("Q"), None);
    let nes = console();
    assert_eq!(get_reg(&nes, Register::PC), 0xC000);
    assert_eq!(get_reg(&nes, Register::SP), 0xFD);
    assert_eq!(get_reg(&nes, Register::P), 0x24);
    assert_eq!(get_reg(&nes, Register::A), 0);
}

#[test]
fn next_and_until() {
    let mut nes = console();
    let (a, b, shown) = next(&mut nes);
    assert!(!shown);
    assert_eq!(a, "C001 lda #07");
    assert_eq!(a, b);
    // Runs until the program counter moves past C001
    let (s, _) = until(&mut nes);
    assert_eq!(s, "C003 tax ");
    assert_eq!(get_reg(&nes, Register::A), 7);
}

/// A console whose program turns rendering on and then loops on itself.
fn rendering_console() -> Nes {
    let mut rom = vec![0x4E, 0x45, 0x53, 0x1A, 1, 1, 0, 0, 0, 0, 0, 0, 0, 0, 0, 0];
    let mut prg = vec![0xEAu8; 0x4000];
    // lda #18; sta 2001; jmp C005
    prg[0..8].copy_from_slice(&[0xA9, 0x18, 0x8D, 0x01, 0x20, 0x4C, 0x05, 0xC0]);
    rom.extend(prg);
    rom.extend(vec![0u8; 0x2000]);
    let mut nes = Nes::new(&rom).unwrap();
    nes.reset();
    nes
}

#[test]
fn oam_is_shown_once_a_frame_while_rendering() {
    let mut nes = rendering_console();
    let mut shown_at = vec![];
    for c in 0..70000u64 {
        if nes.cycle() {
            shown_at.push(c);
        }
    }
    assert!(shown_at.len() >= 2);
    for w in shown_at.windows(2) {
        let d = w[1] - w[0];
        assert!(d == 29780 || d == 29781);
    }
    let text = nes.ppu().oam.describe();
    assert!(text.starts_with("OAM: mem: \n"));
}

#[test]
fn oam_is_not_shown_while_rendering_is_off() {
    let mut nes = console();
    for _ in 0..70000u64 {
        assert!(!nes.cycle());
    }
}

#[test]
fn stepping_reports_when_the_oam_was_shown() {
    let mut nes = rendering_console();
    let mut seen = false;
    for _ in 0..40000 {
        let (_, shown) = step(&mut nes);
        seen |= shown;
    }
    assert!(seen);
    let mut nes = rendering_console();
    let (_, shown) = until(&mut nes);
    assert!(!shown);
}
