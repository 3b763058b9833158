use rnes::controller::{Controller, GamePad};
use rnes::enums::IoState;
use rnes::loadstore::LoadStore;
use rnes::mapper::{GameMemory, Nrom};
use rnes::mem::Memory;

fn memory() -> Memory {
    Memory::new(Nrom::new_boxed(GameMemory {
        prg_rom: vec![0; 0x4000],
        prg_ram: vec![],
        prg_bat: vec![],
        chr_rom: vec![0; 0x2000],
        chr_ram: vec![],
        chr_bat: vec![],
        vmirror: false,
        screen4: false,
    }))
}

#[test]
fn new_pads_start_released() {
    let c = Controller::new();
    assert_eq!(c.gamepad1.index, 0);
    assert_eq!(c.gamepad2.index, 1);
    assert_eq!(c.gamepad1.joykeys, [0; 8]);
    assert_eq!(c.gamepad1.key, 0);
}

#[test]
fn buttons_are_read_in_order_then_ones() {
    let mut m = memory();
    let mut c = Controller::new();
    let keys = [[1, 0, 1, 1, 0, 0, 1, 0], [0, 1, 0, 0, 0, 0, 0, 1]];
    // Strobe on: the pressed keys are latched
    m.store(0x4016, 1);
    c.cycle(&mut m, &keys);
    m.store(0x4016, 0);
    let mut first = vec![];
    let mut second = vec![];
    for _ in 0..10 {
        c.cycle(&mut m, &keys);
        c.cycle(&mut m, &keys);
        first.push(m.load(0x4016));
    }
    for _ in 0..10 {
        c.cycle(&mut m, &keys);
        c.cycle(&mut m, &keys);
        second.push(m.load(0x4017));
    }
    assert_eq!(first, vec![1, 0, 1, 1, 0, 0, 1, 0, 1, 1]);
    assert_eq!(second, vec![0, 1, 0, 0, 0, 0, 0, 1, 1, 1]);
}

#[test]
fn strobe_keeps_reporting_the_first_button() {
    let mut m = memory();
    let mut c = Controller::new();
    let keys = [[1, 0, 0, 0, 0, 0, 0, 0], [0; 8]];
    m.store(0x4016, 1);
    for _ in 0..5 {
        c.cycle(&mut m, &keys);
        c.cycle(&mut m, &keys);
        assert_eq!(m.load(0x4016), 1);
    }
}

#[test]
fn push_keys_reports_and_advances_on_its_port() {
    let mut m = memory();
    let mut g = GamePad::new(1);
    g.set_keys(&[0, 1, 1, 1, 1, 1, 1, 1]);
    g.push_keys(&mut m, IoState::GamePad1);
    assert_eq!(g.key, 0);
    assert_eq!(m.load(0x4017), 0);
    g.push_keys(&mut m, IoState::GamePad2);
    assert_eq!(g.key, 1);
    g.push_keys(&mut m, IoState::NoState);
    assert_eq!(m.load(0x4017), 1);
}

#[test]
fn keyboard_pads_start_released() {
    let g = rnes::gamepad::GamePad::new();
    assert_eq!(g.joykeys, [0; 8]);
    assert_eq!(g.key, 0);
    let j = rnes::joy::JoyStick::new();
    assert_eq!(j.joykeys, [0; 8]);
    assert_eq!(j.key, 0);
}
