use vstd::prelude::*;

verus! {

/// Port of the first gamepad.
pub const GAMEPAD1: u16 = 0x4016;

/// Port of the second gamepad.
pub const GAMEPAD2: u16 = 0x4017;

/// A keyboard-driven gamepad: eight button states and the index of the next one to report.
pub struct GamePad {
    // A, B, Select, Start, Up, Down, Left, Right
    pub joykeys: [u8; 8],
    pub key: u8,
}

impl GamePad {
    /// A gamepad with no button pressed, about to report its first button.
    pub fn new() -> (r: GamePad)
        ensures
            r.joykeys@ == seq![0u8; 8],
            r.key == 0,
    {
        let r = GamePad { joykeys: [0u8; 8], key: 0 };
        assert(r.joykeys@ =~= seq![0u8; 8]);
        r
    }
}

} // verus!
