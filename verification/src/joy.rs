use vstd::prelude::*;

verus! {

/// Port of the first joystick.
pub const JOY1: u16 = 0x4016;

/// Port of the second joystick.
pub const JOY2: u16 = 0x4017;

/// A joystick: eight button states and the index of the next one to report.
pub struct JoyStick {
    // A, B, Select, Start, Up, Down, Left, Right
    pub joykeys: [u8; 8],
    pub key: u8,
}

impl JoyStick {
    /// A joystick with no button pressed, about to report its first button.
    pub fn new() -> (r: JoyStick)
        ensures
            r.joykeys@ == seq![0u8; 8],
            r.key == 0,
    {
        let r = JoyStick { joykeys: [0u8; 8], key: 0 };
        assert(r.joykeys@ =~= seq![0u8; 8]);
        r
    }
}

} // verus!
