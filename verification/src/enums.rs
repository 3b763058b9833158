use vstd::prelude::*;

verus! {

/// What the CPU last did on the memory bus, as seen by the PPU and the I/O.
#[derive(Debug, Clone, Copy, PartialEq, Eq, Structural)]
pub enum MemState {
    PpuCtrl,
    PpuMask,
    PpuStatus,
    OamAddr,
    OamData,
    PpuScroll,
    PpuAddr,
    PpuData,
    Io,
    Memory,
    NoState,
}

/// Which gamepad port was last read.
#[derive(Debug, Clone, Copy, PartialEq, Eq, Structural)]
pub enum IoState {
    GamePad1,
    GamePad2,
    NoState,
}

/// Interrupt lines of the CPU.
#[derive(Debug, Clone, Copy, PartialEq, Eq, Structural)]
pub enum Interrupt {
    NMI,
    IRQ,
}

impl MemState {
    pub open spec fn name_spec(&self) -> Seq<char> {
        match self {
            MemState::PpuCtrl => "PpuCtrl"@,
            MemState::PpuMask => "PpuMask"@,
            MemState::PpuStatus => "PpuStatus"@,
            MemState::OamAddr => "OamAddr"@,
            MemState::OamData => "OamData"@,
            MemState::PpuScroll => "PpuScroll"@,
            MemState::PpuAddr => "PpuAddr"@,
            MemState::PpuData => "PpuData"@,
            MemState::Io => "Io"@,
            MemState::Memory => "Memory"@,
            MemState::NoState => "NoState"@,
        }
    }

    /// The name of the state.
    pub fn name(&self) -> (r: &'static str)
        ensures
            r@ == self.name_spec(),
    {
        match self {
            MemState::PpuCtrl => "PpuCtrl",
            MemState::PpuMask => "PpuMask",
            MemState::PpuStatus => "PpuStatus",
            MemState::OamAddr => "OamAddr",
            MemState::OamData => "OamData",
            MemState::PpuScroll => "PpuScroll",
            MemState::PpuAddr => "PpuAddr",
            MemState::PpuData => "PpuData",
            MemState::Io => "Io",
            MemState::Memory => "Memory",
            MemState::NoState => "NoState",
        }
    }
}

} // verus!
