use vstd::prelude::*;
use crate::enums::IoState;
use crate::loadstore::LoadStore;
use crate::mem::{Memory, GAMEPAD1, lemma_published_reads, lemma_read_effects, lemma_write_effects};

verus! {

/// A standard gamepad: a shift register of eight buttons read one at a time.
pub struct GamePad {
    pub index: usize,
    // A, B, Select, Start, Up, Down, Left, Right
    pub joykeys: [u8; 8],
    pub key: u8,
}

/// Both gamepads.
pub struct Controller {
    pub gamepad1: GamePad,
    pub gamepad2: GamePad,
}

/// The port status that a read of gamepad `index` leaves on the bus.
pub open spec fn port_status(index: usize) -> IoState {
    if index == 0 {
        IoState::GamePad1
    } else {
        IoState::GamePad2
    }
}

impl GamePad {
    pub open spec fn wf(&self) -> bool {
        self.index < 2 && self.key <= 8
    }

    /// What the gamepad presents on its port: the current button, or 1 once all eight
    /// buttons have been read.
    pub open spec fn output(&self) -> u8 {
        if self.key < 8 {
            self.joykeys@[self.key as int]
        } else {
            1
        }
    }

    /// A read of the gamepad's port moves it to the next button.
    pub open spec fn after_status(self, status: IoState) -> GamePad {
        if self.key < 8 && status == port_status(self.index) {
            GamePad { key: (self.key + 1) as u8, ..self }
        } else {
            self
        }
    }

    pub fn new(index: usize) -> (r: GamePad)
        ensures
            r.index == index,
            r.joykeys@ == seq![0u8; 8],
            r.key == 0,
            index < 2 ==> r.wf(),
    {
        let r = GamePad { index: index, joykeys: [0u8; 8], key: 0 };
        assert(r.joykeys@ =~= seq![0u8; 8]);
        r
    }

    /// Writes gamepad keys to memory accordingly.
    pub fn push_keys(&mut self, mem: &mut Memory, status: IoState)
        requires
            old(self).wf(),
        ensures
            final(mem).joy_key@ == old(mem).joy_key@.update(
                old(self).index as int,
                old(self).output(),
            ),
            *final(mem) == (Memory { joy_key: final(mem).joy_key, ..*old(mem) }),
            *final(self) == old(self).after_status(status),
            final(self).wf(),
    {
        if self.key < 8 {
            mem.set_joy_key(self.index, self.joykeys[self.key as usize]);
            let port = if self.index == 0 {
                IoState::GamePad1
            } else {
                IoState::GamePad2
            };
            if status == port {
                self.key = self.key + 1;
            }
        } else {
            // Nintendo controllers output 1 after all keys are read
            mem.set_joy_key(self.index, 1);
        }
    }

    /// Latches the buttons and restarts from the first one.
    pub fn set_keys(&mut self, keys: &[u8; 8])
        ensures
            *final(self) == (GamePad { joykeys: *keys, key: 0, ..*old(self) }),
    {
        self.joykeys = *keys;
        self.key = 0;
    }
}

impl Controller {
    pub open spec fn wf(&self) -> bool {
        &&& self.gamepad1.wf()
        &&& self.gamepad2.wf()
        &&& self.gamepad1.index == 0
        &&& self.gamepad2.index == 1
    }

    pub fn new() -> (r: Controller)
        ensures
            r.wf(),
            r.gamepad1.key == 0 && r.gamepad2.key == 0,
            r.gamepad1.joykeys@ == seq![0u8; 8],
            r.gamepad2.joykeys@ == seq![0u8; 8],
    {
        Controller { gamepad1: GamePad::new(0), gamepad2: GamePad::new(1) }
    }

    /// The gamepads after a cycle: while the strobe bit is set they latch the pressed
    /// keys and restart; otherwise the one whose port was read moves to its next button.
    pub open spec fn stepped(self, m: Memory, keys: [[u8; 8]; 2]) -> Controller {
        if m.io_strobe % 2 == 1 {
            Controller {
                gamepad1: GamePad { joykeys: keys@[0], key: 0, ..self.gamepad1 },
                gamepad2: GamePad { joykeys: keys@[1], key: 0, ..self.gamepad2 },
            }
        } else {
            Controller {
                gamepad1: self.gamepad1.after_status(m.io_load_status),
                gamepad2: self.gamepad2.after_status(m.io_load_status),
            }
        }
    }

    /// Publishes both gamepads' outputs, advances the gamepad whose port was just read,
    /// and, while the strobe bit is set, latches the pressed keys.
    pub fn cycle(&mut self, mem: &mut Memory, keys: &[[u8; 8]; 2])
        requires
            old(self).wf(),
        ensures
            final(self).wf(),
            final(mem).joy_key@ == seq![old(self).gamepad1.output(), old(self).gamepad2.output()],
            *final(mem) == (Memory {
                joy_key: final(mem).joy_key,
                io_load_status: IoState::NoState,
                ..*old(mem)
            }),
            *final(self) == old(self).stepped(*old(mem), *keys),
    {
        let status = mem.get_io_load_status();
        self.gamepad1.push_keys(mem, status);
        self.gamepad2.push_keys(mem, status);
        if mem.get_strobe() {
            self.gamepad1.set_keys(&keys[0]);
            self.gamepad2.set_keys(&keys[1]);
        }
        assert(mem.joy_key@ =~= seq![old(self).gamepad1.output(), old(self).gamepad2.output()]);
    }
}

/// The gamepad after `n` reads of its own port.
pub open spec fn reads_after(g: GamePad, n: nat) -> GamePad
    decreases n,
{
    if n == 0 {
        g
    } else {
        reads_after(g, (n - 1) as nat).after_status(port_status(g.index))
    }
}

proof fn lemma_reads_after_fields(g: GamePad, n: nat)
    requires
        g.wf(),
        g.key == 0,
    ensures
        reads_after(g, n).index == g.index,
        reads_after(g, n).joykeys == g.joykeys,
        reads_after(g, n).key == if n < 8 { n } else { 8 },
        reads_after(g, n).wf(),
    decreases n,
{
    if n > 0 {
        lemma_reads_after_fields(g, (n - 1) as nat);
    }
}

/// The serial protocol of a gamepad: once the keys are latched, successive reads of
/// its port report the eight buttons in order (A, B, Select, Start, Up, Down, Left,
/// Right), and every read after the eighth reports 1.
pub proof fn lemma_gamepad_serial(g: GamePad, n: nat)
    requires
        g.wf(),
        g.key == 0,
    ensures
        n < 8 ==> reads_after(g, n).output() == g.joykeys@[n as int],
        n >= 8 ==> reads_after(g, n).output() == 1,
{
    lemma_reads_after_fields(g, n);
}

/// Strobe, then read: a cycle with the strobe bit set latches the pressed keys of both
/// gamepads; afterwards the reads of each port report that pad's eight buttons in
/// order, then 1.
pub proof fn lemma_strobe_then_read(c: Controller, m: Memory, keys: [[u8; 8]; 2], n: nat)
    requires
        c.wf(),
        m.io_strobe % 2 == 1,
    ensures
        ({
            let c1 = c.stepped(m, keys);
            &&& reads_after(c1.gamepad1, n).output() == if n < 8 { keys@[0]@[n as int] } else { 1 }
            &&& reads_after(c1.gamepad2, n).output() == if n < 8 { keys@[1]@[n as int] } else { 1 }
        }),
{
    let c1 = c.stepped(m, keys);
    lemma_gamepad_serial(c1.gamepad1, n);
    lemma_gamepad_serial(c1.gamepad2, n);
}

/// Reads of the other gamepad's port, and cycles with no read, leave a gamepad where it is.
pub proof fn lemma_gamepad_other_port(g: GamePad, status: IoState)
    requires
        status != port_status(g.index),
    ensures
        g.after_status(status) == g,
{
}


/// The memory after a controller cycle: both gamepads' outputs published, the port
/// status consumed.
pub open spec fn published(c: Controller, m: Memory) -> Memory {
    Memory {
        joy_key: vstd::array::spec_array_update(
            vstd::array::spec_array_update(m.joy_key, 0, c.gamepad1.output()),
            1,
            c.gamepad2.output(),
        ),
        io_load_status: IoState::NoState,
        ..m
    }
}

/// The gamepad on port `p` (0 or 1).
pub open spec fn pad_on(c: Controller, p: int) -> GamePad {
    if p == 0 {
        c.gamepad1
    } else {
        c.gamepad2
    }
}

/// One poll of port `p`, as a program does it: two controller cycles, then a read of
/// 0x4016 + `p`; the controller, the memory and the byte read.
pub open spec fn poll(c: Controller, m: Memory, keys: [[u8; 8]; 2], p: int) -> (Controller, Memory, u8) {
    let c1 = c.stepped(m, keys);
    let m1 = published(c, m);
    let c2 = c1.stepped(m1, keys);
    let m2 = published(c1, m1);
    let (m3, v) = m2.loaded((GAMEPAD1 + p) as u16);
    (c2, m3, v)
}

/// The controller and memory after `n` polls of port `p`.
pub open spec fn polls(c: Controller, m: Memory, keys: [[u8; 8]; 2], p: int, n: nat) -> (Controller, Memory)
    decreases n,
{
    if n == 0 {
        (c, m)
    } else {
        let (c1, m1) = polls(c, m, keys, p, (n - 1) as nat);
        let (c2, m2, _) = poll(c1, m1, keys, p);
        (c2, m2)
    }
}

proof fn lemma_polls_state(c: Controller, m: Memory, keys: [[u8; 8]; 2], p: int, n: nat)
    requires
        c.wf(),
        0 <= p < 2,
        pad_on(c, p).key == 0,
        m.io_strobe % 2 == 0,
        m.io_load_status == IoState::NoState,
    ensures
        ({
            let (cn, mn) = polls(c, m, keys, p, n);
            &&& cn.wf()
            &&& mn.io_strobe == m.io_strobe
            &&& pad_on(cn, p) == reads_after(pad_on(c, p), if n == 0 { 0 } else { (n - 1) as nat })
            &&& mn.io_load_status == if n == 0 { IoState::NoState } else { port_status(p as usize) }
        }),
    decreases n,
{
    lemma_reads_after_fields(pad_on(c, p), 0);
    if n > 0 {
        let n1 = (n - 1) as nat;
        lemma_polls_state(c, m, keys, p, n1);
        let (ca, ma) = polls(c, m, keys, p, n1);
        let c1 = ca.stepped(ma, keys);
        let m1 = published(ca, ma);
        let m2 = published(c1, m1);
        lemma_read_effects(m2, (GAMEPAD1 + p) as u16);
        lemma_published_reads(m2, 0x2000);
        lemma_reads_after_fields(pad_on(c, p), n1);
        if n1 > 0 {
            lemma_reads_after_fields(pad_on(c, p), (n1 - 1) as nat);
        }
    }
}

/// The gamepad protocol over the bus: with the strobe bit written as 1, a controller
/// cycle latches the pressed keys; after the strobe bit is written back to 0, each poll
/// of a port (two cycles, then a read of 0x4016 or 0x4017) gives that pad's eight
/// buttons in order (A, B, Select, Start, Up, Down, Left, Right), then 1.
pub proof fn lemma_poll_protocol(c: Controller, m: Memory, keys: [[u8; 8]; 2], p: int, n: nat)
    requires
        c.wf(),
        0 <= p < 2,
        m.io_strobe % 2 == 1,
    ensures
        ({
            let c1 = c.stepped(m, keys);
            let m1 = published(c, m).stored(GAMEPAD1, 0);
            let (cn, mn) = polls(c1, m1, keys, p, n);
            poll(cn, mn, keys, p).2 == if n < 8 { keys@[p]@[n as int] } else { 1 }
        }),
{
    let c1 = c.stepped(m, keys);
    let m1 = published(c, m).stored(GAMEPAD1, 0);
    lemma_write_effects(published(c, m), GAMEPAD1, 0, 0);
    reveal(Memory::store_result);
    lemma_polls_state(c1, m1, keys, p, n);
    let (cn, mn) = polls(c1, m1, keys, p, n);
    let ca = cn.stepped(mn, keys);
    let ma = published(cn, mn);
    let m2 = published(ca, ma);
    lemma_published_reads(m2, 0x2000);
    lemma_reads_after_fields(pad_on(c1, p), n);
    if n > 0 {
        lemma_reads_after_fields(pad_on(c1, p), (n - 1) as nat);
    }
    lemma_gamepad_serial(pad_on(c1, p), n);
}

} // verus!
