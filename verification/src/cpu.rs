use vstd::prelude::*;
use crate::dma::{DMA, dma_step};
use crate::loadstore::{LoadStore, next_address, next_in_page, word, load_word_page_wrap_spec, load_word_spec};
use crate::mem::{Memory, lemma_ram_read_after_write, lemma_ram_read_keeps_state};
use crate::opcodes::{
    Addressing, AddressingMode, Instruction, Mnemonic, instruction, instruction_spec,
    lemma_instruction_cycles,
};

verus! {

broadcast use crate::mapper::lemma_prg_ok_readable;

/* Branch flag types */
pub const BRANCH_FLAG_CHECK: u8 = 0x20;

/* Memory */
pub const STACK_PAGE: u16 = 0x0100;
pub const PAGE_MASK: u16 = 0xFF00;
pub const ADDRESS_INTERRUPT: u16 = 0xFFFE;
pub const ADDRESS_RESET: u16 = 0xFFFC;

/* Flag bits */
pub const FLAG_CARRY: u8 = 0x01;
pub const FLAG_ZERO: u8 = 0x02;
pub const FLAG_INTERRUPT: u8 = 0x04;
pub const FLAG_DECIMAL: u8 = 0x08;
pub const FLAG_BRK: u8 = 0x10;
pub const FLAG_PUSHED: u8 = 0x20;
pub const FLAG_OVERFLOW: u8 = 0x40;
pub const FLAG_SIGN: u8 = 0x80;

pub const OPCODE_NOP: u8 = 0xEA;

// ----------------------------------------------------------------------------
// Flags and byte arithmetic
// ----------------------------------------------------------------------------

pub open spec fn flag_set(p: u8, flag: u8) -> bool {
    p & flag != 0
}

/// `p` with the bits of `flag` set when `on`, cleared otherwise.
pub open spec fn with_flag(p: u8, flag: u8, on: bool) -> u8 {
    if on {
        p | flag
    } else {
        p & !flag
    }
}

/// Sign and zero flags set from the value `v`.
pub open spec fn with_nz(p: u8, v: u8) -> u8 {
    with_flag(with_flag(p, FLAG_SIGN, v >= 0x80), FLAG_ZERO, v == 0)
}

/// Sign and zero flags from `v`, carry from `carry`.
pub open spec fn with_nzc(p: u8, v: u8, carry: bool) -> u8 {
    with_flag(with_nz(p, v), FLAG_CARRY, carry)
}

pub open spec fn carry_in(p: u8) -> int {
    if flag_set(p, FLAG_CARRY) {
        1
    } else {
        0
    }
}

pub open spec fn inc8(v: u8) -> u8 {
    ((v + 1) % 0x100) as u8
}

pub open spec fn dec8(v: u8) -> u8 {
    ((v + 0xFF) % 0x100) as u8
}

/// A byte read as a two's complement number.
pub open spec fn signed8(v: u8) -> int {
    if v < 0x80 {
        v as int
    } else {
        v - 0x100
    }
}

/// Accumulator and flags after adding `m` and the carry to the accumulator:
/// the carry reports an unsigned result above 0xFF, the overflow flag a signed
/// result outside -128..=127.
pub open spec fn adc_spec(a: u8, p: u8, m: u8) -> (u8, u8) {
    let sum = a + m + carry_in(p);
    let signed = signed8(a) + signed8(m) + carry_in(p);
    let result = (sum % 0x100) as u8;
    let p1 = with_flag(p, FLAG_OVERFLOW, signed < -128 || signed > 127);
    let p2 = with_flag(p1, FLAG_CARRY, sum > 0xFF);
    (result, with_nz(p2, result))
}

/// Flags after comparing `reg` with `value`: carry when `reg >= value`, zero when
/// equal, sign from the difference.
pub open spec fn compare_spec(p: u8, reg: u8, value: u8) -> u8 {
    with_nzc(p, ((reg - value + 0x100) % 0x100) as u8, reg >= value)
}

pub open spec fn shift_left_spec(p: u8, v: u8) -> (u8, u8) {
    let r = ((v * 2) % 0x100) as u8;
    (r, with_nzc(p, r, v >= 0x80))
}

pub open spec fn shift_right_spec(p: u8, v: u8) -> (u8, u8) {
    let r = (v / 2) as u8;
    (r, with_nzc(p, r, v % 2 == 1))
}

/// The carry enters at bit 0 and bit 7 leaves into the carry.
pub open spec fn rotate_left_spec(p: u8, v: u8) -> (u8, u8) {
    let r = ((v * 2) % 0x100 + carry_in(p)) as u8;
    (r, with_nzc(p, r, v >= 0x80))
}

/// The carry enters at bit 7 and bit 0 leaves into the carry.
pub open spec fn rotate_right_spec(p: u8, v: u8) -> (u8, u8) {
    let r = (v / 2 + carry_in(p) * 0x80) as u8;
    (r, with_nzc(p, r, v % 2 == 1))
}

fn dec_byte(v: u8) -> (r: u8)
    ensures
        r == dec8(v),
{
    v.wrapping_sub(1)
}

fn inc_byte(v: u8) -> (r: u8)
    ensures
        r == inc8(v),
{
    v.wrapping_add(1)
}

fn set_flag_cond(p: u8, flag: u8, cond: bool) -> (r: u8)
    ensures
        r == with_flag(p, flag, cond),
{
    if cond {
        p | flag
    } else {
        p & !flag
    }
}

fn set_sign_zero(p: u8, v: u8) -> (r: u8)
    ensures
        r == with_nz(p, v),
{
    // Copy the sign bit, then set or clear zero.
    let p1 = set_flag_cond(p, FLAG_SIGN, v >= 0x80);
    set_flag_cond(p1, FLAG_ZERO, v == 0)
}

fn set_sign_zero_carry(p: u8, v: u8, carry: bool) -> (r: u8)
    ensures
        r == with_nzc(p, v, carry),
{
    let p1 = set_sign_zero(p, v);
    set_flag_cond(p1, FLAG_CARRY, carry)
}

/// The carry flag as a number, 0 or 1.
fn carry_bit(p: u8) -> (c: u8)
    ensures
        c == carry_in(p),
{
    if p & FLAG_CARRY != 0 {
        1
    } else {
        0
    }
}

// ----------------------------------------------------------------------------
// Registers
// ----------------------------------------------------------------------------

/// The 6502 registers.
#[derive(Clone, Copy, Debug, PartialEq, Eq, Structural)]
pub struct Regs {
    /// Accumulator
    pub A: u8,
    /// Indexes
    pub X: u8,
    pub Y: u8,
    /// Status
    pub P: u8,
    /// Stack pointer
    pub SP: u8,
    /// Program counter
    pub PC: u16,
}

impl Default for Regs {
    fn default() -> (r: Regs)
        ensures
            r == (Regs { A: 0, X: 0, Y: 0, P: 0x24, SP: 0xFD, PC: 0 }),
    {
        Regs { A: 0, X: 0, Y: 0, P: 0x24, SP: 0xFD, PC: 0 }
    }
}

pub open spec fn stack_address(sp: u8) -> u16 {
    (STACK_PAGE + sp) as u16
}

/// Pushing writes at the stack pointer, then moves it down.
pub open spec fn push_spec(r: Regs, m: Memory, byte: u8) -> (Regs, Memory) {
    (Regs { SP: dec8(r.SP), ..r }, m.stored(stack_address(r.SP), byte))
}

/// Popping moves the stack pointer up, then reads at it.
pub open spec fn pop_spec(r: Regs, m: Memory) -> (Regs, Memory, u8) {
    let sp = inc8(r.SP);
    let (m1, v) = m.loaded(stack_address(sp));
    (Regs { SP: sp, ..r }, m1, v)
}

/// The high byte is pushed first, so that the low byte sits at the lower address.
pub open spec fn push_word_spec(r: Regs, m: Memory, w: u16) -> (Regs, Memory) {
    let (r1, m1) = push_spec(r, m, (w / 0x100) as u8);
    push_spec(r1, m1, (w % 0x100) as u8)
}

pub open spec fn pop_word_spec(r: Regs, m: Memory) -> (Regs, Memory, u16) {
    let (r1, m1, low) = pop_spec(r, m);
    let (r2, m2, high) = pop_spec(r1, m1);
    (r2, m2, word(low, high))
}

pub open spec fn add16(a: u16, b: int) -> u16 {
    ((a + b) % 0x10000) as u16
}


// Util functions
impl Regs {
    /// The reset vector is read, then the program counter is set to 0xC000, where the
    /// automated test ROMs start.
    pub fn reset(&mut self, memory: &mut Memory)
        requires
            old(memory).prg_ok(),
        ensures
            final(memory).prg_ok(),
            old(memory).wf() ==> final(memory).wf(),
            ({
                let (m1, low) = old(memory).loaded(ADDRESS_RESET);
                let (m2, high) = m1.loaded(next_address(ADDRESS_RESET));
                *final(memory) == m2
            }),
            *final(self) == (Regs { PC: 0xC000, ..*old(self) }),
    {
        self.PC = memory.load_word(ADDRESS_RESET);
        self.PC = 0xC000;
    }

    fn pop(&mut self, memory: &mut Memory) -> (v: u8)
        requires
            old(memory).prg_ok(),
        ensures
            (*final(self), *final(memory), v) == pop_spec(*old(self), *old(memory)),
            final(memory).prg_ok(),
            old(memory).wf() ==> final(memory).wf(),
    {
        self.SP = self.SP.wrapping_add(1);
        memory.load(STACK_PAGE + self.SP as u16)
    }

    fn push(&mut self, memory: &mut Memory, byte: u8)
        requires
            old(memory).prg_ok(),
        ensures
            (*final(self), *final(memory)) == push_spec(*old(self), *old(memory), byte),
            final(memory).prg_ok(),
            old(memory).wf() ==> final(memory).wf(),
    {
        memory.store(STACK_PAGE + self.SP as u16, byte);
        self.SP = self.SP.wrapping_sub(1);
    }

    fn push_word(&mut self, memory: &mut Memory, word: u16)
        requires
            old(memory).prg_ok(),
        ensures
            (*final(self), *final(memory)) == push_word_spec(*old(self), *old(memory), word),
            final(memory).prg_ok(),
            old(memory).wf() ==> final(memory).wf(),
    {
        self.push(memory, (word / 0x100) as u8);
        self.push(memory, (word % 0x100) as u8);
    }

    fn pop_word(&mut self, memory: &mut Memory) -> (w: u16)
        requires
            old(memory).prg_ok(),
        ensures
            (*final(self), *final(memory), w) == pop_word_spec(*old(self), *old(memory)),
            final(memory).prg_ok(),
            old(memory).wf() ==> final(memory).wf(),
    {
        let low = self.pop(memory);
        let high = self.pop(memory);
        (high as u16) * 0x100 + (low as u16)
    }

    fn add_with_carry(&mut self, value: u8)
        ensures
            (final(self).A, final(self).P) == adc_spec(old(self).A, old(self).P, value),
            *final(self) == (Regs { A: final(self).A, P: final(self).P, ..*old(self) }),
    {
        let m = value as u16;
        let a = self.A as u16;
        let c = carry_bit(self.P) as u16;
        let sum = a + m + c;
        let overflow = (a ^ sum) & (m ^ sum) & 0x80 > 0;
        assert(overflow == ((a < 0x80) == (m < 0x80) && (a < 0x80) != (sum % 0x100 < 0x80)))
            by (bit_vector)
            requires
                a < 0x100,
                m < 0x100,
                c <= 1,
                sum == a + m + c,
                overflow == ((a ^ sum) & (m ^ sum) & 0x80 > 0),
        ;
        self.P = set_flag_cond(self.P, FLAG_OVERFLOW, overflow);
        self.P = set_flag_cond(self.P, FLAG_CARRY, sum > 0xFF);
        self.A = (sum % 0x100) as u8;
        self.P = set_sign_zero(self.P, self.A);
    }

    fn compare(&mut self, reg: u8, value: u8)
        ensures
            *final(self) == (Regs { P: compare_spec(old(self).P, reg, value), ..*old(self) }),
    {
        let comp = (reg as u16).wrapping_sub(value as u16);
        self.P = set_sign_zero_carry(self.P, (comp % 0x100) as u8, comp <= 0xFF);
    }

    fn rotate_right(&mut self, value: u8) -> (r: u8)
        ensures
            (r, final(self).P) == rotate_right_spec(old(self).P, value),
            *final(self) == (Regs { P: final(self).P, ..*old(self) }),
    {
        let carry = value % 2 == 1;
        let c = carry_bit(self.P);
        let rot = value / 2 + c * 0x80;
        self.P = set_sign_zero_carry(self.P, rot, carry);
        rot
    }

    fn rotate_left(&mut self, value: u8) -> (r: u8)
        ensures
            (r, final(self).P) == rotate_left_spec(old(self).P, value),
            *final(self) == (Regs { P: final(self).P, ..*old(self) }),
    {
        let carry = value >= 0x80;
        let c = carry_bit(self.P);
        let rot = ((value as u16 * 2) % 0x100) as u8 + c;
        self.P = set_sign_zero_carry(self.P, rot, carry);
        rot
    }

    fn shift_right(&mut self, value: u8) -> (r: u8)
        ensures
            (r, final(self).P) == shift_right_spec(old(self).P, value),
            *final(self) == (Regs { P: final(self).P, ..*old(self) }),
    {
        let shift = value / 2;
        self.P = set_sign_zero_carry(self.P, shift, value % 2 == 1);
        shift
    }

    fn shift_left(&mut self, value: u8) -> (r: u8)
        ensures
            (r, final(self).P) == shift_left_spec(old(self).P, value),
            *final(self) == (Regs { P: final(self).P, ..*old(self) }),
    {
        let shift = ((value as u16 * 2) % 0x100) as u8;
        self.P = set_sign_zero_carry(self.P, shift, value >= 0x80);
        shift
    }
}

// ----------------------------------------------------------------------------
// Addressing modes
// ----------------------------------------------------------------------------

/// The flag that a branch opcode tests, chosen by its two top bits.
pub open spec fn branch_flag(opcode: u8) -> u8 {
    if opcode / 0x40 == 0 {
        FLAG_SIGN
    } else if opcode / 0x40 == 1 {
        FLAG_OVERFLOW
    } else if opcode / 0x40 == 2 {
        FLAG_CARRY
    } else {
        FLAG_ZERO
    }
}

/// A branch is taken when its flag equals bit 5 of the opcode.
pub open spec fn branch_taken(p: u8, opcode: u8) -> bool {
    flag_set(p, branch_flag(opcode)) == ((opcode / 0x20) % 2 == 1)
}

/// The relative mode reads the branch opcode at the program counter. A branch not taken
/// goes to the next instruction; a taken one adds the signed low byte of the operand to
/// it and costs one cycle more, two when it crosses a page.
pub open spec fn relative_spec(r: Regs, m: Memory, operand: u16) -> (Memory, u16, u32) {
    let (m1, opcode) = m.loaded(r.PC);
    let next = add16(r.PC, 2);
    if branch_taken(r.P, opcode) {
        let target = add16(next, signed8((operand % 0x100) as u8));
        (m1, target, if target / 0x100 != next / 0x100 { 2 } else { 1 })
    } else {
        (m1, next, 0)
    }
}

/// The zero page index wraps inside the zero page.
pub open spec fn zero_page_indexed(operand: u16, index: u8) -> u16 {
    ((operand % 0x100 + index) % 0x100) as u16
}

/// An indexed address costs one cycle more when the index carries into the high byte.
pub open spec fn page_crossed(address: u16, index: u8) -> u32 {
    if address % 0x100 < index {
        1
    } else {
        0
    }
}

/// The memory after resolving the operand, the effective address, and the extra cycles.
#[verifier::opaque]
pub open spec fn address_spec(kind: AddressingMode, r: Regs, m: Memory, operand: u16) -> (
    Memory,
    u16,
    u32,
) {
    match kind {
        AddressingMode::Imp => (m, 0, 0),
        AddressingMode::Imm => (m, add16(r.PC, 1), 0),
        AddressingMode::Ind => {
            let (m1, w) = load_word_page_wrap_spec(m, operand);
            (m1, w, 0)
        },
        AddressingMode::Idx => {
            let (m1, w) = load_word_page_wrap_spec(m, zero_page_indexed(operand, r.X));
            (m1, w, 0)
        },
        AddressingMode::Idy => {
            let (m1, w) = load_word_page_wrap_spec(m, operand);
            let dest = add16(w, r.Y as int);
            (m1, dest, page_crossed(dest, r.Y))
        },
        AddressingMode::Zpg => (m, operand, 0),
        AddressingMode::Zpx => (m, zero_page_indexed(operand, r.X), 0),
        AddressingMode::Zpy => (m, zero_page_indexed(operand, r.Y), 0),
        AddressingMode::Abs => (m, operand, 0),
        AddressingMode::Abx => {
            let address = add16(operand, r.X as int);
            (m, address, page_crossed(address, r.X))
        },
        AddressingMode::Aby => {
            let address = add16(operand, r.Y as int);
            (m, address, page_crossed(address, r.Y))
        },
        AddressingMode::Rel => relative_spec(r, m, operand),
    }
}

fn zero_page_index(operand: u16, index: u8) -> (r: u16)
    ensures
        r == zero_page_indexed(operand, index),
{
    let low = (operand % 0x100) as u8;
    low.wrapping_add(index) as u16
}

fn crossed(address: u16, index: u8) -> (r: u32)
    ensures
        r == page_crossed(address, index),
{
    let low = (address % 0x100) as u8;
    (low < index) as u32
}

fn branch_taken_exec(p: u8, opcode: u8) -> (r: bool)
    ensures
        r == branch_taken(p, opcode),
{
    // The two top bits select the flag, bit 5 the value it is checked against.
    let index = opcode / 0x40;
    let check = (opcode / BRANCH_FLAG_CHECK) % 2 == 1;
    let flag = if index == 0 {
        FLAG_SIGN
    } else if index == 1 {
        FLAG_OVERFLOW
    } else if index == 2 {
        FLAG_CARRY
    } else {
        FLAG_ZERO
    };
    (p & flag > 0) == check
}

/// The target of a taken branch: the signed low byte of the operand added to `next`.
fn branch_target(next: u16, operand: u16) -> (r: u16)
    ensures
        r == add16(next, signed8((operand % 0x100) as u8)),
{
    let low = (operand % 0x100) as u8;
    // Sign-extend the offset to 16 bits.
    let offset: u16 = if low < 0x80 {
        low as u16
    } else {
        low as u16 + 0xFF00
    };
    let branch = next.wrapping_add(offset);
    assert(branch == add16(next, signed8(low))) by {
        if low >= 0x80 {
            assert((next + offset) % 0x10000 == (next + (low - 0x100)) % 0x10000)
                by (nonlinear_arith)
                requires
                    offset == low + 0xFF00,
            ;
        }
    }
    branch
}

impl Regs {
    fn imp(&mut self, memory: &mut Memory, operand: u16) -> (r: (u16, u32))
        ensures
            (*final(memory), r.0, r.1) == address_spec(AddressingMode::Imp, *old(self), *old(memory), operand),
            *final(self) == *old(self),
            *final(memory) == *old(memory),
    {
        reveal(address_spec);
        (0, 0)
    }

    fn imm(&mut self, memory: &mut Memory, operand: u16) -> (r: (u16, u32))
        ensures
            (*final(memory), r.0, r.1) == address_spec(AddressingMode::Imm, *old(self), *old(memory), operand),
            *final(self) == *old(self),
            *final(memory) == *old(memory),
    {
        reveal(address_spec);
        (self.PC.wrapping_add(1), 0)
    }

    fn ind(&mut self, memory: &mut Memory, operand: u16) -> (r: (u16, u32))
        requires
            old(memory).prg_ok(),
        ensures
            (*final(memory), r.0, r.1) == address_spec(AddressingMode::Ind, *old(self), *old(memory), operand),
            *final(self) == *old(self),
            final(memory).prg_ok(),
            old(memory).wf() ==> final(memory).wf(),
    {
        reveal(address_spec);
        (memory.load_word_page_wrap(operand), 0)
    }

    fn idx(&mut self, memory: &mut Memory, operand: u16) -> (r: (u16, u32))
        requires
            old(memory).prg_ok(),
        ensures
            (*final(memory), r.0, r.1) == address_spec(AddressingMode::Idx, *old(self), *old(memory), operand),
            *final(self) == *old(self),
            final(memory).prg_ok(),
            old(memory).wf() ==> final(memory).wf(),
    {
        reveal(address_spec);
        // The indexed pointer stays in page zero, and so does its high byte.
        let pointer = zero_page_index(operand, self.X);
        (memory.load_word_page_wrap(pointer), 0)
    }

    fn idy(&mut self, memory: &mut Memory, operand: u16) -> (r: (u16, u32))
        requires
            old(memory).prg_ok(),
        ensures
            (*final(memory), r.0, r.1) == address_spec(AddressingMode::Idy, *old(self), *old(memory), operand),
            *final(self) == *old(self),
            final(memory).prg_ok(),
            old(memory).wf() ==> final(memory).wf(),
    {
        reveal(address_spec);
        let base = memory.load_word_page_wrap(operand);
        let dest = base.wrapping_add(self.Y as u16);
        assert(dest == add16(base, self.Y as int));
        (dest, crossed(dest, self.Y))
    }

    fn zpg(&mut self, memory: &mut Memory, operand: u16) -> (r: (u16, u32))
        ensures
            (*final(memory), r.0, r.1) == address_spec(AddressingMode::Zpg, *old(self), *old(memory), operand),
            *final(self) == *old(self),
            *final(memory) == *old(memory),
    {
        reveal(address_spec);
        (operand, 0)
    }

    fn zpx(&mut self, memory: &mut Memory, operand: u16) -> (r: (u16, u32))
        ensures
            (*final(memory), r.0, r.1) == address_spec(AddressingMode::Zpx, *old(self), *old(memory), operand),
            *final(self) == *old(self),
            *final(memory) == *old(memory),
    {
        reveal(address_spec);
        (zero_page_index(operand, self.X), 0)
    }

    fn zpy(&mut self, memory: &mut Memory, operand: u16) -> (r: (u16, u32))
        ensures
            (*final(memory), r.0, r.1) == address_spec(AddressingMode::Zpy, *old(self), *old(memory), operand),
            *final(self) == *old(self),
            *final(memory) == *old(memory),
    {
        reveal(address_spec);
        (zero_page_index(operand, self.Y), 0)
    }

    fn abs(&mut self, memory: &mut Memory, operand: u16) -> (r: (u16, u32))
        ensures
            (*final(memory), r.0, r.1) == address_spec(AddressingMode::Abs, *old(self), *old(memory), operand),
            *final(self) == *old(self),
            *final(memory) == *old(memory),
    {
        reveal(address_spec);
        (operand, 0)
    }

    fn abx(&mut self, memory: &mut Memory, operand: u16) -> (r: (u16, u32))
        ensures
            (*final(memory), r.0, r.1) == address_spec(AddressingMode::Abx, *old(self), *old(memory), operand),
            *final(self) == *old(self),
            *final(memory) == *old(memory),
    {
        reveal(address_spec);
        let address = operand.wrapping_add(self.X as u16);
        assert(address == add16(operand, self.X as int));
        (address, crossed(address, self.X))
    }

    fn aby(&mut self, memory: &mut Memory, operand: u16) -> (r: (u16, u32))
        ensures
            (*final(memory), r.0, r.1) == address_spec(AddressingMode::Aby, *old(self), *old(memory), operand),
            *final(self) == *old(self),
            *final(memory) == *old(memory),
    {
        reveal(address_spec);
        let address = operand.wrapping_add(self.Y as u16);
        assert(address == add16(operand, self.Y as int));
        (address, crossed(address, self.Y))
    }

    fn rel(&mut self, memory: &mut Memory, operand: u16) -> (r: (u16, u32))
        requires
            old(memory).prg_ok(),
        ensures
            (*final(memory), r.0, r.1) == address_spec(AddressingMode::Rel, *old(self), *old(memory), operand),
            *final(self) == *old(self),
            final(memory).prg_ok(),
            old(memory).wf() ==> final(memory).wf(),
    {
        reveal(address_spec);
        let opcode = memory.load(self.PC);
        let next_opcode = self.PC.wrapping_add(2);
        assert(next_opcode == add16(self.PC, 2));
        if !branch_taken_exec(self.P, opcode) {
            (next_opcode, 0)
        } else {
            // Branch taken
            let branch = branch_target(next_opcode, operand);
            let page_changed = branch / 0x100 != next_opcode / 0x100;
            // Additional cycle if branch taken and page boundary crossed
            (branch, 1 + page_changed as u32)
        }
    }

    /// Resolves the operand of an instruction with the given addressing mode.
    fn address(&mut self, kind: AddressingMode, memory: &mut Memory, operand: u16) -> (r: (u16, u32))
        requires
            old(memory).prg_ok(),
        ensures
            (*final(memory), r.0, r.1) == address_spec(kind, *old(self), *old(memory), operand),
            *final(self) == *old(self),
            final(memory).prg_ok(),
            old(memory).wf() ==> final(memory).wf(),
    {
        match kind {
            AddressingMode::Imp => self.imp(memory, operand),
            AddressingMode::Imm => self.imm(memory, operand),
            AddressingMode::Rel => self.rel(memory, operand),
            AddressingMode::Zpx => self.zpx(memory, operand),
            AddressingMode::Zpy => self.zpy(memory, operand),
            AddressingMode::Zpg => self.zpg(memory, operand),
            AddressingMode::Idx => self.idx(memory, operand),
            AddressingMode::Idy => self.idy(memory, operand),
            AddressingMode::Ind => self.ind(memory, operand),
            AddressingMode::Abx => self.abx(memory, operand),
            AddressingMode::Aby => self.aby(memory, operand),
            AddressingMode::Abs => self.abs(memory, operand),
        }
    }
}

// ----------------------------------------------------------------------------
// Instructions
// ----------------------------------------------------------------------------

pub open spec fn with_a(r: Regs, a: u8) -> Regs {
    Regs { A: a, P: with_nz(r.P, a), ..r }
}

pub open spec fn with_x(r: Regs, x: u8) -> Regs {
    Regs { X: x, P: with_nz(r.P, x), ..r }
}

pub open spec fn with_y(r: Regs, y: u8) -> Regs {
    Regs { Y: y, P: with_nz(r.P, y), ..r }
}

pub open spec fn with_p(r: Regs, p: u8) -> Regs {
    Regs { P: p, ..r }
}

/// The flags that exist only on the stack copy of the status register.
pub open spec fn pushed_flags(p: u8) -> u8 {
    p | FLAG_PUSHED | FLAG_BRK
}

pub open spec fn pulled_flags(v: u8) -> u8 {
    v & !(FLAG_PUSHED | FLAG_BRK)
}

/// What an instruction does to the registers and the memory, given its effective address.
/// The program counter is advanced by the caller; branches are jumps to the address that
/// the relative mode computed.
#[verifier::opaque]
pub open spec fn execute_spec(op: Mnemonic, r: Regs, m: Memory, address: u16) -> (Regs, Memory) {
    let (ml, v) = m.loaded(address);
    match op {
        // Jump
        Mnemonic::Jsr => {
            let (r1, m1) = push_word_spec(r, m, add16(r.PC, 2));
            (Regs { PC: address, ..r1 }, m1)
        },
        Mnemonic::Jmp | Mnemonic::Bpl | Mnemonic::Bmi | Mnemonic::Bvc | Mnemonic::Bvs
        | Mnemonic::Bcc | Mnemonic::Bcs | Mnemonic::Bne | Mnemonic::Beq => {
            (Regs { PC: address, ..r }, m)
        },
        // Implied special
        Mnemonic::Brk => {
            let (r1, m1) = push_word_spec(r, m, add16(r.PC, 2));
            let (r2, m2) = push_spec(r1, m1, pushed_flags(r.P));
            let (m3, pc) = load_word_spec(m2, ADDRESS_INTERRUPT);
            (Regs { P: r2.P | FLAG_INTERRUPT, PC: pc, ..r2 }, m3)
        },
        Mnemonic::Rti => {
            let (r1, m1, p) = pop_spec(r, m);
            let (r2, m2, pc) = pop_word_spec(with_p(r1, pulled_flags(p)), m1);
            (Regs { PC: pc, ..r2 }, m2)
        },
        Mnemonic::Rts => {
            let (r1, m1, pc) = pop_word_spec(r, m);
            (Regs { PC: add16(pc, 1), ..r1 }, m1)
        },
        // Implied
        Mnemonic::Php => push_spec(r, m, pushed_flags(r.P)),
        Mnemonic::Plp => {
            let (r1, m1, p) = pop_spec(r, m);
            (with_p(r1, pulled_flags(p)), m1)
        },
        Mnemonic::Pha => push_spec(r, m, r.A),
        Mnemonic::Pla => {
            let (r1, m1, a) = pop_spec(r, m);
            (with_a(r1, a), m1)
        },
        Mnemonic::Sal => {
            let (a, p) = shift_left_spec(r.P, r.A);
            (Regs { A: a, P: p, ..r }, m)
        },
        Mnemonic::Ral => {
            let (a, p) = rotate_left_spec(r.P, r.A);
            (Regs { A: a, P: p, ..r }, m)
        },
        Mnemonic::Sar => {
            let (a, p) = shift_right_spec(r.P, r.A);
            (Regs { A: a, P: p, ..r }, m)
        },
        Mnemonic::Rar => {
            let (a, p) = rotate_right_spec(r.P, r.A);
            (Regs { A: a, P: p, ..r }, m)
        },
        Mnemonic::Clc => (with_p(r, with_flag(r.P, FLAG_CARRY, false)), m),
        Mnemonic::Sec => (with_p(r, with_flag(r.P, FLAG_CARRY, true)), m),
        Mnemonic::Cli => (with_p(r, with_flag(r.P, FLAG_INTERRUPT, false)), m),
        Mnemonic::Sei => (with_p(r, with_flag(r.P, FLAG_INTERRUPT, true)), m),
        Mnemonic::Clv => (with_p(r, with_flag(r.P, FLAG_OVERFLOW, false)), m),
        Mnemonic::Cld => (with_p(r, with_flag(r.P, FLAG_DECIMAL, false)), m),
        Mnemonic::Sed => (with_p(r, with_flag(r.P, FLAG_DECIMAL, true)), m),
        Mnemonic::Dey => (with_y(r, dec8(r.Y)), m),
        Mnemonic::Iny => (with_y(r, inc8(r.Y)), m),
        Mnemonic::Dex => (with_x(r, dec8(r.X)), m),
        Mnemonic::Inx => (with_x(r, inc8(r.X)), m),
        Mnemonic::Txa => (with_a(r, r.X), m),
        Mnemonic::Tya => (with_a(r, r.Y), m),
        Mnemonic::Tay => (with_y(r, r.A), m),
        Mnemonic::Tax => (with_x(r, r.A), m),
        Mnemonic::Tsx => (with_x(r, r.SP), m),
        Mnemonic::Txs => (Regs { SP: r.X, ..r }, m),
        Mnemonic::Nop => (r, m),
        // Common
        Mnemonic::Ora => (with_a(r, r.A | v), ml),
        Mnemonic::And => (with_a(r, r.A & v), ml),
        Mnemonic::Eor => (with_a(r, r.A ^ v), ml),
        Mnemonic::Adc => {
            let (a, p) = adc_spec(r.A, r.P, v);
            (Regs { A: a, P: p, ..r }, ml)
        },
        // Subtraction adds the complement of the operand.
        Mnemonic::Sbc => {
            let (a, p) = adc_spec(r.A, r.P, (0xFF - v) as u8);
            (Regs { A: a, P: p, ..r }, ml)
        },
        Mnemonic::Bit => {
            let p1 = with_flag(r.P, FLAG_OVERFLOW, v & FLAG_OVERFLOW != 0);
            let p2 = with_flag(p1, FLAG_SIGN, v >= 0x80);
            (with_p(r, with_flag(p2, FLAG_ZERO, r.A & v == 0)), ml)
        },
        Mnemonic::Asl => {
            let (res, p) = shift_left_spec(r.P, v);
            (with_p(r, p), ml.stored(address, res))
        },
        Mnemonic::Rol => {
            let (res, p) = rotate_left_spec(r.P, v);
            (with_p(r, p), ml.stored(address, res))
        },
        Mnemonic::Lsr => {
            let (res, p) = shift_right_spec(r.P, v);
            (with_p(r, p), ml.stored(address, res))
        },
        Mnemonic::Ror => {
            let (res, p) = rotate_right_spec(r.P, v);
            (with_p(r, p), ml.stored(address, res))
        },
        Mnemonic::Dec => (with_p(r, with_nz(r.P, dec8(v))), ml.stored(address, dec8(v))),
        Mnemonic::Inc => (with_p(r, with_nz(r.P, inc8(v))), ml.stored(address, inc8(v))),
        Mnemonic::Sty => (r, m.stored(address, r.Y)),
        Mnemonic::Stx => (r, m.stored(address, r.X)),
        Mnemonic::Sta => (r, m.stored(address, r.A)),
        Mnemonic::Ldy => (with_y(r, v), ml),
        Mnemonic::Ldx => (with_x(r, v), ml),
        Mnemonic::Lda => (with_a(r, v), ml),
        Mnemonic::Cpy => (with_p(r, compare_spec(r.P, r.Y, v)), ml),
        Mnemonic::Cpx => (with_p(r, compare_spec(r.P, r.X, v)), ml),
        Mnemonic::Cmp => (with_p(r, compare_spec(r.P, r.A, v)), ml),
        // Unofficial
        Mnemonic::Lax => (Regs { A: v, X: v, P: with_nz(r.P, v), ..r }, ml),
        Mnemonic::Sax => (r, m.stored(address, r.A & r.X)),
        Mnemonic::Dcp => (with_p(r, compare_spec(r.P, r.A, dec8(v))), ml.stored(address, dec8(v))),
        Mnemonic::Isc => {
            let (a, p) = adc_spec(r.A, r.P, (0xFF - inc8(v)) as u8);
            (Regs { A: a, P: p, ..r }, ml.stored(address, inc8(v)))
        },
        Mnemonic::Slo => {
            let (res, p) = shift_left_spec(r.P, v);
            (with_a(with_p(r, p), r.A | res), ml.stored(address, res))
        },
        Mnemonic::Rla => {
            let (res, p) = rotate_left_spec(r.P, v);
            (with_a(with_p(r, p), r.A & res), ml.stored(address, res))
        },
        Mnemonic::Sre => {
            let (res, p) = shift_right_spec(r.P, v);
            (with_a(with_p(r, p), r.A ^ res), ml.stored(address, res))
        },
        Mnemonic::Rra => {
            let (res, p) = rotate_right_spec(r.P, v);
            let (a, p2) = adc_spec(r.A, p, res);
            (Regs { A: a, P: p2, ..r }, ml.stored(address, res))
        },
    }
}

// Instructions

impl Regs {
    fn jsr(&mut self, memory: &mut Memory, address: u16)
        requires
            old(memory).prg_ok(),
        ensures
            (*final(self), *final(memory)) == execute_spec(Mnemonic::Jsr, *old(self), *old(memory), address),
            final(memory).prg_ok(),
            old(memory).wf() ==> final(memory).wf(),
    {
        reveal(execute_spec);
        // Push the address of the last byte of the instruction, then jump
        let ret = self.PC.wrapping_add(2);
        assert(ret == add16(self.PC, 2));
        self.push_word(memory, ret);
        self.PC = address;
    }

    fn jmp(&mut self, memory: &mut Memory, address: u16)
        requires
            old(memory).prg_ok(),
        ensures
            (*final(self), *final(memory)) == execute_spec(Mnemonic::Jmp, *old(self), *old(memory), address),
            final(memory).prg_ok(),
            old(memory).wf() ==> final(memory).wf(),
    {
        reveal(execute_spec);
        self.PC = address;
    }

    fn bpl(&mut self, memory: &mut Memory, address: u16)
        requires
            old(memory).prg_ok(),
        ensures
            (*final(self), *final(memory)) == execute_spec(Mnemonic::Bpl, *old(self), *old(memory), address),
            final(memory).prg_ok(),
            old(memory).wf() ==> final(memory).wf(),
    {
        reveal(execute_spec);
        self.PC = address;
    }

    fn bmi(&mut self, memory: &mut Memory, address: u16)
        requires
            old(memory).prg_ok(),
        ensures
            (*final(self), *final(memory)) == execute_spec(Mnemonic::Bmi, *old(self), *old(memory), address),
            final(memory).prg_ok(),
            old(memory).wf() ==> final(memory).wf(),
    {
        reveal(execute_spec);
        self.PC = address;
    }

    fn bvc(&mut self, memory: &mut Memory, address: u16)
        requires
            old(memory).prg_ok(),
        ensures
            (*final(self), *final(memory)) == execute_spec(Mnemonic::Bvc, *old(self), *old(memory), address),
            final(memory).prg_ok(),
            old(memory).wf() ==> final(memory).wf(),
    {
        reveal(execute_spec);
        self.PC = address;
    }

    fn bvs(&mut self, memory: &mut Memory, address: u16)
        requires
            old(memory).prg_ok(),
        ensures
            (*final(self), *final(memory)) == execute_spec(Mnemonic::Bvs, *old(self), *old(memory), address),
            final(memory).prg_ok(),
            old(memory).wf() ==> final(memory).wf(),
    {
        reveal(execute_spec);
        self.PC = address;
    }

    fn bcc(&mut self, memory: &mut Memory, address: u16)
        requires
            old(memory).prg_ok(),
        ensures
            (*final(self), *final(memory)) == execute_spec(Mnemonic::Bcc, *old(self), *old(memory), address),
            final(memory).prg_ok(),
            old(memory).wf() ==> final(memory).wf(),
    {
        reveal(execute_spec);
        self.PC = address;
    }

    fn bcs(&mut self, memory: &mut Memory, address: u16)
        requires
            old(memory).prg_ok(),
        ensures
            (*final(self), *final(memory)) == execute_spec(Mnemonic::Bcs, *old(self), *old(memory), address),
            final(memory).prg_ok(),
            old(memory).wf() ==> final(memory).wf(),
    {
        reveal(execute_spec);
        self.PC = address;
    }

    fn bne(&mut self, memory: &mut Memory, address: u16)
        requires
            old(memory).prg_ok(),
        ensures
            (*final(self), *final(memory)) == execute_spec(Mnemonic::Bne, *old(self), *old(memory), address),
            final(memory).prg_ok(),
            old(memory).wf() ==> final(memory).wf(),
    {
        reveal(execute_spec);
        self.PC = address;
    }

    fn beq(&mut self, memory: &mut Memory, address: u16)
        requires
            old(memory).prg_ok(),
        ensures
            (*final(self), *final(memory)) == execute_spec(Mnemonic::Beq, *old(self), *old(memory), address),
            final(memory).prg_ok(),
            old(memory).wf() ==> final(memory).wf(),
    {
        reveal(execute_spec);
        self.PC = address;
    }

    fn brk(&mut self, memory: &mut Memory, address: u16)
        requires
            old(memory).prg_ok(),
        ensures
            (*final(self), *final(memory)) == execute_spec(Mnemonic::Brk, *old(self), *old(memory), address),
            final(memory).prg_ok(),
            old(memory).wf() ==> final(memory).wf(),
    {
        reveal(execute_spec);
        // Two bits are set on memory when pushing flags
        let flags = self.P | FLAG_PUSHED | FLAG_BRK;
        let pc = self.PC.wrapping_add(2);
        assert(pc == add16(self.PC, 2));
        self.push_word(memory, pc);
        self.push(memory, flags);
        self.P = self.P | FLAG_INTERRUPT;
        self.PC = memory.load_word(ADDRESS_INTERRUPT);
    }

    fn rti(&mut self, memory: &mut Memory, address: u16)
        requires
            old(memory).prg_ok(),
        ensures
            (*final(self), *final(memory)) == execute_spec(Mnemonic::Rti, *old(self), *old(memory), address),
            final(memory).prg_ok(),
            old(memory).wf() ==> final(memory).wf(),
    {
        reveal(execute_spec);
        // Ignore the two bits not present
        self.P = self.pop(memory) & !(FLAG_PUSHED | FLAG_BRK);
        self.PC = self.pop_word(memory);
    }

    #[verifier::rlimit(80)]
    #[verifier::spinoff_prover]
    fn rts(&mut self, memory: &mut Memory, address: u16)
        requires
            old(memory).prg_ok(),
        ensures
            (*final(self), *final(memory)) == execute_spec(Mnemonic::Rts, *old(self), *old(memory), address),
            final(memory).prg_ok(),
            old(memory).wf() ==> final(memory).wf(),
    {
        reveal(execute_spec);
        let pc = self.pop_word(memory);
        self.PC = pc.wrapping_add(1);
        assert(self.PC == add16(pc, 1));
    }

    fn php(&mut self, memory: &mut Memory, address: u16)
        requires
            old(memory).prg_ok(),
        ensures
            (*final(self), *final(memory)) == execute_spec(Mnemonic::Php, *old(self), *old(memory), address),
            final(memory).prg_ok(),
            old(memory).wf() ==> final(memory).wf(),
    {
        reveal(execute_spec);
        // Two bits are set on memory when pushing flags
        let flags = self.P | FLAG_PUSHED | FLAG_BRK;
        self.push(memory, flags);
    }

    fn sal(&mut self, memory: &mut Memory, address: u16)
        requires
            old(memory).prg_ok(),
        ensures
            (*final(self), *final(memory)) == execute_spec(Mnemonic::Sal, *old(self), *old(memory), address),
            final(memory).prg_ok(),
            old(memory).wf() ==> final(memory).wf(),
    {
        reveal(execute_spec);
        let a = self.A;
        self.A = self.shift_left(a);
    }

    fn clc(&mut self, memory: &mut Memory, address: u16)
        requires
            old(memory).prg_ok(),
        ensures
            (*final(self), *final(memory)) == execute_spec(Mnemonic::Clc, *old(self), *old(memory), address),
            final(memory).prg_ok(),
            old(memory).wf() ==> final(memory).wf(),
    {
        reveal(execute_spec);
        self.P = set_flag_cond(self.P, FLAG_CARRY, false);
    }

    fn plp(&mut self, memory: &mut Memory, address: u16)
        requires
            old(memory).prg_ok(),
        ensures
            (*final(self), *final(memory)) == execute_spec(Mnemonic::Plp, *old(self), *old(memory), address),
            final(memory).prg_ok(),
            old(memory).wf() ==> final(memory).wf(),
    {
        reveal(execute_spec);
        // Ignore the two bits not present
        self.P = self.pop(memory) & !(FLAG_PUSHED | FLAG_BRK);
    }

    fn ral(&mut self, memory: &mut Memory, address: u16)
        requires
            old(memory).prg_ok(),
        ensures
            (*final(self), *final(memory)) == execute_spec(Mnemonic::Ral, *old(self), *old(memory), address),
            final(memory).prg_ok(),
            old(memory).wf() ==> final(memory).wf(),
    {
        reveal(execute_spec);
        let a = self.A;
        self.A = self.rotate_left(a);
    }

    fn sec(&mut self, memory: &mut Memory, address: u16)
        requires
            old(memory).prg_ok(),
        ensures
            (*final(self), *final(memory)) == execute_spec(Mnemonic::Sec, *old(self), *old(memory), address),
            final(memory).prg_ok(),
            old(memory).wf() ==> final(memory).wf(),
    {
        reveal(execute_spec);
        self.P = set_flag_cond(self.P, FLAG_CARRY, true);
    }

    fn pha(&mut self, memory: &mut Memory, address: u16)
        requires
            old(memory).prg_ok(),
        ensures
            (*final(self), *final(memory)) == execute_spec(Mnemonic::Pha, *old(self), *old(memory), address),
            final(memory).prg_ok(),
            old(memory).wf() ==> final(memory).wf(),
    {
        reveal(execute_spec);
        let a = self.A;
        self.push(memory, a);
    }

    fn sar(&mut self, memory: &mut Memory, address: u16)
        requires
            old(memory).prg_ok(),
        ensures
            (*final(self), *final(memory)) == execute_spec(Mnemonic::Sar, *old(self), *old(memory), address),
            final(memory).prg_ok(),
            old(memory).wf() ==> final(memory).wf(),
    {
        reveal(execute_spec);
        let a = self.A;
        self.A = self.shift_right(a);
    }

    fn cli(&mut self, memory: &mut Memory, address: u16)
        requires
            old(memory).prg_ok(),
        ensures
            (*final(self), *final(memory)) == execute_spec(Mnemonic::Cli, *old(self), *old(memory), address),
            final(memory).prg_ok(),
            old(memory).wf() ==> final(memory).wf(),
    {
        reveal(execute_spec);
        self.P = set_flag_cond(self.P, FLAG_INTERRUPT, false);
    }

    fn pla(&mut self, memory: &mut Memory, address: u16)
        requires
            old(memory).prg_ok(),
        ensures
            (*final(self), *final(memory)) == execute_spec(Mnemonic::Pla, *old(self), *old(memory), address),
            final(memory).prg_ok(),
            old(memory).wf() ==> final(memory).wf(),
    {
        reveal(execute_spec);
        self.A = self.pop(memory);
        self.P = set_sign_zero(self.P, self.A);
    }

    fn rar(&mut self, memory: &mut Memory, address: u16)
        requires
            old(memory).prg_ok(),
        ensures
            (*final(self), *final(memory)) == execute_spec(Mnemonic::Rar, *old(self), *old(memory), address),
            final(memory).prg_ok(),
            old(memory).wf() ==> final(memory).wf(),
    {
        reveal(execute_spec);
        let a = self.A;
        self.A = self.rotate_right(a);
    }

    fn sei(&mut self, memory: &mut Memory, address: u16)
        requires
            old(memory).prg_ok(),
        ensures
            (*final(self), *final(memory)) == execute_spec(Mnemonic::Sei, *old(self), *old(memory), address),
            final(memory).prg_ok(),
            old(memory).wf() ==> final(memory).wf(),
    {
        reveal(execute_spec);
        self.P = set_flag_cond(self.P, FLAG_INTERRUPT, true);
    }

    fn dey(&mut self, memory: &mut Memory, address: u16)
        requires
            old(memory).prg_ok(),
        ensures
            (*final(self), *final(memory)) == execute_spec(Mnemonic::Dey, *old(self), *old(memory), address),
            final(memory).prg_ok(),
            old(memory).wf() ==> final(memory).wf(),
    {
        reveal(execute_spec);
        let v = self.Y.wrapping_sub(1);
        assert(v == dec8(self.Y));
        self.Y = v;
        self.P = set_sign_zero(self.P, self.Y);
    }

    fn txa(&mut self, memory: &mut Memory, address: u16)
        requires
            old(memory).prg_ok(),
        ensures
            (*final(self), *final(memory)) == execute_spec(Mnemonic::Txa, *old(self), *old(memory), address),
            final(memory).prg_ok(),
            old(memory).wf() ==> final(memory).wf(),
    {
        reveal(execute_spec);
        self.A = self.X;
        self.P = set_sign_zero(self.P, self.A);
    }

    fn tya(&mut self, memory: &mut Memory, address: u16)
        requires
            old(memory).prg_ok(),
        ensures
            (*final(self), *final(memory)) == execute_spec(Mnemonic::Tya, *old(self), *old(memory), address),
            final(memory).prg_ok(),
            old(memory).wf() ==> final(memory).wf(),
    {
        reveal(execute_spec);
        self.A = self.Y;
        self.P = set_sign_zero(self.P, self.A);
    }

    fn txs(&mut self, memory: &mut Memory, address: u16)
        requires
            old(memory).prg_ok(),
        ensures
            (*final(self), *final(memory)) == execute_spec(Mnemonic::Txs, *old(self), *old(memory), address),
            final(memory).prg_ok(),
            old(memory).wf() ==> final(memory).wf(),
    {
        reveal(execute_spec);
        self.SP = self.X;
    }

    fn tay(&mut self, memory: &mut Memory, address: u16)
        requires
            old(memory).prg_ok(),
        ensures
            (*final(self), *final(memory)) == execute_spec(Mnemonic::Tay, *old(self), *old(memory), address),
            final(memory).prg_ok(),
            old(memory).wf() ==> final(memory).wf(),
    {
        reveal(execute_spec);
        self.Y = self.A;
        self.P = set_sign_zero(self.P, self.Y);
    }

    fn tax(&mut self, memory: &mut Memory, address: u16)
        requires
            old(memory).prg_ok(),
        ensures
            (*final(self), *final(memory)) == execute_spec(Mnemonic::Tax, *old(self), *old(memory), address),
            final(memory).prg_ok(),
            old(memory).wf() ==> final(memory).wf(),
    {
        reveal(execute_spec);
        self.X = self.A;
        self.P = set_sign_zero(self.P, self.X);
    }

    fn clv(&mut self, memory: &mut Memory, address: u16)
        requires
            old(memory).prg_ok(),
        ensures
            (*final(self), *final(memory)) == execute_spec(Mnemonic::Clv, *old(self), *old(memory), address),
            final(memory).prg_ok(),
            old(memory).wf() ==> final(memory).wf(),
    {
        reveal(execute_spec);
        self.P = set_flag_cond(self.P, FLAG_OVERFLOW, false);
    }

    fn tsx(&mut self, memory: &mut Memory, address: u16)
        requires
            old(memory).prg_ok(),
        ensures
            (*final(self), *final(memory)) == execute_spec(Mnemonic::Tsx, *old(self), *old(memory), address),
            final(memory).prg_ok(),
            old(memory).wf() ==> final(memory).wf(),
    {
        reveal(execute_spec);
        self.X = self.SP;
        self.P = set_sign_zero(self.P, self.X);
    }

    fn iny(&mut self, memory: &mut Memory, address: u16)
        requires
            old(memory).prg_ok(),
        ensures
            (*final(self), *final(memory)) == execute_spec(Mnemonic::Iny, *old(self), *old(memory), address),
            final(memory).prg_ok(),
            old(memory).wf() ==> final(memory).wf(),
    {
        reveal(execute_spec);
        let v = self.Y.wrapping_add(1);
        assert(v == inc8(self.Y));
        self.Y = v;
        self.P = set_sign_zero(self.P, self.Y);
    }

    fn dex(&mut self, memory: &mut Memory, address: u16)
        requires
            old(memory).prg_ok(),
        ensures
            (*final(self), *final(memory)) == execute_spec(Mnemonic::Dex, *old(self), *old(memory), address),
            final(memory).prg_ok(),
            old(memory).wf() ==> final(memory).wf(),
    {
        reveal(execute_spec);
        let v = self.X.wrapping_sub(1);
        assert(v == dec8(self.X));
        self.X = v;
        self.P = set_sign_zero(self.P, self.X);
    }

    fn cld(&mut self, memory: &mut Memory, address: u16)
        requires
            old(memory).prg_ok(),
        ensures
            (*final(self), *final(memory)) == execute_spec(Mnemonic::Cld, *old(self), *old(memory), address),
            final(memory).prg_ok(),
            old(memory).wf() ==> final(memory).wf(),
    {
        reveal(execute_spec);
        self.P = set_flag_cond(self.P, FLAG_DECIMAL, false);
    }

    fn inx(&mut self, memory: &mut Memory, address: u16)
        requires
            old(memory).prg_ok(),
        ensures
            (*final(self), *final(memory)) == execute_spec(Mnemonic::Inx, *old(self), *old(memory), address),
            final(memory).prg_ok(),
            old(memory).wf() ==> final(memory).wf(),
    {
        reveal(execute_spec);
        let v = self.X.wrapping_add(1);
        assert(v == inc8(self.X));
        self.X = v;
        self.P = set_sign_zero(self.P, self.X);
    }

    fn nop(&mut self, memory: &mut Memory, address: u16)
        requires
            old(memory).prg_ok(),
        ensures
            (*final(self), *final(memory)) == execute_spec(Mnemonic::Nop, *old(self), *old(memory), address),
            final(memory).prg_ok(),
            old(memory).wf() ==> final(memory).wf(),
    {
        reveal(execute_spec);

    }

    fn sed(&mut self, memory: &mut Memory, address: u16)
        requires
            old(memory).prg_ok(),
        ensures
            (*final(self), *final(memory)) == execute_spec(Mnemonic::Sed, *old(self), *old(memory), address),
            final(memory).prg_ok(),
            old(memory).wf() ==> final(memory).wf(),
    {
        reveal(execute_spec);
        self.P = set_flag_cond(self.P, FLAG_DECIMAL, true);
    }

    fn ora(&mut self, memory: &mut Memory, address: u16)
        requires
            old(memory).prg_ok(),
        ensures
            (*final(self), *final(memory)) == execute_spec(Mnemonic::Ora, *old(self), *old(memory), address),
            final(memory).prg_ok(),
            old(memory).wf() ==> final(memory).wf(),
    {
        reveal(execute_spec);
        let m = memory.load(address);
        self.A = self.A | m;
        self.P = set_sign_zero(self.P, self.A);
    }

    fn asl(&mut self, memory: &mut Memory, address: u16)
        requires
            old(memory).prg_ok(),
        ensures
            (*final(self), *final(memory)) == execute_spec(Mnemonic::Asl, *old(self), *old(memory), address),
            final(memory).prg_ok(),
            old(memory).wf() ==> final(memory).wf(),
    {
        reveal(execute_spec);
        let v = memory.load(address);
        let m = self.shift_left(v);
        memory.store(address, m);
    }

    fn bit(&mut self, memory: &mut Memory, address: u16)
        requires
            old(memory).prg_ok(),
        ensures
            (*final(self), *final(memory)) == execute_spec(Mnemonic::Bit, *old(self), *old(memory), address),
            final(memory).prg_ok(),
            old(memory).wf() ==> final(memory).wf(),
    {
        reveal(execute_spec);
        let m = memory.load(address);
        // Overflow and sign are copied from the operand.
        let p1 = set_flag_cond(self.P, FLAG_OVERFLOW, m & FLAG_OVERFLOW != 0);
        let p2 = set_flag_cond(p1, FLAG_SIGN, m >= 0x80);
        self.P = set_flag_cond(p2, FLAG_ZERO, self.A & m == 0);
    }

    fn and(&mut self, memory: &mut Memory, address: u16)
        requires
            old(memory).prg_ok(),
        ensures
            (*final(self), *final(memory)) == execute_spec(Mnemonic::And, *old(self), *old(memory), address),
            final(memory).prg_ok(),
            old(memory).wf() ==> final(memory).wf(),
    {
        reveal(execute_spec);
        let m = memory.load(address);
        self.A = self.A & m;
        self.P = set_sign_zero(self.P, self.A);
    }

    fn rol(&mut self, memory: &mut Memory, address: u16)
        requires
            old(memory).prg_ok(),
        ensures
            (*final(self), *final(memory)) == execute_spec(Mnemonic::Rol, *old(self), *old(memory), address),
            final(memory).prg_ok(),
            old(memory).wf() ==> final(memory).wf(),
    {
        reveal(execute_spec);
        let v = memory.load(address);
        let m = self.rotate_left(v);
        memory.store(address, m);
    }

    fn eor(&mut self, memory: &mut Memory, address: u16)
        requires
            old(memory).prg_ok(),
        ensures
            (*final(self), *final(memory)) == execute_spec(Mnemonic::Eor, *old(self), *old(memory), address),
            final(memory).prg_ok(),
            old(memory).wf() ==> final(memory).wf(),
    {
        reveal(execute_spec);
        let m = memory.load(address);
        self.A = self.A ^ m;
        self.P = set_sign_zero(self.P, self.A);
    }

    fn lsr(&mut self, memory: &mut Memory, address: u16)
        requires
            old(memory).prg_ok(),
        ensures
            (*final(self), *final(memory)) == execute_spec(Mnemonic::Lsr, *old(self), *old(memory), address),
            final(memory).prg_ok(),
            old(memory).wf() ==> final(memory).wf(),
    {
        reveal(execute_spec);
        let v = memory.load(address);
        let m = self.shift_right(v);
        memory.store(address, m);
    }

    fn adc(&mut self, memory: &mut Memory, address: u16)
        requires
            old(memory).prg_ok(),
        ensures
            (*final(self), *final(memory)) == execute_spec(Mnemonic::Adc, *old(self), *old(memory), address),
            final(memory).prg_ok(),
            old(memory).wf() ==> final(memory).wf(),
    {
        reveal(execute_spec);
        let m = memory.load(address);
        self.add_with_carry(m);
    }

    fn ror(&mut self, memory: &mut Memory, address: u16)
        requires
            old(memory).prg_ok(),
        ensures
            (*final(self), *final(memory)) == execute_spec(Mnemonic::Ror, *old(self), *old(memory), address),
            final(memory).prg_ok(),
            old(memory).wf() ==> final(memory).wf(),
    {
        reveal(execute_spec);
        let v = memory.load(address);
        let m = self.rotate_right(v);
        memory.store(address, m);
    }

    fn sty(&mut self, memory: &mut Memory, address: u16)
        requires
            old(memory).prg_ok(),
        ensures
            (*final(self), *final(memory)) == execute_spec(Mnemonic::Sty, *old(self), *old(memory), address),
            final(memory).prg_ok(),
            old(memory).wf() ==> final(memory).wf(),
    {
        reveal(execute_spec);
        memory.store(address, self.Y);
    }

    fn stx(&mut self, memory: &mut Memory, address: u16)
        requires
            old(memory).prg_ok(),
        ensures
            (*final(self), *final(memory)) == execute_spec(Mnemonic::Stx, *old(self), *old(memory), address),
            final(memory).prg_ok(),
            old(memory).wf() ==> final(memory).wf(),
    {
        reveal(execute_spec);
        memory.store(address, self.X);
    }

    fn sta(&mut self, memory: &mut Memory, address: u16)
        requires
            old(memory).prg_ok(),
        ensures
            (*final(self), *final(memory)) == execute_spec(Mnemonic::Sta, *old(self), *old(memory), address),
            final(memory).prg_ok(),
            old(memory).wf() ==> final(memory).wf(),
    {
        reveal(execute_spec);
        memory.store(address, self.A);
    }

    fn ldy(&mut self, memory: &mut Memory, address: u16)
        requires
            old(memory).prg_ok(),
        ensures
            (*final(self), *final(memory)) == execute_spec(Mnemonic::Ldy, *old(self), *old(memory), address),
            final(memory).prg_ok(),
            old(memory).wf() ==> final(memory).wf(),
    {
        reveal(execute_spec);
        self.Y = memory.load(address);
        self.P = set_sign_zero(self.P, self.Y);
    }

    fn ldx(&mut self, memory: &mut Memory, address: u16)
        requires
            old(memory).prg_ok(),
        ensures
            (*final(self), *final(memory)) == execute_spec(Mnemonic::Ldx, *old(self), *old(memory), address),
            final(memory).prg_ok(),
            old(memory).wf() ==> final(memory).wf(),
    {
        reveal(execute_spec);
        self.X = memory.load(address);
        self.P = set_sign_zero(self.P, self.X);
    }

    fn lda(&mut self, memory: &mut Memory, address: u16)
        requires
            old(memory).prg_ok(),
        ensures
            (*final(self), *final(memory)) == execute_spec(Mnemonic::Lda, *old(self), *old(memory), address),
            final(memory).prg_ok(),
            old(memory).wf() ==> final(memory).wf(),
    {
        reveal(execute_spec);
        self.A = memory.load(address);
        self.P = set_sign_zero(self.P, self.A);
    }

    fn cpy(&mut self, memory: &mut Memory, address: u16)
        requires
            old(memory).prg_ok(),
        ensures
            (*final(self), *final(memory)) == execute_spec(Mnemonic::Cpy, *old(self), *old(memory), address),
            final(memory).prg_ok(),
            old(memory).wf() ==> final(memory).wf(),
    {
        reveal(execute_spec);
        let y = self.Y;
        let m = memory.load(address);
        self.compare(y, m);
    }

    fn cpx(&mut self, memory: &mut Memory, address: u16)
        requires
            old(memory).prg_ok(),
        ensures
            (*final(self), *final(memory)) == execute_spec(Mnemonic::Cpx, *old(self), *old(memory), address),
            final(memory).prg_ok(),
            old(memory).wf() ==> final(memory).wf(),
    {
        reveal(execute_spec);
        let x = self.X;
        let m = memory.load(address);
        self.compare(x, m);
    }

    fn cmp(&mut self, memory: &mut Memory, address: u16)
        requires
            old(memory).prg_ok(),
        ensures
            (*final(self), *final(memory)) == execute_spec(Mnemonic::Cmp, *old(self), *old(memory), address),
            final(memory).prg_ok(),
            old(memory).wf() ==> final(memory).wf(),
    {
        reveal(execute_spec);
        let a = self.A;
        let m = memory.load(address);
        self.compare(a, m);
    }

    fn dec(&mut self, memory: &mut Memory, address: u16)
        requires
            old(memory).prg_ok(),
        ensures
            (*final(self), *final(memory)) == execute_spec(Mnemonic::Dec, *old(self), *old(memory), address),
            final(memory).prg_ok(),
            old(memory).wf() ==> final(memory).wf(),
    {
        reveal(execute_spec);
        let v = memory.load(address);
        let m = dec_byte(v);
        self.P = set_sign_zero(self.P, m);
        memory.store(address, m);
    }

    fn sbc(&mut self, memory: &mut Memory, address: u16)
        requires
            old(memory).prg_ok(),
        ensures
            (*final(self), *final(memory)) == execute_spec(Mnemonic::Sbc, *old(self), *old(memory), address),
            final(memory).prg_ok(),
            old(memory).wf() ==> final(memory).wf(),
    {
        reveal(execute_spec);
        let m = memory.load(address);
        // Subtraction adds the one's complement of the operand.
        self.add_with_carry(0xFF - m);
    }

    fn inc(&mut self, memory: &mut Memory, address: u16)
        requires
            old(memory).prg_ok(),
        ensures
            (*final(self), *final(memory)) == execute_spec(Mnemonic::Inc, *old(self), *old(memory), address),
            final(memory).prg_ok(),
            old(memory).wf() ==> final(memory).wf(),
    {
        reveal(execute_spec);
        let v = memory.load(address);
        let m = inc_byte(v);
        self.P = set_sign_zero(self.P, m);
        memory.store(address, m);
    }

    fn lax(&mut self, memory: &mut Memory, address: u16)
        requires
            old(memory).prg_ok(),
        ensures
            (*final(self), *final(memory)) == execute_spec(Mnemonic::Lax, *old(self), *old(memory), address),
            final(memory).prg_ok(),
            old(memory).wf() ==> final(memory).wf(),
    {
        reveal(execute_spec);
        let m = memory.load(address);
        self.A = m;
        self.X = m;
        self.P = set_sign_zero(self.P, m);
    }

    fn sax(&mut self, memory: &mut Memory, address: u16)
        requires
            old(memory).prg_ok(),
        ensures
            (*final(self), *final(memory)) == execute_spec(Mnemonic::Sax, *old(self), *old(memory), address),
            final(memory).prg_ok(),
            old(memory).wf() ==> final(memory).wf(),
    {
        reveal(execute_spec);
        memory.store(address, self.A & self.X);
    }

    fn dcp(&mut self, memory: &mut Memory, address: u16)
        requires
            old(memory).prg_ok(),
        ensures
            (*final(self), *final(memory)) == execute_spec(Mnemonic::Dcp, *old(self), *old(memory), address),
            final(memory).prg_ok(),
            old(memory).wf() ==> final(memory).wf(),
    {
        reveal(execute_spec);
        let v = memory.load(address);
        let m = dec_byte(v);
        let a = self.A;
        memory.store(address, m);
        self.compare(a, m);
    }

    fn isc(&mut self, memory: &mut Memory, address: u16)
        requires
            old(memory).prg_ok(),
        ensures
            (*final(self), *final(memory)) == execute_spec(Mnemonic::Isc, *old(self), *old(memory), address),
            final(memory).prg_ok(),
            old(memory).wf() ==> final(memory).wf(),
    {
        reveal(execute_spec);
        let v = memory.load(address);
        let m = inc_byte(v);
        memory.store(address, m);
        // Subtraction adds the one's complement of the operand.
        self.add_with_carry(0xFF - m);
    }

    fn slo(&mut self, memory: &mut Memory, address: u16)
        requires
            old(memory).prg_ok(),
        ensures
            (*final(self), *final(memory)) == execute_spec(Mnemonic::Slo, *old(self), *old(memory), address),
            final(memory).prg_ok(),
            old(memory).wf() ==> final(memory).wf(),
    {
        reveal(execute_spec);
        let v = memory.load(address);
        let shift = self.shift_left(v);
        memory.store(address, shift);
        self.A = self.A | shift;
        self.P = set_sign_zero(self.P, self.A);
    }

    fn rla(&mut self, memory: &mut Memory, address: u16)
        requires
            old(memory).prg_ok(),
        ensures
            (*final(self), *final(memory)) == execute_spec(Mnemonic::Rla, *old(self), *old(memory), address),
            final(memory).prg_ok(),
            old(memory).wf() ==> final(memory).wf(),
    {
        reveal(execute_spec);
        let v = memory.load(address);
        let rot = self.rotate_left(v);
        memory.store(address, rot);
        self.A = self.A & rot;
        self.P = set_sign_zero(self.P, self.A);
    }

    fn sre(&mut self, memory: &mut Memory, address: u16)
        requires
            old(memory).prg_ok(),
        ensures
            (*final(self), *final(memory)) == execute_spec(Mnemonic::Sre, *old(self), *old(memory), address),
            final(memory).prg_ok(),
            old(memory).wf() ==> final(memory).wf(),
    {
        reveal(execute_spec);
        let v = memory.load(address);
        let shift = self.shift_right(v);
        memory.store(address, shift);
        self.A = self.A ^ shift;
        self.P = set_sign_zero(self.P, self.A);
    }

    fn rra(&mut self, memory: &mut Memory, address: u16)
        requires
            old(memory).prg_ok(),
        ensures
            (*final(self), *final(memory)) == execute_spec(Mnemonic::Rra, *old(self), *old(memory), address),
            final(memory).prg_ok(),
            old(memory).wf() ==> final(memory).wf(),
    {
        reveal(execute_spec);
        let v = memory.load(address);
        let rot = self.rotate_right(v);
        memory.store(address, rot);
        self.add_with_carry(rot);
    }

    /// Runs the operation of an instruction on its effective address.
    fn execute(&mut self, op: Mnemonic, memory: &mut Memory, address: u16)
        requires
            old(memory).prg_ok(),
        ensures
            (*final(self), *final(memory)) == execute_spec(op, *old(self), *old(memory), address),
            final(memory).prg_ok(),
            old(memory).wf() ==> final(memory).wf(),
    {
        match op {
            Mnemonic::Jsr => self.jsr(memory, address),
            Mnemonic::Jmp => self.jmp(memory, address),
            Mnemonic::Bpl => self.bpl(memory, address),
            Mnemonic::Bmi => self.bmi(memory, address),
            Mnemonic::Bvc => self.bvc(memory, address),
            Mnemonic::Bvs => self.bvs(memory, address),
            Mnemonic::Bcc => self.bcc(memory, address),
            Mnemonic::Bcs => self.bcs(memory, address),
            Mnemonic::Bne => self.bne(memory, address),
            Mnemonic::Beq => self.beq(memory, address),
            Mnemonic::Brk => self.brk(memory, address),
            Mnemonic::Rti => self.rti(memory, address),
            Mnemonic::Rts => self.rts(memory, address),
            Mnemonic::Php => self.php(memory, address),
            Mnemonic::Sal => self.sal(memory, address),
            Mnemonic::Clc => self.clc(memory, address),
            Mnemonic::Plp => self.plp(memory, address),
            Mnemonic::Ral => self.ral(memory, address),
            Mnemonic::Sec => self.sec(memory, address),
            Mnemonic::Pha => self.pha(memory, address),
            Mnemonic::Sar => self.sar(memory, address),
            Mnemonic::Cli => self.cli(memory, address),
            Mnemonic::Pla => self.pla(memory, address),
            Mnemonic::Rar => self.rar(memory, address),
            Mnemonic::Sei => self.sei(memory, address),
            Mnemonic::Dey => self.dey(memory, address),
            Mnemonic::Txa => self.txa(memory, address),
            Mnemonic::Tya => self.tya(memory, address),
            Mnemonic::Txs => self.txs(memory, address),
            Mnemonic::Tay => self.tay(memory, address),
            Mnemonic::Tax => self.tax(memory, address),
            Mnemonic::Clv => self.clv(memory, address),
            Mnemonic::Tsx => self.tsx(memory, address),
            Mnemonic::Iny => self.iny(memory, address),
            Mnemonic::Dex => self.dex(memory, address),
            Mnemonic::Cld => self.cld(memory, address),
            Mnemonic::Inx => self.inx(memory, address),
            Mnemonic::Nop => self.nop(memory, address),
            Mnemonic::Sed => self.sed(memory, address),
            Mnemonic::Ora => self.ora(memory, address),
            Mnemonic::Asl => self.asl(memory, address),
            Mnemonic::Bit => self.bit(memory, address),
            Mnemonic::And => self.and(memory, address),
            Mnemonic::Rol => self.rol(memory, address),
            Mnemonic::Eor => self.eor(memory, address),
            Mnemonic::Lsr => self.lsr(memory, address),
            Mnemonic::Adc => self.adc(memory, address),
            Mnemonic::Ror => self.ror(memory, address),
            Mnemonic::Sty => self.sty(memory, address),
            Mnemonic::Stx => self.stx(memory, address),
            Mnemonic::Sta => self.sta(memory, address),
            Mnemonic::Ldy => self.ldy(memory, address),
            Mnemonic::Ldx => self.ldx(memory, address),
            Mnemonic::Lda => self.lda(memory, address),
            Mnemonic::Cpy => self.cpy(memory, address),
            Mnemonic::Cpx => self.cpx(memory, address),
            Mnemonic::Cmp => self.cmp(memory, address),
            Mnemonic::Dec => self.dec(memory, address),
            Mnemonic::Sbc => self.sbc(memory, address),
            Mnemonic::Inc => self.inc(memory, address),
            Mnemonic::Lax => self.lax(memory, address),
            Mnemonic::Sax => self.sax(memory, address),
            Mnemonic::Dcp => self.dcp(memory, address),
            Mnemonic::Isc => self.isc(memory, address),
            Mnemonic::Slo => self.slo(memory, address),
            Mnemonic::Rla => self.rla(memory, address),
            Mnemonic::Sre => self.sre(memory, address),
            Mnemonic::Rra => self.rra(memory, address),
        }
    }
}

// ----------------------------------------------------------------------------
// Decoding and execution
// ----------------------------------------------------------------------------

/// An instruction fetched from memory, with its opcode and operand.
#[derive(Clone, Copy, Debug, PartialEq, Eq, Structural)]
pub struct Operation {
    pub inst: Instruction,
    pub opcode: u8,
    pub operand: u16,
}

/// Fetching reads the opcode, then one operand byte for one-byte modes or a
/// little-endian word for two-byte modes.
pub open spec fn from_address_spec(m: Memory, address: u16) -> (Memory, Operation) {
    let (m1, opcode) = m.loaded(address);
    let inst = instruction_spec(opcode);
    if inst.mode.size == 2 {
        let (m2, b) = m1.loaded(next_address(address));
        (m2, Operation { inst, opcode, operand: b as u16 })
    } else if inst.mode.size == 3 {
        let (m2, w) = load_word_spec(m1, next_address(address));
        (m2, Operation { inst, opcode, operand: w })
    } else {
        (m1, Operation { inst, opcode, operand: 0 })
    }
}

impl Operation {
    pub fn from_address(memory: &mut Memory, address: u16) -> (r: Operation)
        requires
            old(memory).prg_ok(),
        ensures
            (*final(memory), r) == from_address_spec(*old(memory), address),
            final(memory).prg_ok(),
            old(memory).wf() ==> final(memory).wf(),
            2 <= r.inst.cycles <= 8,
    {
        let opcode = memory.load(address);
        let inst = instruction(opcode);
        let next = address.wrapping_add(1);
        assert(next == next_address(address));
        let operand: u16 = if inst.mode.size == 2 {
            memory.load(next) as u16
        } else if inst.mode.size == 3 {
            memory.load_word(next)
        } else {
            0
        };
        Operation { inst: inst, opcode: opcode, operand: operand }
    }
}

pub open spec fn nop_operation() -> Operation {
    Operation { inst: instruction_spec(OPCODE_NOP), opcode: OPCODE_NOP, operand: 0 }
}

impl Default for Operation {
    fn default() -> (r: Operation)
        ensures
            r == nop_operation(),
    {
        Operation { inst: instruction(OPCODE_NOP), opcode: OPCODE_NOP, operand: 0 }
    }
}

/// The instruction in flight: it runs when its cycles are used up.
#[derive(Clone, Copy, Debug)]
pub struct Execution {
    pub cycles_left: u32,
    pub operation: Operation,
    /// Effective address of the last instruction run.
    pub address: u16,
    /// Instructions run since power up, wrapping.
    pub instructions: u64,
}

impl Default for Execution {
    fn default() -> (r: Execution)
        ensures
            r == (Execution { cycles_left: 0, operation: nop_operation(), address: 0, instructions: 0 }),
    {
        Execution { cycles_left: 0, operation: Operation::default(), address: 0, instructions: 0 }
    }
}

/// Jumps, calls, returns, interrupts and branches set the program counter themselves;
/// after any other instruction it moves past the instruction.
pub open spec fn transfers_control(op: Mnemonic) -> bool {
    match op {
        Mnemonic::Jmp | Mnemonic::Jsr | Mnemonic::Rts | Mnemonic::Rti | Mnemonic::Brk
        | Mnemonic::Bpl | Mnemonic::Bmi | Mnemonic::Bvc | Mnemonic::Bvs | Mnemonic::Bcc
        | Mnemonic::Bcs | Mnemonic::Bne | Mnemonic::Beq => true,
        _ => false,
    }
}

fn sets_pc(op: Mnemonic) -> (r: bool)
    ensures
        r == transfers_control(op),
{
    match op {
        Mnemonic::Jmp | Mnemonic::Jsr | Mnemonic::Rts | Mnemonic::Rti | Mnemonic::Brk
        | Mnemonic::Bpl | Mnemonic::Bmi | Mnemonic::Bvc | Mnemonic::Bvs | Mnemonic::Bcc
        | Mnemonic::Bcs | Mnemonic::Bne | Mnemonic::Beq => true,
        _ => false,
    }
}

/// One CPU cycle of instruction execution. When no cycles are left the pending
/// operation runs: its operand is resolved, it executes, the program counter moves past
/// it (unless the instruction set it), and the next operation is fetched; it runs after
/// its own cycles plus, when the operation just run can take extra cycles (a page
/// crossed, a branch taken), those extra cycles.
pub open spec fn execution_step(e: Execution, r: Regs, m: Memory) -> (Execution, Regs, Memory) {
    if e.cycles_left == 0 {
        let op = e.operation;
        let (m1, address, extra) = address_spec(op.inst.mode.kind, r, m, op.operand);
        let (r2, m2) = execute_spec(op.inst.op, r, m1, address);
        let r3 = if transfers_control(op.inst.op) {
            r2
        } else {
            Regs { PC: add16(r2.PC, op.inst.mode.size as int), ..r2 }
        };
        let (m3, next) = from_address_spec(m2, r3.PC);
        let cycles = next.inst.cycles + if op.inst.has_extra { extra } else { 0 };
        (
            Execution {
                cycles_left: (cycles - 1) as u32,
                operation: next,
                address,
                instructions: ((e.instructions + 1) % 0x1_0000_0000_0000_0000) as u64,
            },
            r3,
            m3,
        )
    } else {
        (Execution { cycles_left: (e.cycles_left - 1) as u32, ..e }, r, m)
    }
}

proof fn lemma_address_extra(kind: AddressingMode, r: Regs, m: Memory, operand: u16)
    ensures
        address_spec(kind, r, m, operand).2 <= 2,
{
    reveal(address_spec);
}

impl Execution {
    #[verifier::rlimit(40)]
    pub fn cycle(&mut self, memory: &mut Memory, regs: &mut Regs)
        requires
            old(memory).prg_ok(),
        ensures
            (*final(self), *final(regs), *final(memory)) == execution_step(
                *old(self),
                *old(regs),
                *old(memory),
            ),
            final(memory).prg_ok(),
            old(memory).wf() ==> final(memory).wf(),
            old(self).cycles_left <= 9 ==> final(self).cycles_left <= 9,
            old(self).cycles_left > 0 ==> final(self).cycles_left == old(self).cycles_left - 1
                && final(self).instructions == old(self).instructions && *final(memory)
                == *old(memory),
            old(self).cycles_left == 0 ==> final(self).instructions == ((old(self).instructions
                + 1) % 0x1_0000_0000_0000_0000) as u64,
    {
        if self.cycles_left == 0 {
            // Get address and extra cycles from mode
            let operand = self.operation.operand;
            let addressing = self.operation.inst.mode;
            let (address, extra) = regs.address(addressing.kind, memory, operand);
            proof {
                lemma_address_extra(addressing.kind, *old(regs), *old(memory), operand);
            }
            // Execute the instruction
            regs.execute(self.operation.inst.op, memory, address);
            // Advance the PC past the instruction, unless it set the PC
            if !sets_pc(self.operation.inst.op) {
                let pc = regs.PC.wrapping_add(addressing.size);
                assert(pc == add16(regs.PC, addressing.size as int));
                regs.PC = pc;
            }
            let has_extra = self.operation.inst.has_extra;
            // Get next operation
            self.operation = Operation::from_address(memory, regs.PC);
            self.cycles_left = self.operation.inst.cycles;
            // Add the extra cycles of the instruction just run, if it can take them
            if has_extra {
                self.cycles_left = self.cycles_left + extra;
            }
            self.address = address;
            self.instructions = self.instructions.wrapping_add(1);
        }
        self.cycles_left = self.cycles_left - 1;
    }
}

/// The CPU: registers, the instruction in flight and the sprite DMA unit.
pub struct Cpu {
    /// Cycle count since power up
    pub cycles: u64,
    pub regs: Regs,
    pub execution: Execution,
    pub dma: DMA,
}

pub open spec fn cpu_default() -> Cpu {
    Cpu {
        cycles: 0,
        regs: Regs { A: 0, X: 0, Y: 0, P: 0x24, SP: 0xFD, PC: 0 },
        execution: Execution { cycles_left: 0, operation: nop_operation(), address: 0, instructions: 0 },
        dma: DMA { cycles_left: 0, address: 0, value: 0 },
    }
}

impl Default for Cpu {
    fn default() -> (r: Cpu)
        ensures
            r == cpu_default(),
    {
        Cpu { cycles: 0, regs: Regs::default(), execution: Execution::default(), dma: DMA::default() }
    }
}

/// One CPU cycle: a DMA transfer in progress, or one that is starting, holds the CPU;
/// otherwise instruction execution advances.
/// Cycles before the instruction in flight can run: those of a DMA transfer in progress
/// or requested, and those left to the instruction.
pub open spec fn pending_cycles(c: Cpu, m: Memory) -> int {
    c.dma.cycles_left + (if m.oamdma is Some {
        600int
    } else {
        0
    }) + c.execution.cycles_left
}

/// The CPU and memory after a reset: the reset vector is read (its value is not used),
/// the registers take their power-up values with the program counter at 0xC000, and
/// the instruction there is fetched, to run on the last of its cycles.
pub open spec fn cpu_reset(m: Memory) -> (Cpu, Memory) {
    let (m1, low) = m.loaded(ADDRESS_RESET);
    let (m2, high) = m1.loaded(next_address(ADDRESS_RESET));
    let (m3, op) = from_address_spec(m2, 0xC000);
    (
        Cpu {
            regs: Regs { PC: 0xC000, ..cpu_default().regs },
            execution: Execution {
                cycles_left: (op.inst.cycles - 1) as u32,
                operation: op,
                address: 0,
                instructions: 0,
            },
            ..cpu_default()
        },
        m3,
    )
}

pub open spec fn cpu_step(c: Cpu, m: Memory) -> (Cpu, Memory) {
    let (d, m1, active) = dma_step(c.dma, m, c.cycles);
    if active {
        (Cpu { dma: d, cycles: (c.cycles + 1) as u64, ..c }, m1)
    } else {
        let (e, r, m2) = execution_step(c.execution, c.regs, m1);
        (Cpu { execution: e, regs: r, dma: d, cycles: (c.cycles + 1) as u64 }, m2)
    }
}

impl Cpu {
    pub open spec fn wf(&self) -> bool {
        self.dma.cycles_left <= 513 && self.execution.cycles_left <= 9
    }

    pub fn reset(&mut self, memory: &mut Memory)
        requires
            old(memory).prg_ok(),
        ensures
            (*final(self), *final(memory)) == cpu_reset(*old(memory)),
            final(self).wf(),
            final(memory).prg_ok(),
            old(memory).wf() ==> final(memory).wf(),
    {
        *self = Cpu::default();
        self.regs.reset(memory);
        // The instruction at the start address is fetched and runs on its last cycle.
        let operation = Operation::from_address(memory, self.regs.PC);
        self.execution = Execution {
            cycles_left: operation.inst.cycles - 1,
            operation: operation,
            address: 0,
            instructions: 0,
        };
    }

    pub fn cycle(&mut self, memory: &mut Memory)
        requires
            old(memory).prg_ok(),
            old(self).cycles < u64::MAX,
        ensures
            (*final(self), *final(memory)) == cpu_step(*old(self), *old(memory)),
            final(memory).prg_ok(),
            old(memory).wf() ==> final(memory).wf(),
            old(self).wf() ==> final(self).wf(),
            final(self).cycles == old(self).cycles + 1,
            // Each cycle either runs the instruction in flight or brings it closer.
            final(self).execution.instructions == old(self).execution.instructions
                || final(self).execution.instructions == ((old(self).execution.instructions + 1)
                % 0x1_0000_0000_0000_0000) as u64,
            final(self).execution.instructions == old(self).execution.instructions ==> pending_cycles(
                *final(self),
                *final(memory),
            ) < pending_cycles(*old(self), *old(memory)),
    {
        // Dma takes priority
        if !self.dma.cycle(memory, self.cycles) {
            self.execution.cycle(memory, &mut self.regs);
        }
        self.cycles = self.cycles + 1;
    }

    pub fn registers(&self) -> (r: Regs)
        ensures
            r == self.regs,
    {
        self.regs
    }

    pub fn cycle_count(&self) -> (r: u64)
        ensures
            r == self.cycles,
    {
        self.cycles
    }

    pub fn instruction_count(&self) -> (r: u64)
        ensures
            r == self.execution.instructions,
    {
        self.execution.instructions
    }

    pub fn execution(&self) -> (r: &Execution)
        ensures
            *r == self.execution,
    {
        &self.execution
    }
}


// ----------------------------------------------------------------------------
// Laws of the instruction set
// ----------------------------------------------------------------------------

/// Setting or clearing one of the carry, zero and sign flags leaves the other two as
/// they were.
proof fn lemma_flag_bits(p: u8)
    by (bit_vector)
    ensures
        (p | 0x01u8) & 0x01u8 != 0,
        (p & !0x01u8) & 0x01u8 == 0,
        (p | 0x02u8) & 0x02u8 != 0,
        (p & !0x02u8) & 0x02u8 == 0,
        (p | 0x80u8) & 0x80u8 != 0,
        (p & !0x80u8) & 0x80u8 == 0,
        (p | 0x01u8) & 0x02u8 == p & 0x02u8,
        (p & !0x01u8) & 0x02u8 == p & 0x02u8,
        (p | 0x01u8) & 0x80u8 == p & 0x80u8,
        (p & !0x01u8) & 0x80u8 == p & 0x80u8,
        (p | 0x02u8) & 0x01u8 == p & 0x01u8,
        (p & !0x02u8) & 0x01u8 == p & 0x01u8,
        (p | 0x02u8) & 0x80u8 == p & 0x80u8,
        (p & !0x02u8) & 0x80u8 == p & 0x80u8,
        (p | 0x80u8) & 0x01u8 == p & 0x01u8,
        (p & !0x80u8) & 0x01u8 == p & 0x01u8,
        (p | 0x80u8) & 0x02u8 == p & 0x02u8,
        (p & !0x80u8) & 0x02u8 == p & 0x02u8,
{
}

/// The carry, zero and sign flags after an operation that sets them from a result
/// and a carry out.
pub proof fn lemma_nzc_flags(p: u8, v: u8, carry: bool)
    ensures
        flag_set(with_nzc(p, v, carry), FLAG_CARRY) == carry,
        flag_set(with_nzc(p, v, carry), FLAG_ZERO) == (v == 0),
        flag_set(with_nzc(p, v, carry), FLAG_SIGN) == (v >= 0x80),
{
    let p1 = with_flag(p, FLAG_SIGN, v >= 0x80);
    let p2 = with_flag(p1, FLAG_ZERO, v == 0);
    lemma_flag_bits(p);
    lemma_flag_bits(p1);
    lemma_flag_bits(p2);
}

/// Comparing sets the carry exactly when the register is not below the operand, the
/// zero flag exactly when they are equal, and the sign flag from bit 7 of their
/// difference.
pub proof fn lemma_compare_flags(p: u8, reg: u8, value: u8)
    ensures
        flag_set(compare_spec(p, reg, value), FLAG_CARRY) == (reg >= value),
        flag_set(compare_spec(p, reg, value), FLAG_ZERO) == (reg == value),
        flag_set(compare_spec(p, reg, value), FLAG_SIGN) == ((reg - value + 0x100) % 0x100 >= 0x80),
{
    lemma_nzc_flags(p, ((reg - value + 0x100) % 0x100) as u8, reg >= value);
}

/// Addition with carry is exact on nine bits: the new accumulator plus 256 times the
/// carry out is the old accumulator plus the operand plus the carry in.
pub proof fn lemma_adc_sum(a: u8, p: u8, m: u8)
    ensures
        adc_spec(a, p, m).0 + 0x100 * carry_in(adc_spec(a, p, m).1) == a + m + carry_in(p),
{
    let sum = a + m + carry_in(p);
    let signed = signed8(a) + signed8(m) + carry_in(p);
    let p1 = with_flag(p, FLAG_OVERFLOW, signed < -128 || signed > 127);
    let p2 = with_flag(p1, FLAG_CARRY, sum > 0xFF);
    let result = (sum % 0x100) as u8;
    lemma_flag_bits(p2);
    lemma_flag_bits(with_flag(p2, FLAG_SIGN, result >= 0x80));
    assert(p2 == with_flag(p1, FLAG_CARRY, sum > 0xFF));
    lemma_flag_bits(p1);
}

/// SBC subtracts the operand and the borrow (the clear carry) from the accumulator,
/// modulo 256, and leaves the carry set exactly when no borrow was needed.
#[verifier::rlimit(60)]
pub proof fn lemma_sbc_subtracts(r: Regs, m: Memory, address: u16)
    ensures
        ({
            let v = m.loaded(address).1;
            let r1 = execute_spec(Mnemonic::Sbc, r, m, address).0;
            &&& r1.A == (r.A - v - (1 - carry_in(r.P)) + 0x200) % 0x100
            &&& flag_set(r1.P, FLAG_CARRY) == (r.A + carry_in(r.P) >= v + 1)
        }),
{
    let v = m.loaded(address).1;
    let (a, p) = adc_spec(r.A, r.P, (0xFF - v) as u8);
    assert(execute_spec(Mnemonic::Sbc, r, m, address).0 == Regs { A: a, P: p, ..r }) by {
        reveal(execute_spec);
    }
    lemma_adc_sum(r.A, r.P, (0xFF - v) as u8);
}

/// RTS undoes JSR: after a call and a return, with nothing pushed or popped between,
/// the program counter is just past the three-byte JSR and the other registers are as
/// before the call.
#[verifier::rlimit(60)]
pub proof fn lemma_jsr_rts(r: Regs, m: Memory, target: u16, address: u16)
    ensures
        ({
            let (r1, m1) = execute_spec(Mnemonic::Jsr, r, m, target);
            let (r2, m2) = execute_spec(Mnemonic::Rts, r1, m1, address);
            r1.PC == target && r2 == (Regs { PC: add16(r.PC, 3), ..r })
        }),
{
    let (rp, mp) = push_word_spec(r, m, add16(r.PC, 2));
    let r1 = Regs { PC: target, ..rp };
    assert(execute_spec(Mnemonic::Jsr, r, m, target) == (r1, mp)) by {
        reveal(execute_spec);
    }
    let (rq, mq, pc) = pop_word_spec(r1, mp);
    assert(execute_spec(Mnemonic::Rts, r1, mp, address) == (Regs { PC: add16(pc, 1), ..rq }, mq))
        by {
        reveal(execute_spec);
    }
    lemma_push_pop_word(r, m, add16(r.PC, 2));
    lemma_push_pop_word(Regs { PC: target, ..r }, m, add16(r.PC, 2));
}

/// The (zp,X) mode stays in page zero: the pointer is the operand plus X modulo 0x100,
/// and its high byte is read at the next zero-page address, wrapping from 0xFF to 0x00.
pub proof fn lemma_indexed_indirect(r: Regs, m: Memory, operand: u16)
    ensures
        ({
            let pointer = ((operand % 0x100 + r.X) % 0x100) as u16;
            let (m1, low) = m.loaded(pointer);
            let (m2, high) = m1.loaded(((pointer + 1) % 0x100) as u16);
            address_spec(AddressingMode::Idx, r, m, operand) == (m2, word(low, high), 0u32)
        }),
{
    reveal(address_spec);
}

/// Jumps and branches go to the address that their addressing mode resolves.
pub open spec fn jumps_to_address(op: Mnemonic) -> bool {
    match op {
        Mnemonic::Jmp | Mnemonic::Bpl | Mnemonic::Bmi | Mnemonic::Bvc | Mnemonic::Bvs
        | Mnemonic::Bcc | Mnemonic::Bcs | Mnemonic::Bne | Mnemonic::Beq => true,
        _ => false,
    }
}

/// An instruction that does not transfer control leaves the program counter alone.
#[verifier::rlimit(60)]
proof fn lemma_execute_keeps_pc(op: Mnemonic, r: Regs, m: Memory, address: u16)
    requires
        !transfers_control(op),
    ensures
        execute_spec(op, r, m, address).0.PC == r.PC,
{
    reveal(execute_spec);
}

/// Where the program counter goes when the operation in flight runs: past the
/// instruction, by its size, unless the instruction sets the counter itself; a jump or
/// a branch goes to the address that its mode resolves, which for an absolute jump is
/// its operand, and for a branch the next instruction when not taken, its target when
/// taken.
pub proof fn lemma_program_counter(e: Execution, r: Regs, m: Memory)
    requires
        e.cycles_left == 0,
    ensures
        ({
            let op = e.operation;
            let pc = execution_step(e, r, m).1.PC;
            let address = address_spec(op.inst.mode.kind, r, m, op.operand).1;
            &&& !transfers_control(op.inst.op) ==> pc == add16(r.PC, op.inst.mode.size as int)
            &&& jumps_to_address(op.inst.op) ==> pc == address
            &&& op.inst.mode.kind == AddressingMode::Abs ==> address == op.operand
            &&& op.inst.mode.kind == AddressingMode::Rel ==> address == relative_spec(
                r,
                m,
                op.operand,
            ).1
        }),
{
    let op = e.operation;
    let (m1, address, extra) = address_spec(op.inst.mode.kind, r, m, op.operand);
    if !transfers_control(op.inst.op) {
        lemma_execute_keeps_pc(op.inst.op, r, m1, address);
    }
    if jumps_to_address(op.inst.op) {
        assert(execute_spec(op.inst.op, r, m1, address).0.PC == address) by {
            reveal(execute_spec);
        }
    }
    reveal(address_spec);
}

/// Execution over `k` cycles.
pub open spec fn execution_run(e: Execution, r: Regs, m: Memory, k: nat) -> (Execution, Regs, Memory)
    decreases k,
{
    if k == 0 {
        (e, r, m)
    } else {
        let (e1, r1, m1) = execution_run(e, r, m, (k - 1) as nat);
        execution_step(e1, r1, m1)
    }
}

/// Instruction timing: when an operation runs, the operation fetched after it runs
/// exactly its own cycle count later, plus the extra cycles of the operation just run
/// (page crossed, branch taken) when that operation can take them; the cycles between
/// change neither the registers nor memory.
pub proof fn lemma_instruction_timing(e: Execution, r: Regs, m: Memory, j: nat)
    requires
        e.cycles_left == 0,
    ensures
        ({
            let op = e.operation;
            let extra = address_spec(op.inst.mode.kind, r, m, op.operand).2;
            let (e1, r1, m1) = execution_step(e, r, m);
            let wait = e1.operation.inst.cycles + if op.inst.has_extra { extra } else { 0 };
            &&& e1.cycles_left + 1 == wait
            &&& j <= e1.cycles_left ==> execution_run(e1, r1, m1, j) == (
                Execution { cycles_left: (e1.cycles_left - j) as u32, ..e1 },
                r1,
                m1,
            )
        }),
    decreases j,
{
    let op = e.operation;
    let (m1, address, extra) = address_spec(op.inst.mode.kind, r, m, op.operand);
    lemma_address_extra(op.inst.mode.kind, r, m, op.operand);
    let (r2, m2) = execute_spec(op.inst.op, r, m1, address);
    let r3 = if transfers_control(op.inst.op) {
        r2
    } else {
        Regs { PC: add16(r2.PC, op.inst.mode.size as int), ..r2 }
    };
    lemma_fetched_cycles(m2, r3.PC);
    if j > 0 {
        lemma_instruction_timing(e, r, m, (j - 1) as nat);
    }
}

/// Every fetched operation takes two to eight cycles.
proof fn lemma_fetched_cycles(m: Memory, address: u16)
    ensures
        2 <= from_address_spec(m, address).1.inst.cycles <= 8,
{
    let opcode = m.loaded(address).1;
    lemma_instruction_cycles(opcode);
}

/// A rotation left undone by a rotation right gives back the byte and the carry.
pub proof fn lemma_rotate_left_right(p: u8, v: u8)
    ensures
        ({
            let (r1, p1) = rotate_left_spec(p, v);
            let (r2, p2) = rotate_right_spec(p1, r1);
            r2 == v && flag_set(p2, FLAG_CARRY) == flag_set(p, FLAG_CARRY)
        }),
{
    let (r1, p1) = rotate_left_spec(p, v);
    lemma_nzc_flags(p, r1, v >= 0x80);
    lemma_nzc_flags(p1, rotate_right_spec(p1, r1).0, r1 % 2 == 1);
}

/// A rotation right undone by a rotation left gives back the byte and the carry.
pub proof fn lemma_rotate_right_left(p: u8, v: u8)
    ensures
        ({
            let (r1, p1) = rotate_right_spec(p, v);
            let (r2, p2) = rotate_left_spec(p1, r1);
            r2 == v && flag_set(p2, FLAG_CARRY) == flag_set(p, FLAG_CARRY)
        }),
{
    let (r1, p1) = rotate_right_spec(p, v);
    lemma_nzc_flags(p, r1, v % 2 == 1);
    lemma_nzc_flags(p1, rotate_left_spec(p1, r1).0, r1 >= 0x80);
}

/// A byte pushed on the stack is the byte popped next, and the stack pointer comes
/// back to where it was.
pub proof fn lemma_push_pop(r: Regs, m: Memory, byte: u8)
    ensures
        ({
            let (r1, m1) = push_spec(r, m, byte);
            let (r2, m2, v) = pop_spec(r1, m1);
            v == byte && r2 == r
        }),
{
    let (r1, m1) = push_spec(r, m, byte);
    assert(inc8(dec8(r.SP)) == r.SP);
    lemma_ram_read_after_write(m, stack_address(r.SP), byte, stack_address(r.SP));
}

/// A word pushed on the stack is the word popped next, and the stack pointer comes
/// back to where it was.
pub proof fn lemma_push_pop_word(r: Regs, m: Memory, w: u16)
    ensures
        ({
            let (r1, m1) = push_word_spec(r, m, w);
            let (r2, m2, v) = pop_word_spec(r1, m1);
            v == w && r2 == r
        }),
{
    let high = (w / 0x100) as u8;
    let low = (w % 0x100) as u8;
    let (ra, ma) = push_spec(r, m, high);
    let (rb, mb) = push_spec(ra, ma, low);
    let sp_high = stack_address(r.SP);
    let sp_low = stack_address(dec8(r.SP));
    assert(inc8(dec8(r.SP)) == r.SP);
    assert(inc8(dec8(dec8(r.SP))) == dec8(r.SP));
    // The low byte is read back first, and the read leaves RAM as it was.
    lemma_ram_read_after_write(ma, sp_low, low, sp_low);
    lemma_ram_read_keeps_state(mb, sp_low);
    let (mc, vlow) = mb.loaded(sp_low);
    // The high byte was written before the low one, at another RAM offset.
    lemma_ram_read_after_write(ma, sp_low, low, sp_high);
    lemma_ram_read_keeps_state(mc, sp_high);
    lemma_ram_read_keeps_state(mb, sp_high);
    lemma_ram_read_after_write(m, sp_high, high, sp_high);
    lemma_ram_read_keeps_state(ma, sp_high);
}

} // verus!
