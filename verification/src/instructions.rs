use vstd::prelude::*;

use crate::cpu::{
    Regs, execute_spec, with_nz, with_nzc, with_flag, relative_spec, add16, signed8, branch_taken,
    adc_spec, carry_in, compare_spec, address_spec, push_spec, push_word_spec, pop_spec,
    pop_word_spec, pushed_flags, pulled_flags, with_p,
};
use crate::loadstore::load_word_spec;
use crate::opcodes::{AddressingMode, instruction_spec};
use crate::loadstore::LoadStore;
use crate::mem::Memory;
use crate::opcodes::Mnemonic;

verus! {

// What each instruction does, stated over the bits of the registers, the operand byte
// read at the effective address, and the memory after the instruction. The status
// register holds C (bit 0), Z (bit 1), I (bit 2), D (bit 3), V (bit 6) and N (bit 7).

/// `q` is the status `p` with N and Z set from the value `v` (N is bit 7 of `v`, Z
/// tells whether `v` is zero), and the other flags kept.
pub open spec fn nz_from(p: u8, q: u8, v: u8) -> bool {
    &&& (q & 0x80 != 0) == (v & 0x80 != 0)
    &&& (q & 0x02 != 0) == (v == 0)
    &&& q & 0x7D == p & 0x7D
}

/// `q` is the status `p` with N and Z set from `v`, C from `carry`, and the other flags
/// kept.
pub open spec fn nzc_from(p: u8, q: u8, v: u8, carry: bool) -> bool {
    &&& (q & 0x80 != 0) == (v & 0x80 != 0)
    &&& (q & 0x02 != 0) == (v == 0)
    &&& (q & 0x01 != 0) == carry
    &&& q & 0x7C == p & 0x7C
}

/// `b` has the registers of `a` but for the accumulator and the status.
pub open spec fn keeps_xy_sp_pc(a: Regs, b: Regs) -> bool {
    b.X == a.X && b.Y == a.Y && b.SP == a.SP && b.PC == a.PC
}

proof fn lemma_nz_bits(p: u8, v: u8)
    ensures
        nz_from(p, with_nz(p, v), v),
{
    assert(nz_from(p, with_nz(p, v), v)) by (bit_vector);
}

proof fn lemma_nzc_bits(p: u8, v: u8, carry: bool)
    ensures
        nzc_from(p, with_nzc(p, v, carry), v, carry),
{
    assert(nzc_from(p, with_nzc(p, v, carry), v, carry)) by (bit_vector);
}

/// AND, ORA and EOR: the accumulator becomes the bitwise AND, OR or exclusive OR of
/// itself and the operand byte; N and Z come from the result; nothing else changes but
/// what the read of the operand changes.
pub proof fn lemma_logic_instructions(r: Regs, m: Memory, address: u16)
    ensures
        ({
            let (ml, v) = m.loaded(address);
            let (ra, ma) = execute_spec(Mnemonic::And, r, m, address);
            let (ro, mo) = execute_spec(Mnemonic::Ora, r, m, address);
            let (re, me) = execute_spec(Mnemonic::Eor, r, m, address);
            &&& ra.A == r.A & v && nz_from(r.P, ra.P, ra.A) && keeps_xy_sp_pc(r, ra) && ma == ml
            &&& ro.A == r.A | v && nz_from(r.P, ro.P, ro.A) && keeps_xy_sp_pc(r, ro) && mo == ml
            &&& re.A == r.A ^ v && nz_from(r.P, re.P, re.A) && keeps_xy_sp_pc(r, re) && me == ml
        }),
{
    reveal(execute_spec);
    let v = m.loaded(address).1;
    lemma_nz_bits(r.P, r.A & v);
    lemma_nz_bits(r.P, r.A | v);
    lemma_nz_bits(r.P, r.A ^ v);
}


/// LDA, LDX and LDY load the operand byte into their register and set N and Z from it;
/// STA, STX and STY write their register at the effective address and change no
/// register.
pub proof fn lemma_load_store_instructions(r: Regs, m: Memory, address: u16)
    ensures
        ({
            let (ml, v) = m.loaded(address);
            let (ra, ma) = execute_spec(Mnemonic::Lda, r, m, address);
            let (rx, mx) = execute_spec(Mnemonic::Ldx, r, m, address);
            let (ry, my) = execute_spec(Mnemonic::Ldy, r, m, address);
            &&& ra == (Regs { A: v, P: ra.P, ..r }) && nz_from(r.P, ra.P, v) && ma == ml
            &&& rx == (Regs { X: v, P: rx.P, ..r }) && nz_from(r.P, rx.P, v) && mx == ml
            &&& ry == (Regs { Y: v, P: ry.P, ..r }) && nz_from(r.P, ry.P, v) && my == ml
            &&& execute_spec(Mnemonic::Sta, r, m, address) == (r, m.stored(address, r.A))
            &&& execute_spec(Mnemonic::Stx, r, m, address) == (r, m.stored(address, r.X))
            &&& execute_spec(Mnemonic::Sty, r, m, address) == (r, m.stored(address, r.Y))
        }),
{
    reveal(execute_spec);
    lemma_nz_bits(r.P, m.loaded(address).1);
}

/// The transfers copy one register into another and set N and Z from the value copied,
/// but TXS, which sets the stack pointer and no flag; none touches memory.
pub proof fn lemma_transfer_instructions(r: Regs, m: Memory, address: u16)
    ensures
        ({
            let (t1, m1) = execute_spec(Mnemonic::Tax, r, m, address);
            let (t2, m2) = execute_spec(Mnemonic::Tay, r, m, address);
            let (t3, m3) = execute_spec(Mnemonic::Txa, r, m, address);
            let (t4, m4) = execute_spec(Mnemonic::Tya, r, m, address);
            let (t5, m5) = execute_spec(Mnemonic::Tsx, r, m, address);
            &&& t1 == (Regs { X: r.A, P: t1.P, ..r }) && nz_from(r.P, t1.P, r.A) && m1 == m
            &&& t2 == (Regs { Y: r.A, P: t2.P, ..r }) && nz_from(r.P, t2.P, r.A) && m2 == m
            &&& t3 == (Regs { A: r.X, P: t3.P, ..r }) && nz_from(r.P, t3.P, r.X) && m3 == m
            &&& t4 == (Regs { A: r.Y, P: t4.P, ..r }) && nz_from(r.P, t4.P, r.Y) && m4 == m
            &&& t5 == (Regs { X: r.SP, P: t5.P, ..r }) && nz_from(r.P, t5.P, r.SP) && m5 == m
            &&& execute_spec(Mnemonic::Txs, r, m, address) == (Regs { SP: r.X, ..r }, m)
            &&& execute_spec(Mnemonic::Nop, r, m, address) == (r, m)
        }),
{
    reveal(execute_spec);
    lemma_nz_bits(r.P, r.A);
    lemma_nz_bits(r.P, r.X);
    lemma_nz_bits(r.P, r.Y);
    lemma_nz_bits(r.P, r.SP);
}

/// INX, INY, DEX and DEY add or subtract one, wrapping at 0x100, and set N and Z from
/// the result; INC and DEC do the same to the byte at the effective address and write it
/// back.
pub proof fn lemma_increment_instructions(r: Regs, m: Memory, address: u16)
    ensures
        ({
            let (ml, v) = m.loaded(address);
            let (r1, m1) = execute_spec(Mnemonic::Inx, r, m, address);
            let (r2, m2) = execute_spec(Mnemonic::Iny, r, m, address);
            let (r3, m3) = execute_spec(Mnemonic::Dex, r, m, address);
            let (r4, m4) = execute_spec(Mnemonic::Dey, r, m, address);
            let (r5, m5) = execute_spec(Mnemonic::Inc, r, m, address);
            let (r6, m6) = execute_spec(Mnemonic::Dec, r, m, address);
            let up = ((v + 1) % 0x100) as u8;
            let down = ((v + 0xFF) % 0x100) as u8;
            &&& r1.X == (r.X + 1) % 0x100 && r1 == (Regs { X: r1.X, P: r1.P, ..r }) && nz_from(r.P, r1.P, r1.X) && m1 == m
            &&& r2.Y == (r.Y + 1) % 0x100 && r2 == (Regs { Y: r2.Y, P: r2.P, ..r }) && nz_from(r.P, r2.P, r2.Y) && m2 == m
            &&& r3.X == (r.X + 0xFF) % 0x100 && r3 == (Regs { X: r3.X, P: r3.P, ..r }) && nz_from(r.P, r3.P, r3.X) && m3 == m
            &&& r4.Y == (r.Y + 0xFF) % 0x100 && r4 == (Regs { Y: r4.Y, P: r4.P, ..r }) && nz_from(r.P, r4.P, r4.Y) && m4 == m
            &&& r5 == (Regs { P: r5.P, ..r }) && nz_from(r.P, r5.P, up) && m5 == ml.stored(address, up)
            &&& r6 == (Regs { P: r6.P, ..r }) && nz_from(r.P, r6.P, down) && m6 == ml.stored(address, down)
        }),
{
    reveal(execute_spec);
    let v = m.loaded(address).1;
    lemma_nz_bits(r.P, ((r.X + 1) % 0x100) as u8);
    lemma_nz_bits(r.P, ((r.Y + 1) % 0x100) as u8);
    lemma_nz_bits(r.P, ((r.X + 0xFF) % 0x100) as u8);
    lemma_nz_bits(r.P, ((r.Y + 0xFF) % 0x100) as u8);
    lemma_nz_bits(r.P, ((v + 1) % 0x100) as u8);
    lemma_nz_bits(r.P, ((v + 0xFF) % 0x100) as u8);
}


/// The carry flag of `p` as a number.
pub open spec fn carry_of(p: u8) -> int {
    if p & 1 != 0 {
        1
    } else {
        0
    }
}

/// Adding `m` and the carry to `a`: the result is the sum modulo 0x100; C tells whether
/// the sum exceeds 0xFF, V whether both operands have the same sign and the result the
/// other one; N and Z come from the result; I and D are kept.
pub open spec fn adds_with_carry(a: u8, p: u8, m: u8, res: u8, q: u8) -> bool {
    let sum = a + m + carry_of(p);
    &&& res == sum % 0x100
    &&& (q & 0x01 != 0) == (sum > 0xFF)
    &&& (q & 0x40 != 0) == ((a ^ res) & (m ^ res) & 0x80 != 0)
    &&& (q & 0x80 != 0) == (res & 0x80 != 0)
    &&& (q & 0x02 != 0) == (res == 0)
    &&& q & 0x3C == p & 0x3C
}

proof fn lemma_adc_bits(a: u8, p: u8, m: u8)
    ensures
        adds_with_carry(a, p, m, adc_spec(a, p, m).0, adc_spec(a, p, m).1),
{
    let c: u8 = if p & 1 != 0 { 1 } else { 0 };
    assert(carry_in(p) == c);
    assert(carry_of(p) == c);
    let res = ((a + m + c) % 0x100) as u8;
    let ovf = signed8(a) + signed8(m) + c < -128 || signed8(a) + signed8(m) + c > 127;
    let same = (a < 0x80 && m < 0x80 && a + m + c >= 0x80) || (a >= 0x80 && m >= 0x80 && a + m + c
        < 0x180);
    assert(ovf == same);
    assert(same == ((a ^ res) & (m ^ res) & 0x80 != 0)) by (bit_vector)
        requires
            c <= 1,
            res == ((a + m + c) % 0x100) as u8,
            same == ((a < 0x80 && m < 0x80 && a + m + c >= 0x80) || (a >= 0x80 && m >= 0x80 && a
                + m + c < 0x180)),
    ;
    let carry = a + m + c > 0xFF;
    let q = with_nz(with_flag(with_flag(p, 0x40, ovf), 0x01, carry), res);
    assert((q & 0x01 != 0) == carry && (q & 0x40 != 0) == ovf && (q & 0x80 != 0) == (res & 0x80 != 0)
        && (q & 0x02 != 0) == (res == 0) && q & 0x3C == p & 0x3C) by (bit_vector)
        requires
            q == with_nz(with_flag(with_flag(p, 0x40, ovf), 0x01, carry), res),
    ;
}

/// ADC adds the operand byte and the carry to the accumulator (see `adds_with_carry`);
/// SBC subtracts the operand byte and the borrow (the clear carry): it adds the
/// operand's complement, so C is set exactly when no borrow was needed, and V when the
/// operands have different signs and the result the sign of the operand.
pub proof fn lemma_add_subtract_instructions(r: Regs, m: Memory, address: u16)
    ensures
        ({
            let (ml, v) = m.loaded(address);
            let (ra, ma) = execute_spec(Mnemonic::Adc, r, m, address);
            let (rs, ms) = execute_spec(Mnemonic::Sbc, r, m, address);
            let diff = r.A - v - (1 - carry_of(r.P));
            &&& adds_with_carry(r.A, r.P, v, ra.A, ra.P) && keeps_xy_sp_pc(r, ra) && ma == ml
            &&& rs.A == (diff + 0x100) % 0x100
            &&& (rs.P & 0x01 != 0) == (diff >= 0)
            &&& (rs.P & 0x40 != 0) == ((r.A ^ v) & (r.A ^ rs.A) & 0x80 != 0)
            &&& (rs.P & 0x80 != 0) == (rs.A & 0x80 != 0)
            &&& (rs.P & 0x02 != 0) == (rs.A == 0)
            &&& rs.P & 0x3C == r.P & 0x3C
            &&& keeps_xy_sp_pc(r, rs) && ms == ml
        }),
{
    reveal(execute_spec);
    let v = m.loaded(address).1;
    lemma_adc_bits(r.A, r.P, v);
    let w = (0xFF - v) as u8;
    lemma_adc_bits(r.A, r.P, w);
    let res = adc_spec(r.A, r.P, w).0;
    let a = r.A;
    assert((a ^ res) & (w ^ res) & 0x80 == (a ^ v) & (a ^ res) & 0x80) by (bit_vector)
        requires
            w == 0xFF - v,
    ;
}

/// CMP, CPX and CPY compare a register with the operand byte: C tells whether the
/// register is at least the byte, Z whether they are equal, N is bit 7 of their
/// difference modulo 0x100; no register but the status changes. BIT sets Z when the
/// accumulator and the byte have no bit in common, and copies bits 7 and 6 of the byte
/// into N and V.
pub proof fn lemma_compare_instructions(r: Regs, m: Memory, address: u16)
    ensures
        ({
            let (ml, v) = m.loaded(address);
            let (ra, ma) = execute_spec(Mnemonic::Cmp, r, m, address);
            let (rx, mx) = execute_spec(Mnemonic::Cpx, r, m, address);
            let (ry, my) = execute_spec(Mnemonic::Cpy, r, m, address);
            let (rb, mb) = execute_spec(Mnemonic::Bit, r, m, address);
            &&& ra == (Regs { P: ra.P, ..r }) && ma == ml
            &&& nzc_from(r.P, ra.P, ((r.A - v + 0x100) % 0x100) as u8, r.A >= v)
            &&& rx == (Regs { P: rx.P, ..r }) && mx == ml
            &&& nzc_from(r.P, rx.P, ((r.X - v + 0x100) % 0x100) as u8, r.X >= v)
            &&& ry == (Regs { P: ry.P, ..r }) && my == ml
            &&& nzc_from(r.P, ry.P, ((r.Y - v + 0x100) % 0x100) as u8, r.Y >= v)
            &&& rb == (Regs { P: rb.P, ..r }) && mb == ml
            &&& (rb.P & 0x02 != 0) == (r.A & v == 0)
            &&& (rb.P & 0x80 != 0) == (v & 0x80 != 0)
            &&& (rb.P & 0x40 != 0) == (v & 0x40 != 0)
            &&& rb.P & 0x3D == r.P & 0x3D
        }),
{
    reveal(execute_spec);
    let v = m.loaded(address).1;
    lemma_nzc_bits(r.P, ((r.A - v + 0x100) % 0x100) as u8, r.A >= v);
    lemma_nzc_bits(r.P, ((r.X - v + 0x100) % 0x100) as u8, r.X >= v);
    lemma_nzc_bits(r.P, ((r.Y - v + 0x100) % 0x100) as u8, r.Y >= v);
    let p = r.P;
    let a = r.A;
    let q = with_flag(with_flag(with_flag(p, 0x40, v & 0x40 != 0), 0x80, v >= 0x80), 0x02, a & v == 0);
    assert((q & 0x02 != 0) == (a & v == 0) && (q & 0x80 != 0) == (v & 0x80 != 0) && (q & 0x40 != 0)
        == (v & 0x40 != 0) && q & 0x3D == p & 0x3D) by (bit_vector)
        requires
            q == with_flag(with_flag(with_flag(p, 0x40, v & 0x40 != 0), 0x80, v >= 0x80), 0x02, a & v == 0),
    ;
}


proof fn lemma_byte_bits(v: u8)
    by (bit_vector)
    ensures
        (v >= 0x80) == (v & 0x80 != 0),
        (v % 2 == 1) == (v & 1 != 0),
        v & 1 == 0 || v & 1 == 1,
        v & !(0x20u8 | 0x10u8) == v & 0xCF,
        v | 0x20u8 | 0x10u8 == v | 0x30,
        v & !0x01u8 == v & 0xFE,
        v & !0x04u8 == v & 0xFB,
        v & !0x40u8 == v & 0xBF,
        v & !0x08u8 == v & 0xF7,
{
}

/// ASL and LSR shift the accumulator one bit left or right, a zero entering; ROL and ROR
/// rotate it through the carry, the old carry entering. The bit shifted out goes into
/// C, and N and Z come from the result.
pub proof fn lemma_accumulator_shifts(r: Regs, m: Memory, address: u16)
    ensures
        ({
            let (r1, m1) = execute_spec(Mnemonic::Sal, r, m, address);
            let (r2, m2) = execute_spec(Mnemonic::Sar, r, m, address);
            let (r3, m3) = execute_spec(Mnemonic::Ral, r, m, address);
            let (r4, m4) = execute_spec(Mnemonic::Rar, r, m, address);
            &&& r1.A == (r.A * 2) % 0x100 && nzc_from(r.P, r1.P, r1.A, r.A & 0x80 != 0)
            &&& r2.A == r.A / 2 && nzc_from(r.P, r2.P, r2.A, r.A & 1 != 0)
            &&& r3.A == (r.A * 2) % 0x100 + carry_of(r.P) && nzc_from(r.P, r3.P, r3.A, r.A & 0x80 != 0)
            &&& r4.A == r.A / 2 + 0x80 * carry_of(r.P) && nzc_from(r.P, r4.P, r4.A, r.A & 1 != 0)
            &&& keeps_xy_sp_pc(r, r1) && keeps_xy_sp_pc(r, r2) && keeps_xy_sp_pc(r, r3)
                && keeps_xy_sp_pc(r, r4)
            &&& m1 == m && m2 == m && m3 == m && m4 == m
        }),
{
    reveal(execute_spec);
    let a = r.A;
    let p = r.P;
    lemma_byte_bits(a);
    assert(carry_in(p) == carry_of(p));
    lemma_nzc_bits(p, ((a * 2) % 0x100) as u8, a >= 0x80);
    lemma_nzc_bits(p, (a / 2) as u8, a % 2 == 1);
    lemma_nzc_bits(p, ((a * 2) % 0x100 + carry_in(p)) as u8, a >= 0x80);
    lemma_nzc_bits(p, (a / 2 + carry_in(p) * 0x80) as u8, a % 2 == 1);
}

/// ASL, LSR, ROL and ROR on memory do the same to the byte at the effective address and
/// write the result back; only the status register changes.
pub proof fn lemma_memory_shifts(r: Regs, m: Memory, address: u16)
    ensures
        ({
            let (ml, v) = m.loaded(address);
            let (r1, m1) = execute_spec(Mnemonic::Asl, r, m, address);
            let (r2, m2) = execute_spec(Mnemonic::Lsr, r, m, address);
            let (r3, m3) = execute_spec(Mnemonic::Rol, r, m, address);
            let (r4, m4) = execute_spec(Mnemonic::Ror, r, m, address);
            let s1 = ((v * 2) % 0x100) as u8;
            let s2 = (v / 2) as u8;
            let s3 = ((v * 2) % 0x100 + carry_of(r.P)) as u8;
            let s4 = (v / 2 + 0x80 * carry_of(r.P)) as u8;
            &&& m1 == ml.stored(address, s1) && nzc_from(r.P, r1.P, s1, v & 0x80 != 0)
            &&& m2 == ml.stored(address, s2) && nzc_from(r.P, r2.P, s2, v & 1 != 0)
            &&& m3 == ml.stored(address, s3) && nzc_from(r.P, r3.P, s3, v & 0x80 != 0)
            &&& m4 == ml.stored(address, s4) && nzc_from(r.P, r4.P, s4, v & 1 != 0)
            &&& r1 == (Regs { P: r1.P, ..r }) && r2 == (Regs { P: r2.P, ..r })
            &&& r3 == (Regs { P: r3.P, ..r }) && r4 == (Regs { P: r4.P, ..r })
        }),
{
    reveal(execute_spec);
    let v = m.loaded(address).1;
    let p = r.P;
    lemma_byte_bits(v);
    assert(carry_in(p) == carry_of(p));
    lemma_nzc_bits(p, ((v * 2) % 0x100) as u8, v >= 0x80);
    lemma_nzc_bits(p, (v / 2) as u8, v % 2 == 1);
    lemma_nzc_bits(p, ((v * 2) % 0x100 + carry_in(p)) as u8, v >= 0x80);
    lemma_nzc_bits(p, (v / 2 + carry_in(p) * 0x80) as u8, v % 2 == 1);
}

/// CLC, SEC, CLI, SEI, CLV, CLD and SED clear or set one flag (C, I, V or D) and keep
/// the other bits of the status; no other register and no memory changes.
pub proof fn lemma_flag_instructions(r: Regs, m: Memory, address: u16)
    ensures
        ({
            let (c1, n1) = execute_spec(Mnemonic::Clc, r, m, address);
            let (c2, n2) = execute_spec(Mnemonic::Sec, r, m, address);
            let (c3, n3) = execute_spec(Mnemonic::Cli, r, m, address);
            let (c4, n4) = execute_spec(Mnemonic::Sei, r, m, address);
            let (c5, n5) = execute_spec(Mnemonic::Clv, r, m, address);
            let (c6, n6) = execute_spec(Mnemonic::Cld, r, m, address);
            let (c7, n7) = execute_spec(Mnemonic::Sed, r, m, address);
            &&& c1 == (Regs { P: r.P & 0xFE, ..r }) && n1 == m
            &&& c2 == (Regs { P: r.P | 0x01, ..r }) && n2 == m
            &&& c3 == (Regs { P: r.P & 0xFB, ..r }) && n3 == m
            &&& c4 == (Regs { P: r.P | 0x04, ..r }) && n4 == m
            &&& c5 == (Regs { P: r.P & 0xBF, ..r }) && n5 == m
            &&& c6 == (Regs { P: r.P & 0xF7, ..r }) && n6 == m
            &&& c7 == (Regs { P: r.P | 0x08, ..r }) && n7 == m
        }),
{
    reveal(execute_spec);
    lemma_byte_bits(r.P);
}


/// PHA and PHP write the accumulator, or the status with bits 4 and 5 set, at 0x100
/// plus the stack pointer, which then moves down (wrapping in page one); PLA and PLP move
/// the stack pointer up and load the byte there into the accumulator (N and Z set from
/// it) or into the status (bits 4 and 5 cleared).
pub proof fn lemma_stack_instructions(r: Regs, m: Memory, address: u16)
    ensures
        ({
            let down = ((r.SP + 0xFF) % 0x100) as u8;
            let up = ((r.SP + 1) % 0x100) as u8;
            let (mp, v) = m.loaded((0x100 + up) as u16);
            let (ra, ma) = execute_spec(Mnemonic::Pla, r, m, address);
            &&& execute_spec(Mnemonic::Pha, r, m, address) == (
                Regs { SP: down, ..r },
                m.stored((0x100 + r.SP) as u16, r.A),
            )
            &&& execute_spec(Mnemonic::Php, r, m, address) == (
                Regs { SP: down, ..r },
                m.stored((0x100 + r.SP) as u16, r.P | 0x30),
            )
            &&& ra == (Regs { A: v, SP: up, P: ra.P, ..r }) && nz_from(r.P, ra.P, v) && ma == mp
            &&& execute_spec(Mnemonic::Plp, r, m, address) == (Regs { P: v & 0xCF, SP: up, ..r }, mp)
        }),
{
    reveal(execute_spec);
    let up = ((r.SP + 1) % 0x100) as u8;
    let v = m.loaded((0x100 + up) as u16).1;
    lemma_nz_bits(r.P, v);
    lemma_byte_bits(v);
    lemma_byte_bits(r.P);
}

/// The condition of a branch opcode, over the status bits: BPL and BMI test N, BVC and
/// BVS test V, BCC and BCS test C, BNE and BEQ test Z; the first of each pair branches
/// when its flag is clear, the second when it is set.
pub open spec fn branch_condition(opcode: u8, p: u8) -> bool {
    if opcode == 0x10 {
        p & 0x80 == 0
    } else if opcode == 0x30 {
        p & 0x80 != 0
    } else if opcode == 0x50 {
        p & 0x40 == 0
    } else if opcode == 0x70 {
        p & 0x40 != 0
    } else if opcode == 0x90 {
        p & 0x01 == 0
    } else if opcode == 0xB0 {
        p & 0x01 != 0
    } else if opcode == 0xD0 {
        p & 0x02 == 0
    } else {
        p & 0x02 != 0
    }
}

/// Where a branch goes: the relative mode reads the branch opcode at the program
/// counter; when the branch's condition holds the address is the next instruction
/// (two bytes on) plus the signed offset in the operand's low byte, wrapping at 0x10000,
/// and costs one more cycle, two when it lands on another page; otherwise the address is
/// the next instruction and no cycle is added.
pub proof fn lemma_branches(r: Regs, m: Memory, operand: u16)
    requires
        ({
            let opcode = m.loaded(r.PC).1;
            opcode == 0x10 || opcode == 0x30 || opcode == 0x50 || opcode == 0x70 || opcode == 0x90
                || opcode == 0xB0 || opcode == 0xD0 || opcode == 0xF0
        }),
    ensures
        ({
            let opcode = m.loaded(r.PC).1;
            let next = (r.PC + 2) % 0x10000;
            let low = operand % 0x100;
            let offset: int = if low >= 0x80 { low - 0x100 } else { low as int };
            let target = (next + offset + 0x10000) % 0x10000;
            let (m1, address, extra) = relative_spec(r, m, operand);
            &&& m1 == m.loaded(r.PC).0
            &&& address == if branch_condition(opcode, r.P) { target } else { next }
            &&& extra == if !branch_condition(opcode, r.P) {
                0u32
            } else if target / 0x100 != next / 0x100 {
                2
            } else {
                1
            }
        }),
{
    let opcode = m.loaded(r.PC).1;
    assert(branch_taken(r.P, opcode) == branch_condition(opcode, r.P));
    let low = operand % 0x100;
    assert(signed8(low as u8) == if low >= 0x80 { low - 0x100 } else { low as int });
}


/// LAX loads the operand byte into A and X (N and Z from it); SAX writes A AND X at the
/// effective address; DCP decrements the byte, writes it back and compares A with it.
pub proof fn lemma_unofficial_load_store(r: Regs, m: Memory, address: u16)
    ensures
        ({
            let (ml, v) = m.loaded(address);
            let down = ((v + 0xFF) % 0x100) as u8;
            let (r1, m1) = execute_spec(Mnemonic::Lax, r, m, address);
            let (r2, m2) = execute_spec(Mnemonic::Dcp, r, m, address);
            &&& r1 == (Regs { A: v, X: v, P: r1.P, ..r }) && nz_from(r.P, r1.P, v) && m1 == ml
            &&& execute_spec(Mnemonic::Sax, r, m, address) == (r, m.stored(address, r.A & r.X))
            &&& r2 == (Regs { P: r2.P, ..r }) && m2 == ml.stored(address, down)
            &&& nzc_from(r.P, r2.P, ((r.A - down + 0x100) % 0x100) as u8, r.A >= down)
        }),
{
    reveal(execute_spec);
    let v = m.loaded(address).1;
    lemma_nz_bits(r.P, v);
    let down = ((v + 0xFF) % 0x100) as u8;
    lemma_nzc_bits(r.P, ((r.A - down + 0x100) % 0x100) as u8, r.A >= down);
}

/// ISC increments the byte at the effective address, writes it back, and subtracts it
/// from A with the borrow, as SBC does.
pub proof fn lemma_unofficial_isc(r: Regs, m: Memory, address: u16)
    ensures
        ({
            let (ml, v) = m.loaded(address);
            let up = ((v + 1) % 0x100) as u8;
            let (r3, m3) = execute_spec(Mnemonic::Isc, r, m, address);
            let diff = r.A - up - (1 - carry_of(r.P));
            &&& m3 == ml.stored(address, up) && keeps_xy_sp_pc(r, r3)
            &&& r3.A == (diff + 0x100) % 0x100 && (r3.P & 0x01 != 0) == (diff >= 0)
            &&& (r3.P & 0x40 != 0) == ((r.A ^ up) & (r.A ^ r3.A) & 0x80 != 0)
            &&& (r3.P & 0x80 != 0) == (r3.A & 0x80 != 0) && (r3.P & 0x02 != 0) == (r3.A == 0)
            &&& r3.P & 0x3C == r.P & 0x3C
        }),
{
    reveal(execute_spec);
    let v = m.loaded(address).1;
    let a = r.A;
    let up = ((v + 1) % 0x100) as u8;
    let w = (0xFF - up) as u8;
    lemma_adc_bits(a, r.P, w);
    let res = adc_spec(a, r.P, w).0;
    assert((a ^ res) & (w ^ res) & 0x80 == (a ^ up) & (a ^ res) & 0x80) by (bit_vector)
        requires
            w == 0xFF - up,
    ;
}

proof fn lemma_shift_then_logic(p: u8, res: u8, carry: bool, a: u8)
    ensures
        nzc_from(p, with_nz(with_nzc(p, res, carry), a), a, carry),
{
    let p1 = with_nzc(p, res, carry);
    lemma_nzc_bits(p, res, carry);
    lemma_nz_bits(p1, a);
    let q = with_nz(p1, a);
    assert((q & 0x01 != 0) == (p1 & 0x01 != 0) && q & 0x7C == p & 0x7C) by (bit_vector)
        requires
            q & 0x7D == p1 & 0x7D,
            p1 & 0x7C == p & 0x7C,
    ;
}

/// SLO, RLA and SRE shift left, rotate left or shift right the byte at the effective
/// address, write it back, and OR, AND or exclusive-OR it into A; C takes the bit
/// shifted out, N and Z come from A.
pub proof fn lemma_unofficial_shift_logic(r: Regs, m: Memory, address: u16)
    ensures
        ({
            let (ml, v) = m.loaded(address);
            let left = ((v * 2) % 0x100) as u8;
            let rotl = ((v * 2) % 0x100 + carry_of(r.P)) as u8;
            let right = (v / 2) as u8;
            let (r4, m4) = execute_spec(Mnemonic::Slo, r, m, address);
            let (r5, m5) = execute_spec(Mnemonic::Rla, r, m, address);
            let (r6, m6) = execute_spec(Mnemonic::Sre, r, m, address);
            &&& m4 == ml.stored(address, left) && keeps_xy_sp_pc(r, r4) && r4.A == r.A | left
                && nzc_from(r.P, r4.P, r4.A, v & 0x80 != 0)
            &&& m5 == ml.stored(address, rotl) && keeps_xy_sp_pc(r, r5) && r5.A == r.A & rotl
                && nzc_from(r.P, r5.P, r5.A, v & 0x80 != 0)
            &&& m6 == ml.stored(address, right) && keeps_xy_sp_pc(r, r6) && r6.A == r.A ^ right
                && nzc_from(r.P, r6.P, r6.A, v & 1 != 0)
        }),
{
    reveal(execute_spec);
    let v = m.loaded(address).1;
    let p = r.P;
    let a = r.A;
    lemma_byte_bits(v);
    assert(carry_in(p) == carry_of(p));
    let left = ((v * 2) % 0x100) as u8;
    let rotl = ((v * 2) % 0x100 + carry_in(p)) as u8;
    let right = (v / 2) as u8;
    lemma_shift_then_logic(p, left, v >= 0x80, a | left);
    lemma_shift_then_logic(p, rotl, v >= 0x80, a & rotl);
    lemma_shift_then_logic(p, right, v % 2 == 1, a ^ right);
}

/// RRA rotates the byte at the effective address right through the carry, writes it
/// back, and adds it to A with the bit shifted out as the carry in, as ADC does.
pub proof fn lemma_unofficial_rra(r: Regs, m: Memory, address: u16)
    ensures
        ({
            let (ml, v) = m.loaded(address);
            let rotr = (v / 2 + 0x80 * carry_of(r.P)) as u8;
            let (r7, m7) = execute_spec(Mnemonic::Rra, r, m, address);
            let sum = r.A + rotr + (v & 1);
            &&& m7 == ml.stored(address, rotr) && keeps_xy_sp_pc(r, r7)
            &&& r7.A == sum % 0x100 && (r7.P & 0x01 != 0) == (sum > 0xFF)
            &&& (r7.P & 0x40 != 0) == ((r.A ^ r7.A) & (rotr ^ r7.A) & 0x80 != 0)
            &&& (r7.P & 0x80 != 0) == (r7.A & 0x80 != 0) && (r7.P & 0x02 != 0) == (r7.A == 0)
            &&& r7.P & 0x3C == r.P & 0x3C
        }),
{
    let (ml, v) = m.loaded(address);
    let p = r.P;
    lemma_byte_bits(v);
    assert(carry_in(p) == carry_of(p));
    let rotr = (v / 2 + carry_in(p) * 0x80) as u8;
    let p4 = with_nzc(p, rotr, v % 2 == 1);
    let (a7, q7) = adc_spec(r.A, p4, rotr);
    assert(execute_spec(Mnemonic::Rra, r, m, address) == (Regs { A: a7, P: q7, ..r }, ml.stored(
        address,
        rotr,
    ))) by {
        reveal(execute_spec);
    }
    lemma_nzc_bits(p, rotr, v % 2 == 1);
    lemma_adc_bits(r.A, p4, rotr);
    assert(carry_of(p4) == (v & 1) as int);
    assert(p4 & 0x3C == p & 0x3C) by (bit_vector)
        requires
            p4 & 0x7C == p & 0x7C,
    ;
}


proof fn lemma_index_carry(base: u16, index: u8)
    ensures
        ((base + index) % 0x10000) as u16 % 0x100 < index <==> base % 0x100 + index >= 0x100,
{
    let a = ((base + index) % 0x10000) as u16;
    assert(a % 0x100 < index <==> base % 0x100 + index >= 0x100) by (bit_vector)
        requires
            a == ((base + index) % 0x10000) as u16,
    ;
}

/// The effective address of the direct modes: immediate is the byte after the opcode;
/// zero page is the operand, and its indexed forms add the index inside page zero;
/// absolute is the operand. None reads memory or costs an extra cycle.
pub proof fn lemma_direct_modes(r: Regs, m: Memory, operand: u16)
    ensures
        address_spec(AddressingMode::Imp, r, m, operand) == (m, 0u16, 0u32),
        address_spec(AddressingMode::Imm, r, m, operand) == (m, ((r.PC + 1) % 0x10000) as u16, 0u32),
        address_spec(AddressingMode::Zpg, r, m, operand) == (m, operand, 0u32),
        address_spec(AddressingMode::Zpx, r, m, operand) == (m, ((operand % 0x100 + r.X) % 0x100) as u16, 0u32),
        address_spec(AddressingMode::Zpy, r, m, operand) == (m, ((operand % 0x100 + r.Y) % 0x100) as u16, 0u32),
        address_spec(AddressingMode::Abs, r, m, operand) == (m, operand, 0u32),
{
    reveal(address_spec);
}

/// Absolute indexed modes add X or Y to the operand modulo 0x10000, and cost a cycle
/// when the low byte carries into the high byte.
pub proof fn lemma_absolute_indexed_modes(r: Regs, m: Memory, operand: u16)
    ensures
        address_spec(AddressingMode::Abx, r, m, operand) == (
            m,
            ((operand + r.X) % 0x10000) as u16,
            if operand % 0x100 + r.X >= 0x100 { 1u32 } else { 0u32 },
        ),
        address_spec(AddressingMode::Aby, r, m, operand) == (
            m,
            ((operand + r.Y) % 0x10000) as u16,
            if operand % 0x100 + r.Y >= 0x100 { 1u32 } else { 0u32 },
        ),
{
    reveal(address_spec);
    lemma_index_carry(operand, r.X);
    lemma_index_carry(operand, r.Y);
}

/// The indirect modes: (abs) reads a little-endian word at the operand, its high byte
/// from the same page; (zp),Y reads a word in page zero (the high byte after 0xFF comes
/// from 0x00) and adds Y modulo 0x10000, costing a cycle when the low byte carries.
pub proof fn lemma_indirect_modes(r: Regs, m: Memory, operand: u16)
    ensures
        ({
            let (m1, low) = m.loaded(operand);
            let (m2, high) = m1.loaded((operand / 0x100 * 0x100 + (operand % 0x100 + 1) % 0x100) as u16);
            address_spec(AddressingMode::Ind, r, m, operand) == (m2, (high * 0x100 + low) as u16, 0u32)
        }),
        operand < 0x100 ==> ({
            let (m1, low) = m.loaded(operand);
            let (m2, high) = m1.loaded(((operand + 1) % 0x100) as u16);
            let base = high * 0x100 + low;
            address_spec(AddressingMode::Idy, r, m, operand) == (
                m2,
                ((base + r.Y) % 0x10000) as u16,
                if low + r.Y >= 0x100 { 1u32 } else { 0u32 },
            )
        }),
{
    reveal(address_spec);
    let (m1, low) = m.loaded(operand);
    let (m2, high) = m1.loaded(((operand + 1) % 0x100) as u16);
    let base = (high * 0x100 + low) as u16;
    assert(base % 0x100 == low) by (nonlinear_arith)
        requires
            base == (high * 0x100 + low) as u16,
            low < 0x100,
            high < 0x100,
    ;
    lemma_index_carry(base, r.Y);
}


/// BRK pushes the address two bytes after it (high byte first) and the status with bits
/// 4 and 5 set, sets I, and jumps through the vector at 0xFFFE (low byte) and 0xFFFF.
pub proof fn lemma_brk(r: Regs, m: Memory, address: u16)
    ensures
        ({
            let ret = (r.PC + 2) % 0x10000;
            let m1 = m.stored((0x100 + r.SP) as u16, (ret / 0x100) as u8).stored(
                (0x100 + (r.SP + 0xFF) % 0x100) as u16,
                (ret % 0x100) as u8,
            ).stored((0x100 + (r.SP + 0xFE) % 0x100) as u16, r.P | 0x30);
            let (m2, low) = m1.loaded(0xFFFE);
            let (m3, high) = m2.loaded(0xFFFF);
            execute_spec(Mnemonic::Brk, r, m, address) == (
                Regs {
                    SP: ((r.SP + 0xFD) % 0x100) as u8,
                    P: r.P | 0x04,
                    PC: (high * 0x100 + low) as u16,
                    ..r
                },
                m3,
            )
        }),
{
    let (r1, m1) = push_word_spec(r, m, add16(r.PC, 2));
    let (r2, m2) = push_spec(r1, m1, pushed_flags(r.P));
    let (m3, pc) = load_word_spec(m2, 0xFFFE);
    assert(execute_spec(Mnemonic::Brk, r, m, address) == (
        Regs { P: r2.P | 0x04, PC: pc, ..r2 },
        m3,
    )) by {
        reveal(execute_spec);
    }
    lemma_byte_bits(r.P);
}

/// RTI pulls the status (bits 4 and 5 cleared) and then the return address, low byte
/// first.
pub proof fn lemma_rti(r: Regs, m: Memory, address: u16)
    ensures
        ({
            let s1 = ((r.SP + 1) % 0x100) as u8;
            let s2 = ((r.SP + 2) % 0x100) as u8;
            let s3 = ((r.SP + 3) % 0x100) as u8;
            let (m1, p) = m.loaded((0x100 + s1) as u16);
            let (m2, low) = m1.loaded((0x100 + s2) as u16);
            let (m3, high) = m2.loaded((0x100 + s3) as u16);
            execute_spec(Mnemonic::Rti, r, m, address) == (
                Regs { P: p & 0xCF, SP: s3, PC: (high * 0x100 + low) as u16, ..r },
                m3,
            )
        }),
{
    let (r1, m1, p) = pop_spec(r, m);
    let (r2, m2, pc) = pop_word_spec(with_p(r1, pulled_flags(p)), m1);
    assert(execute_spec(Mnemonic::Rti, r, m, address) == (Regs { PC: pc, ..r2 }, m2)) by {
        reveal(execute_spec);
    }
    lemma_byte_bits(p);
}


/// The operation of the arithmetic and logic group, chosen by the top three bits of
/// the opcode.
pub open spec fn alu_operation(top: int) -> Mnemonic {
    if top == 0 {
        Mnemonic::Ora
    } else if top == 1 {
        Mnemonic::And
    } else if top == 2 {
        Mnemonic::Eor
    } else if top == 3 {
        Mnemonic::Adc
    } else if top == 4 {
        Mnemonic::Sta
    } else if top == 5 {
        Mnemonic::Lda
    } else if top == 6 {
        Mnemonic::Cmp
    } else {
        Mnemonic::Sbc
    }
}

/// The addressing mode of the arithmetic and logic group, chosen by bits 2 to 4 of the
/// opcode.
pub open spec fn alu_mode(middle: int) -> AddressingMode {
    if middle == 0 {
        AddressingMode::Idx
    } else if middle == 1 {
        AddressingMode::Zpg
    } else if middle == 2 {
        AddressingMode::Imm
    } else if middle == 3 {
        AddressingMode::Abs
    } else if middle == 4 {
        AddressingMode::Idy
    } else if middle == 5 {
        AddressingMode::Zpx
    } else if middle == 6 {
        AddressingMode::Aby
    } else {
        AddressingMode::Abx
    }
}

/// Decoding of the arithmetic and logic group (opcodes whose low two bits are 01): the
/// top three bits choose ORA, AND, EOR, ADC, STA, LDA, CMP or SBC, and bits 2 to 4 the
/// mode: (zp,X), zero page, immediate, absolute, (zp),Y, zero page X, absolute Y,
/// absolute X. The one exception, 0x89 (STA immediate), is a two-byte NOP.
pub proof fn lemma_alu_decoding(opcode: u8)
    requires
        opcode % 4 == 1,
        opcode != 0x89,
    ensures
        instruction_spec(opcode).op == alu_operation(opcode as int / 32),
        instruction_spec(opcode).mode.kind == alu_mode((opcode as int / 4) % 8),
{
    assert(0 <= opcode / 32 < 8);
    if opcode == 0x01 {
        assert(instruction_spec(0x01).op == alu_operation(0) && instruction_spec(0x01).mode.kind == alu_mode(0));
    } else if opcode == 0x05 {
        assert(instruction_spec(0x05).op == alu_operation(0) && instruction_spec(0x05).mode.kind == alu_mode(1));
    } else if opcode == 0x09 {
        assert(instruction_spec(0x09).op == alu_operation(0) && instruction_spec(0x09).mode.kind == alu_mode(2));
    } else if opcode == 0x0D {
        assert(instruction_spec(0x0D).op == alu_operation(0) && instruction_spec(0x0D).mode.kind == alu_mode(3));
    } else if opcode == 0x11 {
        assert(instruction_spec(0x11).op == alu_operation(0) && instruction_spec(0x11).mode.kind == alu_mode(4));
    } else if opcode == 0x15 {
        assert(instruction_spec(0x15).op == alu_operation(0) && instruction_spec(0x15).mode.kind == alu_mode(5));
    } else if opcode == 0x19 {
        assert(instruction_spec(0x19).op == alu_operation(0) && instruction_spec(0x19).mode.kind == alu_mode(6));
    } else if opcode == 0x1D {
        assert(instruction_spec(0x1D).op == alu_operation(0) && instruction_spec(0x1D).mode.kind == alu_mode(7));
    } else if opcode == 0x21 {
        assert(instruction_spec(0x21).op == alu_operation(1) && instruction_spec(0x21).mode.kind == alu_mode(0));
    } else if opcode == 0x25 {
        assert(instruction_spec(0x25).op == alu_operation(1) && instruction_spec(0x25).mode.kind == alu_mode(1));
    } else if opcode == 0x29 {
        assert(instruction_spec(0x29).op == alu_operation(1) && instruction_spec(0x29).mode.kind == alu_mode(2));
    } else if opcode == 0x2D {
        assert(instruction_spec(0x2D).op == alu_operation(1) && instruction_spec(0x2D).mode.kind == alu_mode(3));
    } else if opcode == 0x31 {
        assert(instruction_spec(0x31).op == alu_operation(1) && instruction_spec(0x31).mode.kind == alu_mode(4));
    } else if opcode == 0x35 {
        assert(instruction_spec(0x35).op == alu_operation(1) && instruction_spec(0x35).mode.kind == alu_mode(5));
    } else if opcode == 0x39 {
        assert(instruction_spec(0x39).op == alu_operation(1) && instruction_spec(0x39).mode.kind == alu_mode(6));
    } else if opcode == 0x3D {
        assert(instruction_spec(0x3D).op == alu_operation(1) && instruction_spec(0x3D).mode.kind == alu_mode(7));
    } else if opcode == 0x41 {
        assert(instruction_spec(0x41).op == alu_operation(2) && instruction_spec(0x41).mode.kind == alu_mode(0));
    } else if opcode == 0x45 {
        assert(instruction_spec(0x45).op == alu_operation(2) && instruction_spec(0x45).mode.kind == alu_mode(1));
    } else if opcode == 0x49 {
        assert(instruction_spec(0x49).op == alu_operation(2) && instruction_spec(0x49).mode.kind == alu_mode(2));
    } else if opcode == 0x4D {
        assert(instruction_spec(0x4D).op == alu_operation(2) && instruction_spec(0x4D).mode.kind == alu_mode(3));
    } else if opcode == 0x51 {
        assert(instruction_spec(0x51).op == alu_operation(2) && instruction_spec(0x51).mode.kind == alu_mode(4));
    } else if opcode == 0x55 {
        assert(instruction_spec(0x55).op == alu_operation(2) && instruction_spec(0x55).mode.kind == alu_mode(5));
    } else if opcode == 0x59 {
        assert(instruction_spec(0x59).op == alu_operation(2) && instruction_spec(0x59).mode.kind == alu_mode(6));
    } else if opcode == 0x5D {
        assert(instruction_spec(0x5D).op == alu_operation(2) && instruction_spec(0x5D).mode.kind == alu_mode(7));
    } else if opcode == 0x61 {
        assert(instruction_spec(0x61).op == alu_operation(3) && instruction_spec(0x61).mode.kind == alu_mode(0));
    } else if opcode == 0x65 {
        assert(instruction_spec(0x65).op == alu_operation(3) && instruction_spec(0x65).mode.kind == alu_mode(1));
    } else if opcode == 0x69 {
        assert(instruction_spec(0x69).op == alu_operation(3) && instruction_spec(0x69).mode.kind == alu_mode(2));
    } else if opcode == 0x6D {
        assert(instruction_spec(0x6D).op == alu_operation(3) && instruction_spec(0x6D).mode.kind == alu_mode(3));
    } else if opcode == 0x71 {
        assert(instruction_spec(0x71).op == alu_operation(3) && instruction_spec(0x71).mode.kind == alu_mode(4));
    } else if opcode == 0x75 {
        assert(instruction_spec(0x75).op == alu_operation(3) && instruction_spec(0x75).mode.kind == alu_mode(5));
    } else if opcode == 0x79 {
        assert(instruction_spec(0x79).op == alu_operation(3) && instruction_spec(0x79).mode.kind == alu_mode(6));
    } else if opcode == 0x7D {
        assert(instruction_spec(0x7D).op == alu_operation(3) && instruction_spec(0x7D).mode.kind == alu_mode(7));
    } else if opcode == 0x81 {
        assert(instruction_spec(0x81).op == alu_operation(4) && instruction_spec(0x81).mode.kind == alu_mode(0));
    } else if opcode == 0x85 {
        assert(instruction_spec(0x85).op == alu_operation(4) && instruction_spec(0x85).mode.kind == alu_mode(1));
    } else if opcode == 0x8D {
        assert(instruction_spec(0x8D).op == alu_operation(4) && instruction_spec(0x8D).mode.kind == alu_mode(3));
    } else if opcode == 0x91 {
        assert(instruction_spec(0x91).op == alu_operation(4) && instruction_spec(0x91).mode.kind == alu_mode(4));
    } else if opcode == 0x95 {
        assert(instruction_spec(0x95).op == alu_operation(4) && instruction_spec(0x95).mode.kind == alu_mode(5));
    } else if opcode == 0x99 {
        assert(instruction_spec(0x99).op == alu_operation(4) && instruction_spec(0x99).mode.kind == alu_mode(6));
    } else if opcode == 0x9D {
        assert(instruction_spec(0x9D).op == alu_operation(4) && instruction_spec(0x9D).mode.kind == alu_mode(7));
    } else if opcode == 0xA1 {
        assert(instruction_spec(0xA1).op == alu_operation(5) && instruction_spec(0xA1).mode.kind == alu_mode(0));
    } else if opcode == 0xA5 {
        assert(instruction_spec(0xA5).op == alu_operation(5) && instruction_spec(0xA5).mode.kind == alu_mode(1));
    } else if opcode == 0xA9 {
        assert(instruction_spec(0xA9).op == alu_operation(5) && instruction_spec(0xA9).mode.kind == alu_mode(2));
    } else if opcode == 0xAD {
        assert(instruction_spec(0xAD).op == alu_operation(5) && instruction_spec(0xAD).mode.kind == alu_mode(3));
    } else if opcode == 0xB1 {
        assert(instruction_spec(0xB1).op == alu_operation(5) && instruction_spec(0xB1).mode.kind == alu_mode(4));
    } else if opcode == 0xB5 {
        assert(instruction_spec(0xB5).op == alu_operation(5) && instruction_spec(0xB5).mode.kind == alu_mode(5));
    } else if opcode == 0xB9 {
        assert(instruction_spec(0xB9).op == alu_operation(5) && instruction_spec(0xB9).mode.kind == alu_mode(6));
    } else if opcode == 0xBD {
        assert(instruction_spec(0xBD).op == alu_operation(5) && instruction_spec(0xBD).mode.kind == alu_mode(7));
    } else if opcode == 0xC1 {
        assert(instruction_spec(0xC1).op == alu_operation(6) && instruction_spec(0xC1).mode.kind == alu_mode(0));
    } else if opcode == 0xC5 {
        assert(instruction_spec(0xC5).op == alu_operation(6) && instruction_spec(0xC5).mode.kind == alu_mode(1));
    } else if opcode == 0xC9 {
        assert(instruction_spec(0xC9).op == alu_operation(6) && instruction_spec(0xC9).mode.kind == alu_mode(2));
    } else if opcode == 0xCD {
        assert(instruction_spec(0xCD).op == alu_operation(6) && instruction_spec(0xCD).mode.kind == alu_mode(3));
    } else if opcode == 0xD1 {
        assert(instruction_spec(0xD1).op == alu_operation(6) && instruction_spec(0xD1).mode.kind == alu_mode(4));
    } else if opcode == 0xD5 {
        assert(instruction_spec(0xD5).op == alu_operation(6) && instruction_spec(0xD5).mode.kind == alu_mode(5));
    } else if opcode == 0xD9 {
        assert(instruction_spec(0xD9).op == alu_operation(6) && instruction_spec(0xD9).mode.kind == alu_mode(6));
    } else if opcode == 0xDD {
        assert(instruction_spec(0xDD).op == alu_operation(6) && instruction_spec(0xDD).mode.kind == alu_mode(7));
    } else if opcode == 0xE1 {
        assert(instruction_spec(0xE1).op == alu_operation(7) && instruction_spec(0xE1).mode.kind == alu_mode(0));
    } else if opcode == 0xE5 {
        assert(instruction_spec(0xE5).op == alu_operation(7) && instruction_spec(0xE5).mode.kind == alu_mode(1));
    } else if opcode == 0xE9 {
        assert(instruction_spec(0xE9).op == alu_operation(7) && instruction_spec(0xE9).mode.kind == alu_mode(2));
    } else if opcode == 0xED {
        assert(instruction_spec(0xED).op == alu_operation(7) && instruction_spec(0xED).mode.kind == alu_mode(3));
    } else if opcode == 0xF1 {
        assert(instruction_spec(0xF1).op == alu_operation(7) && instruction_spec(0xF1).mode.kind == alu_mode(4));
    } else if opcode == 0xF5 {
        assert(instruction_spec(0xF5).op == alu_operation(7) && instruction_spec(0xF5).mode.kind == alu_mode(5));
    } else if opcode == 0xF9 {
        assert(instruction_spec(0xF9).op == alu_operation(7) && instruction_spec(0xF9).mode.kind == alu_mode(6));
    } else if opcode == 0xFD {
        assert(instruction_spec(0xFD).op == alu_operation(7) && instruction_spec(0xFD).mode.kind == alu_mode(7));
    }
}

/// Decoding of the branches (opcodes xxy10000): all use the relative mode; the top two
/// bits choose the flag (N, V, C, Z) and bit 5 whether the branch is taken when the
/// flag is set.
pub proof fn lemma_branch_decoding(opcode: u8)
    requires
        opcode % 32 == 0x10,
    ensures
        instruction_spec(opcode).mode.kind == AddressingMode::Rel,
        instruction_spec(opcode).op == if opcode == 0x10 {
            Mnemonic::Bpl
        } else if opcode == 0x30 {
            Mnemonic::Bmi
        } else if opcode == 0x50 {
            Mnemonic::Bvc
        } else if opcode == 0x70 {
            Mnemonic::Bvs
        } else if opcode == 0x90 {
            Mnemonic::Bcc
        } else if opcode == 0xB0 {
            Mnemonic::Bcs
        } else if opcode == 0xD0 {
            Mnemonic::Bne
        } else {
            Mnemonic::Beq
        },
{
}


/// The operation of the read-modify-write group, chosen by the top three bits of the
/// opcode (4 and 5 are the X register's loads and stores).
pub open spec fn rmw_operation(top: int) -> Mnemonic {
    if top == 0 {
        Mnemonic::Asl
    } else if top == 1 {
        Mnemonic::Rol
    } else if top == 2 {
        Mnemonic::Lsr
    } else if top == 3 {
        Mnemonic::Ror
    } else if top == 6 {
        Mnemonic::Dec
    } else {
        Mnemonic::Inc
    }
}

/// The memory modes of the read-modify-write group, chosen by bits 2 to 4.
pub open spec fn rmw_mode(middle: int) -> AddressingMode {
    if middle == 1 {
        AddressingMode::Zpg
    } else if middle == 3 {
        AddressingMode::Abs
    } else if middle == 5 {
        AddressingMode::Zpx
    } else {
        AddressingMode::Abx
    }
}

/// Decoding of the read-modify-write group on memory (low two bits 10, top bits 0-3, 6
/// and 7, bits 2-4 odd): ASL, ROL, LSR, ROR, DEC or INC, on zero page, absolute, zero
/// page X or absolute X.
pub proof fn lemma_rmw_decoding(opcode: u8)
    requires
        opcode % 4 == 2,
        (opcode / 4) % 2 == 1,
        opcode / 32 != 4 && opcode / 32 != 5,
    ensures
        instruction_spec(opcode).op == rmw_operation(opcode as int / 32),
        instruction_spec(opcode).mode.kind == rmw_mode((opcode as int / 4) % 8),
{
    if opcode == 0x06 {
        assert(instruction_spec(0x06).op == rmw_operation(0) && instruction_spec(0x06).mode.kind == rmw_mode(1));
    } else if opcode == 0x0E {
        assert(instruction_spec(0x0E).op == rmw_operation(0) && instruction_spec(0x0E).mode.kind == rmw_mode(3));
    } else if opcode == 0x16 {
        assert(instruction_spec(0x16).op == rmw_operation(0) && instruction_spec(0x16).mode.kind == rmw_mode(5));
    } else if opcode == 0x1E {
        assert(instruction_spec(0x1E).op == rmw_operation(0) && instruction_spec(0x1E).mode.kind == rmw_mode(7));
    } else if opcode == 0x26 {
        assert(instruction_spec(0x26).op == rmw_operation(1) && instruction_spec(0x26).mode.kind == rmw_mode(1));
    } else if opcode == 0x2E {
        assert(instruction_spec(0x2E).op == rmw_operation(1) && instruction_spec(0x2E).mode.kind == rmw_mode(3));
    } else if opcode == 0x36 {
        assert(instruction_spec(0x36).op == rmw_operation(1) && instruction_spec(0x36).mode.kind == rmw_mode(5));
    } else if opcode == 0x3E {
        assert(instruction_spec(0x3E).op == rmw_operation(1) && instruction_spec(0x3E).mode.kind == rmw_mode(7));
    } else if opcode == 0x46 {
        assert(instruction_spec(0x46).op == rmw_operation(2) && instruction_spec(0x46).mode.kind == rmw_mode(1));
    } else if opcode == 0x4E {
        assert(instruction_spec(0x4E).op == rmw_operation(2) && instruction_spec(0x4E).mode.kind == rmw_mode(3));
    } else if opcode == 0x56 {
        assert(instruction_spec(0x56).op == rmw_operation(2) && instruction_spec(0x56).mode.kind == rmw_mode(5));
    } else if opcode == 0x5E {
        assert(instruction_spec(0x5E).op == rmw_operation(2) && instruction_spec(0x5E).mode.kind == rmw_mode(7));
    } else if opcode == 0x66 {
        assert(instruction_spec(0x66).op == rmw_operation(3) && instruction_spec(0x66).mode.kind == rmw_mode(1));
    } else if opcode == 0x6E {
        assert(instruction_spec(0x6E).op == rmw_operation(3) && instruction_spec(0x6E).mode.kind == rmw_mode(3));
    } else if opcode == 0x76 {
        assert(instruction_spec(0x76).op == rmw_operation(3) && instruction_spec(0x76).mode.kind == rmw_mode(5));
    } else if opcode == 0x7E {
        assert(instruction_spec(0x7E).op == rmw_operation(3) && instruction_spec(0x7E).mode.kind == rmw_mode(7));
    } else if opcode == 0xC6 {
        assert(instruction_spec(0xC6).op == rmw_operation(6) && instruction_spec(0xC6).mode.kind == rmw_mode(1));
    } else if opcode == 0xCE {
        assert(instruction_spec(0xCE).op == rmw_operation(6) && instruction_spec(0xCE).mode.kind == rmw_mode(3));
    } else if opcode == 0xD6 {
        assert(instruction_spec(0xD6).op == rmw_operation(6) && instruction_spec(0xD6).mode.kind == rmw_mode(5));
    } else if opcode == 0xDE {
        assert(instruction_spec(0xDE).op == rmw_operation(6) && instruction_spec(0xDE).mode.kind == rmw_mode(7));
    } else if opcode == 0xE6 {
        assert(instruction_spec(0xE6).op == rmw_operation(7) && instruction_spec(0xE6).mode.kind == rmw_mode(1));
    } else if opcode == 0xEE {
        assert(instruction_spec(0xEE).op == rmw_operation(7) && instruction_spec(0xEE).mode.kind == rmw_mode(3));
    } else if opcode == 0xF6 {
        assert(instruction_spec(0xF6).op == rmw_operation(7) && instruction_spec(0xF6).mode.kind == rmw_mode(5));
    } else if opcode == 0xFE {
        assert(instruction_spec(0xFE).op == rmw_operation(7) && instruction_spec(0xFE).mode.kind == rmw_mode(7));
    }
}

/// The official instructions outside those groups: control flow, BIT, the Y and X
/// register loads, stores and compares, the accumulator shifts, the flag, stack,
/// transfer, increment and decrement instructions, and NOP, each with its mode.
pub proof fn lemma_official_decoding()
    ensures
        instruction_spec(0x00).op == Mnemonic::Brk && instruction_spec(0x00).mode.kind == AddressingMode::Imp,
        instruction_spec(0x08).op == Mnemonic::Php && instruction_spec(0x08).mode.kind == AddressingMode::Imp,
        instruction_spec(0x0A).op == Mnemonic::Sal && instruction_spec(0x0A).mode.kind == AddressingMode::Imp,
        instruction_spec(0x18).op == Mnemonic::Clc && instruction_spec(0x18).mode.kind == AddressingMode::Imp,
        instruction_spec(0x20).op == Mnemonic::Jsr && instruction_spec(0x20).mode.kind == AddressingMode::Abs,
        instruction_spec(0x24).op == Mnemonic::Bit && instruction_spec(0x24).mode.kind == AddressingMode::Zpg,
        instruction_spec(0x28).op == Mnemonic::Plp && instruction_spec(0x28).mode.kind == AddressingMode::Imp,
        instruction_spec(0x2A).op == Mnemonic::Ral && instruction_spec(0x2A).mode.kind == AddressingMode::Imp,
        instruction_spec(0x2C).op == Mnemonic::Bit && instruction_spec(0x2C).mode.kind == AddressingMode::Abs,
        instruction_spec(0x38).op == Mnemonic::Sec && instruction_spec(0x38).mode.kind == AddressingMode::Imp,
        instruction_spec(0x40).op == Mnemonic::Rti && instruction_spec(0x40).mode.kind == AddressingMode::Imp,
        instruction_spec(0x48).op == Mnemonic::Pha && instruction_spec(0x48).mode.kind == AddressingMode::Imp,
        instruction_spec(0x4A).op == Mnemonic::Sar && instruction_spec(0x4A).mode.kind == AddressingMode::Imp,
        instruction_spec(0x4C).op == Mnemonic::Jmp && instruction_spec(0x4C).mode.kind == AddressingMode::Abs,
        instruction_spec(0x58).op == Mnemonic::Cli && instruction_spec(0x58).mode.kind == AddressingMode::Imp,
        instruction_spec(0x60).op == Mnemonic::Rts && instruction_spec(0x60).mode.kind == AddressingMode::Imp,
        instruction_spec(0x68).op == Mnemonic::Pla && instruction_spec(0x68).mode.kind == AddressingMode::Imp,
        instruction_spec(0x6A).op == Mnemonic::Rar && instruction_spec(0x6A).mode.kind == AddressingMode::Imp,
        instruction_spec(0x6C).op == Mnemonic::Jmp && instruction_spec(0x6C).mode.kind == AddressingMode::Ind,
        instruction_spec(0x78).op == Mnemonic::Sei && instruction_spec(0x78).mode.kind == AddressingMode::Imp,
        instruction_spec(0x84).op == Mnemonic::Sty && instruction_spec(0x84).mode.kind == AddressingMode::Zpg,
        instruction_spec(0x86).op == Mnemonic::Stx && instruction_spec(0x86).mode.kind == AddressingMode::Zpg,
        instruction_spec(0x88).op == Mnemonic::Dey && instruction_spec(0x88).mode.kind == AddressingMode::Imp,
        instruction_spec(0x8A).op == Mnemonic::Txa && instruction_spec(0x8A).mode.kind == AddressingMode::Imp,
        instruction_spec(0x8C).op == Mnemonic::Sty && instruction_spec(0x8C).mode.kind == AddressingMode::Abs,
        instruction_spec(0x8E).op == Mnemonic::Stx && instruction_spec(0x8E).mode.kind == AddressingMode::Abs,
        instruction_spec(0x94).op == Mnemonic::Sty && instruction_spec(0x94).mode.kind == AddressingMode::Zpx,
        instruction_spec(0x96).op == Mnemonic::Stx && instruction_spec(0x96).mode.kind == AddressingMode::Zpy,
        instruction_spec(0x98).op == Mnemonic::Tya && instruction_spec(0x98).mode.kind == AddressingMode::Imp,
        instruction_spec(0x9A).op == Mnemonic::Txs && instruction_spec(0x9A).mode.kind == AddressingMode::Imp,
        instruction_spec(0xA0).op == Mnemonic::Ldy && instruction_spec(0xA0).mode.kind == AddressingMode::Imm,
        instruction_spec(0xA2).op == Mnemonic::Ldx && instruction_spec(0xA2).mode.kind == AddressingMode::Imm,
        instruction_spec(0xA4).op == Mnemonic::Ldy && instruction_spec(0xA4).mode.kind == AddressingMode::Zpg,
        instruction_spec(0xA6).op == Mnemonic::Ldx && instruction_spec(0xA6).mode.kind == AddressingMode::Zpg,
        instruction_spec(0xA8).op == Mnemonic::Tay && instruction_spec(0xA8).mode.kind == AddressingMode::Imp,
        instruction_spec(0xAA).op == Mnemonic::Tax && instruction_spec(0xAA).mode.kind == AddressingMode::Imp,
        instruction_spec(0xAC).op == Mnemonic::Ldy && instruction_spec(0xAC).mode.kind == AddressingMode::Abs,
        instruction_spec(0xAE).op == Mnemonic::Ldx && instruction_spec(0xAE).mode.kind == AddressingMode::Abs,
        instruction_spec(0xB4).op == Mnemonic::Ldy && instruction_spec(0xB4).mode.kind == AddressingMode::Zpx,
        instruction_spec(0xB6).op == Mnemonic::Ldx && instruction_spec(0xB6).mode.kind == AddressingMode::Zpy,
        instruction_spec(0xB8).op == Mnemonic::Clv && instruction_spec(0xB8).mode.kind == AddressingMode::Imp,
        instruction_spec(0xBA).op == Mnemonic::Tsx && instruction_spec(0xBA).mode.kind == AddressingMode::Imp,
        instruction_spec(0xBC).op == Mnemonic::Ldy && instruction_spec(0xBC).mode.kind == AddressingMode::Abx,
        instruction_spec(0xBE).op == Mnemonic::Ldx && instruction_spec(0xBE).mode.kind == AddressingMode::Aby,
        instruction_spec(0xC0).op == Mnemonic::Cpy && instruction_spec(0xC0).mode.kind == AddressingMode::Imm,
        instruction_spec(0xC4).op == Mnemonic::Cpy && instruction_spec(0xC4).mode.kind == AddressingMode::Zpg,
        instruction_spec(0xC8).op == Mnemonic::Iny && instruction_spec(0xC8).mode.kind == AddressingMode::Imp,
        instruction_spec(0xCA).op == Mnemonic::Dex && instruction_spec(0xCA).mode.kind == AddressingMode::Imp,
        instruction_spec(0xCC).op == Mnemonic::Cpy && instruction_spec(0xCC).mode.kind == AddressingMode::Abs,
        instruction_spec(0xD8).op == Mnemonic::Cld && instruction_spec(0xD8).mode.kind == AddressingMode::Imp,
        instruction_spec(0xE0).op == Mnemonic::Cpx && instruction_spec(0xE0).mode.kind == AddressingMode::Imm,
        instruction_spec(0xE4).op == Mnemonic::Cpx && instruction_spec(0xE4).mode.kind == AddressingMode::Zpg,
        instruction_spec(0xE8).op == Mnemonic::Inx && instruction_spec(0xE8).mode.kind == AddressingMode::Imp,
        instruction_spec(0xEA).op == Mnemonic::Nop && instruction_spec(0xEA).mode.kind == AddressingMode::Imp,
        instruction_spec(0xEC).op == Mnemonic::Cpx && instruction_spec(0xEC).mode.kind == AddressingMode::Abs,
        instruction_spec(0xF8).op == Mnemonic::Sed && instruction_spec(0xF8).mode.kind == AddressingMode::Imp,
{
}

} // verus!
