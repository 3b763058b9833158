use vstd::prelude::*;

verus! {

/// The operation of an instruction.
#[derive(Debug, Clone, Copy, PartialEq, Eq, Structural)]
pub enum Mnemonic {
    Brk,
    Ora,
    Nop,
    Slo,
    Asl,
    Php,
    Sal,
    Bpl,
    Clc,
    Jsr,
    And,
    Rla,
    Bit,
    Rol,
    Plp,
    Ral,
    Bmi,
    Sec,
    Rti,
    Eor,
    Sre,
    Lsr,
    Pha,
    Sar,
    Jmp,
    Bvc,
    Cli,
    Rts,
    Adc,
    Rra,
    Ror,
    Pla,
    Rar,
    Bvs,
    Sei,
    Sta,
    Sax,
    Sty,
    Stx,
    Dey,
    Txa,
    Bcc,
    Tya,
    Txs,
    Ldy,
    Lda,
    Ldx,
    Lax,
    Tay,
    Tax,
    Bcs,
    Clv,
    Tsx,
    Cpy,
    Cmp,
    Dcp,
    Dec,
    Iny,
    Dex,
    Bne,
    Cld,
    Cpx,
    Sbc,
    Isc,
    Inc,
    Inx,
    Beq,
    Sed,
}

/// How an instruction finds its operand.
#[derive(Debug, Clone, Copy, PartialEq, Eq, Structural)]
pub enum AddressingMode {
    Imp,
    Imm,
    Rel,
    Zpx,
    Zpy,
    Zpg,
    Idx,
    Idy,
    Ind,
    Abx,
    Aby,
    Abs,
}

/// An addressing mode and the number of bytes by which it advances the program counter.
#[derive(Debug, Clone, Copy, PartialEq, Eq, Structural)]
pub struct Addressing {
    pub kind: AddressingMode,
    pub size: u16,
}

/// One entry of the opcode table.
#[derive(Debug, Clone, Copy, PartialEq, Eq, Structural)]
pub struct Instruction {
    pub op: Mnemonic,
    pub mode: Addressing,
    /// Cycles the instruction takes.
    pub cycles: u32,
    /// Whether a page crossing (or a taken branch) adds cycles.
    pub has_extra: bool,
}

/// The length of an instruction in bytes: the opcode, then no operand for the implied
/// mode, a 16-bit operand for the absolute and indirect modes, one byte otherwise.
pub open spec fn mode_size(kind: AddressingMode) -> u16 {
    match kind {
        AddressingMode::Imp => 1,
        AddressingMode::Abs | AddressingMode::Abx | AddressingMode::Aby | AddressingMode::Ind => 3,
        _ => 2,
    }
}

pub open spec fn entry(kind: AddressingMode, op: Mnemonic, cycles: u32, has_extra: bool) -> Instruction {
    Instruction { op, mode: Addressing { kind, size: mode_size(kind) }, cycles, has_extra }
}

fn make(kind: AddressingMode, op: Mnemonic, cycles: u32, has_extra: bool) -> (r: Instruction)
    ensures
        r == entry(kind, op, cycles, has_extra),
{
    let size = match kind {
        AddressingMode::Imp => 1,
        AddressingMode::Abs | AddressingMode::Abx | AddressingMode::Aby | AddressingMode::Ind => 3,
        _ => 2,
    };
    Instruction { op, mode: Addressing { kind, size }, cycles, has_extra }
}

impl AddressingMode {
    pub open spec fn name_spec(&self) -> Seq<char> {
        match self {
            AddressingMode::Imp => "imp"@,
            AddressingMode::Imm => "imm"@,
            AddressingMode::Rel => "rel"@,
            AddressingMode::Zpx => "zpx"@,
            AddressingMode::Zpy => "zpy"@,
            AddressingMode::Zpg => "zpg"@,
            AddressingMode::Idx => "idx"@,
            AddressingMode::Idy => "idy"@,
            AddressingMode::Ind => "ind"@,
            AddressingMode::Abx => "abx"@,
            AddressingMode::Aby => "aby"@,
            AddressingMode::Abs => "abs"@,
        }
    }

    pub fn name(&self) -> (r: &'static str)
        ensures
            r@ == self.name_spec(),
    {
        match self {
            AddressingMode::Imp => "imp",
            AddressingMode::Imm => "imm",
            AddressingMode::Rel => "rel",
            AddressingMode::Zpx => "zpx",
            AddressingMode::Zpy => "zpy",
            AddressingMode::Zpg => "zpg",
            AddressingMode::Idx => "idx",
            AddressingMode::Idy => "idy",
            AddressingMode::Ind => "ind",
            AddressingMode::Abx => "abx",
            AddressingMode::Aby => "aby",
            AddressingMode::Abs => "abs",
        }
    }
}

impl Mnemonic {
    pub open spec fn name_spec(&self) -> Seq<char> {
        match self {
            Mnemonic::Brk => "brk"@,
            Mnemonic::Ora => "ora"@,
            Mnemonic::Nop => "nop"@,
            Mnemonic::Slo => "slo"@,
            Mnemonic::Asl => "asl"@,
            Mnemonic::Php => "php"@,
            Mnemonic::Sal => "sal"@,
            Mnemonic::Bpl => "bpl"@,
            Mnemonic::Clc => "clc"@,
            Mnemonic::Jsr => "jsr"@,
            Mnemonic::And => "and"@,
            Mnemonic::Rla => "rla"@,
            Mnemonic::Bit => "bit"@,
            Mnemonic::Rol => "rol"@,
            Mnemonic::Plp => "plp"@,
            Mnemonic::Ral => "ral"@,
            Mnemonic::Bmi => "bmi"@,
            Mnemonic::Sec => "sec"@,
            Mnemonic::Rti => "rti"@,
            Mnemonic::Eor => "eor"@,
            Mnemonic::Sre => "sre"@,
            Mnemonic::Lsr => "lsr"@,
            Mnemonic::Pha => "pha"@,
            Mnemonic::Sar => "sar"@,
            Mnemonic::Jmp => "jmp"@,
            Mnemonic::Bvc => "bvc"@,
            Mnemonic::Cli => "cli"@,
            Mnemonic::Rts => "rts"@,
            Mnemonic::Adc => "adc"@,
            Mnemonic::Rra => "rra"@,
            Mnemonic::Ror => "ror"@,
            Mnemonic::Pla => "pla"@,
            Mnemonic::Rar => "rar"@,
            Mnemonic::Bvs => "bvs"@,
            Mnemonic::Sei => "sei"@,
            Mnemonic::Sta => "sta"@,
            Mnemonic::Sax => "sax"@,
            Mnemonic::Sty => "sty"@,
            Mnemonic::Stx => "stx"@,
            Mnemonic::Dey => "dey"@,
            Mnemonic::Txa => "txa"@,
            Mnemonic::Bcc => "bcc"@,
            Mnemonic::Tya => "tya"@,
            Mnemonic::Txs => "txs"@,
            Mnemonic::Ldy => "ldy"@,
            Mnemonic::Lda => "lda"@,
            Mnemonic::Ldx => "ldx"@,
            Mnemonic::Lax => "lax"@,
            Mnemonic::Tay => "tay"@,
            Mnemonic::Tax => "tax"@,
            Mnemonic::Bcs => "bcs"@,
            Mnemonic::Clv => "clv"@,
            Mnemonic::Tsx => "tsx"@,
            Mnemonic::Cpy => "cpy"@,
            Mnemonic::Cmp => "cmp"@,
            Mnemonic::Dcp => "dcp"@,
            Mnemonic::Dec => "dec"@,
            Mnemonic::Iny => "iny"@,
            Mnemonic::Dex => "dex"@,
            Mnemonic::Bne => "bne"@,
            Mnemonic::Cld => "cld"@,
            Mnemonic::Cpx => "cpx"@,
            Mnemonic::Sbc => "sbc"@,
            Mnemonic::Isc => "isc"@,
            Mnemonic::Inc => "inc"@,
            Mnemonic::Inx => "inx"@,
            Mnemonic::Beq => "beq"@,
            Mnemonic::Sed => "sed"@,
        }
    }

    pub fn name(&self) -> (r: &'static str)
        ensures
            r@ == self.name_spec(),
    {
        match self {
            Mnemonic::Brk => "brk",
            Mnemonic::Ora => "ora",
            Mnemonic::Nop => "nop",
            Mnemonic::Slo => "slo",
            Mnemonic::Asl => "asl",
            Mnemonic::Php => "php",
            Mnemonic::Sal => "sal",
            Mnemonic::Bpl => "bpl",
            Mnemonic::Clc => "clc",
            Mnemonic::Jsr => "jsr",
            Mnemonic::And => "and",
            Mnemonic::Rla => "rla",
            Mnemonic::Bit => "bit",
            Mnemonic::Rol => "rol",
            Mnemonic::Plp => "plp",
            Mnemonic::Ral => "ral",
            Mnemonic::Bmi => "bmi",
            Mnemonic::Sec => "sec",
            Mnemonic::Rti => "rti",
            Mnemonic::Eor => "eor",
            Mnemonic::Sre => "sre",
            Mnemonic::Lsr => "lsr",
            Mnemonic::Pha => "pha",
            Mnemonic::Sar => "sar",
            Mnemonic::Jmp => "jmp",
            Mnemonic::Bvc => "bvc",
            Mnemonic::Cli => "cli",
            Mnemonic::Rts => "rts",
            Mnemonic::Adc => "adc",
            Mnemonic::Rra => "rra",
            Mnemonic::Ror => "ror",
            Mnemonic::Pla => "pla",
            Mnemonic::Rar => "rar",
            Mnemonic::Bvs => "bvs",
            Mnemonic::Sei => "sei",
            Mnemonic::Sta => "sta",
            Mnemonic::Sax => "sax",
            Mnemonic::Sty => "sty",
            Mnemonic::Stx => "stx",
            Mnemonic::Dey => "dey",
            Mnemonic::Txa => "txa",
            Mnemonic::Bcc => "bcc",
            Mnemonic::Tya => "tya",
            Mnemonic::Txs => "txs",
            Mnemonic::Ldy => "ldy",
            Mnemonic::Lda => "lda",
            Mnemonic::Ldx => "ldx",
            Mnemonic::Lax => "lax",
            Mnemonic::Tay => "tay",
            Mnemonic::Tax => "tax",
            Mnemonic::Bcs => "bcs",
            Mnemonic::Clv => "clv",
            Mnemonic::Tsx => "tsx",
            Mnemonic::Cpy => "cpy",
            Mnemonic::Cmp => "cmp",
            Mnemonic::Dcp => "dcp",
            Mnemonic::Dec => "dec",
            Mnemonic::Iny => "iny",
            Mnemonic::Dex => "dex",
            Mnemonic::Bne => "bne",
            Mnemonic::Cld => "cld",
            Mnemonic::Cpx => "cpx",
            Mnemonic::Sbc => "sbc",
            Mnemonic::Isc => "isc",
            Mnemonic::Inc => "inc",
            Mnemonic::Inx => "inx",
            Mnemonic::Beq => "beq",
            Mnemonic::Sed => "sed",
        }
    }
}

/// The opcode table. Branches take the relative mode, which computes the target, so that
/// every branch then acts as a jump to it.
pub open spec fn instruction_spec(opcode: u8) -> Instruction {
    match opcode {
        0x00 => entry(AddressingMode::Imp, Mnemonic::Brk, 7, false),
        0x01 => entry(AddressingMode::Idx, Mnemonic::Ora, 6, false),
        0x02 => entry(AddressingMode::Imp, Mnemonic::Nop, 2, false),
        0x03 => entry(AddressingMode::Idx, Mnemonic::Slo, 8, false),
        0x04 => entry(AddressingMode::Zpg, Mnemonic::Nop, 3, false),
        0x05 => entry(AddressingMode::Zpg, Mnemonic::Ora, 3, false),
        0x06 => entry(AddressingMode::Zpg, Mnemonic::Asl, 5, false),
        0x07 => entry(AddressingMode::Zpg, Mnemonic::Slo, 5, false),
        0x08 => entry(AddressingMode::Imp, Mnemonic::Php, 3, false),
        0x09 => entry(AddressingMode::Imm, Mnemonic::Ora, 2, false),
        0x0A => entry(AddressingMode::Imp, Mnemonic::Sal, 2, false),
        0x0B => entry(AddressingMode::Imp, Mnemonic::Nop, 2, false),
        0x0C => entry(AddressingMode::Abs, Mnemonic::Nop, 4, false),
        0x0D => entry(AddressingMode::Abs, Mnemonic::Ora, 4, false),
        0x0E => entry(AddressingMode::Abs, Mnemonic::Asl, 6, false),
        0x0F => entry(AddressingMode::Abs, Mnemonic::Slo, 6, false),
        0x10 => entry(AddressingMode::Rel, Mnemonic::Bpl, 2, true),
        0x11 => entry(AddressingMode::Idy, Mnemonic::Ora, 5, true),
        0x12 => entry(AddressingMode::Imp, Mnemonic::Nop, 2, false),
        0x13 => entry(AddressingMode::Idy, Mnemonic::Slo, 8, false),
        0x14 => entry(AddressingMode::Zpx, Mnemonic::Nop, 4, false),
        0x15 => entry(AddressingMode::Zpx, Mnemonic::Ora, 4, false),
        0x16 => entry(AddressingMode::Zpx, Mnemonic::Asl, 6, false),
        0x17 => entry(AddressingMode::Zpx, Mnemonic::Slo, 6, false),
        0x18 => entry(AddressingMode::Imp, Mnemonic::Clc, 2, false),
        0x19 => entry(AddressingMode::Aby, Mnemonic::Ora, 4, true),
        0x1A => entry(AddressingMode::Imp, Mnemonic::Nop, 2, false),
        0x1B => entry(AddressingMode::Aby, Mnemonic::Slo, 7, false),
        0x1C => entry(AddressingMode::Abx, Mnemonic::Nop, 4, true),
        0x1D => entry(AddressingMode::Abx, Mnemonic::Ora, 4, true),
        0x1E => entry(AddressingMode::Abx, Mnemonic::Asl, 7, false),
        0x1F => entry(AddressingMode::Abx, Mnemonic::Slo, 7, false),
        0x20 => entry(AddressingMode::Abs, Mnemonic::Jsr, 6, false),
        0x21 => entry(AddressingMode::Idx, Mnemonic::And, 6, false),
        0x22 => entry(AddressingMode::Imp, Mnemonic::Nop, 2, false),
        0x23 => entry(AddressingMode::Idx, Mnemonic::Rla, 8, false),
        0x24 => entry(AddressingMode::Zpg, Mnemonic::Bit, 3, false),
        0x25 => entry(AddressingMode::Zpg, Mnemonic::And, 3, false),
        0x26 => entry(AddressingMode::Zpg, Mnemonic::Rol, 5, false),
        0x27 => entry(AddressingMode::Zpg, Mnemonic::Rla, 5, false),
        0x28 => entry(AddressingMode::Imp, Mnemonic::Plp, 4, false),
        0x29 => entry(AddressingMode::Imm, Mnemonic::And, 2, false),
        0x2A => entry(AddressingMode::Imp, Mnemonic::Ral, 2, false),
        0x2B => entry(AddressingMode::Imp, Mnemonic::Nop, 2, false),
        0x2C => entry(AddressingMode::Abs, Mnemonic::Bit, 4, false),
        0x2D => entry(AddressingMode::Abs, Mnemonic::And, 4, false),
        0x2E => entry(AddressingMode::Abs, Mnemonic::Rol, 6, false),
        0x2F => entry(AddressingMode::Abs, Mnemonic::Rla, 6, false),
        0x30 => entry(AddressingMode::Rel, Mnemonic::Bmi, 2, true),
        0x31 => entry(AddressingMode::Idy, Mnemonic::And, 5, true),
        0x32 => entry(AddressingMode::Imp, Mnemonic::Nop, 2, false),
        0x33 => entry(AddressingMode::Idy, Mnemonic::Rla, 8, false),
        0x34 => entry(AddressingMode::Zpx, Mnemonic::Nop, 4, false),
        0x35 => entry(AddressingMode::Zpx, Mnemonic::And, 4, false),
        0x36 => entry(AddressingMode::Zpx, Mnemonic::Rol, 6, false),
        0x37 => entry(AddressingMode::Zpx, Mnemonic::Rla, 6, false),
        0x38 => entry(AddressingMode::Imp, Mnemonic::Sec, 2, false),
        0x39 => entry(AddressingMode::Aby, Mnemonic::And, 4, true),
        0x3A => entry(AddressingMode::Imp, Mnemonic::Nop, 2, false),
        0x3B => entry(AddressingMode::Aby, Mnemonic::Rla, 7, false),
        0x3C => entry(AddressingMode::Abx, Mnemonic::Nop, 4, true),
        0x3D => entry(AddressingMode::Abx, Mnemonic::And, 4, true),
        0x3E => entry(AddressingMode::Abx, Mnemonic::Rol, 7, false),
        0x3F => entry(AddressingMode::Abx, Mnemonic::Rla, 7, false),
        0x40 => entry(AddressingMode::Imp, Mnemonic::Rti, 6, false),
        0x41 => entry(AddressingMode::Idx, Mnemonic::Eor, 6, false),
        0x42 => entry(AddressingMode::Imp, Mnemonic::Nop, 2, false),
        0x43 => entry(AddressingMode::Idx, Mnemonic::Sre, 8, false),
        0x44 => entry(AddressingMode::Zpg, Mnemonic::Nop, 3, false),
        0x45 => entry(AddressingMode::Zpg, Mnemonic::Eor, 3, false),
        0x46 => entry(AddressingMode::Zpg, Mnemonic::Lsr, 5, false),
        0x47 => entry(AddressingMode::Zpg, Mnemonic::Sre, 5, false),
        0x48 => entry(AddressingMode::Imp, Mnemonic::Pha, 3, false),
        0x49 => entry(AddressingMode::Imm, Mnemonic::Eor, 2, false),
        0x4A => entry(AddressingMode::Imp, Mnemonic::Sar, 2, false),
        0x4B => entry(AddressingMode::Imp, Mnemonic::Nop, 2, false),
        0x4C => entry(AddressingMode::Abs, Mnemonic::Jmp, 3, false),
        0x4D => entry(AddressingMode::Abs, Mnemonic::Eor, 4, false),
        0x4E => entry(AddressingMode::Abs, Mnemonic::Lsr, 6, false),
        0x4F => entry(AddressingMode::Abs, Mnemonic::Sre, 6, false),
        0x50 => entry(AddressingMode::Rel, Mnemonic::Bvc, 2, true),
        0x51 => entry(AddressingMode::Idy, Mnemonic::Eor, 5, true),
        0x52 => entry(AddressingMode::Imp, Mnemonic::Nop, 2, false),
        0x53 => entry(AddressingMode::Idy, Mnemonic::Sre, 8, false),
        0x54 => entry(AddressingMode::Zpx, Mnemonic::Nop, 4, false),
        0x55 => entry(AddressingMode::Zpx, Mnemonic::Eor, 4, false),
        0x56 => entry(AddressingMode::Zpx, Mnemonic::Lsr, 6, false),
        0x57 => entry(AddressingMode::Zpx, Mnemonic::Sre, 6, false),
        0x58 => entry(AddressingMode::Imp, Mnemonic::Cli, 2, false),
        0x59 => entry(AddressingMode::Aby, Mnemonic::Eor, 4, true),
        0x5A => entry(AddressingMode::Imp, Mnemonic::Nop, 2, false),
        0x5B => entry(AddressingMode::Aby, Mnemonic::Sre, 7, false),
        0x5C => entry(AddressingMode::Abx, Mnemonic::Nop, 4, true),
        0x5D => entry(AddressingMode::Abx, Mnemonic::Eor, 4, true),
        0x5E => entry(AddressingMode::Abx, Mnemonic::Lsr, 7, false),
        0x5F => entry(AddressingMode::Abx, Mnemonic::Sre, 7, false),
        0x60 => entry(AddressingMode::Imp, Mnemonic::Rts, 6, false),
        0x61 => entry(AddressingMode::Idx, Mnemonic::Adc, 6, false),
        0x62 => entry(AddressingMode::Imp, Mnemonic::Nop, 2, false),
        0x63 => entry(AddressingMode::Idx, Mnemonic::Rra, 8, false),
        0x64 => entry(AddressingMode::Zpg, Mnemonic::Nop, 3, false),
        0x65 => entry(AddressingMode::Zpg, Mnemonic::Adc, 3, false),
        0x66 => entry(AddressingMode::Zpg, Mnemonic::Ror, 5, false),
        0x67 => entry(AddressingMode::Zpg, Mnemonic::Rra, 5, false),
        0x68 => entry(AddressingMode::Imp, Mnemonic::Pla, 4, false),
        0x69 => entry(AddressingMode::Imm, Mnemonic::Adc, 2, false),
        0x6A => entry(AddressingMode::Imp, Mnemonic::Rar, 2, false),
        0x6B => entry(AddressingMode::Imp, Mnemonic::Nop, 2, false),
        0x6C => entry(AddressingMode::Ind, Mnemonic::Jmp, 5, false),
        0x6D => entry(AddressingMode::Abs, Mnemonic::Adc, 4, false),
        0x6E => entry(AddressingMode::Abs, Mnemonic::Ror, 6, false),
        0x6F => entry(AddressingMode::Abs, Mnemonic::Rra, 6, false),
        0x70 => entry(AddressingMode::Rel, Mnemonic::Bvs, 2, true),
        0x71 => entry(AddressingMode::Idy, Mnemonic::Adc, 5, true),
        0x72 => entry(AddressingMode::Imp, Mnemonic::Nop, 2, false),
        0x73 => entry(AddressingMode::Idy, Mnemonic::Rra, 8, false),
        0x74 => entry(AddressingMode::Zpx, Mnemonic::Nop, 4, false),
        0x75 => entry(AddressingMode::Zpx, Mnemonic::Adc, 4, false),
        0x76 => entry(AddressingMode::Zpx, Mnemonic::Ror, 6, false),
        0x77 => entry(AddressingMode::Zpx, Mnemonic::Rra, 6, false),
        0x78 => entry(AddressingMode::Imp, Mnemonic::Sei, 2, false),
        0x79 => entry(AddressingMode::Aby, Mnemonic::Adc, 4, true),
        0x7A => entry(AddressingMode::Imp, Mnemonic::Nop, 2, false),
        0x7B => entry(AddressingMode::Aby, Mnemonic::Rra, 7, false),
        0x7C => entry(AddressingMode::Abx, Mnemonic::Nop, 4, true),
        0x7D => entry(AddressingMode::Abx, Mnemonic::Adc, 4, true),
        0x7E => entry(AddressingMode::Abx, Mnemonic::Ror, 7, false),
        0x7F => entry(AddressingMode::Abx, Mnemonic::Rra, 7, false),
        0x80 => entry(AddressingMode::Imm, Mnemonic::Nop, 2, false),
        0x81 => entry(AddressingMode::Idx, Mnemonic::Sta, 6, false),
        0x82 => entry(AddressingMode::Imm, Mnemonic::Nop, 2, false),
        0x83 => entry(AddressingMode::Idx, Mnemonic::Sax, 6, false),
        0x84 => entry(AddressingMode::Zpg, Mnemonic::Sty, 3, false),
        0x85 => entry(AddressingMode::Zpg, Mnemonic::Sta, 3, false),
        0x86 => entry(AddressingMode::Zpg, Mnemonic::Stx, 3, false),
        0x87 => entry(AddressingMode::Zpg, Mnemonic::Sax, 3, false),
        0x88 => entry(AddressingMode::Imp, Mnemonic::Dey, 2, false),
        0x89 => entry(AddressingMode::Imm, Mnemonic::Nop, 2, false),
        0x8A => entry(AddressingMode::Imp, Mnemonic::Txa, 2, false),
        0x8B => entry(AddressingMode::Imp, Mnemonic::Nop, 2, false),
        0x8C => entry(AddressingMode::Abs, Mnemonic::Sty, 4, false),
        0x8D => entry(AddressingMode::Abs, Mnemonic::Sta, 4, false),
        0x8E => entry(AddressingMode::Abs, Mnemonic::Stx, 4, false),
        0x8F => entry(AddressingMode::Abs, Mnemonic::Sax, 4, false),
        0x90 => entry(AddressingMode::Rel, Mnemonic::Bcc, 2, true),
        0x91 => entry(AddressingMode::Idy, Mnemonic::Sta, 6, false),
        0x92 => entry(AddressingMode::Imp, Mnemonic::Nop, 2, false),
        0x93 => entry(AddressingMode::Imp, Mnemonic::Nop, 2, false),
        0x94 => entry(AddressingMode::Zpx, Mnemonic::Sty, 4, false),
        0x95 => entry(AddressingMode::Zpx, Mnemonic::Sta, 4, false),
        0x96 => entry(AddressingMode::Zpy, Mnemonic::Stx, 4, false),
        0x97 => entry(AddressingMode::Zpy, Mnemonic::Sax, 4, false),
        0x98 => entry(AddressingMode::Imp, Mnemonic::Tya, 2, false),
        0x99 => entry(AddressingMode::Aby, Mnemonic::Sta, 5, false),
        0x9A => entry(AddressingMode::Imp, Mnemonic::Txs, 2, false),
        0x9B => entry(AddressingMode::Imp, Mnemonic::Nop, 2, false),
        0x9C => entry(AddressingMode::Imp, Mnemonic::Nop, 2, false),
        0x9D => entry(AddressingMode::Abx, Mnemonic::Sta, 5, false),
        0x9E => entry(AddressingMode::Imp, Mnemonic::Nop, 2, false),
        0x9F => entry(AddressingMode::Imp, Mnemonic::Nop, 2, false),
        0xA0 => entry(AddressingMode::Imm, Mnemonic::Ldy, 2, false),
        0xA1 => entry(AddressingMode::Idx, Mnemonic::Lda, 6, false),
        0xA2 => entry(AddressingMode::Imm, Mnemonic::Ldx, 2, false),
        0xA3 => entry(AddressingMode::Idx, Mnemonic::Lax, 6, false),
        0xA4 => entry(AddressingMode::Zpg, Mnemonic::Ldy, 3, false),
        0xA5 => entry(AddressingMode::Zpg, Mnemonic::Lda, 3, false),
        0xA6 => entry(AddressingMode::Zpg, Mnemonic::Ldx, 3, false),
        0xA7 => entry(AddressingMode::Zpg, Mnemonic::Lax, 3, false),
        0xA8 => entry(AddressingMode::Imp, Mnemonic::Tay, 2, false),
        0xA9 => entry(AddressingMode::Imm, Mnemonic::Lda, 2, false),
        0xAA => entry(AddressingMode::Imp, Mnemonic::Tax, 2, false),
        0xAB => entry(AddressingMode::Imm, Mnemonic::Lax, 2, false),
        0xAC => entry(AddressingMode::Abs, Mnemonic::Ldy, 4, false),
        0xAD => entry(AddressingMode::Abs, Mnemonic::Lda, 4, false),
        0xAE => entry(AddressingMode::Abs, Mnemonic::Ldx, 4, false),
        0xAF => entry(AddressingMode::Abs, Mnemonic::Lax, 4, false),
        0xB0 => entry(AddressingMode::Rel, Mnemonic::Bcs, 2, true),
        0xB1 => entry(AddressingMode::Idy, Mnemonic::Lda, 5, true),
        0xB2 => entry(AddressingMode::Imp, Mnemonic::Nop, 2, false),
        0xB3 => entry(AddressingMode::Idy, Mnemonic::Lax, 5, true),
        0xB4 => entry(AddressingMode::Zpx, Mnemonic::Ldy, 4, false),
        0xB5 => entry(AddressingMode::Zpx, Mnemonic::Lda, 4, false),
        0xB6 => entry(AddressingMode::Zpy, Mnemonic::Ldx, 4, false),
        0xB7 => entry(AddressingMode::Zpy, Mnemonic::Lax, 4, false),
        0xB8 => entry(AddressingMode::Imp, Mnemonic::Clv, 2, false),
        0xB9 => entry(AddressingMode::Aby, Mnemonic::Lda, 4, true),
        0xBA => entry(AddressingMode::Imp, Mnemonic::Tsx, 2, false),
        0xBB => entry(AddressingMode::Imp, Mnemonic::Nop, 2, false),
        0xBC => entry(AddressingMode::Abx, Mnemonic::Ldy, 4, true),
        0xBD => entry(AddressingMode::Abx, Mnemonic::Lda, 4, true),
        0xBE => entry(AddressingMode::Aby, Mnemonic::Ldx, 4, true),
        0xBF => entry(AddressingMode::Aby, Mnemonic::Lax, 4, true),
        0xC0 => entry(AddressingMode::Imm, Mnemonic::Cpy, 2, false),
        0xC1 => entry(AddressingMode::Idx, Mnemonic::Cmp, 6, false),
        0xC2 => entry(AddressingMode::Imm, Mnemonic::Nop, 2, false),
        0xC3 => entry(AddressingMode::Idx, Mnemonic::Dcp, 8, false),
        0xC4 => entry(AddressingMode::Zpg, Mnemonic::Cpy, 3, false),
        0xC5 => entry(AddressingMode::Zpg, Mnemonic::Cmp, 3, false),
        0xC6 => entry(AddressingMode::Zpg, Mnemonic::Dec, 5, false),
        0xC7 => entry(AddressingMode::Zpg, Mnemonic::Dcp, 5, false),
        0xC8 => entry(AddressingMode::Imp, Mnemonic::Iny, 2, false),
        0xC9 => entry(AddressingMode::Imm, Mnemonic::Cmp, 2, false),
        0xCA => entry(AddressingMode::Imp, Mnemonic::Dex, 2, false),
        0xCB => entry(AddressingMode::Imp, Mnemonic::Nop, 2, false),
        0xCC => entry(AddressingMode::Abs, Mnemonic::Cpy, 4, false),
        0xCD => entry(AddressingMode::Abs, Mnemonic::Cmp, 4, false),
        0xCE => entry(AddressingMode::Abs, Mnemonic::Dec, 6, false),
        0xCF => entry(AddressingMode::Abs, Mnemonic::Dcp, 6, false),
        0xD0 => entry(AddressingMode::Rel, Mnemonic::Bne, 2, true),
        0xD1 => entry(AddressingMode::Idy, Mnemonic::Cmp, 5, true),
        0xD2 => entry(AddressingMode::Imp, Mnemonic::Nop, 2, false),
        0xD3 => entry(AddressingMode::Idy, Mnemonic::Dcp, 8, false),
        0xD4 => entry(AddressingMode::Zpx, Mnemonic::Nop, 4, false),
        0xD5 => entry(AddressingMode::Zpx, Mnemonic::Cmp, 4, false),
        0xD6 => entry(AddressingMode::Zpx, Mnemonic::Dec, 6, false),
        0xD7 => entry(AddressingMode::Zpx, Mnemonic::Dcp, 6, false),
        0xD8 => entry(AddressingMode::Imp, Mnemonic::Cld, 2, false),
        0xD9 => entry(AddressingMode::Aby, Mnemonic::Cmp, 4, true),
        0xDA => entry(AddressingMode::Imp, Mnemonic::Nop, 2, false),
        0xDB => entry(AddressingMode::Aby, Mnemonic::Dcp, 7, false),
        0xDC => entry(AddressingMode::Abx, Mnemonic::Nop, 4, true),
        0xDD => entry(AddressingMode::Abx, Mnemonic::Cmp, 4, true),
        0xDE => entry(AddressingMode::Abx, Mnemonic::Dec, 7, false),
        0xDF => entry(AddressingMode::Abx, Mnemonic::Dcp, 7, false),
        0xE0 => entry(AddressingMode::Imm, Mnemonic::Cpx, 2, false),
        0xE1 => entry(AddressingMode::Idx, Mnemonic::Sbc, 6, false),
        0xE2 => entry(AddressingMode::Imm, Mnemonic::Nop, 2, false),
        0xE3 => entry(AddressingMode::Idx, Mnemonic::Isc, 8, false),
        0xE4 => entry(AddressingMode::Zpg, Mnemonic::Cpx, 3, false),
        0xE5 => entry(AddressingMode::Zpg, Mnemonic::Sbc, 3, false),
        0xE6 => entry(AddressingMode::Zpg, Mnemonic::Inc, 5, false),
        0xE7 => entry(AddressingMode::Zpg, Mnemonic::Isc, 5, false),
        0xE8 => entry(AddressingMode::Imp, Mnemonic::Inx, 2, false),
        0xE9 => entry(AddressingMode::Imm, Mnemonic::Sbc, 2, false),
        0xEA => entry(AddressingMode::Imp, Mnemonic::Nop, 2, false),
        0xEB => entry(AddressingMode::Imm, Mnemonic::Sbc, 2, false),
        0xEC => entry(AddressingMode::Abs, Mnemonic::Cpx, 4, false),
        0xED => entry(AddressingMode::Abs, Mnemonic::Sbc, 4, false),
        0xEE => entry(AddressingMode::Abs, Mnemonic::Inc, 6, false),
        0xEF => entry(AddressingMode::Abs, Mnemonic::Isc, 6, false),
        0xF0 => entry(AddressingMode::Rel, Mnemonic::Beq, 2, true),
        0xF1 => entry(AddressingMode::Idy, Mnemonic::Sbc, 5, true),
        0xF2 => entry(AddressingMode::Imp, Mnemonic::Nop, 2, false),
        0xF3 => entry(AddressingMode::Idy, Mnemonic::Isc, 8, false),
        0xF4 => entry(AddressingMode::Zpx, Mnemonic::Nop, 4, false),
        0xF5 => entry(AddressingMode::Zpx, Mnemonic::Sbc, 4, false),
        0xF6 => entry(AddressingMode::Zpx, Mnemonic::Inc, 6, false),
        0xF7 => entry(AddressingMode::Zpx, Mnemonic::Isc, 6, false),
        0xF8 => entry(AddressingMode::Imp, Mnemonic::Sed, 2, false),
        0xF9 => entry(AddressingMode::Aby, Mnemonic::Sbc, 4, true),
        0xFA => entry(AddressingMode::Imp, Mnemonic::Nop, 2, false),
        0xFB => entry(AddressingMode::Aby, Mnemonic::Isc, 7, false),
        0xFC => entry(AddressingMode::Abx, Mnemonic::Nop, 4, true),
        0xFD => entry(AddressingMode::Abx, Mnemonic::Sbc, 4, true),
        0xFE => entry(AddressingMode::Abx, Mnemonic::Inc, 7, false),
        0xFF => entry(AddressingMode::Abx, Mnemonic::Isc, 7, false),
    }
}

/// Row 0x0_ of the opcode table.
fn row_0(low: u8) -> (r: Instruction)
    requires
        low < 16,
    ensures
        r == instruction_spec((0x00 + low) as u8),
        2 <= r.cycles <= 8,
{
    match low {
        0 => make(AddressingMode::Imp, Mnemonic::Brk, 7, false),
        1 => make(AddressingMode::Idx, Mnemonic::Ora, 6, false),
        2 => make(AddressingMode::Imp, Mnemonic::Nop, 2, false),
        3 => make(AddressingMode::Idx, Mnemonic::Slo, 8, false),
        4 => make(AddressingMode::Zpg, Mnemonic::Nop, 3, false),
        5 => make(AddressingMode::Zpg, Mnemonic::Ora, 3, false),
        6 => make(AddressingMode::Zpg, Mnemonic::Asl, 5, false),
        7 => make(AddressingMode::Zpg, Mnemonic::Slo, 5, false),
        8 => make(AddressingMode::Imp, Mnemonic::Php, 3, false),
        9 => make(AddressingMode::Imm, Mnemonic::Ora, 2, false),
        10 => make(AddressingMode::Imp, Mnemonic::Sal, 2, false),
        11 => make(AddressingMode::Imp, Mnemonic::Nop, 2, false),
        12 => make(AddressingMode::Abs, Mnemonic::Nop, 4, false),
        13 => make(AddressingMode::Abs, Mnemonic::Ora, 4, false),
        14 => make(AddressingMode::Abs, Mnemonic::Asl, 6, false),
        15 => make(AddressingMode::Abs, Mnemonic::Slo, 6, false),
        _ => make(AddressingMode::Imp, Mnemonic::Nop, 2, false),
    }
}

/// Row 0x1_ of the opcode table.
fn row_1(low: u8) -> (r: Instruction)
    requires
        low < 16,
    ensures
        r == instruction_spec((0x10 + low) as u8),
        2 <= r.cycles <= 8,
{
    match low {
        0 => make(AddressingMode::Rel, Mnemonic::Bpl, 2, true),
        1 => make(AddressingMode::Idy, Mnemonic::Ora, 5, true),
        2 => make(AddressingMode::Imp, Mnemonic::Nop, 2, false),
        3 => make(AddressingMode::Idy, Mnemonic::Slo, 8, false),
        4 => make(AddressingMode::Zpx, Mnemonic::Nop, 4, false),
        5 => make(AddressingMode::Zpx, Mnemonic::Ora, 4, false),
        6 => make(AddressingMode::Zpx, Mnemonic::Asl, 6, false),
        7 => make(AddressingMode::Zpx, Mnemonic::Slo, 6, false),
        8 => make(AddressingMode::Imp, Mnemonic::Clc, 2, false),
        9 => make(AddressingMode::Aby, Mnemonic::Ora, 4, true),
        10 => make(AddressingMode::Imp, Mnemonic::Nop, 2, false),
        11 => make(AddressingMode::Aby, Mnemonic::Slo, 7, false),
        12 => make(AddressingMode::Abx, Mnemonic::Nop, 4, true),
        13 => make(AddressingMode::Abx, Mnemonic::Ora, 4, true),
        14 => make(AddressingMode::Abx, Mnemonic::Asl, 7, false),
        15 => make(AddressingMode::Abx, Mnemonic::Slo, 7, false),
        _ => make(AddressingMode::Imp, Mnemonic::Nop, 2, false),
    }
}

/// Row 0x2_ of the opcode table.
fn row_2(low: u8) -> (r: Instruction)
    requires
        low < 16,
    ensures
        r == instruction_spec((0x20 + low) as u8),
        2 <= r.cycles <= 8,
{
    match low {
        0 => make(AddressingMode::Abs, Mnemonic::Jsr, 6, false),
        1 => make(AddressingMode::Idx, Mnemonic::And, 6, false),
        2 => make(AddressingMode::Imp, Mnemonic::Nop, 2, false),
        3 => make(AddressingMode::Idx, Mnemonic::Rla, 8, false),
        4 => make(AddressingMode::Zpg, Mnemonic::Bit, 3, false),
        5 => make(AddressingMode::Zpg, Mnemonic::And, 3, false),
        6 => make(AddressingMode::Zpg, Mnemonic::Rol, 5, false),
        7 => make(AddressingMode::Zpg, Mnemonic::Rla, 5, false),
        8 => make(AddressingMode::Imp, Mnemonic::Plp, 4, false),
        9 => make(AddressingMode::Imm, Mnemonic::And, 2, false),
        10 => make(AddressingMode::Imp, Mnemonic::Ral, 2, false),
        11 => make(AddressingMode::Imp, Mnemonic::Nop, 2, false),
        12 => make(AddressingMode::Abs, Mnemonic::Bit, 4, false),
        13 => make(AddressingMode::Abs, Mnemonic::And, 4, false),
        14 => make(AddressingMode::Abs, Mnemonic::Rol, 6, false),
        15 => make(AddressingMode::Abs, Mnemonic::Rla, 6, false),
        _ => make(AddressingMode::Imp, Mnemonic::Nop, 2, false),
    }
}

/// Row 0x3_ of the opcode table.
fn row_3(low: u8) -> (r: Instruction)
    requires
        low < 16,
    ensures
        r == instruction_spec((0x30 + low) as u8),
        2 <= r.cycles <= 8,
{
    match low {
        0 => make(AddressingMode::Rel, Mnemonic::Bmi, 2, true),
        1 => make(AddressingMode::Idy, Mnemonic::And, 5, true),
        2 => make(AddressingMode::Imp, Mnemonic::Nop, 2, false),
        3 => make(AddressingMode::Idy, Mnemonic::Rla, 8, false),
        4 => make(AddressingMode::Zpx, Mnemonic::Nop, 4, false),
        5 => make(AddressingMode::Zpx, Mnemonic::And, 4, false),
        6 => make(AddressingMode::Zpx, Mnemonic::Rol, 6, false),
        7 => make(AddressingMode::Zpx, Mnemonic::Rla, 6, false),
        8 => make(AddressingMode::Imp, Mnemonic::Sec, 2, false),
        9 => make(AddressingMode::Aby, Mnemonic::And, 4, true),
        10 => make(AddressingMode::Imp, Mnemonic::Nop, 2, false),
        11 => make(AddressingMode::Aby, Mnemonic::Rla, 7, false),
        12 => make(AddressingMode::Abx, Mnemonic::Nop, 4, true),
        13 => make(AddressingMode::Abx, Mnemonic::And, 4, true),
        14 => make(AddressingMode::Abx, Mnemonic::Rol, 7, false),
        15 => make(AddressingMode::Abx, Mnemonic::Rla, 7, false),
        _ => make(AddressingMode::Imp, Mnemonic::Nop, 2, false),
    }
}

/// Row 0x4_ of the opcode table.
fn row_4(low: u8) -> (r: Instruction)
    requires
        low < 16,
    ensures
        r == instruction_spec((0x40 + low) as u8),
        2 <= r.cycles <= 8,
{
    match low {
        0 => make(AddressingMode::Imp, Mnemonic::Rti, 6, false),
        1 => make(AddressingMode::Idx, Mnemonic::Eor, 6, false),
        2 => make(AddressingMode::Imp, Mnemonic::Nop, 2, false),
        3 => make(AddressingMode::Idx, Mnemonic::Sre, 8, false),
        4 => make(AddressingMode::Zpg, Mnemonic::Nop, 3, false),
        5 => make(AddressingMode::Zpg, Mnemonic::Eor, 3, false),
        6 => make(AddressingMode::Zpg, Mnemonic::Lsr, 5, false),
        7 => make(AddressingMode::Zpg, Mnemonic::Sre, 5, false),
        8 => make(AddressingMode::Imp, Mnemonic::Pha, 3, false),
        9 => make(AddressingMode::Imm, Mnemonic::Eor, 2, false),
        10 => make(AddressingMode::Imp, Mnemonic::Sar, 2, false),
        11 => make(AddressingMode::Imp, Mnemonic::Nop, 2, false),
        12 => make(AddressingMode::Abs, Mnemonic::Jmp, 3, false),
        13 => make(AddressingMode::Abs, Mnemonic::Eor, 4, false),
        14 => make(AddressingMode::Abs, Mnemonic::Lsr, 6, false),
        15 => make(AddressingMode::Abs, Mnemonic::Sre, 6, false),
        _ => make(AddressingMode::Imp, Mnemonic::Nop, 2, false),
    }
}

/// Row 0x5_ of the opcode table.
fn row_5(low: u8) -> (r: Instruction)
    requires
        low < 16,
    ensures
        r == instruction_spec((0x50 + low) as u8),
        2 <= r.cycles <= 8,
{
    match low {
        0 => make(AddressingMode::Rel, Mnemonic::Bvc, 2, true),
        1 => make(AddressingMode::Idy, Mnemonic::Eor, 5, true),
        2 => make(AddressingMode::Imp, Mnemonic::Nop, 2, false),
        3 => make(AddressingMode::Idy, Mnemonic::Sre, 8, false),
        4 => make(AddressingMode::Zpx, Mnemonic::Nop, 4, false),
        5 => make(AddressingMode::Zpx, Mnemonic::Eor, 4, false),
        6 => make(AddressingMode::Zpx, Mnemonic::Lsr, 6, false),
        7 => make(AddressingMode::Zpx, Mnemonic::Sre, 6, false),
        8 => make(AddressingMode::Imp, Mnemonic::Cli, 2, false),
        9 => make(AddressingMode::Aby, Mnemonic::Eor, 4, true),
        10 => make(AddressingMode::Imp, Mnemonic::Nop, 2, false),
        11 => make(AddressingMode::Aby, Mnemonic::Sre, 7, false),
        12 => make(AddressingMode::Abx, Mnemonic::Nop, 4, true),
        13 => make(AddressingMode::Abx, Mnemonic::Eor, 4, true),
        14 => make(AddressingMode::Abx, Mnemonic::Lsr, 7, false),
        15 => make(AddressingMode::Abx, Mnemonic::Sre, 7, false),
        _ => make(AddressingMode::Imp, Mnemonic::Nop, 2, false),
    }
}

/// Row 0x6_ of the opcode table.
fn row_6(low: u8) -> (r: Instruction)
    requires
        low < 16,
    ensures
        r == instruction_spec((0x60 + low) as u8),
        2 <= r.cycles <= 8,
{
    match low {
        0 => make(AddressingMode::Imp, Mnemonic::Rts, 6, false),
        1 => make(AddressingMode::Idx, Mnemonic::Adc, 6, false),
        2 => make(AddressingMode::Imp, Mnemonic::Nop, 2, false),
        3 => make(AddressingMode::Idx, Mnemonic::Rra, 8, false),
        4 => make(AddressingMode::Zpg, Mnemonic::Nop, 3, false),
        5 => make(AddressingMode::Zpg, Mnemonic::Adc, 3, false),
        6 => make(AddressingMode::Zpg, Mnemonic::Ror, 5, false),
        7 => make(AddressingMode::Zpg, Mnemonic::Rra, 5, false),
        8 => make(AddressingMode::Imp, Mnemonic::Pla, 4, false),
        9 => make(AddressingMode::Imm, Mnemonic::Adc, 2, false),
        10 => make(AddressingMode::Imp, Mnemonic::Rar, 2, false),
        11 => make(AddressingMode::Imp, Mnemonic::Nop, 2, false),
        12 => make(AddressingMode::Ind, Mnemonic::Jmp, 5, false),
        13 => make(AddressingMode::Abs, Mnemonic::Adc, 4, false),
        14 => make(AddressingMode::Abs, Mnemonic::Ror, 6, false),
        15 => make(AddressingMode::Abs, Mnemonic::Rra, 6, false),
        _ => make(AddressingMode::Imp, Mnemonic::Nop, 2, false),
    }
}

/// Row 0x7_ of the opcode table.
fn row_7(low: u8) -> (r: Instruction)
    requires
        low < 16,
    ensures
        r == instruction_spec((0x70 + low) as u8),
        2 <= r.cycles <= 8,
{
    match low {
        0 => make(AddressingMode::Rel, Mnemonic::Bvs, 2, true),
        1 => make(AddressingMode::Idy, Mnemonic::Adc, 5, true),
        2 => make(AddressingMode::Imp, Mnemonic::Nop, 2, false),
        3 => make(AddressingMode::Idy, Mnemonic::Rra, 8, false),
        4 => make(AddressingMode::Zpx, Mnemonic::Nop, 4, false),
        5 => make(AddressingMode::Zpx, Mnemonic::Adc, 4, false),
        6 => make(AddressingMode::Zpx, Mnemonic::Ror, 6, false),
        7 => make(AddressingMode::Zpx, Mnemonic::Rra, 6, false),
        8 => make(AddressingMode::Imp, Mnemonic::Sei, 2, false),
        9 => make(AddressingMode::Aby, Mnemonic::Adc, 4, true),
        10 => make(AddressingMode::Imp, Mnemonic::Nop, 2, false),
        11 => make(AddressingMode::Aby, Mnemonic::Rra, 7, false),
        12 => make(AddressingMode::Abx, Mnemonic::Nop, 4, true),
        13 => make(AddressingMode::Abx, Mnemonic::Adc, 4, true),
        14 => make(AddressingMode::Abx, Mnemonic::Ror, 7, false),
        15 => make(AddressingMode::Abx, Mnemonic::Rra, 7, false),
        _ => make(AddressingMode::Imp, Mnemonic::Nop, 2, false),
    }
}

/// Row 0x8_ of the opcode table.
fn row_8(low: u8) -> (r: Instruction)
    requires
        low < 16,
    ensures
        r == instruction_spec((0x80 + low) as u8),
        2 <= r.cycles <= 8,
{
    match low {
        0 => make(AddressingMode::Imm, Mnemonic::Nop, 2, false),
        1 => make(AddressingMode::Idx, Mnemonic::Sta, 6, false),
        2 => make(AddressingMode::Imm, Mnemonic::Nop, 2, false),
        3 => make(AddressingMode::Idx, Mnemonic::Sax, 6, false),
        4 => make(AddressingMode::Zpg, Mnemonic::Sty, 3, false),
        5 => make(AddressingMode::Zpg, Mnemonic::Sta, 3, false),
        6 => make(AddressingMode::Zpg, Mnemonic::Stx, 3, false),
        7 => make(AddressingMode::Zpg, Mnemonic::Sax, 3, false),
        8 => make(AddressingMode::Imp, Mnemonic::Dey, 2, false),
        9 => make(AddressingMode::Imm, Mnemonic::Nop, 2, false),
        10 => make(AddressingMode::Imp, Mnemonic::Txa, 2, false),
        11 => make(AddressingMode::Imp, Mnemonic::Nop, 2, false),
        12 => make(AddressingMode::Abs, Mnemonic::Sty, 4, false),
        13 => make(AddressingMode::Abs, Mnemonic::Sta, 4, false),
        14 => make(AddressingMode::Abs, Mnemonic::Stx, 4, false),
        15 => make(AddressingMode::Abs, Mnemonic::Sax, 4, false),
        _ => make(AddressingMode::Imp, Mnemonic::Nop, 2, false),
    }
}

/// Row 0x9_ of the opcode table.
fn row_9(low: u8) -> (r: Instruction)
    requires
        low < 16,
    ensures
        r == instruction_spec((0x90 + low) as u8),
        2 <= r.cycles <= 8,
{
    match low {
        0 => make(AddressingMode::Rel, Mnemonic::Bcc, 2, true),
        1 => make(AddressingMode::Idy, Mnemonic::Sta, 6, false),
        2 => make(AddressingMode::Imp, Mnemonic::Nop, 2, false),
        3 => make(AddressingMode::Imp, Mnemonic::Nop, 2, false),
        4 => make(AddressingMode::Zpx, Mnemonic::Sty, 4, false),
        5 => make(AddressingMode::Zpx, Mnemonic::Sta, 4, false),
        6 => make(AddressingMode::Zpy, Mnemonic::Stx, 4, false),
        7 => make(AddressingMode::Zpy, Mnemonic::Sax, 4, false),
        8 => make(AddressingMode::Imp, Mnemonic::Tya, 2, false),
        9 => make(AddressingMode::Aby, Mnemonic::Sta, 5, false),
        10 => make(AddressingMode::Imp, Mnemonic::Txs, 2, false),
        11 => make(AddressingMode::Imp, Mnemonic::Nop, 2, false),
        12 => make(AddressingMode::Imp, Mnemonic::Nop, 2, false),
        13 => make(AddressingMode::Abx, Mnemonic::Sta, 5, false),
        14 => make(AddressingMode::Imp, Mnemonic::Nop, 2, false),
        15 => make(AddressingMode::Imp, Mnemonic::Nop, 2, false),
        _ => make(AddressingMode::Imp, Mnemonic::Nop, 2, false),
    }
}

/// Row 0xA_ of the opcode table.
fn row_a(low: u8) -> (r: Instruction)
    requires
        low < 16,
    ensures
        r == instruction_spec((0xA0 + low) as u8),
        2 <= r.cycles <= 8,
{
    match low {
        0 => make(AddressingMode::Imm, Mnemonic::Ldy, 2, false),
        1 => make(AddressingMode::Idx, Mnemonic::Lda, 6, false),
        2 => make(AddressingMode::Imm, Mnemonic::Ldx, 2, false),
        3 => make(AddressingMode::Idx, Mnemonic::Lax, 6, false),
        4 => make(AddressingMode::Zpg, Mnemonic::Ldy, 3, false),
        5 => make(AddressingMode::Zpg, Mnemonic::Lda, 3, false),
        6 => make(AddressingMode::Zpg, Mnemonic::Ldx, 3, false),
        7 => make(AddressingMode::Zpg, Mnemonic::Lax, 3, false),
        8 => make(AddressingMode::Imp, Mnemonic::Tay, 2, false),
        9 => make(AddressingMode::Imm, Mnemonic::Lda, 2, false),
        10 => make(AddressingMode::Imp, Mnemonic::Tax, 2, false),
        11 => make(AddressingMode::Imm, Mnemonic::Lax, 2, false),
        12 => make(AddressingMode::Abs, Mnemonic::Ldy, 4, false),
        13 => make(AddressingMode::Abs, Mnemonic::Lda, 4, false),
        14 => make(AddressingMode::Abs, Mnemonic::Ldx, 4, false),
        15 => make(AddressingMode::Abs, Mnemonic::Lax, 4, false),
        _ => make(AddressingMode::Imp, Mnemonic::Nop, 2, false),
    }
}

/// Row 0xB_ of the opcode table.
fn row_b(low: u8) -> (r: Instruction)
    requires
        low < 16,
    ensures
        r == instruction_spec((0xB0 + low) as u8),
        2 <= r.cycles <= 8,
{
    match low {
        0 => make(AddressingMode::Rel, Mnemonic::Bcs, 2, true),
        1 => make(AddressingMode::Idy, Mnemonic::Lda, 5, true),
        2 => make(AddressingMode::Imp, Mnemonic::Nop, 2, false),
        3 => make(AddressingMode::Idy, Mnemonic::Lax, 5, true),
        4 => make(AddressingMode::Zpx, Mnemonic::Ldy, 4, false),
        5 => make(AddressingMode::Zpx, Mnemonic::Lda, 4, false),
        6 => make(AddressingMode::Zpy, Mnemonic::Ldx, 4, false),
        7 => make(AddressingMode::Zpy, Mnemonic::Lax, 4, false),
        8 => make(AddressingMode::Imp, Mnemonic::Clv, 2, false),
        9 => make(AddressingMode::Aby, Mnemonic::Lda, 4, true),
        10 => make(AddressingMode::Imp, Mnemonic::Tsx, 2, false),
        11 => make(AddressingMode::Imp, Mnemonic::Nop, 2, false),
        12 => make(AddressingMode::Abx, Mnemonic::Ldy, 4, true),
        13 => make(AddressingMode::Abx, Mnemonic::Lda, 4, true),
        14 => make(AddressingMode::Aby, Mnemonic::Ldx, 4, true),
        15 => make(AddressingMode::Aby, Mnemonic::Lax, 4, true),
        _ => make(AddressingMode::Imp, Mnemonic::Nop, 2, false),
    }
}

/// Row 0xC_ of the opcode table.
fn row_c(low: u8) -> (r: Instruction)
    requires
        low < 16,
    ensures
        r == instruction_spec((0xC0 + low) as u8),
        2 <= r.cycles <= 8,
{
    match low {
        0 => make(AddressingMode::Imm, Mnemonic::Cpy, 2, false),
        1 => make(AddressingMode::Idx, Mnemonic::Cmp, 6, false),
        2 => make(AddressingMode::Imm, Mnemonic::Nop, 2, false),
        3 => make(AddressingMode::Idx, Mnemonic::Dcp, 8, false),
        4 => make(AddressingMode::Zpg, Mnemonic::Cpy, 3, false),
        5 => make(AddressingMode::Zpg, Mnemonic::Cmp, 3, false),
        6 => make(AddressingMode::Zpg, Mnemonic::Dec, 5, false),
        7 => make(AddressingMode::Zpg, Mnemonic::Dcp, 5, false),
        8 => make(AddressingMode::Imp, Mnemonic::Iny, 2, false),
        9 => make(AddressingMode::Imm, Mnemonic::Cmp, 2, false),
        10 => make(AddressingMode::Imp, Mnemonic::Dex, 2, false),
        11 => make(AddressingMode::Imp, Mnemonic::Nop, 2, false),
        12 => make(AddressingMode::Abs, Mnemonic::Cpy, 4, false),
        13 => make(AddressingMode::Abs, Mnemonic::Cmp, 4, false),
        14 => make(AddressingMode::Abs, Mnemonic::Dec, 6, false),
        15 => make(AddressingMode::Abs, Mnemonic::Dcp, 6, false),
        _ => make(AddressingMode::Imp, Mnemonic::Nop, 2, false),
    }
}

/// Row 0xD_ of the opcode table.
fn row_d(low: u8) -> (r: Instruction)
    requires
        low < 16,
    ensures
        r == instruction_spec((0xD0 + low) as u8),
        2 <= r.cycles <= 8,
{
    match low {
        0 => make(AddressingMode::Rel, Mnemonic::Bne, 2, true),
        1 => make(AddressingMode::Idy, Mnemonic::Cmp, 5, true),
        2 => make(AddressingMode::Imp, Mnemonic::Nop, 2, false),
        3 => make(AddressingMode::Idy, Mnemonic::Dcp, 8, false),
        4 => make(AddressingMode::Zpx, Mnemonic::Nop, 4, false),
        5 => make(AddressingMode::Zpx, Mnemonic::Cmp, 4, false),
        6 => make(AddressingMode::Zpx, Mnemonic::Dec, 6, false),
        7 => make(AddressingMode::Zpx, Mnemonic::Dcp, 6, false),
        8 => make(AddressingMode::Imp, Mnemonic::Cld, 2, false),
        9 => make(AddressingMode::Aby, Mnemonic::Cmp, 4, true),
        10 => make(AddressingMode::Imp, Mnemonic::Nop, 2, false),
        11 => make(AddressingMode::Aby, Mnemonic::Dcp, 7, false),
        12 => make(AddressingMode::Abx, Mnemonic::Nop, 4, true),
        13 => make(AddressingMode::Abx, Mnemonic::Cmp, 4, true),
        14 => make(AddressingMode::Abx, Mnemonic::Dec, 7, false),
        15 => make(AddressingMode::Abx, Mnemonic::Dcp, 7, false),
        _ => make(AddressingMode::Imp, Mnemonic::Nop, 2, false),
    }
}

/// Row 0xE_ of the opcode table.
fn row_e(low: u8) -> (r: Instruction)
    requires
        low < 16,
    ensures
        r == instruction_spec((0xE0 + low) as u8),
        2 <= r.cycles <= 8,
{
    match low {
        0 => make(AddressingMode::Imm, Mnemonic::Cpx, 2, false),
        1 => make(AddressingMode::Idx, Mnemonic::Sbc, 6, false),
        2 => make(AddressingMode::Imm, Mnemonic::Nop, 2, false),
        3 => make(AddressingMode::Idx, Mnemonic::Isc, 8, false),
        4 => make(AddressingMode::Zpg, Mnemonic::Cpx, 3, false),
        5 => make(AddressingMode::Zpg, Mnemonic::Sbc, 3, false),
        6 => make(AddressingMode::Zpg, Mnemonic::Inc, 5, false),
        7 => make(AddressingMode::Zpg, Mnemonic::Isc, 5, false),
        8 => make(AddressingMode::Imp, Mnemonic::Inx, 2, false),
        9 => make(AddressingMode::Imm, Mnemonic::Sbc, 2, false),
        10 => make(AddressingMode::Imp, Mnemonic::Nop, 2, false),
        11 => make(AddressingMode::Imm, Mnemonic::Sbc, 2, false),
        12 => make(AddressingMode::Abs, Mnemonic::Cpx, 4, false),
        13 => make(AddressingMode::Abs, Mnemonic::Sbc, 4, false),
        14 => make(AddressingMode::Abs, Mnemonic::Inc, 6, false),
        15 => make(AddressingMode::Abs, Mnemonic::Isc, 6, false),
        _ => make(AddressingMode::Imp, Mnemonic::Nop, 2, false),
    }
}

/// Row 0xF_ of the opcode table.
fn row_f(low: u8) -> (r: Instruction)
    requires
        low < 16,
    ensures
        r == instruction_spec((0xF0 + low) as u8),
        2 <= r.cycles <= 8,
{
    match low {
        0 => make(AddressingMode::Rel, Mnemonic::Beq, 2, true),
        1 => make(AddressingMode::Idy, Mnemonic::Sbc, 5, true),
        2 => make(AddressingMode::Imp, Mnemonic::Nop, 2, false),
        3 => make(AddressingMode::Idy, Mnemonic::Isc, 8, false),
        4 => make(AddressingMode::Zpx, Mnemonic::Nop, 4, false),
        5 => make(AddressingMode::Zpx, Mnemonic::Sbc, 4, false),
        6 => make(AddressingMode::Zpx, Mnemonic::Inc, 6, false),
        7 => make(AddressingMode::Zpx, Mnemonic::Isc, 6, false),
        8 => make(AddressingMode::Imp, Mnemonic::Sed, 2, false),
        9 => make(AddressingMode::Aby, Mnemonic::Sbc, 4, true),
        10 => make(AddressingMode::Imp, Mnemonic::Nop, 2, false),
        11 => make(AddressingMode::Aby, Mnemonic::Isc, 7, false),
        12 => make(AddressingMode::Abx, Mnemonic::Nop, 4, true),
        13 => make(AddressingMode::Abx, Mnemonic::Sbc, 4, true),
        14 => make(AddressingMode::Abx, Mnemonic::Inc, 7, false),
        15 => make(AddressingMode::Abx, Mnemonic::Isc, 7, false),
        _ => make(AddressingMode::Imp, Mnemonic::Nop, 2, false),
    }
}

/// Every instruction takes two to eight cycles.
pub proof fn lemma_instruction_cycles(opcode: u8)
    ensures
        2 <= instruction_spec(opcode).cycles <= 8,
{
}

/// Looks up an opcode in the opcode table.
pub fn instruction(opcode: u8) -> (r: Instruction)
    ensures
        r == instruction_spec(opcode),
        2 <= r.cycles <= 8,
{
    let high = opcode / 16;
    let low = opcode % 16;
    match high {
        0 => row_0(low),
        1 => row_1(low),
        2 => row_2(low),
        3 => row_3(low),
        4 => row_4(low),
        5 => row_5(low),
        6 => row_6(low),
        7 => row_7(low),
        8 => row_8(low),
        9 => row_9(low),
        10 => row_a(low),
        11 => row_b(low),
        12 => row_c(low),
        13 => row_d(low),
        14 => row_e(low),
        15 => row_f(low),
        _ => row_f(low),
    }
}

} // verus!
