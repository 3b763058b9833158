use vstd::prelude::*;
use vstd::string::StringExecFns;
use crate::cpu::Operation;
use crate::nes::{
    Nes, run, same_but_picture, cycled, instruction_run, instruction_run_showing, oam_shown_in_cycle,
    oam_shown_in_run, lemma_cycle_ignores_picture,
};
use crate::opcodes::AddressingMode;
use crate::utils::{hex_padded, push_hex_upper};

verus! {

/// How the operand of an instruction is written in the disassembly: two-digit operands
/// for immediate, indirect-indexed and zero page modes, four-digit ones otherwise, and the
/// target address for branches.
pub open spec fn operand_text(kind: AddressingMode, operand: u16, address: u16) -> Seq<char> {
    match kind {
        AddressingMode::Imp => Seq::empty(),
        AddressingMode::Imm => "#"@ + hex_padded(operand as nat, 2),
        AddressingMode::Rel => hex_padded(address as nat, 4),
        AddressingMode::Abs => hex_padded(operand as nat, 4),
        AddressingMode::Abx => hex_padded(operand as nat, 4) + ",X"@,
        AddressingMode::Aby => hex_padded(operand as nat, 4) + ",Y"@,
        AddressingMode::Ind => "("@ + hex_padded(operand as nat, 4) + ")"@,
        AddressingMode::Idx => "("@ + hex_padded(operand as nat, 2) + ",X)"@,
        AddressingMode::Idy => "("@ + hex_padded(operand as nat, 2) + "),Y"@,
        AddressingMode::Zpg => hex_padded(operand as nat, 2),
        AddressingMode::Zpx => hex_padded(operand as nat, 2) + ",X"@,
        AddressingMode::Zpy => hex_padded(operand as nat, 2) + ",Y"@,
    }
}

/// The disassembly of an operation: the mnemonic, the operand, and for the modes that
/// compute an address, that address after an "@".
pub open spec fn operation_text_spec(operation: Operation, address: u16) -> Seq<char> {
    let kind = operation.inst.mode.kind;
    operation.inst.op.name_spec() + " "@ + operand_text(kind, operation.operand, address) + match kind {
        AddressingMode::Imp | AddressingMode::Imm | AddressingMode::Rel | AddressingMode::Abs => Seq::<
            char,
        >::empty(),
        _ => " @ "@ + hex_padded(address as nat, 4),
    }
}

/// The disassembly line of each addressing mode: after the mnemonic and a space, the
/// operand in hexadecimal (two digits for a byte, four for a word) written as the mode
/// reads it, the indexed modes naming their index register (",X" for the zero page X,
/// absolute X and (zp,X) modes, ",Y" for zero page Y, absolute Y and (zp),Y), then,
/// for the modes that compute an address from registers or memory, " @ " and that
/// address; a branch shows its target.
pub proof fn lemma_disassembly_format(operation: Operation, address: u16)
    ensures
        ({
            let t = operation_text_spec(operation, address);
            let name = operation.inst.op.name_spec();
            let o2 = hex_padded(operation.operand as nat, 2);
            let o4 = hex_padded(operation.operand as nat, 4);
            let at = " @ "@ + hex_padded(address as nat, 4);
            match operation.inst.mode.kind {
                AddressingMode::Imp => t == name + " "@,
                AddressingMode::Imm => t == name + " #"@ + o2,
                AddressingMode::Rel => t == name + " "@ + hex_padded(address as nat, 4),
                AddressingMode::Abs => t == name + " "@ + o4,
                AddressingMode::Abx => t == name + " "@ + o4 + ",X"@ + at,
                AddressingMode::Aby => t == name + " "@ + o4 + ",Y"@ + at,
                AddressingMode::Ind => t == name + " ("@ + o4 + ")"@ + at,
                AddressingMode::Idx => t == name + " ("@ + o2 + ",X)"@ + at,
                AddressingMode::Idy => t == name + " ("@ + o2 + "),Y"@ + at,
                AddressingMode::Zpg => t == name + " "@ + o2 + at,
                AddressingMode::Zpx => t == name + " "@ + o2 + ",X"@ + at,
                AddressingMode::Zpy => t == name + " "@ + o2 + ",Y"@ + at,
            }
        }),
{
    reveal_strlit(" ");
    reveal_strlit(" #");
    reveal_strlit("#");
    reveal_strlit(" (");
    reveal_strlit("(");
    reveal_strlit(")");
    reveal_strlit(",X");
    reveal_strlit(",Y");
    reveal_strlit(",X)");
    reveal_strlit("),Y");
    let t = operation_text_spec(operation, address);
    let name = operation.inst.op.name_spec();
    let o2 = hex_padded(operation.operand as nat, 2);
    let o4 = hex_padded(operation.operand as nat, 4);
    let at = " @ "@ + hex_padded(address as nat, 4);
    match operation.inst.mode.kind {
        AddressingMode::Imp => assert(t =~= name + " "@),
        AddressingMode::Imm => assert(t =~= name + " #"@ + o2),
        AddressingMode::Rel => assert(t =~= name + " "@ + hex_padded(address as nat, 4)),
        AddressingMode::Abs => assert(t =~= name + " "@ + o4),
        AddressingMode::Abx => assert(t =~= name + " "@ + o4 + ",X"@ + at),
        AddressingMode::Aby => assert(t =~= name + " "@ + o4 + ",Y"@ + at),
        AddressingMode::Ind => assert(t =~= name + " ("@ + o4 + ")"@ + at),
        AddressingMode::Idx => assert(t =~= name + " ("@ + o2 + ",X)"@ + at),
        AddressingMode::Idy => assert(t =~= name + " ("@ + o2 + "),Y"@ + at),
        AddressingMode::Zpg => assert(t =~= name + " "@ + o2 + at),
        AddressingMode::Zpx => assert(t =~= name + " "@ + o2 + ",X"@ + at),
        AddressingMode::Zpy => assert(t =~= name + " "@ + o2 + ",Y"@ + at),
    }
}

pub fn operation_text(operation: &Operation, address: u16) -> (r: String)
    ensures
        r@ == operation_text_spec(*operation, address),
{
    let inst = operation.inst;
    let operand = operation.operand;
    let mut out = String::from_str(inst.op.name());
    out.append(" ");
    let kind = inst.mode.kind;
    match kind {
        AddressingMode::Imp => {},
        AddressingMode::Imm => {
            out.append("#");
            push_hex_upper(&mut out, operand, 2);
        },
        AddressingMode::Rel => {
            push_hex_upper(&mut out, address, 4);
        },
        AddressingMode::Abs => {
            push_hex_upper(&mut out, operand, 4);
        },
        AddressingMode::Abx => {
            push_hex_upper(&mut out, operand, 4);
            out.append(",X");
        },
        AddressingMode::Aby => {
            push_hex_upper(&mut out, operand, 4);
            out.append(",Y");
        },
        AddressingMode::Ind => {
            out.append("(");
            push_hex_upper(&mut out, operand, 4);
            out.append(")");
        },
        AddressingMode::Idx => {
            out.append("(");
            push_hex_upper(&mut out, operand, 2);
            out.append(",X)");
        },
        AddressingMode::Idy => {
            out.append("(");
            push_hex_upper(&mut out, operand, 2);
            out.append("),Y");
        },
        AddressingMode::Zpg => {
            push_hex_upper(&mut out, operand, 2);
        },
        AddressingMode::Zpx => {
            push_hex_upper(&mut out, operand, 2);
            out.append(",X");
        },
        AddressingMode::Zpy => {
            push_hex_upper(&mut out, operand, 2);
            out.append(",Y");
        },
    }
    match kind {
        AddressingMode::Imp | AddressingMode::Imm | AddressingMode::Rel | AddressingMode::Abs => {},
        _ => {
            out.append(" @ ");
            push_hex_upper(&mut out, address, 4);
        },
    }
    assert(out@ =~= operation_text_spec(*operation, address));
    out
}

/// The line that describes where the CPU stands: the program counter and the
/// disassembly of the operation in flight.
pub open spec fn current_operation_spec(nes: Nes) -> Seq<char> {
    hex_padded(nes.cpu.regs.PC as nat, 4) + " "@ + operation_text_spec(
        nes.cpu.execution.operation,
        nes.cpu.execution.address,
    )
}

pub fn current_operation_text(nes: &Nes) -> (r: String)
    ensures
        r@ == current_operation_spec(*nes),
{
    let mut out = String::new();
    push_hex_upper(&mut out, nes.cpu().registers().PC, 4);
    out.append(" ");
    let execution = nes.cpu().execution();
    out.append(operation_text(&execution.operation, execution.address).as_str());
    assert(out@ =~= current_operation_spec(*nes));
    out
}

/// Runs a single cycle and describes where the CPU stands; the flag tells whether the
/// cycle showed the OAM.
pub fn step_cycle(nes: &mut Nes) -> (r: (String, bool))
    requires
        old(nes).wf(),
        old(nes).cpu.cycles < u64::MAX,
        old(nes).ppu.frames < u64::MAX - 3,
    ensures
        final(nes).wf(),
        cycled(*old(nes), *final(nes)),
        final(nes).cpu.cycles == old(nes).cpu.cycles + 1,
        r.0@ == current_operation_spec(*final(nes)),
        r.1 == oam_shown_in_cycle(*old(nes)),
{
    let shown = nes.cycle();
    (current_operation_text(nes), shown)
}

/// Runs the next instruction and describes where the CPU stands; the flag tells
/// whether one of its cycles showed the OAM.
pub fn step(nes: &mut Nes) -> (r: (String, bool))
    requires
        old(nes).wf(),
        old(nes).cpu.cycles < u64::MAX - 2000,
        old(nes).ppu.frames < u64::MAX - 4000,
    ensures
        final(nes).wf(),
        final(nes).cpu.execution.instructions == ((old(nes).cpu.execution.instructions + 1)
            % 0x1_0000_0000_0000_0000) as u64,
        instruction_run(*old(nes), *final(nes)),
        old(nes).cpu.cycles < final(nes).cpu.cycles <= old(nes).cpu.cycles + 1123,
        final(nes).ppu.frames <= old(nes).ppu.frames + 3 * (final(nes).cpu.cycles
            - old(nes).cpu.cycles),
        instruction_run_showing(*old(nes), *final(nes), r.1),
        r.0@ == current_operation_spec(*final(nes)),
{
    let shown = nes.step();
    (current_operation_text(nes), shown)
}

/// Runs the next instruction, as `step` does; the debugger shows the state twice.
pub fn next(nes: &mut Nes) -> (r: (String, String, bool))
    requires
        old(nes).wf(),
        old(nes).cpu.cycles < u64::MAX - 2000,
        old(nes).ppu.frames < u64::MAX - 4000,
    ensures
        final(nes).wf(),
        final(nes).cpu.execution.instructions == ((old(nes).cpu.execution.instructions + 1)
            % 0x1_0000_0000_0000_0000) as u64,
        instruction_run(*old(nes), *final(nes)),
        old(nes).cpu.cycles < final(nes).cpu.cycles <= old(nes).cpu.cycles + 1123,
        final(nes).ppu.frames <= old(nes).ppu.frames + 3 * (final(nes).cpu.cycles
            - old(nes).cpu.cycles),
        instruction_run_showing(*old(nes), *final(nes), r.2),
        r.0@ == current_operation_spec(*final(nes)),
        r.1@ == current_operation_spec(*final(nes)),
{
    let (first, shown) = step(nes);
    let second = current_operation_text(nes);
    (first, second, shown)
}

/// Runs whole cycles while the program counter is not past where it was (and the cycle
/// and frame counters are below their limits), then describes where the CPU stands; the
/// flag tells whether one of the cycles showed the OAM.
pub fn until(nes: &mut Nes) -> (r: (String, bool))
    requires
        old(nes).wf(),
    ensures
        final(nes).wf(),
        r.0@ == current_operation_spec(*final(nes)),
        final(nes).cpu.regs.PC > old(nes).cpu.regs.PC || final(nes).cpu.cycles == u64::MAX
            || final(nes).ppu.frames >= u64::MAX - 3,
        exists|k: nat|
            same_but_picture(*final(nes), #[trigger] run(*old(nes), old(nes).ppu.frame_data@, k).0)
                && final(nes).ppu.frame_data@ == run(*old(nes), old(nes).ppu.frame_data@, k).1
                && r.1 == oam_shown_in_run(*old(nes), k) && forall|j: nat|
                j < k ==> #[trigger] run(*old(nes), old(nes).ppu.frame_data@, j).0.cpu.regs.PC
                    <= old(nes).cpu.regs.PC,
{
    let pc = nes.cpu().registers().PC;
    let ghost n0 = *nes;
    let ghost f0 = nes.ppu.frame_data@;
    let ghost mut i: nat = 0;
    let mut shown = false;
    while nes.cpu().registers().PC <= pc && nes.cpu().cycle_count() < u64::MAX && nes.ppu().frames
        < u64::MAX - 3
        invariant
            nes.wf(),
            n0 == *old(nes),
            f0 == old(nes).ppu.frame_data@,
            pc == old(nes).cpu.regs.PC,
            same_but_picture(*nes, run(n0, f0, i).0),
            nes.ppu.frame_data@ == run(n0, f0, i).1,
            forall|j: nat| j < i ==> #[trigger] run(n0, f0, j).0.cpu.regs.PC <= pc,
            shown == oam_shown_in_run(n0, i),
        decreases u64::MAX - nes.cpu.cycles,
    {
        proof {
            let (x, fx) = run(n0, f0, i);
            lemma_cycle_ignores_picture(x, nes.ppu.frame_data, fx);
        }
        let s = nes.cycle();
        shown = shown || s;
        proof {
            assert(oam_shown_in_run(n0, (i + 1) as nat) == (oam_shown_in_run(n0, i)
                || oam_shown_in_cycle(run(n0, f0, i).0)));
            i = i + 1;
        }
    }
    (current_operation_text(nes), shown)
}

/// The registers that the debugger can show.
#[derive(Debug, Clone, Copy, PartialEq, Eq, Structural)]
pub enum Register {
    A,
    X,
    Y,
    P,
    SP,
    PC,
}

/// The register with a given (upper case) name.
pub open spec fn register_named(name: Seq<char>) -> Option<Register> {
    if name == "A"@ {
        Some(Register::A)
    } else if name == "X"@ {
        Some(Register::X)
    } else if name == "Y"@ {
        Some(Register::Y)
    } else if name == "P"@ {
        Some(Register::P)
    } else if name == "SP"@ {
        Some(Register::SP)
    } else if name == "PC"@ {
        Some(Register::PC)
    } else {
        None
    }
}

fn same_text(a: &str, b: &str) -> (r: bool)
    ensures
        r == (a@ == b@),
{
    String::from_str(a) == String::from_str(b)
}

pub fn register_of(name: &str) -> (r: Option<Register>)
    ensures
        r == register_named(name@),
{
    if same_text(name, "A") {
        Some(Register::A)
    } else if same_text(name, "X") {
        Some(Register::X)
    } else if same_text(name, "Y") {
        Some(Register::Y)
    } else if same_text(name, "P") {
        Some(Register::P)
    } else if same_text(name, "SP") {
        Some(Register::SP)
    } else if same_text(name, "PC") {
        Some(Register::PC)
    } else {
        None
    }
}

/// The value of a register, widened to 16 bits.
pub open spec fn register_value(nes: Nes, reg: Register) -> u16 {
    let r = nes.cpu.regs;
    match reg {
        Register::A => r.A as u16,
        Register::X => r.X as u16,
        Register::Y => r.Y as u16,
        Register::P => r.P as u16,
        Register::SP => r.SP as u16,
        Register::PC => r.PC,
    }
}

/// Printing a register by its name shows that register: A, X, Y, P and SP as bytes,
/// PC as a word; other names name no register.
pub proof fn lemma_registers_by_name(nes: Nes)
    ensures
        register_named("A"@) == Some(Register::A) && register_value(nes, Register::A) == nes.cpu.regs.A,
        register_named("X"@) == Some(Register::X) && register_value(nes, Register::X) == nes.cpu.regs.X,
        register_named("Y"@) == Some(Register::Y) && register_value(nes, Register::Y) == nes.cpu.regs.Y,
        register_named("P"@) == Some(Register::P) && register_value(nes, Register::P) == nes.cpu.regs.P,
        register_named("SP"@) == Some(Register::SP) && register_value(nes, Register::SP)
            == nes.cpu.regs.SP,
        register_named("PC"@) == Some(Register::PC) && register_value(nes, Register::PC)
            == nes.cpu.regs.PC,
        register_named("pc"@) is None && register_named("Q"@) is None,
{
    reveal_strlit("A");
    reveal_strlit("X");
    reveal_strlit("Y");
    reveal_strlit("P");
    reveal_strlit("SP");
    reveal_strlit("PC");
    reveal_strlit("pc");
    reveal_strlit("Q");
    assert("A"@.len() == 1 && "A"@[0] == 'A');
    assert("X"@.len() == 1 && "X"@[0] == 'X');
    assert("Y"@.len() == 1 && "Y"@[0] == 'Y');
    assert("P"@.len() == 1 && "P"@[0] == 'P');
    assert("SP"@.len() == 2 && "SP"@[0] == 'S' && "SP"@[1] == 'P');
    assert("PC"@.len() == 2 && "PC"@[0] == 'P' && "PC"@[1] == 'C');
    assert("pc"@.len() == 2 && "pc"@[0] == 'p' && "pc"@[1] == 'c');
    assert("Q"@.len() == 1 && "Q"@[0] == 'Q');
}

/// The debugger's commands by name: "n"/"next", "s"/"step", "si"/"stepi"/"ni"/"nexti",
/// "c"/"continue", "u"/"until", "p", "pb", "b", "q"/"quit" and "help".
pub proof fn lemma_commands_by_name()
    ensures
        command_named("n"@) == Command::Next && command_named("next"@) == Command::Next,
        command_named("s"@) == Command::Step && command_named("step"@) == Command::Step,
        command_named("si"@) == Command::StepCycle && command_named("stepi"@) == Command::StepCycle,
        command_named("ni"@) == Command::StepCycle && command_named("nexti"@) == Command::StepCycle,
        command_named("c"@) == Command::Continue && command_named("continue"@) == Command::Continue,
        command_named("u"@) == Command::Until && command_named("until"@) == Command::Until,
        command_named("p"@) == Command::Print && command_named("pb"@) == Command::PrintBinary,
        command_named("b"@) == Command::Breakpoint,
        command_named("q"@) == Command::Quit && command_named("quit"@) == Command::Quit,
        command_named("help"@) == Command::Help,
        command_named("x"@) == Command::Undefined,
{
    reveal_strlit("n");
    reveal_strlit("next");
    reveal_strlit("s");
    reveal_strlit("step");
    reveal_strlit("si");
    reveal_strlit("stepi");
    reveal_strlit("ni");
    reveal_strlit("nexti");
    reveal_strlit("c");
    reveal_strlit("continue");
    reveal_strlit("u");
    reveal_strlit("until");
    reveal_strlit("p");
    reveal_strlit("pb");
    reveal_strlit("b");
    reveal_strlit("q");
    reveal_strlit("quit");
    reveal_strlit("help");
    reveal_strlit("x");
    assert("n"@.len() == 1 && "n"@[0] == 'n');
    assert("next"@.len() == 4 && "next"@[0] == 'n' && "next"@[1] == 'e');
    assert("s"@.len() == 1 && "s"@[0] == 's');
    assert("step"@.len() == 4 && "step"@[0] == 's' && "step"@[1] == 't');
    assert("si"@.len() == 2 && "si"@[0] == 's' && "si"@[1] == 'i');
    assert("stepi"@.len() == 5 && "stepi"@[0] == 's' && "stepi"@[1] == 't');
    assert("ni"@.len() == 2 && "ni"@[0] == 'n' && "ni"@[1] == 'i');
    assert("nexti"@.len() == 5 && "nexti"@[0] == 'n' && "nexti"@[1] == 'e');
    assert("c"@.len() == 1 && "c"@[0] == 'c');
    assert("continue"@.len() == 8 && "continue"@[0] == 'c' && "continue"@[1] == 'o');
    assert("u"@.len() == 1 && "u"@[0] == 'u');
    assert("until"@.len() == 5 && "until"@[0] == 'u' && "until"@[1] == 'n');
    assert("p"@.len() == 1 && "p"@[0] == 'p');
    assert("pb"@.len() == 2 && "pb"@[0] == 'p' && "pb"@[1] == 'b');
    assert("b"@.len() == 1 && "b"@[0] == 'b');
    assert("q"@.len() == 1 && "q"@[0] == 'q');
    assert("quit"@.len() == 4 && "quit"@[0] == 'q' && "quit"@[1] == 'u');
    assert("help"@.len() == 4 && "help"@[0] == 'h' && "help"@[1] == 'e');
    assert("x"@.len() == 1 && "x"@[0] == 'x');
}

pub fn get_reg(nes: &Nes, reg: Register) -> (r: u16)
    ensures
        r == register_value(*nes, reg),
{
    let r = nes.cpu().registers();
    match reg {
        Register::A => r.A as u16,
        Register::X => r.X as u16,
        Register::Y => r.Y as u16,
        Register::P => r.P as u16,
        Register::SP => r.SP as u16,
        Register::PC => r.PC,
    }
}

/// The commands of the debugger.
#[derive(Debug, Clone, Copy, PartialEq, Eq, Structural)]
pub enum Command {
    Next,
    Step,
    StepCycle,
    Continue,
    Until,
    Print,
    PrintBinary,
    Breakpoint,
    Quit,
    Help,
    Undefined,
}

/// The command a (trimmed) word names.
pub open spec fn command_named(word: Seq<char>) -> Command {
    if word == "n"@ || word == "next"@ {
        Command::Next
    } else if word == "s"@ || word == "step"@ {
        Command::Step
    } else if word == "si"@ || word == "stepi"@ || word == "ni"@ || word == "nexti"@ {
        Command::StepCycle
    } else if word == "c"@ || word == "continue"@ {
        Command::Continue
    } else if word == "u"@ || word == "until"@ {
        Command::Until
    } else if word == "p"@ {
        Command::Print
    } else if word == "pb"@ {
        Command::PrintBinary
    } else if word == "b"@ {
        Command::Breakpoint
    } else if word == "q"@ || word == "quit"@ {
        Command::Quit
    } else if word == "help"@ {
        Command::Help
    } else {
        Command::Undefined
    }
}

pub fn command_of(word: &str) -> (r: Command)
    ensures
        r == command_named(word@),
{
    if same_text(word, "n") || same_text(word, "next") {
        Command::Next
    } else if same_text(word, "s") || same_text(word, "step") {
        Command::Step
    } else if same_text(word, "si") || same_text(word, "stepi") || same_text(word, "ni")
        || same_text(word, "nexti") {
        Command::StepCycle
    } else if same_text(word, "c") || same_text(word, "continue") {
        Command::Continue
    } else if same_text(word, "u") || same_text(word, "until") {
        Command::Until
    } else if same_text(word, "p") {
        Command::Print
    } else if same_text(word, "pb") {
        Command::PrintBinary
    } else if same_text(word, "b") {
        Command::Breakpoint
    } else if same_text(word, "q") || same_text(word, "quit") {
        Command::Quit
    } else if same_text(word, "help") {
        Command::Help
    } else {
        Command::Undefined
    }
}

} // verus!
