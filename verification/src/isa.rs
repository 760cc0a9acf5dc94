//! The instruction set: opcode tags, the decoded instruction type, and the
//! decoder shared by the execution engine and the disassembler.

use vstd::prelude::*;

verus! {

/// Opcode tags, one literal 32-bit value per instruction.
pub const OP_MOVR: u32 = 10;
pub const OP_MOVV: u32 = 11;
pub const OP_ADD: u32 = 20;
pub const OP_SUB: u32 = 21;
pub const OP_PUSH: u32 = 30;
pub const OP_POP: u32 = 31;
pub const OP_JP: u32 = 40;
pub const OP_JL: u32 = 41;
pub const OP_CALL: u32 = 42;
pub const OP_RET: u32 = 50;
pub const OP_PRINT: u32 = 60;
pub const OP_HALT: u32 = 255;

/// The ways a run can end other than a clean halt. Every one of them is fatal:
/// the machine has no recovery path.
///
/// `ArithmeticOverflow` covers an ADD whose sum does not fit in 32 bits and a
/// SUB whose result would be negative; faulting there is a deliberate policy
/// choice, in line with the machine treating every violated precondition as
/// fatal.
#[derive(Clone, Copy, Debug, PartialEq, Eq, Structural)]
pub enum ErrorKind {
    /// An operand used as a register index is outside 0..=3.
    InvalidRegister,
    /// POP or RET ran with an empty stack.
    StackUnderflow,
    /// The program counter, or an operand cell of the fetched instruction,
    /// lies outside the program.
    OutOfBoundsFetch,
    /// The fetched opcode matches no defined tag.
    UnknownOpcode,
    /// ADD overflowed or SUB underflowed the 32-bit range.
    ArithmeticOverflow,
}

/// One decoded instruction. Operands documented as register indices are kept
/// as the raw cell values here; their validity (index in 0..=3) is checked at
/// execution time, not at decode time.
#[derive(Clone, Copy, Debug, PartialEq, Eq, Structural)]
pub enum Instr {
    /// dst_reg <- value of src_reg
    Movr { dst: u32, src: u32 },
    /// dst_reg <- literal
    Movv { dst: u32, imm: u32 },
    /// dst_reg <- dst_reg + src_reg; faults on 32-bit overflow
    Add { dst: u32, src: u32 },
    /// dst_reg <- dst_reg - src_reg; faults when the result would be negative
    Sub { dst: u32, src: u32 },
    /// push the value of src_reg onto the stack
    Push { src: u32 },
    /// pop the top of the stack into dst_reg
    Pop { dst: u32 },
    /// unconditional jump to the absolute index `target`
    Jp { target: u32 },
    /// if value(a) < value(b) jump to `target`, else fall through
    Jl { a: u32, b: u32, target: u32 },
    /// push the address after this instruction, then jump to `target`
    Call { target: u32 },
    /// pop a return address and resume there
    Ret,
    /// emit the value of src_reg
    Print { src: u32 },
    /// stop execution cleanly
    Halt,
}

/// Number of program cells an instruction occupies: one opcode cell plus one
/// cell per operand.
pub open spec fn instr_len(i: Instr) -> nat {
    match i {
        Instr::Movr { .. } => 3,
        Instr::Movv { .. } => 3,
        Instr::Add { .. } => 3,
        Instr::Sub { .. } => 3,
        Instr::Push { .. } => 2,
        Instr::Pop { .. } => 2,
        Instr::Jp { .. } => 2,
        Instr::Jl { .. } => 4,
        Instr::Call { .. } => 2,
        Instr::Ret => 1,
        Instr::Print { .. } => 2,
        Instr::Halt => 1,
    }
}

/// What decoding at cell `pc` yields: the instruction whose opcode sits at
/// `pc` and whose operands fill the following cells, `OutOfBoundsFetch` when
/// `pc` or one of those operand cells lies outside the program, and
/// `UnknownOpcode` when the cell at `pc` matches no tag.
pub open spec fn decode_spec(prog: Seq<u32>, pc: int) -> Result<Instr, ErrorKind> {
    if !(0 <= pc < prog.len()) {
        Err(ErrorKind::OutOfBoundsFetch)
    } else if prog[pc] == OP_MOVR {
        if pc + 2 < prog.len() {
            Ok(Instr::Movr { dst: prog[pc + 1], src: prog[pc + 2] })
        } else {
            Err(ErrorKind::OutOfBoundsFetch)
        }
    } else if prog[pc] == OP_MOVV {
        if pc + 2 < prog.len() {
            Ok(Instr::Movv { dst: prog[pc + 1], imm: prog[pc + 2] })
        } else {
            Err(ErrorKind::OutOfBoundsFetch)
        }
    } else if prog[pc] == OP_ADD {
        if pc + 2 < prog.len() {
            Ok(Instr::Add { dst: prog[pc + 1], src: prog[pc + 2] })
        } else {
            Err(ErrorKind::OutOfBoundsFetch)
        }
    } else if prog[pc] == OP_SUB {
        if pc + 2 < prog.len() {
            Ok(Instr::Sub { dst: prog[pc + 1], src: prog[pc + 2] })
        } else {
            Err(ErrorKind::OutOfBoundsFetch)
        }
    } else if prog[pc] == OP_PUSH {
        if pc + 1 < prog.len() {
            Ok(Instr::Push { src: prog[pc + 1] })
        } else {
            Err(ErrorKind::OutOfBoundsFetch)
        }
    } else if prog[pc] == OP_POP {
        if pc + 1 < prog.len() {
            Ok(Instr::Pop { dst: prog[pc + 1] })
        } else {
            Err(ErrorKind::OutOfBoundsFetch)
        }
    } else if prog[pc] == OP_JP {
        if pc + 1 < prog.len() {
            Ok(Instr::Jp { target: prog[pc + 1] })
        } else {
            Err(ErrorKind::OutOfBoundsFetch)
        }
    } else if prog[pc] == OP_JL {
        if pc + 3 < prog.len() {
            Ok(Instr::Jl { a: prog[pc + 1], b: prog[pc + 2], target: prog[pc + 3] })
        } else {
            Err(ErrorKind::OutOfBoundsFetch)
        }
    } else if prog[pc] == OP_CALL {
        if pc + 1 < prog.len() {
            Ok(Instr::Call { target: prog[pc + 1] })
        } else {
            Err(ErrorKind::OutOfBoundsFetch)
        }
    } else if prog[pc] == OP_RET {
        Ok(Instr::Ret)
    } else if prog[pc] == OP_PRINT {
        if pc + 1 < prog.len() {
            Ok(Instr::Print { src: prog[pc + 1] })
        } else {
            Err(ErrorKind::OutOfBoundsFetch)
        }
    } else if prog[pc] == OP_HALT {
        Ok(Instr::Halt)
    } else {
        Err(ErrorKind::UnknownOpcode)
    }
}

impl Instr {
    /// Number of program cells this instruction occupies.
    pub fn size(&self) -> (n: usize)
        ensures
            n == instr_len(*self),
    {
        match *self {
            Instr::Movr { .. } => 3,
            Instr::Movv { .. } => 3,
            Instr::Add { .. } => 3,
            Instr::Sub { .. } => 3,
            Instr::Push { .. } => 2,
            Instr::Pop { .. } => 2,
            Instr::Jp { .. } => 2,
            Instr::Jl { .. } => 4,
            Instr::Call { .. } => 2,
            Instr::Ret => 1,
            Instr::Print { .. } => 2,
            Instr::Halt => 1,
        }
    }
}

/// Decode the instruction whose opcode sits at cell `pc` of `program`.
pub fn decode(program: &Vec<u32>, pc: usize) -> (r: Result<Instr, ErrorKind>)
    ensures
        r == decode_spec(program@, pc as int),
{
    if pc >= program.len() {
        return Err(ErrorKind::OutOfBoundsFetch);
    }
    let op: u32 = program[pc];
    if op == OP_MOVR {
        if program.len() - pc > 2 {
            Ok(Instr::Movr { dst: program[pc + 1], src: program[pc + 2] })
        } else {
            Err(ErrorKind::OutOfBoundsFetch)
        }
    } else if op == OP_MOVV {
        if program.len() - pc > 2 {
            Ok(Instr::Movv { dst: program[pc + 1], imm: program[pc + 2] })
        } else {
            Err(ErrorKind::OutOfBoundsFetch)
        }
    } else if op == OP_ADD {
        if program.len() - pc > 2 {
            Ok(Instr::Add { dst: program[pc + 1], src: program[pc + 2] })
        } else {
            Err(ErrorKind::OutOfBoundsFetch)
        }
    } else if op == OP_SUB {
        if program.len() - pc > 2 {
            Ok(Instr::Sub { dst: program[pc + 1], src: program[pc + 2] })
        } else {
            Err(ErrorKind::OutOfBoundsFetch)
        }
    } else if op == OP_PUSH {
        if program.len() - pc > 1 {
            Ok(Instr::Push { src: program[pc + 1] })
        } else {
            Err(ErrorKind::OutOfBoundsFetch)
        }
    } else if op == OP_POP {
        if program.len() - pc > 1 {
            Ok(Instr::Pop { dst: program[pc + 1] })
        } else {
            Err(ErrorKind::OutOfBoundsFetch)
        }
    } else if op == OP_JP {
        if program.len() - pc > 1 {
            Ok(Instr::Jp { target: program[pc + 1] })
        } else {
            Err(ErrorKind::OutOfBoundsFetch)
        }
    } else if op == OP_JL {
        if program.len() - pc > 3 {
            Ok(Instr::Jl { a: program[pc + 1], b: program[pc + 2], target: program[pc + 3] })
        } else {
            Err(ErrorKind::OutOfBoundsFetch)
        }
    } else if op == OP_CALL {
        if program.len() - pc > 1 {
            Ok(Instr::Call { target: program[pc + 1] })
        } else {
            Err(ErrorKind::OutOfBoundsFetch)
        }
    } else if op == OP_RET {
        Ok(Instr::Ret)
    } else if op == OP_PRINT {
        if program.len() - pc > 1 {
            Ok(Instr::Print { src: program[pc + 1] })
        } else {
            Err(ErrorKind::OutOfBoundsFetch)
        }
    } else if op == OP_HALT {
        Ok(Instr::Halt)
    } else {
        Err(ErrorKind::UnknownOpcode)
    }
}

} // verus!
