//! The disassembler: walks a program from its first cell and produces one
//! listing entry per instruction, through the same decoder the execution
//! engine uses, without executing anything.

use vstd::prelude::*;

use crate::isa::{decode, decode_spec, instr_len, ErrorKind, Instr};

verus! {

/// One line of a listing: a decoded instruction, a cell that matches no
/// opcode (the walk resumes at the next cell, as a diagnostic listing
/// should), or an opcode whose operand cells would reach past the end of the
/// program (the walk stops there).
#[derive(Clone, Copy, Debug, PartialEq, Eq, Structural)]
pub enum ListEntry {
    Decoded { at: usize, instr: Instr },
    Unknown { at: usize, opcode: u32 },
    Truncated { at: usize, opcode: u32 },
}

/// The listing of `prog` from cell `pc` on: decode at `pc`, then continue
/// after the decoded instruction — or after the single unknown cell — until
/// the end of the program or a truncated instruction.
pub open spec fn listing_spec(prog: Seq<u32>, pc: int) -> Seq<ListEntry>
    decreases prog.len() - pc,
{
    if !(0 <= pc < prog.len()) {
        Seq::empty()
    } else {
        match decode_spec(prog, pc) {
            Ok(i) => seq![ListEntry::Decoded { at: pc as usize, instr: i }] + listing_spec(
                prog,
                pc + instr_len(i),
            ),
            Err(e) => {
                if e == ErrorKind::UnknownOpcode {
                    seq![ListEntry::Unknown { at: pc as usize, opcode: prog[pc] }] + listing_spec(
                        prog,
                        pc + 1,
                    )
                } else {
                    seq![ListEntry::Truncated { at: pc as usize, opcode: prog[pc] }]
                }
            },
        }
    }
}

/// Disassemble the whole program into its listing, starting at cell 0.
pub fn disassemble(program: &Vec<u32>) -> (r: Vec<ListEntry>)
    ensures
        r@ == listing_spec(program@, 0),
{
    let mut out: Vec<ListEntry> = Vec::new();
    let mut pc: usize = 0;
    while pc < program.len()
        invariant
            listing_spec(program@, 0) == out@ + listing_spec(program@, pc as int),
        decreases program@.len() - pc,
    {
        match decode(program, pc) {
            Ok(i) => {
                out.push(ListEntry::Decoded { at: pc, instr: i });
                pc = pc + i.size();
            },
            Err(e) => {
                if e == ErrorKind::UnknownOpcode {
                    let op: u32 = program[pc];
                    out.push(ListEntry::Unknown { at: pc, opcode: op });
                    pc = pc + 1;
                } else {
                    let op: u32 = program[pc];
                    out.push(ListEntry::Truncated { at: pc, opcode: op });
                    proof {
                        assert(listing_spec(program@, 0) =~= out@);
                    }
                    return out;
                }
            },
        }
    }
    proof {
        assert(listing_spec(program@, pc as int) =~= Seq::<ListEntry>::empty());
        assert(listing_spec(program@, 0) =~= out@);
    }
    out
}

impl Instr {
    /// The instruction's mnemonic, as the listing shows it.
    pub fn mnemonic(&self) -> (m: &'static str)
        ensures
            m@ == mnemonic_spec(*self),
    {
        match *self {
            Instr::Movr { .. } => "MOVR",
            Instr::Movv { .. } => "MOVV",
            Instr::Add { .. } => "ADD",
            Instr::Sub { .. } => "SUB",
            Instr::Push { .. } => "PUSH",
            Instr::Pop { .. } => "POP",
            Instr::Jp { .. } => "JP",
            Instr::Jl { .. } => "JL",
            Instr::Call { .. } => "CALL",
            Instr::Ret => "RET",
            Instr::Print { .. } => "PRINT",
            Instr::Halt => "HALT",
        }
    }
}

/// The mnemonic of each instruction.
pub open spec fn mnemonic_spec(i: Instr) -> Seq<char> {
    match i {
        Instr::Movr { .. } => "MOVR"@,
        Instr::Movv { .. } => "MOVV"@,
        Instr::Add { .. } => "ADD"@,
        Instr::Sub { .. } => "SUB"@,
        Instr::Push { .. } => "PUSH"@,
        Instr::Pop { .. } => "POP"@,
        Instr::Jl { .. } => "JL"@,
        Instr::Jp { .. } => "JP"@,
        Instr::Call { .. } => "CALL"@,
        Instr::Ret => "RET"@,
        Instr::Print { .. } => "PRINT"@,
        Instr::Halt => "HALT"@,
    }
}

} // verus!
