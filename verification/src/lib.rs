//! A minimal virtual machine: a fixed file of four 32-bit registers, a single
//! growable stack shared by data and return addresses, and a flat program of
//! 32-bit cells in which each instruction occupies one opcode cell followed by
//! its operand cells.
//!
//! `isa` defines the opcode space, the decoded instruction type and the
//! decoder; `machine` owns the register file and the stack and drives the
//! fetch-decode-execute loop; `disasm` turns a program into a listing without
//! executing it, through the same decoder.

pub mod disasm;
pub mod isa;
pub mod machine;
