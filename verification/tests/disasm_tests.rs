use minivm::disasm::{disassemble, ListEntry};
use minivm::isa::Instr;

#[test]
fn listing_of_straight_line_program() {
    let program: Vec<u32> = vec![11, 0, 5, 60, 0, 255];
    let listing = disassemble(&program);
    assert_eq!(
        listing,
        vec![
            ListEntry::Decoded { at: 0, instr: Instr::Movv { dst: 0, imm: 5 } },
            ListEntry::Decoded { at: 3, instr: Instr::Print { src: 0 } },
            ListEntry::Decoded { at: 5, instr: Instr::Halt },
        ]
    );
}

#[test]
fn listing_resumes_after_unknown_cell() {
    let program: Vec<u32> = vec![9, 255];
    let listing = disassemble(&program);
    assert_eq!(
        listing,
        vec![
            ListEntry::Unknown { at: 0, opcode: 9 },
            ListEntry::Decoded { at: 1, instr: Instr::Halt },
        ]
    );
}

#[test]
fn listing_stops_at_truncated_instruction() {
    let program: Vec<u32> = vec![255, 11, 0];
    let listing = disassemble(&program);
    assert_eq!(
        listing,
        vec![
            ListEntry::Decoded { at: 0, instr: Instr::Halt },
            ListEntry::Truncated { at: 1, opcode: 11 },
        ]
    );
}

#[test]
fn listing_of_empty_program_is_empty() {
    let program: Vec<u32> = vec![];
    assert_eq!(disassemble(&program), vec![]);
}

#[test]
fn mnemonics() {
    assert_eq!(Instr::Movr { dst: 0, src: 1 }.mnemonic(), "MOVR");
    assert_eq!(Instr::Movv { dst: 0, imm: 1 }.mnemonic(), "MOVV");
    assert_eq!(Instr::Add { dst: 0, src: 1 }.mnemonic(), "ADD");
    assert_eq!(Instr::Sub { dst: 0, src: 1 }.mnemonic(), "SUB");
    assert_eq!(Instr::Push { src: 0 }.mnemonic(), "PUSH");
    assert_eq!(Instr::Pop { dst: 0 }.mnemonic(), "POP");
    assert_eq!(Instr::Jp { target: 0 }.mnemonic(), "JP");
    assert_eq!(Instr::Jl { a: 0, b: 1, target: 2 }.mnemonic(), "JL");
    assert_eq!(Instr::Call { target: 0 }.mnemonic(), "CALL");
    assert_eq!(Instr::Ret.mnemonic(), "RET");
    assert_eq!(Instr::Print { src: 0 }.mnemonic(), "PRINT");
    assert_eq!(Instr::Halt.mnemonic(), "HALT");
}
