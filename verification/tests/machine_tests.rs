use minivm::isa::ErrorKind;
use minivm::machine::{Cpu, RunState, StepResult};

#[test]
fn new_machine_is_zeroed() {
    let cpu = Cpu::new();
    for r in 0..4u32 {
        assert_eq!(cpu.read_register(r), Ok(0));
    }
    assert_eq!(cpu.stack_size(), 0);
    assert!(cpu.outputs().is_empty());
}

#[test]
fn write_then_read_round_trip() {
    let mut cpu = Cpu::new();
    for r in 0..4u32 {
        let v: u32 = 1000 + r;
        assert_eq!(cpu.write_register(r, v), Ok(()));
        assert_eq!(cpu.read_register(r), Ok(v));
    }
}

#[test]
fn read_invalid_register_reports() {
    let cpu = Cpu::new();
    assert_eq!(cpu.read_register(4), Err(ErrorKind::InvalidRegister));
    assert_eq!(cpu.read_register(1000), Err(ErrorKind::InvalidRegister));
}

#[test]
fn write_invalid_register_reports() {
    let mut cpu = Cpu::new();
    assert_eq!(cpu.write_register(4, 1), Err(ErrorKind::InvalidRegister));
    assert_eq!(cpu.write_register(u32::MAX, 1), Err(ErrorKind::InvalidRegister));
    // the machine is untouched
    for r in 0..4u32 {
        assert_eq!(cpu.read_register(r), Ok(0));
    }
}

#[test]
fn push_then_pop_returns_value_and_leaves_stack_empty() {
    // PUSH r0; POP r1
    let program: Vec<u32> = vec![30, 0, 31, 1];
    let mut cpu = Cpu::new();
    assert_eq!(cpu.write_register(0, 42), Ok(()));
    assert_eq!(cpu.step(0, &program), StepResult::Continue(2));
    assert_eq!(cpu.stack_size(), 1);
    assert_eq!(cpu.step(2, &program), StepResult::Continue(4));
    assert_eq!(cpu.read_register(1), Ok(42));
    assert_eq!(cpu.stack_size(), 0);
}

#[test]
fn pop_on_empty_stack_underflows() {
    // POP r0
    let program: Vec<u32> = vec![31, 0];
    let mut cpu = Cpu::new();
    assert_eq!(cpu.step(0, &program), StepResult::Faulted(ErrorKind::StackUnderflow));
}

#[test]
fn ret_on_empty_stack_underflows() {
    // RET
    let program: Vec<u32> = vec![50];
    let mut cpu = Cpu::new();
    assert_eq!(cpu.step(0, &program), StepResult::Faulted(ErrorKind::StackUnderflow));
}

#[test]
fn jl_jumps_when_below() {
    // JL r0, r1, 7
    let program: Vec<u32> = vec![41, 0, 1, 7, 255, 255, 255, 255];
    let mut cpu = Cpu::new();
    assert_eq!(cpu.write_register(0, 2), Ok(()));
    assert_eq!(cpu.write_register(1, 3), Ok(()));
    assert_eq!(cpu.step(0, &program), StepResult::Continue(7));
}

#[test]
fn jl_falls_through_to_pc_plus_4_when_not_below() {
    // JL r0, r1, 7 — with value(r0) >= value(r1)
    let program: Vec<u32> = vec![41, 0, 1, 7, 255, 255, 255, 255];
    let mut cpu = Cpu::new();
    assert_eq!(cpu.write_register(0, 3), Ok(()));
    assert_eq!(cpu.write_register(1, 3), Ok(()));
    assert_eq!(cpu.step(0, &program), StepResult::Continue(4));
}

#[test]
fn call_pushes_return_address_and_ret_resumes_there() {
    // CALL 3; HALT; RET
    let program: Vec<u32> = vec![42, 3, 255, 50];
    let mut cpu = Cpu::new();
    // CALL at 0 pushes the address after the CALL (0 + 2) and jumps to 3.
    assert_eq!(cpu.step(0, &program), StepResult::Continue(3));
    assert_eq!(cpu.stack_size(), 1);
    // RET pops that address and resumes there.
    assert_eq!(cpu.step(3, &program), StepResult::Continue(2));
    assert_eq!(cpu.stack_size(), 0);
    assert_eq!(cpu.step(2, &program), StepResult::Halted);
}

#[test]
fn movv_print_halt_emits_five() {
    // MOVV r0 <- 5; PRINT r0; HALT
    let program: Vec<u32> = vec![11, 0, 5, 60, 0, 255];
    let mut cpu = Cpu::new();
    assert_eq!(cpu.run(0, &program, 100), RunState::Halted);
    assert_eq!(cpu.outputs(), &vec![5]);
}

#[test]
fn add_program_emits_five() {
    // r0 <- 2; r1 <- 3; r0 <- r0 + r1; PRINT r0; HALT
    let program: Vec<u32> = vec![11, 0, 2, 11, 1, 3, 20, 0, 1, 60, 0, 255];
    let mut cpu = Cpu::new();
    assert_eq!(cpu.run(0, &program, 100), RunState::Halted);
    assert_eq!(cpu.outputs(), &vec![5]);
}

#[test]
fn call_into_printing_subroutine_resumes_after_call() {
    // CALL 5; PRINT r1; HALT; (subroutine) PRINT r0; RET
    let program: Vec<u32> = vec![42, 5, 60, 1, 255, 60, 0, 50];
    let mut cpu = Cpu::new();
    assert_eq!(cpu.write_register(0, 10), Ok(()));
    assert_eq!(cpu.write_register(1, 20), Ok(()));
    assert_eq!(cpu.run(0, &program, 100), RunState::Halted);
    // the subroutine's PRINT runs first, then execution resumes after the
    // CALL and continues normally
    assert_eq!(cpu.outputs(), &vec![10, 20]);
}

#[test]
fn jump_out_of_bounds_faults() {
    // JP 99
    let program: Vec<u32> = vec![40, 99];
    let mut cpu = Cpu::new();
    assert_eq!(cpu.run(0, &program, 100), RunState::Faulted(ErrorKind::OutOfBoundsFetch));
}

#[test]
fn falling_off_the_end_faults() {
    // MOVV r0 <- 1, then no HALT before the end
    let program: Vec<u32> = vec![11, 0, 1];
    let mut cpu = Cpu::new();
    assert_eq!(cpu.run(0, &program, 100), RunState::Faulted(ErrorKind::OutOfBoundsFetch));
}

#[test]
fn start_out_of_bounds_faults() {
    let program: Vec<u32> = vec![255];
    let mut cpu = Cpu::new();
    assert_eq!(cpu.run(1, &program, 100), RunState::Faulted(ErrorKind::OutOfBoundsFetch));
}

#[test]
fn unknown_opcode_faults() {
    let program: Vec<u32> = vec![9];
    let mut cpu = Cpu::new();
    assert_eq!(cpu.run(0, &program, 100), RunState::Faulted(ErrorKind::UnknownOpcode));
}

#[test]
fn print_of_invalid_register_faults() {
    // PRINT r7
    let program: Vec<u32> = vec![60, 7];
    let mut cpu = Cpu::new();
    assert_eq!(cpu.step(0, &program), StepResult::Faulted(ErrorKind::InvalidRegister));
    assert!(cpu.outputs().is_empty());
}

#[test]
fn movr_from_invalid_register_faults() {
    // MOVR r0 <- r4
    let program: Vec<u32> = vec![10, 0, 4];
    let mut cpu = Cpu::new();
    assert_eq!(cpu.step(0, &program), StepResult::Faulted(ErrorKind::InvalidRegister));
}

#[test]
fn add_overflow_faults_and_leaves_state() {
    // r0 <- u32::MAX; r1 <- 1; r0 <- r0 + r1
    let program: Vec<u32> = vec![11, 0, u32::MAX, 11, 1, 1, 20, 0, 1];
    let mut cpu = Cpu::new();
    assert_eq!(cpu.run(0, &program, 100), RunState::Faulted(ErrorKind::ArithmeticOverflow));
    // the faulting ADD changed nothing
    assert_eq!(cpu.read_register(0), Ok(u32::MAX));
    assert_eq!(cpu.read_register(1), Ok(1));
}

#[test]
fn sub_below_zero_faults() {
    // r0 <- 0; r1 <- 1; r0 <- r0 - r1
    let program: Vec<u32> = vec![11, 0, 0, 11, 1, 1, 21, 0, 1];
    let mut cpu = Cpu::new();
    assert_eq!(cpu.run(0, &program, 100), RunState::Faulted(ErrorKind::ArithmeticOverflow));
}

#[test]
fn sub_computes_difference() {
    // r0 <- 9; r1 <- 3; r0 <- r0 - r1; PRINT r0; HALT
    let program: Vec<u32> = vec![11, 0, 9, 11, 1, 3, 21, 0, 1, 60, 0, 255];
    let mut cpu = Cpu::new();
    assert_eq!(cpu.run(0, &program, 100), RunState::Halted);
    assert_eq!(cpu.outputs(), &vec![6]);
}

#[test]
fn movr_copies_between_registers() {
    // r1 <- 8; r0 <- r1; PRINT r0; HALT
    let program: Vec<u32> = vec![11, 1, 8, 10, 0, 1, 60, 0, 255];
    let mut cpu = Cpu::new();
    assert_eq!(cpu.run(0, &program, 100), RunState::Halted);
    assert_eq!(cpu.outputs(), &vec![8]);
}

#[test]
fn run_with_exhausted_budget_reports_running() {
    // JP 0 — loops for ever; the budget runs out mid-flight
    let program: Vec<u32> = vec![40, 0];
    let mut cpu = Cpu::new();
    assert_eq!(cpu.run(0, &program, 5), RunState::Running(0));
}

#[test]
fn run_with_zero_budget_stays_at_start() {
    let program: Vec<u32> = vec![255];
    let mut cpu = Cpu::new();
    assert_eq!(cpu.run(0, &program, 0), RunState::Running(0));
    assert_eq!(cpu.run(0, &program, 1), RunState::Halted);
}

#[test]
fn run_resumes_from_a_running_state() {
    // r0 <- 5; PRINT r0; HALT — run it one step at a time
    let program: Vec<u32> = vec![11, 0, 5, 60, 0, 255];
    let mut cpu = Cpu::new();
    let mut state = cpu.run(0, &program, 1);
    let mut guard: u32 = 0;
    while let RunState::Running(pc) = state {
        state = cpu.run(pc, &program, 1);
        guard += 1;
        assert!(guard < 10);
    }
    assert_eq!(state, RunState::Halted);
    assert_eq!(cpu.outputs(), &vec![5]);
}
