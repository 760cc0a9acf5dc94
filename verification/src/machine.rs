//! The execution engine: the register file, the shared data/return stack, the
//! single-step transition and the run loop, together with the mathematical
//! model that their contracts are stated over.

use vstd::prelude::*;

use crate::isa::{decode, decode_spec, ErrorKind, Instr};

verus! {

/// Number of general-purpose registers; the only valid indices are
/// `0..REG_COUNT`.
pub const REG_COUNT: u32 = 4;

/// The mathematical state of the machine, excluding the program counter,
/// which the step and run interfaces carry explicitly.
pub struct CpuState {
    /// The register file, always exactly four cells.
    pub regs: Seq<u32>,
    /// The shared stack; the last element of the sequence is the top.
    pub stack: Seq<u32>,
    /// Every value emitted by PRINT so far, in execution order.
    pub output: Seq<u32>,
}

/// What one step decides: continue at a given counter, stop cleanly, or fail.
/// The counter is carried as a mathematical integer; the executable
/// counterpart is [`StepResult`].
pub enum StepOut {
    Next(int),
    Stop,
    Fail(ErrorKind),
}

/// What the executable single step reports: the next program counter, a clean
/// halt, or a fault.
#[derive(Clone, Copy, Debug, PartialEq, Eq, Structural)]
pub enum StepResult {
    Continue(usize),
    Halted,
    Faulted(ErrorKind),
}

/// The machine's status after some number of steps: still running at a given
/// counter, halted cleanly through HALT, or faulted.
#[derive(Clone, Copy, Debug, PartialEq, Eq, Structural)]
pub enum RunState {
    Running(usize),
    Halted,
    Faulted(ErrorKind),
}

/// Whether `r` is a valid register index.
pub open spec fn reg_ok(r: u32) -> bool {
    r < REG_COUNT
}

/// The state after writing `v` to register `reg` (which must be valid).
pub open spec fn write_reg_spec(s: CpuState, reg: u32, v: u32) -> CpuState {
    CpuState { regs: s.regs.update(reg as int, v), stack: s.stack, output: s.output }
}

/// The value held by register `reg` (which must be valid).
pub open spec fn read_reg_spec(s: CpuState, reg: u32) -> u32 {
    s.regs[reg as int]
}

/// The effect of one decoded instruction `i`, fetched at counter `pc`, on
/// state `s`: the state after the instruction and what the step decides.
/// On every fault the state is left unchanged.
///
/// Register-index operands are validated here; POP and RET check the stack
/// before anything else, so an empty stack reports `StackUnderflow` whatever
/// the destination operand holds. ADD and SUB fault with
/// `ArithmeticOverflow` instead of leaving the 32-bit range.
pub open spec fn execute_spec(s: CpuState, pc: int, i: Instr) -> (CpuState, StepOut) {
    match i {
        Instr::Movr { dst, src } => {
            if reg_ok(dst) && reg_ok(src) {
                (write_reg_spec(s, dst, read_reg_spec(s, src)), StepOut::Next(pc + 3))
            } else {
                (s, StepOut::Fail(ErrorKind::InvalidRegister))
            }
        },
        Instr::Movv { dst, imm } => {
            if reg_ok(dst) {
                (write_reg_spec(s, dst, imm), StepOut::Next(pc + 3))
            } else {
                (s, StepOut::Fail(ErrorKind::InvalidRegister))
            }
        },
        Instr::Add { dst, src } => {
            if reg_ok(dst) && reg_ok(src) {
                if read_reg_spec(s, dst) + read_reg_spec(s, src) <= u32::MAX {
                    (
                        write_reg_spec(
                            s,
                            dst,
                            (read_reg_spec(s, dst) + read_reg_spec(s, src)) as u32,
                        ),
                        StepOut::Next(pc + 3),
                    )
                } else {
                    (s, StepOut::Fail(ErrorKind::ArithmeticOverflow))
                }
            } else {
                (s, StepOut::Fail(ErrorKind::InvalidRegister))
            }
        },
        Instr::Sub { dst, src } => {
            if reg_ok(dst) && reg_ok(src) {
                if read_reg_spec(s, dst) >= read_reg_spec(s, src) {
                    (
                        write_reg_spec(
                            s,
                            dst,
                            (read_reg_spec(s, dst) - read_reg_spec(s, src)) as u32,
                        ),
                        StepOut::Next(pc + 3),
                    )
                } else {
                    (s, StepOut::Fail(ErrorKind::ArithmeticOverflow))
                }
            } else {
                (s, StepOut::Fail(ErrorKind::InvalidRegister))
            }
        },
        Instr::Push { src } => {
            if reg_ok(src) {
                (
                    CpuState {
                        regs: s.regs,
                        stack: s.stack.push(read_reg_spec(s, src)),
                        output: s.output,
                    },
                    StepOut::Next(pc + 2),
                )
            } else {
                (s, StepOut::Fail(ErrorKind::InvalidRegister))
            }
        },
        Instr::Pop { dst } => {
            if s.stack.len() == 0 {
                (s, StepOut::Fail(ErrorKind::StackUnderflow))
            } else if reg_ok(dst) {
                (
                    CpuState {
                        regs: s.regs.update(dst as int, s.stack.last()),
                        stack: s.stack.drop_last(),
                        output: s.output,
                    },
                    StepOut::Next(pc + 2),
                )
            } else {
                (s, StepOut::Fail(ErrorKind::InvalidRegister))
            }
        },
        Instr::Jp { target } => (s, StepOut::Next(target as int)),
        Instr::Jl { a, b, target } => {
            if reg_ok(a) && reg_ok(b) {
                if read_reg_spec(s, a) < read_reg_spec(s, b) {
                    (s, StepOut::Next(target as int))
                } else {
                    (s, StepOut::Next(pc + 4))
                }
            } else {
                (s, StepOut::Fail(ErrorKind::InvalidRegister))
            }
        },
        Instr::Call { target } => {
            (
                CpuState {
                    regs: s.regs,
                    stack: s.stack.push((pc + 2) as u32),
                    output: s.output,
                },
                StepOut::Next(target as int),
            )
        },
        Instr::Ret => {
            if s.stack.len() == 0 {
                (s, StepOut::Fail(ErrorKind::StackUnderflow))
            } else {
                (
                    CpuState { regs: s.regs, stack: s.stack.drop_last(), output: s.output },
                    StepOut::Next(s.stack.last() as int),
                )
            }
        },
        Instr::Print { src } => {
            if reg_ok(src) {
                (
                    CpuState {
                        regs: s.regs,
                        stack: s.stack,
                        output: s.output.push(read_reg_spec(s, src)),
                    },
                    StepOut::Next(pc + 2),
                )
            } else {
                (s, StepOut::Fail(ErrorKind::InvalidRegister))
            }
        },
        Instr::Halt => (s, StepOut::Stop),
    }
}

/// One full fetch-decode-execute step at counter `pc`: a decode failure is
/// the step's failure with the state unchanged, and a decoded instruction
/// takes effect through [`execute_spec`].
pub open spec fn step_spec(s: CpuState, pc: int, prog: Seq<u32>) -> (CpuState, StepOut) {
    match decode_spec(prog, pc) {
        Ok(i) => execute_spec(s, pc, i),
        Err(e) => (s, StepOut::Fail(e)),
    }
}

/// Whether the executable step result `r` reports exactly the decision `o`.
pub open spec fn res_matches(r: StepResult, o: StepOut) -> bool {
    match r {
        StepResult::Continue(n) => o == StepOut::Next(n as int),
        StepResult::Halted => o == StepOut::Stop,
        StepResult::Faulted(e) => o == StepOut::Fail(e),
    }
}

/// The full contract of one executable step: starting from `s0` at counter
/// `pc`, the machine is left in the state that [`step_spec`] gives and the
/// result reports the decision that [`step_spec`] gives.
pub open spec fn step_matches(
    s0: CpuState,
    pc: int,
    prog: Seq<u32>,
    s1: CpuState,
    r: StepResult,
) -> bool {
    s1 == step_spec(s0, pc, prog).0 && res_matches(r, step_spec(s0, pc, prog).1)
}

/// The machine-level status carried between steps of a run: still running at
/// some counter, halted cleanly, or faulted.
pub enum MachStatus {
    Running(int),
    Halted,
    Faulted(ErrorKind),
}

/// One transition of a whole run: a running machine takes one step; a halted
/// or faulted machine stays as it is.
pub open spec fn advance(s: CpuState, st: MachStatus, prog: Seq<u32>) -> (CpuState, MachStatus) {
    match st {
        MachStatus::Running(pc) => {
            match step_spec(s, pc, prog).1 {
                StepOut::Next(pc2) => (step_spec(s, pc, prog).0, MachStatus::Running(pc2)),
                StepOut::Stop => (step_spec(s, pc, prog).0, MachStatus::Halted),
                StepOut::Fail(e) => (step_spec(s, pc, prog).0, MachStatus::Faulted(e)),
            }
        },
        MachStatus::Halted => (s, st),
        MachStatus::Faulted(_) => (s, st),
    }
}

/// The machine after exactly `n` transitions of [`advance`], starting from
/// state `s` running at counter `pc`.
pub open spec fn run_n(s: CpuState, pc: int, prog: Seq<u32>, n: nat) -> (CpuState, MachStatus)
    decreases n,
{
    if n == 0 {
        (s, MachStatus::Running(pc))
    } else {
        advance(
            run_n(s, pc, prog, (n - 1) as nat).0,
            run_n(s, pc, prog, (n - 1) as nat).1,
            prog,
        )
    }
}

/// Whether the reported run state `r` is exactly the machine status `st`.
pub open spec fn run_state_matches(r: RunState, st: MachStatus) -> bool {
    match r {
        RunState::Running(pc) => st == MachStatus::Running(pc as int),
        RunState::Halted => st == MachStatus::Halted,
        RunState::Faulted(e) => st == MachStatus::Faulted(e),
    }
}

/// Once a run has left `Running`, further [`advance`] transitions change
/// nothing: the status after `m >= n` transitions is the status after `n`.
pub proof fn lemma_run_n_stable(s: CpuState, pc: int, prog: Seq<u32>, n: nat, m: nat)
    requires
        n <= m,
        !(run_n(s, pc, prog, n).1 matches MachStatus::Running(_)),
    ensures
        run_n(s, pc, prog, m) == run_n(s, pc, prog, n),
    decreases m,
{
    if m > n {
        lemma_run_n_stable(s, pc, prog, n, (m - 1) as nat);
    }
}

/// Law: writing a value to a valid register and then reading that register
/// back yields exactly the written value.
pub proof fn lemma_write_then_read(s: CpuState, reg: u32, v: u32)
    requires
        s.regs.len() == REG_COUNT,
        reg_ok(reg),
    ensures
        read_reg_spec(write_reg_spec(s, reg, v), reg) == v,
{
}

/// Law: from a state whose stack is empty, PUSH of a valid register followed
/// by POP into a valid register moves the pushed value into the destination
/// register, leaves the stack empty again, and changes nothing else. The two
/// instructions sit at `pc` and `pc + 2` of any program that encodes them
/// there.
pub proof fn lemma_push_then_pop(s: CpuState, pc: int, prog: Seq<u32>, src: u32, dst: u32)
    requires
        s.regs.len() == REG_COUNT,
        s.stack.len() == 0,
        reg_ok(src),
        reg_ok(dst),
        0 <= pc,
        pc + 3 < prog.len(),
        prog[pc] == crate::isa::OP_PUSH,
        prog[pc + 1] == src,
        prog[pc + 2] == crate::isa::OP_POP,
        prog[pc + 3] == dst,
    ensures
        step_spec(s, pc, prog).1 == StepOut::Next(pc + 2),
        step_spec(s, pc, prog).0.stack == s.stack.push(s.regs[src as int]),
        step_spec(step_spec(s, pc, prog).0, pc + 2, prog).1 == StepOut::Next(pc + 4),
        step_spec(step_spec(s, pc, prog).0, pc + 2, prog).0 == (CpuState {
            regs: s.regs.update(dst as int, s.regs[src as int]),
            stack: s.stack,
            output: s.output,
        }),
{
    let s1 = step_spec(s, pc, prog).0;
    assert(s1.stack.drop_last() =~= s.stack);
}

/// Law: POP and RET executed on an empty stack fault with `StackUnderflow`,
/// whatever their operand holds, and leave the state unchanged.
pub proof fn lemma_empty_stack_underflow(s: CpuState, pc: int, i: Instr)
    requires
        s.stack.len() == 0,
        ((i matches Instr::Pop { .. }) || i == Instr::Ret),
    ensures
        execute_spec(s, pc, i) == (s, StepOut::Fail(ErrorKind::StackUnderflow)),
{
}

/// Law: JL on valid register indices jumps to the target exactly when the
/// first register's value is below the second's, and otherwise falls through
/// to `pc + 4`; either way the state is untouched.
pub proof fn lemma_jl_branches(s: CpuState, pc: int, a: u32, b: u32, target: u32)
    requires
        s.regs.len() == REG_COUNT,
        reg_ok(a),
        reg_ok(b),
    ensures
        execute_spec(s, pc, Instr::Jl { a, b, target }).0 == s,
        s.regs[a as int] < s.regs[b as int] ==> execute_spec(s, pc, Instr::Jl { a, b, target }).1
            == StepOut::Next(target as int),
        s.regs[a as int] >= s.regs[b as int] ==> execute_spec(s, pc, Instr::Jl { a, b, target }).1
            == StepOut::Next(pc + 4),
{
}

/// Law: CALL at `pc` pushes the return address `pc + 2` — the cell right
/// after the CALL instruction — and transfers control to the target; a RET
/// that later runs on a stack whose top is still that return address (here:
/// the stack the CALL left) pops it and resumes at `pc + 2`.
pub proof fn lemma_call_then_ret(s: CpuState, pc: int, target: u32, t: CpuState, ret_pc: int)
    requires
        0 <= pc,
        pc + 2 <= u32::MAX,
        t.stack == s.stack.push((pc + 2) as u32),
    ensures
        execute_spec(s, pc, Instr::Call { target }) == (
            CpuState { regs: s.regs, stack: s.stack.push((pc + 2) as u32), output: s.output },
            StepOut::Next(target as int),
        ),
        execute_spec(t, ret_pc, Instr::Ret) == (
            CpuState { regs: t.regs, stack: s.stack, output: t.output },
            StepOut::Next(pc + 2),
        ),
{
    assert(t.stack.drop_last() =~= s.stack);
    assert(t.stack.last() == (pc + 2) as u32);
}

/// Law: a step taken with the counter outside the program — and likewise one
/// whose instruction needs operand cells that lie outside it — faults with
/// `OutOfBoundsFetch` and changes nothing; no cell beyond the program is
/// ever read.
pub proof fn lemma_out_of_bounds_fetch(s: CpuState, pc: int, prog: Seq<u32>)
    ensures
        !(0 <= pc < prog.len()) ==> step_spec(s, pc, prog) == (
            s,
            StepOut::Fail(ErrorKind::OutOfBoundsFetch),
        ),
        decode_spec(prog, pc) == Err::<Instr, ErrorKind>(ErrorKind::OutOfBoundsFetch)
            ==> step_spec(s, pc, prog) == (s, StepOut::Fail(ErrorKind::OutOfBoundsFetch)),
{
}

/// Law: a run whose counter ever lands outside the program reports
/// `OutOfBoundsFetch` on its very next transition, with the state it had
/// when it landed there.
pub proof fn lemma_run_out_of_bounds(s: CpuState, pc0: int, prog: Seq<u32>, n: nat)
    requires
        (run_n(s, pc0, prog, n).1 matches MachStatus::Running(pc) && !(0 <= pc < prog.len())),
    ensures
        run_n(s, pc0, prog, n + 1) == (
            run_n(s, pc0, prog, n).0,
            MachStatus::Faulted(ErrorKind::OutOfBoundsFetch),
        ),
{
}

/// The execution engine: four general-purpose registers and one stack shared
/// by PUSH/POP data and CALL/RET return addresses. PRINT output is collected
/// in order, so a caller can observe it after (or between) steps.
pub struct Cpu {
    regs: Vec<u32>,
    stack: Vec<u32>,
    output: Vec<u32>,
}

impl View for Cpu {
    type V = CpuState;

    closed spec fn view(&self) -> CpuState {
        CpuState { regs: self.regs@, stack: self.stack@, output: self.output@ }
    }
}

impl Cpu {
    /// Well-formedness: the register file holds exactly four cells.
    pub open spec fn wf(&self) -> bool {
        self@.regs.len() == REG_COUNT
    }

    /// A fresh machine: all registers zero, empty stack, no output yet.
    pub fn new() -> (c: Cpu)
        ensures
            c.wf(),
            c@.regs == seq![0u32, 0u32, 0u32, 0u32],
            c@.stack == Seq::<u32>::empty(),
            c@.output == Seq::<u32>::empty(),
    {
        Cpu { regs: vec![0u32, 0u32, 0u32, 0u32], stack: Vec::new(), output: Vec::new() }
    }

    /// The value of register `reg`, or `InvalidRegister` for an index outside
    /// 0..=3.
    pub fn read_register(&self, reg: u32) -> (r: Result<u32, ErrorKind>)
        requires
            self.wf(),
        ensures
            reg_ok(reg) ==> r == Ok::<u32, ErrorKind>(read_reg_spec(self@, reg)),
            !reg_ok(reg) ==> r == Err::<u32, ErrorKind>(ErrorKind::InvalidRegister),
    {
        if reg < REG_COUNT {
            Ok(self.regs[reg as usize])
        } else {
            Err(ErrorKind::InvalidRegister)
        }
    }

    /// Store `value` in register `reg`, or report `InvalidRegister` for an
    /// index outside 0..=3 and leave the machine unchanged.
    pub fn write_register(&mut self, reg: u32, value: u32) -> (r: Result<(), ErrorKind>)
        requires
            old(self).wf(),
        ensures
            final(self).wf(),
            reg_ok(reg) ==> r == Ok::<(), ErrorKind>(()) && final(self)@ == write_reg_spec(
                old(self)@,
                reg,
                value,
            ),
            !reg_ok(reg) ==> r == Err::<(), ErrorKind>(ErrorKind::InvalidRegister) && final(self)@
                == old(self)@,
    {
        if reg < REG_COUNT {
            self.regs[reg as usize] = value;
            Ok(())
        } else {
            Err(ErrorKind::InvalidRegister)
        }
    }

    /// One fetch-decode-execute step: fetch the instruction at counter `pc`
    /// of `program`, apply its effect to the registers, the stack and the
    /// output, and report the next counter, a clean halt, or a fault. The
    /// relation to the model is exactly [`step_matches`]: the new machine
    /// state and the reported result are those of [`step_spec`].
    ///
    /// The bound on the program length keeps every return address a CALL can
    /// push inside the 32-bit range of a stack cell.
    pub fn step(&mut self, pc: usize, program: &Vec<u32>) -> (r: StepResult)
        requires
            old(self).wf(),
            program@.len() + 2 <= u32::MAX,
        ensures
            final(self).wf(),
            step_matches(old(self)@, pc as int, program@, final(self)@, r),
    {
        let inst: Instr = match decode(program, pc) {
            Ok(i) => i,
            Err(e) => {
                return StepResult::Faulted(e);
            },
        };
        match inst {
            Instr::Movr { dst, src } => {
                if dst < REG_COUNT && src < REG_COUNT {
                    let v: u32 = self.regs[src as usize];
                    self.regs[dst as usize] = v;
                    StepResult::Continue(pc + 3)
                } else {
                    StepResult::Faulted(ErrorKind::InvalidRegister)
                }
            },
            Instr::Movv { dst, imm } => {
                if dst < REG_COUNT {
                    self.regs[dst as usize] = imm;
                    StepResult::Continue(pc + 3)
                } else {
                    StepResult::Faulted(ErrorKind::InvalidRegister)
                }
            },
            Instr::Add { dst, src } => {
                if dst < REG_COUNT && src < REG_COUNT {
                    let a: u32 = self.regs[dst as usize];
                    let b: u32 = self.regs[src as usize];
                    if b <= u32::MAX - a {
                        self.regs[dst as usize] = a + b;
                        StepResult::Continue(pc + 3)
                    } else {
                        StepResult::Faulted(ErrorKind::ArithmeticOverflow)
                    }
                } else {
                    StepResult::Faulted(ErrorKind::InvalidRegister)
                }
            },
            Instr::Sub { dst, src } => {
                if dst < REG_COUNT && src < REG_COUNT {
                    let a: u32 = self.regs[dst as usize];
                    let b: u32 = self.regs[src as usize];
                    if a >= b {
                        self.regs[dst as usize] = a - b;
                        StepResult::Continue(pc + 3)
                    } else {
                        StepResult::Faulted(ErrorKind::ArithmeticOverflow)
                    }
                } else {
                    StepResult::Faulted(ErrorKind::InvalidRegister)
                }
            },
            Instr::Push { src } => {
                if src < REG_COUNT {
                    let v: u32 = self.regs[src as usize];
                    self.stack.push(v);
                    StepResult::Continue(pc + 2)
                } else {
                    StepResult::Faulted(ErrorKind::InvalidRegister)
                }
            },
            Instr::Pop { dst } => {
                if self.stack.len() == 0 {
                    StepResult::Faulted(ErrorKind::StackUnderflow)
                } else if dst < REG_COUNT {
                    let v: u32 = self.stack.pop().unwrap();
                    self.regs[dst as usize] = v;
                    StepResult::Continue(pc + 2)
                } else {
                    StepResult::Faulted(ErrorKind::InvalidRegister)
                }
            },
            Instr::Jp { target } => StepResult::Continue(target as usize),
            Instr::Jl { a, b, target } => {
                if a < REG_COUNT && b < REG_COUNT {
                    if self.regs[a as usize] < self.regs[b as usize] {
                        StepResult::Continue(target as usize)
                    } else {
                        StepResult::Continue(pc + 4)
                    }
                } else {
                    StepResult::Faulted(ErrorKind::InvalidRegister)
                }
            },
            Instr::Call { target } => {
                self.stack.push((pc + 2) as u32);
                StepResult::Continue(target as usize)
            },
            Instr::Ret => {
                if self.stack.len() == 0 {
                    StepResult::Faulted(ErrorKind::StackUnderflow)
                } else {
                    let v: u32 = self.stack.pop().unwrap();
                    StepResult::Continue(v as usize)
                }
            },
            Instr::Print { src } => {
                if src < REG_COUNT {
                    let v: u32 = self.regs[src as usize];
                    self.output.push(v);
                    StepResult::Continue(pc + 2)
                } else {
                    StepResult::Faulted(ErrorKind::InvalidRegister)
                }
            },
            Instr::Halt => StepResult::Halted,
        }
    }

    /// Drive the machine from `start_pc`, stepping until it halts, faults,
    /// or has taken `max_steps` steps. The machine itself has no iteration
    /// bound — a program that never reaches HALT and never faults runs for
    /// ever — so an unbounded driver simply calls this again (or calls
    /// [`Cpu::step`] directly) from the counter a `Running` result carries.
    ///
    /// The contract is exact: the machine is left in the state that
    /// `max_steps` transitions of [`advance`] produce, and the returned
    /// status is the status those transitions end in. (A run that halts or
    /// faults earlier is covered by the same words, since a machine that has
    /// left `Running` no longer changes.)
    #[verifier::loop_isolation(false)]
    pub fn run(&mut self, start_pc: usize, program: &Vec<u32>, max_steps: usize) -> (r: RunState)
        requires
            old(self).wf(),
            program@.len() + 2 <= u32::MAX,
        ensures
            final(self).wf(),
            final(self)@ == run_n(old(self)@, start_pc as int, program@, max_steps as nat).0,
            run_state_matches(r, run_n(old(self)@, start_pc as int, program@, max_steps as nat).1),
    {
        let ghost init: CpuState = self@;
        let mut pc: usize = start_pc;
        let mut taken: usize = 0;
        while taken < max_steps
            invariant
                self.wf(),
                program@.len() + 2 <= u32::MAX,
                taken <= max_steps,
                run_n(init, start_pc as int, program@, taken as nat) == (
                    self@,
                    MachStatus::Running(pc as int),
                ),
            decreases max_steps - taken,
        {
            let ghost before: CpuState = self@;
            let r: StepResult = self.step(pc, program);
            taken = taken + 1;
            proof {
                assert(run_n(init, start_pc as int, program@, taken as nat) == advance(
                    before,
                    MachStatus::Running(pc as int),
                    program@,
                ));
            }
            match r {
                StepResult::Continue(next) => {
                    pc = next;
                },
                StepResult::Halted => {
                    proof {
                        lemma_run_n_stable(
                            init,
                            start_pc as int,
                            program@,
                            taken as nat,
                            max_steps as nat,
                        );
                    }
                    return RunState::Halted;
                },
                StepResult::Faulted(e) => {
                    proof {
                        lemma_run_n_stable(
                            init,
                            start_pc as int,
                            program@,
                            taken as nat,
                            max_steps as nat,
                        );
                    }
                    return RunState::Faulted(e);
                },
            }
        }
        RunState::Running(pc)
    }

    /// The values PRINT has emitted so far, in execution order.
    pub fn outputs(&self) -> (r: &Vec<u32>)
        ensures
            r@ == self@.output,
    {
        &self.output
    }

    /// How many values the stack currently holds.
    pub fn stack_size(&self) -> (n: usize)
        ensures
            n == self@.stack.len(),
    {
        self.stack.len()
    }
}

} // verus!
