//! One decode/execute cycle: the specification of every opcode's exact
//! effect on the machine, and the verified executor for a single step.

use vstd::prelude::*;

use crate::isa::{Arg, Instruction, Op, RuntimeError};
use crate::isa::spec_decode;
use crate::vm::{VmView, MEMORY_SIZE};

verus! {

/// What one step of the machine did: kept running (perhaps emitting one
/// output character code), stopped for good, asked for input it does not
/// have, or failed.
#[derive(Clone, Copy, Debug, PartialEq, Eq, Structural)]
pub enum StepCtl {
    Running,
    Output(u16),
    Halted,
    NeedInput,
    Failed(RuntimeError),
}

/// The full outcome of one specified step: the machine state afterwards, the
/// input characters still unread, and what the step did.
#[verifier::ext_equal]
pub ghost struct StepSpec {
    pub vm: VmView,
    pub input: Seq<u16>,
    pub ctl: StepCtl,
}

/// The sum of two words reduced into the 15-bit range.
pub open spec fn spec_add(b: u16, c: u16) -> u16 {
    ((b + c) % 32768) as u16
}

/// The product of two words reduced into the 15-bit range.
pub open spec fn spec_mult(b: u16, c: u16) -> u16 {
    ((b * c) % 32768) as u16
}

/// The bitwise complement of a word within the 15-bit mask.
pub open spec fn spec_not(b: u16) -> u16 {
    !b & 0x7fff
}

/// The effect of one already-decoded instruction on state `v`, where `pc2`
/// is the address just past the instruction and `input` the unread input.
/// An instruction whose destination slot does not name a register — or whose
/// slots do not fit its opcode — cannot be handled.
pub open spec fn spec_exec(v: VmView, inst: Instruction, pc2: int, input: Seq<u16>) -> StepSpec {
    match (inst.op, inst.a, inst.b, inst.c) {
        (Op::Halt, _, _, _) => StepSpec {
            vm: VmView { pc: pc2, ..v },
            input,
            ctl: StepCtl::Halted,
        },
        (Op::Noop, _, _, _) => StepSpec {
            vm: VmView { pc: pc2, ..v },
            input,
            ctl: StepCtl::Running,
        },
        (Op::Ret, _, _, _) => {
            if v.stack.len() == 0 {
                StepSpec { vm: VmView { pc: pc2, ..v }, input, ctl: StepCtl::Halted }
            } else {
                StepSpec {
                    vm: VmView { pc: v.stack.last() as int, stack: v.stack.drop_last(), ..v },
                    input,
                    ctl: StepCtl::Running,
                }
            }
        },
        (Op::Out, Some(a), _, _) => {
            let w = v.value_of(a);
            if w <= 255 {
                StepSpec { vm: VmView { pc: pc2, ..v }, input, ctl: StepCtl::Output(w) }
            } else {
                StepSpec { vm: v, input, ctl: StepCtl::Failed(RuntimeError::NonCharacterValue) }
            }
        },
        (Op::Jmp, Some(a), _, _) => StepSpec {
            vm: VmView { pc: v.value_of(a) as int, ..v },
            input,
            ctl: StepCtl::Running,
        },
        (Op::Push, Some(a), _, _) => StepSpec {
            vm: VmView { pc: pc2, stack: v.stack.push(v.value_of(a)), ..v },
            input,
            ctl: StepCtl::Running,
        },
        (Op::Pop, Some(Arg::Register(r)), _, _) => {
            if v.stack.len() == 0 {
                StepSpec { vm: v, input, ctl: StepCtl::Failed(RuntimeError::StackUnderflow) }
            } else {
                StepSpec {
                    vm: VmView {
                        pc: pc2,
                        registers: v.registers.update(r as int, v.stack.last()),
                        stack: v.stack.drop_last(),
                        ..v
                    },
                    input,
                    ctl: StepCtl::Running,
                }
            }
        },
        (Op::Call, Some(a), _, _) => StepSpec {
            vm: VmView { pc: v.value_of(a) as int, stack: v.stack.push(pc2 as u16), ..v },
            input,
            ctl: StepCtl::Running,
        },
        (Op::In, Some(Arg::Register(r)), _, _) => {
            if input.len() == 0 {
                StepSpec { vm: v, input, ctl: StepCtl::NeedInput }
            } else {
                StepSpec {
                    vm: VmView {
                        pc: pc2,
                        registers: v.registers.update(r as int, input.first()),
                        ..v
                    },
                    input: input.drop_first(),
                    ctl: StepCtl::Running,
                }
            }
        },
        (Op::Jt, Some(a), Some(b), _) => StepSpec {
            vm: VmView {
                pc: if v.value_of(a) != 0 {
                    v.value_of(b) as int
                } else {
                    pc2
                },
                ..v
            },
            input,
            ctl: StepCtl::Running,
        },
        (Op::Jf, Some(a), Some(b), _) => StepSpec {
            vm: VmView {
                pc: if v.value_of(a) == 0 {
                    v.value_of(b) as int
                } else {
                    pc2
                },
                ..v
            },
            input,
            ctl: StepCtl::Running,
        },
        (Op::SetReg, Some(Arg::Register(r)), Some(b), _) => StepSpec {
            vm: VmView { pc: pc2, registers: v.registers.update(r as int, v.value_of(b)), ..v },
            input,
            ctl: StepCtl::Running,
        },
        (Op::Not, Some(Arg::Register(r)), Some(b), _) => StepSpec {
            vm: VmView {
                pc: pc2,
                registers: v.registers.update(r as int, spec_not(v.value_of(b))),
                ..v
            },
            input,
            ctl: StepCtl::Running,
        },
        (Op::Rmem, Some(Arg::Register(r)), Some(b), _) => {
            let addr = v.value_of(b);
            if addr < MEMORY_SIZE as u16 {
                StepSpec {
                    vm: VmView {
                        pc: pc2,
                        registers: v.registers.update(r as int, v.memory[addr as int]),
                        ..v
                    },
                    input,
                    ctl: StepCtl::Running,
                }
            } else {
                StepSpec { vm: v, input, ctl: StepCtl::Failed(RuntimeError::OutOfRangeAddress) }
            }
        },
        (Op::Wmem, Some(a), Some(b), _) => {
            let addr = v.value_of(a);
            if addr < MEMORY_SIZE as u16 {
                StepSpec {
                    vm: VmView {
                        pc: pc2,
                        memory: v.memory.update(addr as int, v.value_of(b)),
                        ..v
                    },
                    input,
                    ctl: StepCtl::Running,
                }
            } else {
                StepSpec { vm: v, input, ctl: StepCtl::Failed(RuntimeError::OutOfRangeAddress) }
            }
        },
        (Op::Add, Some(Arg::Register(r)), Some(b), Some(c)) => StepSpec {
            vm: VmView {
                pc: pc2,
                registers: v.registers.update(r as int, spec_add(v.value_of(b), v.value_of(c))),
                ..v
            },
            input,
            ctl: StepCtl::Running,
        },
        (Op::Mult, Some(Arg::Register(r)), Some(b), Some(c)) => StepSpec {
            vm: VmView {
                pc: pc2,
                registers: v.registers.update(r as int, spec_mult(v.value_of(b), v.value_of(c))),
                ..v
            },
            input,
            ctl: StepCtl::Running,
        },
        (Op::Mod, Some(Arg::Register(r)), Some(b), Some(c)) => {
            if v.value_of(c) == 0 {
                StepSpec { vm: v, input, ctl: StepCtl::Failed(RuntimeError::DivisionByZero) }
            } else {
                StepSpec {
                    vm: VmView {
                        pc: pc2,
                        registers: v.registers.update(
                            r as int,
                            ((v.value_of(b) % v.value_of(c)) as u16),
                        ),
                        ..v
                    },
                    input,
                    ctl: StepCtl::Running,
                }
            }
        },
        (Op::Eq, Some(Arg::Register(r)), Some(b), Some(c)) => StepSpec {
            vm: VmView {
                pc: pc2,
                registers: v.registers.update(
                    r as int,
                    if v.value_of(b) == v.value_of(c) {
                        1u16
                    } else {
                        0u16
                    },
                ),
                ..v
            },
            input,
            ctl: StepCtl::Running,
        },
        (Op::Gt, Some(Arg::Register(r)), Some(b), Some(c)) => StepSpec {
            vm: VmView {
                pc: pc2,
                registers: v.registers.update(
                    r as int,
                    if v.value_of(b) > v.value_of(c) {
                        1u16
                    } else {
                        0u16
                    },
                ),
                ..v
            },
            input,
            ctl: StepCtl::Running,
        },
        (Op::And, Some(Arg::Register(r)), Some(b), Some(c)) => StepSpec {
            vm: VmView {
                pc: pc2,
                registers: v.registers.update(r as int, v.value_of(b) & v.value_of(c)),
                ..v
            },
            input,
            ctl: StepCtl::Running,
        },
        (Op::Or, Some(Arg::Register(r)), Some(b), Some(c)) => StepSpec {
            vm: VmView {
                pc: pc2,
                registers: v.registers.update(r as int, v.value_of(b) | v.value_of(c)),
                ..v
            },
            input,
            ctl: StepCtl::Running,
        },
        _ => StepSpec { vm: v, input, ctl: StepCtl::Failed(RuntimeError::InvalidDestination) },
    }
}

/// One whole step from state `v` with unread input `input`: a counter
/// outside memory stops the run gracefully; otherwise the instruction under
/// the counter is decoded (a decode failure fails the step) and executed.
pub open spec fn spec_step(v: VmView, input: Seq<u16>) -> StepSpec {
    if !(0 <= v.pc < v.memory.len()) {
        StepSpec { vm: v, input, ctl: StepCtl::Halted }
    } else {
        match spec_decode(v.memory, v.pc) {
            Err(e) => StepSpec { vm: v, input, ctl: StepCtl::Failed(e) },
            Ok((inst, pc2)) => spec_exec(v, inst, pc2, input),
        }
    }
}

/// The sum of two words reduced into the 15-bit range, computed with a wide
/// intermediate so the reduction happens before any overflow.
pub fn add_words(b: u16, c: u16) -> (r: u16)
    ensures
        r == spec_add(b, c),
        r < 32768,
{
    ((b as u32 + c as u32) % 32768) as u16
}

/// The product of two words reduced into the 15-bit range, computed with a
/// wide intermediate so the reduction happens before any overflow.
pub fn mult_words(b: u16, c: u16) -> (r: u16)
    ensures
        r == spec_mult(b, c),
        r < 32768,
{
    proof {
        assert((b as u32) * (c as u32) <= 0xffff_ffff) by (nonlinear_arith)
            requires
                b <= 0xffff,
                c <= 0xffff,
        ;
        assert(b * c >= 0) by (nonlinear_arith);
    }
    ((b as u32 * c as u32) % 32768) as u16
}


} // verus!

