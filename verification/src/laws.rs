//! The architecture's general guarantees, stated and proved once over the
//! specification-level semantics.  In every lemma `v` is the machine state
//! in which the instruction executes and `pc2` the address just past the
//! instruction — the address execution falls through to when no transfer
//! happens.

use vstd::prelude::*;

use crate::isa::{Arg, DecodeError, Instruction, Op, RuntimeError};
use crate::isa::{spec_arg, spec_decode, spec_op};
use crate::step::{spec_exec, spec_step, StepCtl};
use crate::vm::VmView;

verus! {

/// Law: an Add instruction leaves in its destination register exactly the
/// sum of its two resolved operand values reduced modulo 32768 — also when
/// the plain sum does not fit in 16 bits — and touches nothing else.
pub proof fn lemma_add_mod(v: VmView, inp: Seq<u16>, r: usize, b: Arg, c: Arg, pc2: int)
    requires
        v.wf(),
        r < 8,
    ensures
        ({
            let s = spec_exec(
                v,
                Instruction { op: Op::Add, a: Some(Arg::Register(r)), b: Some(b), c: Some(c) },
                pc2,
                inp,
            );
            &&& s.ctl == StepCtl::Running
            &&& s.vm.registers[r as int] as int == (v.value_of(b) + v.value_of(c)) % 32768
            &&& (forall|j: int| 0 <= j < 8 && j != r ==> s.vm.registers[j] == v.registers[j])
            &&& s.vm.memory == v.memory
            &&& s.vm.stack == v.stack
            &&& s.vm.pc == pc2
        }),
{
}

/// Law: a Mult instruction leaves in its destination register exactly the
/// product of its two resolved operand values reduced modulo 32768 — also
/// when the plain product does not fit in 16 bits — and touches nothing
/// else.
pub proof fn lemma_mult_mod(v: VmView, inp: Seq<u16>, r: usize, b: Arg, c: Arg, pc2: int)
    requires
        v.wf(),
        r < 8,
    ensures
        ({
            let s = spec_exec(
                v,
                Instruction { op: Op::Mult, a: Some(Arg::Register(r)), b: Some(b), c: Some(c) },
                pc2,
                inp,
            );
            &&& s.ctl == StepCtl::Running
            &&& s.vm.registers[r as int] as int == (v.value_of(b) * v.value_of(c)) % 32768
            &&& (forall|j: int| 0 <= j < 8 && j != r ==> s.vm.registers[j] == v.registers[j])
            &&& s.vm.memory == v.memory
            &&& s.vm.stack == v.stack
            &&& s.vm.pc == pc2
        }),
{
}

/// Law: an Eq instruction writes exactly 1 when its two resolved operand
/// values are equal and exactly 0 otherwise — never any other value.
pub proof fn lemma_eq_flag(v: VmView, inp: Seq<u16>, r: usize, b: Arg, c: Arg, pc2: int)
    requires
        v.wf(),
        r < 8,
    ensures
        ({
            let s = spec_exec(
                v,
                Instruction { op: Op::Eq, a: Some(Arg::Register(r)), b: Some(b), c: Some(c) },
                pc2,
                inp,
            );
            &&& s.ctl == StepCtl::Running
            &&& s.vm.registers[r as int] == (if v.value_of(b) == v.value_of(c) {
                1u16
            } else {
                0u16
            })
            &&& (s.vm.registers[r as int] == 0 || s.vm.registers[r as int] == 1)
        }),
{
}

/// Law: a Gt instruction writes exactly 1 when its first resolved operand
/// value exceeds its second and exactly 0 otherwise — never any other
/// value.
pub proof fn lemma_gt_flag(v: VmView, inp: Seq<u16>, r: usize, b: Arg, c: Arg, pc2: int)
    requires
        v.wf(),
        r < 8,
    ensures
        ({
            let s = spec_exec(
                v,
                Instruction { op: Op::Gt, a: Some(Arg::Register(r)), b: Some(b), c: Some(c) },
                pc2,
                inp,
            );
            &&& s.ctl == StepCtl::Running
            &&& s.vm.registers[r as int] == (if v.value_of(b) > v.value_of(c) {
                1u16
            } else {
                0u16
            })
            &&& (s.vm.registers[r as int] == 0 || s.vm.registers[r as int] == 1)
        }),
{
}

/// Law: with a Jt instruction encoded at the program counter — opcode word
/// 7, then a condition operand and a target operand — the machine transfers
/// control exactly when the condition resolves to a non-zero value, and
/// otherwise falls through to the next instruction, three words on.
pub proof fn lemma_jt_step(v: VmView, inp: Seq<u16>, a: Arg, b: Arg)
    requires
        v.wf(),
        v.pc + 3 <= v.memory.len(),
        v.memory[v.pc] == 7,
        spec_arg(v.memory[v.pc + 1]) == Some(a),
        spec_arg(v.memory[v.pc + 2]) == Some(b),
    ensures
        ({
            let s = spec_step(v, inp);
            &&& s.ctl == StepCtl::Running
            &&& s.vm.pc == (if v.value_of(a) != 0 {
                v.value_of(b) as int
            } else {
                v.pc + 3
            })
            &&& s.vm.registers == v.registers
            &&& s.vm.memory == v.memory
            &&& s.vm.stack == v.stack
        }),
{
}

/// Law: with a Jf instruction encoded at the program counter — opcode word
/// 8, then a condition operand and a target operand — the machine transfers
/// control exactly when the condition resolves to zero, and otherwise falls
/// through to the next instruction, three words on.
pub proof fn lemma_jf_step(v: VmView, inp: Seq<u16>, a: Arg, b: Arg)
    requires
        v.wf(),
        v.pc + 3 <= v.memory.len(),
        v.memory[v.pc] == 8,
        spec_arg(v.memory[v.pc + 1]) == Some(a),
        spec_arg(v.memory[v.pc + 2]) == Some(b),
    ensures
        ({
            let s = spec_step(v, inp);
            &&& s.ctl == StepCtl::Running
            &&& s.vm.pc == (if v.value_of(a) == 0 {
                v.value_of(b) as int
            } else {
                v.pc + 3
            })
            &&& s.vm.registers == v.registers
            &&& s.vm.memory == v.memory
            &&& s.vm.stack == v.stack
        }),
{
}

/// Law: a Push encoded at the program counter followed immediately by a Pop
/// into register `r` leaves `r` holding the pushed value, the stack exactly
/// as it was before the Push, and the counter past both instructions.
pub proof fn lemma_push_pop_adjacent(v: VmView, inp: Seq<u16>, x: Arg, r: usize)
    requires
        v.wf(),
        v.pc + 4 <= v.memory.len(),
        v.memory[v.pc] == 2,
        spec_arg(v.memory[v.pc + 1]) == Some(x),
        v.memory[v.pc + 2] == 3,
        v.memory[v.pc + 3] == 32768 + r,
        r < 8,
    ensures
        ({
            let s1 = spec_step(v, inp);
            let s2 = spec_step(s1.vm, inp);
            &&& s1.ctl == StepCtl::Running
            &&& s2.ctl == StepCtl::Running
            &&& s2.vm.registers[r as int] == v.value_of(x)
            &&& s2.vm.stack == v.stack
            &&& s2.vm.stack.len() == v.stack.len()
            &&& s2.vm.pc == v.pc + 4
        }),
{
    let s1 = spec_step(v, inp);
    assert(spec_arg(v.memory[v.pc + 3]) == Some(Arg::Register(r)));
    assert(s1.vm.stack == v.stack.push(v.value_of(x)));
    assert(s1.vm.stack.last() == v.value_of(x));
    assert(s1.vm.stack.drop_last() =~= v.stack);
}

/// Law: a Call encoded at the program counter pushes the address of the
/// word right after itself and jumps to its target; a Ret executed later,
/// in any state whose stack the called routine left as the Call made it,
/// resumes at exactly that address with the stack restored to what it was
/// before the Call.
pub proof fn lemma_call_ret_step(v: VmView, v2: VmView, inp: Seq<u16>, t: Arg)
    requires
        v.wf(),
        v2.wf(),
        v.pc + 2 <= v.memory.len(),
        v.memory[v.pc] == 17,
        spec_arg(v.memory[v.pc + 1]) == Some(t),
        v2.stack == spec_step(v, inp).vm.stack,
        0 <= v2.pc < v2.memory.len(),
        v2.memory[v2.pc] == 18,
    ensures
        ({
            let s1 = spec_step(v, inp);
            let s2 = spec_step(v2, inp);
            &&& s1.ctl == StepCtl::Running
            &&& s1.vm.pc == v.value_of(t) as int
            &&& s1.vm.stack == v.stack.push((v.pc + 2) as u16)
            &&& s2.ctl == StepCtl::Running
            &&& s2.vm.pc == v.pc + 2
            &&& s2.vm.stack == v.stack
        }),
{
    assert(v2.stack == v.stack.push((v.pc + 2) as u16));
    assert(v2.stack.last() == (v.pc + 2) as u16);
    assert(v2.stack.drop_last() =~= v.stack);
}

/// Law: a whole step taken on a state whose opcode word is 22 or larger
/// fails with the unknown-opcode error and changes nothing.
pub proof fn lemma_step_unknown_opcode(v: VmView, inp: Seq<u16>)
    requires
        v.wf(),
        v.pc < v.memory.len(),
        v.memory[v.pc] >= 22,
    ensures
        ({
            let s = spec_step(v, inp);
            &&& s.ctl == StepCtl::Failed(RuntimeError::Decode(DecodeError::UnknownOpcode))
            &&& s.vm == v
            &&& s.input == inp
        }),
{
}

/// Law: a raw word fails to decode as an opcode exactly when it is 22 or
/// larger.
pub proof fn lemma_unknown_opcode(w: u16)
    ensures
        (spec_op(w) is None) <==> w >= 22,
{
}

/// Law: an instruction whose opcode word is 22 or larger fails decoding
/// with the unknown-opcode error.
pub proof fn lemma_decode_unknown(mem: Seq<u16>, pc: int)
    requires
        0 <= pc < mem.len(),
        mem[pc] >= 22,
    ensures
        spec_decode(mem, pc) == Err::<(Instruction, int), RuntimeError>(
            RuntimeError::Decode(DecodeError::UnknownOpcode),
        ),
{
}

/// Law: Pop on an empty stack fails with a stack underflow and changes
/// nothing.
pub proof fn lemma_pop_empty_underflows(v: VmView, inp: Seq<u16>, r: usize, pc2: int)
    requires
        v.wf(),
        r < 8,
        v.stack.len() == 0,
    ensures
        ({
            let s = spec_exec(
                v,
                Instruction { op: Op::Pop, a: Some(Arg::Register(r)), b: None, c: None },
                pc2,
                inp,
            );
            &&& s.ctl == StepCtl::Failed(RuntimeError::StackUnderflow)
            &&& s.vm == v
        }),
{
}

/// Law: Ret on an empty stack stops the run gracefully — it is a halt, not
/// an error — leaving registers, memory and stack untouched.
pub proof fn lemma_ret_empty_halts(v: VmView, inp: Seq<u16>, pc2: int)
    requires
        v.wf(),
        v.stack.len() == 0,
    ensures
        ({
            let s = spec_exec(
                v,
                Instruction { op: Op::Ret, a: None, b: None, c: None },
                pc2,
                inp,
            );
            &&& s.ctl == StepCtl::Halted
            &&& s.vm.registers == v.registers
            &&& s.vm.memory == v.memory
            &&& s.vm.stack == v.stack
        }),
{
}

} // verus!
