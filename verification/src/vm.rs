//! The machine state: memory, registers, stack and program counter, with
//! loading of binary images and decoding of the instruction stream.

use vstd::prelude::*;
use vstd::pervasive::VecAdditionalExecFns;

use crate::input::InputFeed;
use crate::isa::{Arg, Instruction, LoadError, Op, RuntimeError};
use crate::isa::{arg_wf, inst_wf, lemma_decode_wf, spec_decode, spec_read_arg};
use crate::step::{add_words, mult_words, spec_step, StepCtl};

verus! {

/// Number of addressable memory cells.
pub const MEMORY_SIZE: usize = 0x7fff;

/// Number of general registers.
pub const REGISTER_COUNT: usize = 8;

/// The mathematical state of a machine: its memory and register contents,
/// the value stack (last element on top), and the program counter.
#[verifier::ext_equal]
pub ghost struct VmView {
    pub memory: Seq<u16>,
    pub registers: Seq<u16>,
    pub stack: Seq<u16>,
    pub pc: int,
}

impl VmView {
    /// A structurally sound state: full-size memory and all eight registers.
    pub open spec fn wf(self) -> bool {
        &&& self.memory.len() == MEMORY_SIZE
        &&& self.registers.len() == REGISTER_COUNT
        &&& 0 <= self.pc
    }

    /// The value an operand stands for in this state: a literal is itself, a
    /// register reference reads that register.
    pub open spec fn value_of(self, a: Arg) -> u16 {
        match a {
            Arg::Literal(w) => w,
            Arg::Register(r) => self.registers[r as int],
        }
    }
}

/// One virtual machine instance: the only mutable aggregate of the system.
pub struct VM {
    pub(crate) memory: Vec<u16>,
    pub(crate) registers: Vec<u16>,
    pub(crate) stack: Vec<u16>,
    pub(crate) pc: usize,
}

impl View for VM {
    type V = VmView;

    closed spec fn view(&self) -> VmView {
        VmView {
            memory: self.memory@,
            registers: self.registers@,
            stack: self.stack@,
            pc: self.pc as int,
        }
    }
}

/// The memory contents after writing a byte image over `mem0`: every pair of
/// bytes, low byte first, becomes one word, written in address order from 0;
/// pairs past the end of memory are dropped; untouched cells keep their old
/// contents.
pub open spec fn spec_loaded(mem0: Seq<u16>, bytes: Seq<u8>) -> Seq<u16> {
    Seq::new(
        mem0.len(),
        |i: int|
            if i < spec_pair_count(mem0, bytes) {
                (bytes[2 * i + 1] * 256 + bytes[2 * i]) as u16
            } else {
                mem0[i]
            },
    )
}

/// How many whole little-endian pairs of the image fit into memory.
pub open spec fn spec_pair_count(mem0: Seq<u16>, bytes: Seq<u8>) -> int {
    if bytes.len() / 2 <= mem0.len() {
        (bytes.len() / 2) as int
    } else {
        mem0.len() as int
    }
}

/// Whether loading an image fails: a trailing unpaired byte is an error,
/// unless every whole pair before it already filled memory, in which case the
/// surplus is silently dropped.
pub open spec fn spec_load_fails(mem0: Seq<u16>, bytes: Seq<u8>) -> bool {
    bytes.len() % 2 == 1 && bytes.len() / 2 < mem0.len()
}

impl VM {
    /// Convenient name for this machine's structural soundness.
    pub open spec fn wf(&self) -> bool {
        self@.wf()
    }

    /// A fresh machine: memory and registers all zero, empty stack, program
    /// counter at address 0.
    pub fn new() -> (r: VM)
        ensures
            r.wf(),
            r@.memory == Seq::new(MEMORY_SIZE as nat, |i: int| 0u16),
            r@.registers == Seq::new(REGISTER_COUNT as nat, |i: int| 0u16),
            r@.stack == Seq::<u16>::empty(),
            r@.pc == 0,
    {
        let mut memory: Vec<u16> = Vec::new();
        let mut i: usize = 0;
        while i < MEMORY_SIZE
            invariant
                i <= MEMORY_SIZE,
                memory@.len() == i,
                forall|j: int| 0 <= j < i ==> memory@[j] == 0u16,
            decreases MEMORY_SIZE - i,
        {
            memory.push(0);
            i = i + 1;
        }
        let mut registers: Vec<u16> = Vec::new();
        let mut k: usize = 0;
        while k < REGISTER_COUNT
            invariant
                k <= REGISTER_COUNT,
                registers@.len() == k,
                forall|j: int| 0 <= j < k ==> registers@[j] == 0u16,
            decreases REGISTER_COUNT - k,
        {
            registers.push(0);
            k = k + 1;
        }
        let r = VM { memory, registers, stack: Vec::new(), pc: 0 };
        proof {
            assert(r@.memory =~= Seq::new(MEMORY_SIZE as nat, |i: int| 0u16));
            assert(r@.registers =~= Seq::new(REGISTER_COUNT as nat, |i: int| 0u16));
            assert(r@.stack =~= Seq::<u16>::empty());
        }
        r
    }

    /// Unpacks a byte image into memory as consecutive little-endian word
    /// pairs starting at address 0.  Every whole pair that fits is written
    /// even when the image is malformed; the result says whether a trailing
    /// unpaired byte made the load fail.
    pub fn load(&mut self, bytes: &Vec<u8>) -> (r: Result<(), LoadError>)
        requires
            old(self).wf(),
        ensures
            final(self).wf(),
            final(self)@.memory == spec_loaded(old(self)@.memory, bytes@),
            final(self)@.registers == old(self)@.registers,
            final(self)@.stack == old(self)@.stack,
            final(self)@.pc == old(self)@.pc,
            r == (if spec_load_fails(old(self)@.memory, bytes@) {
                Err::<(), LoadError>(LoadError::UnpairedTrailingByte)
            } else {
                Ok::<(), LoadError>(())
            }),
    {
        let ghost mem0 = self@.memory;
        let pairs_avail: usize = bytes.len() / 2;
        let pairs: usize = if pairs_avail <= MEMORY_SIZE {
            pairs_avail
        } else {
            MEMORY_SIZE
        };
        assert(pairs == spec_pair_count(mem0, bytes@));
        let mut i: usize = 0;
        while i < pairs
            invariant
                old(self).wf(),
                self.wf(),
                i <= pairs,
                pairs == spec_pair_count(mem0, bytes@),
                2 * pairs <= bytes@.len(),
                self@.registers == old(self)@.registers,
                self@.stack == old(self)@.stack,
                self@.pc == old(self)@.pc,
                self@.memory.len() == mem0.len(),
                forall|j: int| 0 <= j < i ==> self@.memory[j] == spec_loaded(mem0, bytes@)[j],
                forall|j: int| i <= j < mem0.len() ==> self@.memory[j] == mem0[j],
            decreases pairs - i,
        {
            let lo = bytes[2 * i];
            let hi = bytes[2 * i + 1];
            let word: u16 = (hi as u16) * 256 + (lo as u16);
            self.memory.set(i, word);
            i = i + 1;
        }
        proof {
            assert(self@.memory =~= spec_loaded(mem0, bytes@));
        }
        if bytes.len() % 2 == 1 && pairs_avail < MEMORY_SIZE {
            Err(LoadError::UnpairedTrailingByte)
        } else {
            Ok(())
        }
    }

    /// Reads the word under the program counter and advances the counter;
    /// fails when the counter has left the address space.
    pub fn read_next(&mut self) -> (r: Result<u16, RuntimeError>)
        requires
            old(self).wf(),
        ensures
            final(self).wf(),
            final(self)@.memory == old(self)@.memory,
            final(self)@.registers == old(self)@.registers,
            final(self)@.stack == old(self)@.stack,
            match r {
                Ok(w) => old(self)@.pc < MEMORY_SIZE && w == old(self)@.memory[old(self)@.pc]
                    && final(self)@.pc == old(self)@.pc + 1,
                Err(e) => e == RuntimeError::OutOfRangeAddress && old(self)@.pc >= MEMORY_SIZE
                    && final(self)@.pc == old(self)@.pc,
            },
    {
        if self.pc < MEMORY_SIZE {
            let value = self.memory[self.pc];
            self.pc = self.pc + 1;
            Ok(value)
        } else {
            Err(RuntimeError::OutOfRangeAddress)
        }
    }

    /// Reads and classifies one operand word at the program counter.
    pub fn read_argument(&mut self) -> (r: Result<Arg, RuntimeError>)
        requires
            old(self).wf(),
        ensures
            final(self).wf(),
            final(self)@.memory == old(self)@.memory,
            final(self)@.registers == old(self)@.registers,
            final(self)@.stack == old(self)@.stack,
            match r {
                Ok(a) => spec_read_arg(old(self)@.memory, old(self)@.pc) == Ok::<(Arg, int),
                    RuntimeError,
                >((a, old(self)@.pc + 1)) && arg_wf(a) && final(self)@.pc == old(self)@.pc + 1,
                Err(e) => spec_read_arg(old(self)@.memory, old(self)@.pc) == Err::<(Arg, int),
                    RuntimeError,
                >(e) && final(self)@.pc == (if old(self)@.pc >= MEMORY_SIZE {
                    old(self)@.pc
                } else {
                    old(self)@.pc + 1
                }),
            },
    {
        let w = match self.read_next() {
            Ok(w) => w,
            Err(e) => {
                return Err(e);
            },
        };
        match Arg::try_from(w) {
            Ok(a) => Ok(a),
            Err(e) => Err(RuntimeError::Decode(e)),
        }
    }

    /// Decodes one whole instruction at the program counter: the opcode word,
    /// then exactly the opcode's arity in operand words, filling the slots in
    /// order.  On success the counter rests just past the instruction; on
    /// failure the machine is unchanged but for the counter.
    pub fn read_instruction(&mut self) -> (r: Result<Instruction, RuntimeError>)
        requires
            old(self).wf(),
        ensures
            final(self).wf(),
            final(self)@.memory == old(self)@.memory,
            final(self)@.registers == old(self)@.registers,
            final(self)@.stack == old(self)@.stack,
            match r {
                Ok(inst) => spec_decode(old(self)@.memory, old(self)@.pc) == Ok::<
                    (Instruction, int),
                    RuntimeError,
                >((inst, final(self)@.pc)) && inst_wf(inst),
                Err(e) => spec_decode(old(self)@.memory, old(self)@.pc) == Err::<
                    (Instruction, int),
                    RuntimeError,
                >(e),
            },
    {
        let w = match self.read_next() {
            Ok(w) => w,
            Err(e) => {
                return Err(e);
            },
        };
        let op = match Op::try_from(w) {
            Ok(op) => op,
            Err(e) => {
                return Err(RuntimeError::Decode(e));
            },
        };
        let mut inst = Instruction::new(op);
        match inst.op {
            Op::Halt | Op::Noop | Op::Ret => (),
            Op::Out | Op::Jmp | Op::Push | Op::Pop | Op::Call | Op::In => {
                inst.a = Some(
                    match self.read_argument() {
                        Ok(a) => a,
                        Err(e) => {
                            return Err(e);
                        },
                    },
                );
            },
            Op::Jt | Op::Jf | Op::SetReg | Op::Not | Op::Rmem | Op::Wmem => {
                inst.a = Some(
                    match self.read_argument() {
                        Ok(a) => a,
                        Err(e) => {
                            return Err(e);
                        },
                    },
                );
                inst.b = Some(
                    match self.read_argument() {
                        Ok(a) => a,
                        Err(e) => {
                            return Err(e);
                        },
                    },
                );
            },
            Op::Add | Op::Eq | Op::Gt | Op::And | Op::Or | Op::Mult | Op::Mod => {
                inst.a = Some(
                    match self.read_argument() {
                        Ok(a) => a,
                        Err(e) => {
                            return Err(e);
                        },
                    },
                );
                inst.b = Some(
                    match self.read_argument() {
                        Ok(a) => a,
                        Err(e) => {
                            return Err(e);
                        },
                    },
                );
                inst.c = Some(
                    match self.read_argument() {
                        Ok(a) => a,
                        Err(e) => {
                            return Err(e);
                        },
                    },
                );
            },
        }
        Ok(inst)
    }

    /// Resolves an operand to the word it stands for in the current state.
    pub fn get_value(&self, arg: Arg) -> (r: u16)
        requires
            self.wf(),
            arg_wf(arg),
        ensures
            r == self@.value_of(arg),
    {
        match arg {
            Arg::Literal(value) => value,
            Arg::Register(reg) => self.registers[reg],
        }
    }

    /// The current contents of one register.
    pub fn register(&self, r: usize) -> (w: u16)
        requires
            self.wf(),
            r < REGISTER_COUNT,
        ensures
            w == self@.registers[r as int],
    {
        self.registers[r]
    }

    /// The current contents of one memory cell.
    pub fn memory_at(&self, addr: usize) -> (w: u16)
        requires
            self.wf(),
            addr < MEMORY_SIZE,
        ensures
            w == self@.memory[addr as int],
    {
        self.memory[addr]
    }

    /// How many words the stack currently holds.
    pub fn stack_depth(&self) -> (n: usize)
        ensures
            n == self@.stack.len(),
    {
        self.stack.len()
    }

    /// The current program counter.
    pub fn pc(&self) -> (p: usize)
        ensures
            p == self@.pc,
    {
        self.pc
    }
}


impl VM {
    /// Decodes and executes exactly one instruction.  The result, the new
    /// machine state and the consumed input are the ones `spec_step` gives
    /// for the starting state; only after a failure is the program counter
    /// left unspecified, since a failed run never resumes.  When input is
    /// wanted but the feed is empty, the machine is left exactly as it was,
    /// so the same instruction runs again once input arrives.
    pub fn step(&mut self, input: &mut InputFeed) -> (r: StepCtl)
        requires
            old(self).wf(),
            old(input).wf(),
        ensures
            final(self).wf(),
            final(input).wf(),
            ({
                let s = spec_step(old(self)@, old(input)@);
                &&& r == s.ctl
                &&& final(input)@ == s.input
                &&& final(self)@.memory == s.vm.memory
                &&& final(self)@.registers == s.vm.registers
                &&& final(self)@.stack == s.vm.stack
                &&& (!(r matches StepCtl::Failed(_)) ==> final(self)@.pc == s.vm.pc)
            }),
    {
        let ghost v0 = self@;
        if self.pc >= MEMORY_SIZE {
            return StepCtl::Halted;
        }
        let pc0 = self.pc;
        let inst = match self.read_instruction() {
            Ok(inst) => inst,
            Err(e) => {
                return StepCtl::Failed(e);
            },
        };
        proof {
            lemma_decode_wf(v0.memory, v0.pc);
        }
        let ghost pc2 = self@.pc;
        match (inst.op, inst.a, inst.b, inst.c) {
            (Op::Halt, _, _, _) => StepCtl::Halted,
            (Op::Noop, _, _, _) => StepCtl::Running,
            (Op::Ret, _, _, _) => {
                match self.stack.pop() {
                    Some(value) => {
                        self.pc = value as usize;
                        StepCtl::Running
                    },
                    None => StepCtl::Halted,
                }
            },
            (Op::Out, Some(a), _, _) => {
                let value = self.get_value(a);
                if value <= 255 {
                    StepCtl::Output(value)
                } else {
                    StepCtl::Failed(RuntimeError::NonCharacterValue)
                }
            },
            (Op::Jmp, Some(a), _, _) => {
                self.pc = self.get_value(a) as usize;
                StepCtl::Running
            },
            (Op::Push, Some(a), _, _) => {
                let value = self.get_value(a);
                self.stack.push(value);
                StepCtl::Running
            },
            (Op::Pop, Some(Arg::Register(r)), _, _) => {
                match self.stack.pop() {
                    Some(value) => {
                        self.registers.set(r, value);
                        StepCtl::Running
                    },
                    None => StepCtl::Failed(RuntimeError::StackUnderflow),
                }
            },
            (Op::Call, Some(a), _, _) => {
                let ret_addr = self.pc as u16;
                self.stack.push(ret_addr);
                self.pc = self.get_value(a) as usize;
                StepCtl::Running
            },
            (Op::In, Some(Arg::Register(r)), _, _) => {
                match input.next_char() {
                    Some(code) => {
                        self.registers.set(r, code);
                        StepCtl::Running
                    },
                    None => {
                        self.pc = pc0;
                        StepCtl::NeedInput
                    },
                }
            },
            (Op::Jt, Some(a), Some(b), _) => {
                if self.get_value(a) != 0 {
                    self.pc = self.get_value(b) as usize;
                }
                StepCtl::Running
            },
            (Op::Jf, Some(a), Some(b), _) => {
                if self.get_value(a) == 0 {
                    self.pc = self.get_value(b) as usize;
                }
                StepCtl::Running
            },
            (Op::SetReg, Some(Arg::Register(r)), Some(b), _) => {
                let value = self.get_value(b);
                self.registers.set(r, value);
                StepCtl::Running
            },
            (Op::Not, Some(Arg::Register(r)), Some(b), _) => {
                let value = self.get_value(b);
                self.registers.set(r, !value & 0x7fff);
                StepCtl::Running
            },
            (Op::Rmem, Some(Arg::Register(r)), Some(b), _) => {
                let addr = self.get_value(b);
                if addr < MEMORY_SIZE as u16 {
                    let value = self.memory[addr as usize];
                    self.registers.set(r, value);
                    StepCtl::Running
                } else {
                    StepCtl::Failed(RuntimeError::OutOfRangeAddress)
                }
            },
            (Op::Wmem, Some(a), Some(b), _) => {
                let addr = self.get_value(a);
                let value = self.get_value(b);
                if addr < MEMORY_SIZE as u16 {
                    self.memory.set(addr as usize, value);
                    StepCtl::Running
                } else {
                    StepCtl::Failed(RuntimeError::OutOfRangeAddress)
                }
            },
            (Op::Add, Some(Arg::Register(r)), Some(b), Some(c)) => {
                let value = add_words(self.get_value(b), self.get_value(c));
                self.registers.set(r, value);
                StepCtl::Running
            },
            (Op::Mult, Some(Arg::Register(r)), Some(b), Some(c)) => {
                let value = mult_words(self.get_value(b), self.get_value(c));
                self.registers.set(r, value);
                StepCtl::Running
            },
            (Op::Mod, Some(Arg::Register(r)), Some(b), Some(c)) => {
                let divisor = self.get_value(c);
                if divisor == 0 {
                    StepCtl::Failed(RuntimeError::DivisionByZero)
                } else {
                    let value = self.get_value(b) % divisor;
                    self.registers.set(r, value);
                    StepCtl::Running
                }
            },
            (Op::Eq, Some(Arg::Register(r)), Some(b), Some(c)) => {
                let value: u16 = if self.get_value(b) == self.get_value(c) {
                    1
                } else {
                    0
                };
                self.registers.set(r, value);
                StepCtl::Running
            },
            (Op::Gt, Some(Arg::Register(r)), Some(b), Some(c)) => {
                let value: u16 = if self.get_value(b) > self.get_value(c) {
                    1
                } else {
                    0
                };
                self.registers.set(r, value);
                StepCtl::Running
            },
            (Op::And, Some(Arg::Register(r)), Some(b), Some(c)) => {
                let value = self.get_value(b) & self.get_value(c);
                self.registers.set(r, value);
                StepCtl::Running
            },
            (Op::Or, Some(Arg::Register(r)), Some(b), Some(c)) => {
                let value = self.get_value(b) | self.get_value(c);
                self.registers.set(r, value);
                StepCtl::Running
            },
            _ => StepCtl::Failed(RuntimeError::InvalidDestination),
        }
    }
}
} // verus!
