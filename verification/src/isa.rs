//! Instruction-set definitions: opcodes, operands, instructions, the errors
//! the machine can report, and the specification of how raw memory words are
//! decoded into instructions.

use vstd::prelude::*;

verus! {

/// The operation selector of an instruction.  Raw words 0 through 21 map to
/// these variants in declaration order; larger values are not opcodes.
#[derive(Clone, Copy, Debug, PartialEq, Eq, Structural)]
pub enum Op {
    Halt,
    SetReg,
    Push,
    Pop,
    Eq,
    Gt,
    Jmp,
    Jt,
    Jf,
    Add,
    Mult,
    Mod,
    And,
    Or,
    Not,
    Rmem,
    Wmem,
    Call,
    Ret,
    Out,
    In,
    Noop,
}

/// A decoded operand: either a literal word used at face value, or a
/// reference to one of the eight registers.
#[derive(Clone, Copy, Debug, PartialEq, Eq, Structural)]
pub enum Arg {
    Literal(u16),
    Register(usize),
}

/// Failure to turn a raw word into an opcode or operand.
#[derive(Clone, Copy, Debug, PartialEq, Eq, Structural)]
pub enum DecodeError {
    UnknownOpcode,
    InvalidOperandEncoding,
}

/// Failure to load a binary image into memory.
#[derive(Clone, Copy, Debug, PartialEq, Eq, Structural)]
pub enum LoadError {
    UnpairedTrailingByte,
}

/// Any failure that stops a run: a decode failure, or a violation of an
/// opcode's own rules while executing.
#[derive(Clone, Copy, Debug, PartialEq, Eq, Structural)]
pub enum RuntimeError {
    Decode(DecodeError),
    StackUnderflow,
    DivisionByZero,
    NonCharacterValue,
    InvalidDestination,
    OutOfRangeAddress,
}

/// Which opcode, if any, a raw word denotes.
pub open spec fn spec_op(value: u16) -> Option<Op> {
    match value {
        0 => Some(Op::Halt),
        1 => Some(Op::SetReg),
        2 => Some(Op::Push),
        3 => Some(Op::Pop),
        4 => Some(Op::Eq),
        5 => Some(Op::Gt),
        6 => Some(Op::Jmp),
        7 => Some(Op::Jt),
        8 => Some(Op::Jf),
        9 => Some(Op::Add),
        10 => Some(Op::Mult),
        11 => Some(Op::Mod),
        12 => Some(Op::And),
        13 => Some(Op::Or),
        14 => Some(Op::Not),
        15 => Some(Op::Rmem),
        16 => Some(Op::Wmem),
        17 => Some(Op::Call),
        18 => Some(Op::Ret),
        19 => Some(Op::Out),
        20 => Some(Op::In),
        21 => Some(Op::Noop),
        _ => None,
    }
}

/// How many operand words follow each opcode.
pub open spec fn spec_arity(op: Op) -> nat {
    match op {
        Op::Halt | Op::Noop | Op::Ret => 0,
        Op::Out | Op::Jmp | Op::Push | Op::Pop | Op::Call | Op::In => 1,
        Op::Jt | Op::Jf | Op::SetReg | Op::Not | Op::Rmem | Op::Wmem => 2,
        Op::Add | Op::Eq | Op::Gt | Op::And | Op::Or | Op::Mult | Op::Mod => 3,
    }
}

/// Which operand, if any, a raw word denotes: 0..=32767 is that literal,
/// 32768..=32775 is register 0..=7, anything above is invalid.
pub open spec fn spec_arg(value: u16) -> Option<Arg> {
    if value <= 32767 {
        Some(Arg::Literal(value))
    } else if value <= 32775 {
        Some(Arg::Register((value - 32768) as usize))
    } else {
        None
    }
}

/// A well-formed operand: a literal in the 15-bit range, or one of the eight
/// registers.  Every operand produced by decoding is well formed.
pub open spec fn arg_wf(a: Arg) -> bool {
    match a {
        Arg::Literal(w) => w <= 32767,
        Arg::Register(r) => r < 8,
    }
}

impl Op {
    /// Maps a raw word to its opcode; words 22 and above are not opcodes.
    pub fn try_from(value: u16) -> (r: Result<Op, DecodeError>)
        ensures
            r == (match spec_op(value) {
                Some(op) => Ok::<Op, DecodeError>(op),
                None => Err::<Op, DecodeError>(DecodeError::UnknownOpcode),
            }),
    {
        match value {
            0 => Ok(Op::Halt),
            1 => Ok(Op::SetReg),
            2 => Ok(Op::Push),
            3 => Ok(Op::Pop),
            4 => Ok(Op::Eq),
            5 => Ok(Op::Gt),
            6 => Ok(Op::Jmp),
            7 => Ok(Op::Jt),
            8 => Ok(Op::Jf),
            9 => Ok(Op::Add),
            10 => Ok(Op::Mult),
            11 => Ok(Op::Mod),
            12 => Ok(Op::And),
            13 => Ok(Op::Or),
            14 => Ok(Op::Not),
            15 => Ok(Op::Rmem),
            16 => Ok(Op::Wmem),
            17 => Ok(Op::Call),
            18 => Ok(Op::Ret),
            19 => Ok(Op::Out),
            20 => Ok(Op::In),
            21 => Ok(Op::Noop),
            _ => Err(DecodeError::UnknownOpcode),
        }
    }
}

impl Arg {
    /// Classifies a raw word as a literal or a register reference; words
    /// 32776 and above are invalid operand encodings.
    pub fn try_from(value: u16) -> (r: Result<Arg, DecodeError>)
        ensures
            r == (match spec_arg(value) {
                Some(a) => Ok::<Arg, DecodeError>(a),
                None => Err::<Arg, DecodeError>(DecodeError::InvalidOperandEncoding),
            }),
            r matches Ok(a) ==> arg_wf(a),
    {
        if value <= 32767 {
            Ok(Arg::Literal(value))
        } else if value <= 32775 {
            Ok(Arg::Register((value - 32768) as usize))
        } else {
            Err(DecodeError::InvalidOperandEncoding)
        }
    }
}

/// An opcode together with its decoded operand slots.  Slots beyond the
/// opcode's arity stay empty.
#[derive(Clone, Copy, Debug)]
pub struct Instruction {
    pub op: Op,
    pub a: Option<Arg>,
    pub b: Option<Arg>,
    pub c: Option<Arg>,
}

impl Instruction {
    /// A fresh instruction for `op` with all operand slots empty.
    pub fn new(op: Op) -> (r: Instruction)
        ensures
            r.op == op,
            r.a is None,
            r.b is None,
            r.c is None,
    {
        Instruction { op, a: None, b: None, c: None }
    }
}

/// A well-formed instruction: every filled operand slot holds a well-formed
/// operand.
pub open spec fn inst_wf(i: Instruction) -> bool {
    &&& (match i.a {
        Some(a) => arg_wf(a),
        None => true,
    })
    &&& (match i.b {
        Some(b) => arg_wf(b),
        None => true,
    })
    &&& (match i.c {
        Some(c) => arg_wf(c),
        None => true,
    })
}

/// Reading one operand word at `pc`: fails past the end of memory or on an
/// invalid operand encoding; otherwise yields the operand and the advanced
/// cursor.
pub open spec fn spec_read_arg(mem: Seq<u16>, pc: int) -> Result<(Arg, int), RuntimeError> {
    if !(0 <= pc < mem.len()) {
        Err(RuntimeError::OutOfRangeAddress)
    } else {
        match spec_arg(mem[pc]) {
            Some(a) => Ok((a, pc + 1)),
            None => Err(RuntimeError::Decode(DecodeError::InvalidOperandEncoding)),
        }
    }
}

/// Reading the operand words that follow an opcode, in slot order.
pub open spec fn spec_decode_args(mem: Seq<u16>, pc: int, op: Op) -> Result<
    (Instruction, int),
    RuntimeError,
> {
    if spec_arity(op) == 0 {
        Ok((Instruction { op, a: None, b: None, c: None }, pc))
    } else {
        match spec_read_arg(mem, pc) {
            Err(e) => Err(e),
            Ok((a, pc_a)) => {
                if spec_arity(op) == 1 {
                    Ok((Instruction { op, a: Some(a), b: None, c: None }, pc_a))
                } else {
                    match spec_read_arg(mem, pc_a) {
                        Err(e) => Err(e),
                        Ok((b, pc_b)) => {
                            if spec_arity(op) == 2 {
                                Ok((Instruction { op, a: Some(a), b: Some(b), c: None }, pc_b))
                            } else {
                                match spec_read_arg(mem, pc_b) {
                                    Err(e) => Err(e),
                                    Ok((c, pc_c)) => Ok(
                                        (Instruction { op, a: Some(a), b: Some(b), c: Some(c) }, pc_c),
                                    ),
                                }
                            }
                        },
                    }
                }
            },
        }
    }
}

/// Decoding one whole instruction starting at `pc`: the opcode word followed
/// by exactly its arity in operand words.  On success the returned cursor
/// points just past the last consumed word.
pub open spec fn spec_decode(mem: Seq<u16>, pc: int) -> Result<(Instruction, int), RuntimeError> {
    if !(0 <= pc < mem.len()) {
        Err(RuntimeError::OutOfRangeAddress)
    } else {
        match spec_op(mem[pc]) {
            None => Err(RuntimeError::Decode(DecodeError::UnknownOpcode)),
            Some(op) => spec_decode_args(mem, pc + 1, op),
        }
    }
}

/// A decoded instruction is well formed, its opcode round-trips through the
/// opcode table, and the cursor lands within one opcode word plus three
/// operand words of where it started, never past the end of memory.
pub proof fn lemma_decode_wf(mem: Seq<u16>, pc: int)
    ensures
        spec_decode(mem, pc) matches Ok(d) ==> inst_wf(d.0) && pc < d.1 <= pc + 4 && d.1
            <= mem.len(),
{
}

} // verus!
