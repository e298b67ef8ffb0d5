//! The instruction set: operations, operand kinds and instructions.
use vstd::prelude::*;

verus! {

/// The twenty-five operations of the machine.
#[derive(Clone, Copy, PartialEq, Eq, Structural, Debug)]
pub enum Operation {
    NOOP,
    IMM,
    MOV,
    ADD,
    ADDC,
    SUB,
    OR,
    XOR,
    AND,
    SHR,
    NOT,
    OUT,
    ROUT,
    INP,
    JMP,
    BIE,
    BIG,
    BIL,
    BIO,
    STORE,
    LOAD,
    PUSH,
    POP,
    CALL,
    RET,
}

/// The arithmetic/logical operations, which may carry an argument prefix.
pub open spec fn is_arith(op: Operation) -> bool {
    matches!(op, Operation::ADD | Operation::ADDC | Operation::SUB | Operation::OR | Operation::XOR | Operation::AND)
}

/// The operations that update the accumulator and the flags.
pub open spec fn is_alu_op(op: Operation) -> bool {
    is_arith(op) || op == Operation::SHR || op == Operation::NOT
}

/// The operations whose operand A is a jump target.
pub open spec fn is_branch(op: Operation) -> bool {
    matches!(op, Operation::JMP | Operation::CALL | Operation::BIE | Operation::BIG | Operation::BIL | Operation::BIO)
}

impl Operation {
    pub open spec fn name(self) -> Seq<char> {
        match self {
            Operation::NOOP => "NOOP"@,
            Operation::IMM => "IMM"@,
            Operation::MOV => "MOV"@,
            Operation::ADD => "ADD"@,
            Operation::ADDC => "ADDC"@,
            Operation::SUB => "SUB"@,
            Operation::OR => "OR"@,
            Operation::XOR => "XOR"@,
            Operation::AND => "AND"@,
            Operation::SHR => "SHR"@,
            Operation::NOT => "NOT"@,
            Operation::OUT => "OUT"@,
            Operation::ROUT => "ROUT"@,
            Operation::INP => "INP"@,
            Operation::JMP => "JMP"@,
            Operation::BIE => "BIE"@,
            Operation::BIG => "BIG"@,
            Operation::BIL => "BIL"@,
            Operation::BIO => "BIO"@,
            Operation::STORE => "STORE"@,
            Operation::LOAD => "LOAD"@,
            Operation::PUSH => "PUSH"@,
            Operation::POP => "POP"@,
            Operation::CALL => "CALL"@,
            Operation::RET => "RET"@,
        }
    }

    /// The mnemonic of the operation.
    pub fn get_name(&self) -> (r: String)
        ensures
            r@ == self.name(),
    {
        let s: &str = match self {
            Operation::NOOP => "NOOP",
            Operation::IMM => "IMM",
            Operation::MOV => "MOV",
            Operation::ADD => "ADD",
            Operation::ADDC => "ADDC",
            Operation::SUB => "SUB",
            Operation::OR => "OR",
            Operation::XOR => "XOR",
            Operation::AND => "AND",
            Operation::SHR => "SHR",
            Operation::NOT => "NOT",
            Operation::OUT => "OUT",
            Operation::ROUT => "ROUT",
            Operation::INP => "INP",
            Operation::JMP => "JMP",
            Operation::BIE => "BIE",
            Operation::BIG => "BIG",
            Operation::BIL => "BIL",
            Operation::BIO => "BIO",
            Operation::STORE => "STORE",
            Operation::LOAD => "LOAD",
            Operation::PUSH => "PUSH",
            Operation::POP => "POP",
            Operation::CALL => "CALL",
            Operation::RET => "RET",
        };
        String::from_str(s)
    }
}

/// How an arithmetic/logical operation chooses its sources and destination.
#[derive(Clone, Copy, PartialEq, Eq, Structural, Debug)]
pub enum OperationArgs {
    NoPrefix,
    S,
    U,
    X,
}

/// What an operand denotes.
#[derive(Clone, Copy, PartialEq, Eq, Structural, Debug)]
pub enum OperandType {
    Register,
    MemoryAddress,
    Immediate,
    Port,
}

#[derive(Clone, Copy, PartialEq, Eq, Structural, Debug)]
pub struct Operand {
    pub type_: OperandType,
    pub data: i32,
}

impl Operand {
    pub fn new(type_: OperandType, data: i32) -> (r: Self)
        ensures
            r == (Operand { type_, data }),
    {
        Self { type_, data }
    }
}

#[derive(Clone, Copy, PartialEq, Eq, Structural, Debug)]
pub struct Instruction {
    pub operation: Operation,
    pub args: OperationArgs,
    pub a: Operand,
    pub b: Operand,
    pub address: i32,
    pub source_line: i32,
}

/// The instruction that fills empty or flushed pipeline slots.
pub open spec fn sentinel() -> Instruction {
    Instruction {
        operation: Operation::NOOP,
        args: OperationArgs::NoPrefix,
        a: Operand { type_: OperandType::Immediate, data: 0 },
        b: Operand { type_: OperandType::Immediate, data: 0 },
        address: -1i32,
        source_line: 0,
    }
}

impl Instruction {
    pub fn none() -> (r: Self)
        ensures
            r == sentinel(),
    {
        Self {
            operation: Operation::NOOP,
            args: OperationArgs::NoPrefix,
            a: Operand::new(OperandType::Immediate, 0),
            b: Operand::new(OperandType::Immediate, 0),
            address: -1,
            source_line: 0,
        }
    }
}

} // verus!
