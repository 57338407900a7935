//! Instructions of the bytecode.

use vstd::prelude::*;

verus! {

/// The operation an instruction performs.
#[derive(Clone, Copy, PartialEq, Eq, Debug, Structural)]
pub enum InstructionType {
    SetInteger,
    SetFloat,
    SetString,
    SetObject,
    SetArray,
    SetName,
    SetIntegerPrototype,
    SetFloatPrototype,
    SetStringPrototype,
    SetArrayPrototype,
    SetThreadPrototype,
    SetTruePrototype,
    SetFalsePrototype,
    SetBlockPrototype,
    SetBooleanPrototype,
    SetTrue,
    SetFalse,
    SetLocal,
    GetLocal,
    SetConst,
    GetConst,
    SetAttr,
    GetAttr,
    Send,
    Return,
    GotoIfFalse,
    GotoIfTrue,
    Goto,
    DefMethod,
    RunCode,
    GetToplevel,
    IntegerAdd,
    IntegerDiv,
    IntegerMul,
    IntegerSub,
    IntegerMod,
    IntegerToFloat,
    IntegerToString,
    IntegerBitwiseAnd,
    IntegerBitwiseOr,
    IntegerBitwiseXor,
    IntegerShiftLeft,
    IntegerShiftRight,
    IntegerSmaller,
    IntegerGreater,
    IntegerEqual,
    StartThread,
}

/// One instruction: an operation, its arguments, and where it came from in the
/// source text.
pub struct Instruction {
    pub instruction_type: InstructionType,
    pub arguments: Vec<u32>,
    pub line: u32,
    pub column: u32,
}

impl Instruction {
    pub fn new(
        instruction_type: InstructionType,
        arguments: Vec<u32>,
        line: u32,
        column: u32,
    ) -> (ins:
        Instruction)
        ensures
            ins.instruction_type == instruction_type,
            ins.arguments == arguments,
            ins.line == line,
            ins.column == column,
    {
        Instruction { instruction_type, arguments, line, column }
    }

    /// The argument at `position`, if the instruction has that many.
    pub open spec fn arg(&self, position: int) -> Option<u32> {
        if 0 <= position < self.arguments@.len() {
            Some(self.arguments@[position])
        } else {
            None
        }
    }

    /// The argument at `position`, if the instruction has that many.
    pub fn argument(&self, position: usize) -> (a: Option<u32>)
        ensures
            a == self.arg(position as int),
    {
        if position < self.arguments.len() {
            Some(self.arguments[position])
        } else {
            None
        }
    }
}

} // verus!
