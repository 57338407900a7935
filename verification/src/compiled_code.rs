//! Compiled code: an instruction stream with its literal pools.

use crate::instruction::Instruction;
use std::sync::Arc;
use vstd::prelude::*;

verus! {

/// A shared, immutable piece of compiled code.
pub type RcCompiledCode = Arc<CompiledCode>;

/// An instruction stream together with the literals and nested code objects
/// that its instructions refer to by index.
///
/// Float literals are held as IEEE 754 double-precision bit patterns.
pub struct CompiledCode {
    pub name: String,
    pub file: String,
    pub line: u32,
    pub required_arguments: usize,
    pub private: bool,
    pub instructions: Vec<Instruction>,
    pub integer_literals: Vec<i64>,
    pub float_literals: Vec<u64>,
    pub string_literals: Vec<String>,
    pub code_objects: Vec<RcCompiledCode>,
}

impl CompiledCode {
    /// Public code without literals that takes no arguments.
    pub fn new(name: String, file: String, line: u32, instructions: Vec<Instruction>) -> (code:
        CompiledCode)
        ensures
            code.name == name,
            code.file == file,
            code.line == line,
            code.instructions == instructions,
            code.required_arguments == 0,
            !code.private,
            code.integer_literals@.len() == 0,
            code.float_literals@.len() == 0,
            code.string_literals@.len() == 0,
            code.code_objects@.len() == 0,
    {
        CompiledCode {
            name,
            file,
            line,
            required_arguments: 0,
            private: false,
            instructions,
            integer_literals: Vec::new(),
            float_literals: Vec::new(),
            string_literals: Vec::new(),
            code_objects: Vec::new(),
        }
    }

    /// Marks the code as taking `count` arguments besides the receiver.
    pub fn set_required_arguments(&mut self, count: usize)
        ensures
            *final(self) == (CompiledCode { required_arguments: count, ..*old(self) }),
    {
        self.required_arguments = count;
    }

    /// Marks the code as callable only where private methods are allowed.
    pub fn set_private(&mut self, private: bool)
        ensures
            *final(self) == (CompiledCode { private, ..*old(self) }),
    {
        self.private = private;
    }

    pub fn is_private(&self) -> (p: bool)
        ensures
            p == self.private,
    {
        self.private
    }

    pub fn add_integer_literal(&mut self, value: i64)
        ensures
            final(self).integer_literals@ == old(self).integer_literals@.push(value),
            final(self).name == old(self).name,
            final(self).file == old(self).file,
            final(self).line == old(self).line,
            final(self).required_arguments == old(self).required_arguments,
            final(self).private == old(self).private,
            final(self).instructions == old(self).instructions,
            final(self).float_literals == old(self).float_literals,
            final(self).string_literals == old(self).string_literals,
            final(self).code_objects == old(self).code_objects,
    {
        self.integer_literals.push(value);
    }

    /// Adds the double whose bit pattern is `bits`.
    pub fn add_float_literal(&mut self, bits: u64)
        ensures
            final(self).float_literals@ == old(self).float_literals@.push(bits),
            final(self).name == old(self).name,
            final(self).file == old(self).file,
            final(self).line == old(self).line,
            final(self).required_arguments == old(self).required_arguments,
            final(self).private == old(self).private,
            final(self).instructions == old(self).instructions,
            final(self).integer_literals == old(self).integer_literals,
            final(self).string_literals == old(self).string_literals,
            final(self).code_objects == old(self).code_objects,
    {
        self.float_literals.push(bits);
    }

    pub fn add_string_literal(&mut self, value: String)
        ensures
            final(self).string_literals@ == old(self).string_literals@.push(value),
            final(self).name == old(self).name,
            final(self).file == old(self).file,
            final(self).line == old(self).line,
            final(self).required_arguments == old(self).required_arguments,
            final(self).private == old(self).private,
            final(self).instructions == old(self).instructions,
            final(self).integer_literals == old(self).integer_literals,
            final(self).float_literals == old(self).float_literals,
            final(self).code_objects == old(self).code_objects,
    {
        self.string_literals.push(value);
    }

    pub fn add_code_object(&mut self, code: RcCompiledCode)
        ensures
            final(self).code_objects@ == old(self).code_objects@.push(code),
            final(self).name == old(self).name,
            final(self).file == old(self).file,
            final(self).line == old(self).line,
            final(self).required_arguments == old(self).required_arguments,
            final(self).private == old(self).private,
            final(self).instructions == old(self).instructions,
            final(self).integer_literals == old(self).integer_literals,
            final(self).float_literals == old(self).float_literals,
            final(self).string_literals == old(self).string_literals,
    {
        self.code_objects.push(code);
    }

    /// The integer literal at `index`, if the pool has one there.
    pub fn integer_literal(&self, index: u32) -> (value: Option<i64>)
        ensures
            value == (if index < self.integer_literals@.len() {
                Some(self.integer_literals@[index as int])
            } else {
                None
            }),
    {
        if (index as usize) < self.integer_literals.len() {
            Some(self.integer_literals[index as usize])
        } else {
            None
        }
    }

    /// The bit pattern of the float literal at `index`, if the pool has one there.
    pub fn float_literal(&self, index: u32) -> (value: Option<u64>)
        ensures
            value == (if index < self.float_literals@.len() {
                Some(self.float_literals@[index as int])
            } else {
                None
            }),
    {
        if (index as usize) < self.float_literals.len() {
            Some(self.float_literals[index as usize])
        } else {
            None
        }
    }

    /// The string literal at `index`, if the pool has one there.
    pub fn string_literal(&self, index: u32) -> (value: Option<&String>)
        ensures
            value == (if index < self.string_literals@.len() {
                Some(&self.string_literals@[index as int])
            } else {
                None
            }),
    {
        if (index as usize) < self.string_literals.len() {
            Some(&self.string_literals[index as usize])
        } else {
            None
        }
    }

    /// The nested code object at `index`, if there is one.
    pub fn code_object(&self, index: u32) -> (code: Option<RcCompiledCode>)
        ensures
            code == (if index < self.code_objects@.len() {
                Some(self.code_objects@[index as int])
            } else {
                None
            }),
    {
        if (index as usize) < self.code_objects.len() {
            Some(self.code_objects[index as usize].clone())
        } else {
            None
        }
    }
}

} // verus!
