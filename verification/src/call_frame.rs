//! Call frames.

use crate::compiled_code::{CompiledCode, RcCompiledCode};
use crate::instruction::Instruction;
use crate::object::ObjectId;
use std::sync::Arc;
use vstd::prelude::*;

verus! {

/// The record of one invocation: the code being executed, how far execution
/// has got, where the code came from, and the local variables.
pub struct CallFrame {
    code: RcCompiledCode,
    name: String,
    file: String,
    line: u32,
    locals: Vec<Option<ObjectId>>,
    ip: usize,
    return_to: Option<u32>,
}

/// The mathematical content of a [`CallFrame`].
#[verifier::ext_equal]
pub struct FrameView {
    /// The code the frame executes.
    pub code: RcCompiledCode,
    pub name: Seq<char>,
    pub file: Seq<char>,
    pub line: u32,
    /// The local variables by index. An index that was skipped holds nothing.
    pub locals: Seq<Option<ObjectId>>,
    /// The index of the next instruction.
    pub ip: usize,
    /// The caller's register that receives the value this frame returns.
    /// A frame without one ends the run when it completes.
    pub return_to: Option<u32>,
}

impl FrameView {
    /// The frame that a call of `code` starts with.
    pub open spec fn entering(
        code: RcCompiledCode,
        locals: Seq<Option<ObjectId>>,
        return_to: Option<u32>,
    ) -> FrameView {
        FrameView {
            code,
            name: code.name@,
            file: code.file@,
            line: code.line,
            locals,
            ip: 0,
            return_to,
        }
    }

    /// The local variable at `index`, if it has been set.
    pub open spec fn local(self, index: int) -> Option<ObjectId> {
        if 0 <= index < self.locals.len() {
            self.locals[index]
        } else {
            None
        }
    }

    /// The locals after setting the one at `index`, skipped indices holding
    /// nothing.
    pub open spec fn locals_with(self, index: int, object: ObjectId) -> Seq<Option<ObjectId>> {
        if index < self.locals.len() {
            self.locals.update(index, Some(object))
        } else {
            Seq::new(
                (index + 1) as nat,
                |i: int|
                    if i < self.locals.len() {
                        self.locals[i]
                    } else if i == index {
                        Some(object)
                    } else {
                        None
                    },
            )
        }
    }

    /// Whether the frame has run past its last instruction.
    pub open spec fn at_end(self) -> bool {
        self.ip >= self.code.instructions@.len()
    }

    /// The code the frame executes.
    pub open spec fn program(self) -> CompiledCode {
        *self.code
    }

    /// The instruction the frame executes next.
    pub open spec fn next_instruction(self) -> Instruction {
        self.code.instructions@[self.ip as int]
    }
}

impl View for CallFrame {
    type V = FrameView;

    closed spec fn view(&self) -> FrameView {
        FrameView {
            code: self.code,
            name: self.name@,
            file: self.file@,
            line: self.line,
            locals: self.locals@,
            ip: self.ip,
            return_to: self.return_to,
        }
    }
}

impl CallFrame {
    /// A frame with the given source location that executes no code.
    pub fn new(name: String, file: String, line: u32) -> (frame: CallFrame)
        ensures
            frame@.name == name@,
            frame@.file == file@,
            frame@.line == line,
            frame@.locals == Seq::<Option<ObjectId>>::empty(),
            frame@.ip == 0,
            frame@.return_to is None,
            frame@.code.instructions@.len() == 0,
            frame@.code.name@ == name@,
            frame@.code.file@ == file@,
            frame@.code.line == line,
    {
        let code = CompiledCode::new(name.clone(), file.clone(), line, Vec::new());
        CallFrame {
            code: Arc::new(code),
            name,
            file,
            line,
            locals: Vec::new(),
            ip: 0,
            return_to: None,
        }
    }

    /// The frame that a call of `code` starts with: no locals, at the first
    /// instruction, ending the run when it completes.
    pub fn from_code(code: RcCompiledCode) -> (frame: CallFrame)
        ensures
            frame@ == FrameView::entering(code, Seq::empty(), None),
    {
        let name = code.name.clone();
        let file = code.file.clone();
        let line = code.line;
        CallFrame { code, name, file, line, locals: Vec::new(), ip: 0, return_to: None }
    }

    pub fn code(&self) -> (code: RcCompiledCode)
        ensures
            code == self@.code,
    {
        self.code.clone()
    }

    /// Makes the frame execute `code` from its first instruction.
    pub fn set_code(&mut self, code: RcCompiledCode)
        ensures
            final(self)@ == (FrameView { code, ip: 0, ..old(self)@ }),
    {
        self.code = code;
        self.ip = 0;
    }

    pub fn name(&self) -> (name: &String)
        ensures
            name@ == self@.name,
    {
        &self.name
    }

    pub fn file(&self) -> (file: &String)
        ensures
            file@ == self@.file,
    {
        &self.file
    }

    pub fn line(&self) -> (line: u32)
        ensures
            line == self@.line,
    {
        self.line
    }

    pub fn ip(&self) -> (ip: usize)
        ensures
            ip == self@.ip,
    {
        self.ip
    }

    pub fn set_ip(&mut self, ip: usize)
        ensures
            final(self)@ == (FrameView { ip, ..old(self)@ }),
    {
        self.ip = ip;
    }

    pub fn return_to(&self) -> (slot: Option<u32>)
        ensures
            slot == self@.return_to,
    {
        self.return_to
    }

    pub fn set_return_to(&mut self, slot: Option<u32>)
        ensures
            final(self)@ == (FrameView { return_to: slot, ..old(self)@ }),
    {
        self.return_to = slot;
    }

    /// The number of local variable slots.
    pub fn local_count(&self) -> (n: usize)
        ensures
            n == self@.locals.len(),
    {
        self.locals.len()
    }

    /// The local variable at `index`, if it has been set.
    pub fn get_local(&self, index: usize) -> (object: Option<ObjectId>)
        ensures
            object == self@.local(index as int),
    {
        if index < self.locals.len() {
            self.locals[index]
        } else {
            None
        }
    }

    /// Appends a local variable.
    pub fn add_local(&mut self, object: ObjectId)
        ensures
            final(self)@ == (FrameView {
                locals: old(self)@.locals.push(Some(object)),
                ..old(self)@
            }),
    {
        self.locals.push(Some(object));
    }

    /// Sets the local variable at `index`, creating it and the ones before it
    /// if the frame has fewer.
    pub fn set_local(&mut self, index: usize, object: ObjectId)
        ensures
            final(self)@ == (FrameView {
                locals: old(self)@.locals_with(index as int, object),
                ..old(self)@
            }),
    {
        if index < self.locals.len() {
            self.locals[index] = Some(object);
        } else {
            while self.locals.len() < index
                invariant
                    old(self).locals@.len() <= self.locals@.len() <= index,
                    forall|i: int|
                        0 <= i < old(self).locals@.len() ==> self.locals@[i] == old(
                            self,
                        ).locals@[i],
                    forall|i: int|
                        old(self).locals@.len() <= i < self.locals@.len()
                            ==> self.locals@[i] is None,
                    self.code == old(self).code,
                    self.name == old(self).name,
                    self.file == old(self).file,
                    self.line == old(self).line,
                    self.ip == old(self).ip,
                    self.return_to == old(self).return_to,
                decreases index - self.locals@.len(),
            {
                self.locals.push(None);
            }
            self.locals.push(Some(object));
            assert(self.locals@ =~= old(self)@.locals_with(index as int, object));
        }
    }
}

} // verus!
