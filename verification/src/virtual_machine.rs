//! The machine: a heap, its threads, and the interpreter that advances them.

use crate::call_frame::{CallFrame, FrameView};
use crate::compiled_code::{CompiledCode, RcCompiledCode};
use crate::error::{Fault, LiteralPool};
use crate::instruction::{Instruction, InstructionType};
use crate::integer::{
    append_natural, compare, compute, integer_to_string, to_float_bits, Arithmetic, Comparison,
};
use crate::memory_manager::{MemoryManager, PrototypeKind};
use crate::object::ObjectId;
use crate::object_value::ObjectValue;
use crate::semantics::{
    as_locals, code_at, collected, fatal_text, frame_line, misfit, misfit_counted, name_at,
    trace, MachineView, Step,
};
use crate::thread::{Thread, ThreadView};
use crate::thread_list::{ThreadId, ThreadList};
use vstd::prelude::*;
use vstd::string::StringExecFns;

verus! {

/// A single machine. Machines share nothing, so several can run side by side.
pub struct VirtualMachine {
    threads: ThreadList,
    memory_manager: MemoryManager,
    exit_status: Result<(), ()>,
    errors: Vec<String>,
}

impl View for VirtualMachine {
    type V = MachineView;

    closed spec fn view(&self) -> MachineView {
        MachineView {
            threads: self.threads@,
            memory: self.memory_manager@,
            exit_status: self.exit_status,
            errors: Seq::new(self.errors@.len(), |i: int| self.errors@[i]@),
        }
    }
}

/// Whether a handler did what the semantics prescribe: on success the state is
/// the prescribed one, and on a fault the fault is the prescribed one and the
/// state is as it was.
pub open spec fn follows(
    prescribed: Result<MachineView, Fault>,
    before: MachineView,
    after: MachineView,
    result: Result<(), Fault>,
) -> bool {
    match result {
        Ok(()) => prescribed == Ok::<MachineView, Fault>(after),
        Err(fault) => prescribed == Err::<MachineView, Fault>(fault) && after == before,
    }
}

/// Checks that an instruction has between `least` and `most` arguments.
fn fit(instruction: &Instruction, least: usize, most: usize) -> (r: Result<(), Fault>)
    ensures
        match r {
            Ok(()) => misfit(*instruction, least as int, most as int) is None,
            Err(fault) => misfit(*instruction, least as int, most as int) == Some(fault),
        },
{
    if instruction.arguments.len() < least {
        Err(Fault::MissingArgument { position: instruction.arguments.len() })
    } else if instruction.arguments.len() > most {
        Err(Fault::UnexpectedArgument { position: most })
    } else {
        Ok(())
    }
}

/// Checks that an instruction has `least` arguments followed by as many as
/// the argument at `counter` says.
fn fit_counted(instruction: &Instruction, least: usize, counter: usize) -> (r: Result<(), Fault>)
    requires
        counter < least,
    ensures
        match r {
            Ok(()) => misfit_counted(*instruction, least as int, counter as int) is None,
            Err(fault) => misfit_counted(*instruction, least as int, counter as int) == Some(
                fault,
            ),
        },
{
    if instruction.arguments.len() < least {
        return Err(Fault::MissingArgument { position: instruction.arguments.len() });
    }
    match least.checked_add(instruction.arguments[counter] as usize) {
        Some(most) => {
            if instruction.arguments.len() > most {
                return Err(Fault::UnexpectedArgument { position: most });
            }
        },
        None => {},
    }
    Ok(())
}

fn append_frame_line(text: &mut String, frame: &CallFrame)
    ensures
        final(text)@ == old(text)@ + frame_line(frame@),
{
    text.append("\n");
    text.append(frame.file().as_str());
    text.append(" line ");
    append_natural(text, frame.line() as u64);
    text.append(" in \"");
    text.append(frame.name().as_str());
    text.append("\"");
    assert(text@ =~= old(text)@ + frame_line(frame@));
}

fn name_of(code: &CompiledCode, index: u32) -> (r: Result<&String, Fault>)
    ensures
        match r {
            Ok(name) => name_at(*code, index) == Ok::<String, Fault>(*name),
            Err(fault) => name_at(*code, index) == Err::<String, Fault>(fault),
        },
{
    match code.string_literal(index) {
        Some(name) => Ok(name),
        None => Err(Fault::UndefinedLiteral { pool: LiteralPool::String, index }),
    }
}

fn code_of(code: &CompiledCode, index: u32) -> (r: Result<RcCompiledCode, Fault>)
    ensures
        r == code_at(*code, index),
{
    match code.code_object(index) {
        Some(nested) => Ok(nested),
        None => Err(Fault::UndefinedCodeObject { index }),
    }
}

impl VirtualMachine {
    /// A machine with no thread and a heap that holds only the top-level
    /// object.
    pub fn new() -> (vm: VirtualMachine)
        ensures
            vm@ == MachineView::initial(),
    {
        let vm = VirtualMachine {
            threads: ThreadList::new(),
            memory_manager: MemoryManager::new(),
            exit_status: Ok(()),
            errors: Vec::new(),
        };
        assert(vm@.errors =~= Seq::<Seq<char>>::empty());
        vm
    }

    /// The report of the fault at `index`, counted from the oldest.
    pub fn error_report(&self, index: usize) -> (report: Option<&String>)
        ensures
            match report {
                Some(text) => index < self@.errors.len() && text@ == self@.errors[index as int],
                None => index >= self@.errors.len(),
            },
    {
        if index < self.errors.len() {
            Some(&self.errors[index])
        } else {
            None
        }
    }

    /// The number of fault reports.
    pub fn error_count(&self) -> (n: usize)
        ensures
            n == self@.errors.len(),
    {
        self.errors.len()
    }

    /// Every thread of a machine has a frame.
    pub proof fn lemma_well_formed(self)
        ensures
            self@.well_formed(),
    {
        self.threads.lemma_has_frames();
        self.memory_manager.lemma_consistent();
    }

    pub fn memory_manager(&self) -> (memory: &MemoryManager)
        ensures
            memory@ == self@.memory,
    {
        &self.memory_manager
    }

    /// The memory manager, for setting the heap up.
    pub fn memory_manager_mut(&mut self) -> (memory: &mut MemoryManager)
        ensures
            memory@ == old(self)@.memory,
            final(self)@ == old(self)@.with_memory(final(memory)@),
    {
        &mut self.memory_manager
    }

    /// The thread with this identity, for setting it up.
    pub fn thread_mut(&mut self, thread: ThreadId) -> (t: &mut Thread)
        requires
            old(self)@.has_thread(thread),
        ensures
            t@ == old(self)@.thread(thread),
            final(self)@ == old(self)@.with_thread(thread, final(t)@),
    {
        self.threads.thread_mut(thread)
    }

    pub fn threads(&self) -> (threads: &ThreadList)
        ensures
            threads@ == self@.threads,
    {
        &self.threads
    }

    /// The thread with this identity, if there is one.
    pub fn thread(&self, thread: ThreadId) -> (t: Option<&Thread>)
        ensures
            match t {
                Some(t) => self@.has_thread(thread) && t@ == self@.thread(thread),
                None => !self@.has_thread(thread),
            },
    {
        self.threads.thread(thread)
    }

    /// Takes a thread made elsewhere into the machine, registered as alive.
    pub fn add_thread(&mut self, thread: Thread) -> (id: ThreadId)
        ensures
            id == old(self)@.threads.len(),
            final(self)@ == (MachineView {
                threads: old(self)@.threads.push(
                    ThreadView { live: true, ..thread@ },
                ),
                ..old(self)@
            }),
    {
        self.threads.add(thread)
    }

    pub fn exit_status(&self) -> (status: Result<(), ()>)
        ensures
            status == self@.exit_status,
    {
        self.exit_status
    }

    fn read(&self, thread: ThreadId, slot: u32) -> (r: Result<ObjectId, Fault>)
        requires
            self@.has_thread(thread),
        ensures
            r == self@.read(thread, slot),
    {
        match self.threads.thread(thread) {
            Some(t) => match t.get_register(slot) {
                Some(object) => Ok(object),
                None => Err(Fault::UndefinedRegister { slot }),
            },
            None => Err(Fault::UndefinedRegister { slot }),
        }
    }

    fn read_object(&self, thread: ThreadId, slot: u32) -> (r: Result<ObjectId, Fault>)
        requires
            self@.has_thread(thread),
        ensures
            r == self@.read_object(thread, slot),
    {
        let object = self.read(thread, slot)?;
        if self.memory_manager.contains(object) {
            Ok(object)
        } else {
            Err(Fault::UndefinedObject { object })
        }
    }

    fn need(&self, kind: PrototypeKind) -> (r: Result<ObjectId, Fault>)
        ensures
            r == self@.need(kind),
    {
        match self.memory_manager.prototype(kind) {
            Some(object) => Ok(object),
            None => Err(Fault::PrototypeMissing { kind }),
        }
    }

    fn set_register(&mut self, thread: ThreadId, slot: u32, object: ObjectId)
        requires
            old(self)@.has_thread(thread),
        ensures
            final(self)@ == old(self)@.with_register(thread, slot, object),
    {
        self.threads.thread_mut(thread).set_register(slot, object);
    }

    fn allocate_into(
        &mut self,
        thread: ThreadId,
        slot: u32,
        value: ObjectValue,
        prototype: Option<ObjectId>,
    )
        requires
            old(self)@.has_thread(thread),
        ensures
            final(self)@ == old(self)@.allocated(thread, slot, value@, prototype),
    {
        let mut object = self.memory_manager.new_object(value);
        match prototype {
            Some(p) => {
                object.set_prototype(p);
            },
            None => {},
        }
        let id = self.memory_manager.allocate_prepared(object);
        self.set_register(thread, slot, id);
    }

    fn set_literal(
        &mut self,
        thread: ThreadId,
        code: &CompiledCode,
        instruction: &Instruction,
        pool: LiteralPool,
    ) -> (r: Result<(), Fault>)
        requires
            old(self)@.has_thread(thread),
        ensures
            follows(
                old(self)@.set_literal(thread, *code, *instruction, pool),
                old(self)@,
                final(self)@,
                r,
            ),
    {
        fit(instruction, 2, 2)?;
        let slot = instruction.arguments[0];
        let index = instruction.arguments[1];
        let found = match pool {
            LiteralPool::Integer => match code.integer_literal(index) {
                Some(value) => Some(ObjectValue::Integer(value)),
                None => None,
            },
            LiteralPool::Float => match code.float_literal(index) {
                Some(bits) => Some(ObjectValue::Float(bits)),
                None => None,
            },
            LiteralPool::String => match code.string_literal(index) {
                Some(text) => Some(ObjectValue::String(text.clone())),
                None => None,
            },
        };
        let value = match found {
            Some(value) => value,
            None => {
                return Err(Fault::UndefinedLiteral { pool, index });
            },
        };
        let kind = match pool {
            LiteralPool::Integer => PrototypeKind::Integer,
            LiteralPool::Float => PrototypeKind::Float,
            LiteralPool::String => PrototypeKind::String,
        };
        let prototype = self.need(kind)?;
        self.allocate_into(thread, slot, value, Some(prototype));
        Ok(())
    }

    /// Puts a new integer object, made from a literal, in a register.
    pub fn ins_set_integer(
        &mut self,
        thread: ThreadId,
        code: &CompiledCode,
        instruction: &Instruction,
    ) -> (r: Result<(), Fault>)
        requires
            old(self)@.has_thread(thread),
        ensures
            follows(
                old(self)@.set_literal(thread, *code, *instruction, LiteralPool::Integer),
                old(self)@,
                final(self)@,
                r,
            ),
    {
        self.set_literal(thread, code, instruction, LiteralPool::Integer)
    }

    /// Puts a new float object, made from a literal, in a register.
    pub fn ins_set_float(
        &mut self,
        thread: ThreadId,
        code: &CompiledCode,
        instruction: &Instruction,
    ) -> (r: Result<(), Fault>)
        requires
            old(self)@.has_thread(thread),
        ensures
            follows(
                old(self)@.set_literal(thread, *code, *instruction, LiteralPool::Float),
                old(self)@,
                final(self)@,
                r,
            ),
    {
        self.set_literal(thread, code, instruction, LiteralPool::Float)
    }

    /// Puts a new string object, made from a literal, in a register.
    pub fn ins_set_string(
        &mut self,
        thread: ThreadId,
        code: &CompiledCode,
        instruction: &Instruction,
    ) -> (r: Result<(), Fault>)
        requires
            old(self)@.has_thread(thread),
        ensures
            follows(
                old(self)@.set_literal(thread, *code, *instruction, LiteralPool::String),
                old(self)@,
                final(self)@,
                r,
            ),
    {
        self.set_literal(thread, code, instruction, LiteralPool::String)
    }

    /// Puts a new object without a payload in a register. The object gets the
    /// prototype found in the register the second argument names, if there is
    /// a second argument.
    pub fn ins_set_object(
        &mut self,
        thread: ThreadId,
        code: &CompiledCode,
        instruction: &Instruction,
    ) -> (r: Result<(), Fault>)
        requires
            old(self)@.has_thread(thread),
        ensures
            follows(old(self)@.set_object(thread, *instruction), old(self)@, final(self)@, r),
    {
        fit(instruction, 1, 2)?;
        let slot = instruction.arguments[0];
        let prototype = if instruction.arguments.len() == 1 {
            None
        } else {
            Some(self.read(thread, instruction.arguments[1])?)
        };
        self.allocate_into(thread, slot, ObjectValue::Empty, prototype);
        Ok(())
    }

    /// The objects in the registers that `amount` arguments of the instruction
    /// name, starting with the argument at `offset`.
    #[verifier::rlimit(50)]
    pub fn collect_arguments(
        &self,
        thread: ThreadId,
        instruction: &Instruction,
        offset: usize,
        amount: u32,
    ) -> (r: Result<Vec<ObjectId>, Fault>)
        requires
            self@.has_thread(thread),
        ensures
            match r {
                Ok(objects) => collected(
                    self@.thread(thread),
                    *instruction,
                    offset as int,
                    amount as nat,
                ) == Ok::<Seq<ObjectId>, Fault>(objects@),
                Err(fault) => collected(
                    self@.thread(thread),
                    *instruction,
                    offset as int,
                    amount as nat,
                ) == Err::<Seq<ObjectId>, Fault>(fault),
            },
    {
        let mut objects: Vec<ObjectId> = Vec::new();
        let mut done: u32 = 0;
        while done < amount
            invariant
                self@.has_thread(thread),
                done <= amount,
                collected(self@.thread(thread), *instruction, offset as int, done as nat) == Ok::<
                    Seq<ObjectId>,
                    Fault,
                >(objects@),
            decreases amount - done,
        {
            let position = match offset.checked_add(done as usize) {
                Some(position) => position,
                None => instruction.arguments.len(),
            };
            if position >= instruction.arguments.len() {
                proof {
                    lemma_collected_fault(
                        self@.thread(thread),
                        *instruction,
                        offset as int,
                        (done + 1) as nat,
                        amount as nat,
                    );
                }
                return Err(Fault::MissingArgument { position: instruction.arguments.len() });
            }
            let slot = instruction.arguments[position];
            let object = match self.read(thread, slot) {
                Ok(object) => object,
                Err(fault) => {
                    proof {
                        lemma_collected_fault(
                            self@.thread(thread),
                            *instruction,
                            offset as int,
                            (done + 1) as nat,
                            amount as nat,
                        );
                    }
                    return Err(fault);
                },
            };
            objects.push(object);
            done = done + 1;
        }
        Ok(objects)
    }

    /// Puts a new array object in a register.
    pub fn ins_set_array(
        &mut self,
        thread: ThreadId,
        code: &CompiledCode,
        instruction: &Instruction,
    ) -> (r: Result<(), Fault>)
        requires
            old(self)@.has_thread(thread),
        ensures
            follows(old(self)@.set_array(thread, *instruction), old(self)@, final(self)@, r),
    {
        fit_counted(instruction, 2, 1)?;
        let slot = instruction.arguments[0];
        let count = instruction.arguments[1];
        let values = self.collect_arguments(thread, instruction, 2, count)?;
        let prototype = self.need(PrototypeKind::Array)?;
        self.allocate_into(thread, slot, ObjectValue::Array(values), Some(prototype));
        Ok(())
    }

    /// Gives the object in a register a name.
    pub fn ins_set_name(
        &mut self,
        thread: ThreadId,
        code: &CompiledCode,
        instruction: &Instruction,
    ) -> (r: Result<(), Fault>)
        requires
            old(self)@.has_thread(thread),
        ensures
            follows(old(self)@.set_name(thread, *code, *instruction), old(self)@, final(self)@, r),
    {
        fit(instruction, 2, 2)?;
        let object = self.read_object(thread, instruction.arguments[0])?;
        let name = name_of(code, instruction.arguments[1])?;
        self.memory_manager.object_mut(object).set_name(name.clone());
        Ok(())
    }

    fn set_prototype(
        &mut self,
        thread: ThreadId,
        instruction: &Instruction,
        kind: PrototypeKind,
    ) -> (r: Result<(), Fault>)
        requires
            old(self)@.has_thread(thread),
        ensures
            follows(
                old(self)@.set_prototype(thread, *instruction, kind),
                old(self)@,
                final(self)@,
                r,
            ),
    {
        fit(instruction, 1, 1)?;
        let object = self.read(thread, instruction.arguments[0])?;
        self.memory_manager.set_prototype(kind, object)?;
        match kind {
            PrototypeKind::Thread => {
                self.threads.set_prototype(&mut self.memory_manager, object);
            },
            _ => {},
        }
        Ok(())
    }

    /// Installs the object in a register as the Integer prototype.
    pub fn ins_set_integer_prototype(
        &mut self,
        thread: ThreadId,
        code: &CompiledCode,
        instruction: &Instruction,
    ) -> (r: Result<(), Fault>)
        requires
            old(self)@.has_thread(thread),
        ensures
            follows(
                old(self)@.set_prototype(thread, *instruction, PrototypeKind::Integer),
                old(self)@,
                final(self)@,
                r,
            ),
    {
        self.set_prototype(thread, instruction, PrototypeKind::Integer)
    }

    /// Installs the object in a register as the Float prototype.
    pub fn ins_set_float_prototype(
        &mut self,
        thread: ThreadId,
        code: &CompiledCode,
        instruction: &Instruction,
    ) -> (r: Result<(), Fault>)
        requires
            old(self)@.has_thread(thread),
        ensures
            follows(
                old(self)@.set_prototype(thread, *instruction, PrototypeKind::Float),
                old(self)@,
                final(self)@,
                r,
            ),
    {
        self.set_prototype(thread, instruction, PrototypeKind::Float)
    }

    /// Installs the object in a register as the String prototype.
    pub fn ins_set_string_prototype(
        &mut self,
        thread: ThreadId,
        code: &CompiledCode,
        instruction: &Instruction,
    ) -> (r: Result<(), Fault>)
        requires
            old(self)@.has_thread(thread),
        ensures
            follows(
                old(self)@.set_prototype(thread, *instruction, PrototypeKind::String),
                old(self)@,
                final(self)@,
                r,
            ),
    {
        self.set_prototype(thread, instruction, PrototypeKind::String)
    }

    /// Installs the object in a register as the Array prototype.
    pub fn ins_set_array_prototype(
        &mut self,
        thread: ThreadId,
        code: &CompiledCode,
        instruction: &Instruction,
    ) -> (r: Result<(), Fault>)
        requires
            old(self)@.has_thread(thread),
        ensures
            follows(
                old(self)@.set_prototype(thread, *instruction, PrototypeKind::Array),
                old(self)@,
                final(self)@,
                r,
            ),
    {
        self.set_prototype(thread, instruction, PrototypeKind::Array)
    }

    /// Installs the object in a register as the Thread prototype. The objects
    /// of the threads that are alive get it as their prototype.
    pub fn ins_set_thread_prototype(
        &mut self,
        thread: ThreadId,
        code: &CompiledCode,
        instruction: &Instruction,
    ) -> (r: Result<(), Fault>)
        requires
            old(self)@.has_thread(thread),
        ensures
            follows(
                old(self)@.set_prototype(thread, *instruction, PrototypeKind::Thread),
                old(self)@,
                final(self)@,
                r,
            ),
    {
        self.set_prototype(thread, instruction, PrototypeKind::Thread)
    }

    /// Installs the object in a register as the True prototype. This also creates the True
    /// singleton.
    pub fn ins_set_true_prototype(
        &mut self,
        thread: ThreadId,
        code: &CompiledCode,
        instruction: &Instruction,
    ) -> (r: Result<(), Fault>)
        requires
            old(self)@.has_thread(thread),
        ensures
            follows(
                old(self)@.set_prototype(thread, *instruction, PrototypeKind::True),
                old(self)@,
                final(self)@,
                r,
            ),
    {
        self.set_prototype(thread, instruction, PrototypeKind::True)
    }

    /// Installs the object in a register as the False prototype. This also creates the False
    /// singleton.
    pub fn ins_set_false_prototype(
        &mut self,
        thread: ThreadId,
        code: &CompiledCode,
        instruction: &Instruction,
    ) -> (r: Result<(), Fault>)
        requires
            old(self)@.has_thread(thread),
        ensures
            follows(
                old(self)@.set_prototype(thread, *instruction, PrototypeKind::False),
                old(self)@,
                final(self)@,
                r,
            ),
    {
        self.set_prototype(thread, instruction, PrototypeKind::False)
    }

    /// Installs the object in a register as the Block prototype.
    pub fn ins_set_block_prototype(
        &mut self,
        thread: ThreadId,
        code: &CompiledCode,
        instruction: &Instruction,
    ) -> (r: Result<(), Fault>)
        requires
            old(self)@.has_thread(thread),
        ensures
            follows(
                old(self)@.set_prototype(thread, *instruction, PrototypeKind::Block),
                old(self)@,
                final(self)@,
                r,
            ),
    {
        self.set_prototype(thread, instruction, PrototypeKind::Block)
    }

    /// Installs the object in a register as the Boolean prototype.
    pub fn ins_set_boolean_prototype(
        &mut self,
        thread: ThreadId,
        code: &CompiledCode,
        instruction: &Instruction,
    ) -> (r: Result<(), Fault>)
        requires
            old(self)@.has_thread(thread),
        ensures
            follows(
                old(self)@.set_prototype(thread, *instruction, PrototypeKind::Boolean),
                old(self)@,
                final(self)@,
                r,
            ),
    {
        self.set_prototype(thread, instruction, PrototypeKind::Boolean)
    }

    fn singleton(&self, truth: bool) -> (r: Result<ObjectId, Fault>)
        ensures
            r == self@.singleton(truth),
    {
        if truth {
            match self.memory_manager.true_object() {
                Some(object) => Ok(object),
                None => Err(Fault::PrototypeMissing { kind: PrototypeKind::True }),
            }
        } else {
            match self.memory_manager.false_object() {
                Some(object) => Ok(object),
                None => Err(Fault::PrototypeMissing { kind: PrototypeKind::False }),
            }
        }
    }

    fn set_singleton(
        &mut self,
        thread: ThreadId,
        instruction: &Instruction,
        truth: bool,
    ) -> (r: Result<(), Fault>)
        requires
            old(self)@.has_thread(thread),
        ensures
            follows(
                old(self)@.set_singleton(thread, *instruction, truth),
                old(self)@,
                final(self)@,
                r,
            ),
    {
        fit(instruction, 1, 1)?;
        let object = self.singleton(truth)?;
        self.set_register(thread, instruction.arguments[0], object);
        Ok(())
    }

    /// Puts the True singleton in a register.
    pub fn ins_set_true(
        &mut self,
        thread: ThreadId,
        code: &CompiledCode,
        instruction: &Instruction,
    ) -> (r: Result<(), Fault>)
        requires
            old(self)@.has_thread(thread),
        ensures
            follows(
                old(self)@.set_singleton(thread, *instruction, true),
                old(self)@,
                final(self)@,
                r,
            ),
    {
        self.set_singleton(thread, instruction, true)
    }

    /// Puts the False singleton in a register.
    pub fn ins_set_false(
        &mut self,
        thread: ThreadId,
        code: &CompiledCode,
        instruction: &Instruction,
    ) -> (r: Result<(), Fault>)
        requires
            old(self)@.has_thread(thread),
        ensures
            follows(
                old(self)@.set_singleton(thread, *instruction, false),
                old(self)@,
                final(self)@,
                r,
            ),
    {
        self.set_singleton(thread, instruction, false)
    }

    /// Copies a register to a local variable of the current frame.
    pub fn ins_set_local(
        &mut self,
        thread: ThreadId,
        code: &CompiledCode,
        instruction: &Instruction,
    ) -> (r: Result<(), Fault>)
        requires
            old(self)@.has_thread(thread),
        ensures
            follows(old(self)@.set_local(thread, *instruction), old(self)@, final(self)@, r),
    {
        fit(instruction, 2, 2)?;
        let object = self.read(thread, instruction.arguments[1])?;
        self.threads.thread_mut(thread).set_local(instruction.arguments[0] as usize, object);
        Ok(())
    }

    /// Copies a local variable of the current frame to a register.
    pub fn ins_get_local(
        &mut self,
        thread: ThreadId,
        code: &CompiledCode,
        instruction: &Instruction,
    ) -> (r: Result<(), Fault>)
        requires
            old(self)@.has_thread(thread),
        ensures
            follows(old(self)@.get_local(thread, *instruction), old(self)@, final(self)@, r),
    {
        fit(instruction, 2, 2)?;
        let index = instruction.arguments[1];
        let found = match self.threads.thread(thread) {
            Some(t) => t.get_local(index as usize),
            None => None,
        };
        match found {
            Some(object) => {
                self.set_register(thread, instruction.arguments[0], object);
                Ok(())
            },
            None => Err(Fault::UndefinedLocal { index }),
        }
    }

    /// Binds a constant of one object to another object.
    pub fn ins_set_const(
        &mut self,
        thread: ThreadId,
        code: &CompiledCode,
        instruction: &Instruction,
    ) -> (r: Result<(), Fault>)
        requires
            old(self)@.has_thread(thread),
        ensures
            follows(old(self)@.set_const(thread, *code, *instruction), old(self)@, final(self)@, r),
    {
        fit(instruction, 3, 3)?;
        let target = self.read_object(thread, instruction.arguments[0])?;
        let source = self.read(thread, instruction.arguments[1])?;
        let name = name_of(code, instruction.arguments[2])?;
        self.memory_manager.object_mut(target).add_constant(name.clone(), source);
        Ok(())
    }

    /// Puts a constant of an object in a register.
    pub fn ins_get_const(
        &mut self,
        thread: ThreadId,
        code: &CompiledCode,
        instruction: &Instruction,
    ) -> (r: Result<(), Fault>)
        requires
            old(self)@.has_thread(thread),
        ensures
            follows(old(self)@.get_const(thread, *code, *instruction), old(self)@, final(self)@, r),
    {
        fit(instruction, 3, 3)?;
        let name = name_of(code, instruction.arguments[2])?;
        let source = self.read_object(thread, instruction.arguments[1])?;
        let found = match self.memory_manager.object(source) {
            Some(object) => object.lookup_constant(name),
            None => None,
        };
        match found {
            Some(object) => {
                self.set_register(thread, instruction.arguments[0], object);
                Ok(())
            },
            None => Err(Fault::UndefinedConstant { name: name.clone() }),
        }
    }

    /// Binds an attribute of one object to another object.
    pub fn ins_set_attr(
        &mut self,
        thread: ThreadId,
        code: &CompiledCode,
        instruction: &Instruction,
    ) -> (r: Result<(), Fault>)
        requires
            old(self)@.has_thread(thread),
        ensures
            follows(old(self)@.set_attr(thread, *code, *instruction), old(self)@, final(self)@, r),
    {
        fit(instruction, 3, 3)?;
        let target = self.read_object(thread, instruction.arguments[0])?;
        let source = self.read(thread, instruction.arguments[1])?;
        let name = name_of(code, instruction.arguments[2])?;
        self.memory_manager.object_mut(target).add_attribute(name.clone(), source);
        Ok(())
    }

    /// Puts an attribute of an object, its own or inherited, in a register.
    pub fn ins_get_attr(
        &mut self,
        thread: ThreadId,
        code: &CompiledCode,
        instruction: &Instruction,
    ) -> (r: Result<(), Fault>)
        requires
            old(self)@.has_thread(thread),
        ensures
            follows(old(self)@.get_attr(thread, *code, *instruction), old(self)@, final(self)@, r),
    {
        fit(instruction, 3, 3)?;
        let source = self.read_object(thread, instruction.arguments[1])?;
        let name = name_of(code, instruction.arguments[2])?;
        match self.memory_manager.lookup_attribute(source, name) {
            Some(object) => {
                self.set_register(thread, instruction.arguments[0], object);
                Ok(())
            },
            None => Err(Fault::UndefinedAttribute { name: name.clone() }),
        }
    }

    /// Installs a nested code object as a method of an object.
    pub fn ins_def_method(
        &mut self,
        thread: ThreadId,
        code: &CompiledCode,
        instruction: &Instruction,
    ) -> (r: Result<(), Fault>)
        requires
            old(self)@.has_thread(thread),
        ensures
            follows(
                old(self)@.def_method(thread, *code, *instruction),
                old(self)@,
                final(self)@,
                r,
            ),
    {
        fit(instruction, 3, 3)?;
        let receiver = self.read_object(thread, instruction.arguments[0])?;
        let name = name_of(code, instruction.arguments[1])?;
        let method = code_of(code, instruction.arguments[2])?;
        self.memory_manager.object_mut(receiver).add_method(name.clone(), method);
        Ok(())
    }

    /// Puts the top-level object in a register.
    pub fn ins_get_toplevel(
        &mut self,
        thread: ThreadId,
        code: &CompiledCode,
        instruction: &Instruction,
    ) -> (r: Result<(), Fault>)
        requires
            old(self)@.has_thread(thread),
        ensures
            follows(old(self)@.get_toplevel(thread, *instruction), old(self)@, final(self)@, r),
    {
        fit(instruction, 1, 1)?;
        let top_level = self.memory_manager.top_level();
        self.set_register(thread, instruction.arguments[0], top_level);
        Ok(())
    }

    fn integer_of(&self, object: ObjectId, slot: u32) -> (r: Result<i64, Fault>)
        requires
            self@.memory.contains(object),
        ensures
            r == self@.integer_of(object, slot),
    {
        let found = match self.memory_manager.object(object) {
            Some(o) => o.value().as_integer(),
            None => None,
        };
        match found {
            Some(i) => Ok(i),
            None => Err(Fault::NotAnInteger { slot }),
        }
    }

    fn integer_operands(
        &self,
        thread: ThreadId,
        instruction: &Instruction,
        allocates: bool,
    ) -> (r: Result<(i64, i64), Fault>)
        requires
            self@.has_thread(thread),
        ensures
            r == self@.integer_operands(thread, *instruction, allocates),
    {
        fit(instruction, 3, 3)?;
        let left = self.read_object(thread, instruction.arguments[1])?;
        let right = self.read_object(thread, instruction.arguments[2])?;
        if allocates {
            self.need(PrototypeKind::Integer)?;
        }
        let a = self.integer_of(left, instruction.arguments[1])?;
        let b = self.integer_of(right, instruction.arguments[2])?;
        Ok((a, b))
    }

    fn integer_arithmetic(
        &mut self,
        thread: ThreadId,
        instruction: &Instruction,
        op: Arithmetic,
    ) -> (r: Result<(), Fault>)
        requires
            old(self)@.has_thread(thread),
        ensures
            follows(
                old(self)@.integer_arithmetic(thread, *instruction, op),
                old(self)@,
                final(self)@,
                r,
            ),
    {
        let (a, b) = self.integer_operands(thread, instruction, true)?;
        let result = match compute(op, a, b) {
            Some(result) => result,
            None => {
                return Err(Fault::DivisionByZero);
            },
        };
        let prototype = self.memory_manager.integer_prototype();
        self.allocate_into(
            thread,
            instruction.arguments[0],
            ObjectValue::Integer(result),
            prototype,
        );
        Ok(())
    }

    fn integer_comparison(
        &mut self,
        thread: ThreadId,
        instruction: &Instruction,
        comparison: Comparison,
    ) -> (r: Result<(), Fault>)
        requires
            old(self)@.has_thread(thread),
        ensures
            follows(
                old(self)@.integer_comparison(thread, *instruction, comparison),
                old(self)@,
                final(self)@,
                r,
            ),
    {
        let (a, b) = self.integer_operands(thread, instruction, false)?;
        let object = self.singleton(compare(comparison, a, b))?;
        self.set_register(thread, instruction.arguments[0], object);
        Ok(())
    }

    /// Puts the sum of two integers in a register, as a new integer object.
    pub fn ins_integer_add(
        &mut self,
        thread: ThreadId,
        code: &CompiledCode,
        instruction: &Instruction,
    ) -> (r: Result<(), Fault>)
        requires
            old(self)@.has_thread(thread),
        ensures
            follows(
                old(self)@.integer_arithmetic(thread, *instruction, Arithmetic::Add),
                old(self)@,
                final(self)@,
                r,
            ),
    {
        self.integer_arithmetic(thread, instruction, Arithmetic::Add)
    }

    /// Puts the quotient of two integers, rounded towards zero, in a register,
    /// as a new integer object.
    pub fn ins_integer_div(
        &mut self,
        thread: ThreadId,
        code: &CompiledCode,
        instruction: &Instruction,
    ) -> (r: Result<(), Fault>)
        requires
            old(self)@.has_thread(thread),
        ensures
            follows(
                old(self)@.integer_arithmetic(thread, *instruction, Arithmetic::Div),
                old(self)@,
                final(self)@,
                r,
            ),
    {
        self.integer_arithmetic(thread, instruction, Arithmetic::Div)
    }

    /// Puts the product of two integers in a register, as a new integer object.
    pub fn ins_integer_mul(
        &mut self,
        thread: ThreadId,
        code: &CompiledCode,
        instruction: &Instruction,
    ) -> (r: Result<(), Fault>)
        requires
            old(self)@.has_thread(thread),
        ensures
            follows(
                old(self)@.integer_arithmetic(thread, *instruction, Arithmetic::Mul),
                old(self)@,
                final(self)@,
                r,
            ),
    {
        self.integer_arithmetic(thread, instruction, Arithmetic::Mul)
    }

    /// Puts the difference of two integers in a register, as a new integer object.
    pub fn ins_integer_sub(
        &mut self,
        thread: ThreadId,
        code: &CompiledCode,
        instruction: &Instruction,
    ) -> (r: Result<(), Fault>)
        requires
            old(self)@.has_thread(thread),
        ensures
            follows(
                old(self)@.integer_arithmetic(thread, *instruction, Arithmetic::Sub),
                old(self)@,
                final(self)@,
                r,
            ),
    {
        self.integer_arithmetic(thread, instruction, Arithmetic::Sub)
    }

    /// Puts the remainder of dividing one integer by another in a register, as
    /// a new integer object.
    pub fn ins_integer_mod(
        &mut self,
        thread: ThreadId,
        code: &CompiledCode,
        instruction: &Instruction,
    ) -> (r: Result<(), Fault>)
        requires
            old(self)@.has_thread(thread),
        ensures
            follows(
                old(self)@.integer_arithmetic(thread, *instruction, Arithmetic::Mod),
                old(self)@,
                final(self)@,
                r,
            ),
    {
        self.integer_arithmetic(thread, instruction, Arithmetic::Mod)
    }

    /// Puts the bitwise and of two integers in a register, as a new integer object.
    pub fn ins_integer_bitwise_and(
        &mut self,
        thread: ThreadId,
        code: &CompiledCode,
        instruction: &Instruction,
    ) -> (r: Result<(), Fault>)
        requires
            old(self)@.has_thread(thread),
        ensures
            follows(
                old(self)@.integer_arithmetic(thread, *instruction, Arithmetic::BitwiseAnd),
                old(self)@,
                final(self)@,
                r,
            ),
    {
        self.integer_arithmetic(thread, instruction, Arithmetic::BitwiseAnd)
    }

    /// Puts the bitwise or of two integers in a register, as a new integer object.
    pub fn ins_integer_bitwise_or(
        &mut self,
        thread: ThreadId,
        code: &CompiledCode,
        instruction: &Instruction,
    ) -> (r: Result<(), Fault>)
        requires
            old(self)@.has_thread(thread),
        ensures
            follows(
                old(self)@.integer_arithmetic(thread, *instruction, Arithmetic::BitwiseOr),
                old(self)@,
                final(self)@,
                r,
            ),
    {
        self.integer_arithmetic(thread, instruction, Arithmetic::BitwiseOr)
    }

    /// Puts the bitwise exclusive or of two integers in a register, as a new integer object.
    pub fn ins_integer_bitwise_xor(
        &mut self,
        thread: ThreadId,
        code: &CompiledCode,
        instruction: &Instruction,
    ) -> (r: Result<(), Fault>)
        requires
            old(self)@.has_thread(thread),
        ensures
            follows(
                old(self)@.integer_arithmetic(thread, *instruction, Arithmetic::BitwiseXor),
                old(self)@,
                final(self)@,
                r,
            ),
    {
        self.integer_arithmetic(thread, instruction, Arithmetic::BitwiseXor)
    }

    /// Puts an integer shifted left in a register, as a new integer object.
    pub fn ins_integer_shift_left(
        &mut self,
        thread: ThreadId,
        code: &CompiledCode,
        instruction: &Instruction,
    ) -> (r: Result<(), Fault>)
        requires
            old(self)@.has_thread(thread),
        ensures
            follows(
                old(self)@.integer_arithmetic(thread, *instruction, Arithmetic::ShiftLeft),
                old(self)@,
                final(self)@,
                r,
            ),
    {
        self.integer_arithmetic(thread, instruction, Arithmetic::ShiftLeft)
    }

    /// Puts an integer shifted right, keeping its sign, in a register, as a new
    /// integer object.
    pub fn ins_integer_shift_right(
        &mut self,
        thread: ThreadId,
        code: &CompiledCode,
        instruction: &Instruction,
    ) -> (r: Result<(), Fault>)
        requires
            old(self)@.has_thread(thread),
        ensures
            follows(
                old(self)@.integer_arithmetic(thread, *instruction, Arithmetic::ShiftRight),
                old(self)@,
                final(self)@,
                r,
            ),
    {
        self.integer_arithmetic(thread, instruction, Arithmetic::ShiftRight)
    }

    /// Puts the True singleton in a register if one integer is smaller than another, and the
    /// False singleton if not.
    pub fn ins_integer_smaller(
        &mut self,
        thread: ThreadId,
        code: &CompiledCode,
        instruction: &Instruction,
    ) -> (r: Result<(), Fault>)
        requires
            old(self)@.has_thread(thread),
        ensures
            follows(
                old(self)@.integer_comparison(thread, *instruction, Comparison::Smaller),
                old(self)@,
                final(self)@,
                r,
            ),
    {
        self.integer_comparison(thread, instruction, Comparison::Smaller)
    }

    /// Puts the True singleton in a register if one integer is greater than another, and the
    /// False singleton if not.
    pub fn ins_integer_greater(
        &mut self,
        thread: ThreadId,
        code: &CompiledCode,
        instruction: &Instruction,
    ) -> (r: Result<(), Fault>)
        requires
            old(self)@.has_thread(thread),
        ensures
            follows(
                old(self)@.integer_comparison(thread, *instruction, Comparison::Greater),
                old(self)@,
                final(self)@,
                r,
            ),
    {
        self.integer_comparison(thread, instruction, Comparison::Greater)
    }

    /// Puts the True singleton in a register if one integer equals another, and the
    /// False singleton if not.
    pub fn ins_integer_equal(
        &mut self,
        thread: ThreadId,
        code: &CompiledCode,
        instruction: &Instruction,
    ) -> (r: Result<(), Fault>)
        requires
            old(self)@.has_thread(thread),
        ensures
            follows(
                old(self)@.integer_comparison(thread, *instruction, Comparison::Equal),
                old(self)@,
                final(self)@,
                r,
            ),
    {
        self.integer_comparison(thread, instruction, Comparison::Equal)
    }

    fn conversion_operand(
        &self,
        thread: ThreadId,
        instruction: &Instruction,
        kind: PrototypeKind,
    ) -> (r: Result<i64, Fault>)
        requires
            self@.has_thread(thread),
        ensures
            r == self@.conversion_operand(thread, *instruction, kind),
    {
        fit(instruction, 2, 2)?;
        let source = self.read_object(thread, instruction.arguments[1])?;
        self.need(kind)?;
        self.integer_of(source, instruction.arguments[1])
    }

    /// Puts the decimal form of an integer in a register, as a new string object.
    pub fn ins_integer_to_string(
        &mut self,
        thread: ThreadId,
        code: &CompiledCode,
        instruction: &Instruction,
    ) -> (r: Result<(), Fault>)
        requires
            old(self)@.has_thread(thread),
        ensures
            follows(
                old(self)@.integer_to_string(thread, *instruction),
                old(self)@,
                final(self)@,
                r,
            ),
    {
        let i = self.conversion_operand(thread, instruction, PrototypeKind::String)?;
        let prototype = self.memory_manager.string_prototype();
        self.allocate_into(
            thread,
            instruction.arguments[0],
            ObjectValue::String(integer_to_string(i)),
            prototype,
        );
        Ok(())
    }

    /// Decodes a jump: where execution continues.
    pub fn ins_goto(
        &self,
        thread: ThreadId,
        code: &CompiledCode,
        instruction: &Instruction,
    ) -> (r: Result<usize, Fault>)
        ensures
            r == MachineView::goto(*instruction),
    {
        fit(instruction, 1, 1)?;
        Ok(instruction.arguments[0] as usize)
    }

    fn goto_if(&self, thread: ThreadId, instruction: &Instruction, when: bool) -> (r: Result<
        Option<usize>,
        Fault,
    >)
        requires
            self@.has_thread(thread),
        ensures
            r == self@.goto_if(thread, *instruction, when),
    {
        fit(instruction, 2, 2)?;
        let truth = match self.read(thread, instruction.arguments[1]) {
            Ok(object) => self.memory_manager.truthy(object),
            Err(_) => false,
        };
        if truth == when {
            Ok(Some(instruction.arguments[0] as usize))
        } else {
            Ok(None)
        }
    }

    /// Decodes a jump that is taken if the tested register holds the False
    /// singleton or nothing. The result is the target if the jump is taken.
    pub fn ins_goto_if_false(
        &self,
        thread: ThreadId,
        code: &CompiledCode,
        instruction: &Instruction,
    ) -> (r: Result<Option<usize>, Fault>)
        requires
            self@.has_thread(thread),
        ensures
            r == self@.goto_if(thread, *instruction, false),
    {
        self.goto_if(thread, instruction, false)
    }

    /// Decodes a jump that is taken if the tested register holds an object
    /// other than the False singleton. The result is the target if the jump
    /// is taken.
    pub fn ins_goto_if_true(
        &self,
        thread: ThreadId,
        code: &CompiledCode,
        instruction: &Instruction,
    ) -> (r: Result<Option<usize>, Fault>)
        requires
            self@.has_thread(thread),
        ensures
            r == self@.goto_if(thread, *instruction, true),
    {
        self.goto_if(thread, instruction, true)
    }

    /// Decodes a return: the value handed back, if the register holds one.
    pub fn ins_return(
        &self,
        thread: ThreadId,
        code: &CompiledCode,
        instruction: &Instruction,
    ) -> (r: Result<Option<ObjectId>, Fault>)
        requires
            self@.has_thread(thread),
        ensures
            r == self@.returned(thread, *instruction),
    {
        fit(instruction, 1, 1)?;
        match self.read(thread, instruction.arguments[0]) {
            Ok(object) => Ok(Some(object)),
            Err(_) => Ok(None),
        }
    }

    /// Makes a call of `code` the innermost frame of a thread, with the given
    /// objects as its local variables.
    fn call(
        &mut self,
        thread: ThreadId,
        code: RcCompiledCode,
        arguments: &Vec<ObjectId>,
        return_to: Option<u32>,
    )
        requires
            old(self)@.has_thread(thread),
        ensures
            final(self)@ == old(self)@.calling(thread, code, as_locals(arguments@), return_to),
    {
        let mut frame = CallFrame::from_code(code);
        frame.set_return_to(return_to);
        let mut i: usize = 0;
        while i < arguments.len()
            invariant
                i <= arguments@.len(),
                frame@ == FrameView::entering(
                    code,
                    as_locals(arguments@.take(i as int)),
                    return_to,
                ),
            decreases arguments@.len() - i,
        {
            frame.add_local(arguments[i]);
            assert(as_locals(arguments@.take(i as int)).push(Some(arguments@[i as int]))
                =~= as_locals(arguments@.take(i + 1)));
            i = i + 1;
        }
        assert(arguments@.take(i as int) =~= arguments@);
        self.threads.thread_mut(thread).push_call_frame(frame);
    }

    /// Sends a message: resolves the method on the receiver and its
    /// prototypes and calls it. The callee starts with the receiver as its
    /// first local variable.
    #[verifier::rlimit(50)]
    pub fn ins_send(
        &mut self,
        thread: ThreadId,
        code: &CompiledCode,
        instruction: &Instruction,
    ) -> (r: Result<(), Fault>)
        requires
            old(self)@.has_thread(thread),
        ensures
            follows(old(self)@.send(thread, *code, *instruction), old(self)@, final(self)@, r),
            r is Ok ==> final(self)@.thread(thread).frame().local(0) == old(self)@.thread(
                thread,
            ).register(instruction.arguments@[1]) && final(self)@.thread(thread).frame().local(
                0,
            ) is Some,
    {
        proof {
            if self@.send(thread, *code, *instruction) is Ok {
                self@.lemma_send_binds_receiver(thread, *code, *instruction);
            }
        }
        fit_counted(instruction, 5, 4)?;
        let name = name_of(code, instruction.arguments[2])?;
        let receiver = self.read(thread, instruction.arguments[1])?;
        let count = instruction.arguments[4];
        let mut arguments = self.collect_arguments(thread, instruction, 5, count)?;
        let method = match self.memory_manager.lookup_method(receiver, name) {
            Some(method) => method,
            None => {
                return Err(Fault::UndefinedMethod { name: name.clone() });
            },
        };
        if method.is_private() && instruction.arguments[3] == 0 {
            return Err(Fault::PrivateMethod { name: name.clone() });
        }
        if arguments.len() != method.required_arguments {
            return Err(
                Fault::ArgumentCount {
                    name: name.clone(),
                    required: method.required_arguments,
                    given: arguments.len(),
                },
            );
        }
        let ghost given = arguments@;
        arguments.insert(0, receiver);
        assert(arguments@ =~= seq![receiver] + given);
        self.call(thread, method, &arguments, Some(instruction.arguments[0]));
        Ok(())
    }

    /// Calls a nested code object without looking up a method.
    pub fn ins_run_code(
        &mut self,
        thread: ThreadId,
        code: &CompiledCode,
        instruction: &Instruction,
    ) -> (r: Result<(), Fault>)
        requires
            old(self)@.has_thread(thread),
        ensures
            follows(old(self)@.run_code(thread, *code, *instruction), old(self)@, final(self)@, r),
    {
        fit_counted(instruction, 3, 2)?;
        let callee = code_of(code, instruction.arguments[1])?;
        let arguments = self.collect_arguments(thread, instruction, 3, instruction.arguments[2])?;
        self.call(thread, callee, &arguments, Some(instruction.arguments[0]));
        Ok(())
    }

    /// Creates a thread that is about to execute `code`, registers it as
    /// alive, and creates the pinned object that stands for it. The result is
    /// that object.
    pub fn run_thread(&mut self, code: RcCompiledCode, main_thread: bool) -> (object: ObjectId)
        ensures
            object == old(self)@.memory.next_id(),
            final(self)@ == old(self)@.spawned(code, main_thread),
    {
        let mut thread = Thread::from_code(code, None);
        if main_thread {
            thread.set_main();
        }
        let id = self.threads.len();
        let object = self.memory_manager.allocate_thread(id);
        thread.set_object(object);
        self.threads.add(thread);
        object
    }

    /// Starts a thread for a nested code object and puts the object that stands for
    /// it in a register.
    pub fn ins_start_thread(
        &mut self,
        thread: ThreadId,
        code: &CompiledCode,
        instruction: &Instruction,
    ) -> (r: Result<(), Fault>)
        requires
            old(self)@.has_thread(thread),
        ensures
            follows(
                old(self)@.start_thread(thread, *code, *instruction),
                old(self)@,
                final(self)@,
                r,
            ),
    {
        fit(instruction, 2, 2)?;
        let entry = code_of(code, instruction.arguments[1])?;
        self.need(PrototypeKind::Thread)?;
        let object = self.run_thread(entry, false);
        self.set_register(thread, instruction.arguments[0], object);
        Ok(())
    }

    /// Puts the double nearest to an integer in a register, as a new float
    /// object.
    pub fn ins_integer_to_float(
        &mut self,
        thread: ThreadId,
        code: &CompiledCode,
        instruction: &Instruction,
    ) -> (r: Result<(), Fault>)
        requires
            old(self)@.has_thread(thread),
        ensures
            follows(old(self)@.integer_to_float(thread, *instruction), old(self)@, final(self)@, r),
    {
        let i = self.conversion_operand(thread, instruction, PrototypeKind::Float)?;
        let prototype = self.memory_manager.float_prototype();
        self.allocate_into(
            thread,
            instruction.arguments[0],
            ObjectValue::Float(to_float_bits(i)),
            prototype,
        );
        Ok(())
    }

    /// Moves the innermost frame of a thread to the instruction at `target`.
    fn jump(&mut self, thread: ThreadId, target: usize)
        requires
            old(self)@.has_thread(thread),
        ensures
            final(self)@ == old(self)@.at(thread, target),
    {
        self.threads.thread_mut(thread).set_ip(target);
    }

    /// Completes the innermost frame of a thread with `value`.
    #[verifier::rlimit(50)]
    fn complete(&mut self, thread: ThreadId, value: Option<ObjectId>) -> (step: Step)
        requires
            old(self)@.has_thread(thread),
        ensures
            (final(self)@, step) == old(self)@.completed(thread, value),
    {
        let t = self.threads.thread_mut(thread);
        let return_to = t.frame().return_to();
        let callers = t.caller_count();
        match return_to {
            Some(slot) => {
                if callers > 0 {
                    t.pop_call_frame();
                    match value {
                        Some(object) => {
                            t.set_register(slot, object);
                        },
                        None => {},
                    }
                    return Step::Continue;
                }
            },
            None => {},
        }
        let end = t.frame().code().instructions.len();
        t.set_ip(end);
        Step::Finished(value)
    }

    /// Executes one instruction on behalf of a thread whose innermost frame
    /// has already moved past it.
    #[verifier::rlimit(50)]
    pub fn dispatch(
        &mut self,
        thread: ThreadId,
        code: &CompiledCode,
        instruction: &Instruction,
    ) -> (r: Result<Step, Fault>)
        requires
            old(self)@.has_thread(thread),
        ensures
            match r {
                Ok(step) => old(self)@.dispatched(thread, *code, *instruction) == Ok::<
                    (MachineView, Step),
                    Fault,
                >((final(self)@, step)),
                Err(fault) => old(self)@.dispatched(thread, *code, *instruction) == Err::<
                    (MachineView, Step),
                    Fault,
                >(fault) && final(self)@ == old(self)@,
            },
    {
        proof {
            reveal(MachineView::dispatched);
        }
        match instruction.instruction_type {
            InstructionType::SetInteger => {
                self.ins_set_integer(thread, code, instruction)?;
                Ok(Step::Continue)
            },
            InstructionType::SetFloat => {
                self.ins_set_float(thread, code, instruction)?;
                Ok(Step::Continue)
            },
            InstructionType::SetString => {
                self.ins_set_string(thread, code, instruction)?;
                Ok(Step::Continue)
            },
            InstructionType::SetObject => {
                self.ins_set_object(thread, code, instruction)?;
                Ok(Step::Continue)
            },
            InstructionType::SetArray => {
                self.ins_set_array(thread, code, instruction)?;
                Ok(Step::Continue)
            },
            InstructionType::SetName => {
                self.ins_set_name(thread, code, instruction)?;
                Ok(Step::Continue)
            },
            InstructionType::SetIntegerPrototype => {
                self.ins_set_integer_prototype(thread, code, instruction)?;
                Ok(Step::Continue)
            },
            InstructionType::SetFloatPrototype => {
                self.ins_set_float_prototype(thread, code, instruction)?;
                Ok(Step::Continue)
            },
            InstructionType::SetStringPrototype => {
                self.ins_set_string_prototype(thread, code, instruction)?;
                Ok(Step::Continue)
            },
            InstructionType::SetArrayPrototype => {
                self.ins_set_array_prototype(thread, code, instruction)?;
                Ok(Step::Continue)
            },
            InstructionType::SetThreadPrototype => {
                self.ins_set_thread_prototype(thread, code, instruction)?;
                Ok(Step::Continue)
            },
            InstructionType::SetTruePrototype => {
                self.ins_set_true_prototype(thread, code, instruction)?;
                Ok(Step::Continue)
            },
            InstructionType::SetFalsePrototype => {
                self.ins_set_false_prototype(thread, code, instruction)?;
                Ok(Step::Continue)
            },
            InstructionType::SetBlockPrototype => {
                self.ins_set_block_prototype(thread, code, instruction)?;
                Ok(Step::Continue)
            },
            InstructionType::SetBooleanPrototype => {
                self.ins_set_boolean_prototype(thread, code, instruction)?;
                Ok(Step::Continue)
            },
            InstructionType::SetTrue => {
                self.ins_set_true(thread, code, instruction)?;
                Ok(Step::Continue)
            },
            InstructionType::SetFalse => {
                self.ins_set_false(thread, code, instruction)?;
                Ok(Step::Continue)
            },
            InstructionType::SetLocal => {
                self.ins_set_local(thread, code, instruction)?;
                Ok(Step::Continue)
            },
            InstructionType::GetLocal => {
                self.ins_get_local(thread, code, instruction)?;
                Ok(Step::Continue)
            },
            InstructionType::SetConst => {
                self.ins_set_const(thread, code, instruction)?;
                Ok(Step::Continue)
            },
            InstructionType::GetConst => {
                self.ins_get_const(thread, code, instruction)?;
                Ok(Step::Continue)
            },
            InstructionType::SetAttr => {
                self.ins_set_attr(thread, code, instruction)?;
                Ok(Step::Continue)
            },
            InstructionType::GetAttr => {
                self.ins_get_attr(thread, code, instruction)?;
                Ok(Step::Continue)
            },
            InstructionType::Send => {
                self.ins_send(thread, code, instruction)?;
                Ok(Step::Continue)
            },
            InstructionType::Return => {
                let value = self.ins_return(thread, code, instruction)?;
                Ok(self.complete(thread, value))
            },
            InstructionType::GotoIfFalse => {
                match self.ins_goto_if_false(thread, code, instruction)? {
                    Some(target) => {
                        self.jump(thread, target);
                    },
                    None => {},
                }
                Ok(Step::Continue)
            },
            InstructionType::GotoIfTrue => {
                match self.ins_goto_if_true(thread, code, instruction)? {
                    Some(target) => {
                        self.jump(thread, target);
                    },
                    None => {},
                }
                Ok(Step::Continue)
            },
            InstructionType::Goto => {
                let target = self.ins_goto(thread, code, instruction)?;
                self.jump(thread, target);
                Ok(Step::Continue)
            },
            InstructionType::DefMethod => {
                self.ins_def_method(thread, code, instruction)?;
                Ok(Step::Continue)
            },
            InstructionType::RunCode => {
                self.ins_run_code(thread, code, instruction)?;
                Ok(Step::Continue)
            },
            InstructionType::GetToplevel => {
                self.ins_get_toplevel(thread, code, instruction)?;
                Ok(Step::Continue)
            },
            InstructionType::IntegerAdd => {
                self.ins_integer_add(thread, code, instruction)?;
                Ok(Step::Continue)
            },
            InstructionType::IntegerDiv => {
                self.ins_integer_div(thread, code, instruction)?;
                Ok(Step::Continue)
            },
            InstructionType::IntegerMul => {
                self.ins_integer_mul(thread, code, instruction)?;
                Ok(Step::Continue)
            },
            InstructionType::IntegerSub => {
                self.ins_integer_sub(thread, code, instruction)?;
                Ok(Step::Continue)
            },
            InstructionType::IntegerMod => {
                self.ins_integer_mod(thread, code, instruction)?;
                Ok(Step::Continue)
            },
            InstructionType::IntegerToFloat => {
                self.ins_integer_to_float(thread, code, instruction)?;
                Ok(Step::Continue)
            },
            InstructionType::IntegerToString => {
                self.ins_integer_to_string(thread, code, instruction)?;
                Ok(Step::Continue)
            },
            InstructionType::IntegerBitwiseAnd => {
                self.ins_integer_bitwise_and(thread, code, instruction)?;
                Ok(Step::Continue)
            },
            InstructionType::IntegerBitwiseOr => {
                self.ins_integer_bitwise_or(thread, code, instruction)?;
                Ok(Step::Continue)
            },
            InstructionType::IntegerBitwiseXor => {
                self.ins_integer_bitwise_xor(thread, code, instruction)?;
                Ok(Step::Continue)
            },
            InstructionType::IntegerShiftLeft => {
                self.ins_integer_shift_left(thread, code, instruction)?;
                Ok(Step::Continue)
            },
            InstructionType::IntegerShiftRight => {
                self.ins_integer_shift_right(thread, code, instruction)?;
                Ok(Step::Continue)
            },
            InstructionType::IntegerSmaller => {
                self.ins_integer_smaller(thread, code, instruction)?;
                Ok(Step::Continue)
            },
            InstructionType::IntegerGreater => {
                self.ins_integer_greater(thread, code, instruction)?;
                Ok(Step::Continue)
            },
            InstructionType::IntegerEqual => {
                self.ins_integer_equal(thread, code, instruction)?;
                Ok(Step::Continue)
            },
            InstructionType::StartThread => {
                self.ins_start_thread(thread, code, instruction)?;
                Ok(Step::Continue)
            },
        }
    }

    /// Advances a thread by one step.
    #[verifier::rlimit(50)]
    pub fn step(&mut self, thread: ThreadId) -> (r: Result<Step, Fault>)
        ensures
            match r {
                Ok(step) => old(self)@.stepped(thread) == Ok::<(MachineView, Step), Fault>(
                    (final(self)@, step),
                ),
                Err(fault) => old(self)@.stepped(thread) == Err::<(MachineView, Step), Fault>(
                    fault,
                ) && final(self)@ == old(self)@,
            },
    {
        let (code, ip, stop) = match self.threads.thread(thread) {
            Some(t) => {
                proof {
                    t.lemma_has_frame();
                }
                (t.frame().code(), t.frame().ip(), t.should_stop())
            },
            None => {
                return Err(Fault::UndefinedThread { thread });
            },
        };
        if stop {
            return Ok(Step::Stopped);
        }
        if ip >= code.instructions.len() {
            return Ok(self.complete(thread, None));
        }
        self.jump(thread, ip + 1);
        match self.dispatch(thread, &code, &code.instructions[ip]) {
            Ok(step) => Ok(step),
            Err(fault) => {
                self.jump(thread, ip);
                assert(self@.thread(thread).frames =~= old(self)@.thread(thread).frames);
                assert(self@.thread(thread) =~= old(self)@.thread(thread));
                assert(self@.threads =~= old(self)@.threads);
                Err(fault)
            },
        }
    }

    /// Advances a thread until it finishes, stops or faults, but by no more
    /// than `fuel` steps. `Step::Continue` says that the fuel ran out first.
    #[verifier::rlimit(50)]
    pub fn resume(&mut self, thread: ThreadId, fuel: u64) -> (r: Result<Step, Fault>)
        ensures
            (final(self)@, r) == old(self)@.resumed(thread, fuel as nat),
    {
        let mut left = fuel;
        while left > 0
            invariant
                self@.resumed(thread, left as nat) == old(self)@.resumed(thread, fuel as nat),
            decreases left,
        {
            match self.step(thread) {
                Err(fault) => {
                    return Err(fault);
                },
                Ok(Step::Continue) => {
                    left = left - 1;
                },
                Ok(step) => {
                    return Ok(step);
                },
            }
        }
        Ok(Step::Continue)
    }

    /// Executes `code` in the innermost frame of a thread, for up to `fuel`
    /// steps. A run that finishes leaves the thread with as many frames as it
    /// had: every frame pushed during the run was popped.
    #[verifier::rlimit(50)]
    pub fn run(&mut self, thread: ThreadId, code: RcCompiledCode, fuel: u64) -> (r: Result<
        Step,
        Fault,
    >)
        ensures
            old(self)@.has_thread(thread) ==> (final(self)@, r) == old(self)@.entered(
                thread,
                code,
            ).resumed(thread, fuel as nat),
            !old(self)@.has_thread(thread) ==> final(self)@ == old(self)@ && r == Err::<
                Step,
                Fault,
            >(Fault::UndefinedThread { thread }),
            r matches Ok(Step::Finished(_)) ==> final(self)@.thread(thread).frames.len() == old(
                self,
            )@.thread(thread).frames.len(),
    {
        if !self.threads.contains(thread) {
            return Err(Fault::UndefinedThread { thread });
        }
        proof {
            self.lemma_well_formed();
            self@.lemma_run_balances_frames(thread, code, fuel as nat);
        }
        self.threads.thread_mut(thread).enter(code);
        self.resume(thread, fuel)
    }

    /// Calls `code` on a thread with the given objects as its local variables
    /// and runs the call for up to `fuel` steps. The frame of the call is
    /// dropped when the call completes, so that a call that finishes leaves the
    /// thread with as many frames as it had.
    #[verifier::rlimit(50)]
    pub fn run_code(
        &mut self,
        thread: ThreadId,
        code: RcCompiledCode,
        arguments: Vec<ObjectId>,
        fuel: u64,
    ) -> (r: Result<Step, Fault>)
        ensures
            old(self)@.has_thread(thread) ==> (final(self)@, r) == old(self)@.ran_code(
                thread,
                code,
                arguments@,
                fuel as nat,
            ),
            !old(self)@.has_thread(thread) ==> final(self)@ == old(self)@ && r == Err::<
                Step,
                Fault,
            >(Fault::UndefinedThread { thread }),
            r matches Ok(Step::Finished(_)) ==> final(self)@.thread(thread).frames.len() == old(
                self,
            )@.thread(thread).frames.len(),
    {
        if !self.threads.contains(thread) {
            return Err(Fault::UndefinedThread { thread });
        }
        proof {
            self.lemma_well_formed();
            self@.lemma_run_code_balances_frames(thread, code, arguments@, fuel as nat);
        }
        self.call(thread, code, &arguments, None);
        let ghost called = self@;
        proof {
            self.lemma_well_formed();
        }
        let result = self.resume(thread, fuel);
        proof {
            called.lemma_resumed_keeps_threads(thread, fuel as nat);
        }
        match result {
            Ok(Step::Finished(_)) => {
                self.threads.thread_mut(thread).pop_call_frame();
            },
            _ => {},
        }
        result
    }

    /// Reports a fault that ended a thread: writes the message and the
    /// thread's frames, innermost first, to the machine's error reports and
    /// records the failure in the exit status.
    #[verifier::rlimit(50)]
    pub fn error(&mut self, thread: ThreadId, message: String)
        requires
            old(self)@.has_thread(thread),
        ensures
            final(self)@ == old(self)@.failed(thread, message@),
    {
        let mut text = String::from_str("Fatal error:\n\n");
        text.append(message.as_str());
        let t = match self.threads.thread(thread) {
            Some(t) => t,
            None => {
                return ;
            },
        };
        proof {
            t.lemma_has_frame();
        }
        let ghost frames = t@.frames;
        let ghost head = text@;
        append_frame_line(&mut text, t.frame());
        let mut remaining = t.caller_count();
        assert(frames.drop_last() =~= frames.take(remaining as int));
        while remaining > 0
            invariant
                remaining < frames.len(),
                frames == t@.frames,
                text@ + trace(frames.take(remaining as int)) == head + trace(frames),
            decreases remaining,
        {
            remaining = remaining - 1;
            let ghost before = text@;
            match t.frame_at(remaining) {
                Some(frame) => {
                    append_frame_line(&mut text, frame);
                },
                None => {},
            }
            proof {
                let outer = frames.take(remaining + 1);
                assert(outer.last() == frames[remaining as int]);
                assert(outer.drop_last() =~= frames.take(remaining as int));
                assert(text@ + trace(frames.take(remaining as int)) =~= before + trace(outer));
            }
        }
        assert(frames.take(0) =~= Seq::<FrameView>::empty());
        text.append("\n\n");
        assert(text@ =~= fatal_text(message@, frames));
        self.errors.push(text);
        self.exit_status = Err(());
        assert(self@.errors =~= old(self)@.errors.push(fatal_text(message@, frames)));
    }

    /// Ends a thread with the result of its run.
    #[verifier::rlimit(50)]
    pub fn finish_thread(&mut self, thread: ThreadId, result: Result<Option<ObjectId>, Fault>)
        requires
            old(self)@.has_thread(thread),
        ensures
            final(self)@ == old(self)@.ended(thread, result),
    {
        self.threads.remove(thread);
        let object = match self.threads.thread(thread) {
            Some(t) => t.object(),
            None => None,
        };
        match object {
            Some(o) => {
                if self.memory_manager.contains(o) {
                    self.memory_manager.object_mut(o).unpin();
                }
            },
            None => {},
        }
        match result {
            Ok(value) => {
                self.threads.thread_mut(thread).set_value(value);
            },
            Err(fault) => {
                self.error(thread, fault.message());
                self.threads.stop();
            },
        }
    }

    /// Starts a main thread for `code` and runs it and the threads it starts,
    /// one after the other in the order of their creation, for up to `fuel`
    /// steps in all. The result is the exit status, or nothing if the fuel ran
    /// out before every thread had ended.
    #[verifier::rlimit(50)]
    pub fn start(&mut self, code: RcCompiledCode, fuel: u64) -> (status: Option<Result<(), ()>>)
        ensures
            (final(self)@, status) == old(self)@.started(code, fuel as nat),
    {
        let mut next = self.threads.len();
        self.run_thread(code, true);
        let mut left = fuel;
        while next < self.threads.len()
            invariant
                self@.drained(next, left as nat) == old(self)@.spawned(code, true).drained(
                    old(self)@.threads.len() as ThreadId,
                    fuel as nat,
                ),
            decreases left,
        {
            if left == 0 {
                return None;
            }
            left = left - 1;
            proof {
                self.lemma_well_formed();
                self@.lemma_stepped_frames(next);
            }
            match self.step(next) {
                Ok(Step::Continue) => {},
                Ok(Step::Finished(value)) => {
                    self.finish_thread(next, Ok(value));
                    next = next + 1;
                },
                Ok(Step::Stopped) => {
                    self.finish_thread(next, Ok(None));
                    next = next + 1;
                },
                Err(fault) => {
                    self.finish_thread(next, Err(fault));
                    next = next + 1;
                },
            }
        }
        Some(self.exit_status)
    }
}

/// A fault among the first arguments is the fault of the whole collection.
proof fn lemma_collected_fault(
    thread: ThreadView,
    ins: Instruction,
    offset: int,
    upto: nat,
    amount: nat,
)
    requires
        upto <= amount,
        collected(thread, ins, offset, upto) is Err,
    ensures
        collected(thread, ins, offset, amount) == collected(thread, ins, offset, upto),
    decreases amount,
{
    if upto < amount {
        lemma_collected_fault(thread, ins, offset, upto, (amount - 1) as nat);
    }
}

} // verus!
