//! What each instruction does, as functions on the mathematical content of a
//! machine.
//!
//! Every function here takes the state before an instruction and gives either
//! the state after it or the fault that the instruction raises. A fault leaves
//! the state as it was. Operands are resolved before anything else is looked
//! at, so a missing operand is always reported as such. The number of
//! arguments is checked first of all: an instruction must have the arguments
//! it needs and none beyond those it can use.

use crate::call_frame::FrameView;
use crate::compiled_code::{CompiledCode, RcCompiledCode};
use crate::error::{Fault, LiteralPool};
use crate::instruction::{Instruction, InstructionType};
use crate::integer::{
    arithmetic, compares, decimal, digits, float_bits, Arithmetic, Comparison,
};
use crate::memory_manager::{MemoryView, PrototypeKind};
use crate::object::{ObjectId, ObjectView};
use crate::object_value::ValueView;
use crate::thread::ThreadView;
use crate::thread_list::{all_stopped, backfilled, ThreadId};
use vstd::prelude::*;

verus! {

/// The mathematical content of a machine.
#[verifier::ext_equal]
pub struct MachineView {
    /// Every thread the machine has had, by identity.
    pub threads: Seq<ThreadView>,
    pub memory: MemoryView,
    /// Whether no thread has ended with a fault so far.
    pub exit_status: Result<(), ()>,
    /// The reports of the faults that ended a thread, oldest first.
    pub errors: Seq<Seq<char>>,
}

/// How a step of a thread ended.
#[derive(Clone, Copy, PartialEq, Eq, Debug, Structural)]
pub enum Step {
    /// The thread has more to do.
    Continue,
    /// The frame that started the run completed, with this value if it
    /// returned one.
    Finished(Option<ObjectId>),
    /// The thread was asked to stop and did nothing.
    Stopped,
}

/// The literal at `index` of a pool, as the payload of an object.
pub open spec fn literal(code: CompiledCode, pool: LiteralPool, index: u32) -> Option<ValueView> {
    match pool {
        LiteralPool::Integer => if index < code.integer_literals@.len() {
            Some(ValueView::Integer(code.integer_literals@[index as int]))
        } else {
            None
        },
        LiteralPool::Float => if index < code.float_literals@.len() {
            Some(ValueView::Float(code.float_literals@[index as int]))
        } else {
            None
        },
        LiteralPool::String => if index < code.string_literals@.len() {
            Some(ValueView::String(code.string_literals@[index as int]@))
        } else {
            None
        },
    }
}

/// The prototype that objects made from a literal of this pool get.
pub open spec fn pool_prototype(pool: LiteralPool) -> PrototypeKind {
    match pool {
        LiteralPool::Integer => PrototypeKind::Integer,
        LiteralPool::Float => PrototypeKind::Float,
        LiteralPool::String => PrototypeKind::String,
    }
}

/// The string literal at `index`, or the fault for its absence.
pub open spec fn name_at(code: CompiledCode, index: u32) -> Result<String, Fault> {
    if index < code.string_literals@.len() {
        Ok(code.string_literals@[index as int])
    } else {
        Err(Fault::UndefinedLiteral { pool: LiteralPool::String, index })
    }
}

/// The nested code object at `index`, or the fault for its absence.
pub open spec fn code_at(code: CompiledCode, index: u32) -> Result<RcCompiledCode, Fault> {
    if index < code.code_objects@.len() {
        Ok(code.code_objects@[index as int])
    } else {
        Err(Fault::UndefinedCodeObject { index })
    }
}

/// Whether the instruction has fewer than `count` arguments.
pub open spec fn lacks(ins: Instruction, count: int) -> bool {
    ins.arguments@.len() < count
}

/// The fault for the first argument that an instruction lacks.
pub open spec fn missing(ins: Instruction) -> Fault {
    Fault::MissingArgument { position: ins.arguments@.len() as usize }
}

/// The fault of an instruction that does not have between `least` and `most`
/// arguments, if it does not: for the first argument it lacks, or for the
/// first it has beyond those it can use.
pub open spec fn misfit(ins: Instruction, least: int, most: int) -> Option<Fault> {
    if lacks(ins, least) {
        Some(missing(ins))
    } else if ins.arguments@.len() > most {
        Some(Fault::UnexpectedArgument { position: most as usize })
    } else {
        None
    }
}

/// The fault of an instruction that does not have `least` arguments followed
/// by as many as the argument at `counter` says, if it does not.
pub open spec fn misfit_counted(ins: Instruction, least: int, counter: int) -> Option<Fault> {
    if lacks(ins, least) {
        Some(missing(ins))
    } else {
        misfit(ins, least, least + ins.arguments@[counter])
    }
}

/// The objects in the registers named by `amount` arguments from `offset` on,
/// or the fault raised by the first of them that cannot be resolved.
pub open spec fn collected(
    thread: ThreadView,
    ins: Instruction,
    offset: int,
    amount: nat,
) -> Result<Seq<ObjectId>, Fault>
    decreases amount,
{
    if amount == 0 {
        Ok(Seq::empty())
    } else {
        match collected(thread, ins, offset, (amount - 1) as nat) {
            Err(fault) => Err(fault),
            Ok(front) => {
                let position = offset + amount - 1;
                if position >= ins.arguments@.len() {
                    Err(missing(ins))
                } else {
                    match thread.register(ins.arguments@[position]) {
                        None => Err(Fault::UndefinedRegister { slot: ins.arguments@[position] }),
                        Some(object) => Ok(front.push(object)),
                    }
                }
            },
        }
    }
}

/// Local variables holding the given objects in order.
pub open spec fn as_locals(objects: Seq<ObjectId>) -> Seq<Option<ObjectId>> {
    Seq::new(objects.len(), |i: int| Some(objects[i]))
}

impl MachineView {
    /// A machine with no thread, no report, and a heap that holds only the
    /// top-level object.
    pub open spec fn initial() -> MachineView {
        MachineView {
            threads: Seq::empty(),
            memory: MemoryView::initial(),
            exit_status: Ok(()),
            errors: Seq::empty(),
        }
    }

    pub open spec fn has_thread(self, tid: ThreadId) -> bool {
        tid < self.threads.len()
    }

    pub open spec fn thread(self, tid: ThreadId) -> ThreadView {
        self.threads[tid as int]
    }

    pub open spec fn with_thread(self, tid: ThreadId, thread: ThreadView) -> MachineView {
        MachineView { threads: self.threads.update(tid as int, thread), ..self }
    }

    pub open spec fn with_memory(self, memory: MemoryView) -> MachineView {
        MachineView { memory, ..self }
    }

    pub open spec fn with_register(
        self,
        tid: ThreadId,
        slot: u32,
        object: ObjectId,
    ) -> MachineView {
        self.with_thread(tid, self.thread(tid).with_register(slot, object))
    }

    /// The state after creating an object and putting it in a register.
    pub open spec fn allocated(
        self,
        tid: ThreadId,
        slot: u32,
        value: ValueView,
        prototype: Option<ObjectId>,
    ) -> MachineView {
        self.with_memory(self.memory.with_new(ObjectView::fresh(value, prototype))).with_register(
            tid,
            slot,
            self.memory.next_id(),
        )
    }

    /// The object in a register, or the fault for an unwritten register.
    pub open spec fn read(self, tid: ThreadId, slot: u32) -> Result<ObjectId, Fault> {
        match self.thread(tid).register(slot) {
            Some(object) => Ok(object),
            None => Err(Fault::UndefinedRegister { slot }),
        }
    }

    /// The object in a register, which the heap must hold.
    pub open spec fn read_object(self, tid: ThreadId, slot: u32) -> Result<ObjectId, Fault> {
        match self.thread(tid).register(slot) {
            Some(object) => if self.memory.contains(object) {
                Ok(object)
            } else {
                Err(Fault::UndefinedObject { object })
            },
            None => Err(Fault::UndefinedRegister { slot }),
        }
    }

    /// The prototype of a kind, or the fault for its absence.
    pub open spec fn need(self, kind: PrototypeKind) -> Result<ObjectId, Fault> {
        match self.memory.prototype(kind) {
            Some(object) => Ok(object),
            None => Err(Fault::PrototypeMissing { kind }),
        }
    }

    /// The integer held by the object `object`, which register `slot` named.
    pub open spec fn integer_of(self, object: ObjectId, slot: u32) -> Result<i64, Fault> {
        match self.memory.objects[object as int].value {
            ValueView::Integer(i) => Ok(i),
            _ => Err(Fault::NotAnInteger { slot }),
        }
    }

    /// SetInteger, SetFloat, SetString: slot, literal index.
    pub open spec fn set_literal(
        self,
        tid: ThreadId,
        code: CompiledCode,
        ins: Instruction,
        pool: LiteralPool,
    ) -> Result<MachineView, Fault> {
        if misfit(ins, 2, 2) is Some {
            Err(misfit(ins, 2, 2)->0)
        } else {
            let slot = ins.arguments@[0];
            let index = ins.arguments@[1];
            match literal(code, pool, index) {
                None => Err(Fault::UndefinedLiteral { pool, index }),
                Some(value) => match self.need(pool_prototype(pool)) {
                    Err(fault) => Err(fault),
                    Ok(prototype) => Ok(self.allocated(tid, slot, value, Some(prototype))),
                },
            }
        }
    }

    /// SetObject: slot, and optionally the register holding the prototype.
    pub open spec fn set_object(self, tid: ThreadId, ins: Instruction) -> Result<
        MachineView,
        Fault,
    > {
        if misfit(ins, 1, 2) is Some {
            Err(misfit(ins, 1, 2)->0)
        } else if ins.arguments@.len() == 1 {
            Ok(self.allocated(tid, ins.arguments@[0], ValueView::Empty, None))
        } else {
            match self.read(tid, ins.arguments@[1]) {
                Err(fault) => Err(fault),
                Ok(prototype) => Ok(
                    self.allocated(tid, ins.arguments@[0], ValueView::Empty, Some(prototype)),
                ),
            }
        }
    }

    /// SetArray: slot, number of values, then the registers holding the values.
    pub open spec fn set_array(self, tid: ThreadId, ins: Instruction) -> Result<
        MachineView,
        Fault,
    > {
        if misfit_counted(ins, 2, 1) is Some {
            Err(misfit_counted(ins, 2, 1)->0)
        } else {
            match collected(self.thread(tid), ins, 2, ins.arguments@[1] as nat) {
                Err(fault) => Err(fault),
                Ok(values) => match self.need(PrototypeKind::Array) {
                    Err(fault) => Err(fault),
                    Ok(prototype) => Ok(
                        self.allocated(
                            tid,
                            ins.arguments@[0],
                            ValueView::Array(values),
                            Some(prototype),
                        ),
                    ),
                },
            }
        }
    }

    /// SetName: register of the object, index of the name.
    pub open spec fn set_name(self, tid: ThreadId, code: CompiledCode, ins: Instruction) -> Result<
        MachineView,
        Fault,
    > {
        if misfit(ins, 2, 2) is Some {
            Err(misfit(ins, 2, 2)->0)
        } else {
            match self.read_object(tid, ins.arguments@[0]) {
                Err(fault) => Err(fault),
                Ok(object) => match name_at(code, ins.arguments@[1]) {
                    Err(fault) => Err(fault),
                    Ok(name) => Ok(
                        self.with_memory(
                            self.memory.with_object(
                                object,
                                ObjectView {
                                    name: Some(name@),
                                    ..self.memory.objects[object as int]
                                },
                            ),
                        ),
                    ),
                },
            }
        }
    }

    /// The memory after installing a prototype. Installing the Thread
    /// prototype also gives it to the object of every thread that is alive.
    pub open spec fn installing(self, kind: PrototypeKind, object: ObjectId) -> MemoryView {
        if kind == PrototypeKind::Thread {
            backfilled(
                self.memory.installed(kind, object),
                self.threads,
                self.threads.len() as int,
                object,
            )
        } else {
            self.memory.installed(kind, object)
        }
    }

    /// The instructions that install a prototype: register of the object.
    pub open spec fn set_prototype(
        self,
        tid: ThreadId,
        ins: Instruction,
        kind: PrototypeKind,
    ) -> Result<
        MachineView,
        Fault,
    > {
        if misfit(ins, 1, 1) is Some {
            Err(misfit(ins, 1, 1)->0)
        } else {
            match self.read(tid, ins.arguments@[0]) {
                Err(fault) => Err(fault),
                Ok(object) => if self.memory.prototype(kind) is Some {
                    Err(Fault::PrototypeAlreadyDefined { kind })
                } else {
                    Ok(self.with_memory(self.installing(kind, object)))
                },
            }
        }
    }

    /// The True or the False singleton, or the fault for its absence.
    pub open spec fn singleton(self, truth: bool) -> Result<ObjectId, Fault> {
        if truth {
            match self.memory.true_object {
                Some(object) => Ok(object),
                None => Err(Fault::PrototypeMissing { kind: PrototypeKind::True }),
            }
        } else {
            match self.memory.false_object {
                Some(object) => Ok(object),
                None => Err(Fault::PrototypeMissing { kind: PrototypeKind::False }),
            }
        }
    }

    /// SetTrue, SetFalse: slot.
    pub open spec fn set_singleton(self, tid: ThreadId, ins: Instruction, truth: bool) -> Result<
        MachineView,
        Fault,
    > {
        if misfit(ins, 1, 1) is Some {
            Err(misfit(ins, 1, 1)->0)
        } else {
            match self.singleton(truth) {
                Err(fault) => Err(fault),
                Ok(object) => Ok(self.with_register(tid, ins.arguments@[0], object)),
            }
        }
    }

    /// SetLocal: index of the local, register of the object.
    pub open spec fn set_local(self, tid: ThreadId, ins: Instruction) -> Result<
        MachineView,
        Fault,
    > {
        if misfit(ins, 2, 2) is Some {
            Err(misfit(ins, 2, 2)->0)
        } else {
            match self.read(tid, ins.arguments@[1]) {
                Err(fault) => Err(fault),
                Ok(object) => {
                    let frame = self.thread(tid).frame();
                    Ok(
                        self.with_thread(
                            tid,
                            self.thread(tid).with_frame(
                                FrameView {
                                    locals: frame.locals_with(ins.arguments@[0] as int, object),
                                    ..frame
                                },
                            ),
                        ),
                    )
                },
            }
        }
    }

    /// GetLocal: slot, index of the local.
    pub open spec fn get_local(self, tid: ThreadId, ins: Instruction) -> Result<
        MachineView,
        Fault,
    > {
        if misfit(ins, 2, 2) is Some {
            Err(misfit(ins, 2, 2)->0)
        } else {
            match self.thread(tid).frame().local(ins.arguments@[1] as int) {
                None => Err(Fault::UndefinedLocal { index: ins.arguments@[1] }),
                Some(object) => Ok(self.with_register(tid, ins.arguments@[0], object)),
            }
        }
    }

    /// SetConst: register of the target, register of the value, index of the
    /// name.
    pub open spec fn set_const(self, tid: ThreadId, code: CompiledCode, ins: Instruction) -> Result<
        MachineView,
        Fault,
    > {
        if misfit(ins, 3, 3) is Some {
            Err(misfit(ins, 3, 3)->0)
        } else {
            match self.read_object(tid, ins.arguments@[0]) {
                Err(fault) => Err(fault),
                Ok(target) => match self.read(tid, ins.arguments@[1]) {
                    Err(fault) => Err(fault),
                    Ok(source) => match name_at(code, ins.arguments@[2]) {
                        Err(fault) => Err(fault),
                        Ok(name) => {
                            let object = self.memory.objects[target as int];
                            Ok(
                                self.with_memory(
                                    self.memory.with_object(
                                        target,
                                        ObjectView {
                                            constants: object.constants.insert(name@, source),
                                            ..object
                                        },
                                    ),
                                ),
                            )
                        },
                    },
                },
            }
        }
    }

    /// SetAttr: register of the target, register of the value, index of the
    /// name.
    pub open spec fn set_attr(self, tid: ThreadId, code: CompiledCode, ins: Instruction) -> Result<
        MachineView,
        Fault,
    > {
        if misfit(ins, 3, 3) is Some {
            Err(misfit(ins, 3, 3)->0)
        } else {
            match self.read_object(tid, ins.arguments@[0]) {
                Err(fault) => Err(fault),
                Ok(target) => match self.read(tid, ins.arguments@[1]) {
                    Err(fault) => Err(fault),
                    Ok(source) => match name_at(code, ins.arguments@[2]) {
                        Err(fault) => Err(fault),
                        Ok(name) => {
                            let object = self.memory.objects[target as int];
                            Ok(
                                self.with_memory(
                                    self.memory.with_object(
                                        target,
                                        ObjectView {
                                            attributes: object.attributes.insert(name@, source),
                                            ..object
                                        },
                                    ),
                                ),
                            )
                        },
                    },
                },
            }
        }
    }

    /// GetConst: slot, register of the source, index of the name. A constant
    /// is looked up on the source itself.
    pub open spec fn get_const(self, tid: ThreadId, code: CompiledCode, ins: Instruction) -> Result<
        MachineView,
        Fault,
    > {
        if misfit(ins, 3, 3) is Some {
            Err(misfit(ins, 3, 3)->0)
        } else {
            match name_at(code, ins.arguments@[2]) {
                Err(fault) => Err(fault),
                Ok(name) => match self.read_object(tid, ins.arguments@[1]) {
                    Err(fault) => Err(fault),
                    Ok(source) => {
                        let constants = self.memory.objects[source as int].constants;
                        if constants.contains_key(name@) {
                            Ok(self.with_register(tid, ins.arguments@[0], constants[name@]))
                        } else {
                            Err(Fault::UndefinedConstant { name })
                        }
                    },
                },
            }
        }
    }

    /// GetAttr: slot, register of the source, index of the name. An attribute
    /// is looked up on the source and then along its prototypes.
    pub open spec fn get_attr(self, tid: ThreadId, code: CompiledCode, ins: Instruction) -> Result<
        MachineView,
        Fault,
    > {
        if misfit(ins, 3, 3) is Some {
            Err(misfit(ins, 3, 3)->0)
        } else {
            match self.read_object(tid, ins.arguments@[1]) {
                Err(fault) => Err(fault),
                Ok(source) => match name_at(code, ins.arguments@[2]) {
                    Err(fault) => Err(fault),
                    Ok(name) => match self.memory.lookup_attribute(source, name@) {
                        Some(object) => Ok(self.with_register(tid, ins.arguments@[0], object)),
                        None => Err(Fault::UndefinedAttribute { name }),
                    },
                },
            }
        }
    }

    /// The thread with a new innermost frame.
    pub open spec fn calling(
        self,
        tid: ThreadId,
        code: RcCompiledCode,
        locals: Seq<Option<ObjectId>>,
        return_to: Option<u32>,
    ) -> MachineView {
        self.with_thread(
            tid,
            self.thread(tid).pushed(FrameView::entering(code, locals, return_to)),
        )
    }

    /// Send: result slot, register of the receiver, index of the name, whether
    /// private methods are allowed, number of arguments, then the registers
    /// holding the arguments.
    ///
    /// The method is the first of that name found on the receiver and then
    /// along its prototypes. The callee starts with the receiver as its first
    /// local variable, followed by the arguments.
    pub open spec fn send(self, tid: ThreadId, code: CompiledCode, ins: Instruction) -> Result<
        MachineView,
        Fault,
    > {
        if misfit_counted(ins, 5, 4) is Some {
            Err(misfit_counted(ins, 5, 4)->0)
        } else {
            match name_at(code, ins.arguments@[2]) {
                Err(fault) => Err(fault),
                Ok(name) => match self.read(tid, ins.arguments@[1]) {
                    Err(fault) => Err(fault),
                    Ok(receiver) => match collected(
                        self.thread(tid),
                        ins,
                        5,
                        ins.arguments@[4] as nat,
                    ) {
                        Err(fault) => Err(fault),
                        Ok(arguments) => match self.memory.lookup_method(receiver, name@) {
                            None => Err(Fault::UndefinedMethod { name }),
                            Some(method) => if method.private && ins.arguments@[3] == 0 {
                                Err(Fault::PrivateMethod { name })
                            } else if arguments.len() != method.required_arguments {
                                Err(
                                    Fault::ArgumentCount {
                                        name,
                                        required: method.required_arguments,
                                        given: arguments.len() as usize,
                                    },
                                )
                            } else {
                                Ok(
                                    self.calling(
                                        tid,
                                        method,
                                        as_locals(seq![receiver] + arguments),
                                        Some(ins.arguments@[0]),
                                    ),
                                )
                            },
                        },
                    },
                },
            }
        }
    }

    /// RunCode: result slot, index of the code object, number of arguments,
    /// then the registers holding the arguments.
    pub open spec fn run_code(self, tid: ThreadId, code: CompiledCode, ins: Instruction) -> Result<
        MachineView,
        Fault,
    > {
        if misfit_counted(ins, 3, 2) is Some {
            Err(misfit_counted(ins, 3, 2)->0)
        } else {
            match code_at(code, ins.arguments@[1]) {
                Err(fault) => Err(fault),
                Ok(callee) => match collected(self.thread(tid), ins, 3, ins.arguments@[2] as nat) {
                    Err(fault) => Err(fault),
                    Ok(arguments) => Ok(
                        self.calling(tid, callee, as_locals(arguments), Some(ins.arguments@[0])),
                    ),
                },
            }
        }
    }

    /// DefMethod: register of the receiver, index of the name, index of the
    /// code object.
    pub open spec fn def_method(
        self,
        tid: ThreadId,
        code: CompiledCode,
        ins: Instruction,
    ) -> Result<
        MachineView,
        Fault,
    > {
        if misfit(ins, 3, 3) is Some {
            Err(misfit(ins, 3, 3)->0)
        } else {
            match self.read_object(tid, ins.arguments@[0]) {
                Err(fault) => Err(fault),
                Ok(receiver) => match name_at(code, ins.arguments@[1]) {
                    Err(fault) => Err(fault),
                    Ok(name) => match code_at(code, ins.arguments@[2]) {
                        Err(fault) => Err(fault),
                        Ok(method) => {
                            let object = self.memory.objects[receiver as int];
                            Ok(
                                self.with_memory(
                                    self.memory.with_object(
                                        receiver,
                                        ObjectView {
                                            methods: object.methods.insert(name@, method),
                                            ..object
                                        },
                                    ),
                                ),
                            )
                        },
                    },
                },
            }
        }
    }

    /// GetToplevel: slot.
    pub open spec fn get_toplevel(self, tid: ThreadId, ins: Instruction) -> Result<
        MachineView,
        Fault,
    > {
        if misfit(ins, 1, 1) is Some {
            Err(misfit(ins, 1, 1)->0)
        } else {
            Ok(self.with_register(tid, ins.arguments@[0], self.memory.top_level))
        }
    }

    /// The two integer operands of an instruction whose second and third
    /// arguments name their registers. `allocates` says whether the
    /// instruction creates an integer object for its result, for which the
    /// Integer prototype has to be installed.
    pub open spec fn integer_operands(
        self,
        tid: ThreadId,
        ins: Instruction,
        allocates: bool,
    ) -> Result<
        (i64, i64),
        Fault,
    > {
        if misfit(ins, 3, 3) is Some {
            Err(misfit(ins, 3, 3)->0)
        } else {
            match self.read_object(tid, ins.arguments@[1]) {
                Err(fault) => Err(fault),
                Ok(left) => match self.read_object(tid, ins.arguments@[2]) {
                    Err(fault) => Err(fault),
                    Ok(right) => if allocates && self.memory.prototype(PrototypeKind::Integer)
                        is None {
                        Err(Fault::PrototypeMissing { kind: PrototypeKind::Integer })
                    } else {
                        match self.integer_of(left, ins.arguments@[1]) {
                            Err(fault) => Err(fault),
                            Ok(a) => match self.integer_of(right, ins.arguments@[2]) {
                                Err(fault) => Err(fault),
                                Ok(b) => Ok((a, b)),
                            },
                        }
                    },
                },
            }
        }
    }

    /// The integer instructions that produce an integer: slot, register of the
    /// left operand, register of the right operand.
    pub open spec fn integer_arithmetic(
        self,
        tid: ThreadId,
        ins: Instruction,
        op: Arithmetic,
    ) -> Result<
        MachineView,
        Fault,
    > {
        match self.integer_operands(tid, ins, true) {
            Err(fault) => Err(fault),
            Ok((a, b)) => match arithmetic(op, a, b) {
                None => Err(Fault::DivisionByZero),
                Some(result) => Ok(
                    self.allocated(
                        tid,
                        ins.arguments@[0],
                        ValueView::Integer(result),
                        self.memory.prototype(PrototypeKind::Integer),
                    ),
                ),
            },
        }
    }

    /// The integer comparisons: slot, register of the left operand, register of
    /// the right operand. The result is the True or the False singleton.
    pub open spec fn integer_comparison(
        self,
        tid: ThreadId,
        ins: Instruction,
        comparison: Comparison,
    ) -> Result<MachineView, Fault> {
        match self.integer_operands(tid, ins, false) {
            Err(fault) => Err(fault),
            Ok((a, b)) => match self.singleton(compares(comparison, a, b)) {
                Err(fault) => Err(fault),
                Ok(object) => Ok(self.with_register(tid, ins.arguments@[0], object)),
            },
        }
    }

    /// The integer operand of a conversion: the register named by the second
    /// argument, after the prototype of the result has been found.
    pub open spec fn conversion_operand(
        self,
        tid: ThreadId,
        ins: Instruction,
        kind: PrototypeKind,
    ) -> Result<
        i64,
        Fault,
    > {
        if misfit(ins, 2, 2) is Some {
            Err(misfit(ins, 2, 2)->0)
        } else {
            match self.read_object(tid, ins.arguments@[1]) {
                Err(fault) => Err(fault),
                Ok(source) => match self.need(kind) {
                    Err(fault) => Err(fault),
                    Ok(_) => self.integer_of(source, ins.arguments@[1]),
                },
            }
        }
    }

    /// IntegerToString: slot, register of the integer.
    pub open spec fn integer_to_string(self, tid: ThreadId, ins: Instruction) -> Result<
        MachineView,
        Fault,
    > {
        match self.conversion_operand(tid, ins, PrototypeKind::String) {
            Err(fault) => Err(fault),
            Ok(i) => Ok(
                self.allocated(
                    tid,
                    ins.arguments@[0],
                    ValueView::String(decimal(i as int)),
                    self.memory.prototype(PrototypeKind::String),
                ),
            ),
        }
    }

    /// IntegerToFloat: slot, register of the integer.
    pub open spec fn integer_to_float(self, tid: ThreadId, ins: Instruction) -> Result<
        MachineView,
        Fault,
    > {
        match self.conversion_operand(tid, ins, PrototypeKind::Float) {
            Err(fault) => Err(fault),
            Ok(i) => Ok(
                self.allocated(
                    tid,
                    ins.arguments@[0],
                    ValueView::Float(float_bits(i as int)),
                    self.memory.prototype(PrototypeKind::Float),
                ),
            ),
        }
    }

    /// The state after starting a thread for `code`: the thread is registered
    /// as alive, and a pinned object stands for it.
    pub open spec fn spawned(self, code: RcCompiledCode, main: bool) -> MachineView {
        let object = self.memory.next_id();
        MachineView {
            threads: self.threads.push(
                ThreadView {
                    live: true,
                    main,
                    object: Some(object),
                    ..ThreadView::starting(FrameView::entering(code, Seq::empty(), None), None)
                },
            ),
            memory: self.memory.with_new(
                ObjectView {
                    pinned: true,
                    ..ObjectView::fresh(
                        ValueView::Thread(self.threads.len() as ThreadId),
                        self.memory.prototype(PrototypeKind::Thread),
                    )
                },
            ),
            ..self
        }
    }

    /// StartThread: slot, index of the code object.
    pub open spec fn start_thread(
        self,
        tid: ThreadId,
        code: CompiledCode,
        ins: Instruction,
    ) -> Result<
        MachineView,
        Fault,
    > {
        if misfit(ins, 2, 2) is Some {
            Err(misfit(ins, 2, 2)->0)
        } else {
            match code_at(code, ins.arguments@[1]) {
                Err(fault) => Err(fault),
                Ok(entry) => match self.need(PrototypeKind::Thread) {
                    Err(fault) => Err(fault),
                    Ok(_) => Ok(
                        self.spawned(entry, false).with_register(
                            tid,
                            ins.arguments@[0],
                            self.memory.next_id(),
                        ),
                    ),
                },
            }
        }
    }

    /// Goto: index of the instruction to continue at.
    pub open spec fn goto(ins: Instruction) -> Result<usize, Fault> {
        if misfit(ins, 1, 1) is Some {
            Err(misfit(ins, 1, 1)->0)
        } else {
            Ok(ins.arguments@[0] as usize)
        }
    }

    /// Whether a register holds an object that counts as true. An unwritten
    /// register counts as false.
    pub open spec fn truth(self, tid: ThreadId, slot: u32) -> bool {
        match self.thread(tid).register(slot) {
            Some(object) => self.memory.truthy(object),
            None => false,
        }
    }

    /// GotoIfFalse and GotoIfTrue: index of the instruction to continue at,
    /// register of the tested value. The result is the target if the jump is
    /// taken.
    pub open spec fn goto_if(self, tid: ThreadId, ins: Instruction, when: bool) -> Result<
        Option<usize>,
        Fault,
    > {
        if misfit(ins, 2, 2) is Some {
            Err(misfit(ins, 2, 2)->0)
        } else if self.truth(tid, ins.arguments@[1]) == when {
            Ok(Some(ins.arguments@[0] as usize))
        } else {
            Ok(None)
        }
    }

    /// Return: register of the value, which may be unwritten.
    pub open spec fn returned(self, tid: ThreadId, ins: Instruction) -> Result<
        Option<ObjectId>,
        Fault,
    > {
        if misfit(ins, 1, 1) is Some {
            Err(misfit(ins, 1, 1)->0)
        } else {
            Ok(self.thread(tid).register(ins.arguments@[0]))
        }
    }

    /// The state after moving the innermost frame of a thread to `ip`.
    pub open spec fn at(self, tid: ThreadId, ip: usize) -> MachineView {
        let thread = self.thread(tid);
        self.with_thread(tid, thread.with_frame(FrameView { ip, ..thread.frame() }))
    }

    /// The state after the innermost frame of a thread completed with `value`.
    ///
    /// A frame that was called hands the value to the register its caller
    /// named and is dropped. A frame that started the run stays, moved to its
    /// end, and ends the run.
    pub open spec fn completed(
        self,
        tid: ThreadId,
        value: Option<ObjectId>,
    ) -> (MachineView, Step) {
        let thread = self.thread(tid);
        let frame = thread.frame();
        if frame.return_to is Some && thread.frames.len() > 1 {
            let caller = thread.popped();
            let resumed = match value {
                Some(object) => caller.with_register(frame.return_to->0, object),
                None => caller,
            };
            (self.with_thread(tid, resumed), Step::Continue)
        } else {
            (self.at(tid, frame.code.instructions@.len() as usize), Step::Finished(value))
        }
    }
}

/// An instruction that neither jumps nor returns lets the thread continue.
pub open spec fn proceeding(
    result: Result<MachineView, Fault>,
) -> Result<(MachineView, Step), Fault> {
    match result {
        Ok(next) => Ok((next, Step::Continue)),
        Err(fault) => Err(fault),
    }
}

/// The line that says where a frame was.
pub open spec fn frame_line(frame: FrameView) -> Seq<char> {
    "\n"@ + frame.file + " line "@ + digits(frame.line as nat) + " in \""@ + frame.name + "\""@
}

/// The lines that say where each frame was, from the innermost frame to the
/// outermost.
pub open spec fn trace(frames: Seq<FrameView>) -> Seq<char>
    decreases frames.len(),
{
    if frames.len() == 0 {
        Seq::empty()
    } else {
        frame_line(frames.last()) + trace(frames.drop_last())
    }
}

/// The report of a fault that ended a thread.
pub open spec fn fatal_text(message: Seq<char>, frames: Seq<FrameView>) -> Seq<char> {
    "Fatal error:\n\n"@ + message + trace(frames) + "\n\n"@
}

impl MachineView {
    /// What executing one instruction does, the frame having moved past it.
    /// A jump moves the frame to its target, a return completes the frame.
    #[verifier::opaque]
    pub open spec fn dispatched(
        self,
        tid: ThreadId,
        code: CompiledCode,
        ins: Instruction,
    ) -> Result<
        (MachineView, Step),
        Fault,
    > {
        match ins.instruction_type {
            InstructionType::SetInteger => proceeding(
                self.set_literal(tid, code, ins, LiteralPool::Integer),
            ),
            InstructionType::SetFloat => proceeding(
                self.set_literal(tid, code, ins, LiteralPool::Float),
            ),
            InstructionType::SetString => proceeding(
                self.set_literal(tid, code, ins, LiteralPool::String),
            ),
            InstructionType::SetObject => proceeding(self.set_object(tid, ins)),
            InstructionType::SetArray => proceeding(self.set_array(tid, ins)),
            InstructionType::SetName => proceeding(self.set_name(tid, code, ins)),
            InstructionType::SetIntegerPrototype => proceeding(
                self.set_prototype(tid, ins, PrototypeKind::Integer),
            ),
            InstructionType::SetFloatPrototype => proceeding(
                self.set_prototype(tid, ins, PrototypeKind::Float),
            ),
            InstructionType::SetStringPrototype => proceeding(
                self.set_prototype(tid, ins, PrototypeKind::String),
            ),
            InstructionType::SetArrayPrototype => proceeding(
                self.set_prototype(tid, ins, PrototypeKind::Array),
            ),
            InstructionType::SetThreadPrototype => proceeding(
                self.set_prototype(tid, ins, PrototypeKind::Thread),
            ),
            InstructionType::SetTruePrototype => proceeding(
                self.set_prototype(tid, ins, PrototypeKind::True),
            ),
            InstructionType::SetFalsePrototype => proceeding(
                self.set_prototype(tid, ins, PrototypeKind::False),
            ),
            InstructionType::SetBlockPrototype => proceeding(
                self.set_prototype(tid, ins, PrototypeKind::Block),
            ),
            InstructionType::SetBooleanPrototype => proceeding(
                self.set_prototype(tid, ins, PrototypeKind::Boolean),
            ),
            InstructionType::SetTrue => proceeding(self.set_singleton(tid, ins, true)),
            InstructionType::SetFalse => proceeding(self.set_singleton(tid, ins, false)),
            InstructionType::SetLocal => proceeding(self.set_local(tid, ins)),
            InstructionType::GetLocal => proceeding(self.get_local(tid, ins)),
            InstructionType::SetConst => proceeding(self.set_const(tid, code, ins)),
            InstructionType::GetConst => proceeding(self.get_const(tid, code, ins)),
            InstructionType::SetAttr => proceeding(self.set_attr(tid, code, ins)),
            InstructionType::GetAttr => proceeding(self.get_attr(tid, code, ins)),
            InstructionType::Send => proceeding(self.send(tid, code, ins)),
            InstructionType::Return => match self.returned(tid, ins) {
                Err(fault) => Err(fault),
                Ok(value) => Ok(self.completed(tid, value)),
            },
            InstructionType::GotoIfFalse => match self.goto_if(tid, ins, false) {
                Err(fault) => Err(fault),
                Ok(Some(target)) => Ok((self.at(tid, target), Step::Continue)),
                Ok(None) => Ok((self, Step::Continue)),
            },
            InstructionType::GotoIfTrue => match self.goto_if(tid, ins, true) {
                Err(fault) => Err(fault),
                Ok(Some(target)) => Ok((self.at(tid, target), Step::Continue)),
                Ok(None) => Ok((self, Step::Continue)),
            },
            InstructionType::Goto => match Self::goto(ins) {
                Err(fault) => Err(fault),
                Ok(target) => Ok((self.at(tid, target), Step::Continue)),
            },
            InstructionType::DefMethod => proceeding(self.def_method(tid, code, ins)),
            InstructionType::RunCode => proceeding(self.run_code(tid, code, ins)),
            InstructionType::GetToplevel => proceeding(self.get_toplevel(tid, ins)),
            InstructionType::IntegerAdd => proceeding(
                self.integer_arithmetic(tid, ins, Arithmetic::Add),
            ),
            InstructionType::IntegerDiv => proceeding(
                self.integer_arithmetic(tid, ins, Arithmetic::Div),
            ),
            InstructionType::IntegerMul => proceeding(
                self.integer_arithmetic(tid, ins, Arithmetic::Mul),
            ),
            InstructionType::IntegerSub => proceeding(
                self.integer_arithmetic(tid, ins, Arithmetic::Sub),
            ),
            InstructionType::IntegerMod => proceeding(
                self.integer_arithmetic(tid, ins, Arithmetic::Mod),
            ),
            InstructionType::IntegerToFloat => proceeding(self.integer_to_float(tid, ins)),
            InstructionType::IntegerToString => proceeding(self.integer_to_string(tid, ins)),
            InstructionType::IntegerBitwiseAnd => proceeding(
                self.integer_arithmetic(tid, ins, Arithmetic::BitwiseAnd),
            ),
            InstructionType::IntegerBitwiseOr => proceeding(
                self.integer_arithmetic(tid, ins, Arithmetic::BitwiseOr),
            ),
            InstructionType::IntegerBitwiseXor => proceeding(
                self.integer_arithmetic(tid, ins, Arithmetic::BitwiseXor),
            ),
            InstructionType::IntegerShiftLeft => proceeding(
                self.integer_arithmetic(tid, ins, Arithmetic::ShiftLeft),
            ),
            InstructionType::IntegerShiftRight => proceeding(
                self.integer_arithmetic(tid, ins, Arithmetic::ShiftRight),
            ),
            InstructionType::IntegerSmaller => proceeding(
                self.integer_comparison(tid, ins, Comparison::Smaller),
            ),
            InstructionType::IntegerGreater => proceeding(
                self.integer_comparison(tid, ins, Comparison::Greater),
            ),
            InstructionType::IntegerEqual => proceeding(
                self.integer_comparison(tid, ins, Comparison::Equal),
            ),
            InstructionType::StartThread => proceeding(self.start_thread(tid, code, ins)),
        }
    }

    /// One step of a thread.
    ///
    /// A thread that was asked to stop does nothing. A frame that has run past
    /// its last instruction completes without a value. Otherwise the frame
    /// moves past its next instruction and that instruction is executed. A
    /// fault leaves the state as it was.
    pub open spec fn stepped(self, tid: ThreadId) -> Result<(MachineView, Step), Fault> {
        if !self.has_thread(tid) {
            Err(Fault::UndefinedThread { thread: tid })
        } else {
            let frame = self.thread(tid).frame();
            if self.thread(tid).stop {
                Ok((self, Step::Stopped))
            } else if frame.at_end() {
                Ok(self.completed(tid, None))
            } else {
                self.at(tid, (frame.ip + 1) as usize).dispatched(
                    tid,
                    frame.program(),
                    frame.next_instruction(),
                )
            }
        }
    }

    /// Up to `fuel` steps of a thread: the state they lead to and how they
    /// ended. The steps end when one does not let the thread continue, or
    /// raises a fault. `Step::Continue` in the result says that the fuel ran
    /// out first.
    pub open spec fn resumed(self, tid: ThreadId, fuel: nat) -> (MachineView, Result<Step, Fault>)
        decreases fuel,
    {
        if fuel == 0 {
            (self, Ok(Step::Continue))
        } else {
            match self.stepped(tid) {
                Err(fault) => (self, Err(fault)),
                Ok((next, Step::Continue)) => next.resumed(tid, (fuel - 1) as nat),
                Ok((next, step)) => (next, Ok(step)),
            }
        }
    }

    /// The state after making the innermost frame of a thread execute `code`
    /// from its first instruction, as the frame whose completion ends the run.
    pub open spec fn entered(self, tid: ThreadId, code: RcCompiledCode) -> MachineView {
        let thread = self.thread(tid);
        self.with_thread(
            tid,
            thread.with_frame(FrameView { code, ip: 0, return_to: None, ..thread.frame() }),
        )
    }

    /// The state after a fault ended a thread: the report is written and the
    /// exit status records the failure.
    pub open spec fn failed(self, tid: ThreadId, message: Seq<char>) -> MachineView {
        MachineView {
            errors: self.errors.push(fatal_text(message, self.thread(tid).frames)),
            exit_status: Err(()),
            ..self
        }
    }

    /// The memory with the object unpinned, if the heap holds it.
    pub open spec fn unpinned(self, object: Option<ObjectId>) -> MemoryView {
        match object {
            Some(o) => if self.memory.contains(o) {
                self.memory.with_object(
                    o,
                    ObjectView { pinned: false, ..self.memory.objects[o as int] },
                )
            } else {
                self.memory
            },
            None => self.memory,
        }
    }

    /// The state after a thread ended. The thread is no longer alive and its
    /// object is unpinned. If it ended well it publishes its value. If it
    /// ended with a fault the fault is reported and every thread still alive
    /// is asked to stop.
    pub open spec fn ended(
        self,
        tid: ThreadId,
        result: Result<Option<ObjectId>, Fault>,
    ) -> MachineView {
        let thread = ThreadView { live: false, ..self.thread(tid) };
        let left = MachineView {
            threads: self.threads.update(tid as int, thread),
            memory: self.unpinned(thread.object),
            ..self
        };
        match result {
            Ok(value) => left.with_thread(tid, ThreadView { value, ..thread }),
            Err(fault) => {
                let reported = left.failed(tid, fault.text());
                MachineView { threads: all_stopped(reported.threads), ..reported }
            },
        }
    }

    /// The state after calling `code` on a thread with the given local
    /// variables and running the call for up to `fuel` steps. A call that
    /// completes leaves as many frames as there were before it.
    pub open spec fn ran_code(
        self,
        tid: ThreadId,
        code: RcCompiledCode,
        arguments: Seq<ObjectId>,
        fuel: nat,
    ) -> (MachineView, Result<Step, Fault>) {
        let (after, result) = self.calling(tid, code, as_locals(arguments), None).resumed(
            tid,
            fuel,
        );
        match result {
            Ok(Step::Finished(_)) => (after.with_thread(tid, after.thread(tid).popped()), result),
            _ => (after, result),
        }
    }

    /// The state after running the threads from `next` on, one after the
    /// other in the order of their creation, for up to `fuel` steps in all,
    /// and whether every thread ended.
    pub open spec fn drained(self, next: ThreadId, fuel: nat) -> (MachineView, bool)
        decreases fuel,
    {
        if next >= self.threads.len() {
            (self, true)
        } else if fuel == 0 {
            (self, false)
        } else {
            match self.stepped(next) {
                Ok((after, Step::Continue)) => after.drained(next, (fuel - 1) as nat),
                Ok((after, Step::Finished(value))) => after.ended(next, Ok(value)).drained(
                    (next + 1) as ThreadId,
                    (fuel - 1) as nat,
                ),
                Ok((after, Step::Stopped)) => after.ended(next, Ok(None)).drained(
                    (next + 1) as ThreadId,
                    (fuel - 1) as nat,
                ),
                Err(fault) => self.ended(next, Err(fault)).drained(
                    (next + 1) as ThreadId,
                    (fuel - 1) as nat,
                ),
            }
        }
    }

    /// The state after starting a main thread for `code` and running it and
    /// the threads it starts, and the exit status if every thread ended
    /// within `fuel` steps.
    pub open spec fn started(self, code: RcCompiledCode, fuel: nat) -> (
        MachineView,
        Option<Result<(), ()>>,
    ) {
        let (after, done) = self.spawned(code, true).drained(self.threads.len() as ThreadId, fuel);
        (
            after,
            if done {
                Some(after.exit_status)
            } else {
                None
            },
        )
    }
}

} // verus!
