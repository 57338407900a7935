//! What the memory holds, it keeps.
//!
//! No instruction takes an object away or changes the payload of one, and a
//! prototype that has been installed stays the prototype: an identity that
//! the memory manager handed out stays valid, and prototypes are written once.

use crate::compiled_code::CompiledCode;
use crate::error::LiteralPool;
use crate::instruction::{Instruction, InstructionType};
use crate::integer::{Arithmetic, Comparison};
use crate::memory_manager::{MemoryView, PrototypeKind};
use crate::object::ObjectId;
use crate::semantics::{MachineView, Step};
use crate::thread::ThreadView;
use crate::thread_list::{backfilled, ThreadId};
use vstd::prelude::*;

verus! {

/// The memory `after` holds every object of the memory `before`, with the
/// payload it had, and every prototype and singleton that `before` had.
/// Objects are never taken away, payloads are never changed, and what has been
/// installed stays installed.
pub open spec fn extends(before: MemoryView, after: MemoryView) -> bool {
    &&& after.objects.len() >= before.objects.len()
    &&& after.top_level == before.top_level
    &&& forall|i: int|
        0 <= i < before.objects.len() ==> (#[trigger] after.objects[i]).value
            == before.objects[i].value
    &&& forall|kind: PrototypeKind|
        before.prototype(kind) is Some ==> #[trigger] after.prototype(kind) == before.prototype(
            kind,
        )
    &&& before.true_object is Some ==> after.true_object == before.true_object
    &&& before.false_object is Some ==> after.false_object == before.false_object
}

impl MachineView {

    proof fn lemma_set_literal_memory(
        self,
        tid: ThreadId,
        code: CompiledCode,
        ins: Instruction,
        pool: LiteralPool,
    )
        requires
            self.has_thread(tid),
            self.memory.consistent(),
        ensures
            self.set_literal(tid, code, ins, pool) matches Ok(next)
                ==> extends(self.memory, next.memory)
                && next.memory.consistent(),
    {    }

    proof fn lemma_set_object_memory(
        self,
        tid: ThreadId,
        ins: Instruction,
    )
        requires
            self.has_thread(tid),
            self.memory.consistent(),
        ensures
            self.set_object(tid, ins) matches Ok(next) ==> extends(self.memory, next.memory)
                && next.memory.consistent(),
    {    }

    proof fn lemma_set_array_memory(
        self,
        tid: ThreadId,
        ins: Instruction,
    )
        requires
            self.has_thread(tid),
            self.memory.consistent(),
        ensures
            self.set_array(tid, ins) matches Ok(next) ==> extends(self.memory, next.memory)
                && next.memory.consistent(),
    {    }

    proof fn lemma_set_name_memory(
        self,
        tid: ThreadId,
        code: CompiledCode,
        ins: Instruction,
    )
        requires
            self.has_thread(tid),
            self.memory.consistent(),
        ensures
            self.set_name(tid, code, ins) matches Ok(next) ==> extends(self.memory, next.memory)
                && next.memory.consistent(),
    {    }

    proof fn lemma_set_prototype_memory(
        self,
        tid: ThreadId,
        ins: Instruction,
        kind: PrototypeKind,
    )
        requires
            self.has_thread(tid),
            self.memory.consistent(),
        ensures
            self.set_prototype(tid, ins, kind) matches Ok(next) ==> extends(
                self.memory,
                next.memory,
            ) && next.memory.consistent(),
    {
        if self.set_prototype(tid, ins, kind) is Ok {
            let object = self.read(tid, ins.arguments@[0])->Ok_0;
            let installed = self.memory.installed(kind, object);
            lemma_installed_extends(self.memory, kind, object);
            if kind == PrototypeKind::Thread {
                lemma_backfilled_extends(
                    installed,
                    self.threads,
                    self.threads.len() as int,
                    object,
                );
                lemma_extends_transitive(self.memory, installed, self.installing(kind, object));
            }
        }
    }

    proof fn lemma_set_singleton_memory(
        self,
        tid: ThreadId,
        ins: Instruction,
        truth: bool,
    )
        requires
            self.has_thread(tid),
            self.memory.consistent(),
        ensures
            self.set_singleton(tid, ins, truth) matches Ok(next)
                ==> extends(self.memory, next.memory)
                && next.memory.consistent(),
    {    }

    proof fn lemma_set_local_memory(
        self,
        tid: ThreadId,
        ins: Instruction,
    )
        requires
            self.has_thread(tid),
            self.memory.consistent(),
        ensures
            self.set_local(tid, ins) matches Ok(next) ==> extends(self.memory, next.memory)
                && next.memory.consistent(),
    {    }

    proof fn lemma_get_local_memory(
        self,
        tid: ThreadId,
        ins: Instruction,
    )
        requires
            self.has_thread(tid),
            self.memory.consistent(),
        ensures
            self.get_local(tid, ins) matches Ok(next) ==> extends(self.memory, next.memory)
                && next.memory.consistent(),
    {    }

    proof fn lemma_set_const_memory(
        self,
        tid: ThreadId,
        code: CompiledCode,
        ins: Instruction,
    )
        requires
            self.has_thread(tid),
            self.memory.consistent(),
        ensures
            self.set_const(tid, code, ins) matches Ok(next) ==> extends(self.memory, next.memory)
                && next.memory.consistent(),
    {    }

    proof fn lemma_get_const_memory(
        self,
        tid: ThreadId,
        code: CompiledCode,
        ins: Instruction,
    )
        requires
            self.has_thread(tid),
            self.memory.consistent(),
        ensures
            self.get_const(tid, code, ins) matches Ok(next) ==> extends(self.memory, next.memory)
                && next.memory.consistent(),
    {    }

    proof fn lemma_set_attr_memory(
        self,
        tid: ThreadId,
        code: CompiledCode,
        ins: Instruction,
    )
        requires
            self.has_thread(tid),
            self.memory.consistent(),
        ensures
            self.set_attr(tid, code, ins) matches Ok(next) ==> extends(self.memory, next.memory)
                && next.memory.consistent(),
    {    }

    proof fn lemma_get_attr_memory(
        self,
        tid: ThreadId,
        code: CompiledCode,
        ins: Instruction,
    )
        requires
            self.has_thread(tid),
            self.memory.consistent(),
        ensures
            self.get_attr(tid, code, ins) matches Ok(next) ==> extends(self.memory, next.memory)
                && next.memory.consistent(),
    {    }

    proof fn lemma_def_method_memory(
        self,
        tid: ThreadId,
        code: CompiledCode,
        ins: Instruction,
    )
        requires
            self.has_thread(tid),
            self.memory.consistent(),
        ensures
            self.def_method(tid, code, ins) matches Ok(next) ==> extends(self.memory, next.memory)
                && next.memory.consistent(),
    {    }

    proof fn lemma_get_toplevel_memory(
        self,
        tid: ThreadId,
        ins: Instruction,
    )
        requires
            self.has_thread(tid),
            self.memory.consistent(),
        ensures
            self.get_toplevel(tid, ins) matches Ok(next) ==> extends(self.memory, next.memory)
                && next.memory.consistent(),
    {    }

    proof fn lemma_integer_arithmetic_memory(
        self,
        tid: ThreadId,
        ins: Instruction,
        op: Arithmetic,
    )
        requires
            self.has_thread(tid),
            self.memory.consistent(),
        ensures
            self.integer_arithmetic(tid, ins, op) matches Ok(next)
                ==> extends(self.memory, next.memory)
                && next.memory.consistent(),
    {    }

    proof fn lemma_integer_comparison_memory(
        self,
        tid: ThreadId,
        ins: Instruction,
        comparison: Comparison,
    )
        requires
            self.has_thread(tid),
            self.memory.consistent(),
        ensures
            self.integer_comparison(tid, ins, comparison) matches Ok(next)
                ==> extends(self.memory, next.memory)
                && next.memory.consistent(),
    {    }

    proof fn lemma_integer_to_float_memory(
        self,
        tid: ThreadId,
        ins: Instruction,
    )
        requires
            self.has_thread(tid),
            self.memory.consistent(),
        ensures
            self.integer_to_float(tid, ins) matches Ok(next) ==> extends(self.memory, next.memory)
                && next.memory.consistent(),
    {    }

    proof fn lemma_integer_to_string_memory(
        self,
        tid: ThreadId,
        ins: Instruction,
    )
        requires
            self.has_thread(tid),
            self.memory.consistent(),
        ensures
            self.integer_to_string(tid, ins) matches Ok(next) ==> extends(self.memory, next.memory)
                && next.memory.consistent(),
    {    }

    proof fn lemma_start_thread_memory(
        self,
        tid: ThreadId,
        code: CompiledCode,
        ins: Instruction,
    )
        requires
            self.has_thread(tid),
            self.memory.consistent(),
        ensures
            self.start_thread(tid, code, ins) matches Ok(next) ==> extends(self.memory, next.memory)
                && next.memory.consistent(),
    {    }

    proof fn lemma_send_memory(
        self,
        tid: ThreadId,
        code: CompiledCode,
        ins: Instruction,
    )
        requires
            self.has_thread(tid),
            self.memory.consistent(),
        ensures
            self.send(tid, code, ins) matches Ok(next) ==> extends(self.memory, next.memory)
                && next.memory.consistent(),
    {    }

    proof fn lemma_run_code_memory(
        self,
        tid: ThreadId,
        code: CompiledCode,
        ins: Instruction,
    )
        requires
            self.has_thread(tid),
            self.memory.consistent(),
        ensures
            self.run_code(tid, code, ins) matches Ok(next) ==> extends(self.memory, next.memory)
                && next.memory.consistent(),
    {    }

    /// An instruction takes no object away, changes no payload, and leaves
    /// what has been installed as it is.
    #[verifier::rlimit(50)]
    pub proof fn lemma_dispatched_extends_memory(
        self,
        tid: ThreadId,
        code: CompiledCode,
        ins: Instruction,
    )
        requires
            self.has_thread(tid),
            self.memory.consistent(),
        ensures
            self.dispatched(tid, code, ins) matches Ok((next, _)) ==> extends(
                self.memory,
                next.memory,
            ) && next.memory.consistent(),
    {
        reveal(MachineView::dispatched);
        match ins.instruction_type {
            InstructionType::SetInteger => {
                self.lemma_set_literal_memory(tid, code, ins, LiteralPool::Integer);
            },
            InstructionType::SetFloat => {
                self.lemma_set_literal_memory(tid, code, ins, LiteralPool::Float);
            },
            InstructionType::SetString => {
                self.lemma_set_literal_memory(tid, code, ins, LiteralPool::String);
            },
            InstructionType::SetObject => {
                self.lemma_set_object_memory(tid, ins);
            },
            InstructionType::SetArray => {
                self.lemma_set_array_memory(tid, ins);
            },
            InstructionType::SetName => {
                self.lemma_set_name_memory(tid, code, ins);
            },
            InstructionType::SetIntegerPrototype => {
                self.lemma_set_prototype_memory(tid, ins, PrototypeKind::Integer);
            },
            InstructionType::SetFloatPrototype => {
                self.lemma_set_prototype_memory(tid, ins, PrototypeKind::Float);
            },
            InstructionType::SetStringPrototype => {
                self.lemma_set_prototype_memory(tid, ins, PrototypeKind::String);
            },
            InstructionType::SetArrayPrototype => {
                self.lemma_set_prototype_memory(tid, ins, PrototypeKind::Array);
            },
            InstructionType::SetThreadPrototype => {
                self.lemma_set_prototype_memory(tid, ins, PrototypeKind::Thread);
            },
            InstructionType::SetTruePrototype => {
                self.lemma_set_prototype_memory(tid, ins, PrototypeKind::True);
            },
            InstructionType::SetFalsePrototype => {
                self.lemma_set_prototype_memory(tid, ins, PrototypeKind::False);
            },
            InstructionType::SetBlockPrototype => {
                self.lemma_set_prototype_memory(tid, ins, PrototypeKind::Block);
            },
            InstructionType::SetBooleanPrototype => {
                self.lemma_set_prototype_memory(tid, ins, PrototypeKind::Boolean);
            },
            InstructionType::SetTrue => {
                self.lemma_set_singleton_memory(tid, ins, true);
            },
            InstructionType::SetFalse => {
                self.lemma_set_singleton_memory(tid, ins, false);
            },
            InstructionType::SetLocal => {
                self.lemma_set_local_memory(tid, ins);
            },
            InstructionType::GetLocal => {
                self.lemma_get_local_memory(tid, ins);
            },
            InstructionType::SetConst => {
                self.lemma_set_const_memory(tid, code, ins);
            },
            InstructionType::GetConst => {
                self.lemma_get_const_memory(tid, code, ins);
            },
            InstructionType::SetAttr => {
                self.lemma_set_attr_memory(tid, code, ins);
            },
            InstructionType::GetAttr => {
                self.lemma_get_attr_memory(tid, code, ins);
            },
            InstructionType::Send => {
                self.lemma_send_memory(tid, code, ins);
            },
            InstructionType::DefMethod => {
                self.lemma_def_method_memory(tid, code, ins);
            },
            InstructionType::RunCode => {
                self.lemma_run_code_memory(tid, code, ins);
            },
            InstructionType::GetToplevel => {
                self.lemma_get_toplevel_memory(tid, ins);
            },
            InstructionType::IntegerAdd => {
                self.lemma_integer_arithmetic_memory(tid, ins, Arithmetic::Add);
            },
            InstructionType::IntegerDiv => {
                self.lemma_integer_arithmetic_memory(tid, ins, Arithmetic::Div);
            },
            InstructionType::IntegerMul => {
                self.lemma_integer_arithmetic_memory(tid, ins, Arithmetic::Mul);
            },
            InstructionType::IntegerSub => {
                self.lemma_integer_arithmetic_memory(tid, ins, Arithmetic::Sub);
            },
            InstructionType::IntegerMod => {
                self.lemma_integer_arithmetic_memory(tid, ins, Arithmetic::Mod);
            },
            InstructionType::IntegerToFloat => {
                self.lemma_integer_to_float_memory(tid, ins);
            },
            InstructionType::IntegerToString => {
                self.lemma_integer_to_string_memory(tid, ins);
            },
            InstructionType::IntegerBitwiseAnd => {
                self.lemma_integer_arithmetic_memory(tid, ins, Arithmetic::BitwiseAnd);
            },
            InstructionType::IntegerBitwiseOr => {
                self.lemma_integer_arithmetic_memory(tid, ins, Arithmetic::BitwiseOr);
            },
            InstructionType::IntegerBitwiseXor => {
                self.lemma_integer_arithmetic_memory(tid, ins, Arithmetic::BitwiseXor);
            },
            InstructionType::IntegerShiftLeft => {
                self.lemma_integer_arithmetic_memory(tid, ins, Arithmetic::ShiftLeft);
            },
            InstructionType::IntegerShiftRight => {
                self.lemma_integer_arithmetic_memory(tid, ins, Arithmetic::ShiftRight);
            },
            InstructionType::IntegerSmaller => {
                self.lemma_integer_comparison_memory(tid, ins, Comparison::Smaller);
            },
            InstructionType::IntegerGreater => {
                self.lemma_integer_comparison_memory(tid, ins, Comparison::Greater);
            },
            InstructionType::IntegerEqual => {
                self.lemma_integer_comparison_memory(tid, ins, Comparison::Equal);
            },
            InstructionType::StartThread => {
                self.lemma_start_thread_memory(tid, code, ins);
            },
            _ => {},
        }
    }

    /// A step takes no object away, changes no payload, and leaves what has
    /// been installed as it is: an identity the memory manager handed out
    /// stays valid, and a prototype is written once. The singletons keep
    /// existing exactly when their prototypes do.
    #[verifier::rlimit(50)]
    pub proof fn lemma_stepped_extends_memory(self, tid: ThreadId)
        requires
            self.memory.consistent(),
        ensures
            self.stepped(tid) matches Ok((next, _)) ==> extends(self.memory, next.memory)
                && next.memory.consistent(),
    {
        if self.has_thread(tid) {
            let frame = self.thread(tid).frame();
            if !self.thread(tid).stop && !frame.at_end() {
                self.at(tid, (frame.ip + 1) as usize).lemma_dispatched_extends_memory(
                    tid,
                    frame.program(),
                    frame.next_instruction(),
                );
            }
        }
    }

    /// Running a thread takes no object away, changes no payload, and leaves
    /// what has been installed as it is.
    pub proof fn lemma_resumed_extends_memory(self, tid: ThreadId, fuel: nat)
        requires
            self.memory.consistent(),
        ensures
            extends(self.memory, self.resumed(tid, fuel).0.memory),
            self.resumed(tid, fuel).0.memory.consistent(),
        decreases fuel,
    {
        if fuel > 0 {
            self.lemma_stepped_extends_memory(tid);
            match self.stepped(tid) {
                Ok((next, Step::Continue)) => {
                    next.lemma_resumed_extends_memory(tid, (fuel - 1) as nat);
                    lemma_extends_transitive(
                        self.memory,
                        next.memory,
                        next.resumed(tid, (fuel - 1) as nat).0.memory,
                    );
                },
                _ => {},
            }
        }
    }
}

/// Installing a prototype that was not installed takes nothing away.
pub proof fn lemma_installed_extends(memory: MemoryView, kind: PrototypeKind, object: ObjectId)
    requires
        memory.consistent(),
        memory.prototype(kind) is None,
    ensures
        extends(memory, memory.installed(kind, object)),
        memory.installed(kind, object).consistent(),
{
    let installed = memory.installed(kind, object);
    assert forall|k: PrototypeKind| memory.prototype(k) is Some
        implies #[trigger] installed.prototype(
        k,
    ) == memory.prototype(k) by {
        assert(k != kind);
    }
}

/// Handing a prototype to the objects of the threads that are alive takes
/// nothing away.
pub proof fn lemma_backfilled_extends(
    memory: MemoryView,
    threads: Seq<ThreadView>,
    count: int,
    prototype: ObjectId,
)
    ensures
        extends(memory, backfilled(memory, threads, count, prototype)),
        memory.consistent() ==> backfilled(memory, threads, count, prototype).consistent(),
{
    let after = backfilled(memory, threads, count, prototype);
    assert forall|kind: PrototypeKind| memory.prototype(kind) is Some
        implies #[trigger] after.prototype(
        kind,
    ) == memory.prototype(kind) by {}
}

/// What extends an extension extends the memory it started from.
pub proof fn lemma_extends_transitive(first: MemoryView, second: MemoryView, third: MemoryView)
    requires
        extends(first, second),
        extends(second, third),
    ensures
        extends(first, third),
{
    assert forall|i: int| 0 <= i < first.objects.len() implies (#[trigger] third.objects[i]).value
        == first.objects[i].value by {
        assert(second.objects[i].value == first.objects[i].value);
    }
    assert forall|kind: PrototypeKind| first.prototype(kind) is Some
        implies #[trigger] third.prototype(kind) == first.prototype(kind) by {
        assert(second.prototype(kind) == first.prototype(kind));
    }
}

} // verus!
