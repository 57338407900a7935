//! What a step does to the threads and their frames.
//!
//! A step leaves the other threads alone. It leaves the frames of its thread
//! as they are but for the innermost, or it calls, or it returns. From this it
//! follows that a run which finishes has popped every frame it pushed. A step
//! reports nothing: the exit status changes only when a thread ends.

use crate::call_frame::FrameView;
use crate::compiled_code::{CompiledCode, RcCompiledCode};
use crate::error::{Fault, LiteralPool};
use crate::instruction::{Instruction, InstructionType};
use crate::integer::{Arithmetic, Comparison};
use crate::memory_manager::PrototypeKind;
use crate::object::ObjectId;
use crate::semantics::{as_locals, collected, MachineView, Step};
use crate::thread_list::ThreadId;
use vstd::prelude::*;

verus! {

/// The frames `after` are the frames `before` with at most the innermost one
/// changed, and that one is still called from where it was.
pub open spec fn keeps(before: Seq<FrameView>, after: Seq<FrameView>) -> bool {
    &&& after.len() == before.len()
    &&& after.drop_last() == before.drop_last()
    &&& after.last().return_to == before.last().return_to
}

/// The frames `after` are the frames `before` with a called frame on top.
pub open spec fn pushes(before: Seq<FrameView>, after: Seq<FrameView>) -> bool {
    &&& after.len() == before.len() + 1
    &&& keeps(before, after.drop_last())
    &&& after.last().return_to is Some
}

/// The frames `after` are the frames `before` without the innermost one, which
/// was a called frame.
pub open spec fn pops(before: Seq<FrameView>, after: Seq<FrameView>) -> bool {
    &&& before.len() > 1
    &&& before.last().return_to is Some
    &&& keeps(before.drop_last(), after)
}

/// The innermost of the frames is one whose completion ends the run.
pub open spec fn ends(frames: Seq<FrameView>) -> bool {
    !(frames.last().return_to is Some && frames.len() > 1)
}

/// What a step of a thread may do to the threads: it leaves the other threads
/// as they are, it may add threads, which have a frame, and it changes the
/// frames of the thread that takes it in one of three ways. It leaves the exit
/// status and the reports as they are.
pub open spec fn advances(
    before: MachineView,
    after: MachineView,
    tid: ThreadId,
    step: Step,
) -> bool {
    let f = before.thread(tid).frames;
    let g = after.thread(tid).frames;
    &&& after.threads.len() >= before.threads.len()
    &&& after.exit_status == before.exit_status
    &&& after.errors == before.errors
    &&& forall|t: int|
        0 <= t < before.threads.len() && t != tid ==> #[trigger] after.threads[t]
            == before.threads[t]
    &&& forall|t: int|
        before.threads.len() <= t < after.threads.len() ==> (
        #[trigger] after.threads[t]).frames.len() > 0
    &&& match step {
        Step::Continue => keeps(f, g) || pushes(f, g) || pops(f, g),
        Step::Finished(_) => keeps(f, g) && ends(f),
        Step::Stopped => after == before,
    }
}

/// Whether the frames from `base` on are called frames and the one below them
/// is one whose completion ends the run.
pub open spec fn running(frames: Seq<FrameView>, base: int) -> bool {
    &&& 1 <= base <= frames.len()
    &&& frames[base - 1].return_to is None
    &&& forall|j: int| base <= j < frames.len() ==> (#[trigger] frames[j]).return_to is Some
}

proof fn lemma_keeps_running(f: Seq<FrameView>, g: Seq<FrameView>, base: int)
    requires
        running(f, base),
        keeps(f, g),
    ensures
        running(g, base),
{
    assert forall|j: int| 0 <= j < g.len() implies (#[trigger] g[j]).return_to
        == f[j].return_to by {
        if j < g.len() - 1 {
            assert(g[j] == g.drop_last()[j]);
            assert(f[j] == f.drop_last()[j]);
        }
    }
}

proof fn lemma_step_running(f: Seq<FrameView>, g: Seq<FrameView>, base: int)
    requires
        running(f, base),
        keeps(f, g) || pushes(f, g) || pops(f, g),
    ensures
        running(g, base),
{
    if keeps(f, g) {
        lemma_keeps_running(f, g, base);
    } else if pushes(f, g) {
        let h = g.drop_last();
        lemma_keeps_running(f, h, base);
        assert forall|j: int| base <= j < g.len() implies (#[trigger] g[j]).return_to is Some by {
            if j < g.len() - 1 {
                assert(g[j] == h[j]);
            }
        }
        assert(g[base - 1] == h[base - 1]);
    } else {
        let d = f.drop_last();
        assert(f[f.len() - 1].return_to is Some);
        assert(f.len() - 1 >= base);
        assert forall|j: int| base <= j < d.len() implies (#[trigger] d[j]).return_to is Some by {
            assert(d[j] == f[j]);
        }
        assert(d[base - 1] == f[base - 1]);
        assert(running(d, base));
        lemma_keeps_running(d, g, base);
    }
}

proof fn lemma_finished_at_base(f: Seq<FrameView>, base: int)
    requires
        running(f, base),
        ends(f),
    ensures
        f.len() == base,
{
    if f.len() > base {
        assert(f[f.len() - 1].return_to is Some);
    }
}

/// A machine that a step left behind is as well formed as the one before.
proof fn lemma_advances_well_formed(
    before: MachineView,
    after: MachineView,
    tid: ThreadId,
    step: Step,
)
    requires
        before.well_formed(),
        before.has_thread(tid),
        advances(before, after, tid, step),
        after.memory.consistent(),
    ensures
        after.well_formed(),
{
    assert(before.threads[tid as int].frames.len() > 0);
    assert forall|t: int| 0 <= t < after.threads.len()
        implies (#[trigger] after.threads[t]).frames.len()
        > 0 by {
        if t < before.threads.len() && t != tid {
            assert(after.threads[t] == before.threads[t]);
        }
    }
}

impl MachineView {
    /// Whether every thread has a frame and the singletons exist exactly when
    /// their prototypes do, as is the case in every machine.
    pub open spec fn well_formed(self) -> bool {
        &&& forall|t: int|
            0 <= t < self.threads.len() ==> (#[trigger] self.threads[t]).frames.len() > 0
        &&& self.memory.consistent()
    }

    /// Whether `tid` names a thread, and that thread has a frame.
    pub open spec fn runnable(self, tid: ThreadId) -> bool {
        self.has_thread(tid) && self.thread(tid).frames.len() > 0
    }

    proof fn lemma_set_literal_frames(
        self,
        tid: ThreadId,
        code: CompiledCode,
        ins: Instruction,
        pool: LiteralPool,
    )
        requires
            self.runnable(tid),
        ensures
            self.set_literal(tid, code, ins, pool) matches Ok(next) ==> advances(
                self,
                next,
                tid,
                Step::Continue,
            )
                && keeps(self.thread(tid).frames, next.thread(tid).frames),
    {
    }

    proof fn lemma_set_object_frames(self, tid: ThreadId, ins: Instruction)
        requires
            self.runnable(tid),
        ensures
            self.set_object(tid, ins) matches Ok(next) ==> advances(self, next, tid, Step::Continue)
                && keeps(self.thread(tid).frames, next.thread(tid).frames),
    {
    }

    proof fn lemma_set_array_frames(self, tid: ThreadId, ins: Instruction)
        requires
            self.runnable(tid),
        ensures
            self.set_array(tid, ins) matches Ok(next) ==> advances(self, next, tid, Step::Continue)
                && keeps(self.thread(tid).frames, next.thread(tid).frames),
    {
    }

    proof fn lemma_set_name_frames(self, tid: ThreadId, code: CompiledCode, ins: Instruction)
        requires
            self.runnable(tid),
        ensures
            self.set_name(tid, code, ins) matches Ok(next) ==> advances(
                self,
                next,
                tid,
                Step::Continue,
            )
                && keeps(self.thread(tid).frames, next.thread(tid).frames),
    {
    }

    proof fn lemma_set_prototype_frames(self, tid: ThreadId, ins: Instruction, kind: PrototypeKind)
        requires
            self.runnable(tid),
        ensures
            self.set_prototype(tid, ins, kind) matches Ok(next) ==> advances(
                self,
                next,
                tid,
                Step::Continue,
            )
                && keeps(self.thread(tid).frames, next.thread(tid).frames),
    {
    }

    proof fn lemma_set_singleton_frames(self, tid: ThreadId, ins: Instruction, truth: bool)
        requires
            self.runnable(tid),
        ensures
            self.set_singleton(tid, ins, truth) matches Ok(next) ==> advances(
                self,
                next,
                tid,
                Step::Continue,
            )
                && keeps(self.thread(tid).frames, next.thread(tid).frames),
    {
    }

    proof fn lemma_with_frame(self, tid: ThreadId, frame: FrameView)
        requires
            self.runnable(tid),
            frame.return_to == self.thread(tid).frame().return_to,
        ensures
            keeps(
                self.thread(tid).frames,
                self.with_thread(tid, self.thread(tid).with_frame(frame)).thread(tid).frames,
            ),
    {
        let f = self.thread(tid).frames;
        let g = self.thread(tid).with_frame(frame).frames;
        assert(g.drop_last() =~= f.drop_last());
    }

    proof fn lemma_calling(
        self,
        tid: ThreadId,
        code: RcCompiledCode,
        locals: Seq<Option<ObjectId>>,
        slot: u32,
    )
        requires
            self.runnable(tid),
        ensures
            pushes(
                self.thread(tid).frames,
                self.calling(tid, code, locals, Some(slot)).thread(tid).frames,
            ),
    {
        let f = self.thread(tid).frames;
        let g = self.calling(tid, code, locals, Some(slot)).thread(tid).frames;
        assert(g.drop_last() =~= f);
    }

    proof fn lemma_set_local_frames(self, tid: ThreadId, ins: Instruction)
        requires
            self.runnable(tid),
        ensures
            self.set_local(tid, ins) matches Ok(next) ==> advances(self, next, tid, Step::Continue)
                && keeps(self.thread(tid).frames, next.thread(tid).frames),
    {
        if self.set_local(tid, ins) is Ok {
            let frame = self.thread(tid).frame();
            let object = self.read(tid, ins.arguments@[1])->Ok_0;
            self.lemma_with_frame(
                tid,
                FrameView { locals: frame.locals_with(ins.arguments@[0] as int, object), ..frame },
            );
        }
    }

    proof fn lemma_get_local_frames(self, tid: ThreadId, ins: Instruction)
        requires
            self.runnable(tid),
        ensures
            self.get_local(tid, ins) matches Ok(next) ==> advances(self, next, tid, Step::Continue)
                && keeps(self.thread(tid).frames, next.thread(tid).frames),
    {
    }

    proof fn lemma_set_const_frames(self, tid: ThreadId, code: CompiledCode, ins: Instruction)
        requires
            self.runnable(tid),
        ensures
            self.set_const(tid, code, ins) matches Ok(next) ==> advances(
                self,
                next,
                tid,
                Step::Continue,
            )
                && keeps(self.thread(tid).frames, next.thread(tid).frames),
    {
    }

    proof fn lemma_get_const_frames(self, tid: ThreadId, code: CompiledCode, ins: Instruction)
        requires
            self.runnable(tid),
        ensures
            self.get_const(tid, code, ins) matches Ok(next) ==> advances(
                self,
                next,
                tid,
                Step::Continue,
            )
                && keeps(self.thread(tid).frames, next.thread(tid).frames),
    {
    }

    proof fn lemma_set_attr_frames(self, tid: ThreadId, code: CompiledCode, ins: Instruction)
        requires
            self.runnable(tid),
        ensures
            self.set_attr(tid, code, ins) matches Ok(next) ==> advances(
                self,
                next,
                tid,
                Step::Continue,
            )
                && keeps(self.thread(tid).frames, next.thread(tid).frames),
    {
    }

    proof fn lemma_get_attr_frames(self, tid: ThreadId, code: CompiledCode, ins: Instruction)
        requires
            self.runnable(tid),
        ensures
            self.get_attr(tid, code, ins) matches Ok(next) ==> advances(
                self,
                next,
                tid,
                Step::Continue,
            )
                && keeps(self.thread(tid).frames, next.thread(tid).frames),
    {
    }

    proof fn lemma_def_method_frames(self, tid: ThreadId, code: CompiledCode, ins: Instruction)
        requires
            self.runnable(tid),
        ensures
            self.def_method(tid, code, ins) matches Ok(next) ==> advances(
                self,
                next,
                tid,
                Step::Continue,
            )
                && keeps(self.thread(tid).frames, next.thread(tid).frames),
    {
    }

    proof fn lemma_get_toplevel_frames(self, tid: ThreadId, ins: Instruction)
        requires
            self.runnable(tid),
        ensures
            self.get_toplevel(tid, ins) matches Ok(next) ==> advances(
                self,
                next,
                tid,
                Step::Continue,
            )
                && keeps(self.thread(tid).frames, next.thread(tid).frames),
    {
    }

    proof fn lemma_integer_arithmetic_frames(self, tid: ThreadId, ins: Instruction, op: Arithmetic)
        requires
            self.runnable(tid),
        ensures
            self.integer_arithmetic(tid, ins, op) matches Ok(next) ==> advances(
                self,
                next,
                tid,
                Step::Continue,
            )
                && keeps(self.thread(tid).frames, next.thread(tid).frames),
    {
    }

    proof fn lemma_integer_comparison_frames(
        self,
        tid: ThreadId,
        ins: Instruction,
        comparison: Comparison,
    )
        requires
            self.runnable(tid),
        ensures
            self.integer_comparison(tid, ins, comparison) matches Ok(next) ==> advances(
                self,
                next,
                tid,
                Step::Continue,
            )
                && keeps(self.thread(tid).frames, next.thread(tid).frames),
    {
    }

    proof fn lemma_integer_to_float_frames(self, tid: ThreadId, ins: Instruction)
        requires
            self.runnable(tid),
        ensures
            self.integer_to_float(tid, ins) matches Ok(next) ==> advances(
                self,
                next,
                tid,
                Step::Continue,
            )
                && keeps(self.thread(tid).frames, next.thread(tid).frames),
    {
    }

    proof fn lemma_integer_to_string_frames(self, tid: ThreadId, ins: Instruction)
        requires
            self.runnable(tid),
        ensures
            self.integer_to_string(tid, ins) matches Ok(next) ==> advances(
                self,
                next,
                tid,
                Step::Continue,
            )
                && keeps(self.thread(tid).frames, next.thread(tid).frames),
    {
    }

    proof fn lemma_start_thread_frames(self, tid: ThreadId, code: CompiledCode, ins: Instruction)
        requires
            self.runnable(tid),
        ensures
            self.start_thread(tid, code, ins) matches Ok(next) ==> advances(
                self,
                next,
                tid,
                Step::Continue,
            )
                && keeps(self.thread(tid).frames, next.thread(tid).frames),
    {
    }

    proof fn lemma_send_frames(self, tid: ThreadId, code: CompiledCode, ins: Instruction)
        requires
            self.runnable(tid),
        ensures
            self.send(tid, code, ins) matches Ok(next) ==> advances(self, next, tid, Step::Continue)
                && pushes(self.thread(tid).frames, next.thread(tid).frames),
    {
        if self.send(tid, code, ins) is Ok {
            let name = code.string_literals@[ins.arguments@[2] as int];
            let receiver = self.read(tid, ins.arguments@[1])->Ok_0;
            let arguments = collected(self.thread(tid), ins, 5, ins.arguments@[4] as nat)->Ok_0;
            let method = self.memory.lookup_method(receiver, name@)->0;
            self.lemma_calling(
                tid,
                method,
                as_locals(seq![receiver] + arguments),
                ins.arguments@[0],
            );
        }
    }

    proof fn lemma_run_code_frames(self, tid: ThreadId, code: CompiledCode, ins: Instruction)
        requires
            self.runnable(tid),
        ensures
            self.run_code(tid, code, ins) matches Ok(next) ==> advances(
                self,
                next,
                tid,
                Step::Continue,
            )
                && pushes(self.thread(tid).frames, next.thread(tid).frames),
    {
        if self.run_code(tid, code, ins) is Ok {
            let callee = code.code_objects@[ins.arguments@[1] as int];
            let arguments = collected(self.thread(tid), ins, 3, ins.arguments@[2] as nat)->Ok_0;
            self.lemma_calling(tid, callee, as_locals(arguments), ins.arguments@[0]);
        }
    }

    proof fn lemma_at_frames(self, tid: ThreadId, ip: usize)
        requires
            self.runnable(tid),
        ensures
            keeps(self.thread(tid).frames, self.at(tid, ip).thread(tid).frames),
            self.at(tid, ip).threads.len() == self.threads.len(),
            self.at(tid, ip).runnable(tid),
    {
        let frame = self.thread(tid).frame();
        self.lemma_with_frame(tid, FrameView { ip, ..frame });
    }

    proof fn lemma_completed_frames(self, tid: ThreadId, value: Option<ObjectId>)
        requires
            self.runnable(tid),
        ensures
            advances(self, self.completed(tid, value).0, tid, self.completed(tid, value).1),
            !(self.completed(tid, value).1 is Stopped),
    {
        let f = self.thread(tid).frames;
        let (next, step) = self.completed(tid, value);
        let g = next.thread(tid).frames;
        if f.last().return_to is Some && f.len() > 1 {
            assert(g =~= f.drop_last());
        } else {
            self.lemma_at_frames(tid, f.last().code.instructions@.len() as usize);
        }
    }

    /// An instruction changes the frames of its thread in one of three ways:
    /// it leaves all but the innermost as they are, it calls, or it returns.
    #[verifier::rlimit(50)]
    pub proof fn lemma_dispatched_frames(self, tid: ThreadId, code: CompiledCode, ins: Instruction)
        requires
            self.runnable(tid),
        ensures
            self.dispatched(tid, code, ins) matches Ok((next, step)) ==> advances(
                self,
                next,
                tid,
                step,
            ) && !(step is Stopped),
    {
        reveal(MachineView::dispatched);
        match ins.instruction_type {
            InstructionType::SetInteger => {
                self.lemma_set_literal_frames(tid, code, ins, LiteralPool::Integer);
            },
            InstructionType::SetFloat => {
                self.lemma_set_literal_frames(tid, code, ins, LiteralPool::Float);
            },
            InstructionType::SetString => {
                self.lemma_set_literal_frames(tid, code, ins, LiteralPool::String);
            },
            InstructionType::SetObject => {
                self.lemma_set_object_frames(tid, ins);
            },
            InstructionType::SetArray => {
                self.lemma_set_array_frames(tid, ins);
            },
            InstructionType::SetName => {
                self.lemma_set_name_frames(tid, code, ins);
            },
            InstructionType::SetIntegerPrototype => {
                self.lemma_set_prototype_frames(tid, ins, PrototypeKind::Integer);
            },
            InstructionType::SetFloatPrototype => {
                self.lemma_set_prototype_frames(tid, ins, PrototypeKind::Float);
            },
            InstructionType::SetStringPrototype => {
                self.lemma_set_prototype_frames(tid, ins, PrototypeKind::String);
            },
            InstructionType::SetArrayPrototype => {
                self.lemma_set_prototype_frames(tid, ins, PrototypeKind::Array);
            },
            InstructionType::SetThreadPrototype => {
                self.lemma_set_prototype_frames(tid, ins, PrototypeKind::Thread);
            },
            InstructionType::SetTruePrototype => {
                self.lemma_set_prototype_frames(tid, ins, PrototypeKind::True);
            },
            InstructionType::SetFalsePrototype => {
                self.lemma_set_prototype_frames(tid, ins, PrototypeKind::False);
            },
            InstructionType::SetBlockPrototype => {
                self.lemma_set_prototype_frames(tid, ins, PrototypeKind::Block);
            },
            InstructionType::SetBooleanPrototype => {
                self.lemma_set_prototype_frames(tid, ins, PrototypeKind::Boolean);
            },
            InstructionType::SetTrue => {
                self.lemma_set_singleton_frames(tid, ins, true);
            },
            InstructionType::SetFalse => {
                self.lemma_set_singleton_frames(tid, ins, false);
            },
            InstructionType::SetLocal => {
                self.lemma_set_local_frames(tid, ins);
            },
            InstructionType::GetLocal => {
                self.lemma_get_local_frames(tid, ins);
            },
            InstructionType::SetConst => {
                self.lemma_set_const_frames(tid, code, ins);
            },
            InstructionType::GetConst => {
                self.lemma_get_const_frames(tid, code, ins);
            },
            InstructionType::SetAttr => {
                self.lemma_set_attr_frames(tid, code, ins);
            },
            InstructionType::GetAttr => {
                self.lemma_get_attr_frames(tid, code, ins);
            },
            InstructionType::Send => {
                self.lemma_send_frames(tid, code, ins);
            },
            InstructionType::DefMethod => {
                self.lemma_def_method_frames(tid, code, ins);
            },
            InstructionType::RunCode => {
                self.lemma_run_code_frames(tid, code, ins);
            },
            InstructionType::GetToplevel => {
                self.lemma_get_toplevel_frames(tid, ins);
            },
            InstructionType::IntegerAdd => {
                self.lemma_integer_arithmetic_frames(tid, ins, Arithmetic::Add);
            },
            InstructionType::IntegerDiv => {
                self.lemma_integer_arithmetic_frames(tid, ins, Arithmetic::Div);
            },
            InstructionType::IntegerMul => {
                self.lemma_integer_arithmetic_frames(tid, ins, Arithmetic::Mul);
            },
            InstructionType::IntegerSub => {
                self.lemma_integer_arithmetic_frames(tid, ins, Arithmetic::Sub);
            },
            InstructionType::IntegerMod => {
                self.lemma_integer_arithmetic_frames(tid, ins, Arithmetic::Mod);
            },
            InstructionType::IntegerToFloat => {
                self.lemma_integer_to_float_frames(tid, ins);
            },
            InstructionType::IntegerToString => {
                self.lemma_integer_to_string_frames(tid, ins);
            },
            InstructionType::IntegerBitwiseAnd => {
                self.lemma_integer_arithmetic_frames(tid, ins, Arithmetic::BitwiseAnd);
            },
            InstructionType::IntegerBitwiseOr => {
                self.lemma_integer_arithmetic_frames(tid, ins, Arithmetic::BitwiseOr);
            },
            InstructionType::IntegerBitwiseXor => {
                self.lemma_integer_arithmetic_frames(tid, ins, Arithmetic::BitwiseXor);
            },
            InstructionType::IntegerShiftLeft => {
                self.lemma_integer_arithmetic_frames(tid, ins, Arithmetic::ShiftLeft);
            },
            InstructionType::IntegerShiftRight => {
                self.lemma_integer_arithmetic_frames(tid, ins, Arithmetic::ShiftRight);
            },
            InstructionType::IntegerSmaller => {
                self.lemma_integer_comparison_frames(tid, ins, Comparison::Smaller);
            },
            InstructionType::IntegerGreater => {
                self.lemma_integer_comparison_frames(tid, ins, Comparison::Greater);
            },
            InstructionType::IntegerEqual => {
                self.lemma_integer_comparison_frames(tid, ins, Comparison::Equal);
            },
            InstructionType::StartThread => {
                self.lemma_start_thread_frames(tid, code, ins);
            },
            InstructionType::Return => {
                match self.returned(tid, ins) {
                    Ok(value) => {
                        self.lemma_completed_frames(tid, value);
                    },
                    _ => {},
                }
            },
            InstructionType::GotoIfFalse => {
                match self.goto_if(tid, ins, false) {
                    Ok(Some(target)) => {
                        self.lemma_at_frames(tid, target);
                    },
                    _ => {},
                }
            },
            InstructionType::GotoIfTrue => {
                match self.goto_if(tid, ins, true) {
                    Ok(Some(target)) => {
                        self.lemma_at_frames(tid, target);
                    },
                    _ => {},
                }
            },
            InstructionType::Goto => {
                match Self::goto(ins) {
                    Ok(target) => {
                        self.lemma_at_frames(tid, target);
                    },
                    _ => {},
                }
            },
        }
    }

    /// A step changes the frames of its thread in one of three ways: it leaves
    /// all but the innermost as they are, it calls, or it returns. A step that
    /// finishes the run does so in a frame whose completion ends the run.
    #[verifier::rlimit(50)]
    pub proof fn lemma_stepped_frames(self, tid: ThreadId)
        requires
            self.runnable(tid),
        ensures
            self.stepped(tid) matches Ok((next, step)) ==> advances(self, next, tid, step),
    {
        let frame = self.thread(tid).frame();
        if self.thread(tid).stop {
        } else if frame.at_end() {
            self.lemma_completed_frames(tid, None);
        } else {
            let moved = self.at(tid, (frame.ip + 1) as usize);
            self.lemma_at_frames(tid, (frame.ip + 1) as usize);
            moved.lemma_dispatched_frames(tid, frame.program(), frame.next_instruction());
        }
    }

    /// A step leaves every thread with a frame and the singletons in step with
    /// their prototypes.
    #[verifier::rlimit(50)]
    pub proof fn lemma_stepped_well_formed(self, tid: ThreadId)
        requires
            self.well_formed(),
        ensures
            self.stepped(tid) matches Ok((next, _)) ==> next.well_formed(),
    {
        if self.has_thread(tid) {
            assert(self.threads[tid as int].frames.len() > 0);
            self.lemma_stepped_frames(tid);
            self.lemma_stepped_extends_memory(tid);
            match self.stepped(tid) {
                Ok((next, step)) => {
                    lemma_advances_well_formed(self, next, tid, step);
                },
                _ => {},
            }
        }
    }

    /// Running a thread never takes a thread away, and leaves the thread
    /// with a frame.
    pub proof fn lemma_resumed_keeps_threads(self, tid: ThreadId, fuel: nat)
        requires
            self.runnable(tid),
        ensures
            self.resumed(tid, fuel).0.threads.len() >= self.threads.len(),
            self.resumed(tid, fuel).0.runnable(tid),
        decreases fuel,
    {
        if fuel > 0 {
            self.lemma_stepped_frames(tid);
            match self.stepped(tid) {
                Ok((next, Step::Continue)) => {
                    next.lemma_resumed_keeps_threads(tid, (fuel - 1) as nat);
                },
                _ => {},
            }
        }
    }

    proof fn lemma_resumed_balances(self, tid: ThreadId, base: int, fuel: nat)
        requires
            self.has_thread(tid),
            running(self.thread(tid).frames, base),
        ensures
            self.resumed(tid, fuel).1 matches Ok(Step::Finished(_)) ==> self.resumed(
                tid,
                fuel,
            ).0.thread(tid).frames.len() == base,
        decreases fuel,
    {
        if fuel > 0 {
            self.lemma_stepped_frames(tid);
            let f = self.thread(tid).frames;
            match self.stepped(tid) {
                Ok((next, Step::Continue)) => {
                    lemma_step_running(f, next.thread(tid).frames, base);
                    next.lemma_resumed_balances(tid, base, (fuel - 1) as nat);
                },
                Ok((next, Step::Finished(_))) => {
                    lemma_finished_at_base(f, base);
                },
                _ => {},
            }
        }
    }

    /// A run that finishes leaves its thread with as many frames as it had
    /// when the run began: every frame pushed during the run was popped.
    pub proof fn lemma_run_balances_frames(
        self,
        tid: ThreadId,
        code: RcCompiledCode,
        fuel: nat,
    )
        requires
            self.runnable(tid),
        ensures
            self.entered(tid, code).resumed(tid, fuel).1 matches Ok(Step::Finished(_))
                ==> self.entered(tid, code).resumed(tid, fuel).0.thread(tid).frames.len()
                == self.thread(tid).frames.len(),
    {
        let entered = self.entered(tid, code);
        let frame = self.thread(tid).frame();
        let first = FrameView { code, ip: 0, return_to: None, ..frame };
        let f = self.thread(tid).frames;
        let g = entered.thread(tid).frames;
        assert(g =~= f.drop_last().push(first));
        assert(running(g, f.len() as int));
        entered.lemma_resumed_balances(tid, f.len() as int, fuel);
    }

    /// A call that finishes leaves its thread with as many frames as it had
    /// before the call: the frame of the call and every frame pushed during
    /// the call were popped.
    pub proof fn lemma_run_code_balances_frames(
        self,
        tid: ThreadId,
        code: RcCompiledCode,
        arguments: Seq<ObjectId>,
        fuel: nat,
    )
        requires
            self.runnable(tid),
        ensures
            self.ran_code(tid, code, arguments, fuel).1 matches Ok(Step::Finished(_))
                ==> self.ran_code(tid, code, arguments, fuel).0.thread(tid).frames.len()
                == self.thread(tid).frames.len(),
    {
        let called = self.calling(tid, code, as_locals(arguments), None);
        let base = self.thread(tid).frames.len() + 1;
        assert(running(called.thread(tid).frames, base as int));
        called.lemma_resumed_balances(tid, base as int, fuel);
        called.lemma_resumed_keeps_threads(tid, fuel);
    }
}

impl MachineView {
    /// Whether the exit status records a failure exactly when a fault has been
    /// reported.
    pub open spec fn tallied(self) -> bool {
        self.exit_status is Err <==> self.errors.len() > 0
    }

    /// Running the threads of a machine one after the other keeps the exit
    /// status in step with the reports, and takes no report away.
    pub proof fn lemma_drained_tallied(self, next: ThreadId, fuel: nat)
        requires
            self.tallied(),
            self.well_formed(),
        ensures
            self.drained(next, fuel).0.tallied(),
            self.drained(next, fuel).0.errors.len() >= self.errors.len(),
        decreases fuel,
    {
        if next < self.threads.len() && fuel > 0 {
            assert(self.threads[next as int].frames.len() > 0);
            self.lemma_stepped_frames(next);
            self.lemma_stepped_well_formed(next);
            let rest = (fuel - 1) as nat;
            match self.stepped(next) {
                Ok((after, Step::Continue)) => {
                    after.lemma_drained_tallied(next, rest);
                },
                Ok((after, Step::Finished(value))) => {
                    after.lemma_ended_well_formed(next, Ok(value));
                    after.ended(next, Ok(value)).lemma_drained_tallied(
                        (next + 1) as ThreadId,
                        rest,
                    );
                },
                Ok((after, Step::Stopped)) => {
                    after.lemma_ended_well_formed(next, Ok(None));
                    after.ended(next, Ok(None)).lemma_drained_tallied(
                        (next + 1) as ThreadId,
                        rest,
                    );
                },
                Err(fault) => {
                    self.lemma_ended_well_formed(next, Err(fault));
                    self.ended(next, Err(fault)).lemma_drained_tallied(
                        (next + 1) as ThreadId,
                        rest,
                    );
                },
            }
        }
    }

    /// Ending a thread keeps a machine well formed.
    pub proof fn lemma_ended_well_formed(
        self,
        tid: ThreadId,
        result: Result<Option<ObjectId>, Fault>,
    )
        requires
            self.well_formed(),
            self.has_thread(tid),
        ensures
            self.ended(tid, result).well_formed(),
    {
        let next = self.ended(tid, result);
        assert forall|t: int| 0 <= t < next.threads.len() implies (
        #[trigger] next.threads[t]).frames.len() > 0 by {
            assert(self.threads[t].frames.len() > 0);
            assert(next.threads[t].frames == self.threads[t].frames);
        }
    }

    /// A new machine that is started exits well exactly if no fault was
    /// reported, and with a failure exactly if one was.
    pub proof fn lemma_exit_status_tells_of_faults(code: RcCompiledCode, fuel: nat)
        ensures
            MachineView::initial().started(code, fuel).1 matches Some(status) ==> (status is Ok
                <==> MachineView::initial().started(code, fuel).0.errors.len() == 0),
    {
        let spawned = MachineView::initial().spawned(code, true);
        assert(spawned.well_formed()) by {
            assert(MachineView::initial().threads.len() == 0);
            assert forall|t: int| 0 <= t < spawned.threads.len() implies (
            #[trigger] spawned.threads[t]).frames.len() > 0 by {}
        }
        spawned.lemma_drained_tallied(0, fuel);
    }
}

} // verus!
