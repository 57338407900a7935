//! What holds of every instruction, whatever the state of the machine.

use crate::compiled_code::CompiledCode;
use crate::error::{Fault, FaultKind};
use crate::instruction::{Instruction, InstructionType};
use crate::memory_manager::PrototypeKind;
use crate::semantics::{collected, missing, MachineView, Step};
use crate::thread::ThreadView;
use crate::thread_list::ThreadId;
use vstd::prelude::*;

verus! {

/// The number of arguments an instruction of this type has at least. Some
/// types take more: an optional prototype, or the registers of the values
/// that an argument counts.
pub open spec fn declared_arguments(instruction_type: InstructionType) -> int {
    match instruction_type {
        InstructionType::SetInteger => 2,
        InstructionType::SetFloat => 2,
        InstructionType::SetString => 2,
        InstructionType::SetObject => 1,
        InstructionType::SetArray => 2,
        InstructionType::SetName => 2,
        InstructionType::SetIntegerPrototype => 1,
        InstructionType::SetFloatPrototype => 1,
        InstructionType::SetStringPrototype => 1,
        InstructionType::SetArrayPrototype => 1,
        InstructionType::SetThreadPrototype => 1,
        InstructionType::SetTruePrototype => 1,
        InstructionType::SetFalsePrototype => 1,
        InstructionType::SetBlockPrototype => 1,
        InstructionType::SetBooleanPrototype => 1,
        InstructionType::SetTrue => 1,
        InstructionType::SetFalse => 1,
        InstructionType::SetLocal => 2,
        InstructionType::GetLocal => 2,
        InstructionType::SetConst => 3,
        InstructionType::GetConst => 3,
        InstructionType::SetAttr => 3,
        InstructionType::GetAttr => 3,
        InstructionType::Send => 5,
        InstructionType::Return => 1,
        InstructionType::GotoIfFalse => 2,
        InstructionType::GotoIfTrue => 2,
        InstructionType::Goto => 1,
        InstructionType::DefMethod => 3,
        InstructionType::RunCode => 3,
        InstructionType::GetToplevel => 1,
        InstructionType::IntegerAdd => 3,
        InstructionType::IntegerDiv => 3,
        InstructionType::IntegerMul => 3,
        InstructionType::IntegerSub => 3,
        InstructionType::IntegerMod => 3,
        InstructionType::IntegerToFloat => 2,
        InstructionType::IntegerToString => 2,
        InstructionType::IntegerBitwiseAnd => 3,
        InstructionType::IntegerBitwiseOr => 3,
        InstructionType::IntegerBitwiseXor => 3,
        InstructionType::IntegerShiftLeft => 3,
        InstructionType::IntegerShiftRight => 3,
        InstructionType::IntegerSmaller => 3,
        InstructionType::IntegerGreater => 3,
        InstructionType::IntegerEqual => 3,
        InstructionType::StartThread => 2,
    }
}

/// The number of arguments an instruction can use at most: as many as its
/// type declares, and for some types an optional one more, or as many more as
/// one of the declared arguments counts.
pub open spec fn accepted_arguments(ins: Instruction) -> int {
    match ins.instruction_type {
        InstructionType::SetObject => 2,
        InstructionType::SetArray => 2 + ins.arguments@[1],
        InstructionType::Send => 5 + ins.arguments@[4],
        InstructionType::RunCode => 3 + ins.arguments@[2],
        other => declared_arguments(other),
    }
}

/// Whether one of the `amount` arguments from `offset` on names `slot`.
pub open spec fn names_among(ins: Instruction, offset: int, amount: int, slot: u32) -> bool {
    exists|position: int|
        offset <= position < offset + amount && position < ins.arguments@.len()
            && #[trigger] ins.arguments@[position] == slot
}

/// Whether the instruction needs the object in register `slot`: it cannot do
/// its work if that register is unwritten. A conditional jump and a return
/// read a register too, but have a meaning for an unwritten one.
pub open spec fn dereferences(ins: Instruction, slot: u32) -> bool {
    match ins.instruction_type {
        InstructionType::SetObject => ins.arg(1) == Some(slot),
        InstructionType::SetArray => ins.arguments@.len() >= 2 && names_among(
            ins,
            2,
            ins.arguments@[1] as int,
            slot,
        ),
        InstructionType::SetName => ins.arg(0) == Some(slot),
        InstructionType::SetIntegerPrototype => ins.arg(0) == Some(slot),
        InstructionType::SetFloatPrototype => ins.arg(0) == Some(slot),
        InstructionType::SetStringPrototype => ins.arg(0) == Some(slot),
        InstructionType::SetArrayPrototype => ins.arg(0) == Some(slot),
        InstructionType::SetThreadPrototype => ins.arg(0) == Some(slot),
        InstructionType::SetTruePrototype => ins.arg(0) == Some(slot),
        InstructionType::SetFalsePrototype => ins.arg(0) == Some(slot),
        InstructionType::SetBlockPrototype => ins.arg(0) == Some(slot),
        InstructionType::SetBooleanPrototype => ins.arg(0) == Some(slot),
        InstructionType::SetLocal => ins.arg(1) == Some(slot),
        InstructionType::SetConst => ins.arg(0) == Some(slot) || ins.arg(1) == Some(slot),
        InstructionType::GetConst => ins.arg(1) == Some(slot),
        InstructionType::SetAttr => ins.arg(0) == Some(slot) || ins.arg(1) == Some(slot),
        InstructionType::GetAttr => ins.arg(1) == Some(slot),
        InstructionType::Send => ins.arg(1) == Some(slot) || (ins.arguments@.len() >= 5
            && names_among(ins, 5, ins.arguments@[4] as int, slot)),
        InstructionType::DefMethod => ins.arg(0) == Some(slot),
        InstructionType::RunCode => ins.arguments@.len() >= 3 && names_among(
            ins,
            3,
            ins.arguments@[2] as int,
            slot,
        ),
        InstructionType::IntegerAdd => ins.arg(1) == Some(slot) || ins.arg(2) == Some(slot),
        InstructionType::IntegerDiv => ins.arg(1) == Some(slot) || ins.arg(2) == Some(slot),
        InstructionType::IntegerMul => ins.arg(1) == Some(slot) || ins.arg(2) == Some(slot),
        InstructionType::IntegerSub => ins.arg(1) == Some(slot) || ins.arg(2) == Some(slot),
        InstructionType::IntegerMod => ins.arg(1) == Some(slot) || ins.arg(2) == Some(slot),
        InstructionType::IntegerToFloat => ins.arg(1) == Some(slot),
        InstructionType::IntegerToString => ins.arg(1) == Some(slot),
        InstructionType::IntegerBitwiseAnd => ins.arg(1) == Some(slot) || ins.arg(2) == Some(slot),
        InstructionType::IntegerBitwiseOr => ins.arg(1) == Some(slot) || ins.arg(2) == Some(slot),
        InstructionType::IntegerBitwiseXor => ins.arg(1) == Some(slot) || ins.arg(2) == Some(slot),
        InstructionType::IntegerShiftLeft => ins.arg(1) == Some(slot) || ins.arg(2) == Some(slot),
        InstructionType::IntegerShiftRight => ins.arg(1) == Some(slot) || ins.arg(2) == Some(slot),
        InstructionType::IntegerSmaller => ins.arg(1) == Some(slot) || ins.arg(2) == Some(slot),
        InstructionType::IntegerGreater => ins.arg(1) == Some(slot) || ins.arg(2) == Some(slot),
        InstructionType::IntegerEqual => ins.arg(1) == Some(slot) || ins.arg(2) == Some(slot),
        _ => false,
    }
}

/// The prototype that an instruction of this type cannot do without, if
/// there is one.
pub open spec fn depends_on(instruction_type: InstructionType) -> Option<PrototypeKind> {
    match instruction_type {
        InstructionType::SetInteger => Some(PrototypeKind::Integer),
        InstructionType::SetFloat => Some(PrototypeKind::Float),
        InstructionType::SetString => Some(PrototypeKind::String),
        InstructionType::SetArray => Some(PrototypeKind::Array),
        InstructionType::SetTrue => Some(PrototypeKind::True),
        InstructionType::SetFalse => Some(PrototypeKind::False),
        InstructionType::IntegerAdd => Some(PrototypeKind::Integer),
        InstructionType::IntegerDiv => Some(PrototypeKind::Integer),
        InstructionType::IntegerMul => Some(PrototypeKind::Integer),
        InstructionType::IntegerSub => Some(PrototypeKind::Integer),
        InstructionType::IntegerMod => Some(PrototypeKind::Integer),
        InstructionType::IntegerToFloat => Some(PrototypeKind::Float),
        InstructionType::IntegerToString => Some(PrototypeKind::String),
        InstructionType::IntegerBitwiseAnd => Some(PrototypeKind::Integer),
        InstructionType::IntegerBitwiseOr => Some(PrototypeKind::Integer),
        InstructionType::IntegerBitwiseXor => Some(PrototypeKind::Integer),
        InstructionType::IntegerShiftLeft => Some(PrototypeKind::Integer),
        InstructionType::IntegerShiftRight => Some(PrototypeKind::Integer),
        InstructionType::StartThread => Some(PrototypeKind::Thread),
        _ => None,
    }
}

/// Collecting arguments fails only for want of an argument or of a register's
/// content, and does fail if one of the registers named is unwritten.
pub proof fn lemma_collected_decodes(
    thread: ThreadView,
    ins: Instruction,
    offset: int,
    amount: nat,
    slot: u32,
)
    ensures
        collected(thread, ins, offset, amount) matches Err(fault) ==> fault.kind_of()
            == FaultKind::Decode,
        thread.register(slot) is None && names_among(ins, offset, amount as int, slot)
            ==> collected(thread, ins, offset, amount) is Err,
    decreases amount,
{
    if amount > 0 {
        lemma_collected_decodes(thread, ins, offset, (amount - 1) as nat, slot);
        if thread.register(slot) is None && names_among(ins, offset, amount as int, slot) {
            let position = choose|position: int|
                offset <= position < offset + amount && position < ins.arguments@.len()
                    && #[trigger] ins.arguments@[position] == slot;
            if position < offset + amount - 1 {
                assert(names_among(ins, offset, amount - 1, slot));
            }
        }
    }
}

impl MachineView {
    /// An instruction with fewer arguments than its type declares raises the
    /// fault for the first argument that is missing, whatever the state.
    #[verifier::rlimit(50)]
    pub proof fn lemma_missing_argument(self, tid: ThreadId, code: CompiledCode, ins: Instruction)
        requires
            ins.arguments@.len() < declared_arguments(ins.instruction_type),
        ensures
            self.dispatched(tid, code, ins) == Err::<(MachineView, Step), Fault>(missing(ins)),
            missing(ins).kind_of() == FaultKind::Decode,
    {
        reveal(MachineView::dispatched);
    }

    /// An instruction with more arguments than it can use raises the fault for
    /// the first argument beyond them, whatever the state.
    #[verifier::rlimit(50)]
    pub proof fn lemma_unexpected_argument(self, tid: ThreadId, code: CompiledCode, ins:
        Instruction)
        requires
            ins.arguments@.len() >= declared_arguments(ins.instruction_type),
            ins.arguments@.len() > accepted_arguments(ins),
        ensures
            self.dispatched(tid, code, ins) == Err::<(MachineView, Step), Fault>(
                Fault::UnexpectedArgument { position: accepted_arguments(ins) as usize },
            ),
    {
        reveal(MachineView::dispatched);
    }

    /// A thread whose next instruction has fewer arguments than its type
    /// declares makes no step: it faults with a decode error, and running it
    /// leaves the machine as it was.
    #[verifier::rlimit(50)]
    pub proof fn lemma_step_missing_argument(self, tid: ThreadId, fuel: nat)
        requires
            self.runnable(tid),
            !self.thread(tid).stop,
            !self.thread(tid).frame().at_end(),
            self.thread(tid).frame().next_instruction().arguments@.len() < declared_arguments(
                self.thread(tid).frame().next_instruction().instruction_type,
            ),
        ensures
            self.stepped(tid) == Err::<(MachineView, Step), Fault>(
                missing(self.thread(tid).frame().next_instruction()),
            ),
            missing(self.thread(tid).frame().next_instruction()).kind_of() == FaultKind::Decode,
            fuel > 0 ==> self.resumed(tid, fuel) == (
                self,
                Err::<Step, Fault>(missing(self.thread(tid).frame().next_instruction())),
            ),
    {
        let frame = self.thread(tid).frame();
        self.at(tid, (frame.ip + 1) as usize).lemma_missing_argument(
            tid,
            frame.program(),
            frame.next_instruction(),
        );
    }

    /// An instruction that needs the object in a register that was never
    /// written fails with a decode error.
    #[verifier::rlimit(50)]
    pub proof fn lemma_undefined_register(
        self,
        tid: ThreadId,
        code: CompiledCode,
        ins: Instruction,
        slot: u32,
    )
        requires
            self.has_thread(tid),
            self.thread(tid).register(slot) is None,
            dereferences(ins, slot),
        ensures
            self.dispatched(tid, code, ins) matches Err(fault) && fault.kind_of()
                == FaultKind::Decode,
    {
        reveal(MachineView::dispatched);
        match ins.instruction_type {
            InstructionType::SetArray => {
                lemma_collected_decodes(self.thread(tid), ins, 2, ins.arguments@[1] as nat, slot);
            },
            InstructionType::Send => {
                if ins.arguments@.len() >= 5 {
                    lemma_collected_decodes(
                        self.thread(tid),
                        ins,
                        5,
                        ins.arguments@[4] as nat,
                        slot,
                    );
                }
            },
            InstructionType::RunCode => {
                lemma_collected_decodes(self.thread(tid), ins, 3, ins.arguments@[2] as nat, slot);
            },
            _ => {},
        }
    }

    /// A prototype that has not been installed can be installed, from any
    /// register that holds an object. After that every attempt to install it
    /// again fails, and the attempt that names a written register fails because
    /// the prototype is already defined.
    #[verifier::rlimit(50)]
    pub proof fn lemma_install_once(
        self,
        tid: ThreadId,
        ins: Instruction,
        again: Instruction,
        kind: PrototypeKind,
    )
        requires
            self.has_thread(tid),
            ins.arguments@.len() == 1,
            self.thread(tid).register(ins.arguments@[0]) is Some,
            self.memory.prototype(kind) is None,
        ensures
            self.set_prototype(tid, ins, kind) matches Ok(next) && next.memory.prototype(kind)
                == self.thread(tid).register(ins.arguments@[0]) && next.set_prototype(
                tid,
                again,
                kind,
            ) is Err && (again.arguments@.len() == 1 && next.thread(tid).register(
                again.arguments@[0],
            ) is Some ==> next.set_prototype(tid, again, kind) == Err::<MachineView, Fault>(
                Fault::PrototypeAlreadyDefined { kind },
            )),
    {
    }

    /// An instruction that depends on a prototype fails as long as that
    /// prototype has not been installed.
    #[verifier::rlimit(50)]
    pub proof fn lemma_needs_prototype(
        self,
        tid: ThreadId,
        code: CompiledCode,
        ins: Instruction,
        kind: PrototypeKind,
    )
        requires
            self.memory.consistent(),
            depends_on(ins.instruction_type) == Some(kind),
            self.memory.prototype(kind) is None,
        ensures
            self.dispatched(tid, code, ins) is Err,
    {
        reveal(MachineView::dispatched);
    }

    /// A send that succeeds starts the method with the receiver as its first
    /// local variable, followed by the arguments.
    #[verifier::rlimit(50)]
    pub proof fn lemma_send_binds_receiver(
        self,
        tid: ThreadId,
        code: CompiledCode,
        ins: Instruction,
    )
        requires
            self.has_thread(tid),
            self.send(tid, code, ins) is Ok,
        ensures
            ({
                let callee = self.send(tid, code, ins)->Ok_0.thread(tid).frame();
                &&& callee.local(0) == self.thread(tid).register(ins.arguments@[1])
                &&& callee.local(0) is Some
                &&& callee.locals.len() == 1 + ins.arguments@[4]
                &&& callee.ip == 0
                &&& callee.return_to == Some(ins.arguments@[0])
            }),
    {
        let arguments = collected(self.thread(tid), ins, 5, ins.arguments@[4] as nat)->Ok_0;
        lemma_collected_length(self.thread(tid), ins, 5, ins.arguments@[4] as nat);
    }

    /// A thread at a conditional jump continues at the target if the tested
    /// register decides for the jump, and at the following instruction if not.
    /// A jump on false is taken for the False singleton and for an unwritten
    /// register, a jump on true for every other object.
    #[verifier::rlimit(50)]
    pub proof fn lemma_conditional_jump(self, tid: ThreadId)
        requires
            self.runnable(tid),
            !self.thread(tid).stop,
            !self.thread(tid).frame().at_end(),
            self.thread(tid).frame().next_instruction().instruction_type
                == InstructionType::GotoIfFalse || self.thread(
                tid,
            ).frame().next_instruction().instruction_type == InstructionType::GotoIfTrue,
            self.thread(tid).frame().next_instruction().arguments@.len() == 2,
        ensures
            ({
                let frame = self.thread(tid).frame();
                let ins = frame.next_instruction();
                let on = ins.instruction_type == InstructionType::GotoIfTrue;
                &&& self.stepped(tid) matches Ok((next, step))
                &&& step == Step::Continue
                &&& next.thread(tid).frame().ip == (if self.truth(tid, ins.arguments@[1]) == on {
                    ins.arguments@[0] as usize
                } else {
                    (frame.ip + 1) as usize
                })
                &&& next.thread(tid).frame().code == frame.code
                &&& next.memory == self.memory
                &&& next.thread(tid).registers == self.thread(tid).registers
            }),
    {
        reveal(MachineView::dispatched);
    }
}

/// Collecting arguments gives as many objects as were asked for.
pub proof fn lemma_collected_length(thread: ThreadView, ins: Instruction, offset: int, amount: nat)
    ensures
        collected(thread, ins, offset, amount) matches Ok(objects) ==> objects.len() == amount,
    decreases amount,
{
    if amount > 0 {
        lemma_collected_length(thread, ins, offset, (amount - 1) as nat);
    }
}

} // verus!
