//! What a machine refers to, and the shape of its prototype links.
//!
//! A machine that was built by executing instructions never holds an identity
//! that its heap does not know, and its prototype links never form a cycle.
//! Both follow from one invariant: every object is linked to an older object,
//! except the objects that stand for threads and were given the Thread
//! prototype after they were made, and to those nothing refers. This module
//! states the invariant, proves that every step keeps it, and draws the
//! consequences.

use crate::call_frame::FrameView;
use crate::compiled_code::{CompiledCode, RcCompiledCode};
use crate::error::{Fault, LiteralPool};
use crate::instruction::{Instruction, InstructionType};
use crate::integer::{arithmetic, compares, decimal, float_bits, Arithmetic, Comparison};
use crate::memory_manager::{resolve_attribute, resolve_method, MemoryView, PrototypeKind};
use crate::object::{ObjectId, ObjectView};
use crate::object_value::ValueView;
use crate::semantics::{as_locals, collected, literal, pool_prototype, MachineView, Step};
use crate::thread::ThreadView;
use crate::thread_list::{stands_for_live_thread, ThreadId};
use vstd::prelude::*;

verus! {

/// Whether the object at `i` is linked to an older object, or to none.
pub open spec fn descends(objects: Seq<ObjectView>, i: int) -> bool {
    objects[i].prototype matches Some(p) ==> p < i
}

/// Whether `id` names an object that may be referred to: any object of the
/// heap but one that stands for a thread and is not linked to an older
/// object.
pub open spec fn ordinary(objects: Seq<ObjectView>, id: ObjectId) -> bool {
    &&& id < objects.len()
    &&& objects[id as int].value is Thread ==> objects[id as int].prototype is Some && descends(
        objects,
        id as int,
    )
}

/// Whether every local variable that is set names an ordinary object.
pub open spec fn valid_locals(locals: Seq<Option<ObjectId>>, objects: Seq<ObjectView>) -> bool {
    forall|i: int|
        0 <= i < locals.len() && (#[trigger] locals[i]) is Some ==> ordinary(objects, locals[i]->0)
}

/// Whether every binding names an ordinary object.
pub open spec fn valid_names(names: Map<Seq<char>, ObjectId>, objects: Seq<ObjectView>) -> bool {
    forall|name: Seq<char>| names.contains_key(name) ==> ordinary(objects, #[trigger] names[name])
}

/// Whether the object at `i` refers to ordinary objects only, and is linked to
/// an older object unless it stands for a thread.
pub open spec fn valid_object(objects: Seq<ObjectView>, i: int) -> bool {
    &&& objects[i].prototype matches Some(p) ==> ordinary(objects, p) && (p < i
        || objects[i].value is Thread)
    &&& valid_names(objects[i].attributes, objects)
    &&& valid_names(objects[i].constants, objects)
}

/// Whether the registers and the local variables of a thread name ordinary
/// objects.
pub open spec fn valid_thread(thread: ThreadView, objects: Seq<ObjectView>) -> bool {
    &&& forall|slot: u32|
        thread.registers.contains_key(slot) ==> ordinary(objects, #[trigger] thread.registers[slot])
    &&& forall|j: int|
        0 <= j < thread.frames.len() ==> valid_locals(
            (#[trigger] thread.frames[j]).locals,
            objects,
        )
}

/// Whether the memory refers to ordinary objects only, every object but those
/// that stand for threads is linked to an older object, and, as long as the
/// Thread prototype has not been installed, the objects that stand for
/// threads are linked to none.
pub open spec fn valid_memory(memory: MemoryView) -> bool {
    &&& forall|i: int| 0 <= i < memory.objects.len() ==> #[trigger] valid_object(memory.objects, i)
    &&& forall|kind: PrototypeKind|
        memory.prototypes.contains_key(kind) ==> ordinary(
            memory.objects,
            #[trigger] memory.prototypes[kind],
        )
    &&& memory.true_object matches Some(object) ==> ordinary(memory.objects, object)
    &&& memory.false_object matches Some(object) ==> ordinary(memory.objects, object)
    &&& ordinary(memory.objects, memory.top_level)
    &&& memory.prototype(PrototypeKind::Thread) is None ==> forall|i: int|
        0 <= i < memory.objects.len() && (#[trigger] memory.objects[i]).value is Thread
            ==> memory.objects[i].prototype is None
}

/// Whether the objects `after` hold every object of `before` with its payload,
/// and what was ordinary is ordinary still.
pub open spec fn carries(before: Seq<ObjectView>, after: Seq<ObjectView>) -> bool {
    &&& after.len() >= before.len()
    &&& forall|i: int|
        0 <= i < before.len() ==> (#[trigger] after[i]).value == before[i].value
    &&& forall|id: ObjectId| ordinary(before, id) ==> #[trigger] ordinary(after, id)
}

impl MachineView {
    /// Whether the heap has room for `more` objects: identities are machine
    /// words.
    pub open spec fn roomy(self, more: nat) -> bool {
        self.memory.objects.len() + more <= usize::MAX
    }

    /// Whether every identity that the machine holds, in a register, a local
    /// variable, a namespace, a prototype link or a well-known place, names an
    /// ordinary object of the heap, every object but those that stand for
    /// threads is linked to an older object, and the object of every thread
    /// stands for a thread.
    pub open spec fn sound(self) -> bool {
        &&& valid_memory(self.memory)
        &&& forall|t: int|
            0 <= t < self.threads.len() ==> valid_thread(
                #[trigger] self.threads[t],
                self.memory.objects,
            )
        &&& forall|t: int|
            0 <= t < self.threads.len() ==> ((#[trigger] self.threads[t]).object matches Some(
                object,
            ) ==> object < self.memory.objects.len()
                && self.memory.objects[object as int].value is Thread)
    }
}

/// What is valid for a heap is valid for a heap that carries it.
pub proof fn lemma_valid_thread_carries(
    thread: ThreadView,
    before: Seq<ObjectView>,
    after: Seq<ObjectView>,
)
    requires
        valid_thread(thread, before),
        carries(before, after),
    ensures
        valid_thread(thread, after),
{
    assert forall|j: int| 0 <= j < thread.frames.len() implies valid_locals(
        (#[trigger] thread.frames[j]).locals,
        after,
    ) by {
        assert(valid_locals(thread.frames[j].locals, before));
    }
}

/// What is valid for a heap is valid for a heap that carries it.
pub proof fn lemma_valid_names_carries(
    names: Map<Seq<char>, ObjectId>,
    before: Seq<ObjectView>,
    after: Seq<ObjectView>,
)
    requires
        valid_names(names, before),
        carries(before, after),
    ensures
        valid_names(names, after),
{
}

/// An object that is as it was, in a heap that carries the one before, is as
/// valid as it was.
pub proof fn lemma_valid_object_carries(before: Seq<ObjectView>, after: Seq<ObjectView>, i: int)
    requires
        0 <= i < before.len(),
        valid_object(before, i),
        carries(before, after),
        after[i].prototype == before[i].prototype,
        after[i].attributes == before[i].attributes,
        after[i].constants == before[i].constants,
    ensures
        valid_object(after, i),
{
    lemma_valid_names_carries(before[i].attributes, before, after);
    lemma_valid_names_carries(before[i].constants, before, after);
}

/// A machine without threads and with a heap that holds only the top-level
/// object is sound.
pub proof fn lemma_initial_sound()
    ensures
        MachineView::initial().sound(),
{
    let memory = MemoryView::initial();
    assert(memory.objects[0] == ObjectView::fresh(ValueView::Empty, None));
    assert(valid_object(memory.objects, 0));
}

/// Collecting arguments from a valid thread gives ordinary objects.
pub proof fn lemma_collected_valid(
    thread: ThreadView,
    ins: Instruction,
    offset: int,
    amount: nat,
    objects: Seq<ObjectView>,
)
    requires
        valid_thread(thread, objects),
    ensures
        collected(thread, ins, offset, amount) matches Ok(found) ==> forall|k: int|
            0 <= k < found.len() ==> ordinary(objects, #[trigger] found[k]),
    decreases amount,
{
    if amount > 0 {
        lemma_collected_valid(thread, ins, offset, (amount - 1) as nat, objects);
    }
}

/// An attribute found on a valid heap names an ordinary object.
pub proof fn lemma_resolved_attribute_valid(
    memory: MemoryView,
    id: ObjectId,
    name: Seq<char>,
    fuel: nat,
)
    requires
        valid_memory(memory),
    ensures
        resolve_attribute(memory.objects, id, name, fuel) matches Some(object) ==> ordinary(
            memory.objects,
            object,
        ),
    decreases fuel,
{
    if fuel > 0 && id < memory.objects.len() {
        let object = memory.objects[id as int];
        assert(valid_object(memory.objects, id as int));
        if !object.attributes.contains_key(name) {
            match object.prototype {
                Some(p) => {
                    lemma_resolved_attribute_valid(memory, p, name, (fuel - 1) as nat);
                },
                None => {},
            }
        }
    }
}

impl MachineView {
    /// Replacing a thread by a valid one that stands for the same object keeps
    /// a machine sound.
    pub proof fn lemma_with_thread_sound(self, tid: ThreadId, thread: ThreadView)
        requires
            self.sound(),
            self.has_thread(tid),
            valid_thread(thread, self.memory.objects),
            thread.object == self.thread(tid).object,
        ensures
            self.with_thread(tid, thread).sound(),
    {
        let next = self.with_thread(tid, thread);
        assert forall|t: int| 0 <= t < next.threads.len() implies valid_thread(
            #[trigger] next.threads[t],
            next.memory.objects,
        ) && (next.threads[t].object matches Some(object) ==> object < next.memory.objects.len()
            && next.memory.objects[object as int].value is Thread) by {
            if t != tid {
                assert(next.threads[t] == self.threads[t]);
            } else {
                assert(self.threads[t].object == thread.object);
            }
        }
    }

    /// Replacing the memory by a valid one that carries it keeps a machine
    /// sound.
    pub proof fn lemma_with_memory_sound(self, memory: MemoryView)
        requires
            self.sound(),
            valid_memory(memory),
            carries(self.memory.objects, memory.objects),
        ensures
            self.with_memory(memory).sound(),
    {
        let next = self.with_memory(memory);
        assert forall|t: int| 0 <= t < next.threads.len() implies valid_thread(
            #[trigger] next.threads[t],
            next.memory.objects,
        ) && (next.threads[t].object matches Some(object) ==> object < next.memory.objects.len()
            && next.memory.objects[object as int].value is Thread) by {
            lemma_valid_thread_carries(self.threads[t], self.memory.objects, memory.objects);
            match self.threads[t].object {
                Some(object) => {
                    assert(memory.objects[object as int].value
                        == self.memory.objects[object as int].value);
                },
                None => {},
            }
        }
    }

    proof fn lemma_with_register_sound(self, tid: ThreadId, slot: u32, object: ObjectId)
        requires
            self.sound(),
            self.has_thread(tid),
            ordinary(self.memory.objects, object),
        ensures
            self.with_register(tid, slot, object).sound(),
    {
        let thread = self.thread(tid).with_register(slot, object);
        assert(valid_thread(self.threads[tid as int], self.memory.objects));
        assert forall|j: int| 0 <= j < thread.frames.len() implies valid_locals(
            (#[trigger] thread.frames[j]).locals,
            self.memory.objects,
        ) by {
            assert(thread.frames[j] == self.threads[tid as int].frames[j]);
        }
        self.lemma_with_thread_sound(tid, thread);
    }

    /// A new object that refers to ordinary objects, and that is linked to no
    /// prototype if it stands for a thread while the Thread prototype is not
    /// installed, keeps the memory valid.
    #[verifier::rlimit(50)]
    proof fn lemma_with_new_valid(self, object: ObjectView)
        requires
            self.sound(),
            object.prototype matches Some(p) ==> ordinary(self.memory.objects, p),
            valid_names(object.attributes, self.memory.objects),
            valid_names(object.constants, self.memory.objects),
            object.value is Thread && self.memory.prototype(PrototypeKind::Thread) is None
                ==> object.prototype is None,
        ensures
            valid_memory(self.memory.with_new(object)),
            carries(self.memory.objects, self.memory.with_new(object).objects),
    {
        let before = self.memory.objects;
        let memory = self.memory.with_new(object);
        let after = memory.objects;
        assert forall|i: int| 0 <= i < before.len() implies (#[trigger] after[i]) == before[i] by {}
        assert(carries(before, after)) by {
            assert forall|id: ObjectId| ordinary(before, id) implies #[trigger] ordinary(
                after,
                id,
            ) by {
                assert(after[id as int] == before[id as int]);
            }
        }
        assert forall|i: int| 0 <= i < after.len() implies #[trigger] valid_object(after, i) by {
            if i < before.len() {
                assert(after[i] == before[i]);
                assert(valid_object(before, i));
                lemma_valid_object_carries(before, after, i);
            } else {
                assert(after[i] == object);
                lemma_valid_names_carries(object.attributes, before, after);
                lemma_valid_names_carries(object.constants, before, after);
            }
        }
        assert forall|i: int|
            0 <= i < after.len() && (#[trigger] after[i]).value is Thread && memory.prototype(
                PrototypeKind::Thread,
            ) is None implies after[i].prototype is None by {
            if i < before.len() {
                assert(after[i] == before[i]);
            }
        }
    }

    /// An object changed in what it is called or what it binds, but neither
    /// in its payload nor in its prototype, keeps the memory valid.
    #[verifier::rlimit(50)]
    proof fn lemma_with_object_valid(self, id: ObjectId, object: ObjectView)
        requires
            self.sound(),
            self.memory.contains(id),
            object.value == self.memory.objects[id as int].value,
            object.prototype == self.memory.objects[id as int].prototype,
            valid_names(object.attributes, self.memory.objects),
            valid_names(object.constants, self.memory.objects),
        ensures
            valid_memory(self.memory.with_object(id, object)),
            carries(self.memory.objects, self.memory.with_object(id, object).objects),
    {
        let before = self.memory.objects;
        let memory = self.memory.with_object(id, object);
        let after = memory.objects;
        assert(carries(before, after)) by {
            assert forall|r: ObjectId| ordinary(before, r) implies #[trigger] ordinary(
                after,
                r,
            ) by {
                if r != id {
                    assert(after[r as int] == before[r as int]);
                }
            }
        }
        assert forall|i: int| 0 <= i < after.len() implies #[trigger] valid_object(after, i) by {
            assert(valid_object(before, i));
            if i != id {
                assert(after[i] == before[i]);
                lemma_valid_object_carries(before, after, i);
            } else {
                lemma_valid_names_carries(object.attributes, before, after);
                lemma_valid_names_carries(object.constants, before, after);
            }
        }
        assert forall|i: int|
            0 <= i < after.len() && (#[trigger] after[i]).value is Thread && memory.prototype(
                PrototypeKind::Thread,
            ) is None implies after[i].prototype is None by {
            assert(after[i].value == before[i].value);
            assert(after[i].prototype == before[i].prototype);
        }
    }

    proof fn lemma_allocated_sound(
        self,
        tid: ThreadId,
        slot: u32,
        value: ValueView,
        prototype: Option<ObjectId>,
    )
        requires
            self.sound(),
            self.has_thread(tid),
            self.roomy(1),
            !(value is Thread),
            prototype matches Some(p) ==> ordinary(self.memory.objects, p),
        ensures
            self.allocated(tid, slot, value, prototype).sound(),
    {
        let object = ObjectView::fresh(value, prototype);
        self.lemma_with_new_valid(object);
        let grown = self.with_memory(self.memory.with_new(object));
        self.lemma_with_memory_sound(self.memory.with_new(object));
        assert(grown.memory.objects[self.memory.next_id() as int] == object);
        grown.lemma_with_register_sound(tid, slot, self.memory.next_id());
    }

    proof fn lemma_with_frame_sound(self, tid: ThreadId, frame: FrameView)
        requires
            self.sound(),
            self.runnable(tid),
            valid_locals(frame.locals, self.memory.objects),
        ensures
            self.with_thread(tid, self.thread(tid).with_frame(frame)).sound(),
    {
        let old_thread = self.threads[tid as int];
        let thread = old_thread.with_frame(frame);
        assert(valid_thread(old_thread, self.memory.objects));
        assert forall|j: int| 0 <= j < thread.frames.len() implies valid_locals(
            (#[trigger] thread.frames[j]).locals,
            self.memory.objects,
        ) by {
            if j < thread.frames.len() - 1 {
                assert(thread.frames[j] == old_thread.frames[j]);
            }
        }
        self.lemma_with_thread_sound(tid, thread);
    }

    proof fn lemma_calling_sound(
        self,
        tid: ThreadId,
        code: RcCompiledCode,
        objects: Seq<ObjectId>,
        return_to: Option<u32>,
    )
        requires
            self.sound(),
            self.has_thread(tid),
            forall|k: int|
                0 <= k < objects.len() ==> ordinary(self.memory.objects, #[trigger] objects[k]),
        ensures
            self.calling(tid, code, as_locals(objects), return_to).sound(),
    {
        let old_thread = self.threads[tid as int];
        let frame = FrameView::entering(code, as_locals(objects), return_to);
        let thread = old_thread.pushed(frame);
        assert(valid_thread(old_thread, self.memory.objects));
        assert forall|j: int| 0 <= j < thread.frames.len() implies valid_locals(
            (#[trigger] thread.frames[j]).locals,
            self.memory.objects,
        ) by {
            if j < thread.frames.len() - 1 {
                assert(thread.frames[j] == old_thread.frames[j]);
            } else {
                assert forall|i: int|
                    0 <= i < frame.locals.len() && (#[trigger] frame.locals[i]) is Some
                        implies ordinary(
                    self.memory.objects,
                    frame.locals[i]->0,
                ) by {
                    assert(frame.locals[i] == Some(objects[i]));
                }
            }
        }
        self.lemma_with_thread_sound(tid, thread);
    }

    /// Installing an ordinary object as a prototype that was not installed
    /// keeps a machine sound.
    #[verifier::rlimit(50)]
    proof fn lemma_installing_sound(self, kind: PrototypeKind, object: ObjectId)
        requires
            self.sound(),
            self.roomy(1),
            ordinary(self.memory.objects, object),
            self.memory.prototype(kind) is None,
        ensures
            self.with_memory(self.installing(kind, object)).sound(),
            self.installing(kind, object).objects.len() <= self.memory.objects.len() + 1,
    {
        let before = self.memory.objects;
        let installed = self.memory.installed(kind, object);
        // First the prototype and, for True and False, the singleton.
        let with_slot = MachineView {
            memory: MemoryView { prototypes: self.memory.prototypes.insert(kind, object),
                ..self.memory },
            ..self
        };
        assert(with_slot.sound()) by {
            assert forall|i: int| 0 <= i < before.len() implies #[trigger] valid_object(
                with_slot.memory.objects,
                i,
            ) by {
                assert(valid_object(before, i));
            }
            assert forall|k: PrototypeKind| with_slot.memory.prototypes.contains_key(k)
                implies ordinary(
                before,
                #[trigger] with_slot.memory.prototypes[k],
            ) by {
                if k != kind {
                    assert(self.memory.prototypes.contains_key(k));
                }
            }
            if kind != PrototypeKind::Thread {
                assert(with_slot.memory.prototype(PrototypeKind::Thread)
                    == self.memory.prototype(PrototypeKind::Thread));
            }
            assert forall|t: int| 0 <= t < self.threads.len() implies valid_thread(
                #[trigger] with_slot.threads[t],
                with_slot.memory.objects,
            ) by {
                assert(valid_thread(self.threads[t], before));
            }
        }
        if kind == PrototypeKind::True || kind == PrototypeKind::False {
            let singleton = ObjectView::fresh(ValueView::Empty, Some(object));
            with_slot.lemma_with_new_valid(singleton);
            let grown = with_slot.memory.with_new(singleton);
            assert(grown.objects[before.len() as int] == singleton);
            assert(ordinary(grown.objects, before.len() as ObjectId));
            assert(valid_memory(installed)) by {
                assert(installed.objects == grown.objects);
                assert(installed.prototypes == grown.prototypes);
            }
            assert(carries(before, installed.objects));
            self.lemma_with_memory_sound(installed);
        } else if kind == PrototypeKind::Thread {
            let memory = self.installing(kind, object);
            let after = memory.objects;
            let count = self.threads.len() as int;
            assert forall|i: int| 0 <= i < before.len() && stands_for_live_thread(
                self.threads,
                count,
                i,
            ) implies before[i].value is Thread && before[i].prototype is None by {
                let t = choose|t: int|
                    0 <= t < count && t < self.threads.len() && (#[trigger] self.threads[t]).live
                        && self.threads[t].object is Some && self.threads[t].object->0 == i;
                assert(self.threads[t].object matches Some(o) ==> o < before.len()
                    && before[o as int].value is Thread);
            }
            assert(carries(before, after)) by {
                assert forall|id: ObjectId| ordinary(before, id) implies #[trigger] ordinary(
                    after,
                    id,
                ) by {
                    if stands_for_live_thread(self.threads, count, id as int) {
                        assert(before[id as int].value is Thread);
                    } else {
                        assert(after[id as int] == before[id as int]);
                    }
                }
            }
            assert forall|i: int| 0 <= i < after.len() implies #[trigger] valid_object(
                after,
                i,
            ) by {
                assert(valid_object(before, i));
                lemma_valid_names_carries(before[i].attributes, before, after);
                lemma_valid_names_carries(before[i].constants, before, after);
            }
            assert forall|k: PrototypeKind| memory.prototypes.contains_key(k) implies ordinary(
                after,
                #[trigger] memory.prototypes[k],
            ) by {
                assert(with_slot.memory.prototypes.contains_key(k));
            }
            self.lemma_with_memory_sound(memory);
        } else {
            assert(installed == with_slot.memory);
        }
    }

    /// Starting a thread keeps a machine sound.
    #[verifier::rlimit(50)]
    pub proof fn lemma_spawned_sound(self, code: RcCompiledCode, main: bool)
        requires
            self.sound(),
            self.roomy(1),
        ensures
            self.spawned(code, main).sound(),
            self.spawned(code, main).memory.objects.len() == self.memory.objects.len() + 1,
            self.memory.prototype(PrototypeKind::Thread) is Some ==> ordinary(
                self.spawned(code, main).memory.objects,
                self.memory.next_id(),
            ),
    {
        let next = self.spawned(code, main);
        let object = ObjectView {
            pinned: true,
            ..ObjectView::fresh(
                ValueView::Thread(self.threads.len() as ThreadId),
                self.memory.prototype(PrototypeKind::Thread),
            )
        };
        self.lemma_with_new_valid(object);
        assert(next.memory == self.memory.with_new(object));
        assert(next.memory.objects[self.memory.objects.len() as int] == object);
        assert forall|t: int| 0 <= t < next.threads.len() implies valid_thread(
            #[trigger] next.threads[t],
            next.memory.objects,
        ) && (next.threads[t].object matches Some(o) ==> o < next.memory.objects.len()
            && next.memory.objects[o as int].value is Thread) by {
            if t < self.threads.len() {
                assert(next.threads[t] == self.threads[t]);
                lemma_valid_thread_carries(
                    self.threads[t],
                    self.memory.objects,
                    next.memory.objects,
                );
                match self.threads[t].object {
                    Some(o) => {
                        assert(next.memory.objects[o as int].value
                            == self.memory.objects[o as int].value);
                    },
                    None => {},
                }
            } else {
                let thread = next.threads[t];
                assert forall|j: int| 0 <= j < thread.frames.len() implies valid_locals(
                    (#[trigger] thread.frames[j]).locals,
                    next.memory.objects,
                ) by {
                    assert(thread.frames[j].locals.len() == 0);
                }
            }
        }
    }

    proof fn lemma_at_sound(self, tid: ThreadId, ip: usize)
        requires
            self.sound(),
            self.runnable(tid),
        ensures
            self.at(tid, ip).sound(),
            self.at(tid, ip).runnable(tid),
            self.at(tid, ip).memory == self.memory,
    {
        let thread = self.threads[tid as int];
        let frame = thread.frame();
        assert(valid_thread(thread, self.memory.objects));
        assert(frame == thread.frames[thread.frames.len() - 1]);
        self.lemma_with_frame_sound(tid, FrameView { ip, ..frame });
    }

    #[verifier::rlimit(50)]
    proof fn lemma_completed_sound(self, tid: ThreadId, value: Option<ObjectId>)
        requires
            self.sound(),
            self.runnable(tid),
            value matches Some(object) ==> ordinary(self.memory.objects, object),
        ensures
            self.completed(tid, value).0.sound(),
            self.completed(tid, value).0.memory == self.memory,
    {
        let thread = self.threads[tid as int];
        let frame = thread.frame();
        assert(valid_thread(thread, self.memory.objects));
        if frame.return_to is Some && thread.frames.len() > 1 {
            let caller = thread.popped();
            assert forall|j: int| 0 <= j < caller.frames.len() implies valid_locals(
                (#[trigger] caller.frames[j]).locals,
                self.memory.objects,
            ) by {
                assert(caller.frames[j] == thread.frames[j]);
            }
            self.lemma_with_thread_sound(tid, caller);
            match value {
                Some(object) => {
                    self.with_thread(tid, caller).lemma_with_register_sound(
                        tid,
                        frame.return_to->0,
                        object,
                    );
                    assert(self.with_thread(tid, caller).with_register(
                        tid,
                        frame.return_to->0,
                        object,
                    ) =~= self.completed(tid, value).0);
                },
                None => {},
            }
        } else {
            self.lemma_at_sound(tid, frame.code.instructions@.len() as usize);
        }
    }

    proof fn lemma_set_literal_sound(
        self,
        tid: ThreadId,
        code: CompiledCode,
        ins: Instruction,
        pool: LiteralPool,
    )
        requires
            self.sound(),
            self.runnable(tid),
            self.roomy(1),
        ensures
            self.set_literal(tid, code, ins, pool) matches Ok(next)
                ==> next.sound() && next.memory.objects.len()
                <= self.memory.objects.len() + 1,
    {
        if self.set_literal(tid, code, ins, pool) is Ok {
            let value = literal(code, pool, ins.arguments@[1])->0;
            let prototype = self.memory.prototype(pool_prototype(pool));
            assert(self.memory.prototypes.contains_key(pool_prototype(pool)));
            self.lemma_allocated_sound(tid, ins.arguments@[0], value, prototype);
        }
    }

    proof fn lemma_set_object_sound(
        self,
        tid: ThreadId,
        ins: Instruction,
    )
        requires
            self.sound(),
            self.runnable(tid),
            self.roomy(1),
        ensures
            self.set_object(tid, ins) matches Ok(next) ==> next.sound() && next.memory.objects.len()
                <= self.memory.objects.len() + 1,
    {
        if self.set_object(tid, ins) is Ok {
            assert(valid_thread(self.threads[tid as int], self.memory.objects));
            if ins.arguments@.len() == 1 {
                self.lemma_allocated_sound(tid, ins.arguments@[0], ValueView::Empty, None);
            } else {
                let prototype = self.thread(tid).register(ins.arguments@[1]);
                self.lemma_allocated_sound(tid, ins.arguments@[0], ValueView::Empty, prototype);
            }
        }
    }

    proof fn lemma_set_array_sound(
        self,
        tid: ThreadId,
        ins: Instruction,
    )
        requires
            self.sound(),
            self.runnable(tid),
            self.roomy(1),
        ensures
            self.set_array(tid, ins) matches Ok(next) ==> next.sound() && next.memory.objects.len()
                <= self.memory.objects.len() + 1,
    {
        if self.set_array(tid, ins) is Ok {
            let values = collected(self.thread(tid), ins, 2, ins.arguments@[1] as nat)->Ok_0;
            assert(self.memory.prototypes.contains_key(PrototypeKind::Array));
            self.lemma_allocated_sound(
                tid,
                ins.arguments@[0],
                ValueView::Array(values),
                self.memory.prototype(PrototypeKind::Array),
            );
        }
    }

    proof fn lemma_set_name_sound(
        self,
        tid: ThreadId,
        code: CompiledCode,
        ins: Instruction,
    )
        requires
            self.sound(),
            self.runnable(tid),
            self.roomy(1),
        ensures
            self.set_name(tid, code, ins) matches Ok(next)
                ==> next.sound() && next.memory.objects.len()
                <= self.memory.objects.len() + 1,
    {
        if self.set_name(tid, code, ins) is Ok {
            let object = self.read_object(tid, ins.arguments@[0])->Ok_0;
            let name = code.string_literals@[ins.arguments@[1] as int];
            let changed = ObjectView { name: Some(name@), ..self.memory.objects[object as int] };
            assert(valid_object(self.memory.objects, object as int));
            self.lemma_with_object_valid(object, changed);
            self.lemma_with_memory_sound(self.memory.with_object(object, changed));
        }
    }

    proof fn lemma_set_prototype_sound(
        self,
        tid: ThreadId,
        ins: Instruction,
        kind: PrototypeKind,
    )
        requires
            self.sound(),
            self.runnable(tid),
            self.roomy(1),
        ensures
            self.set_prototype(tid, ins, kind) matches Ok(next)
                ==> next.sound() && next.memory.objects.len()
                <= self.memory.objects.len() + 1,
    {
        if self.set_prototype(tid, ins, kind) is Ok {
            assert(valid_thread(self.threads[tid as int], self.memory.objects));
            let object = self.read(tid, ins.arguments@[0])->Ok_0;
            self.lemma_installing_sound(kind, object);
        }
    }

    proof fn lemma_set_singleton_sound(
        self,
        tid: ThreadId,
        ins: Instruction,
        truth: bool,
    )
        requires
            self.sound(),
            self.runnable(tid),
            self.roomy(1),
        ensures
            self.set_singleton(tid, ins, truth) matches Ok(next)
                ==> next.sound() && next.memory.objects.len()
                <= self.memory.objects.len() + 1,
    {
        if self.set_singleton(tid, ins, truth) is Ok {
            let object = self.singleton(truth)->Ok_0;
            self.lemma_with_register_sound(tid, ins.arguments@[0], object);
        }
    }

    proof fn lemma_set_local_sound(
        self,
        tid: ThreadId,
        ins: Instruction,
    )
        requires
            self.sound(),
            self.runnable(tid),
            self.roomy(1),
        ensures
            self.set_local(tid, ins) matches Ok(next) ==> next.sound() && next.memory.objects.len()
                <= self.memory.objects.len() + 1,
    {
        if self.set_local(tid, ins) is Ok {
            let thread = self.threads[tid as int];
            assert(valid_thread(thread, self.memory.objects));
            let frame = thread.frame();
            assert(frame == thread.frames[thread.frames.len() - 1]);
            let object = self.read(tid, ins.arguments@[1])->Ok_0;
            let locals = frame.locals_with(ins.arguments@[0] as int, object);
            assert(valid_locals(locals, self.memory.objects));
            self.lemma_with_frame_sound(tid, FrameView { locals, ..frame });
        }
    }

    proof fn lemma_get_local_sound(
        self,
        tid: ThreadId,
        ins: Instruction,
    )
        requires
            self.sound(),
            self.runnable(tid),
            self.roomy(1),
        ensures
            self.get_local(tid, ins) matches Ok(next) ==> next.sound() && next.memory.objects.len()
                <= self.memory.objects.len() + 1,
    {
        if self.get_local(tid, ins) is Ok {
            let thread = self.threads[tid as int];
            assert(valid_thread(thread, self.memory.objects));
            let frame = thread.frame();
            assert(frame == thread.frames[thread.frames.len() - 1]);
            let object = frame.local(ins.arguments@[1] as int)->0;
            assert(frame.locals[ins.arguments@[1] as int] is Some);
            self.lemma_with_register_sound(tid, ins.arguments@[0], object);
        }
    }

    proof fn lemma_set_const_sound(
        self,
        tid: ThreadId,
        code: CompiledCode,
        ins: Instruction,
    )
        requires
            self.sound(),
            self.runnable(tid),
            self.roomy(1),
        ensures
            self.set_const(tid, code, ins) matches Ok(next)
                ==> next.sound() && next.memory.objects.len()
                <= self.memory.objects.len() + 1,
    {
        if self.set_const(tid, code, ins) is Ok {
            assert(valid_thread(self.threads[tid as int], self.memory.objects));
            let target = self.read_object(tid, ins.arguments@[0])->Ok_0;
            let source = self.read(tid, ins.arguments@[1])->Ok_0;
            let name = code.string_literals@[ins.arguments@[2] as int];
            let object = self.memory.objects[target as int];
            let changed = ObjectView { constants: object.constants.insert(name@, source), ..object
                };
            assert(valid_object(self.memory.objects, target as int));
            self.lemma_with_object_valid(target, changed);
            self.lemma_with_memory_sound(self.memory.with_object(target, changed));
        }
    }

    proof fn lemma_set_attr_sound(
        self,
        tid: ThreadId,
        code: CompiledCode,
        ins: Instruction,
    )
        requires
            self.sound(),
            self.runnable(tid),
            self.roomy(1),
        ensures
            self.set_attr(tid, code, ins) matches Ok(next)
                ==> next.sound() && next.memory.objects.len()
                <= self.memory.objects.len() + 1,
    {
        if self.set_attr(tid, code, ins) is Ok {
            assert(valid_thread(self.threads[tid as int], self.memory.objects));
            let target = self.read_object(tid, ins.arguments@[0])->Ok_0;
            let source = self.read(tid, ins.arguments@[1])->Ok_0;
            let name = code.string_literals@[ins.arguments@[2] as int];
            let object = self.memory.objects[target as int];
            let changed = ObjectView { attributes: object.attributes.insert(name@, source),
                ..object };
            assert(valid_object(self.memory.objects, target as int));
            self.lemma_with_object_valid(target, changed);
            self.lemma_with_memory_sound(self.memory.with_object(target, changed));
        }
    }

    proof fn lemma_get_const_sound(
        self,
        tid: ThreadId,
        code: CompiledCode,
        ins: Instruction,
    )
        requires
            self.sound(),
            self.runnable(tid),
            self.roomy(1),
        ensures
            self.get_const(tid, code, ins) matches Ok(next)
                ==> next.sound() && next.memory.objects.len()
                <= self.memory.objects.len() + 1,
    {
        if self.get_const(tid, code, ins) is Ok {
            let source = self.read_object(tid, ins.arguments@[1])->Ok_0;
            let name = code.string_literals@[ins.arguments@[2] as int];
            let object = self.memory.objects[source as int];
            assert(valid_object(self.memory.objects, source as int));
            self.lemma_with_register_sound(tid, ins.arguments@[0], object.constants[name@]);
        }
    }

    proof fn lemma_get_attr_sound(
        self,
        tid: ThreadId,
        code: CompiledCode,
        ins: Instruction,
    )
        requires
            self.sound(),
            self.runnable(tid),
            self.roomy(1),
        ensures
            self.get_attr(tid, code, ins) matches Ok(next)
                ==> next.sound() && next.memory.objects.len()
                <= self.memory.objects.len() + 1,
    {
        if self.get_attr(tid, code, ins) is Ok {
            let source = self.read_object(tid, ins.arguments@[1])->Ok_0;
            let name = code.string_literals@[ins.arguments@[2] as int];
            lemma_resolved_attribute_valid(
                self.memory,
                source,
                name@,
                self.memory.objects.len() + 1,
            );
            let object = self.memory.lookup_attribute(source, name@)->0;
            self.lemma_with_register_sound(tid, ins.arguments@[0], object);
        }
    }

    proof fn lemma_def_method_sound(
        self,
        tid: ThreadId,
        code: CompiledCode,
        ins: Instruction,
    )
        requires
            self.sound(),
            self.runnable(tid),
            self.roomy(1),
        ensures
            self.def_method(tid, code, ins) matches Ok(next)
                ==> next.sound() && next.memory.objects.len()
                <= self.memory.objects.len() + 1,
    {
        if self.def_method(tid, code, ins) is Ok {
            let receiver = self.read_object(tid, ins.arguments@[0])->Ok_0;
            let name = code.string_literals@[ins.arguments@[1] as int];
            let method = code.code_objects@[ins.arguments@[2] as int];
            let object = self.memory.objects[receiver as int];
            let changed = ObjectView { methods: object.methods.insert(name@, method), ..object };
            assert(valid_object(self.memory.objects, receiver as int));
            self.lemma_with_object_valid(receiver, changed);
            self.lemma_with_memory_sound(self.memory.with_object(receiver, changed));
        }
    }

    proof fn lemma_get_toplevel_sound(
        self,
        tid: ThreadId,
        ins: Instruction,
    )
        requires
            self.sound(),
            self.runnable(tid),
            self.roomy(1),
        ensures
            self.get_toplevel(tid, ins) matches Ok(next)
                ==> next.sound() && next.memory.objects.len()
                <= self.memory.objects.len() + 1,
    {
        if self.get_toplevel(tid, ins) is Ok {
            self.lemma_with_register_sound(tid, ins.arguments@[0], self.memory.top_level);
        }
    }

    proof fn lemma_integer_arithmetic_sound(
        self,
        tid: ThreadId,
        ins: Instruction,
        op: Arithmetic,
    )
        requires
            self.sound(),
            self.runnable(tid),
            self.roomy(1),
        ensures
            self.integer_arithmetic(tid, ins, op) matches Ok(next)
                ==> next.sound() && next.memory.objects.len()
                <= self.memory.objects.len() + 1,
    {
        if self.integer_arithmetic(tid, ins, op) is Ok {
            let (a, b) = self.integer_operands(tid, ins, true)->Ok_0;
            let result = arithmetic(op, a, b)->0;
            assert(self.memory.prototypes.contains_key(PrototypeKind::Integer));
            self.lemma_allocated_sound(
                tid,
                ins.arguments@[0],
                ValueView::Integer(result),
                self.memory.prototype(PrototypeKind::Integer),
            );
        }
    }

    proof fn lemma_integer_comparison_sound(
        self,
        tid: ThreadId,
        ins: Instruction,
        comparison: Comparison,
    )
        requires
            self.sound(),
            self.runnable(tid),
            self.roomy(1),
        ensures
            self.integer_comparison(tid, ins, comparison) matches Ok(next)
                ==> next.sound() && next.memory.objects.len()
                <= self.memory.objects.len() + 1,
    {
        if self.integer_comparison(tid, ins, comparison) is Ok {
            let (a, b) = self.integer_operands(tid, ins, false)->Ok_0;
            let object = self.singleton(compares(comparison, a, b))->Ok_0;
            self.lemma_with_register_sound(tid, ins.arguments@[0], object);
        }
    }

    proof fn lemma_integer_to_float_sound(
        self,
        tid: ThreadId,
        ins: Instruction,
    )
        requires
            self.sound(),
            self.runnable(tid),
            self.roomy(1),
        ensures
            self.integer_to_float(tid, ins) matches Ok(next)
                ==> next.sound() && next.memory.objects.len()
                <= self.memory.objects.len() + 1,
    {
        if self.integer_to_float(tid, ins) is Ok {
            let i = self.conversion_operand(tid, ins, PrototypeKind::Float)->Ok_0;
            assert(self.memory.prototypes.contains_key(PrototypeKind::Float));
            self.lemma_allocated_sound(
                tid,
                ins.arguments@[0],
                ValueView::Float(float_bits(i as int)),
                self.memory.prototype(PrototypeKind::Float),
            );
        }
    }

    proof fn lemma_integer_to_string_sound(
        self,
        tid: ThreadId,
        ins: Instruction,
    )
        requires
            self.sound(),
            self.runnable(tid),
            self.roomy(1),
        ensures
            self.integer_to_string(tid, ins) matches Ok(next)
                ==> next.sound() && next.memory.objects.len()
                <= self.memory.objects.len() + 1,
    {
        if self.integer_to_string(tid, ins) is Ok {
            let i = self.conversion_operand(tid, ins, PrototypeKind::String)->Ok_0;
            assert(self.memory.prototypes.contains_key(PrototypeKind::String));
            self.lemma_allocated_sound(
                tid,
                ins.arguments@[0],
                ValueView::String(decimal(i as int)),
                self.memory.prototype(PrototypeKind::String),
            );
        }
    }

    proof fn lemma_start_thread_sound(
        self,
        tid: ThreadId,
        code: CompiledCode,
        ins: Instruction,
    )
        requires
            self.sound(),
            self.runnable(tid),
            self.roomy(1),
        ensures
            self.start_thread(tid, code, ins) matches Ok(next)
                ==> next.sound() && next.memory.objects.len()
                <= self.memory.objects.len() + 1,
    {
        if self.start_thread(tid, code, ins) is Ok {
            let entry = code.code_objects@[ins.arguments@[1] as int];
            self.lemma_spawned_sound(entry, false);
            self.spawned(entry, false).lemma_with_register_sound(
                tid,
                ins.arguments@[0],
                self.memory.next_id(),
            );
        }
    }

    proof fn lemma_send_sound(
        self,
        tid: ThreadId,
        code: CompiledCode,
        ins: Instruction,
    )
        requires
            self.sound(),
            self.runnable(tid),
            self.roomy(1),
        ensures
            self.send(tid, code, ins) matches Ok(next) ==> next.sound() && next.memory.objects.len()
                <= self.memory.objects.len() + 1,
    {
        if self.send(tid, code, ins) is Ok {
            assert(valid_thread(self.threads[tid as int], self.memory.objects));
            let name = code.string_literals@[ins.arguments@[2] as int];
            let receiver = self.read(tid, ins.arguments@[1])->Ok_0;
            let arguments = collected(self.thread(tid), ins, 5, ins.arguments@[4] as nat)->Ok_0;
            lemma_collected_valid(
                self.thread(tid),
                ins,
                5,
                ins.arguments@[4] as nat,
                self.memory.objects,
            );
            let method = self.memory.lookup_method(receiver, name@)->0;
            let objects = seq![receiver] + arguments;
            assert forall|k: int| 0 <= k < objects.len() implies ordinary(
                self.memory.objects,
                #[trigger] objects[k],
            ) by {
                if k > 0 {
                    assert(objects[k] == arguments[k - 1]);
                }
            }
            self.lemma_calling_sound(tid, method, objects, Some(ins.arguments@[0]));
        }
    }

    proof fn lemma_run_code_sound(
        self,
        tid: ThreadId,
        code: CompiledCode,
        ins: Instruction,
    )
        requires
            self.sound(),
            self.runnable(tid),
            self.roomy(1),
        ensures
            self.run_code(tid, code, ins) matches Ok(next)
                ==> next.sound() && next.memory.objects.len()
                <= self.memory.objects.len() + 1,
    {
        if self.run_code(tid, code, ins) is Ok {
            let callee = code.code_objects@[ins.arguments@[1] as int];
            let arguments = collected(self.thread(tid), ins, 3, ins.arguments@[2] as nat)->Ok_0;
            lemma_collected_valid(
                self.thread(tid),
                ins,
                3,
                ins.arguments@[2] as nat,
                self.memory.objects,
            );
            self.lemma_calling_sound(tid, callee, arguments, Some(ins.arguments@[0]));
        }
    }

    /// An instruction keeps a sound machine sound.
    #[verifier::rlimit(50)]
    pub proof fn lemma_dispatched_sound(self, tid: ThreadId, code: CompiledCode, ins: Instruction)
        requires
            self.sound(),
            self.runnable(tid),
            self.roomy(1),
        ensures
            self.dispatched(tid, code, ins) matches Ok((next, _)) ==> next.sound()
                && next.memory.objects.len() <= self.memory.objects.len() + 1,
    {
        reveal(MachineView::dispatched);
        match ins.instruction_type {
            InstructionType::SetInteger => {
                self.lemma_set_literal_sound(tid, code, ins, LiteralPool::Integer);
            },
            InstructionType::SetFloat => {
                self.lemma_set_literal_sound(tid, code, ins, LiteralPool::Float);
            },
            InstructionType::SetString => {
                self.lemma_set_literal_sound(tid, code, ins, LiteralPool::String);
            },
            InstructionType::SetObject => {
                self.lemma_set_object_sound(tid, ins);
            },
            InstructionType::SetArray => {
                self.lemma_set_array_sound(tid, ins);
            },
            InstructionType::SetName => {
                self.lemma_set_name_sound(tid, code, ins);
            },
            InstructionType::SetIntegerPrototype => {
                self.lemma_set_prototype_sound(tid, ins, PrototypeKind::Integer);
            },
            InstructionType::SetFloatPrototype => {
                self.lemma_set_prototype_sound(tid, ins, PrototypeKind::Float);
            },
            InstructionType::SetStringPrototype => {
                self.lemma_set_prototype_sound(tid, ins, PrototypeKind::String);
            },
            InstructionType::SetArrayPrototype => {
                self.lemma_set_prototype_sound(tid, ins, PrototypeKind::Array);
            },
            InstructionType::SetThreadPrototype => {
                self.lemma_set_prototype_sound(tid, ins, PrototypeKind::Thread);
            },
            InstructionType::SetTruePrototype => {
                self.lemma_set_prototype_sound(tid, ins, PrototypeKind::True);
            },
            InstructionType::SetFalsePrototype => {
                self.lemma_set_prototype_sound(tid, ins, PrototypeKind::False);
            },
            InstructionType::SetBlockPrototype => {
                self.lemma_set_prototype_sound(tid, ins, PrototypeKind::Block);
            },
            InstructionType::SetBooleanPrototype => {
                self.lemma_set_prototype_sound(tid, ins, PrototypeKind::Boolean);
            },
            InstructionType::SetTrue => {
                self.lemma_set_singleton_sound(tid, ins, true);
            },
            InstructionType::SetFalse => {
                self.lemma_set_singleton_sound(tid, ins, false);
            },
            InstructionType::SetLocal => {
                self.lemma_set_local_sound(tid, ins);
            },
            InstructionType::GetLocal => {
                self.lemma_get_local_sound(tid, ins);
            },
            InstructionType::SetConst => {
                self.lemma_set_const_sound(tid, code, ins);
            },
            InstructionType::GetConst => {
                self.lemma_get_const_sound(tid, code, ins);
            },
            InstructionType::SetAttr => {
                self.lemma_set_attr_sound(tid, code, ins);
            },
            InstructionType::GetAttr => {
                self.lemma_get_attr_sound(tid, code, ins);
            },
            InstructionType::Send => {
                self.lemma_send_sound(tid, code, ins);
            },
            InstructionType::DefMethod => {
                self.lemma_def_method_sound(tid, code, ins);
            },
            InstructionType::RunCode => {
                self.lemma_run_code_sound(tid, code, ins);
            },
            InstructionType::GetToplevel => {
                self.lemma_get_toplevel_sound(tid, ins);
            },
            InstructionType::IntegerAdd => {
                self.lemma_integer_arithmetic_sound(tid, ins, Arithmetic::Add);
            },
            InstructionType::IntegerDiv => {
                self.lemma_integer_arithmetic_sound(tid, ins, Arithmetic::Div);
            },
            InstructionType::IntegerMul => {
                self.lemma_integer_arithmetic_sound(tid, ins, Arithmetic::Mul);
            },
            InstructionType::IntegerSub => {
                self.lemma_integer_arithmetic_sound(tid, ins, Arithmetic::Sub);
            },
            InstructionType::IntegerMod => {
                self.lemma_integer_arithmetic_sound(tid, ins, Arithmetic::Mod);
            },
            InstructionType::IntegerToFloat => {
                self.lemma_integer_to_float_sound(tid, ins);
            },
            InstructionType::IntegerToString => {
                self.lemma_integer_to_string_sound(tid, ins);
            },
            InstructionType::IntegerBitwiseAnd => {
                self.lemma_integer_arithmetic_sound(tid, ins, Arithmetic::BitwiseAnd);
            },
            InstructionType::IntegerBitwiseOr => {
                self.lemma_integer_arithmetic_sound(tid, ins, Arithmetic::BitwiseOr);
            },
            InstructionType::IntegerBitwiseXor => {
                self.lemma_integer_arithmetic_sound(tid, ins, Arithmetic::BitwiseXor);
            },
            InstructionType::IntegerShiftLeft => {
                self.lemma_integer_arithmetic_sound(tid, ins, Arithmetic::ShiftLeft);
            },
            InstructionType::IntegerShiftRight => {
                self.lemma_integer_arithmetic_sound(tid, ins, Arithmetic::ShiftRight);
            },
            InstructionType::IntegerSmaller => {
                self.lemma_integer_comparison_sound(tid, ins, Comparison::Smaller);
            },
            InstructionType::IntegerGreater => {
                self.lemma_integer_comparison_sound(tid, ins, Comparison::Greater);
            },
            InstructionType::IntegerEqual => {
                self.lemma_integer_comparison_sound(tid, ins, Comparison::Equal);
            },
            InstructionType::StartThread => {
                self.lemma_start_thread_sound(tid, code, ins);
            },
            InstructionType::Return => {
                assert(valid_thread(self.threads[tid as int], self.memory.objects));
                match self.returned(tid, ins) {
                    Ok(value) => {
                        self.lemma_completed_sound(tid, value);
                    },
                    _ => {},
                }
            },
            InstructionType::GotoIfFalse => {
                match self.goto_if(tid, ins, false) {
                    Ok(Some(target)) => {
                        self.lemma_at_sound(tid, target);
                    },
                    _ => {},
                }
            },
            InstructionType::GotoIfTrue => {
                match self.goto_if(tid, ins, true) {
                    Ok(Some(target)) => {
                        self.lemma_at_sound(tid, target);
                    },
                    _ => {},
                }
            },
            InstructionType::Goto => {
                match Self::goto(ins) {
                    Ok(target) => {
                        self.lemma_at_sound(tid, target);
                    },
                    _ => {},
                }
            },
        }
    }

    /// A step keeps a sound machine sound, and creates one object at most.
    #[verifier::rlimit(50)]
    pub proof fn lemma_stepped_sound(self, tid: ThreadId)
        requires
            self.sound(),
            self.well_formed(),
            self.roomy(1),
        ensures
            self.stepped(tid) matches Ok((next, _)) ==> next.sound()
                && next.memory.objects.len() <= self.memory.objects.len() + 1,
    {
        if self.has_thread(tid) {
            assert(self.threads[tid as int].frames.len() > 0);
            let frame = self.thread(tid).frame();
            if self.thread(tid).stop {
            } else if frame.at_end() {
                self.lemma_completed_sound(tid, None);
            } else {
                self.lemma_at_sound(tid, (frame.ip + 1) as usize);
                self.at(tid, (frame.ip + 1) as usize).lemma_dispatched_sound(
                    tid,
                    frame.program(),
                    frame.next_instruction(),
                );
            }
        }
    }

    /// In a sound machine every written register names an object of the heap,
    /// so that no instruction finds a register whose object is missing.
    pub proof fn lemma_sound_registers_name_objects(self, tid: ThreadId, slot: u32)
        requires
            self.sound(),
            self.has_thread(tid),
        ensures
            self.thread(tid).register(slot) matches Some(object) ==> self.memory.contains(object),
            self.read_object(tid, slot) == self.read(tid, slot),
    {
        assert(valid_thread(self.threads[tid as int], self.memory.objects));
    }

    /// Running a thread keeps a sound machine sound, and creates one object
    /// for each step at most.
    pub proof fn lemma_resumed_sound(self, tid: ThreadId, fuel: nat)
        requires
            self.sound(),
            self.well_formed(),
            self.roomy(fuel),
        ensures
            self.resumed(tid, fuel).0.sound(),
            self.resumed(tid, fuel).0.memory.objects.len() <= self.memory.objects.len() + fuel,
        decreases fuel,
    {
        if fuel > 0 && self.has_thread(tid) {
            self.lemma_stepped_sound(tid);
            self.lemma_stepped_well_formed(tid);
            match self.stepped(tid) {
                Ok((next, Step::Continue)) => {
                    next.lemma_resumed_sound(tid, (fuel - 1) as nat);
                },
                _ => {},
            }
        }
    }

    /// Ending a thread keeps a machine sound and well formed.
    #[verifier::rlimit(50)]
    pub proof fn lemma_ended_sound(self, tid: ThreadId, result: Result<Option<ObjectId>, Fault>)
        requires
            self.sound(),
            self.well_formed(),
            self.has_thread(tid),
        ensures
            self.ended(tid, result).sound(),
            self.ended(tid, result).well_formed(),
            self.ended(tid, result).memory.objects.len() == self.memory.objects.len(),
    {
        let next = self.ended(tid, result);
        let before = self.memory.objects;
        let memory = self.unpinned(self.thread(tid).object);
        let after = memory.objects;
        assert(next.memory == memory);
        assert forall|i: int| 0 <= i < before.len() implies (#[trigger] after[i]).value
            == before[i].value && after[i].prototype == before[i].prototype && after[i].attributes
            == before[i].attributes && after[i].constants == before[i].constants by {}
        assert(carries(before, after)) by {
            assert forall|id: ObjectId| ordinary(before, id) implies #[trigger] ordinary(
                after,
                id,
            ) by {
                assert(after[id as int].value == before[id as int].value);
            }
        }
        assert forall|i: int| 0 <= i < after.len() implies #[trigger] valid_object(after, i) by {
            assert(valid_object(before, i));
            assert(after[i].value == before[i].value);
            lemma_valid_object_carries(before, after, i);
        }
        assert forall|i: int|
            0 <= i < after.len() && (#[trigger] after[i]).value is Thread && memory.prototype(
                PrototypeKind::Thread,
            ) is None implies after[i].prototype is None by {
            assert(after[i].value == before[i].value);
        }
        assert forall|t: int| 0 <= t < next.threads.len() implies valid_thread(
            #[trigger] next.threads[t],
            after,
        ) && next.threads[t].frames.len() > 0 && (next.threads[t].object matches Some(o) ==> o
            < after.len() && after[o as int].value is Thread) by {
            let thread = self.threads[t];
            assert(valid_thread(thread, before));
            assert(thread.frames.len() > 0);
            assert(next.threads[t].registers == thread.registers);
            assert(next.threads[t].frames == thread.frames);
            assert(next.threads[t].object == thread.object);
            lemma_valid_thread_carries(thread, before, after);
            match thread.object {
                Some(o) => {
                    assert(after[o as int].value == before[o as int].value);
                },
                None => {},
            }
        }
    }

    /// Starting a thread keeps a machine well formed.
    pub proof fn lemma_spawned_well_formed(self, code: RcCompiledCode, main: bool)
        requires
            self.well_formed(),
        ensures
            self.spawned(code, main).well_formed(),
    {
        let next = self.spawned(code, main);
        assert forall|t: int| 0 <= t < next.threads.len() implies (
        #[trigger] next.threads[t]).frames.len() > 0 by {
            if t < self.threads.len() {
                assert(next.threads[t] == self.threads[t]);
            }
        }
    }

    /// Running the threads of a machine one after the other keeps it sound
    /// and well formed.
    #[verifier::rlimit(50)]
    pub proof fn lemma_drained_sound(self, next: ThreadId, fuel: nat)
        requires
            self.sound(),
            self.well_formed(),
            self.roomy(fuel),
        ensures
            self.drained(next, fuel).0.sound(),
            self.drained(next, fuel).0.well_formed(),
        decreases fuel,
    {
        if next < self.threads.len() && fuel > 0 {
            self.lemma_stepped_sound(next);
            self.lemma_stepped_well_formed(next);
            self.lemma_stepped_frames(next);
            let rest = (fuel - 1) as nat;
            match self.stepped(next) {
                Ok((after, Step::Continue)) => {
                    after.lemma_drained_sound(next, rest);
                },
                Ok((after, Step::Finished(value))) => {
                    after.lemma_ended_sound(next, Ok(value));
                    after.ended(next, Ok(value)).lemma_drained_sound((next + 1) as ThreadId, rest);
                },
                Ok((after, Step::Stopped)) => {
                    after.lemma_ended_sound(next, Ok(None));
                    after.ended(next, Ok(None)).lemma_drained_sound((next + 1) as ThreadId, rest);
                },
                Err(fault) => {
                    self.lemma_ended_sound(next, Err(fault));
                    self.ended(next, Err(fault)).lemma_drained_sound(
                        (next + 1) as ThreadId,
                        rest,
                    );
                },
            }
        }
    }

    /// A machine that starts out sound stays sound while it runs its threads.
    pub proof fn lemma_started_sound(self, code: RcCompiledCode, fuel: nat)
        requires
            self.sound(),
            self.well_formed(),
            self.roomy(fuel + 1),
        ensures
            self.started(code, fuel).0.sound(),
            self.started(code, fuel).0.well_formed(),
    {
        self.lemma_spawned_sound(code, true);
        self.lemma_spawned_well_formed(code, true);
        self.spawned(code, true).lemma_drained_sound(self.threads.len() as ThreadId, fuel);
    }
}

/// A new machine that is started is sound whatever it executes: it refers to
/// objects of its heap only, and its prototype links form no cycle.
pub proof fn lemma_fresh_machine_stays_sound(code: RcCompiledCode, fuel: nat)
    requires
        fuel + 2 <= usize::MAX,
    ensures
        MachineView::initial().started(code, fuel).0.sound(),
{
    lemma_initial_sound();
    MachineView::initial().lemma_started_sound(code, fuel);
}

/// The object reached from `from` by following `steps` prototype links, if
/// there are that many.
pub open spec fn ancestor(objects: Seq<ObjectView>, from: ObjectId, steps: nat) -> Option<ObjectId>
    decreases steps,
{
    if steps == 0 {
        Some(from)
    } else if from < objects.len() {
        match objects[from as int].prototype {
            Some(p) => ancestor(objects, p, (steps - 1) as nat),
            None => None,
        }
    } else {
        None
    }
}

/// From an ordinary object the prototype links lead to ordinary objects that
/// are older and older.
pub proof fn lemma_ancestors_are_older(memory: MemoryView, from: ObjectId, steps: nat)
    requires
        valid_memory(memory),
        ordinary(memory.objects, from),
    ensures
        ancestor(memory.objects, from, steps) matches Some(reached) ==> ordinary(
            memory.objects,
            reached,
        ) && (steps > 0 ==> reached < from),
    decreases steps,
{
    if steps > 0 {
        assert(valid_object(memory.objects, from as int));
        match memory.objects[from as int].prototype {
            Some(p) => {
                lemma_ancestors_are_older(memory, p, (steps - 1) as nat);
            },
            None => {},
        }
    }
}

/// The prototype links of a valid memory form no cycle: no object is its own
/// ancestor.
pub proof fn lemma_no_prototype_cycle(memory: MemoryView, object: ObjectId, steps: nat)
    requires
        valid_memory(memory),
        steps > 0,
    ensures
        ancestor(memory.objects, object, steps) != Some(object),
{
    if object < memory.objects.len() {
        assert(valid_object(memory.objects, object as int));
        match memory.objects[object as int].prototype {
            Some(p) => {
                lemma_ancestors_are_older(memory, p, (steps - 1) as nat);
            },
            None => {},
        }
    }
}

/// Looking a method up from an ordinary object needs no more links than the
/// object has older objects.
proof fn lemma_method_found_in_time(memory: MemoryView, id: ObjectId, name: Seq<char>, fuel: nat)
    requires
        valid_memory(memory),
        ordinary(memory.objects, id),
        fuel > id,
    ensures
        resolve_method(memory.objects, id, name, fuel) == resolve_method(
            memory.objects,
            id,
            name,
            (id + 1) as nat,
        ),
    decreases id,
{
    let object = memory.objects[id as int];
    assert(valid_object(memory.objects, id as int));
    if !object.methods.contains_key(name) {
        match object.prototype {
            Some(p) => {
                lemma_method_found_in_time(memory, p, name, (fuel - 1) as nat);
                lemma_method_found_in_time(memory, p, name, id as nat);
            },
            None => {},
        }
    }
}

/// Looking an attribute up from an ordinary object needs no more links than
/// the object has older objects.
proof fn lemma_attribute_found_in_time(
    memory: MemoryView,
    id: ObjectId,
    name: Seq<char>,
    fuel: nat,
)
    requires
        valid_memory(memory),
        ordinary(memory.objects, id),
        fuel > id,
    ensures
        resolve_attribute(memory.objects, id, name, fuel) == resolve_attribute(
            memory.objects,
            id,
            name,
            (id + 1) as nat,
        ),
    decreases id,
{
    let object = memory.objects[id as int];
    assert(valid_object(memory.objects, id as int));
    if !object.attributes.contains_key(name) {
        match object.prototype {
            Some(p) => {
                lemma_attribute_found_in_time(memory, p, name, (fuel - 1) as nat);
                lemma_attribute_found_in_time(memory, p, name, id as nat);
            },
            None => {},
        }
    }
}

/// In a valid memory a lookup walks the whole chain of prototypes: a walk
/// that may follow more links finds the same.
pub proof fn lemma_lookup_walks_the_whole_chain(
    memory: MemoryView,
    id: ObjectId,
    name: Seq<char>,
    fuel: nat,
)
    requires
        valid_memory(memory),
        fuel > memory.objects.len(),
    ensures
        resolve_method(memory.objects, id, name, fuel) == memory.lookup_method(id, name),
        resolve_attribute(memory.objects, id, name, fuel) == memory.lookup_attribute(id, name),
{
    if id < memory.objects.len() {
        let object = memory.objects[id as int];
        let count = memory.objects.len();
        assert(valid_object(memory.objects, id as int));
        match object.prototype {
            Some(p) => {
                lemma_method_found_in_time(memory, p, name, (fuel - 1) as nat);
                lemma_method_found_in_time(memory, p, name, count);
                lemma_attribute_found_in_time(memory, p, name, (fuel - 1) as nat);
                lemma_attribute_found_in_time(memory, p, name, count);
            },
            None => {},
        }
    }
}

} // verus!
