//! The registry of threads.

use crate::memory_manager::{MemoryManager, MemoryView};
use crate::object::{ObjectId, ObjectView};
use crate::thread::{Thread, ThreadView};
use vstd::prelude::*;

verus! {

/// The identity of a thread: its position in the list that holds it.
pub type ThreadId = usize;

/// Holds every thread of a machine and knows which of them are alive.
///
/// A thread that ended stays in the list, no longer alive, so that its
/// identity stays valid and its value can still be read.
pub struct ThreadList {
    threads: Vec<Thread>,
}

/// Whether `object` stands for one of the first `count` threads that is alive.
pub open spec fn stands_for_live_thread(threads: Seq<ThreadView>, count: int, object: int) -> bool {
    exists|t: int|
        0 <= t < count && t < threads.len() && (#[trigger] threads[t]).live && threads[t].object
            is Some && threads[t].object->0 == object
}

/// The heap after giving `prototype` to the object of every thread among the
/// first `count` that is alive.
pub open spec fn backfilled(
    memory: MemoryView,
    threads: Seq<ThreadView>,
    count: int,
    prototype: ObjectId,
) -> MemoryView {
    MemoryView {
        objects: Seq::new(
            memory.objects.len(),
            |i: int|
                if stands_for_live_thread(threads, count, i) {
                    ObjectView { prototype: Some(prototype), ..memory.objects[i] }
                } else {
                    memory.objects[i]
                },
        ),
        ..memory
    }
}

/// The threads after asking every one that is alive to stop.
pub open spec fn all_stopped(threads: Seq<ThreadView>) -> Seq<ThreadView> {
    Seq::new(
        threads.len(),
        |i: int|
            if threads[i].live {
                ThreadView { stop: true, ..threads[i] }
            } else {
                threads[i]
            },
    )
}

impl View for ThreadList {
    type V = Seq<ThreadView>;

    closed spec fn view(&self) -> Seq<ThreadView> {
        Seq::new(self.threads@.len(), |i: int| self.threads@[i]@)
    }
}

impl ThreadList {
    /// Every thread in the list has a frame.
    pub proof fn lemma_has_frames(self)
        ensures
            forall|t: int| 0 <= t < self@.len() ==> (#[trigger] self@[t]).frames.len() > 0,
    {
        assert forall|t: int| 0 <= t < self@.len() implies (#[trigger] self@[t]).frames.len()
            > 0 by {
            self.threads@[t].lemma_has_frame();
        }
    }

    pub fn new() -> (list: ThreadList)
        ensures
            list@ == Seq::<ThreadView>::empty(),
    {
        ThreadList { threads: Vec::new() }
    }

    pub fn len(&self) -> (n: usize)
        ensures
            n == self@.len(),
    {
        self.threads.len()
    }

    pub fn contains(&self, id: ThreadId) -> (b: bool)
        ensures
            b == (id < self@.len()),
    {
        id < self.threads.len()
    }

    /// Registers `thread` as alive and gives it an identity.
    pub fn add(&mut self, thread: Thread) -> (id: ThreadId)
        ensures
            id == old(self)@.len(),
            final(self)@ == old(self)@.push(ThreadView { live: true, ..thread@ }),
    {
        let mut thread = thread;
        thread.set_live(true);
        let id = self.threads.len();
        self.threads.push(thread);
        id
    }

    /// Marks the thread as no longer alive. Does nothing if there is no such
    /// thread.
    pub fn remove(&mut self, id: ThreadId)
        ensures
            final(self)@ == (if id < old(self)@.len() {
                old(self)@.update(id as int, ThreadView { live: false, ..old(self)@[id as int] })
            } else {
                old(self)@
            }),
    {
        if id < self.threads.len() {
            self.threads[id].set_live(false);
        }
    }

    /// The thread with this identity, if there is one.
    pub fn thread(&self, id: ThreadId) -> (thread: Option<&Thread>)
        ensures
            match thread {
                Some(t) => id < self@.len() && t@ == self@[id as int],
                None => id >= self@.len(),
            },
    {
        if id < self.threads.len() {
            Some(&self.threads[id])
        } else {
            None
        }
    }

    /// The thread with this identity, for changing it in place.
    pub fn thread_mut(&mut self, id: ThreadId) -> (thread: &mut Thread)
        requires
            id < old(self)@.len(),
        ensures
            thread@ == old(self)@[id as int],
            final(self)@ == old(self)@.update(id as int, final(thread)@),
    {
        &mut self.threads[id]
    }

    /// Asks every thread that is alive to stop.
    #[verifier::rlimit(50)]
    pub fn stop(&mut self)
        ensures
            final(self)@ == all_stopped(old(self)@),
    {
        let mut i: usize = 0;
        while i < self.threads.len()
            invariant
                i <= self.threads@.len(),
                self@.len() == old(self)@.len(),
                forall|k: int| 0 <= k < i ==> self@[k] == all_stopped(old(self)@)[k],
                forall|k: int| i <= k < self@.len() ==> self@[k] == old(self)@[k],
            decreases self.threads@.len() - i,
        {
            let ghost before = self@;
            if self.threads[i].is_live() {
                self.threads[i].stop();
            }
            assert(self@ =~= before.update(i as int, all_stopped(old(self)@)[i as int]));
            i = i + 1;
        }
    }

    /// Gives `prototype` to the object of every thread that is alive.
    #[verifier::rlimit(50)]
    pub fn set_prototype(&self, memory: &mut MemoryManager, prototype: ObjectId)
        ensures
            final(memory)@ == backfilled(old(memory)@, self@, self@.len() as int, prototype),
    {
        let mut i: usize = 0;
        assert(memory@ =~= backfilled(old(memory)@, self@, 0, prototype));
        while i < self.threads.len()
            invariant
                i <= self.threads@.len(),
                memory@ == backfilled(old(memory)@, self@, i as int, prototype),
            decreases self.threads@.len() - i,
        {
            let thread = &self.threads[i];
            if thread.is_live() {
                match thread.object() {
                    Some(object) => {
                        if memory.contains(object) {
                            memory.object_mut(object).set_prototype(prototype);
                        }
                    },
                    None => {},
                }
            }
            proof {
                let threads = self@;
                let next = backfilled(old(memory)@, threads, i + 1, prototype);
                assert(threads[i as int] == thread@);
                assert forall|o: int|
                    stands_for_live_thread(threads, i + 1, o) == (stands_for_live_thread(
                        threads,
                        i as int,
                        o,
                    ) || (thread@.live && thread@.object is Some && thread@.object->0 == o)) by {
                    if stands_for_live_thread(threads, i + 1, o) {
                        let t = choose|t: int|
                            0 <= t < i + 1 && t < threads.len() && (#[trigger] threads[t]).live
                                && threads[t].object is Some && threads[t].object->0 == o;
                        if t < i {
                            assert(stands_for_live_thread(threads, i as int, o));
                        }
                    }
                    if thread@.live && thread@.object is Some && thread@.object->0 == o {
                        assert(threads[i as int].live);
                    }
                }
                assert(memory@.objects =~= next.objects);
            }
            i = i + 1;
        }
    }
}

} // verus!
