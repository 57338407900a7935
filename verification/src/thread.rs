//! Execution contexts.

use crate::call_frame::{CallFrame, FrameView};
use crate::compiled_code::RcCompiledCode;
use crate::object::ObjectId;
use std::collections::HashMap;
use vstd::prelude::*;

verus! {

/// An execution context: a register file, a stack of call frames, and the
/// flags by which a supervisor steers it.
///
/// A thread always has at least one frame. The innermost frame is the one
/// that executes.
pub struct Thread {
    registers: HashMap<u32, ObjectId>,
    callers: Vec<CallFrame>,
    current: CallFrame,
    stop: bool,
    main: bool,
    value: Option<ObjectId>,
    join_handle: Option<u64>,
    object: Option<ObjectId>,
    live: bool,
}

/// The mathematical content of a [`Thread`].
#[verifier::ext_equal]
pub struct ThreadView {
    /// The registers that have been written, by slot.
    pub registers: Map<u32, ObjectId>,
    /// The call frames from the outermost to the innermost.
    pub frames: Seq<FrameView>,
    /// Whether the thread has been asked to stop.
    pub stop: bool,
    /// Whether this is the main thread.
    pub main: bool,
    /// The value the thread published when it ended.
    pub value: Option<ObjectId>,
    /// The token of the worker that runs the thread, until it is taken.
    pub join_handle: Option<u64>,
    /// The object that stands for the thread.
    pub object: Option<ObjectId>,
    /// Whether the thread is registered as alive.
    pub live: bool,
}

impl ThreadView {
    /// The content of register `slot`, if it has been written.
    pub open spec fn register(self, slot: u32) -> Option<ObjectId> {
        if self.registers.contains_key(slot) {
            Some(self.registers[slot])
        } else {
            None
        }
    }

    /// The innermost frame.
    pub open spec fn frame(self) -> FrameView {
        self.frames.last()
    }

    pub open spec fn with_register(self, slot: u32, object: ObjectId) -> ThreadView {
        ThreadView { registers: self.registers.insert(slot, object), ..self }
    }

    /// The thread with its innermost frame replaced.
    pub open spec fn with_frame(self, frame: FrameView) -> ThreadView {
        ThreadView { frames: self.frames.drop_last().push(frame), ..self }
    }

    /// The thread with one more frame.
    pub open spec fn pushed(self, frame: FrameView) -> ThreadView {
        ThreadView { frames: self.frames.push(frame), ..self }
    }

    /// The thread without its innermost frame. The outermost frame stays.
    pub open spec fn popped(self) -> ThreadView {
        if self.frames.len() > 1 {
            ThreadView { frames: self.frames.drop_last(), ..self }
        } else {
            self
        }
    }

    /// A thread before it has done anything.
    pub open spec fn starting(frame: FrameView, join_handle: Option<u64>) -> ThreadView {
        ThreadView {
            registers: Map::empty(),
            frames: seq![frame],
            stop: false,
            main: false,
            value: None,
            join_handle,
            object: None,
            live: false,
        }
    }
}

impl View for Thread {
    type V = ThreadView;

    closed spec fn view(&self) -> ThreadView {
        ThreadView {
            registers: self.registers@,
            frames: Seq::new(self.callers@.len(), |i: int| self.callers@[i]@).push(self.current@),
            stop: self.stop,
            main: self.main,
            value: self.value,
            join_handle: self.join_handle,
            object: self.object,
            live: self.live,
        }
    }
}

impl Thread {
    /// Every thread has a frame.
    pub proof fn lemma_has_frame(self)
        ensures
            self@.frames.len() > 0,
    {
    }

    /// A thread whose only frame is `call_frame`, with no register written.
    pub fn new(call_frame: CallFrame, join_handle: Option<u64>) -> (thread: Thread)
        ensures
            thread@ == ThreadView::starting(call_frame@, join_handle),
    {
        let thread = Thread {
            registers: HashMap::new(),
            callers: Vec::new(),
            current: call_frame,
            stop: false,
            main: false,
            value: None,
            join_handle,
            object: None,
            live: false,
        };
        assert(thread@.frames =~= seq![call_frame@]);
        thread
    }

    /// A thread that is about to execute `code`.
    pub fn from_code(code: RcCompiledCode, join_handle: Option<u64>) -> (thread: Thread)
        ensures
            thread@ == ThreadView::starting(
                FrameView::entering(code, Seq::empty(), None),
                join_handle,
            ),
    {
        Thread::new(CallFrame::from_code(code), join_handle)
    }

    pub fn set_register(&mut self, slot: u32, object: ObjectId)
        ensures
            final(self)@ == old(self)@.with_register(slot, object),
    {
        self.registers.insert(slot, object);
    }

    /// The content of register `slot`, absent if it was never written.
    pub fn get_register(&self, slot: u32) -> (object: Option<ObjectId>)
        ensures
            object == self@.register(slot),
    {
        match self.registers.get(&slot) {
            Some(object) => Some(*object),
            None => None,
        }
    }

    /// Sets a local variable of the innermost frame.
    pub fn set_local(&mut self, index: usize, object: ObjectId)
        ensures
            final(self)@ == old(self)@.with_frame(
                FrameView {
                    locals: old(self)@.frame().locals_with(index as int, object),
                    ..old(self)@.frame()
                },
            ),
    {
        self.current.set_local(index, object);
        assert(self@.frames =~= old(self)@.frames.drop_last().push(self.current@));
    }

    /// A local variable of the innermost frame, if it has been set.
    pub fn get_local(&self, index: usize) -> (object: Option<ObjectId>)
        ensures
            object == self@.frame().local(index as int),
    {
        self.current.get_local(index)
    }

    /// Appends a local variable to the innermost frame.
    pub fn add_local(&mut self, object: ObjectId)
        ensures
            final(self)@ == old(self)@.with_frame(
                FrameView {
                    locals: old(self)@.frame().locals.push(Some(object)),
                    ..old(self)@.frame()
                },
            ),
    {
        self.current.add_local(object);
        assert(self@.frames =~= old(self)@.frames.drop_last().push(self.current@));
    }

    /// Makes `frame` the innermost frame.
    pub fn push_call_frame(&mut self, frame: CallFrame)
        ensures
            final(self)@ == old(self)@.pushed(frame@),
    {
        let mut caller = frame;
        std::mem::swap(&mut self.current, &mut caller);
        self.callers.push(caller);
        assert(self@.frames =~= old(self)@.frames.push(frame@));
    }

    /// Drops the innermost frame and makes its caller the innermost one. The
    /// outermost frame is never dropped.
    pub fn pop_call_frame(&mut self)
        ensures
            final(self)@ == old(self)@.popped(),
    {
        match self.callers.pop() {
            Some(caller) => {
                self.current = caller;
                assert(self@.frames =~= old(self)@.frames.drop_last());
            },
            None => {
                assert(self@.frames =~= old(self)@.frames);
            },
        }
    }

    /// The number of frames below the innermost one.
    pub fn caller_count(&self) -> (n: usize)
        ensures
            n == self@.frames.len() - 1,
    {
        self.callers.len()
    }

    /// The innermost frame.
    pub fn frame(&self) -> (frame: &CallFrame)
        ensures
            frame@ == self@.frame(),
    {
        &self.current
    }

    /// The frame at `index`, counted from the outermost.
    pub fn frame_at(&self, index: usize) -> (frame: Option<&CallFrame>)
        ensures
            match frame {
                Some(f) => index < self@.frames.len() && f@ == self@.frames[index as int],
                None => index >= self@.frames.len(),
            },
    {
        if index < self.callers.len() {
            Some(&self.callers[index])
        } else if index == self.callers.len() {
            Some(&self.current)
        } else {
            None
        }
    }

    /// Moves the innermost frame to the instruction at `ip`.
    pub fn set_ip(&mut self, ip: usize)
        ensures
            final(self)@ == old(self)@.with_frame(FrameView { ip, ..old(self)@.frame() }),
    {
        self.current.set_ip(ip);
        assert(self@.frames =~= old(self)@.frames.drop_last().push(self.current@));
    }

    /// Makes the innermost frame execute `code` from its first instruction, as
    /// the frame whose completion ends the run.
    pub fn enter(&mut self, code: RcCompiledCode)
        ensures
            final(self)@ == old(self)@.with_frame(
                FrameView { code, ip: 0, return_to: None, ..old(self)@.frame() },
            ),
    {
        self.current.set_code(code);
        self.current.set_return_to(None);
        assert(self@.frames =~= old(self)@.frames.drop_last().push(self.current@));
    }

    pub fn should_stop(&self) -> (b: bool)
        ensures
            b == self@.stop,
    {
        self.stop
    }

    /// Asks the thread to stop before its next instruction.
    pub fn stop(&mut self)
        ensures
            final(self)@ == (ThreadView { stop: true, ..old(self)@ }),
    {
        self.stop = true;
    }

    pub fn set_main(&mut self)
        ensures
            final(self)@ == (ThreadView { main: true, ..old(self)@ }),
    {
        self.main = true;
    }

    pub fn is_main(&self) -> (b: bool)
        ensures
            b == self@.main,
    {
        self.main
    }

    /// Hands out the worker's token. A second call gets nothing.
    pub fn take_join_handle(&mut self) -> (handle: Option<u64>)
        ensures
            handle == old(self)@.join_handle,
            final(self)@ == (ThreadView { join_handle: None, ..old(self)@ }),
    {
        let handle = self.join_handle;
        self.join_handle = None;
        handle
    }

    /// Publishes the value the thread ended with.
    pub fn set_value(&mut self, value: Option<ObjectId>)
        ensures
            final(self)@ == (ThreadView { value, ..old(self)@ }),
    {
        self.value = value;
    }

    pub fn value(&self) -> (value: Option<ObjectId>)
        ensures
            value == self@.value,
    {
        self.value
    }

    /// Records the object that stands for the thread.
    pub fn set_object(&mut self, object: ObjectId)
        ensures
            final(self)@ == (ThreadView { object: Some(object), ..old(self)@ }),
    {
        self.object = Some(object);
    }

    pub fn object(&self) -> (object: Option<ObjectId>)
        ensures
            object == self@.object,
    {
        self.object
    }

    pub fn set_live(&mut self, live: bool)
        ensures
            final(self)@ == (ThreadView { live, ..old(self)@ }),
    {
        self.live = live;
    }

    pub fn is_live(&self) -> (b: bool)
        ensures
            b == self@.live,
    {
        self.live
    }
}

} // verus!
