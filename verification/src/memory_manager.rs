//! The heap and the well-known objects.

use crate::compiled_code::RcCompiledCode;
use crate::error::Fault;
use crate::object::{Object, ObjectId, ObjectView};
use crate::object_value::{ObjectValue, ValueView};
use crate::thread_list::ThreadId;
use vstd::prelude::*;

verus! {

/// The well-known prototypes. Each can be installed once.
#[derive(Clone, Copy, PartialEq, Eq, Debug, Structural)]
pub enum PrototypeKind {
    Integer,
    Float,
    String,
    Array,
    Block,
    Thread,
    True,
    False,
    Boolean,
}

impl PrototypeKind {
    /// The name of the kind, as it appears in messages.
    pub open spec fn name(self) -> Seq<char> {
        match self {
            PrototypeKind::Integer => "Integer"@,
            PrototypeKind::Float => "Float"@,
            PrototypeKind::String => "String"@,
            PrototypeKind::Array => "Array"@,
            PrototypeKind::Block => "Block"@,
            PrototypeKind::Thread => "Thread"@,
            PrototypeKind::True => "True"@,
            PrototypeKind::False => "False"@,
            PrototypeKind::Boolean => "Boolean"@,
        }
    }

    /// The name of the kind, as it appears in messages.
    pub fn as_str(self) -> (s: &'static str)
        ensures
            s@ == self.name(),
    {
        match self {
            PrototypeKind::Integer => "Integer",
            PrototypeKind::Float => "Float",
            PrototypeKind::String => "String",
            PrototypeKind::Array => "Array",
            PrototypeKind::Block => "Block",
            PrototypeKind::Thread => "Thread",
            PrototypeKind::True => "True",
            PrototypeKind::False => "False",
            PrototypeKind::Boolean => "Boolean",
        }
    }
}

/// Owns every object and the well-known prototypes and singletons.
///
/// Objects are never removed, so an identity handed out by a manager names
/// the same object for as long as the manager lives.
pub struct MemoryManager {
    objects: Vec<Object>,
    integer_prototype: Option<ObjectId>,
    float_prototype: Option<ObjectId>,
    string_prototype: Option<ObjectId>,
    array_prototype: Option<ObjectId>,
    block_prototype: Option<ObjectId>,
    thread_prototype: Option<ObjectId>,
    boolean_prototype: Option<ObjectId>,
    /// The True prototype and the True singleton, which come into being
    /// together.
    truth: Option<(ObjectId, ObjectId)>,
    /// The False prototype and the False singleton.
    falsehood: Option<(ObjectId, ObjectId)>,
    top_level: ObjectId,
}

/// The mathematical content of a [`MemoryManager`].
#[verifier::ext_equal]
pub struct MemoryView {
    /// The heap: the object with identity `i` is `objects[i]`.
    pub objects: Seq<ObjectView>,
    /// The prototypes installed so far.
    pub prototypes: Map<PrototypeKind, ObjectId>,
    pub true_object: Option<ObjectId>,
    pub false_object: Option<ObjectId>,
    pub top_level: ObjectId,
}

/// The method `name` resolves to when looked up on the object `id`: the first
/// one found on the object itself, then on its prototype, and so on. The walk
/// follows at most `fuel` objects.
pub open spec fn resolve_method(
    objects: Seq<ObjectView>,
    id: ObjectId,
    name: Seq<char>,
    fuel: nat,
) -> Option<RcCompiledCode>
    decreases fuel,
{
    if fuel == 0 || id >= objects.len() {
        None
    } else if objects[id as int].methods.contains_key(name) {
        Some(objects[id as int].methods[name])
    } else {
        match objects[id as int].prototype {
            Some(p) => resolve_method(objects, p, name, (fuel - 1) as nat),
            None => None,
        }
    }
}

/// The attribute `name` resolves to when looked up on the object `id`: the
/// first one found on the object itself, then on its prototype, and so on. The
/// walk follows at most `fuel` objects.
pub open spec fn resolve_attribute(
    objects: Seq<ObjectView>,
    id: ObjectId,
    name: Seq<char>,
    fuel: nat,
) -> Option<ObjectId>
    decreases fuel,
{
    if fuel == 0 || id >= objects.len() {
        None
    } else if objects[id as int].attributes.contains_key(name) {
        Some(objects[id as int].attributes[name])
    } else {
        match objects[id as int].prototype {
            Some(p) => resolve_attribute(objects, p, name, (fuel - 1) as nat),
            None => None,
        }
    }
}

impl MemoryView {
    /// A heap that holds only the top-level object, with no prototype
    /// installed.
    pub open spec fn initial() -> MemoryView {
        MemoryView {
            objects: seq![ObjectView::fresh(ValueView::Empty, None)],
            prototypes: Map::empty(),
            true_object: None,
            false_object: None,
            top_level: 0,
        }
    }

    /// The prototype of this kind, if it has been installed.
    pub open spec fn prototype(self, kind: PrototypeKind) -> Option<ObjectId> {
        if self.prototypes.contains_key(kind) {
            Some(self.prototypes[kind])
        } else {
            None
        }
    }

    /// Whether the heap holds an object with this identity.
    pub open spec fn contains(self, id: ObjectId) -> bool {
        id < self.objects.len()
    }

    /// The identity the next allocation gets.
    pub open spec fn next_id(self) -> ObjectId {
        self.objects.len() as ObjectId
    }

    /// The heap with one more object at its end.
    pub open spec fn with_new(self, object: ObjectView) -> MemoryView {
        MemoryView { objects: self.objects.push(object), ..self }
    }

    /// The heap with the object `id` replaced.
    pub open spec fn with_object(self, id: ObjectId, object: ObjectView) -> MemoryView {
        MemoryView { objects: self.objects.update(id as int, object), ..self }
    }

    /// The state after installing `object` as the prototype of `kind`. Installing
    /// the True or the False prototype also allocates the singleton of that kind.
    pub open spec fn installed(self, kind: PrototypeKind, object: ObjectId) -> MemoryView {
        let prototypes = self.prototypes.insert(kind, object);
        match kind {
            PrototypeKind::True => MemoryView {
                objects: self.objects.push(ObjectView::fresh(ValueView::Empty, Some(object))),
                prototypes,
                true_object: Some(self.next_id()),
                ..self
            },
            PrototypeKind::False => MemoryView {
                objects: self.objects.push(ObjectView::fresh(ValueView::Empty, Some(object))),
                prototypes,
                false_object: Some(self.next_id()),
                ..self
            },
            _ => MemoryView { prototypes, ..self },
        }
    }

    /// The method that a message `name` sent to `id` reaches. The walk along
    /// the prototypes visits at most one object more than the heap holds,
    /// which on a heap without a prototype cycle is the whole chain.
    pub open spec fn lookup_method(self, id: ObjectId, name: Seq<char>) -> Option<RcCompiledCode> {
        resolve_method(self.objects, id, name, self.objects.len() + 1)
    }

    /// The attribute `name` of `id`, its own or inherited. The walk along the
    /// prototypes visits at most one object more than the heap holds.
    pub open spec fn lookup_attribute(self, id: ObjectId, name: Seq<char>) -> Option<ObjectId> {
        resolve_attribute(self.objects, id, name, self.objects.len() + 1)
    }

    /// Whether the True and the False singleton exist exactly when their
    /// prototypes have been installed, as they do in every manager.
    pub open spec fn consistent(self) -> bool {
        &&& self.true_object is Some <==> self.prototype(PrototypeKind::True) is Some
        &&& self.false_object is Some <==> self.prototype(PrototypeKind::False) is Some
    }

    /// Every object but the False singleton counts as true.
    pub open spec fn truthy(self, id: ObjectId) -> bool {
        self.false_object != Some(id)
    }
}

impl View for MemoryManager {
    type V = MemoryView;

    closed spec fn view(&self) -> MemoryView {
        MemoryView {
            objects: Seq::new(self.objects@.len(), |i: int| self.objects@[i]@),
            prototypes: Map::new(
                |kind: PrototypeKind| self.slot(kind) is Some,
                |kind: PrototypeKind| self.slot(kind)->0,
            ),
            true_object: match self.truth {
                Some((_, object)) => Some(object),
                None => None,
            },
            false_object: match self.falsehood {
                Some((_, object)) => Some(object),
                None => None,
            },
            top_level: self.top_level,
        }
    }
}

impl MemoryManager {
    spec fn slot(&self, kind: PrototypeKind) -> Option<ObjectId> {
        match kind {
            PrototypeKind::Integer => self.integer_prototype,
            PrototypeKind::Float => self.float_prototype,
            PrototypeKind::String => self.string_prototype,
            PrototypeKind::Array => self.array_prototype,
            PrototypeKind::Block => self.block_prototype,
            PrototypeKind::Thread => self.thread_prototype,
            PrototypeKind::True => match self.truth {
                Some((prototype, _)) => Some(prototype),
                None => None,
            },
            PrototypeKind::False => match self.falsehood {
                Some((prototype, _)) => Some(prototype),
                None => None,
            },
            PrototypeKind::Boolean => self.boolean_prototype,
        }
    }

    /// The True and the False singleton exist exactly when their prototypes
    /// have been installed.
    pub proof fn lemma_consistent(self)
        ensures
            self@.consistent(),
    {
        assert(self@.prototypes.contains_key(PrototypeKind::True) == (self.slot(
            PrototypeKind::True,
        ) is Some));
        assert(self@.prototypes.contains_key(PrototypeKind::False) == (self.slot(
            PrototypeKind::False,
        ) is Some));
    }

    /// A manager whose heap holds the top-level object and nothing else.
    pub fn new() -> (manager: MemoryManager)
        ensures
            manager@ == MemoryView::initial(),
    {
        let mut objects = Vec::new();
        objects.push(Object::new(ObjectValue::Empty));
        let manager = MemoryManager {
            objects,
            integer_prototype: None,
            float_prototype: None,
            string_prototype: None,
            array_prototype: None,
            block_prototype: None,
            thread_prototype: None,
            boolean_prototype: None,
            truth: None,
            falsehood: None,
            top_level: 0,
        };
        assert(manager@.objects =~= seq![ObjectView::fresh(ValueView::Empty, None)]);
        assert(manager@.prototypes =~= Map::<PrototypeKind, ObjectId>::empty());
        manager
    }

    /// The number of objects in the heap.
    pub fn len(&self) -> (n: usize)
        ensures
            n == self@.objects.len(),
    {
        self.objects.len()
    }

    pub fn contains(&self, id: ObjectId) -> (b: bool)
        ensures
            b == self@.contains(id),
    {
        id < self.objects.len()
    }

    /// The object with this identity, if the heap holds one.
    pub fn object(&self, id: ObjectId) -> (object: Option<&Object>)
        ensures
            match object {
                Some(o) => self@.contains(id) && o@ == self@.objects[id as int],
                None => !self@.contains(id),
            },
    {
        if id < self.objects.len() {
            Some(&self.objects[id])
        } else {
            None
        }
    }

    /// The object with this identity, for changing it in place.
    pub fn object_mut(&mut self, id: ObjectId) -> (object: &mut Object)
        requires
            old(self)@.contains(id),
        ensures
            object@ == old(self)@.objects[id as int],
            final(self)@ =~= old(self)@.with_object(id, final(object)@),
    {
        &mut self.objects[id]
    }

    /// Adds an object made elsewhere to the heap.
    pub fn allocate_prepared(&mut self, object: Object) -> (id: ObjectId)
        ensures
            id == old(self)@.next_id(),
            final(self)@ == old(self)@.with_new(object@),
    {
        let id = self.objects.len();
        self.objects.push(object);
        assert(self@.objects =~= old(self)@.objects.push(object@));
        assert(self@.prototypes =~= old(self)@.prototypes);
        id
    }

    /// A new object without a prototype, not yet part of the heap.
    pub fn new_object(&self, value: ObjectValue) -> (object: Object)
        ensures
            object@ == ObjectView::fresh(value@, None),
    {
        Object::new(value)
    }

    /// Creates an object with the given payload and prototype.
    pub fn allocate(&mut self, value: ObjectValue, prototype: ObjectId) -> (id: ObjectId)
        ensures
            id == old(self)@.next_id(),
            final(self)@ == old(self)@.with_new(ObjectView::fresh(value@, Some(prototype))),
    {
        let mut object = Object::new(value);
        object.set_prototype(prototype);
        self.allocate_prepared(object)
    }

    /// Creates the object that stands for `thread`. It is pinned, and its
    /// prototype is the Thread prototype if that has been installed.
    pub fn allocate_thread(&mut self, thread: ThreadId) -> (id: ObjectId)
        ensures
            id == old(self)@.next_id(),
            final(self)@ == old(self)@.with_new(
                ObjectView {
                    pinned: true,
                    ..ObjectView::fresh(
                        ValueView::Thread(thread),
                        old(self)@.prototype(PrototypeKind::Thread),
                    )
                },
            ),
    {
        let mut object = Object::new(ObjectValue::Thread(thread));
        match self.thread_prototype {
            Some(p) => {
                object.set_prototype(p);
            },
            None => {},
        }
        object.pin();
        self.allocate_prepared(object)
    }

    /// The prototype of this kind, if it has been installed.
    pub fn prototype(&self, kind: PrototypeKind) -> (p: Option<ObjectId>)
        ensures
            p == self@.prototype(kind),
    {
        match kind {
            PrototypeKind::Integer => self.integer_prototype,
            PrototypeKind::Float => self.float_prototype,
            PrototypeKind::String => self.string_prototype,
            PrototypeKind::Array => self.array_prototype,
            PrototypeKind::Block => self.block_prototype,
            PrototypeKind::Thread => self.thread_prototype,
            PrototypeKind::True => match self.truth {
                Some((prototype, _)) => Some(prototype),
                None => None,
            },
            PrototypeKind::False => match self.falsehood {
                Some((prototype, _)) => Some(prototype),
                None => None,
            },
            PrototypeKind::Boolean => self.boolean_prototype,
        }
    }

    /// Installs `object` as the prototype of `kind`. Fails, changing nothing, if
    /// that prototype was installed before.
    #[verifier::rlimit(50)]
    pub fn set_prototype(&mut self, kind: PrototypeKind, object: ObjectId) -> (r: Result<(), Fault>)
        ensures
            match r {
                Ok(()) => old(self)@.prototype(kind) is None && final(self)@ == old(
                    self,
                )@.installed(kind, object),
                Err(fault) => old(self)@.prototype(kind) is Some && fault
                    == (Fault::PrototypeAlreadyDefined { kind }) && final(self)@ == old(self)@,
            },
    {
        if self.prototype(kind).is_some() {
            return Err(Fault::PrototypeAlreadyDefined { kind });
        }
        match kind {
            PrototypeKind::Integer => {
                self.integer_prototype = Some(object);
            },
            PrototypeKind::Float => {
                self.float_prototype = Some(object);
            },
            PrototypeKind::String => {
                self.string_prototype = Some(object);
            },
            PrototypeKind::Array => {
                self.array_prototype = Some(object);
            },
            PrototypeKind::Block => {
                self.block_prototype = Some(object);
            },
            PrototypeKind::Thread => {
                self.thread_prototype = Some(object);
            },
            PrototypeKind::True => {
                let id = self.allocate(ObjectValue::Empty, object);
                self.truth = Some((object, id));
            },
            PrototypeKind::False => {
                let id = self.allocate(ObjectValue::Empty, object);
                self.falsehood = Some((object, id));
            },
            PrototypeKind::Boolean => {
                self.boolean_prototype = Some(object);
            },
        }
        assert(self@.prototypes =~= old(self)@.prototypes.insert(kind, object));
        assert(self@.objects =~= old(self)@.installed(kind, object).objects);
        Ok(())
    }

    /// Installs the Integer prototype. Fails, changing nothing, if it was
    /// installed before.
    pub fn set_integer_prototype(&mut self, object: ObjectId) -> (r: Result<(), Fault>)
        ensures
            match r {
                Ok(()) => old(self)@.prototype(PrototypeKind::Integer) is None && final(self)@
                    == old(self)@.installed(PrototypeKind::Integer, object),
                Err(fault) => old(self)@.prototype(PrototypeKind::Integer) is Some && fault == (
                Fault::PrototypeAlreadyDefined { kind: PrototypeKind::Integer }) && final(self)@
                    == old(self)@,
            },
    {
        self.set_prototype(PrototypeKind::Integer, object)
    }

    /// Installs the Float prototype. Fails, changing nothing, if it was
    /// installed before.
    pub fn set_float_prototype(&mut self, object: ObjectId) -> (r: Result<(), Fault>)
        ensures
            match r {
                Ok(()) => old(self)@.prototype(PrototypeKind::Float) is None && final(self)@
                    == old(self)@.installed(PrototypeKind::Float, object),
                Err(fault) => old(self)@.prototype(PrototypeKind::Float) is Some && fault == (
                Fault::PrototypeAlreadyDefined { kind: PrototypeKind::Float }) && final(self)@
                    == old(self)@,
            },
    {
        self.set_prototype(PrototypeKind::Float, object)
    }

    /// Installs the String prototype. Fails, changing nothing, if it was
    /// installed before.
    pub fn set_string_prototype(&mut self, object: ObjectId) -> (r: Result<(), Fault>)
        ensures
            match r {
                Ok(()) => old(self)@.prototype(PrototypeKind::String) is None && final(self)@
                    == old(self)@.installed(PrototypeKind::String, object),
                Err(fault) => old(self)@.prototype(PrototypeKind::String) is Some && fault == (
                Fault::PrototypeAlreadyDefined { kind: PrototypeKind::String }) && final(self)@
                    == old(self)@,
            },
    {
        self.set_prototype(PrototypeKind::String, object)
    }

    /// Installs the Array prototype. Fails, changing nothing, if it was
    /// installed before.
    pub fn set_array_prototype(&mut self, object: ObjectId) -> (r: Result<(), Fault>)
        ensures
            match r {
                Ok(()) => old(self)@.prototype(PrototypeKind::Array) is None && final(self)@
                    == old(self)@.installed(PrototypeKind::Array, object),
                Err(fault) => old(self)@.prototype(PrototypeKind::Array) is Some && fault == (
                Fault::PrototypeAlreadyDefined { kind: PrototypeKind::Array }) && final(self)@
                    == old(self)@,
            },
    {
        self.set_prototype(PrototypeKind::Array, object)
    }

    /// Installs the Block prototype. Fails, changing nothing, if it was
    /// installed before.
    pub fn set_block_prototype(&mut self, object: ObjectId) -> (r: Result<(), Fault>)
        ensures
            match r {
                Ok(()) => old(self)@.prototype(PrototypeKind::Block) is None && final(self)@
                    == old(self)@.installed(PrototypeKind::Block, object),
                Err(fault) => old(self)@.prototype(PrototypeKind::Block) is Some && fault == (
                Fault::PrototypeAlreadyDefined { kind: PrototypeKind::Block }) && final(self)@
                    == old(self)@,
            },
    {
        self.set_prototype(PrototypeKind::Block, object)
    }

    /// Installs the Thread prototype. Fails, changing nothing, if it was
    /// installed before.
    pub fn set_thread_prototype(&mut self, object: ObjectId) -> (r: Result<(), Fault>)
        ensures
            match r {
                Ok(()) => old(self)@.prototype(PrototypeKind::Thread) is None && final(self)@
                    == old(self)@.installed(PrototypeKind::Thread, object),
                Err(fault) => old(self)@.prototype(PrototypeKind::Thread) is Some && fault == (
                Fault::PrototypeAlreadyDefined { kind: PrototypeKind::Thread }) && final(self)@
                    == old(self)@,
            },
    {
        self.set_prototype(PrototypeKind::Thread, object)
    }

    /// Installs the True prototype and creates the True singleton. Fails,
    /// changing nothing, if it was installed before.
    pub fn set_true_prototype(&mut self, object: ObjectId) -> (r: Result<(), Fault>)
        ensures
            match r {
                Ok(()) => old(self)@.prototype(PrototypeKind::True) is None && final(self)@
                    == old(self)@.installed(PrototypeKind::True, object),
                Err(fault) => old(self)@.prototype(PrototypeKind::True) is Some && fault == (
                Fault::PrototypeAlreadyDefined { kind: PrototypeKind::True }) && final(self)@
                    == old(self)@,
            },
    {
        self.set_prototype(PrototypeKind::True, object)
    }

    /// Installs the False prototype and creates the False singleton. Fails,
    /// changing nothing, if it was installed before.
    pub fn set_false_prototype(&mut self, object: ObjectId) -> (r: Result<(), Fault>)
        ensures
            match r {
                Ok(()) => old(self)@.prototype(PrototypeKind::False) is None && final(self)@
                    == old(self)@.installed(PrototypeKind::False, object),
                Err(fault) => old(self)@.prototype(PrototypeKind::False) is Some && fault == (
                Fault::PrototypeAlreadyDefined { kind: PrototypeKind::False }) && final(self)@
                    == old(self)@,
            },
    {
        self.set_prototype(PrototypeKind::False, object)
    }

    /// Installs the Boolean prototype. Fails, changing nothing, if it was
    /// installed before.
    pub fn set_boolean_prototype(&mut self, object: ObjectId) -> (r: Result<(), Fault>)
        ensures
            match r {
                Ok(()) => old(self)@.prototype(PrototypeKind::Boolean) is None && final(self)@
                    == old(self)@.installed(PrototypeKind::Boolean, object),
                Err(fault) => old(self)@.prototype(PrototypeKind::Boolean) is Some && fault == (
                Fault::PrototypeAlreadyDefined { kind: PrototypeKind::Boolean }) && final(self)@
                    == old(self)@,
            },
    {
        self.set_prototype(PrototypeKind::Boolean, object)
    }

    pub fn integer_prototype(&self) -> (p: Option<ObjectId>)
        ensures
            p == self@.prototype(PrototypeKind::Integer),
    {
        self.integer_prototype
    }

    pub fn float_prototype(&self) -> (p: Option<ObjectId>)
        ensures
            p == self@.prototype(PrototypeKind::Float),
    {
        self.float_prototype
    }

    pub fn string_prototype(&self) -> (p: Option<ObjectId>)
        ensures
            p == self@.prototype(PrototypeKind::String),
    {
        self.string_prototype
    }

    pub fn array_prototype(&self) -> (p: Option<ObjectId>)
        ensures
            p == self@.prototype(PrototypeKind::Array),
    {
        self.array_prototype
    }

    pub fn block_prototype(&self) -> (p: Option<ObjectId>)
        ensures
            p == self@.prototype(PrototypeKind::Block),
    {
        self.block_prototype
    }

    pub fn thread_prototype(&self) -> (p: Option<ObjectId>)
        ensures
            p == self@.prototype(PrototypeKind::Thread),
    {
        self.thread_prototype
    }

    pub fn true_prototype(&self) -> (p: Option<ObjectId>)
        ensures
            p == self@.prototype(PrototypeKind::True),
    {
        self.prototype(PrototypeKind::True)
    }

    pub fn false_prototype(&self) -> (p: Option<ObjectId>)
        ensures
            p == self@.prototype(PrototypeKind::False),
    {
        self.prototype(PrototypeKind::False)
    }

    pub fn boolean_prototype(&self) -> (p: Option<ObjectId>)
        ensures
            p == self@.prototype(PrototypeKind::Boolean),
    {
        self.boolean_prototype
    }

    /// The True singleton, once the True prototype has been installed.
    pub fn true_object(&self) -> (o: Option<ObjectId>)
        ensures
            o == self@.true_object,
    {
        match self.truth {
            Some((_, object)) => Some(object),
            None => None,
        }
    }

    /// The False singleton, once the False prototype has been installed.
    pub fn false_object(&self) -> (o: Option<ObjectId>)
        ensures
            o == self@.false_object,
    {
        match self.falsehood {
            Some((_, object)) => Some(object),
            None => None,
        }
    }

    /// The object at the root of the constant namespace.
    pub fn top_level(&self) -> (o: ObjectId)
        ensures
            o == self@.top_level,
    {
        self.top_level
    }

    /// Whether the object counts as true in a conditional jump.
    pub fn truthy(&self, id: ObjectId) -> (b: bool)
        ensures
            b == self@.truthy(id),
    {
        match self.falsehood {
            Some((_, object)) => object != id,
            None => true,
        }
    }

    /// Resolves a method by name, starting at `id` and following prototypes.
    pub fn lookup_method(&self, id: ObjectId, name: &String) -> (code: Option<RcCompiledCode>)
        ensures
            code == self@.lookup_method(id, name@),
    {
        let mut current = id;
        let mut links = self.objects.len();
        loop
            invariant
                self@.lookup_method(id, name@) == resolve_method(
                    self@.objects,
                    current,
                    name@,
                    (links + 1) as nat,
                ),
            decreases links,
        {
            if current >= self.objects.len() {
                return None;
            }
            let object = &self.objects[current];
            match object.get_method(name) {
                Some(found) => {
                    return Some(found);
                },
                None => {},
            }
            match object.prototype() {
                Some(p) => {
                    if links == 0 {
                        assert(resolve_method(self@.objects, p, name@, 0) is None);
                        return None;
                    }
                    current = p;
                    links = links - 1;
                },
                None => {
                    return None;
                },
            }
        }
    }

    /// Resolves an attribute by name, starting at `id` and following prototypes.
    pub fn lookup_attribute(&self, id: ObjectId, name: &String) -> (value: Option<ObjectId>)
        ensures
            value == self@.lookup_attribute(id, name@),
    {
        let mut current = id;
        let mut links = self.objects.len();
        loop
            invariant
                self@.lookup_attribute(id, name@) == resolve_attribute(
                    self@.objects,
                    current,
                    name@,
                    (links + 1) as nat,
                ),
            decreases links,
        {
            if current >= self.objects.len() {
                return None;
            }
            let object = &self.objects[current];
            match object.get_attribute(name) {
                Some(found) => {
                    return Some(found);
                },
                None => {},
            }
            match object.prototype() {
                Some(p) => {
                    if links == 0 {
                        assert(resolve_attribute(self@.objects, p, name@, 0) is None);
                        return None;
                    }
                    current = p;
                    links = links - 1;
                },
                None => {
                    return None;
                },
            }
        }
    }
}

} // verus!
