//! Heap objects.

use crate::compiled_code::RcCompiledCode;
use crate::name_table::NameTable;
use crate::object_value::{ObjectValue, ValueView};
use vstd::prelude::*;

verus! {

/// The identity of an object: its position in the heap that holds it.
pub type ObjectId = usize;

/// An object: an optional prototype, three namespaces, an optional name and a
/// payload.
pub struct Object {
    prototype: Option<ObjectId>,
    attributes: NameTable<ObjectId>,
    constants: NameTable<ObjectId>,
    methods: NameTable<RcCompiledCode>,
    name: Option<String>,
    value: ObjectValue,
    pinned: bool,
}

/// The mathematical content of an [`Object`].
#[verifier::ext_equal]
pub struct ObjectView {
    pub prototype: Option<ObjectId>,
    pub attributes: Map<Seq<char>, ObjectId>,
    pub constants: Map<Seq<char>, ObjectId>,
    pub methods: Map<Seq<char>, RcCompiledCode>,
    pub name: Option<Seq<char>>,
    pub value: ValueView,
    pub pinned: bool,
}

impl ObjectView {
    /// An object as it is right after creation.
    pub open spec fn fresh(value: ValueView, prototype: Option<ObjectId>) -> ObjectView {
        ObjectView {
            prototype,
            attributes: Map::empty(),
            constants: Map::empty(),
            methods: Map::empty(),
            name: None,
            value,
            pinned: false,
        }
    }
}

impl View for Object {
    type V = ObjectView;

    closed spec fn view(&self) -> ObjectView {
        ObjectView {
            prototype: self.prototype,
            attributes: self.attributes@,
            constants: self.constants@,
            methods: self.methods@,
            name: match self.name {
                Some(n) => Some(n@),
                None => None,
            },
            value: self.value@,
            pinned: self.pinned,
        }
    }
}

impl Object {
    /// A new object without a prototype.
    pub fn new(value: ObjectValue) -> (object: Object)
        ensures
            object@ == ObjectView::fresh(value@, None),
    {
        Object {
            prototype: None,
            attributes: NameTable::new(),
            constants: NameTable::new(),
            methods: NameTable::new(),
            name: None,
            value,
            pinned: false,
        }
    }

    pub fn prototype(&self) -> (p: Option<ObjectId>)
        ensures
            p == self@.prototype,
    {
        self.prototype
    }

    pub fn set_prototype(&mut self, prototype: ObjectId)
        ensures
            final(self)@ == (ObjectView { prototype: Some(prototype), ..old(self)@ }),
    {
        self.prototype = Some(prototype);
    }

    pub fn set_name(&mut self, name: String)
        ensures
            final(self)@ == (ObjectView { name: Some(name@), ..old(self)@ }),
    {
        self.name = Some(name);
    }

    pub fn name(&self) -> (n: Option<&String>)
        ensures
            match n {
                Some(s) => self@.name == Some(s@),
                None => self@.name is None,
            },
    {
        match &self.name {
            Some(s) => Some(s),
            None => None,
        }
    }

    pub fn value(&self) -> (v: &ObjectValue)
        ensures
            v@ == self@.value,
    {
        &self.value
    }

    pub fn is_pinned(&self) -> (p: bool)
        ensures
            p == self@.pinned,
    {
        self.pinned
    }

    /// Exempts the object from reclamation.
    pub fn pin(&mut self)
        ensures
            final(self)@ == (ObjectView { pinned: true, ..old(self)@ }),
    {
        self.pinned = true;
    }

    pub fn unpin(&mut self)
        ensures
            final(self)@ == (ObjectView { pinned: false, ..old(self)@ }),
    {
        self.pinned = false;
    }

    pub fn add_attribute(&mut self, name: String, value: ObjectId)
        ensures
            final(self)@ == (ObjectView {
                attributes: old(self)@.attributes.insert(name@, value),
                ..old(self)@
            }),
    {
        self.attributes.insert(name, value);
    }

    pub fn add_constant(&mut self, name: String, value: ObjectId)
        ensures
            final(self)@ == (ObjectView {
                constants: old(self)@.constants.insert(name@, value),
                ..old(self)@
            }),
    {
        self.constants.insert(name, value);
    }

    pub fn add_method(&mut self, name: String, code: RcCompiledCode)
        ensures
            final(self)@ == (ObjectView {
                methods: old(self)@.methods.insert(name@, code),
                ..old(self)@
            }),
    {
        self.methods.insert(name, code);
    }

    /// The object's own attribute of this name.
    pub fn get_attribute(&self, name: &String) -> (value: Option<ObjectId>)
        ensures
            value == (if self@.attributes.contains_key(name@) {
                Some(self@.attributes[name@])
            } else {
                None
            }),
    {
        match self.attributes.get(name) {
            Some(v) => Some(*v),
            None => None,
        }
    }

    /// The object's constant of this name.
    pub fn lookup_constant(&self, name: &String) -> (value: Option<ObjectId>)
        ensures
            value == (if self@.constants.contains_key(name@) {
                Some(self@.constants[name@])
            } else {
                None
            }),
    {
        match self.constants.get(name) {
            Some(v) => Some(*v),
            None => None,
        }
    }

    /// The object's own method of this name.
    pub fn get_method(&self, name: &String) -> (code: Option<RcCompiledCode>)
        ensures
            code == (if self@.methods.contains_key(name@) {
                Some(self@.methods[name@])
            } else {
                None
            }),
    {
        match self.methods.get(name) {
            Some(c) => Some(c.clone()),
            None => None,
        }
    }
}

} // verus!
