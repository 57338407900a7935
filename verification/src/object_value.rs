//! The payload an object may carry.

use crate::compiled_code::RcCompiledCode;
use crate::object::ObjectId;
use crate::thread_list::ThreadId;
use vstd::prelude::*;

verus! {

/// The tagged payload of an object.
///
/// A float is held as its IEEE 754 double-precision bit pattern.
pub enum ObjectValue {
    Empty,
    Integer(i64),
    Float(u64),
    String(String),
    Array(Vec<ObjectId>),
    Block { code: RcCompiledCode, environment: Vec<ObjectId> },
    Thread(ThreadId),
}

/// The mathematical content of an [`ObjectValue`].
pub enum ValueView {
    Empty,
    Integer(i64),
    Float(u64),
    String(Seq<char>),
    Array(Seq<ObjectId>),
    Block { code: RcCompiledCode, environment: Seq<ObjectId> },
    Thread(ThreadId),
}

impl View for ObjectValue {
    type V = ValueView;

    open spec fn view(&self) -> ValueView {
        match self {
            ObjectValue::Empty => ValueView::Empty,
            ObjectValue::Integer(i) => ValueView::Integer(*i),
            ObjectValue::Float(bits) => ValueView::Float(*bits),
            ObjectValue::String(s) => ValueView::String(s@),
            ObjectValue::Array(items) => ValueView::Array(items@),
            ObjectValue::Block { code, environment } => ValueView::Block {
                code: *code,
                environment: environment@,
            },
            ObjectValue::Thread(thread) => ValueView::Thread(*thread),
        }
    }
}

pub fn none() -> (value: ObjectValue)
    ensures
        value@ == ValueView::Empty,
{
    ObjectValue::Empty
}

pub fn integer(value: i64) -> (v: ObjectValue)
    ensures
        v@ == ValueView::Integer(value),
{
    ObjectValue::Integer(value)
}

/// The float whose bit pattern is `bits`.
pub fn float(bits: u64) -> (v: ObjectValue)
    ensures
        v@ == ValueView::Float(bits),
{
    ObjectValue::Float(bits)
}

pub fn string(value: String) -> (v: ObjectValue)
    ensures
        v@ == ValueView::String(value@),
{
    ObjectValue::String(value)
}

pub fn array(items: Vec<ObjectId>) -> (v: ObjectValue)
    ensures
        v@ == ValueView::Array(items@),
{
    ObjectValue::Array(items)
}

pub fn thread(id: ThreadId) -> (v: ObjectValue)
    ensures
        v@ == ValueView::Thread(id),
{
    ObjectValue::Thread(id)
}

impl ObjectValue {
    pub fn is_none(&self) -> (b: bool)
        ensures
            b == (self@ is Empty),
    {
        match self {
            ObjectValue::Empty => true,
            _ => false,
        }
    }

    pub fn is_integer(&self) -> (b: bool)
        ensures
            b == (self@ is Integer),
    {
        match self {
            ObjectValue::Integer(_) => true,
            _ => false,
        }
    }

    pub fn is_float(&self) -> (b: bool)
        ensures
            b == (self@ is Float),
    {
        match self {
            ObjectValue::Float(_) => true,
            _ => false,
        }
    }

    pub fn is_string(&self) -> (b: bool)
        ensures
            b == (self@ is String),
    {
        match self {
            ObjectValue::String(_) => true,
            _ => false,
        }
    }

    pub fn is_array(&self) -> (b: bool)
        ensures
            b == (self@ is Array),
    {
        match self {
            ObjectValue::Array(_) => true,
            _ => false,
        }
    }

    pub fn is_thread(&self) -> (b: bool)
        ensures
            b == (self@ is Thread),
    {
        match self {
            ObjectValue::Thread(_) => true,
            _ => false,
        }
    }

    /// The integer held, if the payload is one.
    pub fn as_integer(&self) -> (i: Option<i64>)
        ensures
            i == (match self@ {
                ValueView::Integer(v) => Some(v),
                _ => None,
            }),
    {
        match self {
            ObjectValue::Integer(v) => Some(*v),
            _ => None,
        }
    }

    /// The bit pattern of the float held, if the payload is one.
    pub fn as_float(&self) -> (bits: Option<u64>)
        ensures
            bits == (match self@ {
                ValueView::Float(v) => Some(v),
                _ => None,
            }),
    {
        match self {
            ObjectValue::Float(v) => Some(*v),
            _ => None,
        }
    }

    /// The thread held, if the payload is one.
    pub fn as_thread(&self) -> (thread: Option<ThreadId>)
        ensures
            thread == (match self@ {
                ValueView::Thread(t) => Some(t),
                _ => None,
            }),
    {
        match self {
            ObjectValue::Thread(t) => Some(*t),
            _ => None,
        }
    }
}

} // verus!
