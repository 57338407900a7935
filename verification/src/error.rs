//! What can go wrong while an instruction executes.

use crate::integer::{append_natural, digits};
use crate::memory_manager::PrototypeKind;
use crate::object::ObjectId;
use crate::thread_list::ThreadId;
use vstd::prelude::*;
use vstd::string::StringExecFns;

verus! {

/// The broad class a fault belongs to.
#[derive(Clone, Copy, PartialEq, Eq, Debug, Structural)]
pub enum FaultKind {
    /// An operand of the instruction could not be resolved.
    Decode,
    /// An operand holds a value of the wrong type.
    Type,
    /// Integer division or remainder by zero.
    Arithmetic,
    /// A message could not be delivered.
    Dispatch,
    /// A well-known prototype was installed twice, or used before it was installed.
    Setup,
}

/// One of the literal pools of a piece of compiled code.
#[derive(Clone, Copy, PartialEq, Eq, Debug, Structural)]
pub enum LiteralPool {
    Integer,
    Float,
    String,
}

/// The reason an instruction failed. A fault ends the thread that raised it.
#[derive(Debug, PartialEq, Eq)]
pub enum Fault {
    /// The instruction has no argument at `position`.
    MissingArgument { position: usize },
    /// The instruction has an argument at `position` and cannot use it.
    UnexpectedArgument { position: usize },
    /// The literal pool has no entry at `index`.
    UndefinedLiteral { pool: LiteralPool, index: u32 },
    /// The code has no nested code object at `index`.
    UndefinedCodeObject { index: u32 },
    /// Register `slot` was read before anything was written to it.
    UndefinedRegister { slot: u32 },
    /// The current frame has no local variable at `index`.
    UndefinedLocal { index: u32 },
    /// The heap holds no object with this identity.
    UndefinedObject { object: ObjectId },
    /// The object has no constant of this name.
    UndefinedConstant { name: String },
    /// Neither the object nor any of its prototypes has an attribute of this name.
    UndefinedAttribute { name: String },
    /// There is no thread with this identity.
    UndefinedThread { thread: ThreadId },
    /// The object in register `slot` does not hold an integer.
    NotAnInteger { slot: u32 },
    /// Division or remainder by zero.
    DivisionByZero,
    /// Neither the receiver nor any of its prototypes has a method of this name.
    UndefinedMethod { name: String },
    /// The method is private and the send does not allow private methods.
    PrivateMethod { name: String },
    /// The method takes `required` arguments and was sent `given`.
    ArgumentCount { name: String, required: usize, given: usize },
    /// The prototype was installed before.
    PrototypeAlreadyDefined { kind: PrototypeKind },
    /// The prototype has not been installed yet.
    PrototypeMissing { kind: PrototypeKind },
}

impl LiteralPool {
    /// The name of the pool, as it appears in messages.
    pub open spec fn name(self) -> Seq<char> {
        match self {
            LiteralPool::Integer => "integer"@,
            LiteralPool::Float => "float"@,
            LiteralPool::String => "string"@,
        }
    }

    /// The name of the pool, as it appears in messages.
    pub fn as_str(self) -> (s: &'static str)
        ensures
            s@ == self.name(),
    {
        match self {
            LiteralPool::Integer => "integer",
            LiteralPool::Float => "float",
            LiteralPool::String => "string",
        }
    }
}

impl Fault {
    /// The class of the fault.
    pub open spec fn kind_of(self) -> FaultKind {
        match self {
            Fault::MissingArgument { .. } => FaultKind::Decode,
            Fault::UnexpectedArgument { .. } => FaultKind::Decode,
            Fault::UndefinedLiteral { .. } => FaultKind::Decode,
            Fault::UndefinedCodeObject { .. } => FaultKind::Decode,
            Fault::UndefinedRegister { .. } => FaultKind::Decode,
            Fault::UndefinedLocal { .. } => FaultKind::Decode,
            Fault::UndefinedObject { .. } => FaultKind::Decode,
            Fault::UndefinedConstant { .. } => FaultKind::Decode,
            Fault::UndefinedAttribute { .. } => FaultKind::Decode,
            Fault::UndefinedThread { .. } => FaultKind::Decode,
            Fault::NotAnInteger { .. } => FaultKind::Type,
            Fault::DivisionByZero => FaultKind::Arithmetic,
            Fault::UndefinedMethod { .. } => FaultKind::Dispatch,
            Fault::PrivateMethod { .. } => FaultKind::Dispatch,
            Fault::ArgumentCount { .. } => FaultKind::Dispatch,
            Fault::PrototypeAlreadyDefined { .. } => FaultKind::Setup,
            Fault::PrototypeMissing { .. } => FaultKind::Setup,
        }
    }

    /// The class of the fault.
    pub fn kind(&self) -> (k: FaultKind)
        ensures
            k == self.kind_of(),
    {
        match self {
            Fault::MissingArgument { .. } => FaultKind::Decode,
            Fault::UnexpectedArgument { .. } => FaultKind::Decode,
            Fault::UndefinedLiteral { .. } => FaultKind::Decode,
            Fault::UndefinedCodeObject { .. } => FaultKind::Decode,
            Fault::UndefinedRegister { .. } => FaultKind::Decode,
            Fault::UndefinedLocal { .. } => FaultKind::Decode,
            Fault::UndefinedObject { .. } => FaultKind::Decode,
            Fault::UndefinedConstant { .. } => FaultKind::Decode,
            Fault::UndefinedAttribute { .. } => FaultKind::Decode,
            Fault::UndefinedThread { .. } => FaultKind::Decode,
            Fault::NotAnInteger { .. } => FaultKind::Type,
            Fault::DivisionByZero => FaultKind::Arithmetic,
            Fault::UndefinedMethod { .. } => FaultKind::Dispatch,
            Fault::PrivateMethod { .. } => FaultKind::Dispatch,
            Fault::ArgumentCount { .. } => FaultKind::Dispatch,
            Fault::PrototypeAlreadyDefined { .. } => FaultKind::Setup,
            Fault::PrototypeMissing { .. } => FaultKind::Setup,
        }
    }

    /// The message that describes the fault.
    pub open spec fn text(self) -> Seq<char> {
        match self {
            Fault::MissingArgument { position } => "missing argument "@ + digits(position as nat),
            Fault::UnexpectedArgument { position } => "unexpected argument "@ + digits(
                position as nat,
            ),
            Fault::UndefinedLiteral { pool, index } => "undefined "@ + pool.name() + " literal "@
                + digits(index as nat),
            Fault::UndefinedCodeObject { index } => "undefined code object "@ + digits(
                index as nat,
            ),
            Fault::UndefinedRegister { slot } => "undefined register "@ + digits(slot as nat),
            Fault::UndefinedLocal { index } => "undefined local variable "@ + digits(index as nat),
            Fault::UndefinedObject { object } => "undefined object "@ + digits(object as nat),
            Fault::UndefinedConstant { name } => "undefined constant "@ + name@,
            Fault::UndefinedAttribute { name } => "undefined attribute \""@ + name@ + "\""@,
            Fault::UndefinedThread { thread } => "undefined thread "@ + digits(thread as nat),
            Fault::NotAnInteger { slot } => "the object in register "@ + digits(slot as nat)
                + " is not an integer"@,
            Fault::DivisionByZero => "division by zero"@,
            Fault::UndefinedMethod { name } => "undefined method \""@ + name@ + "\""@,
            Fault::PrivateMethod { name } => "private method \""@ + name@ + "\""@,
            Fault::ArgumentCount { name, required, given } => "\""@ + name@ + "\" requires "@
                + digits(required as nat) + " arguments, "@ + digits(given as nat) + " given"@,
            Fault::PrototypeAlreadyDefined { kind } => kind.name() + " prototype already defined"@,
            Fault::PrototypeMissing { kind } => "no "@ + kind.name() + " prototype set up"@,
        }
    }

    /// The message that describes the fault.
    pub fn message(&self) -> (message: String)
        ensures
            message@ == self.text(),
    {
        match self {
            Fault::MissingArgument { position } => {
                let mut text = String::from_str("missing argument ");
                append_natural(&mut text, *position as u64);
                text
            },
            Fault::UnexpectedArgument { position } => {
                let mut text = String::from_str("unexpected argument ");
                append_natural(&mut text, *position as u64);
                text
            },
            Fault::UndefinedLiteral { pool, index } => {
                let mut text = String::from_str("undefined ");
                text.append(pool.as_str());
                text.append(" literal ");
                append_natural(&mut text, *index as u64);
                text
            },
            Fault::UndefinedCodeObject { index } => {
                let mut text = String::from_str("undefined code object ");
                append_natural(&mut text, *index as u64);
                text
            },
            Fault::UndefinedRegister { slot } => {
                let mut text = String::from_str("undefined register ");
                append_natural(&mut text, *slot as u64);
                text
            },
            Fault::UndefinedLocal { index } => {
                let mut text = String::from_str("undefined local variable ");
                append_natural(&mut text, *index as u64);
                text
            },
            Fault::UndefinedObject { object } => {
                let mut text = String::from_str("undefined object ");
                append_natural(&mut text, *object as u64);
                text
            },
            Fault::UndefinedConstant { name } => {
                let mut text = String::from_str("undefined constant ");
                text.append(name.as_str());
                text
            },
            Fault::UndefinedAttribute { name } => {
                let mut text = String::from_str("undefined attribute \"");
                text.append(name.as_str());
                text.append("\"");
                text
            },
            Fault::UndefinedThread { thread } => {
                let mut text = String::from_str("undefined thread ");
                append_natural(&mut text, *thread as u64);
                text
            },
            Fault::NotAnInteger { slot } => {
                let mut text = String::from_str("the object in register ");
                append_natural(&mut text, *slot as u64);
                text.append(" is not an integer");
                text
            },
            Fault::DivisionByZero => String::from_str("division by zero"),
            Fault::UndefinedMethod { name } => {
                let mut text = String::from_str("undefined method \"");
                text.append(name.as_str());
                text.append("\"");
                text
            },
            Fault::PrivateMethod { name } => {
                let mut text = String::from_str("private method \"");
                text.append(name.as_str());
                text.append("\"");
                text
            },
            Fault::ArgumentCount { name, required, given } => {
                let mut text = String::from_str("\"");
                text.append(name.as_str());
                text.append("\" requires ");
                append_natural(&mut text, *required as u64);
                text.append(" arguments, ");
                append_natural(&mut text, *given as u64);
                text.append(" given");
                text
            },
            Fault::PrototypeAlreadyDefined { kind } => {
                let mut text = String::from_str(kind.as_str());
                text.append(" prototype already defined");
                text
            },
            Fault::PrototypeMissing { kind } => {
                let mut text = String::from_str("no ");
                text.append(kind.as_str());
                text.append(" prototype set up");
                text
            },
        }
    }
}

} // verus!
