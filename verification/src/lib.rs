//! A register-based bytecode virtual machine for a small prototype-based
//! language.
//!
//! Objects live in a heap owned by the [`memory_manager::MemoryManager`] and
//! are addressed by stable identities. Execution contexts live in the
//! [`thread_list::ThreadList`]. The interpreter in [`virtual_machine`] advances
//! one thread by one instruction at a time, so that any interleaving of threads
//! is a sequence of steps on one machine state.
//!
//! What an instruction does is defined in [`semantics`], as functions on the
//! mathematical content of a machine. The interpreter is proved to do exactly
//! that. What follows for every machine is proved in [`laws`], [`frames`],
//! [`permanence`] and [`identities`].

pub mod call_frame;
pub mod compiled_code;
pub mod error;
pub mod frames;
pub mod identities;
pub mod instruction;
pub mod integer;
pub mod laws;
pub mod memory_manager;
pub mod name_table;
pub mod object;
pub mod object_value;
pub mod permanence;
pub mod semantics;
pub mod thread;
pub mod thread_list;
pub mod virtual_machine;
