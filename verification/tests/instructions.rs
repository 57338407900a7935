use proto_vm::call_frame::CallFrame;
use proto_vm::compiled_code::CompiledCode;
use proto_vm::error::{Fault, FaultKind, LiteralPool};
use proto_vm::instruction::{Instruction, InstructionType};
use proto_vm::memory_manager::PrototypeKind;
use proto_vm::object::ObjectId;
use proto_vm::object_value::ObjectValue;
use proto_vm::semantics::Step;
use proto_vm::thread::Thread;
use proto_vm::thread_list::ThreadId;
use proto_vm::virtual_machine::VirtualMachine;
use std::sync::Arc;

fn ins(instruction_type: InstructionType, arguments: Vec<u32>) -> Instruction {
    Instruction::new(instruction_type, arguments, 1, 1)
}

fn empty_code() -> CompiledCode {
    CompiledCode::new("test".to_string(), "test.src".to_string(), 1, Vec::new())
}

/// A machine with one thread and every prototype installed. Register 0 holds
/// the object that serves as every prototype.
fn machine() -> (VirtualMachine, ThreadId) {
    let mut vm = VirtualMachine::new();
    let thread = vm.add_thread(Thread::new(
        CallFrame::new("foo".to_string(), "foo.src".to_string(), 1),
        None,
    ));
    let code = empty_code();
    vm.ins_set_object(thread, &code, &ins(InstructionType::SetObject, vec![0]))
        .unwrap();
    for kind in [
        InstructionType::SetIntegerPrototype,
        InstructionType::SetFloatPrototype,
        InstructionType::SetStringPrototype,
        InstructionType::SetArrayPrototype,
        InstructionType::SetThreadPrototype,
        InstructionType::SetTruePrototype,
        InstructionType::SetFalsePrototype,
        InstructionType::SetBlockPrototype,
        InstructionType::SetBooleanPrototype,
    ] {
        assert_eq!(vm.dispatch(thread, &code, &ins(kind, vec![0])), Ok(Step::Continue));
    }
    (vm, thread)
}

/// A machine with one thread and nothing installed.
fn bare_machine() -> (VirtualMachine, ThreadId) {
    let mut vm = VirtualMachine::new();
    let thread = vm.add_thread(Thread::new(
        CallFrame::new("foo".to_string(), "foo.src".to_string(), 1),
        None,
    ));
    (vm, thread)
}

fn register(vm: &VirtualMachine, thread: ThreadId, slot: u32) -> Option<ObjectId> {
    vm.thread(thread).unwrap().get_register(slot)
}

fn integer_in(vm: &VirtualMachine, thread: ThreadId, slot: u32) -> Option<i64> {
    let object = register(vm, thread, slot).unwrap();
    vm.memory_manager().object(object).unwrap().value().as_integer()
}

fn put_integer(vm: &mut VirtualMachine, thread: ThreadId, slot: u32, value: i64) {
    let mut code = empty_code();
    code.add_integer_literal(value);
    vm.ins_set_integer(thread, &code, &ins(InstructionType::SetInteger, vec![slot, 0]))
        .unwrap();
}

const ALL: [InstructionType; 47] = [
    InstructionType::SetInteger,
    InstructionType::SetFloat,
    InstructionType::SetString,
    InstructionType::SetObject,
    InstructionType::SetArray,
    InstructionType::SetName,
    InstructionType::SetIntegerPrototype,
    InstructionType::SetFloatPrototype,
    InstructionType::SetStringPrototype,
    InstructionType::SetArrayPrototype,
    InstructionType::SetThreadPrototype,
    InstructionType::SetTruePrototype,
    InstructionType::SetFalsePrototype,
    InstructionType::SetBlockPrototype,
    InstructionType::SetBooleanPrototype,
    InstructionType::SetTrue,
    InstructionType::SetFalse,
    InstructionType::SetLocal,
    InstructionType::GetLocal,
    InstructionType::SetConst,
    InstructionType::GetConst,
    InstructionType::SetAttr,
    InstructionType::GetAttr,
    InstructionType::Send,
    InstructionType::Return,
    InstructionType::GotoIfFalse,
    InstructionType::GotoIfTrue,
    InstructionType::Goto,
    InstructionType::DefMethod,
    InstructionType::RunCode,
    InstructionType::GetToplevel,
    InstructionType::IntegerAdd,
    InstructionType::IntegerDiv,
    InstructionType::IntegerMul,
    InstructionType::IntegerSub,
    InstructionType::IntegerMod,
    InstructionType::IntegerToFloat,
    InstructionType::IntegerToString,
    InstructionType::IntegerBitwiseAnd,
    InstructionType::IntegerBitwiseOr,
    InstructionType::IntegerBitwiseXor,
    InstructionType::IntegerShiftLeft,
    InstructionType::IntegerShiftRight,
    InstructionType::IntegerSmaller,
    InstructionType::IntegerGreater,
    InstructionType::IntegerEqual,
    InstructionType::StartThread,
];

fn declared(instruction_type: InstructionType) -> usize {
    match instruction_type {
        InstructionType::SetObject
        | InstructionType::SetIntegerPrototype
        | InstructionType::SetFloatPrototype
        | InstructionType::SetStringPrototype
        | InstructionType::SetArrayPrototype
        | InstructionType::SetThreadPrototype
        | InstructionType::SetTruePrototype
        | InstructionType::SetFalsePrototype
        | InstructionType::SetBlockPrototype
        | InstructionType::SetBooleanPrototype
        | InstructionType::SetTrue
        | InstructionType::SetFalse
        | InstructionType::Return
        | InstructionType::Goto
        | InstructionType::GetToplevel => 1,
        InstructionType::SetInteger
        | InstructionType::SetFloat
        | InstructionType::SetString
        | InstructionType::SetArray
        | InstructionType::SetName
        | InstructionType::SetLocal
        | InstructionType::GetLocal
        | InstructionType::GotoIfFalse
        | InstructionType::GotoIfTrue
        | InstructionType::IntegerToFloat
        | InstructionType::IntegerToString
        | InstructionType::StartThread => 2,
        InstructionType::Send => 5,
        _ => 3,
    }
}

#[test]
fn too_few_arguments_are_a_decode_error_and_change_nothing() {
    for &instruction_type in ALL.iter() {
        for given in 0..declared(instruction_type) {
            let (mut vm, thread) = machine();
            let objects = vm.memory_manager().len();
            let threads = vm.threads().len();
            let arguments: Vec<u32> = vec![0; given];
            let code = Arc::new(CompiledCode::new(
                "test".to_string(),
                "test.src".to_string(),
                1,
                vec![ins(instruction_type, arguments)],
            ));

            let result = vm.run(thread, code, 10);

            let fault = result.unwrap_err();
            assert_eq!(fault, Fault::MissingArgument { position: given });
            assert_eq!(fault.kind(), FaultKind::Decode);
            assert_eq!(vm.memory_manager().len(), objects);
            assert_eq!(vm.threads().len(), threads);
            let t = vm.thread(thread).unwrap();
            assert_eq!(t.frame().ip(), 0);
            assert_eq!(t.caller_count(), 0);
            assert_eq!(t.get_register(1), None);
            assert_eq!(t.get_local(0), None);
        }
    }
}

#[test]
fn surplus_arguments_are_a_decode_error_and_change_nothing() {
    for &instruction_type in ALL.iter() {
        let (mut vm, thread) = machine();
        let objects = vm.memory_manager().len();
        // Zeros, so that an argument that counts others announces none.
        let accepted = match instruction_type {
            InstructionType::SetObject => 2,
            other => declared(other),
        };
        let arguments: Vec<u32> = vec![0; accepted + 1];
        let mut code = empty_code();
        code.add_integer_literal(1);
        code.add_string_literal("s".to_string());
        code.add_code_object(Arc::new(empty_code()));

        let result = vm.dispatch(thread, &code, &ins(instruction_type, arguments));

        let fault = result.unwrap_err();
        assert_eq!(fault, Fault::UnexpectedArgument { position: accepted });
        assert_eq!(fault.kind(), FaultKind::Decode);
        assert_eq!(vm.memory_manager().len(), objects);
        assert_eq!(vm.thread(thread).unwrap().caller_count(), 0);
        assert_eq!(vm.thread(thread).unwrap().frame().ip(), 0);
    }
    // Arguments beyond those that a count announces.
    let (mut vm, thread) = machine();
    let mut code = empty_code();
    code.add_code_object(Arc::new(empty_code()));
    assert_eq!(
        vm.ins_set_array(thread, &code, &ins(InstructionType::SetArray, vec![1, 1, 0, 0])),
        Err(Fault::UnexpectedArgument { position: 3 })
    );
    assert_eq!(
        vm.ins_run_code(thread, &code, &ins(InstructionType::RunCode, vec![1, 0, 2, 0, 0, 0])),
        Err(Fault::UnexpectedArgument { position: 5 })
    );
    assert_eq!(
        vm.ins_send(thread, &code, &ins(InstructionType::Send, vec![1, 0, 0, 1, 0, 0])),
        Err(Fault::UnexpectedArgument { position: 5 })
    );
}

#[test]
fn an_unwritten_register_is_a_decode_error() {
    let cases: Vec<(InstructionType, Vec<u32>)> = vec![
        (InstructionType::SetObject, vec![1, 9]),
        (InstructionType::SetArray, vec![1, 2, 0, 9]),
        (InstructionType::SetName, vec![9, 0]),
        (InstructionType::SetIntegerPrototype, vec![9]),
        (InstructionType::SetThreadPrototype, vec![9]),
        (InstructionType::SetBooleanPrototype, vec![9]),
        (InstructionType::SetLocal, vec![0, 9]),
        (InstructionType::SetConst, vec![9, 0, 0]),
        (InstructionType::SetConst, vec![0, 9, 0]),
        (InstructionType::GetConst, vec![1, 9, 0]),
        (InstructionType::SetAttr, vec![9, 0, 0]),
        (InstructionType::SetAttr, vec![0, 9, 0]),
        (InstructionType::GetAttr, vec![1, 9, 0]),
        (InstructionType::Send, vec![1, 9, 0, 1, 0]),
        (InstructionType::Send, vec![1, 0, 0, 1, 1, 9]),
        (InstructionType::DefMethod, vec![9, 0, 0]),
        (InstructionType::RunCode, vec![1, 0, 2, 0, 9]),
        (InstructionType::IntegerAdd, vec![1, 9, 0]),
        (InstructionType::IntegerAdd, vec![1, 0, 9]),
        (InstructionType::IntegerDiv, vec![1, 0, 9]),
        (InstructionType::IntegerShiftLeft, vec![1, 9, 9]),
        (InstructionType::IntegerSmaller, vec![1, 9, 0]),
        (InstructionType::IntegerEqual, vec![1, 0, 9]),
        (InstructionType::IntegerToFloat, vec![1, 9]),
        (InstructionType::IntegerToString, vec![1, 9]),
    ];
    for (instruction_type, arguments) in cases {
        let (mut vm, thread) = machine();
        assert_eq!(register(&vm, thread, 9), None);
        let mut code = empty_code();
        code.add_string_literal("name".to_string());
        code.add_code_object(Arc::new(empty_code()));

        let result = vm.dispatch(thread, &code, &ins(instruction_type, arguments));

        let fault = result.unwrap_err();
        assert_eq!(fault, Fault::UndefinedRegister { slot: 9 }, "{:?}", instruction_type);
        assert_eq!(fault.kind(), FaultKind::Decode);
    }
}

#[test]
fn prototypes_are_installed_once() {
    let installs = [
        (InstructionType::SetIntegerPrototype, PrototypeKind::Integer),
        (InstructionType::SetFloatPrototype, PrototypeKind::Float),
        (InstructionType::SetStringPrototype, PrototypeKind::String),
        (InstructionType::SetArrayPrototype, PrototypeKind::Array),
        (InstructionType::SetThreadPrototype, PrototypeKind::Thread),
        (InstructionType::SetTruePrototype, PrototypeKind::True),
        (InstructionType::SetFalsePrototype, PrototypeKind::False),
        (InstructionType::SetBlockPrototype, PrototypeKind::Block),
        (InstructionType::SetBooleanPrototype, PrototypeKind::Boolean),
    ];
    for (instruction_type, kind) in installs {
        let (mut vm, thread) = bare_machine();
        let code = empty_code();
        vm.ins_set_object(thread, &code, &ins(InstructionType::SetObject, vec![0]))
            .unwrap();
        vm.ins_set_object(thread, &code, &ins(InstructionType::SetObject, vec![1]))
            .unwrap();
        assert_eq!(vm.memory_manager().prototype(kind), None);

        let first = vm.dispatch(thread, &code, &ins(instruction_type, vec![0]));
        assert_eq!(first, Ok(Step::Continue));
        assert_eq!(vm.memory_manager().prototype(kind), register(&vm, thread, 0));

        let second = vm.dispatch(thread, &code, &ins(instruction_type, vec![1]));
        let fault = second.unwrap_err();
        assert_eq!(fault, Fault::PrototypeAlreadyDefined { kind });
        assert_eq!(fault.kind(), FaultKind::Setup);
        assert_eq!(vm.memory_manager().prototype(kind), register(&vm, thread, 0));
    }
}

#[test]
fn instructions_fail_before_their_prototype_is_installed() {
    let cases: Vec<(InstructionType, Vec<u32>, PrototypeKind, InstructionType)> = vec![
        (
            InstructionType::SetInteger,
            vec![5, 0],
            PrototypeKind::Integer,
            InstructionType::SetIntegerPrototype,
        ),
        (
            InstructionType::SetFloat,
            vec![5, 0],
            PrototypeKind::Float,
            InstructionType::SetFloatPrototype,
        ),
        (
            InstructionType::SetString,
            vec![5, 0],
            PrototypeKind::String,
            InstructionType::SetStringPrototype,
        ),
        (
            InstructionType::SetArray,
            vec![5, 1, 0],
            PrototypeKind::Array,
            InstructionType::SetArrayPrototype,
        ),
        (
            InstructionType::SetTrue,
            vec![5],
            PrototypeKind::True,
            InstructionType::SetTruePrototype,
        ),
        (
            InstructionType::SetFalse,
            vec![5],
            PrototypeKind::False,
            InstructionType::SetFalsePrototype,
        ),
        (
            InstructionType::StartThread,
            vec![5, 0],
            PrototypeKind::Thread,
            InstructionType::SetThreadPrototype,
        ),
    ];
    for (instruction_type, arguments, kind, install) in cases {
        let (mut vm, thread) = bare_machine();
        let mut code = empty_code();
        code.add_integer_literal(1);
        code.add_float_literal(1.0f64.to_bits());
        code.add_string_literal("s".to_string());
        code.add_code_object(Arc::new(empty_code()));
        vm.ins_set_object(thread, &code, &ins(InstructionType::SetObject, vec![0]))
            .unwrap();

        let before = vm.dispatch(thread, &code, &ins(instruction_type, arguments.clone()));
        let fault = before.unwrap_err();
        assert_eq!(fault, Fault::PrototypeMissing { kind });
        assert_eq!(fault.kind(), FaultKind::Setup);
        assert_eq!(register(&vm, thread, 5), None);

        vm.dispatch(thread, &code, &ins(install, vec![0])).unwrap();
        let after = vm.dispatch(thread, &code, &ins(instruction_type, arguments));
        assert_eq!(after, Ok(Step::Continue));
        assert!(register(&vm, thread, 5).is_some());
    }
}

#[test]
fn integer_instructions_need_the_integer_prototype() {
    let (mut vm, thread) = machine();
    put_integer(&mut vm, thread, 1, 6);
    put_integer(&mut vm, thread, 2, 3);
    let mut bare = VirtualMachine::new();
    let other = bare.add_thread(Thread::new(
        CallFrame::new("foo".to_string(), "foo.src".to_string(), 1),
        None,
    ));
    let code = empty_code();
    bare.ins_set_object(other, &code, &ins(InstructionType::SetObject, vec![1]))
        .unwrap();
    bare.ins_set_object(other, &code, &ins(InstructionType::SetObject, vec![2]))
        .unwrap();
    for instruction_type in [
        InstructionType::IntegerAdd,
        InstructionType::IntegerDiv,
        InstructionType::IntegerMul,
        InstructionType::IntegerSub,
        InstructionType::IntegerMod,
        InstructionType::IntegerBitwiseAnd,
        InstructionType::IntegerBitwiseOr,
        InstructionType::IntegerBitwiseXor,
        InstructionType::IntegerShiftLeft,
        InstructionType::IntegerShiftRight,
    ] {
        assert_eq!(
            bare.dispatch(other, &code, &ins(instruction_type, vec![3, 1, 2])),
            Err(Fault::PrototypeMissing { kind: PrototypeKind::Integer })
        );
        assert_eq!(
            vm.dispatch(thread, &code, &ins(instruction_type, vec![3, 1, 2])),
            Ok(Step::Continue)
        );
    }
    assert_eq!(
        bare.dispatch(other, &code, &ins(InstructionType::IntegerToFloat, vec![3, 1])),
        Err(Fault::PrototypeMissing { kind: PrototypeKind::Float })
    );
    assert_eq!(
        bare.dispatch(other, &code, &ins(InstructionType::IntegerToString, vec![3, 1])),
        Err(Fault::PrototypeMissing { kind: PrototypeKind::String })
    );
}

#[test]
fn set_literals() {
    let (mut vm, thread) = machine();
    let mut code = empty_code();
    code.add_integer_literal(10);
    code.add_integer_literal(-3);
    code.add_float_literal(2.5f64.to_bits());
    code.add_string_literal("hello".to_string());

    vm.ins_set_integer(thread, &code, &ins(InstructionType::SetInteger, vec![1, 1]))
        .unwrap();
    vm.ins_set_float(thread, &code, &ins(InstructionType::SetFloat, vec![2, 0]))
        .unwrap();
    vm.ins_set_string(thread, &code, &ins(InstructionType::SetString, vec![3, 0]))
        .unwrap();

    let proto = register(&vm, thread, 0);
    let memory = vm.memory_manager();
    let integer = memory.object(register(&vm, thread, 1).unwrap()).unwrap();
    let float = memory.object(register(&vm, thread, 2).unwrap()).unwrap();
    let string = memory.object(register(&vm, thread, 3).unwrap()).unwrap();
    assert_eq!(integer.value().as_integer(), Some(-3));
    assert_eq!(integer.prototype(), proto);
    assert_eq!(float.value().as_float().map(f64::from_bits), Some(2.5));
    assert_eq!(float.prototype(), proto);
    assert!(matches!(string.value(), ObjectValue::String(s) if s == "hello"));
    assert_eq!(string.prototype(), proto);

    assert_eq!(
        vm.ins_set_integer(thread, &code, &ins(InstructionType::SetInteger, vec![1, 2])),
        Err(Fault::UndefinedLiteral { pool: LiteralPool::Integer, index: 2 })
    );
    assert_eq!(
        vm.ins_set_float(thread, &code, &ins(InstructionType::SetFloat, vec![1, 1])),
        Err(Fault::UndefinedLiteral { pool: LiteralPool::Float, index: 1 })
    );
    assert_eq!(
        vm.ins_set_string(thread, &code, &ins(InstructionType::SetString, vec![1, 7])),
        Err(Fault::UndefinedLiteral { pool: LiteralPool::String, index: 7 })
    );
    assert_eq!(integer_in(&vm, thread, 1), Some(-3));
}

#[test]
fn set_object_with_and_without_a_prototype() {
    let (mut vm, thread) = bare_machine();
    let code = empty_code();

    vm.ins_set_object(thread, &code, &ins(InstructionType::SetObject, vec![0]))
        .unwrap();
    vm.ins_set_object(thread, &code, &ins(InstructionType::SetObject, vec![1, 0]))
        .unwrap();

    let first = register(&vm, thread, 0).unwrap();
    let second = register(&vm, thread, 1).unwrap();
    assert_ne!(first, second);
    let memory = vm.memory_manager();
    assert_eq!(memory.object(first).unwrap().prototype(), None);
    assert!(memory.object(first).unwrap().value().is_none());
    assert_eq!(memory.object(second).unwrap().prototype(), Some(first));
}

#[test]
fn set_array_collects_its_values() {
    let (mut vm, thread) = machine();
    put_integer(&mut vm, thread, 1, 10);
    put_integer(&mut vm, thread, 2, 20);
    let code = empty_code();

    vm.ins_set_array(thread, &code, &ins(InstructionType::SetArray, vec![3, 3, 2, 1, 2]))
        .unwrap();
    vm.ins_set_array(thread, &code, &ins(InstructionType::SetArray, vec![4, 0]))
        .unwrap();

    let two = register(&vm, thread, 2).unwrap();
    let one = register(&vm, thread, 1).unwrap();
    let array = vm
        .memory_manager()
        .object(register(&vm, thread, 3).unwrap())
        .unwrap();
    assert!(matches!(array.value(), ObjectValue::Array(items) if *items == vec![two, one, two]));
    let empty = vm
        .memory_manager()
        .object(register(&vm, thread, 4).unwrap())
        .unwrap();
    assert!(matches!(empty.value(), ObjectValue::Array(items) if items.is_empty()));

    // Fewer registers than the count announces.
    assert_eq!(
        vm.ins_set_array(thread, &code, &ins(InstructionType::SetArray, vec![5, 2, 1])),
        Err(Fault::MissingArgument { position: 3 })
    );
    assert_eq!(
        vm.ins_set_array(
            thread,
            &code,
            &ins(InstructionType::SetArray, vec![5, u32::MAX, 1])
        ),
        Err(Fault::MissingArgument { position: 3 })
    );
    assert_eq!(register(&vm, thread, 5), None);
}

#[test]
fn collect_arguments_reads_registers_in_order() {
    let (mut vm, thread) = machine();
    put_integer(&mut vm, thread, 1, 10);
    put_integer(&mut vm, thread, 2, 20);
    let instruction = ins(InstructionType::Send, vec![7, 7, 7, 2, 1, 0]);
    let zero = register(&vm, thread, 0).unwrap();
    let one = register(&vm, thread, 1).unwrap();
    let two = register(&vm, thread, 2).unwrap();

    assert_eq!(vm.collect_arguments(thread, &instruction, 3, 3), Ok(vec![two, one, zero]));
    assert_eq!(vm.collect_arguments(thread, &instruction, 3, 0), Ok(vec![]));
    assert_eq!(vm.collect_arguments(thread, &instruction, 5, 1), Ok(vec![zero]));
    assert_eq!(
        vm.collect_arguments(thread, &instruction, 4, 3),
        Err(Fault::MissingArgument { position: 6 })
    );
    assert_eq!(
        vm.collect_arguments(thread, &instruction, 2, 2),
        Err(Fault::UndefinedRegister { slot: 7 })
    );
    assert_eq!(
        vm.collect_arguments(thread, &instruction, usize::MAX, 2),
        Err(Fault::MissingArgument { position: 6 })
    );
}

#[test]
fn set_name_names_the_object() {
    let (mut vm, thread) = machine();
    let mut code = empty_code();
    code.add_string_literal("Thing".to_string());

    vm.ins_set_name(thread, &code, &ins(InstructionType::SetName, vec![0, 0]))
        .unwrap();

    let object = vm
        .memory_manager()
        .object(register(&vm, thread, 0).unwrap())
        .unwrap();
    assert_eq!(object.name(), Some(&"Thing".to_string()));
    assert_eq!(
        vm.ins_set_name(thread, &code, &ins(InstructionType::SetName, vec![0, 1])),
        Err(Fault::UndefinedLiteral { pool: LiteralPool::String, index: 1 })
    );
}

#[test]
fn set_true_and_set_false() {
    let (mut vm, thread) = machine();
    let code = empty_code();
    vm.ins_set_true(thread, &code, &ins(InstructionType::SetTrue, vec![1]))
        .unwrap();
    vm.ins_set_false(thread, &code, &ins(InstructionType::SetFalse, vec![2]))
        .unwrap();
    assert_eq!(register(&vm, thread, 1), vm.memory_manager().true_object());
    assert_eq!(register(&vm, thread, 2), vm.memory_manager().false_object());
    assert_ne!(register(&vm, thread, 1), register(&vm, thread, 2));
}

#[test]
fn locals_and_registers() {
    let (mut vm, thread) = machine();
    put_integer(&mut vm, thread, 1, 10);
    let code = empty_code();

    vm.ins_set_local(thread, &code, &ins(InstructionType::SetLocal, vec![2, 1]))
        .unwrap();
    vm.ins_get_local(thread, &code, &ins(InstructionType::GetLocal, vec![4, 2]))
        .unwrap();

    assert_eq!(register(&vm, thread, 4), register(&vm, thread, 1));
    assert_eq!(vm.thread(thread).unwrap().get_local(2), register(&vm, thread, 1));
    assert_eq!(
        vm.ins_get_local(thread, &code, &ins(InstructionType::GetLocal, vec![5, 1])),
        Err(Fault::UndefinedLocal { index: 1 })
    );
    assert_eq!(
        vm.ins_get_local(thread, &code, &ins(InstructionType::GetLocal, vec![5, 3])),
        Err(Fault::UndefinedLocal { index: 3 })
    );
    assert_eq!(register(&vm, thread, 5), None);
}

#[test]
fn constants_and_attributes_are_separate() {
    let (mut vm, thread) = machine();
    put_integer(&mut vm, thread, 1, 10);
    put_integer(&mut vm, thread, 2, 20);
    let mut code = empty_code();
    code.add_string_literal("x".to_string());
    code.add_string_literal("y".to_string());

    vm.ins_set_const(thread, &code, &ins(InstructionType::SetConst, vec![0, 1, 0]))
        .unwrap();
    vm.ins_set_attr(thread, &code, &ins(InstructionType::SetAttr, vec![0, 2, 0]))
        .unwrap();
    vm.ins_get_const(thread, &code, &ins(InstructionType::GetConst, vec![3, 0, 0]))
        .unwrap();
    vm.ins_get_attr(thread, &code, &ins(InstructionType::GetAttr, vec![4, 0, 0]))
        .unwrap();

    assert_eq!(integer_in(&vm, thread, 3), Some(10));
    assert_eq!(integer_in(&vm, thread, 4), Some(20));

    let missing_const =
        vm.ins_get_const(thread, &code, &ins(InstructionType::GetConst, vec![5, 0, 1]));
    assert_eq!(missing_const, Err(Fault::UndefinedConstant { name: "y".to_string() }));
    let missing_attr =
        vm.ins_get_attr(thread, &code, &ins(InstructionType::GetAttr, vec![5, 0, 1]));
    assert_eq!(missing_attr, Err(Fault::UndefinedAttribute { name: "y".to_string() }));
    assert_eq!(register(&vm, thread, 5), None);
}

#[test]
fn attributes_are_inherited_and_constants_are_not() {
    let (mut vm, thread) = machine();
    put_integer(&mut vm, thread, 1, 10);
    let mut code = empty_code();
    code.add_string_literal("x".to_string());
    // Register 0 is the prototype of the integer in register 1.
    vm.ins_set_attr(thread, &code, &ins(InstructionType::SetAttr, vec![0, 1, 0]))
        .unwrap();
    vm.ins_set_const(thread, &code, &ins(InstructionType::SetConst, vec![0, 1, 0]))
        .unwrap();

    vm.ins_get_attr(thread, &code, &ins(InstructionType::GetAttr, vec![3, 1, 0]))
        .unwrap();
    assert_eq!(register(&vm, thread, 3), register(&vm, thread, 1));
    assert_eq!(
        vm.ins_get_const(thread, &code, &ins(InstructionType::GetConst, vec![4, 1, 0])),
        Err(Fault::UndefinedConstant { name: "x".to_string() })
    );
}

#[test]
fn get_toplevel() {
    let (mut vm, thread) = machine();
    let code = empty_code();
    vm.ins_get_toplevel(thread, &code, &ins(InstructionType::GetToplevel, vec![6]))
        .unwrap();
    assert_eq!(register(&vm, thread, 6), Some(vm.memory_manager().top_level()));
}

#[test]
fn integer_arithmetic_instructions() {
    let cases = [
        (InstructionType::IntegerAdd, 7, 2, 9),
        (InstructionType::IntegerSub, 7, 2, 5),
        (InstructionType::IntegerMul, 7, 2, 14),
        (InstructionType::IntegerDiv, 7, 2, 3),
        (InstructionType::IntegerDiv, -7, 2, -3),
        (InstructionType::IntegerMod, 7, 2, 1),
        (InstructionType::IntegerMod, -7, 2, -1),
        (InstructionType::IntegerBitwiseAnd, 6, 3, 2),
        (InstructionType::IntegerBitwiseOr, 6, 3, 7),
        (InstructionType::IntegerBitwiseXor, 6, 3, 5),
        (InstructionType::IntegerShiftLeft, 3, 2, 12),
        (InstructionType::IntegerShiftRight, -12, 2, -3),
        (InstructionType::IntegerAdd, i64::MAX, 1, i64::MIN),
    ];
    for (instruction_type, left, right, expected) in cases {
        let (mut vm, thread) = machine();
        put_integer(&mut vm, thread, 1, left);
        put_integer(&mut vm, thread, 2, right);
        let code = empty_code();

        let result = vm.dispatch(thread, &code, &ins(instruction_type, vec![3, 1, 2]));

        assert_eq!(result, Ok(Step::Continue));
        assert_eq!(integer_in(&vm, thread, 3), Some(expected), "{:?}", instruction_type);
        let object = vm
            .memory_manager()
            .object(register(&vm, thread, 3).unwrap())
            .unwrap();
        assert_eq!(object.prototype(), vm.memory_manager().integer_prototype());
        assert_eq!(integer_in(&vm, thread, 1), Some(left));
    }
}

#[test]
fn named_integer_handlers() {
    let (mut vm, thread) = machine();
    put_integer(&mut vm, thread, 1, 12);
    put_integer(&mut vm, thread, 2, 5);
    let code = empty_code();
    let i = ins(InstructionType::IntegerAdd, vec![3, 1, 2]);

    vm.ins_integer_add(thread, &code, &i).unwrap();
    assert_eq!(integer_in(&vm, thread, 3), Some(17));
    vm.ins_integer_sub(thread, &code, &i).unwrap();
    assert_eq!(integer_in(&vm, thread, 3), Some(7));
    vm.ins_integer_mul(thread, &code, &i).unwrap();
    assert_eq!(integer_in(&vm, thread, 3), Some(60));
    vm.ins_integer_div(thread, &code, &i).unwrap();
    assert_eq!(integer_in(&vm, thread, 3), Some(2));
    vm.ins_integer_mod(thread, &code, &i).unwrap();
    assert_eq!(integer_in(&vm, thread, 3), Some(2));
    vm.ins_integer_bitwise_and(thread, &code, &i).unwrap();
    assert_eq!(integer_in(&vm, thread, 3), Some(4));
    vm.ins_integer_bitwise_or(thread, &code, &i).unwrap();
    assert_eq!(integer_in(&vm, thread, 3), Some(13));
    vm.ins_integer_bitwise_xor(thread, &code, &i).unwrap();
    assert_eq!(integer_in(&vm, thread, 3), Some(9));
    vm.ins_integer_shift_left(thread, &code, &i).unwrap();
    assert_eq!(integer_in(&vm, thread, 3), Some(384));
    vm.ins_integer_shift_right(thread, &code, &i).unwrap();
    assert_eq!(integer_in(&vm, thread, 3), Some(0));

    let truth = vm.memory_manager().true_object();
    let falsehood = vm.memory_manager().false_object();
    vm.ins_integer_smaller(thread, &code, &i).unwrap();
    assert_eq!(register(&vm, thread, 3), falsehood);
    vm.ins_integer_greater(thread, &code, &i).unwrap();
    assert_eq!(register(&vm, thread, 3), truth);
    vm.ins_integer_equal(thread, &code, &i).unwrap();
    assert_eq!(register(&vm, thread, 3), falsehood);
    vm.ins_integer_equal(thread, &code, &ins(InstructionType::IntegerEqual, vec![3, 1, 1]))
        .unwrap();
    assert_eq!(register(&vm, thread, 3), truth);
}

#[test]
fn division_by_zero_is_an_arithmetic_error() {
    for instruction_type in [InstructionType::IntegerDiv, InstructionType::IntegerMod] {
        let (mut vm, thread) = machine();
        put_integer(&mut vm, thread, 1, 7);
        put_integer(&mut vm, thread, 2, 0);
        let code = empty_code();
        let objects = vm.memory_manager().len();

        let result = vm.dispatch(thread, &code, &ins(instruction_type, vec![3, 1, 2]));

        let fault = result.unwrap_err();
        assert_eq!(fault, Fault::DivisionByZero);
        assert_eq!(fault.kind(), FaultKind::Arithmetic);
        assert_eq!(register(&vm, thread, 3), None);
        assert_eq!(vm.memory_manager().len(), objects);
    }
}

#[test]
fn integer_instructions_want_integers() {
    let (mut vm, thread) = machine();
    put_integer(&mut vm, thread, 1, 7);
    let code = empty_code();

    let right = vm.dispatch(thread, &code, &ins(InstructionType::IntegerAdd, vec![3, 1, 0]));
    assert_eq!(right, Err(Fault::NotAnInteger { slot: 0 }));
    let left = vm.dispatch(thread, &code, &ins(InstructionType::IntegerSmaller, vec![3, 0, 1]));
    let fault = left.unwrap_err();
    assert_eq!(fault, Fault::NotAnInteger { slot: 0 });
    assert_eq!(fault.kind(), FaultKind::Type);
    assert_eq!(
        vm.ins_integer_to_string(thread, &code, &ins(InstructionType::IntegerToString, vec![3, 0])),
        Err(Fault::NotAnInteger { slot: 0 })
    );
    assert_eq!(
        vm.ins_integer_to_float(thread, &code, &ins(InstructionType::IntegerToFloat, vec![3, 0])),
        Err(Fault::NotAnInteger { slot: 0 })
    );
    assert_eq!(register(&vm, thread, 3), None);
}

#[test]
fn comparisons_need_the_singleton_they_produce() {
    let (mut vm, thread) = bare_machine();
    let code = empty_code();
    vm.ins_set_object(thread, &code, &ins(InstructionType::SetObject, vec![0]))
        .unwrap();
    vm.dispatch(thread, &code, &ins(InstructionType::SetIntegerPrototype, vec![0]))
        .unwrap();
    vm.dispatch(thread, &code, &ins(InstructionType::SetTruePrototype, vec![0]))
        .unwrap();
    put_integer(&mut vm, thread, 1, 1);
    put_integer(&mut vm, thread, 2, 2);

    assert_eq!(
        vm.dispatch(thread, &code, &ins(InstructionType::IntegerSmaller, vec![3, 1, 2])),
        Ok(Step::Continue)
    );
    assert_eq!(register(&vm, thread, 3), vm.memory_manager().true_object());
    assert_eq!(
        vm.dispatch(thread, &code, &ins(InstructionType::IntegerGreater, vec![4, 1, 2])),
        Err(Fault::PrototypeMissing { kind: PrototypeKind::False })
    );
    assert_eq!(register(&vm, thread, 4), None);
}

#[test]
fn integer_conversions() {
    let (mut vm, thread) = machine();
    put_integer(&mut vm, thread, 1, -1250);
    let code = empty_code();

    vm.ins_integer_to_string(thread, &code, &ins(InstructionType::IntegerToString, vec![2, 1]))
        .unwrap();
    vm.ins_integer_to_float(thread, &code, &ins(InstructionType::IntegerToFloat, vec![3, 1]))
        .unwrap();

    let memory = vm.memory_manager();
    let text = memory.object(register(&vm, thread, 2).unwrap()).unwrap();
    let float = memory.object(register(&vm, thread, 3).unwrap()).unwrap();
    assert!(matches!(text.value(), ObjectValue::String(s) if s == "-1250"));
    assert_eq!(text.prototype(), memory.string_prototype());
    assert_eq!(float.value().as_float().map(f64::from_bits), Some(-1250.0));
    assert_eq!(float.prototype(), memory.float_prototype());
}

#[test]
fn a_register_that_names_no_object_is_a_decode_error() {
    let (mut vm, thread) = machine();
    vm.thread_mut(thread).set_register(8, 4_000);
    put_integer(&mut vm, thread, 1, 1);
    let mut code = empty_code();
    code.add_string_literal("x".to_string());
    code.add_code_object(Arc::new(empty_code()));

    let cases: Vec<(InstructionType, Vec<u32>)> = vec![
        (InstructionType::SetName, vec![8, 0]),
        (InstructionType::SetConst, vec![8, 1, 0]),
        (InstructionType::SetAttr, vec![8, 1, 0]),
        (InstructionType::GetConst, vec![2, 8, 0]),
        (InstructionType::GetAttr, vec![2, 8, 0]),
        (InstructionType::DefMethod, vec![8, 0, 0]),
        (InstructionType::IntegerAdd, vec![2, 8, 1]),
        (InstructionType::IntegerAdd, vec![2, 1, 8]),
        (InstructionType::IntegerEqual, vec![2, 1, 8]),
        (InstructionType::IntegerToString, vec![2, 8]),
        (InstructionType::IntegerToFloat, vec![2, 8]),
    ];
    for (instruction_type, arguments) in cases {
        let fault = vm
            .dispatch(thread, &code, &ins(instruction_type, arguments))
            .unwrap_err();
        assert_eq!(fault, Fault::UndefinedObject { object: 4_000 });
        assert_eq!(fault.kind(), FaultKind::Decode);
    }
    // A message to it finds no method.
    assert_eq!(
        vm.dispatch(thread, &code, &ins(InstructionType::Send, vec![2, 8, 0, 1, 0])),
        Err(Fault::UndefinedMethod { name: "x".to_string() })
    );
}

#[test]
fn jumps_and_returns_are_decoded() {
    let (mut vm, thread) = machine();
    let code = empty_code();
    vm.ins_set_true(thread, &code, &ins(InstructionType::SetTrue, vec![1]))
        .unwrap();
    vm.ins_set_false(thread, &code, &ins(InstructionType::SetFalse, vec![2]))
        .unwrap();

    assert_eq!(vm.ins_goto(thread, &code, &ins(InstructionType::Goto, vec![12])), Ok(12));

    let if_false = |vm: &VirtualMachine, slot: u32| {
        vm.ins_goto_if_false(thread, &code, &ins(InstructionType::GotoIfFalse, vec![12, slot]))
    };
    assert_eq!(if_false(&vm, 1), Ok(None));
    assert_eq!(if_false(&vm, 2), Ok(Some(12)));
    assert_eq!(if_false(&vm, 9), Ok(Some(12)));
    assert_eq!(if_false(&vm, 0), Ok(None));

    let if_true = |vm: &VirtualMachine, slot: u32| {
        vm.ins_goto_if_true(thread, &code, &ins(InstructionType::GotoIfTrue, vec![12, slot]))
    };
    assert_eq!(if_true(&vm, 1), Ok(Some(12)));
    assert_eq!(if_true(&vm, 2), Ok(None));
    assert_eq!(if_true(&vm, 9), Ok(None));
    assert_eq!(if_true(&vm, 0), Ok(Some(12)));

    assert_eq!(
        vm.ins_return(thread, &code, &ins(InstructionType::Return, vec![1])),
        Ok(register(&vm, thread, 1))
    );
    assert_eq!(vm.ins_return(thread, &code, &ins(InstructionType::Return, vec![9])), Ok(None));
}

fn method(name: &str, required_arguments: usize, private: bool) -> Arc<CompiledCode> {
    let mut code = CompiledCode::new(name.to_string(), "methods.src".to_string(), 5, Vec::new());
    code.set_required_arguments(required_arguments);
    code.set_private(private);
    Arc::new(code)
}

#[test]
fn def_method_and_send() {
    let (mut vm, thread) = machine();
    put_integer(&mut vm, thread, 1, 4);
    put_integer(&mut vm, thread, 2, 5);
    put_integer(&mut vm, thread, 3, 6);
    let mut code = empty_code();
    code.add_string_literal("two".to_string());
    code.add_code_object(method("two", 2, false));
    // Defined on the prototype, found from the integer.
    vm.ins_def_method(thread, &code, &ins(InstructionType::DefMethod, vec![0, 0, 0]))
        .unwrap();

    vm.ins_send(thread, &code, &ins(InstructionType::Send, vec![7, 1, 0, 0, 2, 3, 2]))
        .unwrap();

    let t = vm.thread(thread).unwrap();
    assert_eq!(t.caller_count(), 1);
    let callee = t.frame();
    assert_eq!(callee.name(), "two");
    assert_eq!(callee.file(), "methods.src");
    assert_eq!(callee.line(), 5);
    assert_eq!(callee.ip(), 0);
    assert_eq!(callee.return_to(), Some(7));
    assert_eq!(callee.local_count(), 3);
    assert_eq!(callee.get_local(0), t.get_register(1));
    assert_eq!(callee.get_local(1), t.get_register(3));
    assert_eq!(callee.get_local(2), t.get_register(2));
}

#[test]
fn send_failures_are_dispatch_errors() {
    let (mut vm, thread) = machine();
    put_integer(&mut vm, thread, 1, 4);
    let mut code = empty_code();
    code.add_string_literal("hidden".to_string());
    code.add_string_literal("unknown".to_string());
    code.add_code_object(method("hidden", 1, true));
    vm.ins_def_method(thread, &code, &ins(InstructionType::DefMethod, vec![1, 0, 0]))
        .unwrap();

    let unknown = vm
        .ins_send(thread, &code, &ins(InstructionType::Send, vec![7, 1, 1, 1, 0]))
        .unwrap_err();
    assert_eq!(unknown, Fault::UndefinedMethod { name: "unknown".to_string() });
    assert_eq!(unknown.kind(), FaultKind::Dispatch);

    let private = vm
        .ins_send(thread, &code, &ins(InstructionType::Send, vec![7, 1, 0, 0, 1, 1]))
        .unwrap_err();
    assert_eq!(private, Fault::PrivateMethod { name: "hidden".to_string() });
    assert_eq!(private.kind(), FaultKind::Dispatch);

    let count = vm
        .ins_send(thread, &code, &ins(InstructionType::Send, vec![7, 1, 0, 1, 2, 1, 1]))
        .unwrap_err();
    assert_eq!(
        count,
        Fault::ArgumentCount { name: "hidden".to_string(), required: 1, given: 2 }
    );
    assert_eq!(count.kind(), FaultKind::Dispatch);

    assert_eq!(
        vm.ins_send(thread, &code, &ins(InstructionType::Send, vec![7, 1, 5, 1, 0])),
        Err(Fault::UndefinedLiteral { pool: LiteralPool::String, index: 5 })
    );
    assert_eq!(vm.thread(thread).unwrap().caller_count(), 0);

    // Allowed to call private methods, with the right number of arguments.
    vm.ins_send(thread, &code, &ins(InstructionType::Send, vec![7, 1, 0, 1, 1, 1]))
        .unwrap();
    assert_eq!(vm.thread(thread).unwrap().caller_count(), 1);
}

#[test]
fn run_code_calls_without_a_receiver() {
    let (mut vm, thread) = machine();
    put_integer(&mut vm, thread, 1, 4);
    let mut code = empty_code();
    code.add_code_object(method("block", 5, true));

    vm.ins_run_code(thread, &code, &ins(InstructionType::RunCode, vec![7, 0, 2, 1, 0]))
        .unwrap();

    let t = vm.thread(thread).unwrap();
    assert_eq!(t.caller_count(), 1);
    assert_eq!(t.frame().name(), "block");
    assert_eq!(t.frame().return_to(), Some(7));
    assert_eq!(t.frame().local_count(), 2);
    assert_eq!(t.frame().get_local(0), t.get_register(1));
    assert_eq!(t.frame().get_local(1), t.get_register(0));

    let missing = vm
        .ins_run_code(thread, &code, &ins(InstructionType::RunCode, vec![7, 3, 0]))
        .unwrap_err();
    assert_eq!(missing, Fault::UndefinedCodeObject { index: 3 });
    assert_eq!(missing.kind(), FaultKind::Decode);
    assert_eq!(
        vm.ins_def_method(thread, &code, &ins(InstructionType::DefMethod, vec![0, 0, 0])),
        Err(Fault::UndefinedLiteral { pool: LiteralPool::String, index: 0 })
    );
}

#[test]
fn start_thread_registers_a_thread() {
    let (mut vm, thread) = machine();
    let mut code = empty_code();
    code.add_code_object(method("worker", 0, false));

    vm.ins_start_thread(thread, &code, &ins(InstructionType::StartThread, vec![4, 0]))
        .unwrap();

    assert_eq!(vm.threads().len(), 2);
    let object = register(&vm, thread, 4).unwrap();
    let started = vm.thread(1).unwrap();
    assert!(started.is_live());
    assert!(!started.is_main());
    assert_eq!(started.object(), Some(object));
    assert_eq!(started.frame().name(), "worker");
    assert_eq!(started.get_register(0), None);
    let thread_object = vm.memory_manager().object(object).unwrap();
    assert_eq!(thread_object.value().as_thread(), Some(1));
    assert!(thread_object.is_pinned());
    assert_eq!(thread_object.prototype(), vm.memory_manager().thread_prototype());
    assert_eq!(
        vm.ins_start_thread(thread, &code, &ins(InstructionType::StartThread, vec![4, 1])),
        Err(Fault::UndefinedCodeObject { index: 1 })
    );
}

#[test]
fn fault_messages() {
    let name = || "inc".to_string();
    let cases: Vec<(Fault, &str, FaultKind)> = vec![
        (Fault::MissingArgument { position: 2 }, "missing argument 2", FaultKind::Decode),
        (
            Fault::UnexpectedArgument { position: 3 },
            "unexpected argument 3",
            FaultKind::Decode,
        ),
        (
            Fault::UndefinedLiteral { pool: LiteralPool::Integer, index: 3 },
            "undefined integer literal 3",
            FaultKind::Decode,
        ),
        (
            Fault::UndefinedLiteral { pool: LiteralPool::Float, index: 0 },
            "undefined float literal 0",
            FaultKind::Decode,
        ),
        (
            Fault::UndefinedLiteral { pool: LiteralPool::String, index: 12 },
            "undefined string literal 12",
            FaultKind::Decode,
        ),
        (
            Fault::UndefinedCodeObject { index: 4 },
            "undefined code object 4",
            FaultKind::Decode,
        ),
        (Fault::UndefinedRegister { slot: 5 }, "undefined register 5", FaultKind::Decode),
        (
            Fault::UndefinedLocal { index: 6 },
            "undefined local variable 6",
            FaultKind::Decode,
        ),
        (Fault::UndefinedObject { object: 70 }, "undefined object 70", FaultKind::Decode),
        (
            Fault::UndefinedConstant { name: name() },
            "undefined constant inc",
            FaultKind::Decode,
        ),
        (
            Fault::UndefinedAttribute { name: name() },
            "undefined attribute \"inc\"",
            FaultKind::Decode,
        ),
        (Fault::UndefinedThread { thread: 8 }, "undefined thread 8", FaultKind::Decode),
        (
            Fault::NotAnInteger { slot: 9 },
            "the object in register 9 is not an integer",
            FaultKind::Type,
        ),
        (Fault::DivisionByZero, "division by zero", FaultKind::Arithmetic),
        (
            Fault::UndefinedMethod { name: name() },
            "undefined method \"inc\"",
            FaultKind::Dispatch,
        ),
        (
            Fault::PrivateMethod { name: name() },
            "private method \"inc\"",
            FaultKind::Dispatch,
        ),
        (
            Fault::ArgumentCount { name: name(), required: 10, given: 0 },
            "\"inc\" requires 10 arguments, 0 given",
            FaultKind::Dispatch,
        ),
        (
            Fault::PrototypeAlreadyDefined { kind: PrototypeKind::Boolean },
            "Boolean prototype already defined",
            FaultKind::Setup,
        ),
        (
            Fault::PrototypeMissing { kind: PrototypeKind::Integer },
            "no Integer prototype set up",
            FaultKind::Setup,
        ),
    ];
    for (fault, message, kind) in cases {
        assert_eq!(fault.message(), message);
        assert_eq!(fault.kind(), kind);
    }
    let kinds = [
        (PrototypeKind::Integer, "Integer"),
        (PrototypeKind::Float, "Float"),
        (PrototypeKind::String, "String"),
        (PrototypeKind::Array, "Array"),
        (PrototypeKind::Block, "Block"),
        (PrototypeKind::Thread, "Thread"),
        (PrototypeKind::True, "True"),
        (PrototypeKind::False, "False"),
        (PrototypeKind::Boolean, "Boolean"),
    ];
    for (kind, text) in kinds {
        assert_eq!(kind.as_str(), text);
    }
    assert_eq!(LiteralPool::Integer.as_str(), "integer");
    assert_eq!(LiteralPool::Float.as_str(), "float");
    assert_eq!(LiteralPool::String.as_str(), "string");
}
