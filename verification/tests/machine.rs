use proto_vm::call_frame::CallFrame;
use proto_vm::compiled_code::{CompiledCode, RcCompiledCode};
use proto_vm::error::Fault;
use proto_vm::instruction::{Instruction, InstructionType};
use proto_vm::object::ObjectId;
use proto_vm::semantics::Step;
use proto_vm::thread::Thread;
use proto_vm::virtual_machine::VirtualMachine;
use std::sync::Arc;

const FUEL: u64 = 10_000;

fn ins(instruction_type: InstructionType, arguments: Vec<u32>) -> Instruction {
    Instruction::new(instruction_type, arguments, 1, 1)
}

fn code(name: &str, line: u32, instructions: Vec<Instruction>) -> CompiledCode {
    CompiledCode::new(name.to_string(), "machine.src".to_string(), line, instructions)
}

fn integer_of(vm: &VirtualMachine, object: ObjectId) -> Option<i64> {
    vm.memory_manager().object(object).unwrap().value().as_integer()
}

#[test]
fn a_new_machine() {
    let vm = VirtualMachine::new();
    assert_eq!(vm.threads().len(), 0);
    assert_eq!(vm.memory_manager().len(), 1);
    assert_eq!(vm.exit_status(), Ok(()));
    assert_eq!(vm.error_count(), 0);
    assert!(vm.error_report(0).is_none());
    assert!(vm.thread(0).is_none());
}

#[test]
fn stepping_an_unknown_thread_is_a_fault() {
    let mut vm = VirtualMachine::new();
    assert_eq!(vm.step(3), Err(Fault::UndefinedThread { thread: 3 }));
    assert_eq!(vm.resume(3, FUEL), Err(Fault::UndefinedThread { thread: 3 }));
    assert_eq!(vm.resume(3, 0), Ok(Step::Continue));
    assert_eq!(
        vm.run(3, Arc::new(code("main", 1, vec![])), FUEL),
        Err(Fault::UndefinedThread { thread: 3 })
    );
    assert_eq!(
        vm.run_code(3, Arc::new(code("main", 1, vec![])), vec![], FUEL),
        Err(Fault::UndefinedThread { thread: 3 })
    );
    assert_eq!(vm.threads().len(), 0);
}

#[test]
fn steps_execute_one_instruction_each() {
    let mut main = code(
        "main",
        1,
        vec![
            ins(InstructionType::SetObject, vec![0]),
            ins(InstructionType::SetIntegerPrototype, vec![0]),
            ins(InstructionType::SetInteger, vec![1, 0]),
            ins(InstructionType::Return, vec![1]),
        ],
    );
    main.add_integer_literal(10);
    let mut vm = VirtualMachine::new();
    vm.run_thread(Arc::new(main), true);

    for expected_ip in 1..4 {
        assert_eq!(vm.step(0), Ok(Step::Continue));
        assert_eq!(vm.thread(0).unwrap().frame().ip(), expected_ip);
    }
    let value = vm.thread(0).unwrap().get_register(1);
    assert_eq!(vm.step(0), Ok(Step::Finished(value)));
    assert_eq!(integer_of(&vm, value.unwrap()), Some(10));
    // The frame that ended the run stays at its end.
    assert_eq!(vm.thread(0).unwrap().frame().ip(), 4);
    assert_eq!(vm.step(0), Ok(Step::Finished(None)));
}

#[test]
fn code_without_a_return_finishes_without_a_value() {
    let main = code("main", 1, vec![ins(InstructionType::SetObject, vec![0])]);
    let mut vm = VirtualMachine::new();
    let thread = vm.add_thread(Thread::new(
        CallFrame::new("foo".to_string(), "foo.src".to_string(), 1),
        None,
    ));

    assert_eq!(vm.run(thread, Arc::new(main), FUEL), Ok(Step::Finished(None)));
    assert!(vm.thread(thread).unwrap().get_register(0).is_some());
    // The frame keeps its place in the source.
    assert_eq!(vm.thread(thread).unwrap().frame().name(), "foo");
}

#[test]
fn return_ends_the_frame_at_once() {
    let main = code(
        "main",
        1,
        vec![
            ins(InstructionType::SetObject, vec![0]),
            ins(InstructionType::Return, vec![0]),
            ins(InstructionType::SetObject, vec![1]),
        ],
    );
    let mut vm = VirtualMachine::new();
    vm.run_thread(Arc::new(main), true);

    let result = vm.resume(0, FUEL);

    let t = vm.thread(0).unwrap();
    assert_eq!(result, Ok(Step::Finished(t.get_register(0))));
    assert_eq!(t.get_register(1), None);
}

#[test]
fn a_jump_past_the_end_finishes_the_frame() {
    let main = code(
        "main",
        1,
        vec![
            ins(InstructionType::Goto, vec![40]),
            ins(InstructionType::SetObject, vec![1]),
        ],
    );
    let mut vm = VirtualMachine::new();
    vm.run_thread(Arc::new(main), true);

    assert_eq!(vm.step(0), Ok(Step::Continue));
    assert_eq!(vm.thread(0).unwrap().frame().ip(), 40);
    assert_eq!(vm.step(0), Ok(Step::Finished(None)));
    assert_eq!(vm.thread(0).unwrap().get_register(1), None);
}

#[test]
fn conditional_jumps_set_the_next_instruction() {
    for (jump, tested, taken) in [
        (InstructionType::GotoIfFalse, InstructionType::SetFalse, true),
        (InstructionType::GotoIfFalse, InstructionType::SetTrue, false),
        (InstructionType::GotoIfTrue, InstructionType::SetTrue, true),
        (InstructionType::GotoIfTrue, InstructionType::SetFalse, false),
    ] {
        let main = code(
            "main",
            1,
            vec![
                ins(InstructionType::SetObject, vec![0]),
                ins(InstructionType::SetTruePrototype, vec![0]),
                ins(InstructionType::SetFalsePrototype, vec![0]),
                ins(tested, vec![1]),
                ins(jump, vec![9, 1]),
            ],
        );
        let mut vm = VirtualMachine::new();
        vm.run_thread(Arc::new(main), true);
        assert_eq!(vm.resume(0, 4), Ok(Step::Continue));
        assert_eq!(vm.thread(0).unwrap().frame().ip(), 4);

        assert_eq!(vm.step(0), Ok(Step::Continue));

        let expected = if taken { 9 } else { 5 };
        assert_eq!(vm.thread(0).unwrap().frame().ip(), expected);
    }
}

#[test]
fn an_unwritten_register_counts_as_false() {
    for (jump, expected) in [
        (InstructionType::GotoIfFalse, 7),
        (InstructionType::GotoIfTrue, 1),
    ] {
        let main = code("main", 1, vec![ins(jump, vec![7, 3])]);
        let mut vm = VirtualMachine::new();
        vm.run_thread(Arc::new(main), true);
        assert_eq!(vm.step(0), Ok(Step::Continue));
        assert_eq!(vm.thread(0).unwrap().frame().ip(), expected);
    }
}

#[test]
fn a_fault_leaves_the_thread_where_it_was() {
    let main = code(
        "main",
        1,
        vec![
            ins(InstructionType::SetObject, vec![0]),
            ins(InstructionType::SetInteger, vec![1, 0]),
        ],
    );
    let mut vm = VirtualMachine::new();
    vm.run_thread(Arc::new(main), true);
    assert_eq!(vm.step(0), Ok(Step::Continue));
    let objects = vm.memory_manager().len();

    for _ in 0..3 {
        assert!(vm.step(0).is_err());
        assert_eq!(vm.thread(0).unwrap().frame().ip(), 1);
        assert_eq!(vm.thread(0).unwrap().get_register(1), None);
        assert_eq!(vm.memory_manager().len(), objects);
    }
    assert_eq!(vm.exit_status(), Ok(()));
}

#[test]
fn a_stopped_thread_does_nothing() {
    let main = code("main", 1, vec![ins(InstructionType::SetObject, vec![0])]);
    let mut vm = VirtualMachine::new();
    vm.run_thread(Arc::new(main), true);
    vm.thread_mut(0).stop();

    assert_eq!(vm.step(0), Ok(Step::Stopped));
    assert_eq!(vm.resume(0, FUEL), Ok(Step::Stopped));
    assert_eq!(vm.thread(0).unwrap().get_register(0), None);
    assert_eq!(vm.thread(0).unwrap().frame().ip(), 0);
}

#[test]
fn fuel_bounds_the_number_of_steps() {
    let main = code(
        "main",
        1,
        vec![
            ins(InstructionType::SetObject, vec![0]),
            ins(InstructionType::SetObject, vec![1]),
            ins(InstructionType::SetObject, vec![2]),
        ],
    );
    let mut vm = VirtualMachine::new();
    vm.run_thread(Arc::new(main), true);

    assert_eq!(vm.resume(0, 0), Ok(Step::Continue));
    assert_eq!(vm.thread(0).unwrap().frame().ip(), 0);
    assert_eq!(vm.resume(0, 2), Ok(Step::Continue));
    assert_eq!(vm.thread(0).unwrap().frame().ip(), 2);
    assert_eq!(vm.thread(0).unwrap().get_register(2), None);
    assert_eq!(vm.resume(0, 2), Ok(Step::Finished(None)));
    assert!(vm.thread(0).unwrap().get_register(2).is_some());
}

fn add_locals() -> RcCompiledCode {
    // Returns the sum of its first two local variables.
    Arc::new(code(
        "add",
        20,
        vec![
            ins(InstructionType::GetLocal, vec![10, 0]),
            ins(InstructionType::GetLocal, vec![11, 1]),
            ins(InstructionType::IntegerAdd, vec![12, 10, 11]),
            ins(InstructionType::Return, vec![12]),
        ],
    ))
}

fn twice() -> RcCompiledCode {
    // Calls `add` with its receiver twice: returns the double of the receiver.
    let mut method = code(
        "twice",
        10,
        vec![
            ins(InstructionType::GetLocal, vec![20, 0]),
            ins(InstructionType::RunCode, vec![21, 0, 2, 20, 20]),
            ins(InstructionType::Return, vec![21]),
        ],
    );
    method.add_code_object(add_locals());
    Arc::new(method)
}

fn nested_calls() -> CompiledCode {
    let mut main = code(
        "main",
        1,
        vec![
            ins(InstructionType::SetObject, vec![0]),
            ins(InstructionType::SetIntegerPrototype, vec![0]),
            ins(InstructionType::SetInteger, vec![1, 0]),
            ins(InstructionType::DefMethod, vec![0, 0, 0]),
            ins(InstructionType::Send, vec![2, 1, 0, 0, 0]),
            ins(InstructionType::Send, vec![3, 2, 0, 0, 0]),
            ins(InstructionType::Return, vec![3]),
        ],
    );
    main.add_integer_literal(21);
    main.add_string_literal("twice".to_string());
    main.add_code_object(twice());
    main
}

#[test]
fn every_frame_pushed_is_popped_when_a_run_finishes() {
    let mut vm = VirtualMachine::new();
    let thread = vm.add_thread(Thread::new(
        CallFrame::new("foo".to_string(), "foo.src".to_string(), 1),
        None,
    ));
    vm.thread_mut(thread)
        .push_call_frame(CallFrame::new("bar".to_string(), "bar.src".to_string(), 2));
    assert_eq!(vm.thread(thread).unwrap().caller_count(), 1);

    let result = vm.run(thread, Arc::new(nested_calls()), FUEL);

    let value = match result {
        Ok(Step::Finished(Some(value))) => value,
        other => panic!("{:?}", other),
    };
    assert_eq!(integer_of(&vm, value), Some(84));
    let t = vm.thread(thread).unwrap();
    assert_eq!(t.caller_count(), 1);
    assert_eq!(t.frame().name(), "bar");
    assert_eq!(t.frame_at(0).unwrap().name(), "foo");
}

#[test]
fn frames_grow_and_shrink_with_calls() {
    let mut vm = VirtualMachine::new();
    vm.run_thread(Arc::new(nested_calls()), true);
    let mut deepest = 0;
    let mut steps = 0;
    loop {
        match vm.step(0).unwrap() {
            Step::Continue => {
                deepest = deepest.max(vm.thread(0).unwrap().caller_count());
                steps += 1;
            }
            Step::Finished(value) => {
                assert_eq!(integer_of(&vm, value.unwrap()), Some(84));
                break;
            }
            Step::Stopped => panic!("stopped"),
        }
    }
    assert_eq!(deepest, 2);
    assert_eq!(steps, 6 + 2 * (2 + 4 + 1));
    assert_eq!(vm.thread(0).unwrap().caller_count(), 0);
}

#[test]
fn a_return_without_a_value_leaves_the_result_register() {
    let callee = code("callee", 5, vec![ins(InstructionType::Return, vec![30])]);
    let mut main = code(
        "main",
        1,
        vec![
            ins(InstructionType::SetObject, vec![2]),
            ins(InstructionType::RunCode, vec![2, 0, 0]),
            ins(InstructionType::RunCode, vec![3, 0, 0]),
        ],
    );
    main.add_code_object(Arc::new(callee));
    let mut vm = VirtualMachine::new();
    vm.run_thread(Arc::new(main), true);
    assert_eq!(vm.step(0), Ok(Step::Continue));
    let before = vm.thread(0).unwrap().get_register(2);

    assert_eq!(vm.resume(0, FUEL), Ok(Step::Finished(None)));

    assert_eq!(vm.thread(0).unwrap().get_register(2), before);
    assert_eq!(vm.thread(0).unwrap().get_register(3), None);
    assert_eq!(vm.thread(0).unwrap().caller_count(), 0);
}

#[test]
fn run_code_calls_and_drops_its_frame() {
    let mut vm = VirtualMachine::new();
    let thread = vm.add_thread(Thread::new(
        CallFrame::new("foo".to_string(), "foo.src".to_string(), 1),
        None,
    ));
    let setup = {
        let mut setup = code(
            "setup",
            1,
            vec![
                ins(InstructionType::SetObject, vec![0]),
                ins(InstructionType::SetIntegerPrototype, vec![0]),
                ins(InstructionType::SetInteger, vec![1, 0]),
                ins(InstructionType::SetInteger, vec![2, 1]),
            ],
        );
        setup.add_integer_literal(30);
        setup.add_integer_literal(12);
        setup
    };
    assert_eq!(vm.run(thread, Arc::new(setup), FUEL), Ok(Step::Finished(None)));
    let a = vm.thread(thread).unwrap().get_register(1).unwrap();
    let b = vm.thread(thread).unwrap().get_register(2).unwrap();

    let result = vm.run_code(thread, add_locals(), vec![a, b], FUEL);

    let value = match result {
        Ok(Step::Finished(Some(value))) => value,
        other => panic!("{:?}", other),
    };
    assert_eq!(integer_of(&vm, value), Some(42));
    assert_eq!(vm.thread(thread).unwrap().caller_count(), 0);
    assert_eq!(vm.thread(thread).unwrap().frame().name(), "foo");

    // A call that faults keeps its frame, for the report.
    let failed = vm.run_code(thread, add_locals(), vec![a], FUEL);
    assert_eq!(failed, Err(Fault::UndefinedLocal { index: 1 }));
    assert_eq!(vm.thread(thread).unwrap().caller_count(), 1);
    assert_eq!(vm.thread(thread).unwrap().frame().name(), "add");

    // A call that runs out of fuel keeps its frame, too.
    let unfinished = vm.run_code(thread, add_locals(), vec![a, b], 2);
    assert_eq!(unfinished, Ok(Step::Continue));
    assert_eq!(vm.thread(thread).unwrap().caller_count(), 2);
}

#[test]
fn error_writes_a_report_with_the_frames() {
    let mut vm = VirtualMachine::new();
    let thread = vm.add_thread(Thread::new(
        CallFrame::new("outer".to_string(), "a.src".to_string(), 3),
        None,
    ));
    vm.thread_mut(thread)
        .push_call_frame(CallFrame::new("middle".to_string(), "b.src".to_string(), 14));
    vm.thread_mut(thread)
        .push_call_frame(CallFrame::new("inner".to_string(), "c.src".to_string(), 159));

    vm.error(thread, "something broke".to_string());

    assert_eq!(vm.exit_status(), Err(()));
    assert_eq!(vm.error_count(), 1);
    assert_eq!(
        vm.error_report(0).unwrap(),
        "Fatal error:\n\nsomething broke\n\
         c.src line 159 in \"inner\"\n\
         b.src line 14 in \"middle\"\n\
         a.src line 3 in \"outer\"\n\n"
    );
    assert!(vm.error_report(1).is_none());

    vm.error(thread, String::new());
    assert_eq!(vm.error_count(), 2);
    assert!(vm.error_report(1).unwrap().starts_with("Fatal error:\n\n\nc.src line 159"));
}

#[test]
fn a_thread_that_ends_well_publishes_its_value() {
    let mut vm = VirtualMachine::new();
    let object = vm.run_thread(Arc::new(code("main", 1, vec![])), true);
    let other = vm.run_thread(Arc::new(code("other", 1, vec![])), false);
    assert!(vm.thread(0).unwrap().is_main());
    assert!(!vm.thread(1).unwrap().is_main());
    assert!(vm.memory_manager().object(object).unwrap().is_pinned());

    vm.finish_thread(0, Ok(Some(object)));

    let t = vm.thread(0).unwrap();
    assert!(!t.is_live());
    assert_eq!(t.value(), Some(object));
    assert!(!vm.memory_manager().object(object).unwrap().is_pinned());
    assert!(vm.memory_manager().object(other).unwrap().is_pinned());
    assert!(vm.thread(1).unwrap().is_live());
    assert!(!vm.thread(1).unwrap().should_stop());
    assert_eq!(vm.exit_status(), Ok(()));
    assert_eq!(vm.error_count(), 0);
}

#[test]
fn a_thread_that_ends_with_a_fault_stops_the_others() {
    let mut vm = VirtualMachine::new();
    vm.run_thread(Arc::new(code("main", 1, vec![])), true);
    vm.run_thread(Arc::new(code("second", 2, vec![])), false);
    vm.run_thread(Arc::new(code("third", 3, vec![])), false);
    vm.finish_thread(2, Ok(None));

    vm.finish_thread(1, Err(Fault::DivisionByZero));

    assert_eq!(vm.exit_status(), Err(()));
    assert_eq!(
        vm.error_report(0).unwrap(),
        "Fatal error:\n\ndivision by zero\nmachine.src line 2 in \"second\"\n\n"
    );
    assert!(vm.thread(0).unwrap().should_stop());
    assert!(vm.thread(0).unwrap().is_live());
    assert!(!vm.thread(1).unwrap().is_live());
    assert!(!vm.thread(1).unwrap().should_stop());
    assert!(!vm.thread(2).unwrap().should_stop());
    assert_eq!(vm.thread(1).unwrap().value(), None);
    assert_eq!(vm.step(0), Ok(Step::Stopped));
}

#[test]
fn a_fault_in_a_method_reports_both_frames() {
    let mut method = code("broken", 7, vec![ins(InstructionType::SetInteger, vec![0, 9])]);
    method.set_required_arguments(0);
    let mut main = code(
        "main",
        1,
        vec![
            ins(InstructionType::SetObject, vec![0]),
            ins(InstructionType::DefMethod, vec![0, 0, 0]),
            ins(InstructionType::Send, vec![1, 0, 0, 0, 0]),
        ],
    );
    main.add_string_literal("broken".to_string());
    main.add_code_object(Arc::new(method));
    let mut vm = VirtualMachine::new();

    let status = vm.start(Arc::new(main), FUEL);

    assert_eq!(status, Some(Err(())));
    assert_eq!(
        vm.error_report(0).unwrap(),
        "Fatal error:\n\nundefined integer literal 9\n\
         machine.src line 7 in \"broken\"\n\
         machine.src line 1 in \"main\"\n\n"
    );
}

#[test]
fn start_runs_the_threads_that_were_started() {
    let mut worker = code(
        "worker",
        5,
        vec![
            ins(InstructionType::GetToplevel, vec![0]),
            ins(InstructionType::SetInteger, vec![1, 0]),
            ins(InstructionType::SetConst, vec![0, 1, 0]),
            ins(InstructionType::Return, vec![1]),
        ],
    );
    worker.add_integer_literal(99);
    worker.add_string_literal("Answer".to_string());
    let mut main = code(
        "main",
        1,
        vec![
            ins(InstructionType::SetObject, vec![0]),
            ins(InstructionType::SetThreadPrototype, vec![0]),
            ins(InstructionType::SetIntegerPrototype, vec![0]),
            ins(InstructionType::StartThread, vec![1, 0]),
            ins(InstructionType::StartThread, vec![2, 0]),
        ],
    );
    main.add_code_object(Arc::new(worker));
    let mut vm = VirtualMachine::new();

    let status = vm.start(Arc::new(main), FUEL);

    assert_eq!(status, Some(Ok(())));
    assert_eq!(vm.threads().len(), 3);
    for thread in 0..3 {
        assert!(!vm.thread(thread).unwrap().is_live());
    }
    assert_eq!(vm.thread(0).unwrap().value(), None);
    for thread in 1..3 {
        let value = vm.thread(thread).unwrap().value().unwrap();
        assert_eq!(integer_of(&vm, value), Some(99));
    }
    let top = vm.memory_manager().object(vm.memory_manager().top_level()).unwrap();
    assert_eq!(top.lookup_constant(&"Answer".to_string()), vm.thread(2).unwrap().value());
}

#[test]
fn a_fault_in_one_thread_stops_those_still_to_run() {
    let worker = code("worker", 5, vec![ins(InstructionType::SetObject, vec![0])]);
    let mut main = code(
        "main",
        1,
        vec![
            ins(InstructionType::SetObject, vec![0]),
            ins(InstructionType::SetThreadPrototype, vec![0]),
            ins(InstructionType::StartThread, vec![1, 0]),
            ins(InstructionType::GetLocal, vec![2, 0]),
        ],
    );
    main.add_code_object(Arc::new(worker));
    let mut vm = VirtualMachine::new();

    let status = vm.start(Arc::new(main), FUEL);

    assert_eq!(status, Some(Err(())));
    assert_eq!(vm.error_count(), 1);
    // The worker was asked to stop before it ran.
    assert_eq!(vm.thread(1).unwrap().get_register(0), None);
    assert!(!vm.thread(1).unwrap().is_live());
}

#[test]
fn machines_are_isolated() {
    let mut first = VirtualMachine::new();
    let mut second = VirtualMachine::new();
    let mut main = code(
        "main",
        1,
        vec![
            ins(InstructionType::SetObject, vec![0]),
            ins(InstructionType::SetIntegerPrototype, vec![0]),
        ],
    );
    main.add_integer_literal(1);
    let main = Arc::new(main);

    assert_eq!(first.start(main.clone(), FUEL), Some(Ok(())));
    assert!(first.memory_manager().integer_prototype().is_some());
    assert!(second.memory_manager().integer_prototype().is_none());
    assert_eq!(second.start(main, FUEL), Some(Ok(())));
    assert_eq!(second.threads().len(), 1);
}

#[test]
fn memory_can_be_set_up_from_outside() {
    let mut vm = VirtualMachine::new();
    let proto = vm.memory_manager_mut().allocate_prepared(proto_vm::object::Object::new(
        proto_vm::object_value::none(),
    ));
    vm.memory_manager_mut().set_integer_prototype(proto).unwrap();
    let mut main = code("main", 1, vec![ins(InstructionType::SetInteger, vec![0, 0])]);
    main.add_integer_literal(5);

    assert_eq!(vm.start(Arc::new(main), FUEL), Some(Ok(())));
    let value = vm.thread(0).unwrap().get_register(0).unwrap();
    assert_eq!(integer_of(&vm, value), Some(5));
}

fn busy_program() -> CompiledCode {
    let mut worker = code(
        "worker",
        9,
        vec![
            ins(InstructionType::SetObject, vec![0]),
            ins(InstructionType::Return, vec![0]),
        ],
    );
    worker.set_required_arguments(0);
    let mut main = code(
        "main",
        1,
        vec![
            ins(InstructionType::SetObject, vec![0]),
            ins(InstructionType::SetObject, vec![1, 0]),
            ins(InstructionType::SetIntegerPrototype, vec![1]),
            ins(InstructionType::SetStringPrototype, vec![1]),
            ins(InstructionType::SetArrayPrototype, vec![0]),
            ins(InstructionType::SetTruePrototype, vec![0]),
            ins(InstructionType::SetFalsePrototype, vec![1]),
            ins(InstructionType::SetThreadPrototype, vec![1]),
            ins(InstructionType::SetInteger, vec![2, 0]),
            ins(InstructionType::IntegerToString, vec![3, 2]),
            ins(InstructionType::SetArray, vec![4, 2, 2, 3]),
            ins(InstructionType::SetAttr, vec![0, 4, 0]),
            ins(InstructionType::SetConst, vec![1, 3, 0]),
            ins(InstructionType::GetAttr, vec![5, 2, 0]),
            ins(InstructionType::IntegerEqual, vec![6, 2, 2]),
            ins(InstructionType::SetLocal, vec![3, 6]),
            ins(InstructionType::StartThread, vec![7, 0]),
            ins(InstructionType::SetObject, vec![8, 7]),
            ins(InstructionType::GetToplevel, vec![9]),
            ins(InstructionType::Return, vec![8]),
        ],
    );
    main.add_integer_literal(77);
    main.add_string_literal("things".to_string());
    main.add_code_object(Arc::new(worker));
    main
}

#[test]
fn a_machine_refers_to_objects_of_its_heap_only() {
    let mut vm = VirtualMachine::new();
    assert_eq!(vm.start(Arc::new(busy_program()), FUEL), Some(Ok(())));

    let memory = vm.memory_manager();
    let count = memory.len();
    for thread in 0..vm.threads().len() {
        let t = vm.thread(thread).unwrap();
        for slot in 0..16 {
            if let Some(object) = t.get_register(slot) {
                assert!(memory.contains(object));
            }
        }
        for index in 0..t.frame().local_count() {
            if let Some(object) = t.get_local(index) {
                assert!(memory.contains(object));
            }
        }
        assert!(memory.contains(t.object().unwrap()));
    }
    for id in 0..count {
        if let Some(prototype) = memory.object(id).unwrap().prototype() {
            assert!(prototype < count);
        }
    }
}

#[test]
fn prototype_links_form_no_cycle() {
    let mut vm = VirtualMachine::new();
    assert_eq!(vm.start(Arc::new(busy_program()), FUEL), Some(Ok(())));

    let memory = vm.memory_manager();
    let count = memory.len();
    for start in 0..count {
        let mut current = start;
        let mut links = 0;
        while let Some(prototype) = memory.object(current).unwrap().prototype() {
            current = prototype;
            links += 1;
            assert_ne!(current, start);
            assert!(links <= count);
        }
    }
    // The object of the main thread was made before the Thread prototype and
    // is linked to a younger object. Nothing refers to it.
    let main_object = vm.thread(0).unwrap().object().unwrap();
    let linked_to = memory.object(main_object).unwrap().prototype().unwrap();
    assert!(linked_to > main_object);
    assert_eq!(Some(linked_to), memory.thread_prototype());
}

#[test]
fn the_memory_keeps_what_it_holds() {
    let mut vm = VirtualMachine::new();
    vm.run_thread(Arc::new(busy_program()), true);
    let mut objects = vm.memory_manager().len();
    let mut integer_prototype = None;
    let mut payloads: Vec<Option<i64>> = Vec::new();
    loop {
        let step = vm.step(0).unwrap();
        let memory = vm.memory_manager();
        assert!(memory.len() >= objects);
        assert!(memory.len() <= objects + 1);
        objects = memory.len();
        if integer_prototype.is_some() {
            assert_eq!(memory.integer_prototype(), integer_prototype);
        }
        integer_prototype = memory.integer_prototype();
        for (id, payload) in payloads.iter().enumerate() {
            assert_eq!(memory.object(id).unwrap().value().as_integer(), *payload);
        }
        payloads = (0..objects)
            .map(|id| memory.object(id).unwrap().value().as_integer())
            .collect();
        assert_eq!(memory.top_level(), 0);
        if step != Step::Continue {
            break;
        }
    }
    assert!(integer_prototype.is_some());
}

#[test]
fn the_exit_status_tells_of_faults() {
    let mut vm = VirtualMachine::new();
    assert_eq!(vm.start(Arc::new(busy_program()), FUEL), Some(Ok(())));
    assert_eq!(vm.error_count(), 0);

    let mut vm = VirtualMachine::new();
    let broken = code("main", 1, vec![ins(InstructionType::SetTrue, vec![0])]);
    assert_eq!(vm.start(Arc::new(broken), FUEL), Some(Err(())));
    assert_eq!(vm.error_count(), 1);
    assert_eq!(
        vm.error_report(0).unwrap(),
        "Fatal error:\n\nno True prototype set up\nmachine.src line 1 in \"main\"\n\n"
    );
}
