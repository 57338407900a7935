use proto_vm::call_frame::CallFrame;
use proto_vm::compiled_code::CompiledCode;
use proto_vm::error::Fault;
use proto_vm::instruction::{Instruction, InstructionType};
use proto_vm::memory_manager::{MemoryManager, PrototypeKind};
use proto_vm::name_table::NameTable;
use proto_vm::object::Object;
use proto_vm::object_value::{array, float, integer, none, string, thread, ObjectValue};
use proto_vm::thread::Thread;
use proto_vm::thread_list::ThreadList;
use std::sync::Arc;

fn name(text: &str) -> String {
    text.to_string()
}

fn code(name: &str, required_arguments: usize) -> Arc<CompiledCode> {
    let mut code = CompiledCode::new(name.to_string(), "objects.src".to_string(), 3, Vec::new());
    code.set_required_arguments(required_arguments);
    Arc::new(code)
}

#[test]
fn name_table_binds_and_replaces() {
    let mut table: NameTable<usize> = NameTable::new();
    assert_eq!(table.get(&name("a")), None);

    table.insert(name("a"), 1);
    table.insert(name("b"), 2);
    assert_eq!(table.get(&name("a")), Some(&1));
    assert_eq!(table.get(&name("b")), Some(&2));
    assert_eq!(table.get(&name("c")), None);

    table.insert(name("a"), 3);
    assert_eq!(table.get(&name("a")), Some(&3));
    assert_eq!(table.get(&name("b")), Some(&2));
    assert_eq!(table.get(&name("")), None);
}

#[test]
fn instruction_arguments() {
    let instruction = Instruction::new(InstructionType::SetInteger, vec![4, 9], 7, 2);
    assert_eq!(instruction.instruction_type, InstructionType::SetInteger);
    assert_eq!(instruction.argument(0), Some(4));
    assert_eq!(instruction.argument(1), Some(9));
    assert_eq!(instruction.argument(2), None);
    assert_eq!(instruction.line, 7);
    assert_eq!(instruction.column, 2);
}

#[test]
fn compiled_code_pools() {
    let mut code =
        CompiledCode::new("main".to_string(), "main.src".to_string(), 12, Vec::new());
    assert_eq!(code.required_arguments, 0);
    assert!(!code.is_private());
    assert_eq!(code.integer_literal(0), None);
    assert_eq!(code.float_literal(0), None);
    assert_eq!(code.string_literal(0), None);
    assert!(code.code_object(0).is_none());

    code.add_integer_literal(-5);
    code.add_float_literal(1.5f64.to_bits());
    code.add_string_literal("hello".to_string());
    code.add_code_object(Arc::new(CompiledCode::new(
        "nested".to_string(),
        "main.src".to_string(),
        13,
        Vec::new(),
    )));
    code.set_private(true);
    code.set_required_arguments(2);

    assert_eq!(code.integer_literal(0), Some(-5));
    assert_eq!(code.integer_literal(1), None);
    assert_eq!(code.float_literal(0).map(f64::from_bits), Some(1.5));
    assert_eq!(code.string_literal(0), Some(&"hello".to_string()));
    assert_eq!(code.code_object(0).unwrap().name, "nested");
    assert!(code.code_object(1).is_none());
    assert!(code.is_private());
    assert_eq!(code.required_arguments, 2);
    assert_eq!(code.name, "main");
    assert_eq!(code.line, 12);
}

#[test]
fn object_values() {
    assert!(none().is_none());
    assert!(integer(3).is_integer());
    assert_eq!(integer(3).as_integer(), Some(3));
    assert_eq!(integer(3).as_float(), None);
    assert!(float(2.5f64.to_bits()).is_float());
    assert_eq!(float(2.5f64.to_bits()).as_float().map(f64::from_bits), Some(2.5));
    assert!(string("x".to_string()).is_string());
    assert_eq!(string("x".to_string()).as_integer(), None);
    assert!(array(vec![1, 2]).is_array());
    assert!(thread(4).is_thread());
    assert_eq!(thread(4).as_thread(), Some(4));
    assert_eq!(none().as_thread(), None);
    assert!(!integer(0).is_none());
}

#[test]
fn object_namespaces_are_distinct() {
    let mut object = Object::new(none());
    assert_eq!(object.prototype(), None);
    assert_eq!(object.name(), None);
    assert!(!object.is_pinned());

    object.add_attribute(name("x"), 1);
    object.add_constant(name("x"), 2);
    object.add_method(name("x"), code("x", 0));

    assert_eq!(object.get_attribute(&name("x")), Some(1));
    assert_eq!(object.lookup_constant(&name("x")), Some(2));
    assert_eq!(object.get_method(&name("x")).unwrap().name, "x");
    assert_eq!(object.get_attribute(&name("y")), None);
    assert_eq!(object.lookup_constant(&name("y")), None);
    assert!(object.get_method(&name("y")).is_none());

    object.set_name(name("Thing"));
    object.set_prototype(9);
    object.pin();
    assert_eq!(object.name(), Some(&name("Thing")));
    assert_eq!(object.prototype(), Some(9));
    assert!(object.is_pinned());
    object.unpin();
    assert!(!object.is_pinned());
}

#[test]
fn memory_manager_starts_with_the_top_level_object() {
    let memory = MemoryManager::new();
    assert_eq!(memory.len(), 1);
    assert_eq!(memory.top_level(), 0);
    assert!(memory.contains(0));
    assert!(!memory.contains(1));
    assert!(memory.object(0).unwrap().value().is_none());
    assert!(memory.object(1).is_none());
    assert_eq!(memory.true_object(), None);
    assert_eq!(memory.false_object(), None);
    for kind in [
        PrototypeKind::Integer,
        PrototypeKind::Float,
        PrototypeKind::String,
        PrototypeKind::Array,
        PrototypeKind::Block,
        PrototypeKind::Thread,
        PrototypeKind::True,
        PrototypeKind::False,
        PrototypeKind::Boolean,
    ] {
        assert_eq!(memory.prototype(kind), None);
    }
}

#[test]
fn memory_manager_allocates() {
    let mut memory = MemoryManager::new();
    let proto = memory.allocate_prepared(memory.new_object(none()));
    assert_eq!(proto, 1);
    assert_eq!(memory.object(proto).unwrap().prototype(), None);

    let five = memory.allocate(integer(5), proto);
    assert_eq!(five, 2);
    assert_eq!(memory.object(five).unwrap().value().as_integer(), Some(5));
    assert_eq!(memory.object(five).unwrap().prototype(), Some(proto));
    assert!(!memory.object(five).unwrap().is_pinned());

    let t = memory.allocate_thread(7);
    assert_eq!(memory.object(t).unwrap().value().as_thread(), Some(7));
    assert_eq!(memory.object(t).unwrap().prototype(), None);
    assert!(memory.object(t).unwrap().is_pinned());

    memory.set_thread_prototype(proto).unwrap();
    let u = memory.allocate_thread(8);
    assert_eq!(memory.object(u).unwrap().prototype(), Some(proto));
    assert_eq!(memory.len(), 5);

    memory.object_mut(five).set_name(name("five"));
    assert_eq!(memory.object(five).unwrap().name(), Some(&name("five")));
}

#[test]
fn every_prototype_can_be_installed_once() {
    for kind in [
        PrototypeKind::Integer,
        PrototypeKind::Float,
        PrototypeKind::String,
        PrototypeKind::Array,
        PrototypeKind::Block,
        PrototypeKind::Thread,
        PrototypeKind::True,
        PrototypeKind::False,
        PrototypeKind::Boolean,
    ] {
        let mut memory = MemoryManager::new();
        let first = memory.allocate_prepared(Object::new(none()));
        let second = memory.allocate_prepared(Object::new(none()));

        assert_eq!(memory.set_prototype(kind, first), Ok(()));
        assert_eq!(memory.prototype(kind), Some(first));
        let objects = memory.len();

        assert_eq!(
            memory.set_prototype(kind, second),
            Err(Fault::PrototypeAlreadyDefined { kind })
        );
        assert_eq!(memory.prototype(kind), Some(first));
        assert_eq!(memory.len(), objects);
    }
}

#[test]
fn named_prototype_accessors() {
    let mut memory = MemoryManager::new();
    assert_eq!(memory.set_integer_prototype(0), Ok(()));
    assert_eq!(memory.set_float_prototype(0), Ok(()));
    assert_eq!(memory.set_string_prototype(0), Ok(()));
    assert_eq!(memory.set_array_prototype(0), Ok(()));
    assert_eq!(memory.set_block_prototype(0), Ok(()));
    assert_eq!(memory.set_thread_prototype(0), Ok(()));
    assert_eq!(memory.set_boolean_prototype(0), Ok(()));
    assert_eq!(memory.integer_prototype(), Some(0));
    assert_eq!(memory.float_prototype(), Some(0));
    assert_eq!(memory.string_prototype(), Some(0));
    assert_eq!(memory.array_prototype(), Some(0));
    assert_eq!(memory.block_prototype(), Some(0));
    assert_eq!(memory.thread_prototype(), Some(0));
    assert_eq!(memory.boolean_prototype(), Some(0));
    assert_eq!(memory.true_prototype(), None);
    assert_eq!(memory.false_prototype(), None);
    assert_eq!(
        memory.set_integer_prototype(0),
        Err(Fault::PrototypeAlreadyDefined { kind: PrototypeKind::Integer })
    );
}

#[test]
fn singletons_come_with_their_prototypes() {
    let mut memory = MemoryManager::new();
    let proto = memory.allocate_prepared(Object::new(none()));

    assert_eq!(memory.set_true_prototype(proto), Ok(()));
    let truth = memory.true_object().unwrap();
    assert_eq!(memory.true_prototype(), Some(proto));
    assert_eq!(memory.object(truth).unwrap().prototype(), Some(proto));
    assert_eq!(memory.false_object(), None);

    assert_eq!(memory.set_false_prototype(proto), Ok(()));
    let falsehood = memory.false_object().unwrap();
    assert_ne!(truth, falsehood);
    assert_eq!(memory.object(falsehood).unwrap().prototype(), Some(proto));

    assert!(memory.truthy(truth));
    assert!(!memory.truthy(falsehood));
    assert!(memory.truthy(proto));
    assert!(memory.truthy(0));

    assert!(memory.set_true_prototype(proto).is_err());
    assert_eq!(memory.true_object(), Some(truth));
}

#[test]
fn methods_are_found_along_the_prototypes() {
    let mut memory = MemoryManager::new();
    let grandparent = memory.allocate_prepared(Object::new(none()));
    let parent = memory.allocate(none(), grandparent);
    let child = memory.allocate(none(), parent);

    memory.object_mut(grandparent).add_method(name("far"), code("far", 0));
    memory.object_mut(grandparent).add_method(name("both"), code("inherited", 0));
    memory.object_mut(child).add_method(name("both"), code("own", 0));
    memory.object_mut(parent).add_method(name("near"), code("near", 0));

    assert_eq!(memory.lookup_method(child, &name("far")).unwrap().name, "far");
    assert_eq!(memory.lookup_method(child, &name("near")).unwrap().name, "near");
    assert_eq!(memory.lookup_method(child, &name("both")).unwrap().name, "own");
    assert_eq!(
        memory.lookup_method(parent, &name("both")).unwrap().name,
        "inherited"
    );
    assert!(memory.lookup_method(child, &name("none")).is_none());
    assert!(memory.lookup_method(grandparent, &name("near")).is_none());
    assert!(memory.lookup_method(99, &name("far")).is_none());
}

#[test]
fn attributes_are_found_along_the_prototypes() {
    let mut memory = MemoryManager::new();
    let parent = memory.allocate_prepared(Object::new(none()));
    let child = memory.allocate(none(), parent);
    memory.object_mut(parent).add_attribute(name("a"), 10);
    memory.object_mut(parent).add_attribute(name("b"), 11);
    memory.object_mut(child).add_attribute(name("b"), 12);

    assert_eq!(memory.lookup_attribute(child, &name("a")), Some(10));
    assert_eq!(memory.lookup_attribute(child, &name("b")), Some(12));
    assert_eq!(memory.lookup_attribute(parent, &name("b")), Some(11));
    assert_eq!(memory.lookup_attribute(child, &name("c")), None);
    assert_eq!(memory.lookup_attribute(99, &name("a")), None);
}

#[test]
fn lookup_ends_on_a_prototype_cycle() {
    let mut memory = MemoryManager::new();
    let a = memory.allocate_prepared(Object::new(none()));
    let b = memory.allocate(none(), a);
    memory.object_mut(a).set_prototype(b);

    assert!(memory.lookup_method(a, &name("missing")).is_none());
    assert_eq!(memory.lookup_attribute(b, &name("missing")), None);
}

#[test]
fn call_frames() {
    let mut frame = CallFrame::new("foo".to_string(), "foo.src".to_string(), 4);
    assert_eq!(frame.name(), "foo");
    assert_eq!(frame.file(), "foo.src");
    assert_eq!(frame.line(), 4);
    assert_eq!(frame.ip(), 0);
    assert_eq!(frame.return_to(), None);
    assert_eq!(frame.local_count(), 0);
    assert!(frame.code().instructions.is_empty());

    frame.add_local(5);
    frame.set_local(3, 8);
    assert_eq!(frame.local_count(), 4);
    assert_eq!(frame.get_local(0), Some(5));
    assert_eq!(frame.get_local(1), None);
    assert_eq!(frame.get_local(2), None);
    assert_eq!(frame.get_local(3), Some(8));
    assert_eq!(frame.get_local(4), None);
    frame.set_local(0, 6);
    assert_eq!(frame.get_local(0), Some(6));
    assert_eq!(frame.local_count(), 4);
    frame.add_local(9);
    assert_eq!(frame.get_local(4), Some(9));

    frame.set_ip(3);
    frame.set_return_to(Some(2));
    assert_eq!(frame.ip(), 3);
    assert_eq!(frame.return_to(), Some(2));

    let from_code = CallFrame::from_code(code("bar", 1));
    assert_eq!(from_code.name(), "bar");
    assert_eq!(from_code.file(), "objects.src");
    assert_eq!(from_code.line(), 3);
    assert_eq!(from_code.code().required_arguments, 1);

    frame.set_code(code("baz", 0));
    assert_eq!(frame.ip(), 0);
    assert_eq!(frame.code().name, "baz");
    assert_eq!(frame.name(), "foo");
}

#[test]
fn a_new_thread_has_no_register_written() {
    let thread = Thread::new(CallFrame::new("foo".to_string(), "foo".to_string(), 1), Some(3));
    for slot in [0, 1, 2, 100, u32::MAX] {
        assert_eq!(thread.get_register(slot), None);
    }
    assert_eq!(thread.get_local(0), None);
    assert_eq!(thread.caller_count(), 0);
    assert!(!thread.should_stop());
    assert!(!thread.is_main());
    assert!(!thread.is_live());
    assert_eq!(thread.value(), None);
    assert_eq!(thread.object(), None);
}

#[test]
fn thread_registers_and_locals() {
    let mut thread = Thread::from_code(code("main", 0), None);
    thread.set_register(2, 7);
    thread.set_register(u32::MAX, 8);
    assert_eq!(thread.get_register(2), Some(7));
    assert_eq!(thread.get_register(u32::MAX), Some(8));
    assert_eq!(thread.get_register(3), None);
    thread.set_register(2, 9);
    assert_eq!(thread.get_register(2), Some(9));

    thread.add_local(1);
    thread.set_local(2, 3);
    assert_eq!(thread.get_local(0), Some(1));
    assert_eq!(thread.get_local(1), None);
    assert_eq!(thread.get_local(2), Some(3));
}

#[test]
fn thread_frames_form_a_stack() {
    let mut thread = Thread::from_code(code("main", 0), None);
    thread.add_local(1);
    thread.set_ip(5);

    thread.push_call_frame(CallFrame::from_code(code("callee", 0)));
    assert_eq!(thread.caller_count(), 1);
    assert_eq!(thread.frame().name(), "callee");
    assert_eq!(thread.get_local(0), None);
    assert_eq!(thread.frame_at(0).unwrap().name(), "main");
    assert_eq!(thread.frame_at(1).unwrap().name(), "callee");
    assert!(thread.frame_at(2).is_none());

    thread.pop_call_frame();
    assert_eq!(thread.caller_count(), 0);
    assert_eq!(thread.frame().name(), "main");
    assert_eq!(thread.frame().ip(), 5);
    assert_eq!(thread.get_local(0), Some(1));

    // The outermost frame stays.
    thread.pop_call_frame();
    assert_eq!(thread.caller_count(), 0);
    assert_eq!(thread.frame().name(), "main");

    thread.set_ip(4);
    thread.frame();
    thread.enter(code("other", 0));
    assert_eq!(thread.frame().ip(), 0);
    assert_eq!(thread.frame().code().name, "other");
    assert_eq!(thread.frame().return_to(), None);
}

#[test]
fn thread_flags() {
    let mut thread = Thread::from_code(code("main", 0), Some(11));
    thread.set_main();
    assert!(thread.is_main());
    thread.stop();
    assert!(thread.should_stop());
    assert_eq!(thread.take_join_handle(), Some(11));
    assert_eq!(thread.take_join_handle(), None);
    thread.set_value(Some(4));
    assert_eq!(thread.value(), Some(4));
    thread.set_object(6);
    assert_eq!(thread.object(), Some(6));
    thread.set_live(true);
    assert!(thread.is_live());
}

#[test]
fn thread_list_registers_removes_and_stops() {
    let mut list = ThreadList::new();
    assert_eq!(list.len(), 0);
    assert!(!list.contains(0));
    assert!(list.thread(0).is_none());

    let a = list.add(Thread::from_code(code("a", 0), None));
    let b = list.add(Thread::from_code(code("b", 0), None));
    let c = list.add(Thread::from_code(code("c", 0), None));
    assert_eq!((a, b, c), (0, 1, 2));
    assert_eq!(list.len(), 3);
    assert!(list.thread(a).unwrap().is_live());

    list.remove(b);
    list.remove(17);
    assert!(!list.thread(b).unwrap().is_live());
    assert_eq!(list.len(), 3);

    list.stop();
    assert!(list.thread(a).unwrap().should_stop());
    assert!(!list.thread(b).unwrap().should_stop());
    assert!(list.thread(c).unwrap().should_stop());

    list.thread_mut(b).set_register(0, 5);
    assert_eq!(list.thread(b).unwrap().get_register(0), Some(5));
}

#[test]
fn thread_list_hands_a_prototype_to_live_thread_objects() {
    let mut memory = MemoryManager::new();
    let mut list = ThreadList::new();
    let mut objects = Vec::new();
    for id in 0..3 {
        let object = memory.allocate_thread(id);
        let mut thread = Thread::from_code(code("t", 0), None);
        thread.set_object(object);
        list.add(thread);
        objects.push(object);
    }
    let bystander = memory.allocate_prepared(Object::new(none()));
    let proto = memory.allocate_prepared(Object::new(none()));
    list.remove(1);

    list.set_prototype(&mut memory, proto);

    assert_eq!(memory.object(objects[0]).unwrap().prototype(), Some(proto));
    assert_eq!(memory.object(objects[1]).unwrap().prototype(), None);
    assert_eq!(memory.object(objects[2]).unwrap().prototype(), Some(proto));
    assert_eq!(memory.object(bystander).unwrap().prototype(), None);
    assert_eq!(memory.object(0).unwrap().prototype(), None);
    assert!(matches!(
        memory.object(objects[0]).unwrap().value(),
        ObjectValue::Thread(0)
    ));
}
