use vm_frame::call_frame::CallFrame;
use vm_frame::code_block::CodeBlock;
use vm_frame::context::{EnvironmentStack, Realm};
use vm_frame::registers::Registers;
use vm_frame::resume::GeneratorResumeKind;
use vm_frame::value::{JsFunction, JsObject, JsValue, PromiseCapability, ResolvingFunctions};

fn frame_with_markers(marked_async: bool, marked_async_generator: bool) -> CallFrame {
    CallFrame::new(
        CodeBlock {
            marked_async,
            marked_async_generator,
            local_bindings_initialized: Vec::new(),
        },
        None,
        EnvironmentStack::new(),
        Realm { handle: 0 },
    )
}

fn sample_capability() -> PromiseCapability {
    PromiseCapability {
        promise: JsObject { handle: 1, callable: false },
        functions: ResolvingFunctions {
            resolve: JsFunction { object: JsObject { handle: 2, callable: true } },
            reject: JsFunction { object: JsObject { handle: 3, callable: true } },
        },
    }
}

#[test]
fn resume_kind_encodes_as_small_integers() {
    assert_eq!(JsValue::from(GeneratorResumeKind::Normal), JsValue::Integer(0));
    assert_eq!(JsValue::from(GeneratorResumeKind::Throw), JsValue::Integer(1));
    assert_eq!(JsValue::from(GeneratorResumeKind::Return), JsValue::Integer(2));
}

#[test]
fn resume_kind_round_trips() {
    let kinds = [
        GeneratorResumeKind::Normal,
        GeneratorResumeKind::Throw,
        GeneratorResumeKind::Return,
    ];
    for kind in kinds {
        assert_eq!(JsValue::from(kind).to_generator_resume_kind(), kind);
    }
}

#[test]
fn resume_kind_defaults_to_normal() {
    assert_eq!(GeneratorResumeKind::default(), GeneratorResumeKind::Normal);
}

#[test]
fn capability_round_trips_on_async_frame() {
    let frame = frame_with_markers(true, false);
    let mut registers = Registers::new(6);
    let capability = sample_capability();
    frame.set_promise_capability(&mut registers, Some(&capability));
    assert_eq!(frame.promise_capability(&registers), Some(capability));
    // The write stays inside the three reserved registers.
    assert_eq!(*registers.get(3), JsValue::Undefined);
    assert_eq!(*registers.get(4), JsValue::Undefined);
}

#[test]
fn capability_cleared_with_undefined_placeholders() {
    let frame = frame_with_markers(true, false);
    let mut registers = Registers::new(4);
    let capability = sample_capability();
    frame.set_promise_capability(&mut registers, Some(&capability));
    frame.set_promise_capability(&mut registers, None);
    assert_eq!(*registers.get(0), JsValue::Undefined);
    assert_eq!(*registers.get(1), JsValue::Undefined);
    assert_eq!(*registers.get(2), JsValue::Undefined);
    assert_eq!(frame.promise_capability(&registers), None);
}

#[test]
fn capability_absent_on_non_async_frame() {
    let frame = frame_with_markers(false, false);
    // Registers hold a perfectly shaped capability; the probe must still
    // come back empty because the code descriptor is not async-marked.
    let mut registers = Registers::new(4);
    registers.set(0, JsValue::Object(JsObject { handle: 1, callable: false }));
    registers.set(1, JsValue::Object(JsObject { handle: 2, callable: true }));
    registers.set(2, JsValue::Object(JsObject { handle: 3, callable: true }));
    assert_eq!(frame.promise_capability(&registers), None);
}

#[test]
fn capability_absent_when_a_settlement_slot_is_not_callable() {
    let frame = frame_with_markers(true, false);
    let mut registers = Registers::new(4);
    registers.set(0, JsValue::Object(JsObject { handle: 1, callable: false }));
    registers.set(1, JsValue::Object(JsObject { handle: 2, callable: false }));
    registers.set(2, JsValue::Object(JsObject { handle: 3, callable: true }));
    assert_eq!(frame.promise_capability(&registers), None);
}

#[test]
fn capability_absent_when_promise_slot_is_not_an_object() {
    let frame = frame_with_markers(true, false);
    let mut registers = Registers::new(4);
    registers.set(0, JsValue::Integer(4));
    registers.set(1, JsValue::Object(JsObject { handle: 2, callable: true }));
    registers.set(2, JsValue::Object(JsObject { handle: 3, callable: true }));
    assert_eq!(frame.promise_capability(&registers), None);
}

#[test]
fn async_generator_object_read_from_reserved_register() {
    let frame = frame_with_markers(true, true);
    let mut registers = Registers::new(6);
    let generator = JsObject { handle: 8, callable: false };
    registers.set(3, JsValue::Object(generator));
    assert_eq!(frame.async_generator_object(&registers), Some(generator));
}

#[test]
fn async_generator_object_absent_for_non_object_register() {
    let frame = frame_with_markers(true, true);
    let mut registers = Registers::new(6);
    registers.set(3, JsValue::Integer(8));
    assert_eq!(frame.async_generator_object(&registers), None);
}

#[test]
fn async_generator_object_absent_without_marker() {
    let frame = frame_with_markers(true, false);
    let mut registers = Registers::new(6);
    registers.set(3, JsValue::Object(JsObject { handle: 8, callable: false }));
    assert_eq!(frame.async_generator_object(&registers), None);
}

#[test]
fn value_accessors_distinguish_shapes() {
    assert_eq!(JsValue::undefined(), JsValue::Undefined);
    assert_eq!(JsValue::Integer(5).as_i32(), Some(5));
    assert_eq!(JsValue::Undefined.as_i32(), None);
    let o = JsObject { handle: 4, callable: true };
    assert_eq!(JsValue::Object(o).as_object(), Some(o));
    assert_eq!(JsValue::Null.as_object(), None);
    assert_eq!(JsFunction::from_object(o), Some(JsFunction { object: o }));
    assert_eq!(
        JsFunction::from_object(JsObject { handle: 4, callable: false }),
        None
    );
}

#[test]
fn capability_accessors_return_its_parts() {
    let capability = sample_capability();
    assert_eq!(*capability.promise(), JsObject { handle: 1, callable: false });
    assert_eq!(capability.resolve().object.handle, 2);
    assert_eq!(capability.reject().object.handle, 3);
}

#[test]
fn registers_start_undefined_and_update() {
    let mut registers = Registers::new(3);
    assert_eq!(*registers.get(0), JsValue::Undefined);
    assert_eq!(*registers.get(2), JsValue::Undefined);
    registers.set(1, JsValue::Integer(6));
    assert_eq!(*registers.get(1), JsValue::Integer(6));
    assert_eq!(*registers.get(0), JsValue::Undefined);
}
