use vm_frame::call_frame::{CallFrame, CallFrameFlags};
use vm_frame::code_block::CodeBlock;
use vm_frame::context::{ActiveRunnable, BindingLocator, EnvironmentStack, Realm};
use vm_frame::value::{JsObject, JsValue};
use vm_frame::vm::Vm;

fn plain_code_block() -> CodeBlock {
    CodeBlock {
        marked_async: false,
        marked_async_generator: false,
        local_bindings_initialized: vec![true, false, true],
    }
}

fn plain_frame() -> CallFrame {
    CallFrame::new(
        plain_code_block(),
        None,
        EnvironmentStack::new(),
        Realm { handle: 0 },
    )
}

#[test]
fn new_frame_starts_empty() {
    let frame = plain_frame();
    assert_eq!(frame.pc, 0);
    assert_eq!(frame.rp, 0);
    assert_eq!(frame.argument_count, 0);
    assert_eq!(frame.env_fp, 0);
    assert_eq!(frame.loop_iteration_count, 0);
    assert_eq!(frame.binding_stack.len(), 0);
    assert_eq!(frame.local_bindings_initialized, vec![true, false, true]);
    assert_eq!(frame.flags, CallFrameFlags::empty());
    assert!(frame.active_runnable.is_none());
    assert_eq!(frame.live_handles(), vec![0]);
}

#[test]
fn builders_set_fields() {
    let frame = plain_frame()
        .with_argument_count(4)
        .with_env_fp(9)
        .with_flags(CallFrameFlags {
            exit_early: false,
            construct: true,
            registers_already_pushed: false,
            this_value_cached: false,
        });
    assert_eq!(frame.argument_count, 4);
    assert_eq!(frame.env_fp, 9);
    assert!(frame.construct());
    assert!(!frame.exit_early());
    assert!(!frame.registers_already_pushed());
    assert!(!frame.has_this_value_cached());
    assert_eq!(frame.code_block().local_bindings_initialized, vec![true, false, true]);
}

fn layout_vm() -> Vm {
    // Stack for the scenario: two slots of an enclosing frame, then the
    // prologue [this, func] at indices 2..4 and the arguments at 4..6.
    let mut vm = Vm::new();
    vm.push(JsValue::Undefined);
    vm.push(JsValue::Undefined);
    vm.push(JsValue::Integer(7));
    vm.push(JsValue::Object(JsObject { handle: 9, callable: true }));
    vm.push(JsValue::Integer(1));
    vm.push(JsValue::Integer(2));
    vm
}

fn layout_frame() -> CallFrame {
    let mut frame = plain_frame().with_argument_count(2);
    frame.set_register_pointer(6);
    frame
}

#[test]
fn frame_pointer_formula() {
    let vm = layout_vm();
    let frame = layout_frame();
    assert_eq!(frame.fp(), 2);
    assert_eq!(frame.this(&vm), JsValue::Integer(7));
}

#[test]
fn function_present_for_object_slot() {
    let vm = layout_vm();
    let frame = layout_frame();
    assert_eq!(
        frame.function(&vm),
        Some(JsObject { handle: 9, callable: true })
    );
}

#[test]
fn function_absent_for_non_object_slot() {
    let mut vm = layout_vm();
    vm.stack[3] = JsValue::Integer(5);
    let frame = layout_frame();
    assert_eq!(frame.function(&vm), None);
}

#[test]
fn arguments_window() {
    let vm = layout_vm();
    let frame = layout_frame();
    let args = frame.arguments(&vm);
    assert_eq!(args.to_vec(), vec![JsValue::Integer(1), JsValue::Integer(2)]);
}

#[test]
fn argument_lookup_is_bounds_checked() {
    let vm = layout_vm();
    let frame = layout_frame();
    assert_eq!(frame.argument(0, &vm), Some(&JsValue::Integer(1)));
    assert_eq!(frame.argument(1, &vm), Some(&JsValue::Integer(2)));
    assert_eq!(frame.argument(2, &vm), None);
    assert_eq!(frame.argument(100, &vm), None);
}

#[test]
fn restore_stack_truncates_to_frame_pointer() {
    let mut vm = layout_vm();
    let frame = layout_frame();
    frame.restore_stack(&mut vm);
    assert_eq!(vm.stack, vec![JsValue::Undefined, JsValue::Undefined]);
}

#[test]
fn exit_early_toggles_and_perturbs_nothing() {
    let mut frame = plain_frame().with_flags(CallFrameFlags {
        exit_early: false,
        construct: true,
        registers_already_pushed: true,
        this_value_cached: false,
    });
    frame.set_exit_early(true);
    assert!(frame.exit_early());
    assert!(frame.construct());
    assert!(frame.registers_already_pushed());
    assert!(!frame.has_this_value_cached());
    frame.set_exit_early(false);
    assert!(!frame.exit_early());
    assert!(frame.construct());
    assert!(frame.registers_already_pushed());
    assert!(!frame.has_this_value_cached());
}

#[test]
fn live_handles_enumerates_everything_held() {
    let mut frame = CallFrame::new(
        plain_code_block(),
        Some(ActiveRunnable::Script(13)),
        EnvironmentStack { stack: vec![10, 11] },
        Realm { handle: 12 },
    );
    frame.push_iterator(14);
    frame.push_iterator(15);
    frame.binding_stack.push(BindingLocator { name: 1, scope: 0 });
    assert_eq!(frame.live_handles(), vec![10, 11, 12, 13, 14, 15]);
}

#[test]
fn live_handles_of_module_runnable() {
    let frame = CallFrame::new(
        plain_code_block(),
        Some(ActiveRunnable::Module(21)),
        EnvironmentStack { stack: vec![20] },
        Realm { handle: 22 },
    );
    assert_eq!(frame.live_handles(), vec![20, 22, 21]);
}
