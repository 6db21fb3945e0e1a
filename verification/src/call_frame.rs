//! The call frame: the state of one function activation on the shared
//! execution stack, and the calling convention that locates its `this`
//! value, function reference, arguments and registers.
//!
//! The stack layout is a fixed convention shared with the bytecode
//! compiler. A frame's `rp` (register pointer) marks the first stack slot
//! after its register window; counting backwards from there lie the
//! arguments, the function reference and the `this` value:
//!
//! ```text
//! | fp: this | fp+1: func | fp+2: arg1 | ... | rp-1: argN | rp: register0 | ...
//! ```
//!
//! so `fp = rp − argument_count − 2`. The caller sets those slots up and is
//! the one who reclaims them; the callee never touches slots below its own
//! frame pointer.

use crate::code_block::CodeBlock;
use crate::context::{ActiveRunnable, BindingLocator, EnvironmentStack, Realm};
use crate::iter_list::{iter_list_elems, iter_list_get, iter_list_len, iter_list_new,
    iter_list_push};
use crate::registers::Registers;
use crate::value::{JsFunction, JsObject, JsValue, PromiseCapability, ResolvingFunctions};
use crate::vm::Vm;
use thin_vec::ThinVec;
use vstd::prelude::*;
use vstd::slice::{slice_index_get, slice_subrange};

verus! {

/// Per-activation boolean markers. The four are independent: no operation
/// of the frame changes one while reading or writing another.
#[derive(Debug, Clone, Copy, PartialEq, Eq, Structural)]
pub struct CallFrameFlags {
    /// Stop the interpreter's outer run loop once this frame returns or
    /// unwinds, leaving any remaining frames untouched.
    pub exit_early: bool,
    /// This frame was created through a constructor invocation.
    pub construct: bool,
    /// Register slots for this frame were allocated before the push
    /// operation, so the push must not allocate again.
    pub registers_already_pushed: bool,
    /// The `this` value has been resolved and cached in the prologue slot.
    pub this_value_cached: bool,
}

impl CallFrameFlags {
    /// The flag set with every flag clear.
    pub fn empty() -> (r: CallFrameFlags)
        ensures
            r == (CallFrameFlags {
                exit_early: false,
                construct: false,
                registers_already_pushed: false,
                this_value_cached: false,
            }),
    {
        CallFrameFlags {
            exit_early: false,
            construct: false,
            registers_already_pushed: false,
            this_value_cached: false,
        }
    }
}

impl Default for CallFrameFlags {
    /// The default flag set has every flag clear.
    fn default() -> (r: CallFrameFlags)
        ensures
            r == (CallFrameFlags {
                exit_early: false,
                construct: false,
                registers_already_pushed: false,
                this_value_cached: false,
            }),
    {
        CallFrameFlags::empty()
    }
}

/// The state of one function call: an active or suspended activation.
///
/// A suspended generator or async activation keeps its frame — program
/// counter, register window bookkeeping, open iterators, environments —
/// intact across arbitrarily many turns of the host's task queue; the
/// handles it holds are enumerated by [`CallFrame::live_handles`] for the
/// host's memory-reclamation strategy.
#[derive(Debug)]
pub struct CallFrame {
    /// The compiled function's metadata.
    pub code_block: CodeBlock,
    /// Next-instruction offset into the code descriptor's instruction
    /// stream.
    pub pc: u32,
    /// The register pointer: index of the first stack slot after this
    /// frame's argument window, i.e. the first register slot.
    pub rp: u32,
    /// Number of actual arguments passed at call time.
    pub argument_count: u32,
    /// Where this frame's lexical-environment records begin, for fast
    /// unwinding.
    pub env_fp: u32,
    /// Open iterators that must be closed, in insertion order, if this
    /// frame completes abruptly; each entry is the handle of the
    /// iterator's record.
    pub iterators: ThinVec<u64>,
    /// Pending binding-update locators, consumed by the environment
    /// subsystem.
    pub binding_stack: Vec<BindingLocator>,
    /// Per-local "has been initialized" flags, seeded from the code
    /// descriptor's template at frame creation.
    pub local_bindings_initialized: Vec<bool>,
    /// How many iterations loop constructs have done, for diagnostics and
    /// limits.
    pub loop_iteration_count: u64,
    /// The script or module that originated this call, if any.
    pub active_runnable: Option<ActiveRunnable>,
    /// The lexical-environment stack visible to this activation.
    pub environments: EnvironmentStack,
    /// The realm this activation runs under.
    pub realm: Realm,
    /// The per-activation flags.
    pub flags: CallFrameFlags,
}

/// The capability held in the three reserved registers: present exactly
/// when the promise slot holds an object and both settlement slots hold
/// callable objects; absent otherwise, never partially constructed.
pub open spec fn capability_in_registers(regs: Seq<JsValue>) -> Option<PromiseCapability>
    recommends
        regs.len() >= 3,
{
    match (regs[0], regs[1], regs[2]) {
        (JsValue::Object(promise), JsValue::Object(resolve), JsValue::Object(reject)) => {
            if resolve.callable && reject.callable {
                Some(PromiseCapability {
                    promise,
                    functions: ResolvingFunctions {
                        resolve: JsFunction { object: resolve },
                        reject: JsFunction { object: reject },
                    },
                })
            } else {
                None
            }
        },
        _ => None,
    }
}

/// The register window after writing `capability` into the three reserved
/// registers: the capability's three objects when one is supplied, the
/// `undefined` placeholder in all three slots when none is.
pub open spec fn registers_with_capability(
    regs: Seq<JsValue>,
    capability: Option<PromiseCapability>,
) -> Seq<JsValue>
    recommends
        regs.len() >= 3,
{
    match capability {
        Some(c) => regs.update(0, JsValue::Object(c.promise)).update(
            1,
            JsValue::Object(c.functions.resolve.object),
        ).update(2, JsValue::Object(c.functions.reject.object)),
        None => regs.update(0, JsValue::Undefined).update(1, JsValue::Undefined).update(
            2,
            JsValue::Undefined,
        ),
    }
}

impl CallFrame {
    /// Width of the function prologue set up by the caller below the
    /// argument window: the `this` slot and the function slot.
    pub const FUNCTION_PROLOGUE: u32 = 2;

    /// Offset of the `this` slot, measured backward from the start of the
    /// argument window.
    pub const THIS_POSITION: u32 = 2;

    /// Offset of the function slot, measured backward from the start of
    /// the argument window.
    pub const FUNCTION_POSITION: u32 = 1;

    /// Reserved register holding an async function's promise object.
    pub const PROMISE_CAPABILITY_PROMISE_REGISTER_INDEX: u32 = 0;

    /// Reserved register holding an async function's resolve function.
    pub const PROMISE_CAPABILITY_RESOLVE_REGISTER_INDEX: u32 = 1;

    /// Reserved register holding an async function's reject function.
    pub const PROMISE_CAPABILITY_REJECT_REGISTER_INDEX: u32 = 2;

    /// Reserved register holding an async generator's generator object.
    pub const ASYNC_GENERATOR_OBJECT_REGISTER_INDEX: u32 = 3;

    /// The frame pointer: the stack index of this frame's `this` slot,
    /// from which every other slot of the activation is addressed.
    pub open spec fn fp_spec(&self) -> int {
        self.rp - self.argument_count - CallFrame::FUNCTION_PROLOGUE
    }

    /// The caller has pushed this frame's prologue: below `rp` there is
    /// room for the argument window and the two prologue slots. The
    /// accessors that address the stack assume this; calling them on a
    /// frame that has not been pushed is a logic error.
    pub open spec fn prologue_pushed(&self) -> bool {
        self.rp >= self.argument_count + CallFrame::FUNCTION_PROLOGUE
    }

    /// Everything of the frame except its flags is unchanged between `a`
    /// and `b`.
    pub open spec fn same_except_flags(a: CallFrame, b: CallFrame) -> bool {
        &&& a.code_block == b.code_block
        &&& a.pc == b.pc
        &&& a.rp == b.rp
        &&& a.argument_count == b.argument_count
        &&& a.env_fp == b.env_fp
        &&& a.iterators == b.iterators
        &&& a.binding_stack == b.binding_stack
        &&& a.local_bindings_initialized == b.local_bindings_initialized
        &&& a.loop_iteration_count == b.loop_iteration_count
        &&& a.active_runnable == b.active_runnable
        &&& a.environments == b.environments
        &&& a.realm == b.realm
    }

    /// Everything of the frame except its open-iterator list is unchanged
    /// between `a` and `b`.
    pub open spec fn same_except_iterators(a: CallFrame, b: CallFrame) -> bool {
        &&& a.code_block == b.code_block
        &&& a.pc == b.pc
        &&& a.rp == b.rp
        &&& a.argument_count == b.argument_count
        &&& a.env_fp == b.env_fp
        &&& a.binding_stack == b.binding_stack
        &&& a.local_bindings_initialized == b.local_bindings_initialized
        &&& a.loop_iteration_count == b.loop_iteration_count
        &&& a.active_runnable == b.active_runnable
        &&& a.environments == b.environments
        &&& a.realm == b.realm
        &&& a.flags == b.flags
    }

    /// The code descriptor of this call frame.
    pub fn code_block(&self) -> (r: &CodeBlock)
        ensures
            *r == self.code_block,
    {
        &self.code_block
    }

    /// A fresh, not yet pushed frame for a call of the function `code_block`
    /// describes: program counter and pointers at zero, no open iterators or
    /// pending bindings, the local-initialization flags copied from the
    /// descriptor's template, and every flag clear.
    pub fn new(
        code_block: CodeBlock,
        active_runnable: Option<ActiveRunnable>,
        environments: EnvironmentStack,
        realm: Realm,
    ) -> (r: CallFrame)
        ensures
            r.code_block == code_block,
            r.pc == 0,
            r.rp == 0,
            r.argument_count == 0,
            r.env_fp == 0,
            iter_list_elems(r.iterators) == Seq::<u64>::empty(),
            r.binding_stack@ == Seq::<BindingLocator>::empty(),
            r.local_bindings_initialized@ == code_block.local_bindings_initialized@,
            r.loop_iteration_count == 0,
            r.active_runnable == active_runnable,
            r.environments == environments,
            r.realm == realm,
            r.flags == (CallFrameFlags {
                exit_early: false,
                construct: false,
                registers_already_pushed: false,
                this_value_cached: false,
            }),
    {
        let local_bindings_initialized = code_block.local_bindings_initialized.clone();
        proof {
            assert(local_bindings_initialized@ =~= code_block.local_bindings_initialized@);
        }
        CallFrame {
            pc: 0,
            rp: 0,
            env_fp: 0,
            argument_count: 0,
            iterators: iter_list_new(),
            binding_stack: Vec::new(),
            local_bindings_initialized,
            code_block,
            loop_iteration_count: 0,
            active_runnable,
            environments,
            realm,
            flags: CallFrameFlags::empty(),
        }
    }

    /// The frame with its `argument_count` replaced; to be applied before
    /// the frame is pushed onto the execution stack.
    pub fn with_argument_count(self, count: u32) -> (r: CallFrame)
        ensures
            r == (CallFrame { argument_count: count, ..self }),
    {
        CallFrame { argument_count: count, ..self }
    }

    /// The frame with its `env_fp` replaced; to be applied before the
    /// frame is pushed onto the execution stack.
    pub fn with_env_fp(self, env_fp: u32) -> (r: CallFrame)
        ensures
            r == (CallFrame { env_fp, ..self }),
    {
        CallFrame { env_fp, ..self }
    }

    /// The frame with its flags replaced; to be applied before the frame
    /// is pushed onto the execution stack.
    pub fn with_flags(self, flags: CallFrameFlags) -> (r: CallFrame)
        ensures
            r == (CallFrame { flags, ..self }),
    {
        CallFrame { flags, ..self }
    }

    /// This activation's `this` value: the stack slot at the frame
    /// pointer.
    pub fn this(&self, vm: &Vm) -> (r: JsValue)
        requires
            self.prologue_pushed(),
            self.fp_spec() < vm.stack@.len(),
        ensures
            r == vm.stack@[self.fp_spec()],
    {
        let this_index = self.rp - self.argument_count - CallFrame::THIS_POSITION;
        vm.stack[this_index as usize].clone()
    }

    /// This activation's function reference: the object in the slot one
    /// above the frame pointer, present exactly when that slot holds an
    /// object reference (synthetic frames may leave it unpopulated).
    pub fn function(&self, vm: &Vm) -> (r: Option<JsObject>)
        requires
            self.prologue_pushed(),
            self.fp_spec() + 1 < vm.stack@.len(),
        ensures
            r is Some <==> vm.stack@[self.fp_spec() + 1] is Object,
            vm.stack@[self.fp_spec() + 1] matches JsValue::Object(o) ==> r == Some(o),
    {
        let function_index = self.rp - self.argument_count - CallFrame::FUNCTION_POSITION;
        if let Some(object) = vm.stack[function_index as usize].as_object() {
            return Some(object);
        }
        None
    }

    /// The contiguous argument window of this activation, in call order:
    /// the stack slots from `fp + 2` up to `rp`. The view borrows from the
    /// shared stack and must not be retained across anything that can grow
    /// or reallocate it.
    pub fn arguments<'stack>(&self, vm: &'stack Vm) -> (r: &'stack [JsValue])
        requires
            self.prologue_pushed(),
            self.rp <= vm.stack@.len(),
        ensures
            r@ == vm.stack@.subrange(self.rp - self.argument_count, self.rp as int),
            r@.len() == self.argument_count,
    {
        let rp = self.rp as usize;
        let argument_count = self.argument_count as usize;
        let arguments_start = rp - argument_count;
        slice_subrange(vm.stack.as_slice(), arguments_start, rp)
    }

    /// The argument at `index`, or `None` when `index` is at or past
    /// `argument_count`.
    pub fn argument<'stack>(&self, index: usize, vm: &'stack Vm) -> (r: Option<&'stack JsValue>)
        requires
            self.prologue_pushed(),
            self.rp <= vm.stack@.len(),
        ensures
            r is Some <==> index < self.argument_count,
            r matches Some(v) ==> *v == vm.stack@[self.rp - self.argument_count + index],
    {
        let arguments = self.arguments(vm);
        if index < self.argument_count as usize {
            Some(slice_index_get(arguments, index))
        } else {
            None
        }
    }

    /// The frame pointer, derived from the register pointer and the
    /// argument count alone: `rp − argument_count − 2`.
    pub fn fp(&self) -> (r: u32)
        requires
            self.prologue_pushed(),
        ensures
            r == self.fp_spec(),
    {
        self.rp - self.argument_count - CallFrame::FUNCTION_PROLOGUE
    }

    /// Reclaims this frame's stack region: truncates the shared stack to
    /// exactly the frame pointer, discarding every slot at or above it
    /// (prologue, arguments and registers). To be called exactly once,
    /// when the frame is permanently retired.
    pub fn restore_stack(&self, vm: &mut Vm)
        requires
            self.prologue_pushed(),
            self.fp_spec() <= old(vm).stack@.len(),
        ensures
            final(vm).stack@ == old(vm).stack@.subrange(0, self.fp_spec()),
    {
        let fp = self.fp();
        vm.stack.truncate(fp as usize);
    }

    /// The async-generator object of this activation: absent unless the
    /// code descriptor is marked async generator; otherwise the object in
    /// the reserved register, absent when that register holds anything
    /// other than an object reference.
    pub fn async_generator_object(&self, registers: &Registers) -> (r: Option<JsObject>)
        requires
            self.code_block.marked_async_generator ==> registers@.len()
                > CallFrame::ASYNC_GENERATOR_OBJECT_REGISTER_INDEX,
        ensures
            !self.code_block.marked_async_generator ==> r is None,
            self.code_block.marked_async_generator ==> {
                &&& r is Some <==> registers@[
                    CallFrame::ASYNC_GENERATOR_OBJECT_REGISTER_INDEX as int] is Object
                &&& registers@[CallFrame::ASYNC_GENERATOR_OBJECT_REGISTER_INDEX as int]
                    matches JsValue::Object(o) ==> r == Some(o)
            },
    {
        if !self.code_block().is_async_generator() {
            return None;
        }
        registers.get(CallFrame::ASYNC_GENERATOR_OBJECT_REGISTER_INDEX).as_object()
    }

    /// The promise capability of this activation: absent unless the code
    /// descriptor is marked async; otherwise read from the three reserved
    /// registers, absent — never partially constructed — unless the
    /// promise slot holds an object and both settlement slots hold
    /// callable objects.
    pub fn promise_capability(&self, registers: &Registers) -> (r: Option<PromiseCapability>)
        requires
            self.code_block.marked_async ==> registers@.len()
                > CallFrame::PROMISE_CAPABILITY_REJECT_REGISTER_INDEX,
        ensures
            !self.code_block.marked_async ==> r is None,
            self.code_block.marked_async ==> r == capability_in_registers(registers@),
            r matches Some(c) ==> c.wf(),
    {
        if !self.code_block().is_async() {
            return None;
        }

        let promise = match registers.get(
            CallFrame::PROMISE_CAPABILITY_PROMISE_REGISTER_INDEX,
        ).as_object() {
            Some(promise) => promise,
            None => return None,
        };
        let resolve = match registers.get(
            CallFrame::PROMISE_CAPABILITY_RESOLVE_REGISTER_INDEX,
        ).as_object() {
            Some(object) => match JsFunction::from_object(object) {
                Some(resolve) => resolve,
                None => return None,
            },
            None => return None,
        };
        let reject = match registers.get(
            CallFrame::PROMISE_CAPABILITY_REJECT_REGISTER_INDEX,
        ).as_object() {
            Some(object) => match JsFunction::from_object(object) {
                Some(reject) => reject,
                None => return None,
            },
            None => return None,
        };

        Some(PromiseCapability { promise, functions: ResolvingFunctions { resolve, reject } })
    }

    /// Writes `promise_capability` into the three reserved registers — its
    /// three objects, or the `undefined` placeholder in each slot when none
    /// is supplied — leaving every other register unchanged. Only an
    /// async-marked frame has these registers reserved; on any other frame
    /// the write would corrupt ordinary registers, so that is excluded
    /// here.
    pub fn set_promise_capability(
        &self,
        registers: &mut Registers,
        promise_capability: Option<&PromiseCapability>,
    )
        requires
            self.code_block.marked_async,
            old(registers)@.len() > CallFrame::PROMISE_CAPABILITY_REJECT_REGISTER_INDEX,
        ensures
            promise_capability matches Some(c) ==> final(registers)@
                == registers_with_capability(old(registers)@, Some(*c)),
            promise_capability is None ==> final(registers)@
                == registers_with_capability(old(registers)@, None),
    {
        match promise_capability {
            Some(capability) => {
                registers.set(
                    CallFrame::PROMISE_CAPABILITY_PROMISE_REGISTER_INDEX,
                    JsValue::Object(capability.promise),
                );
                registers.set(
                    CallFrame::PROMISE_CAPABILITY_RESOLVE_REGISTER_INDEX,
                    JsValue::Object(capability.functions.resolve.object),
                );
                registers.set(
                    CallFrame::PROMISE_CAPABILITY_REJECT_REGISTER_INDEX,
                    JsValue::Object(capability.functions.reject.object),
                );
            },
            None => {
                registers.set(
                    CallFrame::PROMISE_CAPABILITY_PROMISE_REGISTER_INDEX,
                    JsValue::undefined(),
                );
                registers.set(
                    CallFrame::PROMISE_CAPABILITY_RESOLVE_REGISTER_INDEX,
                    JsValue::undefined(),
                );
                registers.set(
                    CallFrame::PROMISE_CAPABILITY_REJECT_REGISTER_INDEX,
                    JsValue::undefined(),
                );
            },
        }
    }

    /// Is the early-exit flag set?
    pub fn exit_early(&self) -> (r: bool)
        ensures
            r == self.flags.exit_early,
    {
        self.flags.exit_early
    }

    /// Sets or clears the early-exit flag, perturbing nothing else of the
    /// frame.
    pub fn set_exit_early(&mut self, early_exit: bool)
        ensures
            final(self).flags.exit_early == early_exit,
            final(self).flags.construct == old(self).flags.construct,
            final(self).flags.registers_already_pushed
                == old(self).flags.registers_already_pushed,
            final(self).flags.this_value_cached == old(self).flags.this_value_cached,
            CallFrame::same_except_flags(*old(self), *final(self)),
    {
        self.flags.exit_early = early_exit;
    }

    /// Was this frame created through a constructor invocation?
    pub fn construct(&self) -> (r: bool)
        ensures
            r == self.flags.construct,
    {
        self.flags.construct
    }

    /// Were this frame's register slots already allocated before the push
    /// operation?
    pub fn registers_already_pushed(&self) -> (r: bool)
        ensures
            r == self.flags.registers_already_pushed,
    {
        self.flags.registers_already_pushed
    }

    /// Has the `this` value been resolved and cached in the prologue slot?
    pub fn has_this_value_cached(&self) -> (r: bool)
        ensures
            r == self.flags.this_value_cached,
    {
        self.flags.this_value_cached
    }

    /// Sets the register pointer; done by the push operation once the
    /// caller has laid the prologue and arguments out on the stack.
    pub fn set_register_pointer(&mut self, pointer: u32)
        ensures
            *final(self) == (CallFrame { rp: pointer, ..*old(self) }),
    {
        self.rp = pointer;
    }

    /// Records a newly opened iterator, by the handle of its record, at
    /// the end of the open-iterator list; an abrupt completion closes the
    /// listed iterators in insertion order.
    pub fn push_iterator(&mut self, iterator: u64)
        ensures
            iter_list_elems(final(self).iterators)
                == iter_list_elems(old(self).iterators).push(iterator),
            CallFrame::same_except_iterators(*old(self), *final(self)),
    {
        iter_list_push(&mut self.iterators, iterator);
    }

    /// Every live handle this frame holds into externally owned tables, in
    /// a fixed order: the environment records, the realm, the originating
    /// runnable if any, then the open iterators.
    pub open spec fn live_handles_spec(&self) -> Seq<u64> {
        self.environments.stack@ + seq![self.realm.handle] + (match self.active_runnable {
            Some(runnable) => seq![runnable.handle_spec()],
            None => Seq::<u64>::empty(),
        }) + iter_list_elems(self.iterators)
    }

    /// Enumerates every live handle this frame holds into externally owned
    /// tables — environments, realm, originating runnable, open iterators —
    /// for the host's memory-reclamation strategy to trace: a suspended
    /// frame may keep these alive across arbitrarily many turns of the
    /// host's task queue.
    pub fn live_handles(&self) -> (r: Vec<u64>)
        ensures
            r@ == self.live_handles_spec(),
    {
        let mut handles: Vec<u64> = Vec::new();
        let environment_count = self.environments.stack.len();
        let mut i: usize = 0;
        while i < environment_count
            invariant
                i <= environment_count,
                environment_count == self.environments.stack@.len(),
                handles@ == self.environments.stack@.subrange(0, i as int),
            decreases environment_count - i,
        {
            handles.push(self.environments.stack[i]);
            proof {
                assert(handles@ =~= self.environments.stack@.subrange(0, i + 1));
            }
            i = i + 1;
        }
        proof {
            assert(handles@ =~= self.environments.stack@);
        }
        handles.push(self.realm.handle);
        match &self.active_runnable {
            Some(runnable) => handles.push(runnable.handle()),
            None => {},
        }
        let ghost prefix = handles@;
        let iterator_count = iter_list_len(&self.iterators);
        let mut j: usize = 0;
        while j < iterator_count
            invariant
                j <= iterator_count,
                iterator_count == iter_list_elems(self.iterators).len(),
                handles@ == prefix + iter_list_elems(self.iterators).subrange(0, j as int),
            decreases iterator_count - j,
        {
            handles.push(iter_list_get(&self.iterators, j));
            proof {
                assert(handles@ =~= prefix + iter_list_elems(self.iterators).subrange(
                    0,
                    j + 1,
                ));
            }
            j = j + 1;
        }
        proof {
            assert(handles@ =~= prefix + iter_list_elems(self.iterators));
            assert(handles@ =~= self.live_handles_spec());
        }
        handles
    }
}

/// Law: the stack layout protocol. For every frame whose prologue is
/// pushed, the frame pointer is `rp − argument_count − 2`, it is a valid
/// (non-negative) stack index, and the prologue and argument window fill
/// the stack exactly from the frame pointer up to the register pointer.
pub proof fn lemma_stack_layout(frame: CallFrame)
    requires
        frame.prologue_pushed(),
    ensures
        frame.fp_spec() == frame.rp - frame.argument_count - 2,
        frame.fp_spec() >= 0,
        frame.fp_spec() + CallFrame::FUNCTION_PROLOGUE + frame.argument_count == frame.rp,
{
}

/// Law: writing a well-formed capability into the reserved registers and
/// reading them back yields that same capability; writing no capability
/// leaves the reserved registers holding no readable capability.
pub proof fn lemma_capability_round_trip(regs: Seq<JsValue>, capability: PromiseCapability)
    requires
        regs.len() >= 3,
        capability.wf(),
    ensures
        capability_in_registers(registers_with_capability(regs, Some(capability)))
            == Some(capability),
        capability_in_registers(registers_with_capability(regs, None)) is None,
{
}

} // verus!
