//! The shared execution value stack.
//!
//! The interpreter holds one such stack per instance; every call frame
//! addresses its prologue, arguments and registers relative to its own
//! pointers into this stack. Only the parts of the interpreter state that
//! the frame logic touches are modelled here.

use crate::value::JsValue;
use vstd::prelude::*;

verus! {

/// The interpreter state the frame logic reads and writes: the shared
/// execution value stack.
#[derive(Debug, Clone)]
pub struct Vm {
    /// The shared execution value stack.
    pub stack: Vec<JsValue>,
}

impl Vm {
    /// An interpreter state with an empty execution stack.
    pub fn new() -> (r: Vm)
        ensures
            r.stack@.len() == 0,
    {
        Vm { stack: Vec::new() }
    }

    /// Appends `value` on top of the execution stack.
    pub fn push(&mut self, value: JsValue)
        ensures
            final(self).stack@ == old(self).stack@.push(value),
    {
        self.stack.push(value);
    }
}

} // verus!
