//! The code descriptor: the immutable metadata of a compiled function that
//! the frame logic consults.
//!
//! The full descriptor also carries the instruction stream and compile-time
//! layout data; this core reads only the async markers and the template of
//! per-local initialization flags, so the model holds exactly those.

use vstd::prelude::*;

verus! {

/// Immutable metadata of a compiled function.
#[derive(Debug, Clone)]
pub struct CodeBlock {
    /// Whether the compiled function is an async function (also set for
    /// async generators).
    pub marked_async: bool,
    /// Whether the compiled function is an async generator.
    pub marked_async_generator: bool,
    /// Template of per-local "has been initialized" flags, copied into each
    /// new frame invoking this function.
    pub local_bindings_initialized: Vec<bool>,
}

impl CodeBlock {
    /// Is the compiled function async (an async function or an async
    /// generator)?
    pub fn is_async(&self) -> (r: bool)
        ensures
            r == self.marked_async,
    {
        self.marked_async
    }

    /// Is the compiled function an async generator?
    pub fn is_async_generator(&self) -> (r: bool)
        ensures
            r == self.marked_async_generator,
    {
        self.marked_async_generator
    }
}

} // verus!
