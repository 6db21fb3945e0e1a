//! The collaborators a frame carries but does not interpret: the originating
//! script or module, the lexical-environment stack, the realm, and pending
//! binding locators.
//!
//! Environments, realms and runnables live in tables owned outside this
//! core; a frame holds only handles into those tables, so that whatever
//! memory-reclamation strategy the host uses can be told, through
//! [`crate::call_frame::CallFrame::live_handles`], everything a possibly
//! long-suspended frame still keeps alive.

use vstd::prelude::*;

verus! {

/// The script or module that originated a call; absent for host-invoked
/// calls with no originating unit.
#[derive(Debug, Clone, Copy, PartialEq, Eq, Structural)]
pub enum ActiveRunnable {
    /// A script, by the handle of its record in the externally owned table
    /// of runnables.
    Script(u64),
    /// A module, by the handle of its record in the externally owned table
    /// of runnables.
    Module(u64),
}

impl ActiveRunnable {
    /// The handle of the originating unit, whichever kind it is.
    pub open spec fn handle_spec(&self) -> u64 {
        match *self {
            ActiveRunnable::Script(h) => h,
            ActiveRunnable::Module(h) => h,
        }
    }

    /// The handle of the originating unit.
    pub fn handle(&self) -> (r: u64)
        ensures
            r == self.handle_spec(),
    {
        match self {
            ActiveRunnable::Script(h) => *h,
            ActiveRunnable::Module(h) => *h,
        }
    }
}

/// The lexical-environment stack visible to an activation: handles of the
/// environment records, innermost last.
#[derive(Debug, Clone)]
pub struct EnvironmentStack {
    /// The environment record handles, innermost last.
    pub stack: Vec<u64>,
}

impl EnvironmentStack {
    /// An empty environment stack.
    pub fn new() -> (r: EnvironmentStack)
        ensures
            r.stack@.len() == 0,
    {
        EnvironmentStack { stack: Vec::new() }
    }
}

/// The execution realm (global object, intrinsics) an activation runs
/// under, carried as a handle into the externally owned realm table.
#[derive(Debug, Clone, Copy, PartialEq, Eq, Structural)]
pub struct Realm {
    /// Handle of the realm's record.
    pub handle: u64,
}

/// A pending binding-update locator accumulated during destructuring or
/// initialization, consumed by the environment subsystem. Plain value data:
/// nothing here reaches the heap.
#[derive(Debug, Clone, Copy, PartialEq, Eq, Structural)]
pub struct BindingLocator {
    /// The interned name of the binding.
    pub name: u32,
    /// The scope the binding lives in, as an index into the environment
    /// subsystem's scope table.
    pub scope: u32,
}

} // verus!
