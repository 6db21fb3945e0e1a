//! The register window of one activation: an indexed array of values with
//! get/set access.
//!
//! For async functions the low-numbered registers are reserved for
//! capability threading; the reservation itself is stated by the frame
//! methods, not here.

use crate::value::JsValue;
use vstd::prelude::*;

verus! {

/// An activation's register window.
#[derive(Debug, Clone)]
pub struct Registers {
    /// The register slots.
    pub registers: Vec<JsValue>,
}

impl View for Registers {
    type V = Seq<JsValue>;

    open spec fn view(&self) -> Seq<JsValue> {
        self.registers@
    }
}

impl Registers {
    /// A register window of `count` slots, all `undefined`.
    pub fn new(count: usize) -> (r: Registers)
        ensures
            r@.len() == count,
            forall|i: int| 0 <= i < count ==> r@[i] == JsValue::Undefined,
    {
        let mut registers: Vec<JsValue> = Vec::new();
        let mut n: usize = 0;
        while n < count
            invariant
                n <= count,
                registers@.len() == n,
                forall|i: int| 0 <= i < n ==> registers@[i] == JsValue::Undefined,
            decreases count - n,
        {
            registers.push(JsValue::Undefined);
            n = n + 1;
        }
        Registers { registers }
    }

    /// Reads the register at `index`.
    pub fn get(&self, index: u32) -> (r: &JsValue)
        requires
            index < self@.len(),
        ensures
            *r == self@[index as int],
    {
        &self.registers[index as usize]
    }

    /// Writes `value` into the register at `index`.
    pub fn set(&mut self, index: u32, value: JsValue)
        requires
            index < old(self)@.len(),
        ensures
            final(self)@ == old(self)@.update(index as int, value),
    {
        self.registers.set(index as usize, value);
    }
}

} // verus!
