//! The dynamic-value model: script values, object references, callable
//! objects, and the promise-capability triple of an async function.
//!
//! The wider engine's value type carries many more shapes; this core only
//! ever distinguishes integer-typed values, object references and
//! `undefined`, so the model reduces every value to those observations.
//! Object references are carried as handles into an externally owned object
//! table, together with the one property the frame logic reads: whether the
//! object is callable.

use vstd::prelude::*;

verus! {

/// A reference to a heap-allocated script object, reduced to what this core
/// reads from it: an identifying handle into the externally owned object
/// table, and whether the object can be invoked as a function.
#[derive(Debug, Clone, Copy, PartialEq, Eq, Structural)]
pub struct JsObject {
    /// Handle identifying the object in the externally owned object table.
    pub handle: u64,
    /// Whether the object can be invoked as a function.
    pub callable: bool,
}

/// A dynamic script value, reduced to the shapes this core distinguishes.
#[derive(Debug, Clone, Copy, PartialEq, Eq, Structural)]
pub enum JsValue {
    /// The `undefined` value.
    Undefined,
    /// The `null` value.
    Null,
    /// A boolean value.
    Boolean(bool),
    /// An integer-typed numeric value.
    Integer(i32),
    /// An object reference.
    Object(JsObject),
    /// Any other kind of value (string, symbol, non-integer number, ...).
    /// The frame logic never looks inside these.
    Other,
}

impl JsValue {
    /// The `undefined` value.
    pub fn undefined() -> (r: JsValue)
        ensures
            r == JsValue::Undefined,
    {
        JsValue::Undefined
    }

    /// The integer payload, if this value is integer-typed; `None` for every
    /// other kind of value, including non-integer numbers.
    pub fn as_i32(&self) -> (r: Option<i32>)
        ensures
            *self matches JsValue::Integer(i) ==> r == Some(i),
            *self !is Integer ==> r is None,
    {
        match self {
            JsValue::Integer(i) => Some(*i),
            _ => None,
        }
    }

    /// The object reference, if this value holds one.
    pub fn as_object(&self) -> (r: Option<JsObject>)
        ensures
            *self matches JsValue::Object(o) ==> r == Some(o),
            *self !is Object ==> r is None,
    {
        match self {
            JsValue::Object(o) => Some(*o),
            _ => None,
        }
    }
}

/// A callable object. Values of this type are only built from objects whose
/// `callable` property holds, so `wf` is kept by construction.
#[derive(Debug, Clone, Copy, PartialEq, Eq, Structural)]
pub struct JsFunction {
    /// The underlying object reference.
    pub object: JsObject,
}

impl JsFunction {
    /// The object this function wraps really is callable.
    pub open spec fn wf(&self) -> bool {
        self.object.callable
    }

    /// Wraps `object` as a function if it is callable; `None` otherwise.
    pub fn from_object(object: JsObject) -> (r: Option<JsFunction>)
        ensures
            object.callable ==> r == Some(JsFunction { object }),
            !object.callable ==> r is None,
            r matches Some(f) ==> f.wf(),
    {
        if object.callable {
            Some(JsFunction { object })
        } else {
            None
        }
    }
}

/// The pair of settlement functions of a promise capability.
#[derive(Debug, Clone, Copy, PartialEq, Eq, Structural)]
pub struct ResolvingFunctions {
    /// The function that settles the promise with a value.
    pub resolve: JsFunction,
    /// The function that settles the promise with an error.
    pub reject: JsFunction,
}

/// The (promise, resolve, reject) triple associated with an async function's
/// eventual result.
#[derive(Debug, Clone, Copy, PartialEq, Eq, Structural)]
pub struct PromiseCapability {
    /// The promise object.
    pub promise: JsObject,
    /// Its resolving functions.
    pub functions: ResolvingFunctions,
}

impl PromiseCapability {
    /// Both settlement functions wrap callable objects.
    pub open spec fn wf(&self) -> bool {
        self.functions.resolve.wf() && self.functions.reject.wf()
    }

    /// The promise object.
    pub fn promise(&self) -> (r: &JsObject)
        ensures
            *r == self.promise,
    {
        &self.promise
    }

    /// The resolve function.
    pub fn resolve(&self) -> (r: &JsFunction)
        ensures
            *r == self.functions.resolve,
    {
        &self.functions.resolve
    }

    /// The reject function.
    pub fn reject(&self) -> (r: &JsFunction)
        ensures
            *r == self.functions.reject,
    {
        &self.functions.reject
    }
}

} // verus!
