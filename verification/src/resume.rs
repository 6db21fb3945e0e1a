//! The generator resume protocol: how a suspended generator or async
//! activation is told to continue when it is re-entered.
//!
//! The three resume kinds are encoded as the small integers 0, 1 and 2 when
//! handed through a dynamic value. Decoding accepts exactly those three
//! integer-typed values; anything else means corrupted bytecode or an
//! internal dispatch bug, which in the running engine aborts execution, so
//! the decoder's precondition excludes it.

use crate::value::JsValue;
use vstd::prelude::*;

verus! {

/// Indicates how a generator function that has been called or resumed
/// should continue at its suspend point.
#[derive(Copy, Clone, Debug, PartialEq, Eq, Structural)]
pub enum GeneratorResumeKind {
    /// Continue normally; the supplied value is the result of the suspend
    /// point.
    Normal,
    /// Raise the supplied value as an exception at the suspend point.
    Throw,
    /// Force a return at the suspend point, still unwinding through
    /// `finally` blocks and iterator closes.
    Return,
}

impl Default for GeneratorResumeKind {
    /// The default resume kind is a normal continuation.
    fn default() -> (r: Self)
        ensures
            r == GeneratorResumeKind::Normal,
    {
        GeneratorResumeKind::Normal
    }
}

/// The integer a resume kind is encoded as.
pub open spec fn resume_kind_value(k: GeneratorResumeKind) -> int {
    match k {
        GeneratorResumeKind::Normal => 0,
        GeneratorResumeKind::Throw => 1,
        GeneratorResumeKind::Return => 2,
    }
}

/// The dynamic value a resume kind is encoded as.
pub open spec fn resume_kind_to_value(k: GeneratorResumeKind) -> JsValue {
    JsValue::Integer(resume_kind_value(k) as i32)
}

/// The resume kind a dynamic value decodes to: `Some` exactly for the
/// integer-typed values 0, 1 and 2.
pub open spec fn resume_kind_of_value(v: JsValue) -> Option<GeneratorResumeKind> {
    match v {
        JsValue::Integer(i) => if i == 0 {
            Some(GeneratorResumeKind::Normal)
        } else if i == 1 {
            Some(GeneratorResumeKind::Throw)
        } else if i == 2 {
            Some(GeneratorResumeKind::Return)
        } else {
            None
        },
        _ => None,
    }
}

impl From<GeneratorResumeKind> for JsValue {
    /// Encodes `value` as the integer-typed dynamic value 0, 1 or 2.
    fn from(value: GeneratorResumeKind) -> (r: JsValue) {
        match value {
            GeneratorResumeKind::Normal => JsValue::Integer(0),
            GeneratorResumeKind::Throw => JsValue::Integer(1),
            GeneratorResumeKind::Return => JsValue::Integer(2),
        }
    }
}

impl vstd::std_specs::convert::FromSpecImpl<GeneratorResumeKind> for JsValue {
    open spec fn obeys_from_spec() -> bool {
        true
    }

    open spec fn from_spec(t: GeneratorResumeKind) -> JsValue {
        resume_kind_to_value(t)
    }
}

impl JsValue {
    /// Decodes this value to a resume kind.
    ///
    /// Any value other than the integer-typed 0, 1 or 2 is a fatal
    /// condition — corrupted bytecode or an internal dispatch bug, never a
    /// script-visible error — so such inputs are excluded here rather than
    /// coerced to some kind.
    pub fn to_generator_resume_kind(&self) -> (r: GeneratorResumeKind)
        requires
            resume_kind_of_value(*self) is Some,
        ensures
            Some(r) == resume_kind_of_value(*self),
    {
        if let JsValue::Integer(value) = self {
            if *value == 0 {
                GeneratorResumeKind::Normal
            } else if *value == 1 {
                GeneratorResumeKind::Throw
            } else {
                GeneratorResumeKind::Return
            }
        } else {
            // Excluded by the precondition: only integer-typed values decode.
            GeneratorResumeKind::Normal
        }
    }
}

/// Law: encoding any resume kind and decoding the result yields that kind
/// back, and no value outside the integer-typed 0, 1 and 2 decodes at all.
pub proof fn lemma_resume_kind_round_trip(k: GeneratorResumeKind, v: JsValue)
    ensures
        resume_kind_of_value(resume_kind_to_value(k)) == Some(k),
        resume_kind_of_value(v) is None <==> !(exists|j: GeneratorResumeKind|
            v == resume_kind_to_value(j)),
{
    if resume_kind_of_value(v) is Some {
        let j = resume_kind_of_value(v)->Some_0;
        assert(v == resume_kind_to_value(j));
    }
}

} // verus!
