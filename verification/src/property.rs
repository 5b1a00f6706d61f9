//! Validation rules.

use vstd::prelude::*;

verus! {

/// The view of a value of the type `T`: what the value is to a rule or a codec.
pub type ViewOf<T> = <T as View>::V;

/// A validation rule for values of one type.
///
/// A rule judges the mathematical value (the view) of what it is given, so that two values
/// with the same view always get the same answer. It is a type, never a value: rules differ
/// by their types, and what a rule depends on (a bound, a length) is a parameter of its type.
///
/// A rule in verified code says in `holds` and `describes` what it accepts and what it
/// reports, and proves its `validate` against them. A rule in ordinary Rust has nothing to
/// prove and may give the two spec functions any body, since they are never run; of such a
/// rule the library still wraps exactly the values for which `validate` returns `Ok`.
pub trait Property {
    /// The type of the values that the rule judges.
    type Value: View;

    /// What the rule reports when it turns a value down.
    type Error;

    /// Whether the rule accepts a value.
    spec fn holds(value: ViewOf<Self::Value>) -> bool;

    /// Whether `error` is a report that the rule may give when it turns `value` down.
    spec fn describes(error: Self::Error, value: ViewOf<Self::Value>) -> bool;

    /// Judges a value: `Ok` exactly when the rule holds of it, and otherwise a report that
    /// describes the value.
    fn validate(value: &Self::Value) -> (verdict: Result<(), Self::Error>)
        ensures
            verdict is Ok <==> Self::holds(value@),
            verdict matches Err(error) ==> Self::describes(error, value@),
    ;
}

} // verus!
