//! Rules built from other rules.

use vstd::prelude::*;
use crate::property::{Property, ViewOf};

verus! {

/// Two rules, one after the other: `A` is asked first, and `B` only about a value that `A`
/// has accepted. At most one report comes out, that of the first rule to turn the value down.
///
/// The type stands for the rule only; no value of it is ever made.
#[derive(Debug, PartialEq, Eq, PartialOrd, Ord, Hash)]
pub struct Sequential<A, B>(A, B);

impl<A, B> Property for Sequential<A, B> where
    A: Property,
    B: Property<Value = A::Value, Error = A::Error>,
 {
    type Value = A::Value;

    type Error = A::Error;

    open spec fn holds(value: ViewOf<A::Value>) -> bool {
        A::holds(value) && B::holds(value)
    }

    open spec fn describes(error: A::Error, value: ViewOf<A::Value>) -> bool {
        if !A::holds(value) {
            A::describes(error, value)
        } else {
            !B::holds(value) && B::describes(error, value)
        }
    }

    fn validate(value: &A::Value) -> (verdict: Result<(), A::Error>)
        ensures
            !A::holds(value@) ==> (verdict matches Err(error) && A::describes(error, value@)),
            A::holds(value@) && !B::holds(value@) ==> (verdict matches Err(error) && B::describes(
                error,
                value@,
            )),
            A::holds(value@) && B::holds(value@) ==> verdict is Ok,
    {
        match A::validate(value) {
            Ok(()) => B::validate(value),
            Err(error) => Err(error),
        }
    }
}

/// How many of the two rules turn a value down.
pub open spec fn failures<A, B>(value: ViewOf<A::Value>) -> nat where
    A: Property,
    B: Property<Value = A::Value, Error = A::Error>,
 {
    let first: nat = if A::holds(value) { 0 } else { 1 };
    let second: nat = if B::holds(value) { 0 } else { 1 };
    first + second
}

/// Two rules side by side: both are asked about the same value, whatever the other says, and
/// every report is kept, that of `A` before that of `B`.
///
/// The type stands for the rule only; no value of it is ever made.
#[derive(Debug, PartialEq, Eq, PartialOrd, Ord, Hash)]
pub struct Compose2<A, B>(A, B);

impl<A, B> Property for Compose2<A, B> where
    A: Property,
    B: Property<Value = A::Value, Error = A::Error>,
 {
    type Value = A::Value;

    type Error = Vec<A::Error>;

    open spec fn holds(value: ViewOf<A::Value>) -> bool {
        A::holds(value) && B::holds(value)
    }

    open spec fn describes(errors: Vec<A::Error>, value: ViewOf<A::Value>) -> bool {
        &&& errors@.len() == failures::<A, B>(value)
        &&& !A::holds(value) ==> A::describes(errors@[0], value)
        &&& !B::holds(value) ==> B::describes(errors@[errors@.len() - 1], value)
    }

    fn validate(value: &A::Value) -> (verdict: Result<(), Vec<A::Error>>)
        ensures
            verdict is Ok <==> A::holds(value@) && B::holds(value@),
            verdict matches Err(errors) ==> {
                &&& errors@.len() == failures::<A, B>(value@)
                &&& !A::holds(value@) ==> A::describes(errors@[0], value@)
                &&& !B::holds(value@) ==> B::describes(errors@[errors@.len() - 1], value@)
            },
    {
        let mut errors: Vec<A::Error> = Vec::new();
        match A::validate(value) {
            Ok(()) => {},
            Err(error) => {
                errors.push(error);
            },
        }
        match B::validate(value) {
            Ok(()) => {},
            Err(error) => {
                errors.push(error);
            },
        }
        if errors.len() == 0 {
            Ok(())
        } else {
            Err(errors)
        }
    }
}

} // verus!
