//! The wrapper that holds a validated value.

use vstd::prelude::*;
use crate::codec::{Decode, Encode};
use crate::error::{DecodingError, Phase};
use crate::property::{Property, ViewOf};

verus! {

/// A value that satisfies the rule `P`.
///
/// The only way to make one is [`TypedValue::new`] (or a function built on it), which asks
/// the rule first. The value inside can be read but never changed, so the rule holds of it
/// for as long as the wrapper lives.
#[derive(Debug, Hash, Ord)]
pub struct TypedValue<P: Property> {
    inner: P::Value,
}

impl<P: Property> View for TypedValue<P> {
    type V = ViewOf<P::Value>;

    /// The view of the value inside.
    open spec fn view(&self) -> Self::V {
        self.value()@
    }
}

impl<P: Property> TypedValue<P> {
    /// What holds of every wrapper in executable code: the rule accepts the value inside.
    #[verifier::type_invariant]
    spec fn satisfies_rule(self) -> bool {
        P::holds(self.inner@)
    }

    /// The value inside.
    pub closed spec fn value(self) -> P::Value {
        self.inner
    }

    /// Wraps `value` if the rule accepts it, and otherwise hands back the rule's report and
    /// makes no wrapper.
    pub fn new(value: P::Value) -> (made: Result<Self, P::Error>)
        ensures
            P::holds(value@) ==> (made matches Ok(typed) && typed.value() == value),
            !P::holds(value@) ==> (made matches Err(error) && P::describes(error, value@)),
    {
        match P::validate(&value) {
            Ok(()) => Ok(TypedValue { inner: value }),
            Err(error) => Err(error),
        }
    }

    /// What [`TypedValue::decode`] makes of an outside form: the value that it stands for,
    /// where it is well formed and the rule accepts that value, and otherwise the step that
    /// fails. The rule is asked only about what the codec could read.
    pub open spec fn decoded<D: Decode<Value = P::Value>>(
        external: ViewOf<D::Target>,
    ) -> Result<ViewOf<P::Value>, Phase> {
        match D::decoding(external) {
            None => Err(Phase::Decode),
            Some(value) => if P::holds(value) {
                Ok(value)
            } else {
                Err(Phase::Validate)
            },
        }
    }

    /// Reads a value from its outside form with the codec `D`, then wraps it as
    /// [`TypedValue::new`] does. A malformed outside form gives the codec's report as
    /// `DecodingError::Decode`; a value that the rule turns down gives the rule's report as
    /// `DecodingError::Validate`.
    pub fn decode<D: Decode<Value = P::Value>>(external: &D::Target) -> (made: Result<
        Self,
        DecodingError<D::Error, P::Error>,
    >)
        ensures
            match Self::decoded::<D>(external@) {
                Ok(value) => made matches Ok(typed) && typed@ == value,
                Err(Phase::Decode) => made matches Err(DecodingError::Decode(error))
                    && D::describes(error, external@),
                Err(Phase::Validate) => made matches Err(DecodingError::Validate(error))
                    && P::describes(error, D::decoding(external@)->0),
            },
    {
        match D::decode(external) {
            Err(error) => Err(DecodingError::Decode(error)),
            Ok(value) => match Self::new(value) {
                Ok(typed) => Ok(typed),
                Err(error) => Err(DecodingError::Validate(error)),
            },
        }
    }

    /// Writes the value inside in its outside form with the codec `E`.
    pub fn encode<E: Encode<Value = P::Value>>(&self) -> (external: E::Target)
        ensures
            external@ == E::encoding(self@),
    {
        E::encode(&self.inner)
    }
}

impl<P: Property> core::ops::Deref for TypedValue<P> {
    type Target = P::Value;

    /// Read-only access to the value inside.
    fn deref(&self) -> (value: &P::Value)
        ensures
            *value == self.value(),
            P::holds(value@),
    {
        proof {
            use_type_invariant(self);
        }
        &self.inner
    }
}

impl<P: Property> Clone for TypedValue<P> where P::Value: Copy {
    /// A second wrapper of the same value.
    fn clone(&self) -> (copy: Self)
        ensures
            copy == *self,
    {
        proof {
            use_type_invariant(self);
        }
        TypedValue { inner: self.inner }
    }
}

impl<P: Property> Copy for TypedValue<P> where P::Value: Copy {

}

/// Wrapping as a method of the value itself.
pub trait TypedValueExt: Sized + View {
    /// Wraps `self` under the rule `P`, as [`TypedValue::new`] does.
    fn typed<P: Property<Value = Self>>(self) -> (made: Result<TypedValue<P>, P::Error>)
        ensures
            P::holds(self@) ==> (made matches Ok(typed) && typed.value() == self),
            !P::holds(self@) ==> (made matches Err(error) && P::describes(error, self@)),
    ;
}

impl<T: View> TypedValueExt for T {
    fn typed<P: Property<Value = Self>>(self) -> (made: Result<TypedValue<P>, P::Error>) {
        TypedValue::new(self)
    }
}

} // verus!
