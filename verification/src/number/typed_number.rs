//! The wrapper that holds a validated number.

use core::marker::PhantomData;
use vstd::prelude::*;
use vstd::string::StringExecFns;
use crate::number::rules::{OutOfRange, RangeLimitedUIntValidation, UpperLimitedUIntValidation};
use crate::number::uint::UInt;
use crate::property::Property;

verus! {

/// A number that satisfies the rule `U`, and that can be added to another such number: the
/// sum is held to the rule again.
#[derive(Debug, PartialEq, PartialOrd, Hash)]
#[verifier::reject_recursive_types(T)]
pub struct TypedNumber<T, U> where T: UInt, U: Property<Value = T> {
    inner: T,
    _phantom: PhantomData<U>,
}

impl<T: UInt, U: Property<Value = T>> View for TypedNumber<T, U> {
    type V = T::V;

    /// The number inside.
    closed spec fn view(&self) -> T::V {
        self.inner@
    }
}

impl<T: UInt, U: Property<Value = T>> TypedNumber<T, U> {
    /// What holds of every wrapper in executable code: the rule accepts the value inside.
    #[verifier::type_invariant]
    spec fn satisfies_rule(self) -> bool {
        U::holds(self.inner@)
    }

    /// Wraps `value` if the rule accepts it, and otherwise hands back the rule's report.
    pub fn try_new(value: T) -> (made: Result<Self, U::Error>)
        ensures
            U::holds(value@) ==> (made matches Ok(typed) && typed@ == value@),
            !U::holds(value@) ==> (made matches Err(error) && U::describes(error, value@)),
    {
        match U::validate(&value) {
            Ok(()) => Ok(TypedNumber { inner: value, _phantom: PhantomData }),
            Err(error) => Err(error),
        }
    }

    /// The value that stands for the sum of two numbers.
    pub open spec fn spec_sum(left: T::V, right: T::V) -> T::V {
        T::of(T::number(left) + T::number(right))
    }

    /// The sum of two numbers, held to the rule again: a wrapper of the sum if the rule
    /// accepts it, and otherwise the rule's report on the sum.
    ///
    /// The sum has to be a number of the type `T`.
    pub fn add(&self, other: &Self) -> (made: Result<Self, U::Error>)
        requires
            T::number(self@) + T::number(other@) <= T::limit(),
        ensures
            U::holds(Self::spec_sum(self@, other@)) ==> (made matches Ok(typed) && typed@
                == Self::spec_sum(self@, other@)),
            !U::holds(Self::spec_sum(self@, other@)) ==> (made matches Err(error) && U::describes(
                error,
                Self::spec_sum(self@, other@),
            )),
    {
        Self::try_new(self.inner.sum(other.inner))
    }
}

impl<T: UInt, U: Property<Value = T>> core::ops::Deref for TypedNumber<T, U> {
    type Target = T;

    /// Read-only access to the number inside, which satisfies the rule.
    fn deref(&self) -> (value: &T)
        ensures
            value@ == self@,
            U::holds(value@),
    {
        proof {
            use_type_invariant(self);
        }
        &self.inner
    }
}

/// A number of the type `T` that is at most `N`.
pub type UpperLimitedUInt<T, const N: u64> = TypedNumber<T, UpperLimitedUIntValidation<T, N>>;

impl<T: UInt, const N: u64> TypedNumber<T, UpperLimitedUIntValidation<T, N>> {
    /// The upper limit `N` as a value of the type `T`, which has to be able to hold it.
    pub fn max(&self) -> (limit: T)
        requires
            N <= T::limit(),
        ensures
            limit@ == T::of(N as nat),
            T::number(limit@) == N,
    {
        proof {
            T::lemma_numbers(self.inner@, N as nat);
        }
        match T::try_from_u64(N) {
            Some(limit) => limit,
            None => vstd::pervasive::unreached(),
        }
    }
}

/// A number of the type `T` from `N` to `M`, both included.
pub type RangeLimitedUInt<T, const N: u64, const M: u64> = TypedNumber<
    T,
    RangeLimitedUIntValidation<T, N, M>,
>;

/// A grade of a school with six grades.
pub type JuniorSchoolGrade = RangeLimitedUInt<u8, 1, 6>;

impl TypedNumber<u8, RangeLimitedUIntValidation<u8, 1, 6>> {
    /// The grade after this one, or the word `Graduated` after the last grade.
    pub fn next_grade(&self) -> (next: Result<Self, String>)
        ensures
            self@ < 6 ==> (next matches Ok(grade) && grade@ == self@ + 1),
            self@ >= 6 ==> (next matches Err(word) && word@ == "Graduated"@),
    {
        proof {
            use_type_invariant(self);
        }
        match Self::try_new(self.inner + 1) {
            Ok(next) => Ok(next),
            Err(OutOfRange::Higher) => Err(String::from_str("Graduated")),
            Err(OutOfRange::Lower) => vstd::pervasive::unreached(),
        }
    }
}

} // verus!
