//! The two bounds that a number can be held to.

use core::marker::PhantomData;
use vstd::prelude::*;
use vstd::string::StringExecFns;
use crate::number::decimal::write_decimal;
use crate::number::uint::UInt;
use crate::property::Property;

verus! {

/// The report on a number above its upper limit: the number, the words ` is over `, and the
/// limit, both in decimal digits.
pub open spec fn over_limit_text(number: nat, limit: nat) -> Seq<char> {
    crate::number::decimal::decimal(number) + " is over "@ + crate::number::decimal::decimal(
        limit,
    )
}

/// Writes the report on `number`, which is above `limit`.
pub fn over_limit_message(number: u64, limit: u64) -> (message: String)
    ensures
        message@ == over_limit_text(number as nat, limit as nat),
{
    let mut message = String::new();
    write_decimal(&mut message, number);
    message.append(" is over ");
    write_decimal(&mut message, limit);
    message
}

/// A number of the type `T` that is at most `N`.
///
/// The type stands for the rule only.
#[derive(Debug, PartialEq, Eq, PartialOrd, Ord, Hash)]
pub struct UpperLimitedUIntValidation<T, const N: u64> {
    _phantom: PhantomData<T>,
}

impl<T: UInt, const N: u64> Property for UpperLimitedUIntValidation<T, N> {
    type Value = T;

    type Error = String;

    open spec fn holds(value: T::V) -> bool {
        T::number(value) <= N
    }

    open spec fn describes(error: String, value: T::V) -> bool {
        error@ == over_limit_text(T::number(value), N as nat)
    }

    fn validate(value: &T) -> (verdict: Result<(), String>)
        ensures
            verdict is Ok <==> T::number(value@) <= N,
            verdict matches Err(error) ==> error@ == over_limit_text(
                T::number(value@),
                N as nat,
            ),
    {
        let number = (*value).to_u64();
        if number <= N {
            Ok(())
        } else {
            Err(over_limit_message(number, N))
        }
    }
}

/// On which side of its range a number lies.
#[derive(Debug, Clone, Copy, PartialEq, Eq, Structural)]
pub enum OutOfRange {
    /// Above the upper bound.
    Higher,
    /// Below the lower bound.
    Lower,
}

/// A number of the type `T` from `N` to `M`, both included.
///
/// A number below `N` is reported as `Lower`, whatever `M` is; any other number above `M`
/// as `Higher`. Where `N` is above `M` the rule accepts nothing.
///
/// The type stands for the rule only.
#[derive(Debug, PartialEq, Eq, PartialOrd, Ord, Hash)]
pub struct RangeLimitedUIntValidation<T, const N: u64, const M: u64> {
    _phantom: PhantomData<T>,
}

impl<T: UInt, const N: u64, const M: u64> Property for RangeLimitedUIntValidation<T, N, M> {
    type Value = T;

    type Error = OutOfRange;

    open spec fn holds(value: T::V) -> bool {
        N <= T::number(value) <= M
    }

    open spec fn describes(error: OutOfRange, value: T::V) -> bool {
        if T::number(value) < N {
            error == OutOfRange::Lower
        } else {
            T::number(value) > M && error == OutOfRange::Higher
        }
    }

    fn validate(value: &T) -> (verdict: Result<(), OutOfRange>)
        ensures
            verdict == if T::number(value@) < N {
                Err::<(), _>(OutOfRange::Lower)
            } else if T::number(value@) > M {
                Err(OutOfRange::Higher)
            } else {
                Ok(())
            },
    {
        let number = (*value).to_u64();
        if number < N {
            Err(OutOfRange::Lower)
        } else if number > M {
            Err(OutOfRange::Higher)
        } else {
            Ok(())
        }
    }
}

} // verus!
