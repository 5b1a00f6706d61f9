//! Rules on small unsigned integers.

use vstd::prelude::*;
use crate::compose::Sequential;
use crate::property::Property;

verus! {

/// An integer from `MIN` to `MAX`, both included.
///
/// Where `MIN` is above `MAX` the rule accepts nothing.
#[derive(Debug, PartialEq, Eq, PartialOrd, Ord, Hash)]
pub struct RangeProperty<const MIN: u8, const MAX: u8>;

impl<const MIN: u8, const MAX: u8> Property for RangeProperty<MIN, MAX> {
    type Value = u8;

    type Error = ();

    open spec fn holds(value: u8) -> bool {
        MIN <= value <= MAX
    }

    open spec fn describes(error: (), value: u8) -> bool {
        true
    }

    fn validate(value: &u8) -> (verdict: Result<(), ()>)
        ensures
            verdict is Ok <==> MIN <= *value <= MAX,
    {
        if MIN <= *value && *value <= MAX {
            Ok(())
        } else {
            Err(())
        }
    }
}

/// An odd integer.
#[derive(Debug, PartialEq, Eq, PartialOrd, Ord, Hash)]
pub struct Odd;

impl Property for Odd {
    type Value = u8;

    type Error = ();

    open spec fn holds(value: u8) -> bool {
        value % 2 == 1
    }

    open spec fn describes(error: (), value: u8) -> bool {
        true
    }

    fn validate(value: &u8) -> (verdict: Result<(), ()>)
        ensures
            verdict is Ok <==> *value % 2 == 1,
    {
        if *value % 2 == 1 {
            Ok(())
        } else {
            Err(())
        }
    }
}

/// A value that satisfies `T` and is odd; the parity is looked at only once `T` has accepted.
pub type OddProperty<T> = Sequential<T, Odd>;

} // verus!
