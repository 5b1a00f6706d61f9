//! Equality and order of wrapped values: those of the values inside.

use core::cmp::Ordering;
use vstd::prelude::*;
use vstd::std_specs::cmp::{PartialEqSpec, PartialEqSpecImpl, PartialOrdSpec, PartialOrdSpecImpl};
use crate::property::Property;
use crate::typed_value::TypedValue;

verus! {

impl<P: Property> PartialEq for TypedValue<P> where P::Value: PartialEq {
    /// Whether the values inside are equal.
    fn eq(&self, other: &Self) -> (equal: bool) {
        (**self).eq(&**other)
    }
}

impl<P: Property> PartialEqSpecImpl for TypedValue<P> where P::Value: PartialEq {
    open spec fn obeys_eq_spec() -> bool {
        P::Value::obeys_eq_spec()
    }

    open spec fn eq_spec(&self, other: &Self) -> bool {
        self.value().eq_spec(&other.value())
    }
}

impl<P: Property> Eq for TypedValue<P> where P::Value: Eq {

}

impl<P: Property> PartialOrd for TypedValue<P> where P::Value: PartialOrd {
    /// The order of the values inside.
    fn partial_cmp(&self, other: &Self) -> (order: Option<Ordering>) {
        (**self).partial_cmp(&**other)
    }

    fn lt(&self, other: &Self) -> (below: bool) {
        (**self).lt(&**other)
    }

    fn le(&self, other: &Self) -> (below: bool) {
        (**self).le(&**other)
    }

    fn gt(&self, other: &Self) -> (above: bool) {
        (**self).gt(&**other)
    }

    fn ge(&self, other: &Self) -> (above: bool) {
        (**self).ge(&**other)
    }
}

impl<P: Property> PartialOrdSpecImpl for TypedValue<P> where P::Value: PartialOrd {
    open spec fn obeys_partial_cmp_spec() -> bool {
        P::Value::obeys_partial_cmp_spec()
    }

    open spec fn partial_cmp_spec(&self, other: &Self) -> Option<Ordering> {
        self.value().partial_cmp_spec(&other.value())
    }
}

} // verus!
