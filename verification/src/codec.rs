//! Conversions between a value and an outside form of it.

use vstd::prelude::*;
use crate::property::ViewOf;

verus! {

/// Turns a value into its outside form. This never fails.
pub trait Encode {
    /// The type of the values.
    type Value: View;

    /// The type of the outside form.
    type Target: View;

    /// The outside form of a value.
    spec fn encoding(value: ViewOf<Self::Value>) -> ViewOf<Self::Target>;

    /// Writes the outside form of `value`.
    fn encode(value: &Self::Value) -> (target: Self::Target)
        ensures
            target@ == Self::encoding(value@),
    ;
}

/// Reads a value back from its outside form, which may be malformed.
pub trait Decode {
    /// The type of the values.
    type Value: View;

    /// The type of the outside form.
    type Target: View;

    /// What is reported of a malformed outside form.
    type Error;

    /// The value that an outside form stands for, or `None` where it is malformed.
    spec fn decoding(target: ViewOf<Self::Target>) -> Option<ViewOf<Self::Value>>;

    /// Whether `error` is a report that may be given of the malformed `target`.
    spec fn describes(error: Self::Error, target: ViewOf<Self::Target>) -> bool;

    /// Reads `target`: the value it stands for, or a report that describes it where it is
    /// malformed.
    fn decode(target: &Self::Target) -> (outcome: Result<Self::Value, Self::Error>)
        ensures
            match outcome {
                Ok(value) => Self::decoding(target@) == Some(value@),
                Err(error) => Self::decoding(target@) is None && Self::describes(error, target@),
            },
    ;
}

/// An [`Encode`] and a [`Decode`] that belong together: reading what was written gives the
/// value back.
pub trait Codec: Encode + Decode<
    Value = <Self as Encode>::Value,
    Target = <Self as Encode>::Target,
> {
    /// Decoding the encoding of any value succeeds and returns that value.
    proof fn lemma_round_trip(value: ViewOf<<Self as Encode>::Value>)
        ensures
            Self::decoding(Self::encoding(value)) == Some(value),
    ;
}

} // verus!
