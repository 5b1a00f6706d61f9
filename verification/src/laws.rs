//! What holds of the library as a whole, stated over the results of its functions.
//!
//! Each law takes the results of the calls it speaks of as parameters; `call_ensures` says
//! that a result is one that the call may give.

use vstd::prelude::*;
use crate::codec::{Codec, Decode, Encode};
use crate::compose::{Compose2, Sequential};
use crate::error::DecodingError;
use crate::property::{Property, ViewOf};
use crate::typed_value::TypedValue;

verus! {

/// A value that the rule accepts is wrapped, and reading the wrapper gives that very value.
pub proof fn lemma_wrap_then_read<P: Property>(
    value: P::Value,
    made: Result<TypedValue<P>, P::Error>,
    read: &P::Value,
)
    requires
        P::holds(value@),
        call_ensures(TypedValue::<P>::new, (value,), made),
        made matches Ok(typed) ==> call_ensures(
            <TypedValue<P> as core::ops::Deref>::deref,
            (&typed,),
            read,
        ),
    ensures
        made is Ok,
        *read == value,
{
}

/// A value that the rule turns down is not wrapped: the answer is the rule's report, and it
/// holds no wrapper.
pub proof fn lemma_rejection<P: Property>(value: P::Value, made: Result<TypedValue<P>, P::Error>)
    requires
        !P::holds(value@),
        call_ensures(TypedValue::<P>::new, (value,), made),
    ensures
        made matches Err(error) && P::describes(error, value@),
{
}

/// Whatever is read out of a wrapper satisfies the rule.
pub proof fn lemma_wrapped_values_satisfy_the_rule<P: Property>(
    typed: &TypedValue<P>,
    read: &P::Value,
)
    requires
        call_ensures(<TypedValue<P> as core::ops::Deref>::deref, (typed,), read),
    ensures
        P::holds(read@),
{
}

/// What a codec writes of a value that the rule accepts is read back and accepted: the
/// outside form of such a value never fails in either step.
pub proof fn lemma_encoding_is_decoded<P: Property, C: Codec>(value: ViewOf<P::Value>) where
    C: Encode<Value = P::Value>,

    requires
        P::holds(value),
    ensures
        TypedValue::<P>::decoded::<C>(C::encoding(value)) == Ok::<_, crate::error::Phase>(value),
{
    C::lemma_round_trip(value);
}

/// Writing a wrapped value with a codec and reading the result back with the same codec
/// succeeds and gives a wrapper of the same value.
pub proof fn lemma_encode_then_decode<P: Property, C: Codec>(
    value: P::Value,
    typed: TypedValue<P>,
    external: <C as Encode>::Target,
    again: Result<TypedValue<P>, DecodingError<<C as Decode>::Error, P::Error>>,
) where C: Encode<Value = P::Value>
    requires
        P::holds(value@),
        call_ensures(TypedValue::<P>::new, (value,), Ok(typed)),
        call_ensures(TypedValue::<P>::encode::<C>, (&typed,), external),
        call_ensures(TypedValue::<P>::decode::<C>, (&external,), again),
    ensures
        again matches Ok(back) && back@ == typed@ && back@ == value@,
{
    C::lemma_round_trip(value@);
}

/// Where the first of two rules in sequence turns a value down, the answer is the first
/// rule's report, whatever the second rule is: the second rule has no part in it.
pub proof fn lemma_sequential_short_circuit<A, B>(value: &A::Value, verdict: Result<(), A::Error>)
    where A: Property, B: Property<Value = A::Value, Error = A::Error>
    requires
        !A::holds(value@),
        call_ensures(<Sequential<A, B> as Property>::validate, (value,), verdict),
    ensures
        verdict matches Err(error) && A::describes(error, value@),
{
}

/// Where the first of two rules in sequence accepts a value, the second rule decides.
pub proof fn lemma_sequential_second_decides<A, B>(
    value: &A::Value,
    verdict: Result<(), A::Error>,
) where A: Property, B: Property<Value = A::Value, Error = A::Error>
    requires
        A::holds(value@),
        call_ensures(<Sequential<A, B> as Property>::validate, (value,), verdict),
    ensures
        verdict is Ok <==> B::holds(value@),
        verdict matches Err(error) ==> B::describes(error, value@),
{
}

/// Where both of two rules side by side turn a value down, exactly two reports come out:
/// the first rule's, then the second rule's.
pub proof fn lemma_parallel_accumulation<A, B>(
    value: &A::Value,
    verdict: Result<(), Vec<A::Error>>,
) where A: Property, B: Property<Value = A::Value, Error = A::Error>
    requires
        !A::holds(value@),
        !B::holds(value@),
        call_ensures(<Compose2<A, B> as Property>::validate, (value,), verdict),
    ensures
        verdict matches Err(errors) && errors@.len() == 2 && A::describes(errors@[0], value@)
            && B::describes(errors@[1], value@),
{
}

/// Where exactly one of two rules side by side turns a value down, exactly its report comes
/// out.
pub proof fn lemma_parallel_single_failure<A, B>(
    value: &A::Value,
    verdict: Result<(), Vec<A::Error>>,
) where A: Property, B: Property<Value = A::Value, Error = A::Error>
    requires
        A::holds(value@) != B::holds(value@),
        call_ensures(<Compose2<A, B> as Property>::validate, (value,), verdict),
    ensures
        verdict matches Err(errors) && errors@.len() == 1 && if A::holds(value@) {
            B::describes(errors@[0], value@)
        } else {
            A::describes(errors@[0], value@)
        },
{
}

/// Two rules side by side give no empty list of reports: where the reports are empty, the
/// value was accepted, and no list comes out.
pub proof fn lemma_parallel_reports_are_not_empty<A, B>(
    value: &A::Value,
    verdict: Result<(), Vec<A::Error>>,
) where A: Property, B: Property<Value = A::Value, Error = A::Error>
    requires
        call_ensures(<Compose2<A, B> as Property>::validate, (value,), verdict),
    ensures
        verdict matches Err(errors) ==> 1 <= errors@.len() <= 2,
        verdict is Ok <==> A::holds(value@) && B::holds(value@),
{
}

/// Reading a typed value from an outside form fails in the decoding step exactly when the
/// outside form is malformed, and in the validating step exactly when it is well formed and
/// the rule turns down the value that it stands for.
pub proof fn lemma_decode_phase_tagging<P: Property, D: Decode<Value = P::Value>>(
    external: &D::Target,
    made: Result<TypedValue<P>, DecodingError<D::Error, P::Error>>,
)
    requires
        call_ensures(TypedValue::<P>::decode::<D>, (external,), made),
    ensures
        D::decoding(external@) is None <==> made matches Err(DecodingError::Decode(_)),
        (D::decoding(external@) matches Some(value) && !P::holds(value)) <==> made matches Err(
            DecodingError::Validate(_),
        ),
        (D::decoding(external@) matches Some(value) && P::holds(value)) <==> made is Ok,
{
}

} // verus!
