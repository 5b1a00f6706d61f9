//! What goes wrong when a value is read from an outside form and then validated.

use vstd::prelude::*;
use vstd::string::StringExecFns;

verus! {

/// The two steps of reading a typed value from an outside form.
#[derive(Debug, Clone, Copy, PartialEq, Eq, Structural)]
pub enum Phase {
    /// Turning the outside form into a value.
    Decode,
    /// Asking the rule about the value.
    Validate,
}

impl Phase {
    /// The words that name the step.
    pub open spec fn spec_headline(&self) -> Seq<char> {
        match *self {
            Phase::Decode => "decode error: "@,
            Phase::Validate => "validate error: "@,
        }
    }

    /// The words that name the step, to stand before the report of a failure in it.
    pub fn headline(&self) -> (words: &'static str)
        ensures
            words@ == self.spec_headline(),
    {
        match self {
            Phase::Decode => "decode error: ",
            Phase::Validate => "validate error: ",
        }
    }
}

/// A failure of one of the two steps, with the report of the step that failed.
#[derive(Debug, PartialEq, Eq)]
pub enum DecodingError<D, V> {
    /// The outside form was malformed; the rule was not asked.
    Decode(D),
    /// The outside form was read, and the rule turned the value down.
    Validate(V),
}

impl<D, V> DecodingError<D, V> {
    /// The step that failed.
    pub open spec fn spec_phase(&self) -> Phase {
        match *self {
            DecodingError::Decode(_) => Phase::Decode,
            DecodingError::Validate(_) => Phase::Validate,
        }
    }

    /// The step that failed.
    #[verifier::when_used_as_spec(spec_phase)]
    pub fn phase(&self) -> (phase: Phase)
        ensures
            phase == self.spec_phase(),
    {
        match self {
            DecodingError::Decode(_) => Phase::Decode,
            DecodingError::Validate(_) => Phase::Validate,
        }
    }

    /// The codec's report, where reading failed.
    pub fn decode_error(&self) -> (cause: Option<&D>)
        ensures
            match *self {
                DecodingError::Decode(error) => cause == Some(&error),
                DecodingError::Validate(_) => cause is None,
            },
    {
        match self {
            DecodingError::Decode(error) => Some(error),
            DecodingError::Validate(_) => None,
        }
    }

    /// The rule's report, where validation failed.
    pub fn validate_error(&self) -> (cause: Option<&V>)
        ensures
            match *self {
                DecodingError::Decode(_) => cause is None,
                DecodingError::Validate(error) => cause == Some(&error),
            },
    {
        match self {
            DecodingError::Decode(_) => None,
            DecodingError::Validate(error) => Some(error),
        }
    }

    /// One line for a reader: the words that name the step that failed, then `message`,
    /// which is the rendering of the wrapped report.
    pub fn render(&self, message: &str) -> (line: String)
        ensures
            line@ == self.spec_phase().spec_headline() + message@,
    {
        let mut line = String::from_str(self.phase().headline());
        line.append(message);
        line
    }
}

} // verus!
