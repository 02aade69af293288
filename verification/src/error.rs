//! The errors of reading, and the view of a result.

use vstd::prelude::*;
use crate::data::Vr;
use crate::tags::Tag;

verus! {

/// Why an attribute could not be read.
///
/// Every failure is final: it says that the data set does not hold the
/// attribute in the shape that was asked for.
#[derive(Copy, Clone, Debug, PartialEq, Eq)]
pub enum Error {
    /// A required attribute is absent from the data set.
    NotFound { tag: Tag },
    /// The element is present, but its value is not of the primitive kind
    /// that was asked for.
    CastFailure { tag: Tag },
    /// The element is present, but its value could not be converted to the
    /// type that was asked for.
    DecodeFailure { tag: Tag },
    /// The element is present, but its value representation is neither
    /// `US` nor `SS`.
    UnexpectedVr { tag: Tag, vr: Vr },
}

impl Error {
    /// The tag of the attribute that could not be read.
    pub open spec fn spec_tag(&self) -> Tag {
        match *self {
            Error::NotFound { tag } => tag,
            Error::CastFailure { tag } => tag,
            Error::DecodeFailure { tag } => tag,
            Error::UnexpectedVr { tag, .. } => tag,
        }
    }

    /// The tag of the attribute that could not be read.
    #[verifier::when_used_as_spec(spec_tag)]
    pub fn tag(&self) -> (r: Tag)
        ensures
            r == self.spec_tag(),
    {
        match self {
            Error::NotFound { tag } => *tag,
            Error::CastFailure { tag } => *tag,
            Error::DecodeFailure { tag } => *tag,
            Error::UnexpectedVr { tag, .. } => *tag,
        }
    }
}

/// The outcome of a read, with the value that was read taken by its deep
/// view: strings become sequences of characters, numbers stay as they are.
pub open spec fn viewed<T: DeepView>(r: Result<T, Error>) -> Result<T::V, Error> {
    match r {
        Ok(value) => Ok(value.deep_view()),
        Err(e) => Err(e),
    }
}

} // verus!
