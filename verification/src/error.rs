//! The ways in which decoding a stream can fail.

use vstd::prelude::*;

verus! {

/// A decoding failure. Every failure is final for the run it occurs in, and
/// carries the stream offset at which the cursor stood when it was raised.
#[derive(Clone, Copy, Debug, PartialEq, Eq, Structural)]
pub enum Error {
    /// Fewer bytes are left than a structure of fixed size needs.
    Truncated { offset: usize },
    /// A segment header does not begin with the two marker bytes.
    InvalidMagic { offset: usize },
    /// A segment header names a type code that no segment has.
    InvalidSegmentType { offset: usize },
    /// A flag byte holds a value that the format does not allow.
    InvalidFlag { offset: usize },
    /// Two lengths that the stream gives for the same thing disagree.
    ArithmeticInconsistency { offset: usize },
    /// A segment arrived in a state in which it has no place.
    UnexpectedSegment { offset: usize },
}

/// What went wrong, without the place.
#[derive(Clone, Copy, Debug, PartialEq, Eq, Structural)]
pub enum ErrorKind {
    Truncated,
    InvalidMagic,
    InvalidSegmentType,
    InvalidFlag,
    ArithmeticInconsistency,
    UnexpectedSegment,
}

impl ErrorKind {
    /// What the kind of failure means, in a few words.
    pub open spec fn spec_message(self) -> Seq<char> {
        match self {
            ErrorKind::Truncated => "stream ends inside a structure"@,
            ErrorKind::InvalidMagic => "segment header without the PG marker"@,
            ErrorKind::InvalidSegmentType => "unknown segment type"@,
            ErrorKind::InvalidFlag => "flag with a value that the format does not allow"@,
            ErrorKind::ArithmeticInconsistency => "lengths that disagree"@,
            ErrorKind::UnexpectedSegment => "segment out of order"@,
        }
    }

    /// What the kind of failure means, in a few words.
    pub fn message(self) -> (text: &'static str)
        ensures
            text@ == self.spec_message(),
    {
        match self {
            ErrorKind::Truncated => "stream ends inside a structure",
            ErrorKind::InvalidMagic => "segment header without the PG marker",
            ErrorKind::InvalidSegmentType => "unknown segment type",
            ErrorKind::InvalidFlag => "flag with a value that the format does not allow",
            ErrorKind::ArithmeticInconsistency => "lengths that disagree",
            ErrorKind::UnexpectedSegment => "segment out of order",
        }
    }

    /// The error of this kind raised at `offset`.
    pub open spec fn spec_at(self, offset: usize) -> Error {
        match self {
            ErrorKind::Truncated => Error::Truncated { offset },
            ErrorKind::InvalidMagic => Error::InvalidMagic { offset },
            ErrorKind::InvalidSegmentType => Error::InvalidSegmentType { offset },
            ErrorKind::InvalidFlag => Error::InvalidFlag { offset },
            ErrorKind::ArithmeticInconsistency => Error::ArithmeticInconsistency { offset },
            ErrorKind::UnexpectedSegment => Error::UnexpectedSegment { offset },
        }
    }

    /// The error of this kind raised at `offset`.
    #[verifier::when_used_as_spec(spec_at)]
    pub fn at(self, offset: usize) -> (e: Error)
        ensures
            e == self.spec_at(offset),
    {
        match self {
            ErrorKind::Truncated => Error::Truncated { offset },
            ErrorKind::InvalidMagic => Error::InvalidMagic { offset },
            ErrorKind::InvalidSegmentType => Error::InvalidSegmentType { offset },
            ErrorKind::InvalidFlag => Error::InvalidFlag { offset },
            ErrorKind::ArithmeticInconsistency => Error::ArithmeticInconsistency { offset },
            ErrorKind::UnexpectedSegment => Error::UnexpectedSegment { offset },
        }
    }
}

impl Error {
    /// The stream offset that the error carries.
    pub open spec fn spec_offset(self) -> usize {
        match self {
            Error::Truncated { offset } => offset,
            Error::InvalidMagic { offset } => offset,
            Error::InvalidSegmentType { offset } => offset,
            Error::InvalidFlag { offset } => offset,
            Error::ArithmeticInconsistency { offset } => offset,
            Error::UnexpectedSegment { offset } => offset,
        }
    }

    /// The kind of failure.
    pub open spec fn spec_kind(self) -> ErrorKind {
        match self {
            Error::Truncated { .. } => ErrorKind::Truncated,
            Error::InvalidMagic { .. } => ErrorKind::InvalidMagic,
            Error::InvalidSegmentType { .. } => ErrorKind::InvalidSegmentType,
            Error::InvalidFlag { .. } => ErrorKind::InvalidFlag,
            Error::ArithmeticInconsistency { .. } => ErrorKind::ArithmeticInconsistency,
            Error::UnexpectedSegment { .. } => ErrorKind::UnexpectedSegment,
        }
    }

    /// The stream offset that the error carries.
    #[verifier::when_used_as_spec(spec_offset)]
    pub fn offset(self) -> (o: usize)
        ensures
            o == self.spec_offset(),
    {
        match self {
            Error::Truncated { offset } => offset,
            Error::InvalidMagic { offset } => offset,
            Error::InvalidSegmentType { offset } => offset,
            Error::InvalidFlag { offset } => offset,
            Error::ArithmeticInconsistency { offset } => offset,
            Error::UnexpectedSegment { offset } => offset,
        }
    }

    /// The kind of failure.
    #[verifier::when_used_as_spec(spec_kind)]
    pub fn kind(self) -> (k: ErrorKind)
        ensures
            k == self.spec_kind(),
    {
        match self {
            Error::Truncated { .. } => ErrorKind::Truncated,
            Error::InvalidMagic { .. } => ErrorKind::InvalidMagic,
            Error::InvalidSegmentType { .. } => ErrorKind::InvalidSegmentType,
            Error::InvalidFlag { .. } => ErrorKind::InvalidFlag,
            Error::ArithmeticInconsistency { .. } => ErrorKind::ArithmeticInconsistency,
            Error::UnexpectedSegment { .. } => ErrorKind::UnexpectedSegment,
        }
    }
}

} // verus!
