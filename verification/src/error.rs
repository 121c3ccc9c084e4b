//! The ways in which decoding a buffer can fail.
use vstd::prelude::*;

verus! {

/// Why a buffer was rejected. A failure anywhere aborts the whole decode:
/// no partial tree is ever returned.
#[derive(Clone, Copy, Debug, PartialEq, Eq, Structural)]
pub enum ParseError {
    /// Fewer bytes remain than a box header occupies.
    BufferTooShort,
    /// The buffer ends before a fixed field, or before the end that the box
    /// declares for itself.
    TruncatedPayload,
    /// A box's own header, or one of its children, would reach past the end
    /// that the enclosing box declares.
    Overrun,
    /// A composite box found another type than the one it expects at that
    /// position.
    UnexpectedType,
    /// The four bytes of a type or brand are not all ASCII.
    InvalidTag,
    /// An entry that the entry count announces is cut short by the end of
    /// the box.
    MalformedEntry,
}

/// The outcome of a decode with the decoded value replaced by its view.
pub open spec fn view_of<T: View>(outcome: Result<T, ParseError>) -> Result<T::V, ParseError> {
    match outcome {
        Ok(value) => Ok(value@),
        Err(error) => Err(error),
    }
}

} // verus!
