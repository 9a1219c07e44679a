use vstd::prelude::*;

verus! {

/// Errors of the risk protocol.
#[derive(Clone, Copy, Debug, PartialEq, Eq, Structural)]
pub enum ErrorCode {
    /// The computation was aborted, or its result failed authentication.
    AbortedComputation,
    /// A request argument is missing or has the wrong width.
    MalformedRequest,
    /// The correlation identifier is already known to the tracker.
    DuplicateSubmission,
    /// A callback names an identifier that was never submitted.
    UnknownRequest,
    /// A callback or acceptance arrived for a request not in the state it needs.
    InvalidTransition,
    /// A result payload is shorter than its fixed layout.
    DecodeError,
    /// An intermediate value of the risk model does not fit in 64 bits.
    ArithmeticOverflow,
}

} // verus!
