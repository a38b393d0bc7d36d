use vstd::prelude::*;

verus! {

/// The failures the pipeline reports.  Every stage returns one of these
/// as a typed value; nothing is retried internally and nothing panics.
#[derive(Clone, Copy, Debug, PartialEq, Eq, Structural)]
pub enum PayjoinError {
    /// The request could not be parsed, or a mutation was attempted
    /// after the fee barrier.
    RequestMalformed,
    /// An anti-fraud or anti-surveillance check rejected the proposal:
    /// a receiver-owned input, mixed input script types, an input seen
    /// before, or no output paying the receiver.
    ValidationRejected,
    /// A caller-supplied predicate itself failed; its error is
    /// surfaced, not swallowed.
    CallbackFailed,
    /// The privacy-preserving selector found no acceptable candidate.
    SelectionExhausted,
    /// A consuming stage method was invoked on an already-emptied
    /// handle.
    IllegalReuse,
}

} // verus!
