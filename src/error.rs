use vstd::prelude::*;

verus! {

/// Every way an operation of the bridge can fail.
#[derive(Debug, Clone, Copy, PartialEq, Eq, Structural)]
pub enum BridgeError {
    /// The buffer is shorter than the fixed region it must hold.
    TruncatedInput,
    /// The beatmap or document bytes are structurally invalid.
    DecodeError,
    /// The handle is null, malformed, of another kind, or already released.
    InvalidHandle,
    /// A gradual step was requested without a score state.
    MissingScoreState,
    /// The gradual session has no more steps.
    Exhausted,
    /// A document index is outside the list it addresses.
    IndexOutOfRange,
    /// A collaborator failed unexpectedly.
    InternalError,
}

} // verus!
