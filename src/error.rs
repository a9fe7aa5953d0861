use vstd::prelude::*;

verus! {

/// Failures surfaced by the dispatcher to the immediate caller.
#[derive(Debug, Clone, PartialEq, Eq)]
pub enum LampoError {
    /// An inbound channel open was requested (carries the temporary channel
    /// id); the node does not accept them.
    UnsupportedFeature(String),
    /// No registered handler recognises the method (carries the method name).
    MethodNotFound(String),
    /// The request could not be mapped to a command.
    MalformedRequest(String),
    /// A matched external handler failed; its message is kept verbatim.
    HandlerFailure(String),
    /// Fee estimation, transaction construction or funding finalization failed.
    CollaboratorFailure(String),
    /// A protocol event that the reactor does not model (carries its name).
    UnexpectedProtocolEvent(String),
    /// A claimable payment whose purpose carries no preimage (carries the payment hash).
    MissingPreimage(String),
    /// A funding transition for this temporary channel id is already running.
    FundingInProgress(String),
}

} // verus!
