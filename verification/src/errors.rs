use vstd::prelude::*;

verus! {

/// The ways a single request, or the shared funding transaction, can fail.
///
/// The first three kinds are request-validation and connectivity failures,
/// fatal to one request only. `InitiationRejected` is the protocol engine
/// refusing the initiate-channel call. `FundingGenerationNeverHappened` is
/// the post-hoc reclassification of a request whose initiation succeeded but
/// whose funding-ready event never arrived before the correlation timeout.
/// `CompletionRejected` is the protocol engine refusing the complete-funding
/// call. `SharedTransactionBuildFailed` is the batch-fatal kind: building or
/// signing the shared transaction failed, which invalidates every request
/// that was still pending at that stage.
#[derive(Clone, Copy, Debug, PartialEq, Eq, Structural)]
pub enum Error {
    InvalidPubkey,
    InvalidAddress,
    MissingAddress,
    ConnectionFailed,
    InitiationRejected,
    FundingGenerationNeverHappened,
    CompletionRejected,
    SharedTransactionBuildFailed,
}

} // verus!
