use vstd::prelude::*;

verus! {

/// Every way an action on the ledger core can be refused.
#[derive(Debug, Clone, Copy, PartialEq, Eq, Structural)]
pub enum DataChainError {
    Unauthorized,
    InvalidParameters,
    InsufficientBalance,
    TransferFailed,
    MintFailed,
    DatasetNotFound,
    DatasetAlreadyRegistered,
    InvalidDatasetPrice,
    AccessAlreadyPurchased,
    AccessNotPurchased,
    InvalidRating,
    AlreadyRated,
    ModelNotFound,
    ModelAlreadyRegistered,
    InvalidModelPrice,
    ModelUsageFailed,
    ProposalNotFound,
    ProposalAlreadyExists,
    InvalidProposalType,
    ProposalVotingEnded,
    ProposalExecutionFailed,
    AlreadyVoted,
    InsufficientVotingPower,
    QuorumNotReached,
    ProposalRejected,
    InvalidTokenMetadata,
    MintingCooldown,
    MaxSupplyReached,
    InvalidTimestamp,
    InvalidAuthority,
    SystemError,
}

} // verus!
