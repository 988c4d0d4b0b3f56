use vstd::prelude::*;

verus! {

/// The broad class a failure belongs to.
#[derive(Clone, Copy, Debug, PartialEq, Eq, Structural)]
pub enum ErrorKind {
    Unauthorized,
    ContractPaused,
    InvalidArgument,
    NotFound,
    InvalidState,
    Expired,
    AlreadyDone,
    QuotaExceeded,
}

/// Why an operation on the ledger was refused. Each variant has a stable message.
#[derive(Clone, Copy, Debug, PartialEq, Eq, Structural)]
pub enum LedgerError {
    NotOwner,
    NotCreatorOrOwner,
    NullAddress,
    EmptyTitle,
    TitleTooLong,
    EmptyDescription,
    DescriptionTooLong,
    DurationTooShort,
    TooManyProposals,
    Paused,
    ProposalNotFound,
    NotActive,
    VotingEnded,
    AlreadyVoted,
}

impl LedgerError {
    pub open spec fn spec_kind(self) -> ErrorKind {
        match self {
            LedgerError::NotOwner | LedgerError::NotCreatorOrOwner => ErrorKind::Unauthorized,
            LedgerError::NullAddress
            | LedgerError::EmptyTitle
            | LedgerError::TitleTooLong
            | LedgerError::EmptyDescription
            | LedgerError::DescriptionTooLong
            | LedgerError::DurationTooShort => ErrorKind::InvalidArgument,
            LedgerError::TooManyProposals => ErrorKind::QuotaExceeded,
            LedgerError::Paused => ErrorKind::ContractPaused,
            LedgerError::ProposalNotFound => ErrorKind::NotFound,
            LedgerError::NotActive => ErrorKind::InvalidState,
            LedgerError::VotingEnded => ErrorKind::Expired,
            LedgerError::AlreadyVoted => ErrorKind::AlreadyDone,
        }
    }

    /// The class of this failure.
    pub fn kind(&self) -> (r: ErrorKind)
        ensures
            r == self.spec_kind(),
    {
        match self {
            LedgerError::NotOwner | LedgerError::NotCreatorOrOwner => ErrorKind::Unauthorized,
            LedgerError::NullAddress
            | LedgerError::EmptyTitle
            | LedgerError::TitleTooLong
            | LedgerError::EmptyDescription
            | LedgerError::DescriptionTooLong
            | LedgerError::DurationTooShort => ErrorKind::InvalidArgument,
            LedgerError::TooManyProposals => ErrorKind::QuotaExceeded,
            LedgerError::Paused => ErrorKind::ContractPaused,
            LedgerError::ProposalNotFound => ErrorKind::NotFound,
            LedgerError::NotActive => ErrorKind::InvalidState,
            LedgerError::VotingEnded => ErrorKind::Expired,
            LedgerError::AlreadyVoted => ErrorKind::AlreadyDone,
        }
    }

    pub open spec fn spec_message(self) -> &'static str {
        match self {
            LedgerError::NotOwner => "Only owner can call this function",
            LedgerError::NotCreatorOrOwner => "Only creator or owner can cancel proposal",
            LedgerError::NullAddress => "Invalid new owner address",
            LedgerError::EmptyTitle => "Title cannot be empty",
            LedgerError::TitleTooLong => "Title too long",
            LedgerError::EmptyDescription => "Description cannot be empty",
            LedgerError::DescriptionTooLong => "Description too long",
            LedgerError::DurationTooShort => "Duration too short",
            LedgerError::TooManyProposals => "Maximum proposals per user exceeded",
            LedgerError::Paused => "Contract is paused",
            LedgerError::ProposalNotFound => "Proposal does not exist",
            LedgerError::NotActive => "Proposal is not active",
            LedgerError::VotingEnded => "Voting period ended",
            LedgerError::AlreadyVoted => "Already voted on this proposal",
        }
    }

    /// The human-readable reason, stable for each variant.
    pub fn message(&self) -> (r: &'static str)
        ensures
            r == self.spec_message(),
    {
        match self {
            LedgerError::NotOwner => "Only owner can call this function",
            LedgerError::NotCreatorOrOwner => "Only creator or owner can cancel proposal",
            LedgerError::NullAddress => "Invalid new owner address",
            LedgerError::EmptyTitle => "Title cannot be empty",
            LedgerError::TitleTooLong => "Title too long",
            LedgerError::EmptyDescription => "Description cannot be empty",
            LedgerError::DescriptionTooLong => "Description too long",
            LedgerError::DurationTooShort => "Duration too short",
            LedgerError::TooManyProposals => "Maximum proposals per user exceeded",
            LedgerError::Paused => "Contract is paused",
            LedgerError::ProposalNotFound => "Proposal does not exist",
            LedgerError::NotActive => "Proposal is not active",
            LedgerError::VotingEnded => "Voting period ended",
            LedgerError::AlreadyVoted => "Already voted on this proposal",
        }
    }
}

} // verus!
