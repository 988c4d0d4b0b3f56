use vstd::prelude::*;

use crate::address::Address;
use crate::error::LedgerError;
use crate::model::{
    admin_guard, as_result, cancel_guard, create_guard, transfer_guard, vote_guard,
    MAX_DESCRIPTION_LENGTH, MAX_PROPOSALS_PER_USER, MAX_TITLE_LENGTH, MIN_DURATION,
};

verus! {

/// Only the owner may administer the ledger.
pub fn check_owner(owner: &Address, caller: &Address) -> (r: Result<(), LedgerError>)
    ensures
        r == as_result(admin_guard(caller@ == owner@)),
{
    if !owner.same_as(caller) {
        return Err(LedgerError::NotOwner);
    }
    Ok(())
}

/// Only the owner may transfer ownership, and never to the null address.
pub fn check_transfer(owner: &Address, caller: &Address, new_owner: &Address) -> (r: Result<
    (),
    LedgerError,
>)
    ensures
        r == as_result(transfer_guard(caller@ == owner@, new_owner.spec_is_zero())),
{
    check_owner(owner, caller)?;
    if new_owner.is_zero() {
        return Err(LedgerError::NullAddress);
    }
    Ok(())
}

/// The guards of a proposal creation, in order; `created` counts the caller's
/// earlier proposals.
pub fn check_create(
    paused: bool,
    title_len: usize,
    description_len: usize,
    duration: u64,
    created: usize,
) -> (r: Result<(), LedgerError>)
    ensures
        r == as_result(
            create_guard(paused, title_len as nat, description_len as nat, duration, created as nat),
        ),
{
    if paused {
        return Err(LedgerError::Paused);
    }
    if title_len == 0 {
        return Err(LedgerError::EmptyTitle);
    }
    if title_len > MAX_TITLE_LENGTH {
        return Err(LedgerError::TitleTooLong);
    }
    if description_len == 0 {
        return Err(LedgerError::EmptyDescription);
    }
    if description_len > MAX_DESCRIPTION_LENGTH {
        return Err(LedgerError::DescriptionTooLong);
    }
    if duration < MIN_DURATION {
        return Err(LedgerError::DurationTooShort);
    }
    if created >= MAX_PROPOSALS_PER_USER {
        return Err(LedgerError::TooManyProposals);
    }
    Ok(())
}

/// The guards of a vote, in order. `active`, `deadline` and `already_voted` describe
/// the proposal and matter only when `proposal_id < total_proposals`.
pub fn check_vote(
    paused: bool,
    proposal_id: u64,
    total_proposals: u64,
    active: bool,
    deadline: u64,
    now: u64,
    already_voted: bool,
) -> (r: Result<(), LedgerError>)
    ensures
        r == as_result(
            vote_guard(paused, proposal_id < total_proposals, active, deadline, now, already_voted),
        ),
{
    if paused {
        return Err(LedgerError::Paused);
    }
    if proposal_id >= total_proposals {
        return Err(LedgerError::ProposalNotFound);
    }
    if !active {
        return Err(LedgerError::NotActive);
    }
    if now > deadline {
        return Err(LedgerError::VotingEnded);
    }
    if already_voted {
        return Err(LedgerError::AlreadyVoted);
    }
    Ok(())
}

/// The guards of a cancellation, in order. `active` and `creator` describe the
/// proposal and matter only when `proposal_id < total_proposals`.
pub fn check_cancel(
    paused: bool,
    proposal_id: u64,
    total_proposals: u64,
    active: bool,
    creator: &Address,
    owner: &Address,
    caller: &Address,
) -> (r: Result<(), LedgerError>)
    ensures
        r == as_result(
            cancel_guard(
                paused,
                proposal_id < total_proposals,
                active,
                caller@ == creator@,
                caller@ == owner@,
            ),
        ),
{
    if paused {
        return Err(LedgerError::Paused);
    }
    if proposal_id >= total_proposals {
        return Err(LedgerError::ProposalNotFound);
    }
    if !active {
        return Err(LedgerError::NotActive);
    }
    if !creator.same_as(caller) && !owner.same_as(caller) {
        return Err(LedgerError::NotCreatorOrOwner);
    }
    Ok(())
}

} // verus!
