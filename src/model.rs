use vstd::prelude::*;

use crate::address::is_null_address;
use crate::error::LedgerError;

verus! {

/// Shortest voting window, in time units.
pub const MIN_DURATION: u64 = 3600;

/// Most proposals one address may ever create.
pub const MAX_PROPOSALS_PER_USER: usize = 10;

/// Longest accepted title, in bytes.
pub const MAX_TITLE_LENGTH: usize = 100;

/// Longest accepted description, in bytes.
pub const MAX_DESCRIPTION_LENGTH: usize = 1000;

/// Abstract state of one proposal. Its vote count is the number of voters.
pub struct ProposalModel {
    pub title: Seq<u8>,
    pub description: Seq<u8>,
    pub creator: Seq<u8>,
    pub deadline: u64,
    pub active: bool,
    pub voters: Seq<Seq<u8>>,
}

/// Abstract state of the whole ledger. A proposal's id is its index.
pub struct LedgerModel {
    pub owner: Seq<u8>,
    pub paused: bool,
    pub proposals: Seq<ProposalModel>,
    pub total_votes: u64,
}

/// Sum of the vote counts of all proposals.
pub open spec fn sum_votes(ps: Seq<ProposalModel>) -> int
    decreases ps.len(),
{
    if ps.len() == 0 {
        0
    } else {
        sum_votes(ps.drop_last()) + ps.last().voters.len()
    }
}

/// Number of proposals created by address `a`.
pub open spec fn created_by(ps: Seq<ProposalModel>, a: Seq<u8>) -> nat
    decreases ps.len(),
{
    if ps.len() == 0 {
        0
    } else {
        created_by(ps.drop_last(), a) + if ps.last().creator == a {
            1nat
        } else {
            0nat
        }
    }
}

impl LedgerModel {
    /// The invariants every reachable ledger state satisfies.
    pub open spec fn wf(self) -> bool {
        &&& self.total_votes == sum_votes(self.proposals)
        &&& forall|i: int|
            0 <= i < self.proposals.len() ==> (#[trigger] self.proposals[i]).voters.no_duplicates()
        &&& forall|a: Seq<u8>| #[trigger] created_by(self.proposals, a) <= MAX_PROPOSALS_PER_USER
    }

    pub open spec fn valid_id(self, id: u64) -> bool {
        id < self.proposals.len()
    }

    pub open spec fn vote_count(self, id: u64) -> nat {
        self.proposals[id as int].voters.len()
    }

    pub open spec fn has_voted(self, id: u64, voter: Seq<u8>) -> bool {
        self.proposals[id as int].voters.contains(voter)
    }
}

/// A refusal as the result of a call.
pub open spec fn as_result(c: Option<LedgerError>) -> Result<(), LedgerError> {
    match c {
        Some(e) => Err(e),
        None => Ok(()),
    }
}

/// Refusal of an administrative call (pause, unpause, transfer), if any.
pub open spec fn admin_guard(is_owner: bool) -> Option<LedgerError> {
    if !is_owner {
        Some(LedgerError::NotOwner)
    } else {
        None
    }
}

/// Refusal of an ownership transfer, if any, first failing guard first.
pub open spec fn transfer_guard(is_owner: bool, new_owner_is_null: bool) -> Option<LedgerError> {
    if !is_owner {
        Some(LedgerError::NotOwner)
    } else if new_owner_is_null {
        Some(LedgerError::NullAddress)
    } else {
        None
    }
}

/// Refusal of a proposal creation, if any, first failing guard first. `created` is the
/// number of proposals the caller created before.
pub open spec fn create_guard(
    paused: bool,
    title_len: nat,
    description_len: nat,
    duration: u64,
    created: nat,
) -> Option<LedgerError> {
    if paused {
        Some(LedgerError::Paused)
    } else if title_len == 0 {
        Some(LedgerError::EmptyTitle)
    } else if title_len > MAX_TITLE_LENGTH {
        Some(LedgerError::TitleTooLong)
    } else if description_len == 0 {
        Some(LedgerError::EmptyDescription)
    } else if description_len > MAX_DESCRIPTION_LENGTH {
        Some(LedgerError::DescriptionTooLong)
    } else if duration < MIN_DURATION {
        Some(LedgerError::DurationTooShort)
    } else if created >= MAX_PROPOSALS_PER_USER {
        Some(LedgerError::TooManyProposals)
    } else {
        None
    }
}

/// Refusal of a vote, if any, first failing guard first. The proposal's fields are
/// read only when it exists.
pub open spec fn vote_guard(
    paused: bool,
    exists: bool,
    active: bool,
    deadline: u64,
    now: u64,
    already_voted: bool,
) -> Option<LedgerError> {
    if paused {
        Some(LedgerError::Paused)
    } else if !exists {
        Some(LedgerError::ProposalNotFound)
    } else if !active {
        Some(LedgerError::NotActive)
    } else if now > deadline {
        Some(LedgerError::VotingEnded)
    } else if already_voted {
        Some(LedgerError::AlreadyVoted)
    } else {
        None
    }
}

/// Refusal of a cancellation, if any, first failing guard first. The proposal's fields
/// are read only when it exists.
pub open spec fn cancel_guard(
    paused: bool,
    exists: bool,
    active: bool,
    is_creator: bool,
    is_owner: bool,
) -> Option<LedgerError> {
    if paused {
        Some(LedgerError::Paused)
    } else if !exists {
        Some(LedgerError::ProposalNotFound)
    } else if !active {
        Some(LedgerError::NotActive)
    } else if !is_creator && !is_owner {
        Some(LedgerError::NotCreatorOrOwner)
    } else {
        None
    }
}

/// Refusal of an administrative call on the ledger, if any.
pub open spec fn admin_check(m: LedgerModel, caller: Seq<u8>) -> Option<LedgerError> {
    admin_guard(caller == m.owner)
}

/// Refusal of an ownership transfer on the ledger, if any.
pub open spec fn transfer_check(m: LedgerModel, caller: Seq<u8>, new_owner: Seq<u8>) -> Option<
    LedgerError,
> {
    transfer_guard(caller == m.owner, is_null_address(new_owner))
}

/// Refusal of a proposal creation on the ledger, if any.
pub open spec fn create_check(
    m: LedgerModel,
    caller: Seq<u8>,
    title: Seq<u8>,
    description: Seq<u8>,
    duration: u64,
) -> Option<LedgerError> {
    create_guard(m.paused, title.len(), description.len(), duration, created_by(m.proposals, caller))
}

/// State after a successful creation: one new active proposal without votes.
pub open spec fn after_create(
    m: LedgerModel,
    caller: Seq<u8>,
    title: Seq<u8>,
    description: Seq<u8>,
    deadline: u64,
) -> LedgerModel {
    LedgerModel {
        proposals: m.proposals.push(
            ProposalModel { title, description, creator: caller, deadline, active: true, voters: seq![] },
        ),
        ..m
    }
}

/// Refusal of a vote on the ledger, if any.
pub open spec fn vote_check(m: LedgerModel, caller: Seq<u8>, now: u64, id: u64) -> Option<
    LedgerError,
> {
    vote_guard(
        m.paused,
        m.valid_id(id),
        m.proposals[id as int].active,
        m.proposals[id as int].deadline,
        now,
        m.has_voted(id, caller),
    )
}

/// State after a successful vote: the voter is recorded and the total grows by one.
pub open spec fn after_vote(m: LedgerModel, caller: Seq<u8>, id: u64) -> LedgerModel {
    let p = m.proposals[id as int];
    LedgerModel {
        proposals: m.proposals.update(id as int, ProposalModel { voters: p.voters.push(caller), ..p }),
        total_votes: (m.total_votes + 1) as u64,
        ..m
    }
}

/// Refusal of a cancellation on the ledger, if any.
pub open spec fn cancel_check(m: LedgerModel, caller: Seq<u8>, id: u64) -> Option<LedgerError> {
    cancel_guard(
        m.paused,
        m.valid_id(id),
        m.proposals[id as int].active,
        caller == m.proposals[id as int].creator,
        caller == m.owner,
    )
}

/// State after a successful cancellation: the proposal is inactive.
pub open spec fn after_cancel(m: LedgerModel, id: u64) -> LedgerModel {
    let p = m.proposals[id as int];
    LedgerModel {
        proposals: m.proposals.update(id as int, ProposalModel { active: false, ..p }),
        ..m
    }
}

/// What no operation ever undoes: proposals are never removed, their fixed fields never
/// change, votes are never removed, and an inactive proposal stays inactive.
pub open spec fn evolves_to(m1: LedgerModel, m2: LedgerModel) -> bool {
    &&& m1.proposals.len() <= m2.proposals.len()
    &&& forall|i: int|
        0 <= i < m1.proposals.len() ==> {
            let p1 = #[trigger] m1.proposals[i];
            let p2 = m2.proposals[i];
            &&& p2.title == p1.title
            &&& p2.description == p1.description
            &&& p2.creator == p1.creator
            &&& p2.deadline == p1.deadline
            &&& p1.voters.is_prefix_of(p2.voters)
            &&& (!p1.active ==> !p2.active)
        }
}

pub proof fn lemma_sum_votes_push(ps: Seq<ProposalModel>, p: ProposalModel)
    ensures
        sum_votes(ps.push(p)) == sum_votes(ps) + p.voters.len(),
{
    assert(ps.push(p).drop_last() =~= ps);
}

pub proof fn lemma_sum_votes_update(ps: Seq<ProposalModel>, i: int, p: ProposalModel)
    requires
        0 <= i < ps.len(),
    ensures
        sum_votes(ps.update(i, p)) == sum_votes(ps) - ps[i].voters.len() + p.voters.len(),
    decreases ps.len(),
{
    let qs = ps.update(i, p);
    if i == ps.len() - 1 {
        assert(qs.drop_last() =~= ps.drop_last());
    } else {
        assert(qs.drop_last() =~= ps.drop_last().update(i, p));
        lemma_sum_votes_update(ps.drop_last(), i, p);
    }
}

pub proof fn lemma_created_by_push(ps: Seq<ProposalModel>, p: ProposalModel, a: Seq<u8>)
    ensures
        created_by(ps.push(p), a) == created_by(ps, a) + if p.creator == a {
            1nat
        } else {
            0nat
        },
{
    assert(ps.push(p).drop_last() =~= ps);
}

pub proof fn lemma_created_by_update(ps: Seq<ProposalModel>, i: int, p: ProposalModel, a: Seq<u8>)
    requires
        0 <= i < ps.len(),
        p.creator == ps[i].creator,
    ensures
        created_by(ps.update(i, p), a) == created_by(ps, a),
    decreases ps.len(),
{
    let qs = ps.update(i, p);
    if i == ps.len() - 1 {
        assert(qs.drop_last() =~= ps.drop_last());
    } else {
        assert(qs.drop_last() =~= ps.drop_last().update(i, p));
        lemma_created_by_update(ps.drop_last(), i, p, a);
    }
}

} // verus!
