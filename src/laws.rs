use vstd::prelude::*;

use crate::error::LedgerError;
use crate::model::{
    admin_check, after_cancel, after_create, after_vote, cancel_check, create_check, created_by,
    evolves_to, lemma_created_by_push, lemma_created_by_update, lemma_sum_votes_push,
    lemma_sum_votes_update, sum_votes, transfer_check, vote_check, LedgerModel, ProposalModel,
    MAX_DESCRIPTION_LENGTH, MAX_PROPOSALS_PER_USER, MAX_TITLE_LENGTH, MIN_DURATION,
};

verus! {

/// One call on the ledger, with its caller and, where it reads the clock, the time.
pub enum Op {
    Pause { caller: Seq<u8> },
    Unpause { caller: Seq<u8> },
    TransferOwnership { caller: Seq<u8>, new_owner: Seq<u8> },
    CreateProposal { caller: Seq<u8>, now: u64, title: Seq<u8>, description: Seq<u8>, duration: u64 },
    Vote { caller: Seq<u8>, now: u64, proposal_id: u64 },
    CancelProposal { caller: Seq<u8>, proposal_id: u64 },
}

/// The state right after initialisation by `owner`.
pub open spec fn initial(owner: Seq<u8>) -> LedgerModel {
    LedgerModel { owner, paused: false, proposals: Seq::empty(), total_votes: 0 }
}

/// The state after one call: its effect when no guard refuses it, else no change.
pub open spec fn apply(m: LedgerModel, op: Op) -> LedgerModel {
    match op {
        Op::Pause { caller } => if admin_check(m, caller) is None {
            LedgerModel { paused: true, ..m }
        } else {
            m
        },
        Op::Unpause { caller } => if admin_check(m, caller) is None {
            LedgerModel { paused: false, ..m }
        } else {
            m
        },
        Op::TransferOwnership { caller, new_owner } => if transfer_check(
            m,
            caller,
            new_owner,
        ) is None {
            LedgerModel { owner: new_owner, ..m }
        } else {
            m
        },
        Op::CreateProposal { caller, now, title, description, duration } => if create_check(
            m,
            caller,
            title,
            description,
            duration,
        ) is None {
            after_create(m, caller, title, description, (now + duration) as u64)
        } else {
            m
        },
        Op::Vote { caller, now, proposal_id } => if vote_check(m, caller, now, proposal_id) is None {
            after_vote(m, caller, proposal_id)
        } else {
            m
        },
        Op::CancelProposal { caller, proposal_id } => if cancel_check(
            m,
            caller,
            proposal_id,
        ) is None {
            after_cancel(m, proposal_id)
        } else {
            m
        },
    }
}

/// The state after a sequence of calls, in order.
pub open spec fn run(m: LedgerModel, ops: Seq<Op>) -> LedgerModel
    decreases ops.len(),
{
    if ops.len() == 0 {
        m
    } else {
        apply(run(m, ops.drop_last()), ops.last())
    }
}

/// The machine limit on a call: a deadline must fit in 64 bits.
pub open spec fn within_limits(op: Op) -> bool {
    op matches Op::CreateProposal { now, duration, .. } ==> now + duration <= u64::MAX
}

/// One call, refused or not, keeps the invariants, leaves a state evolved from the one
/// before it, and adds at most one vote.
pub proof fn lemma_call_keeps_invariants(m: LedgerModel, op: Op)
    requires
        m.wf(),
        within_limits(op),
        m.total_votes < u64::MAX,
    ensures
        apply(m, op).wf(),
        evolves_to(m, apply(m, op)),
        apply(m, op).total_votes <= m.total_votes + 1,
{
    let m2 = apply(m, op);
    match op {
        Op::CreateProposal { caller, now, title, description, duration } => {
            if create_check(m, caller, title, description, duration) is None {
                let p = m2.proposals.last();
                assert(m2.proposals =~= m.proposals.push(p));
                lemma_sum_votes_push(m.proposals, p);
                assert forall|a: Seq<u8>|
                    #[trigger] created_by(m2.proposals, a) <= MAX_PROPOSALS_PER_USER by {
                    lemma_created_by_push(m.proposals, p, a);
                }
            }
        },
        Op::Vote { caller, now, proposal_id } => {
            if vote_check(m, caller, now, proposal_id) is None {
                let i = proposal_id as int;
                let p = m2.proposals[i];
                lemma_sum_votes_update(m.proposals, i, p);
                assert forall|a: Seq<u8>|
                    #[trigger] created_by(m2.proposals, a) <= MAX_PROPOSALS_PER_USER by {
                    lemma_created_by_update(m.proposals, i, p, a);
                }
                assert(m.proposals[i].voters.is_prefix_of(p.voters));
            }
        },
        Op::CancelProposal { caller, proposal_id } => {
            if cancel_check(m, caller, proposal_id) is None {
                let i = proposal_id as int;
                let p = m2.proposals[i];
                lemma_sum_votes_update(m.proposals, i, p);
                assert forall|a: Seq<u8>|
                    #[trigger] created_by(m2.proposals, a) <= MAX_PROPOSALS_PER_USER by {
                    lemma_created_by_update(m.proposals, i, p, a);
                }
            }
        },
        _ => {},
    }
}

/// `evolves_to` is transitive: what no single call undoes, no sequence of calls undoes.
pub proof fn lemma_evolves_to_transitive(m1: LedgerModel, m2: LedgerModel, m3: LedgerModel)
    requires
        evolves_to(m1, m2),
        evolves_to(m2, m3),
    ensures
        evolves_to(m1, m3),
{
    assert forall|i: int| 0 <= i < m1.proposals.len() implies {
        let p1 = #[trigger] m1.proposals[i];
        let p3 = m3.proposals[i];
        p1.voters.is_prefix_of(p3.voters)
    } by {
        let v1 = m1.proposals[i].voters;
        let v2 = m2.proposals[i].voters;
        let v3 = m3.proposals[i].voters;
        assert(v1.is_prefix_of(v2));
        assert(v2.is_prefix_of(v3));
        assert forall|k: int| 0 <= k < v1.len() implies v1[k] == v3[k] by {
            assert(v1[k] == v2[k]);
        }
    }
}

/// Invariants of every reachable state: after any sequence of calls from initialisation,
/// `total_votes` is the sum of the proposals' vote counts, every proposal has distinct
/// voters, no address has created more than 10 proposals, and nothing that the calls
/// never undo has been undone.
pub proof fn lemma_run_invariants(owner: Seq<u8>, ops: Seq<Op>)
    requires
        ops.len() < u64::MAX,
        forall|i: int| 0 <= i < ops.len() ==> within_limits(#[trigger] ops[i]),
    ensures
        run(initial(owner), ops).wf(),
        run(initial(owner), ops).total_votes == sum_votes(run(initial(owner), ops).proposals),
        forall|a: Seq<u8>| #[trigger] created_by(run(initial(owner), ops).proposals, a) <= 10,
        evolves_to(initial(owner), run(initial(owner), ops)),
        run(initial(owner), ops).total_votes <= ops.len(),
    decreases ops.len(),
{
    let m0 = initial(owner);
    if ops.len() == 0 {
        assert(m0.proposals =~= Seq::<ProposalModel>::empty());
        assert forall|a: Seq<u8>| #[trigger] created_by(m0.proposals, a) <= MAX_PROPOSALS_PER_USER by {
        }
    } else {
        let prefix = ops.drop_last();
        assert forall|i: int| 0 <= i < prefix.len() implies within_limits(#[trigger] prefix[i]) by {
            assert(prefix[i] == ops[i]);
        }
        lemma_run_invariants(owner, prefix);
        let m1 = run(m0, prefix);
        assert(within_limits(ops[ops.len() - 1]));
        lemma_call_keeps_invariants(m1, ops.last());
        lemma_evolves_to_transitive(m0, m1, run(m0, ops));
    }
}

/// A voter who voted on a proposal can never vote on it again: in every later state
/// the same vote is refused, with `AlreadyVoted` whenever no earlier guard refuses it.
pub proof fn lemma_vote_at_most_once(
    m: LedgerModel,
    voter: Seq<u8>,
    now: u64,
    proposal_id: u64,
    later: LedgerModel,
    later_now: u64,
)
    requires
        vote_check(m, voter, now, proposal_id) is None,
        evolves_to(after_vote(m, voter, proposal_id), later),
    ensures
        vote_check(later, voter, later_now, proposal_id) is Some,
        !later.paused && later.proposals[proposal_id as int].active && later_now
            <= later.proposals[proposal_id as int].deadline ==> vote_check(
            later,
            voter,
            later_now,
            proposal_id,
        ) == Some(LedgerError::AlreadyVoted),
{
    let m1 = after_vote(m, voter, proposal_id);
    let i = proposal_id as int;
    let v1 = m1.proposals[i].voters;
    assert(v1[v1.len() - 1] == voter);
    assert(v1.is_prefix_of(later.proposals[i].voters));
    assert(later.proposals[i].voters[v1.len() - 1] == voter);
}

/// An address that has created 10 proposals is refused any further one, with
/// `TooManyProposals` whenever no earlier guard refuses it.
pub proof fn lemma_quota_reached(
    m: LedgerModel,
    caller: Seq<u8>,
    title: Seq<u8>,
    description: Seq<u8>,
    duration: u64,
)
    requires
        created_by(m.proposals, caller) >= MAX_PROPOSALS_PER_USER,
    ensures
        create_check(m, caller, title, description, duration) is Some,
        !m.paused && 0 < title.len() <= MAX_TITLE_LENGTH && 0 < description.len()
            <= MAX_DESCRIPTION_LENGTH && duration >= MIN_DURATION ==> create_check(
            m,
            caller,
            title,
            description,
            duration,
        ) == Some(LedgerError::TooManyProposals),
{
}

/// Quotas are per address: a proposal created by one address leaves every other
/// address's count unchanged.
pub proof fn lemma_quota_per_address(
    m: LedgerModel,
    creator: Seq<u8>,
    title: Seq<u8>,
    description: Seq<u8>,
    deadline: u64,
    other: Seq<u8>,
)
    requires
        other != creator,
    ensures
        created_by(after_create(m, creator, title, description, deadline).proposals, other)
            == created_by(m.proposals, other),
        created_by(after_create(m, creator, title, description, deadline).proposals, creator)
            == created_by(m.proposals, creator) + 1,
{
    let p = after_create(m, creator, title, description, deadline).proposals.last();
    lemma_created_by_push(m.proposals, p, other);
    lemma_created_by_push(m.proposals, p, creator);
}

/// A cancelled proposal cannot be cancelled again: the second attempt, by anyone,
/// is refused with `NotActive`.
pub proof fn lemma_cancel_once(m: LedgerModel, caller: Seq<u8>, again: Seq<u8>, proposal_id: u64)
    requires
        cancel_check(m, caller, proposal_id) is None,
    ensures
        cancel_check(after_cancel(m, proposal_id), again, proposal_id) == Some(
            LedgerError::NotActive,
        ),
        !after_cancel(m, proposal_id).proposals[proposal_id as int].active,
{
}

/// A vote after the deadline is refused with `VotingEnded`, though the proposal is
/// still active.
pub proof fn lemma_vote_after_deadline(m: LedgerModel, voter: Seq<u8>, now: u64, proposal_id: u64)
    requires
        !m.paused,
        m.valid_id(proposal_id),
        m.proposals[proposal_id as int].active,
        now > m.proposals[proposal_id as int].deadline,
    ensures
        vote_check(m, voter, now, proposal_id) == Some(LedgerError::VotingEnded),
{
}

/// A vote on a cancelled proposal is refused with `NotActive`, whatever the time.
pub proof fn lemma_vote_on_cancelled(m: LedgerModel, voter: Seq<u8>, now: u64, proposal_id: u64)
    requires
        !m.paused,
        m.valid_id(proposal_id),
        !m.proposals[proposal_id as int].active,
    ensures
        vote_check(m, voter, now, proposal_id) == Some(LedgerError::NotActive),
{
}

} // verus!
