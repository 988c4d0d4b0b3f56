use vstd::prelude::*;

use crate::address::Address;
use crate::error::LedgerError;
use crate::guard::{check_cancel, check_create, check_owner, check_transfer, check_vote};
use crate::laws::{apply, initial, Op};
use crate::model::{
    admin_check, after_cancel, after_create, after_vote, cancel_check, create_check,
    created_by, evolves_to, lemma_created_by_push, lemma_created_by_update, lemma_sum_votes_push,
    lemma_sum_votes_update, transfer_check, vote_check, LedgerModel, ProposalModel,
    MAX_PROPOSALS_PER_USER,
};

verus! {

/// A record of a completed state transition, handed to an outside observer.
#[derive(Clone, Copy, Debug, PartialEq, Eq)]
pub enum Notification {
    Initialized { admin: Address },
    Paused,
    Unpaused,
    OwnershipTransferred { old_owner: Address, new_owner: Address },
    ProposalCreated { proposal_id: u64, creator: Address },
    VoteCast { proposal_id: u64, voter: Address },
    ProposalCancelled { proposal_id: u64, cancelled_by: Address },
}

/// One stored proposal; its vote count is the number of recorded voters.
struct Proposal {
    title: Vec<u8>,
    description: Vec<u8>,
    creator: Address,
    deadline: u64,
    active: bool,
    voters: Vec<Address>,
}

impl View for Proposal {
    type V = ProposalModel;

    closed spec fn view(&self) -> ProposalModel {
        ProposalModel {
            title: self.title@,
            description: self.description@,
            creator: self.creator@,
            deadline: self.deadline,
            active: self.active,
            voters: self.voters@.map_values(|a: Address| a@),
        }
    }
}

impl Proposal {
    fn has_voter(&self, a: &Address) -> (r: bool)
        ensures
            r == self@.voters.contains(a@),
    {
        let mut i: usize = 0;
        while i < self.voters.len()
            invariant
                i <= self.voters.len(),
                forall|j: int| 0 <= j < i ==> self@.voters[j] != a@,
            decreases self.voters.len() - i,
        {
            if self.voters[i].same_as(a) {
                assert(self@.voters[i as int] == a@);
                return true;
            }
            i = i + 1;
        }
        false
    }
}

/// The governance ledger: administration, proposals, votes and counters.
pub struct ChainBallotX {
    owner: Address,
    paused: bool,
    proposals: Vec<Proposal>,
    total_votes: u64,
}

impl View for ChainBallotX {
    type V = LedgerModel;

    closed spec fn view(&self) -> LedgerModel {
        LedgerModel {
            owner: self.owner@,
            paused: self.paused,
            proposals: self.proposals@.map_values(|p: Proposal| p@),
            total_votes: self.total_votes,
        }
    }
}

impl ChainBallotX {
    /// The ledger's invariants hold; `init` establishes them and every call keeps them.
    pub open spec fn wf(&self) -> bool {
        self@.wf()
    }

    /// Sets up a ledger administered by `caller`, unpaused, with no proposals or votes.
    pub fn init(caller: Address) -> (r: (ChainBallotX, Notification))
        ensures
            r.0.wf(),
            r.0@ == initial(caller@),
            r.1 == (Notification::Initialized { admin: caller }),
    {
        let l = ChainBallotX { owner: caller, paused: false, proposals: Vec::new(), total_votes: 0 };
        assert(l@.proposals =~= Seq::empty());
        (l, Notification::Initialized { admin: caller })
    }

    /// Stops proposal creation, voting and cancellation. Only the owner may call it.
    pub fn pause(&mut self, caller: &Address) -> (r: Result<Notification, LedgerError>)
        requires
            old(self).wf(),
        ensures
            final(self).wf(),
            evolves_to(old(self)@, final(self)@),
            match admin_check(old(self)@, caller@) {
                Some(e) => r == Err::<Notification, LedgerError>(e) && final(self)@ == old(self)@,
                None => r == Ok::<Notification, LedgerError>(Notification::Paused) && final(self)@
                    == (LedgerModel { paused: true, ..old(self)@ }),
            },
            final(self)@ == apply(old(self)@, Op::Pause { caller: caller@ }),
    {
        match check_owner(&self.owner, caller) {
            Err(e) => Err(e),
            Ok(()) => {
                self.paused = true;
                Ok(Notification::Paused)
            },
        }
    }

    /// Lifts the pause. Only the owner may call it.
    pub fn unpause(&mut self, caller: &Address) -> (r: Result<Notification, LedgerError>)
        requires
            old(self).wf(),
        ensures
            final(self).wf(),
            evolves_to(old(self)@, final(self)@),
            match admin_check(old(self)@, caller@) {
                Some(e) => r == Err::<Notification, LedgerError>(e) && final(self)@ == old(self)@,
                None => r == Ok::<Notification, LedgerError>(Notification::Unpaused) && final(self)@
                    == (LedgerModel { paused: false, ..old(self)@ }),
            },
            final(self)@ == apply(old(self)@, Op::Unpause { caller: caller@ }),
    {
        match check_owner(&self.owner, caller) {
            Err(e) => Err(e),
            Ok(()) => {
                self.paused = false;
                Ok(Notification::Unpaused)
            },
        }
    }

    /// Hands administration to `new_owner`, which must not be the null address.
    pub fn transfer_ownership(&mut self, caller: &Address, new_owner: Address) -> (r: Result<
        Notification,
        LedgerError,
    >)
        requires
            old(self).wf(),
        ensures
            final(self).wf(),
            evolves_to(old(self)@, final(self)@),
            match transfer_check(old(self)@, caller@, new_owner@) {
                Some(e) => r == Err::<Notification, LedgerError>(e) && final(self)@ == old(self)@,
                None => (r matches Ok(
                    Notification::OwnershipTransferred { old_owner: o, new_owner: n },
                ) && o@ == old(self)@.owner && n == new_owner) && final(self)@ == (LedgerModel {
                    owner: new_owner@,
                    ..old(self)@
                }),
            },
            final(self)@ == apply(
                old(self)@,
                Op::TransferOwnership { caller: caller@, new_owner: new_owner@ },
            ),
    {
        match check_transfer(&self.owner, caller, &new_owner) {
            Err(e) => Err(e),
            Ok(()) => {
                let old_owner = self.owner;
                self.owner = new_owner;
                Ok(Notification::OwnershipTransferred { old_owner, new_owner })
            },
        }
    }

    fn count_created_by(&self, a: &Address) -> (r: usize)
        ensures
            r == created_by(self@.proposals, a@),
    {
        let ghost ps = self@.proposals;
        let mut count: usize = 0;
        let mut i: usize = 0;
        while i < self.proposals.len()
            invariant
                i <= self.proposals.len(),
                ps == self@.proposals,
                count <= i,
                count == created_by(ps.take(i as int), a@),
            decreases self.proposals.len() - i,
        {
            assert(ps.take(i + 1).drop_last() =~= ps.take(i as int));
            if self.proposals[i].creator.same_as(a) {
                count = count + 1;
            }
            i = i + 1;
        }
        assert(ps.take(i as int) =~= ps);
        count
    }

    /// Opens a new proposal by `caller`, votable until `now + duration`.
    /// Guards, first failing one wins: not paused, title non-empty and at most 100 bytes,
    /// description non-empty and at most 1000 bytes, duration at least 3600, and fewer
    /// than 10 proposals created by `caller` so far. The deadline must fit in 64 bits.
    pub fn create_proposal(
        &mut self,
        caller: &Address,
        now: u64,
        title: Vec<u8>,
        description: Vec<u8>,
        duration: u64,
    ) -> (r: Result<Notification, LedgerError>)
        requires
            old(self).wf(),
            now + duration <= u64::MAX,
        ensures
            final(self).wf(),
            evolves_to(old(self)@, final(self)@),
            match create_check(old(self)@, caller@, title@, description@, duration) {
                Some(e) => r == Err::<Notification, LedgerError>(e) && final(self)@ == old(self)@,
                None => r == Ok::<Notification, LedgerError>(
                    Notification::ProposalCreated {
                        proposal_id: old(self)@.proposals.len() as u64,
                        creator: *caller,
                    },
                ) && final(self)@ == after_create(
                    old(self)@,
                    caller@,
                    title@,
                    description@,
                    (now + duration) as u64,
                ),
            },
            final(self)@ == apply(
                old(self)@,
                Op::CreateProposal {
                    caller: caller@,
                    now,
                    title: title@,
                    description: description@,
                    duration,
                },
            ),
    {
        let created = self.count_created_by(caller);
        if let Err(e) = check_create(self.paused, title.len(), description.len(), duration, created) {
            return Err(e);
        }
        let ghost old_m = self@;
        let proposal_id = self.proposals.len() as u64;
        let p = Proposal {
            title,
            description,
            creator: *caller,
            deadline: now + duration,
            active: true,
            voters: Vec::new(),
        };
        assert(p@.voters =~= Seq::empty());
        self.proposals.push(p);
        let ghost new_m = after_create(old_m, caller@, title@, description@, (now + duration) as u64);
        assert(self@.proposals =~= new_m.proposals);
        proof {
            lemma_sum_votes_push(old_m.proposals, p@);
            assert forall|a: Seq<u8>|
                #[trigger] created_by(new_m.proposals, a) <= MAX_PROPOSALS_PER_USER by {
                lemma_created_by_push(old_m.proposals, p@, a);
            }
        }
        Ok(Notification::ProposalCreated { proposal_id, creator: *caller })
    }

    /// Records a vote by `caller` at time `now`.
    /// Guards, first failing one wins: not paused, the proposal exists, it is active,
    /// `now` is not past its deadline, and `caller` has not voted on it yet. The vote
    /// total must have room for one more vote.
    pub fn vote(&mut self, caller: &Address, now: u64, proposal_id: u64) -> (r: Result<
        Notification,
        LedgerError,
    >)
        requires
            old(self).wf(),
            old(self)@.total_votes < u64::MAX,
        ensures
            final(self).wf(),
            evolves_to(old(self)@, final(self)@),
            match vote_check(old(self)@, caller@, now, proposal_id) {
                Some(e) => r == Err::<Notification, LedgerError>(e) && final(self)@ == old(self)@,
                None => r == Ok::<Notification, LedgerError>(
                    Notification::VoteCast { proposal_id, voter: *caller },
                ) && final(self)@ == after_vote(old(self)@, caller@, proposal_id),
            },
            final(self)@ == apply(old(self)@, Op::Vote { caller: caller@, now, proposal_id }),
    {
        let total = self.proposals.len() as u64;
        let (active, deadline, voted) = if proposal_id < total {
            let p = &self.proposals[proposal_id as usize];
            (p.active, p.deadline, p.has_voter(caller))
        } else {
            (false, 0, false)
        };
        if let Err(e) = check_vote(self.paused, proposal_id, total, active, deadline, now, voted) {
            return Err(e);
        }
        let idx = proposal_id as usize;
        let ghost old_m = self@;
        let ghost new_m = after_vote(old_m, caller@, proposal_id);
        let ghost old_p = old_m.proposals[idx as int];
        let ghost new_p = new_m.proposals[idx as int];
        self.proposals[idx].voters.push(*caller);
        self.total_votes = self.total_votes + 1;
        assert(self.proposals@[idx as int]@.voters =~= new_p.voters);
        assert(self@.proposals =~= new_m.proposals);
        proof {
            lemma_sum_votes_update(old_m.proposals, idx as int, new_p);
            assert forall|a: Seq<u8>|
                #[trigger] created_by(new_m.proposals, a) <= MAX_PROPOSALS_PER_USER by {
                lemma_created_by_update(old_m.proposals, idx as int, new_p, a);
            }
            assert(old_p.voters.is_prefix_of(new_p.voters));
        }
        Ok(Notification::VoteCast { proposal_id, voter: *caller })
    }

    /// Deactivates a proposal, for good. Only its creator or the owner may do so.
    /// Guards, first failing one wins: not paused, the proposal exists, it is active,
    /// and `caller` is its creator or the owner.
    pub fn cancel_proposal(&mut self, caller: &Address, proposal_id: u64) -> (r: Result<
        Notification,
        LedgerError,
    >)
        requires
            old(self).wf(),
        ensures
            final(self).wf(),
            evolves_to(old(self)@, final(self)@),
            match cancel_check(old(self)@, caller@, proposal_id) {
                Some(e) => r == Err::<Notification, LedgerError>(e) && final(self)@ == old(self)@,
                None => r == Ok::<Notification, LedgerError>(
                    Notification::ProposalCancelled { proposal_id, cancelled_by: *caller },
                ) && final(self)@ == after_cancel(old(self)@, proposal_id),
            },
            final(self)@ == apply(old(self)@, Op::CancelProposal { caller: caller@, proposal_id }),
    {
        let total = self.proposals.len() as u64;
        let (active, creator) = if proposal_id < total {
            let p = &self.proposals[proposal_id as usize];
            (p.active, p.creator)
        } else {
            (false, self.owner)
        };
        if let Err(e) = check_cancel(self.paused, proposal_id, total, active, &creator, &self.owner, caller) {
            return Err(e);
        }
        let idx = proposal_id as usize;
        let ghost old_m = self@;
        let ghost new_m = after_cancel(old_m, proposal_id);
        let ghost new_p = new_m.proposals[idx as int];
        self.proposals[idx].active = false;
        assert(self@.proposals =~= new_m.proposals);
        proof {
            lemma_sum_votes_update(old_m.proposals, idx as int, new_p);
            assert forall|a: Seq<u8>|
                #[trigger] created_by(new_m.proposals, a) <= MAX_PROPOSALS_PER_USER by {
                lemma_created_by_update(old_m.proposals, idx as int, new_p, a);
            }
        }
        Ok(Notification::ProposalCancelled { proposal_id, cancelled_by: *caller })
    }

    /// Title of a proposal; `ProposalNotFound` when the id is out of range.
    pub fn get_proposal_title(&self, proposal_id: u64) -> (r: Result<Vec<u8>, LedgerError>)
        ensures
            match r {
                Ok(t) => self@.valid_id(proposal_id) && t@ == self@.proposals[proposal_id as int].title,
                Err(e) => !self@.valid_id(proposal_id) && e == LedgerError::ProposalNotFound,
            },
    {
        if proposal_id >= self.proposals.len() as u64 {
            return Err(LedgerError::ProposalNotFound);
        }
        let t = self.proposals[proposal_id as usize].title.clone();
        assert(t@ =~= self@.proposals[proposal_id as int].title);
        Ok(t)
    }

    /// Description of a proposal; `ProposalNotFound` when the id is out of range.
    pub fn get_proposal_description(&self, proposal_id: u64) -> (r: Result<Vec<u8>, LedgerError>)
        ensures
            match r {
                Ok(d) => self@.valid_id(proposal_id) && d@
                    == self@.proposals[proposal_id as int].description,
                Err(e) => !self@.valid_id(proposal_id) && e == LedgerError::ProposalNotFound,
            },
    {
        if proposal_id >= self.proposals.len() as u64 {
            return Err(LedgerError::ProposalNotFound);
        }
        let d = self.proposals[proposal_id as usize].description.clone();
        assert(d@ =~= self@.proposals[proposal_id as int].description);
        Ok(d)
    }

    /// Creator of a proposal; `ProposalNotFound` when the id is out of range.
    pub fn get_proposal_creator(&self, proposal_id: u64) -> (r: Result<Address, LedgerError>)
        ensures
            match r {
                Ok(a) => self@.valid_id(proposal_id) && a@ == self@.proposals[proposal_id as int].creator,
                Err(e) => !self@.valid_id(proposal_id) && e == LedgerError::ProposalNotFound,
            },
    {
        if proposal_id >= self.proposals.len() as u64 {
            return Err(LedgerError::ProposalNotFound);
        }
        Ok(self.proposals[proposal_id as usize].creator)
    }

    /// Number of votes a proposal received; `ProposalNotFound` when the id is out of range.
    pub fn get_proposal_vote_count(&self, proposal_id: u64) -> (r: Result<u64, LedgerError>)
        ensures
            match r {
                Ok(c) => self@.valid_id(proposal_id) && c == self@.vote_count(proposal_id),
                Err(e) => !self@.valid_id(proposal_id) && e == LedgerError::ProposalNotFound,
            },
    {
        if proposal_id >= self.proposals.len() as u64 {
            return Err(LedgerError::ProposalNotFound);
        }
        Ok(self.proposals[proposal_id as usize].voters.len() as u64)
    }

    /// Deadline of a proposal; `ProposalNotFound` when the id is out of range.
    pub fn get_proposal_deadline(&self, proposal_id: u64) -> (r: Result<u64, LedgerError>)
        ensures
            match r {
                Ok(d) => self@.valid_id(proposal_id) && d == self@.proposals[proposal_id as int].deadline,
                Err(e) => !self@.valid_id(proposal_id) && e == LedgerError::ProposalNotFound,
            },
    {
        if proposal_id >= self.proposals.len() as u64 {
            return Err(LedgerError::ProposalNotFound);
        }
        Ok(self.proposals[proposal_id as usize].deadline)
    }

    /// Whether a proposal is still active; `ProposalNotFound` when the id is out of range.
    pub fn is_proposal_active(&self, proposal_id: u64) -> (r: Result<bool, LedgerError>)
        ensures
            match r {
                Ok(b) => self@.valid_id(proposal_id) && b == self@.proposals[proposal_id as int].active,
                Err(e) => !self@.valid_id(proposal_id) && e == LedgerError::ProposalNotFound,
            },
    {
        if proposal_id >= self.proposals.len() as u64 {
            return Err(LedgerError::ProposalNotFound);
        }
        Ok(self.proposals[proposal_id as usize].active)
    }

    /// Whether `user` voted on a proposal; `ProposalNotFound` when the id is out of range.
    pub fn has_user_voted_on_proposal(&self, proposal_id: u64, user: &Address) -> (r: Result<
        bool,
        LedgerError,
    >)
        ensures
            match r {
                Ok(b) => self@.valid_id(proposal_id) && b == self@.has_voted(proposal_id, user@),
                Err(e) => !self@.valid_id(proposal_id) && e == LedgerError::ProposalNotFound,
            },
    {
        if proposal_id >= self.proposals.len() as u64 {
            return Err(LedgerError::ProposalNotFound);
        }
        Ok(self.proposals[proposal_id as usize].has_voter(user))
    }

    /// Number of proposals ever created; ids run from 0 below it.
    pub fn get_total_proposals(&self) -> (r: u64)
        ensures
            r == self@.proposals.len(),
    {
        self.proposals.len() as u64
    }

    /// Number of votes cast over all proposals.
    pub fn get_total_votes(&self) -> (r: u64)
        ensures
            r == self@.total_votes,
    {
        self.total_votes
    }

    pub fn is_contract_paused(&self) -> (r: bool)
        ensures
            r == self@.paused,
    {
        self.paused
    }

    pub fn get_owner(&self) -> (r: Address)
        ensures
            r@ == self@.owner,
    {
        self.owner
    }
}

} // verus!
