use chainballotx::address::Address;
use chainballotx::error::{ErrorKind, LedgerError};
use chainballotx::guard::{check_cancel, check_create, check_owner, check_transfer, check_vote};
use chainballotx::ledger::{ChainBallotX, Notification};

fn addr(name: &str) -> Address {
    let mut bytes = [b'_'; 32];
    bytes[..name.len()].copy_from_slice(name.as_bytes());
    Address::new(bytes)
}

fn setup() -> (ChainBallotX, Address) {
    let owner = addr("owner");
    let (ledger, _) = ChainBallotX::init(owner);
    (ledger, owner)
}

fn create(ledger: &mut ChainBallotX, who: &Address, now: u64, duration: u64) -> Result<Notification, LedgerError> {
    ledger.create_proposal(who, now, b"T".to_vec(), b"D".to_vec(), duration)
}

#[test]
fn init_emits_initialized() {
    let owner = addr("owner");
    let (_, n) = ChainBallotX::init(owner);
    assert_eq!(n, Notification::Initialized { admin: owner });
}

#[test]
fn totals_match_sum_of_vote_counts() {
    let (mut ledger, owner) = setup();
    let alice = addr("alice");
    create(&mut ledger, &owner, 0, 3600).unwrap();
    create(&mut ledger, &alice, 0, 3600).unwrap();
    create(&mut ledger, &alice, 0, 3600).unwrap();
    let names = ["v0", "v1", "v2", "v3", "v4", "v5"];
    for (i, n) in names.iter().enumerate() {
        let v = addr(n);
        ledger.vote(&v, 10, (i % 3) as u64).unwrap();
        let _ = ledger.vote(&v, 10, (i % 3) as u64);
    }
    ledger.cancel_proposal(&alice, 1).unwrap();
    let _ = ledger.vote(&addr("late"), 10, 1);
    let sum: u64 = (0..ledger.get_total_proposals())
        .map(|id| ledger.get_proposal_vote_count(id).unwrap())
        .sum();
    assert_eq!(ledger.get_total_votes(), sum);
    assert_eq!(sum, 6);
    assert_eq!(ledger.get_total_proposals(), 3);
}

#[test]
fn second_vote_always_already_voted() {
    let (mut ledger, owner) = setup();
    let v = addr("voter");
    create(&mut ledger, &owner, 0, 3600).unwrap();
    assert_eq!(ledger.vote(&v, 0, 0), Ok(Notification::VoteCast { proposal_id: 0, voter: v }));
    for t in [0u64, 100, 3600] {
        assert_eq!(ledger.vote(&v, t, 0), Err(LedgerError::AlreadyVoted));
    }
    assert_eq!(ledger.get_proposal_vote_count(0), Ok(1));
    assert_eq!(LedgerError::AlreadyVoted.kind(), ErrorKind::AlreadyDone);
}

#[test]
fn quota_is_per_address() {
    let (mut ledger, owner) = setup();
    let other = addr("other");
    for _ in 0..10 {
        create(&mut ledger, &owner, 0, 3600).unwrap();
    }
    create(&mut ledger, &other, 0, 3600).unwrap();
    let r = create(&mut ledger, &owner, 0, 3600);
    assert_eq!(r, Err(LedgerError::TooManyProposals));
    assert_eq!(LedgerError::TooManyProposals.kind(), ErrorKind::QuotaExceeded);
    ledger.cancel_proposal(&owner, 0).unwrap();
    assert_eq!(create(&mut ledger, &owner, 0, 3600), Err(LedgerError::TooManyProposals));
    assert_eq!(ledger.get_total_proposals(), 11);
}

#[test]
fn second_cancel_is_invalid_state() {
    let (mut ledger, owner) = setup();
    create(&mut ledger, &owner, 0, 3600).unwrap();
    assert_eq!(
        ledger.cancel_proposal(&owner, 0),
        Ok(Notification::ProposalCancelled { proposal_id: 0, cancelled_by: owner })
    );
    assert_eq!(ledger.cancel_proposal(&owner, 0), Err(LedgerError::NotActive));
    assert_eq!(LedgerError::NotActive.kind(), ErrorKind::InvalidState);
    assert_eq!(ledger.is_proposal_active(0), Ok(false));
}

#[test]
fn expired_and_cancelled_votes() {
    let (mut ledger, owner) = setup();
    create(&mut ledger, &owner, 1000, 3600).unwrap();
    create(&mut ledger, &owner, 1000, 3600).unwrap();
    assert_eq!(ledger.get_proposal_deadline(0), Ok(4600));
    assert_eq!(ledger.vote(&addr("a"), 4601, 0), Err(LedgerError::VotingEnded));
    assert_eq!(LedgerError::VotingEnded.kind(), ErrorKind::Expired);
    assert_eq!(ledger.is_proposal_active(0), Ok(true));
    assert!(ledger.vote(&addr("a"), 4600, 0).is_ok());
    ledger.cancel_proposal(&owner, 1).unwrap();
    assert_eq!(ledger.vote(&addr("a"), 1000, 1), Err(LedgerError::NotActive));
    assert_eq!(ledger.vote(&addr("a"), 9999, 1), Err(LedgerError::NotActive));
}

#[test]
fn scenario_create_and_read_title() {
    let (mut ledger, owner) = setup();
    assert_eq!(
        ledger.create_proposal(&owner, 0, b"T".to_vec(), b"D".to_vec(), 86400),
        Ok(Notification::ProposalCreated { proposal_id: 0, creator: owner })
    );
    assert_eq!(ledger.get_total_proposals(), 1);
    assert_eq!(ledger.get_proposal_title(0), Ok(b"T".to_vec()));
    assert_eq!(ledger.get_proposal_description(0), Ok(b"D".to_vec()));
    assert_eq!(ledger.get_proposal_creator(0), Ok(owner));
    assert_eq!(ledger.get_proposal_deadline(0), Ok(86400));
}

#[test]
fn scenario_short_duration() {
    let (mut ledger, owner) = setup();
    let r = ledger.create_proposal(&owner, 0, b"T".to_vec(), b"D".to_vec(), 1800);
    assert_eq!(r, Err(LedgerError::DurationTooShort));
    assert_eq!(LedgerError::DurationTooShort.kind(), ErrorKind::InvalidArgument);
    assert_eq!(ledger.get_total_proposals(), 0);
    assert!(create(&mut ledger, &owner, 0, 3600).is_ok());
}

#[test]
fn scenario_double_vote() {
    let (mut ledger, owner) = setup();
    let v = addr("V");
    create(&mut ledger, &owner, 0, 86400).unwrap();
    assert_eq!(ledger.get_proposal_vote_count(0), Ok(0));
    ledger.vote(&v, 0, 0).unwrap();
    assert_eq!(ledger.get_proposal_vote_count(0), Ok(1));
    assert_eq!(ledger.get_total_votes(), 1);
    assert_eq!(ledger.vote(&v, 0, 0), Err(LedgerError::AlreadyVoted));
    assert_eq!(ledger.get_proposal_vote_count(0), Ok(1));
    assert_eq!(ledger.get_total_votes(), 1);
}

#[test]
fn scenario_stranger_cannot_cancel() {
    let (mut ledger, owner) = setup();
    let creator = addr("creator");
    create(&mut ledger, &creator, 0, 86400).unwrap();
    let r = ledger.cancel_proposal(&addr("stranger"), 0);
    assert_eq!(r, Err(LedgerError::NotCreatorOrOwner));
    assert_eq!(LedgerError::NotCreatorOrOwner.kind(), ErrorKind::Unauthorized);
    assert_eq!(ledger.is_proposal_active(0), Ok(true));
    assert!(ledger.cancel_proposal(&owner, 0).is_ok());
}

#[test]
fn scenario_pause_blocks_mutations() {
    let (mut ledger, owner) = setup();
    create(&mut ledger, &owner, 0, 86400).unwrap();
    assert_eq!(ledger.pause(&owner), Ok(Notification::Paused));
    assert_eq!(ledger.pause(&owner), Ok(Notification::Paused));
    assert_eq!(create(&mut ledger, &addr("x"), 0, 86400), Err(LedgerError::Paused));
    assert_eq!(LedgerError::Paused.kind(), ErrorKind::ContractPaused);
    assert_eq!(ledger.vote(&addr("x"), 0, 0), Err(LedgerError::Paused));
    assert_eq!(ledger.cancel_proposal(&owner, 0), Err(LedgerError::Paused));
    assert_eq!(ledger.get_proposal_title(0), Ok(b"T".to_vec()));
    assert_eq!(ledger.unpause(&owner), Ok(Notification::Unpaused));
    assert!(!ledger.is_contract_paused());
    assert!(create(&mut ledger, &addr("x"), 0, 86400).is_ok());
}

#[test]
fn scenario_ownership_transfer() {
    let (mut ledger, owner) = setup();
    let n = addr("N");
    assert_eq!(
        ledger.transfer_ownership(&owner, n),
        Ok(Notification::OwnershipTransferred { old_owner: owner, new_owner: n })
    );
    assert_eq!(ledger.pause(&owner), Err(LedgerError::NotOwner));
    assert_eq!(ledger.unpause(&owner), Err(LedgerError::NotOwner));
    assert!(ledger.pause(&n).is_ok());
}

#[test]
fn transfer_to_null_address_refused() {
    let (mut ledger, owner) = setup();
    let r = ledger.transfer_ownership(&owner, Address::zero());
    assert_eq!(r, Err(LedgerError::NullAddress));
    assert_eq!(r.unwrap_err().message(), "Invalid new owner address");
    assert_eq!(LedgerError::NullAddress.kind(), ErrorKind::InvalidArgument);
    assert_eq!(ledger.get_owner(), owner);
    assert_eq!(ledger.transfer_ownership(&addr("u"), addr("v")), Err(LedgerError::NotOwner));
}

#[test]
fn text_length_limits_and_order() {
    let (mut ledger, owner) = setup();
    let t100 = vec![b't'; 100];
    let t101 = vec![b't'; 101];
    let d1000 = vec![b'd'; 1000];
    let d1001 = vec![b'd'; 1001];
    let r = ledger.create_proposal(&owner, 0, t101.clone(), Vec::new(), 3600);
    assert_eq!(r, Err(LedgerError::TitleTooLong));
    assert_eq!(r.unwrap_err().message(), "Title too long");
    let r = ledger.create_proposal(&owner, 0, Vec::new(), d1001.clone(), 3600);
    assert_eq!(r, Err(LedgerError::EmptyTitle));
    let r = ledger.create_proposal(&owner, 0, t100.clone(), d1001.clone(), 3600);
    assert_eq!(r, Err(LedgerError::DescriptionTooLong));
    assert_eq!(r.unwrap_err().message(), "Description too long");
    let r = ledger.create_proposal(&owner, 0, t100.clone(), Vec::new(), 100);
    assert_eq!(r, Err(LedgerError::EmptyDescription));
    assert_eq!(ledger.get_total_proposals(), 0);
    assert!(ledger.create_proposal(&owner, 0, t100.clone(), d1000.clone(), 3600).is_ok());
    assert_eq!(ledger.get_proposal_title(0), Ok(t100));
    assert_eq!(ledger.get_proposal_description(0), Ok(d1000));
}

#[test]
fn queries_on_missing_proposal() {
    let (mut ledger, owner) = setup();
    create(&mut ledger, &owner, 0, 3600).unwrap();
    let missing = LedgerError::ProposalNotFound;
    assert_eq!(ledger.get_proposal_title(1), Err(missing));
    assert_eq!(ledger.get_proposal_description(1), Err(missing));
    assert_eq!(ledger.get_proposal_creator(1), Err(missing));
    assert_eq!(ledger.get_proposal_vote_count(1), Err(missing));
    assert_eq!(ledger.get_proposal_deadline(1), Err(missing));
    assert_eq!(ledger.is_proposal_active(1), Err(missing));
    assert_eq!(ledger.has_user_voted_on_proposal(1, &owner), Err(missing));
    assert_eq!(ledger.cancel_proposal(&owner, 1), Err(missing));
    assert_eq!(ledger.vote(&owner, 0, u64::MAX), Err(missing));
    assert_eq!(missing.kind(), ErrorKind::NotFound);
    assert_eq!(missing.message(), "Proposal does not exist");
    assert_eq!(ledger.has_user_voted_on_proposal(0, &owner), Ok(false));
}

#[test]
fn address_helpers() {
    let a = addr("a");
    let b = addr("b");
    assert!(a.same_as(&a));
    assert!(!a.same_as(&b));
    assert!(Address::zero().is_zero());
    assert!(!a.is_zero());
    let mut last = [0u8; 32];
    last[31] = 1;
    assert!(!Address::new(last).is_zero());
    assert!(!Address::new(last).same_as(&Address::zero()));
}

#[test]
fn creator_may_cancel_own_proposal() {
    let (mut ledger, _) = setup();
    let creator = addr("creator");
    create(&mut ledger, &creator, 0, 3600).unwrap();
    assert_eq!(
        ledger.cancel_proposal(&creator, 0),
        Ok(Notification::ProposalCancelled { proposal_id: 0, cancelled_by: creator })
    );
}

#[test]
fn error_messages_are_distinct() {
    let all = [
        LedgerError::NotOwner,
        LedgerError::NotCreatorOrOwner,
        LedgerError::NullAddress,
        LedgerError::EmptyTitle,
        LedgerError::TitleTooLong,
        LedgerError::EmptyDescription,
        LedgerError::DescriptionTooLong,
        LedgerError::DurationTooShort,
        LedgerError::TooManyProposals,
        LedgerError::Paused,
        LedgerError::ProposalNotFound,
        LedgerError::NotActive,
        LedgerError::VotingEnded,
        LedgerError::AlreadyVoted,
    ];
    for (i, a) in all.iter().enumerate() {
        for b in all[i + 1..].iter() {
            assert_ne!(a.message(), b.message());
        }
    }
}

#[test]
fn guards_on_plain_values() {
    let owner = addr("owner");
    let other = addr("other");
    assert_eq!(check_owner(&owner, &owner), Ok(()));
    assert_eq!(check_owner(&owner, &other), Err(LedgerError::NotOwner));
    assert_eq!(check_transfer(&owner, &owner, &other), Ok(()));
    assert_eq!(check_transfer(&owner, &owner, &Address::zero()), Err(LedgerError::NullAddress));
    assert_eq!(check_transfer(&owner, &other, &Address::zero()), Err(LedgerError::NotOwner));
    assert_eq!(check_create(false, 1, 1, 3600, 9), Ok(()));
    assert_eq!(check_create(true, 0, 0, 0, 10), Err(LedgerError::Paused));
    assert_eq!(check_create(false, 0, 1001, 0, 10), Err(LedgerError::EmptyTitle));
    assert_eq!(check_create(false, 1, 1, 3599, 10), Err(LedgerError::DurationTooShort));
    assert_eq!(check_create(false, 1, 1, 3600, 10), Err(LedgerError::TooManyProposals));
    assert_eq!(check_vote(false, 0, 1, true, 50, 50, false), Ok(()));
    assert_eq!(check_vote(false, 1, 1, true, 50, 50, false), Err(LedgerError::ProposalNotFound));
    assert_eq!(check_vote(false, 0, 1, false, 50, 51, true), Err(LedgerError::NotActive));
    assert_eq!(check_vote(false, 0, 1, true, 50, 51, true), Err(LedgerError::VotingEnded));
    assert_eq!(check_vote(false, 0, 1, true, 50, 50, true), Err(LedgerError::AlreadyVoted));
    assert_eq!(check_vote(true, 5, 1, false, 0, 9, true), Err(LedgerError::Paused));
    assert_eq!(check_cancel(false, 0, 1, true, &other, &owner, &other), Ok(()));
    assert_eq!(check_cancel(false, 0, 1, true, &other, &owner, &owner), Ok(()));
    assert_eq!(
        check_cancel(false, 0, 1, true, &other, &owner, &addr("third")),
        Err(LedgerError::NotCreatorOrOwner)
    );
    assert_eq!(check_cancel(false, 0, 1, false, &other, &owner, &other), Err(LedgerError::NotActive));
    assert_eq!(check_cancel(false, 2, 1, true, &other, &owner, &other), Err(LedgerError::ProposalNotFound));
    assert_eq!(check_cancel(true, 0, 1, true, &other, &owner, &other), Err(LedgerError::Paused));
}
