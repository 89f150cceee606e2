use governance_rounds::proposal::types::{Concern, Permill, Proposal, ProposalWinner, States};
use governance_rounds::proposal::{AdvanceOutcome, Config, Module, SubmissionKind};
use governance_rounds::scheduler::OneShotScheduler;

type Identity = governance_rounds::community_identity::Module;

fn store_cfg() -> Config {
    Config {
        identified_user_penalty: 0,
        propose_cap: 5,
        propose_identified_user_cap: 3,
        propose_identity_level: 1,
        propose_reward: Permill::from_percent(10),
        propose_round_duration: 100,
        propose_vote_acceptance_min: Permill::from_percent(50),
        propose_vote_duration: 50,
        propose_vote_identity_level: 1,
        propose_vote_max_per_identified_user: 5,
        propose_vote_correct_reward: 7,
        concern_cap: 5,
        concern_identified_user_cap: 3,
        concern_identity_level: 1,
        concern_reward: 7,
        concern_round_duration: 60,
        concern_vote_acceptance_min: Permill::from_percent(50),
        concern_vote_duration: 40,
        concern_vote_identity_level: 1,
        concern_vote_max_per_identified_user: 5,
        concern_vote_correct_reward: 7,
        council_vote_round_duration: 30,
        council_accept_concern_min_votes: Permill::from_percent(66),
    }
}

#[test]
fn record_vote_increments_by_exactly_one() {
    let mut m = Module::new(store_cfg());
    let mut s = OneShotScheduler::new();
    assert_eq!(m.advance(0, &mut s), Ok(AdvanceOutcome::Rotated(States::Propose)));
    assert_eq!(m.propose::<Identity>(1, b"ipfs://a".to_vec()), Ok(()));
    assert_eq!(m.propose::<Identity>(1, b"ipfs://b".to_vec()), Ok(()));

    assert_eq!(m.record_vote(1, SubmissionKind::Proposal, 0), Some(1));
    assert_eq!(m.record_vote(1, SubmissionKind::Proposal, 0), Some(2));
    assert_eq!(m.record_vote(1, SubmissionKind::Proposal, 1), Some(1));

    let list = m.proposals(&1).unwrap();
    assert_eq!(list[0].votes, 2);
    assert_eq!(list[0].proposal, b"ipfs://a".to_vec());
    assert_eq!(list[1].votes, 1);
    // Recording votes does not touch the submission quota.
    assert_eq!(m.proposal_count(), 2);
}

#[test]
fn record_vote_without_a_record_is_refused() {
    let mut m = Module::new(store_cfg());
    let mut s = OneShotScheduler::new();
    assert_eq!(m.advance(0, &mut s), Ok(AdvanceOutcome::Rotated(States::Propose)));
    assert_eq!(m.propose::<Identity>(1, b"ipfs://a".to_vec()), Ok(()));

    // Unknown identity, index out of range, and the wrong kind.
    assert_eq!(m.record_vote(2, SubmissionKind::Proposal, 0), None);
    assert_eq!(m.record_vote(1, SubmissionKind::Proposal, 1), None);
    assert_eq!(m.record_vote(1, SubmissionKind::Concern, 0), None);
    assert_eq!(m.proposals(&1).unwrap()[0].votes, 0);
}

#[test]
fn record_vote_reaches_concerns_too() {
    let mut m = Module::new(store_cfg());
    let mut s = OneShotScheduler::new();
    assert_eq!(m.advance(0, &mut s), Ok(AdvanceOutcome::Rotated(States::Propose)));
    assert_eq!(m.propose::<Identity>(9, b"ipfs://seed".to_vec()), Ok(()));
    let now = m.next_transit();
    assert_eq!(m.advance(now, &mut s), Ok(AdvanceOutcome::Rotated(States::VotePropose)));
    let now = m.next_transit();
    assert_eq!(m.advance(now, &mut s), Ok(AdvanceOutcome::Rotated(States::Concern)));
    assert_eq!(
        m.submit_concern::<Identity>(4, b"ipfs://c".to_vec(), b"ipfs://seed".to_vec()),
        Ok(())
    );

    assert_eq!(m.record_vote(4, SubmissionKind::Concern, 0), Some(1));
    assert_eq!(m.concerns(&4).unwrap()[0].votes, 1);
}

#[test]
fn proposal_records_start_empty_and_unvoted() {
    let p = Proposal::new(b"ipfs://a".to_vec());
    assert_eq!(p.proposal, b"ipfs://a".to_vec());
    assert_eq!(p.votes, 0);
    let d = Proposal::default();
    assert_eq!(d.proposal, Vec::<u8>::new());
    assert_eq!(d.votes, 0);
}

#[test]
fn concern_records_carry_their_proposal() {
    let c = Concern::new(b"ipfs://x".to_vec(), b"ipfs://a".to_vec());
    assert_eq!(c.concern, b"ipfs://x".to_vec());
    assert_eq!(c.associated_proposal, b"ipfs://a".to_vec());
    assert_eq!(c.votes, 0);
    let d = Concern::default();
    assert_eq!(d.concern, Vec::<u8>::new());
    assert_eq!(d.associated_proposal, Vec::<u8>::new());
    assert_eq!(d.votes, 0);
}

#[test]
fn proposal_winner_holds_proposer_and_ratio() {
    let w = ProposalWinner::new(42, b"ipfs://a".to_vec(), Permill::from_percent(75));
    assert_eq!(w.proposer, 42);
    assert_eq!(w.proposal, b"ipfs://a".to_vec());
    assert_eq!(w.vote_ratio.parts, 750_000);
    let d = ProposalWinner::default();
    assert_eq!(d.proposer, 0);
    assert_eq!(d.proposal, Vec::<u8>::new());
    assert_eq!(d.vote_ratio.parts, 0);
}

#[test]
fn permill_saturates_at_one() {
    assert_eq!(Permill::from_parts(250_000).parts, 250_000);
    assert_eq!(Permill::from_parts(2_000_000).parts, 1_000_000);
    assert_eq!(Permill::from_percent(34).parts, 340_000);
    assert_eq!(Permill::from_percent(250).parts, 1_000_000);
}

#[test]
fn states_default_to_uninitialized() {
    assert_eq!(States::default(), States::Uninitialized);
}
