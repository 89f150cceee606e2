use governance_rounds::proposal::{
    AdvanceOutcome, Config, GovernanceError, Module, Permill, States, SubmissionKind,
};
use governance_rounds::scheduler::OneShotScheduler;

type Identity = governance_rounds::community_identity::Module;

fn gate_cfg(propose_cap: u32, user_cap: u8, min_level: u8) -> Config {
    Config {
        identified_user_penalty: 0,
        propose_cap,
        propose_identified_user_cap: user_cap,
        propose_identity_level: min_level,
        propose_reward: Permill::from_percent(10),
        propose_round_duration: 100,
        propose_vote_acceptance_min: Permill::from_percent(50),
        propose_vote_duration: 50,
        propose_vote_identity_level: 1,
        propose_vote_max_per_identified_user: 5,
        propose_vote_correct_reward: 7,
        concern_cap: propose_cap,
        concern_identified_user_cap: user_cap,
        concern_identity_level: min_level,
        concern_reward: 7,
        concern_round_duration: 60,
        concern_vote_acceptance_min: Permill::from_percent(50),
        concern_vote_duration: 40,
        concern_vote_identity_level: 1,
        concern_vote_max_per_identified_user: 5,
        concern_vote_correct_reward: 7,
        council_vote_round_duration: 30,
        council_accept_concern_min_votes: Permill::from_percent(66),
    }
}

fn in_propose(cfg: Config) -> Module {
    let mut m = Module::new(cfg);
    let mut s = OneShotScheduler::new();
    assert_eq!(m.advance(0, &mut s), Ok(AdvanceOutcome::Rotated(States::Propose)));
    m
}

fn in_concern(cfg: Config) -> Module {
    let mut m = in_propose(cfg);
    let mut s = OneShotScheduler::new();
    // A proposal must exist for the round to progress at all.
    assert_eq!(m.propose::<Identity>(99, b"ipfs://seed".to_vec()), Ok(()));
    let now = m.next_transit();
    assert_eq!(m.advance(now, &mut s), Ok(AdvanceOutcome::Rotated(States::VotePropose)));
    let now = m.next_transit();
    assert_eq!(m.advance(now, &mut s), Ok(AdvanceOutcome::Rotated(States::Concern)));
    m
}

#[test]
fn scenario_a_global_and_per_identity_caps() {
    // Configured proposal cap 2, per-identity cap 1.
    let mut m = in_propose(gate_cfg(2, 1, 1));

    // Identity X submits "ipfs://a": accepted, global count 1.
    assert_eq!(m.propose::<Identity>(1, b"ipfs://a".to_vec()), Ok(()));
    assert_eq!(m.proposal_count(), 1);

    // Identity X submits "ipfs://b": rejected, global count stays 1.
    assert_eq!(
        m.propose::<Identity>(1, b"ipfs://b".to_vec()),
        Err(GovernanceError::IdentityCapReached)
    );
    assert_eq!(m.proposal_count(), 1);
    assert_eq!(m.proposals(&1).unwrap().len(), 1);

    // Identity Y submits "ipfs://c": accepted, global count 2.
    assert_eq!(m.propose::<Identity>(2, b"ipfs://c".to_vec()), Ok(()));
    assert_eq!(m.proposal_count(), 2);

    // Identity Z submits "ipfs://d": rejected, the round is full.
    assert_eq!(
        m.propose::<Identity>(3, b"ipfs://d".to_vec()),
        Err(GovernanceError::RoundCapReached)
    );
    assert_eq!(m.proposal_count(), 2);
    assert!(m.proposals(&3).is_none());
}

#[test]
fn concern_during_proposal_round_is_wrong_phase() {
    let mut m = in_propose(gate_cfg(5, 2, 1));
    let r = m.submit_concern::<Identity>(1, b"ipfs://c".to_vec(), b"ipfs://a".to_vec());
    assert_eq!(r, Err(GovernanceError::WrongPhase));
    // No side effect: nothing stored, nothing counted.
    assert_eq!(m.concern_count(), 0);
    assert!(m.concerns(&1).is_none());
    assert_eq!(m.proposal_count(), 0);
}

#[test]
fn proposal_before_first_round_is_wrong_phase() {
    let mut m = Module::new(gate_cfg(5, 2, 1));
    assert_eq!(m.state(), States::Uninitialized);
    assert_eq!(
        m.propose::<Identity>(1, b"ipfs://a".to_vec()),
        Err(GovernanceError::WrongPhase)
    );
    assert_eq!(m.proposal_count(), 0);
}

#[test]
fn identity_level_below_minimum_is_rejected() {
    // The registry reports level 5 for every identity; ask for 6.
    let mut m = in_propose(gate_cfg(5, 2, 6));
    assert_eq!(
        m.propose::<Identity>(1, b"ipfs://a".to_vec()),
        Err(GovernanceError::IdentityLevelTooLow)
    );
    assert_eq!(m.proposal_count(), 0);
    assert!(m.proposals(&1).is_none());
}

#[test]
fn accepted_proposal_is_stored_with_zero_votes() {
    let mut m = in_propose(gate_cfg(5, 2, 1));
    assert_eq!(m.propose::<Identity>(1, b"ipfs://a".to_vec()), Ok(()));
    assert_eq!(m.propose::<Identity>(1, b"ipfs://b".to_vec()), Ok(()));
    let list = m.proposals(&1).unwrap();
    assert_eq!(list.len(), 2);
    assert_eq!(list[0].proposal, b"ipfs://a".to_vec());
    assert_eq!(list[0].votes, 0);
    assert_eq!(list[1].proposal, b"ipfs://b".to_vec());
}

#[test]
fn concern_round_gate_mirrors_the_proposal_gate() {
    let mut m = in_concern(gate_cfg(2, 1, 1));
    assert_eq!(m.state(), States::Concern);
    // Entering the concern round cleared the proposal store.
    assert_eq!(m.proposal_count(), 0);

    assert_eq!(
        m.submit_concern::<Identity>(1, b"ipfs://x".to_vec(), b"ipfs://a".to_vec()),
        Ok(())
    );
    assert_eq!(m.concern_count(), 1);
    let list = m.concerns(&1).unwrap();
    assert_eq!(list[0].concern, b"ipfs://x".to_vec());
    assert_eq!(list[0].associated_proposal, b"ipfs://a".to_vec());
    assert_eq!(list[0].votes, 0);

    assert_eq!(
        m.submit_concern::<Identity>(1, b"ipfs://y".to_vec(), b"ipfs://a".to_vec()),
        Err(GovernanceError::IdentityCapReached)
    );
    assert_eq!(
        m.submit_concern::<Identity>(2, b"ipfs://y".to_vec(), b"ipfs://a".to_vec()),
        Ok(())
    );
    assert_eq!(
        m.submit_concern::<Identity>(3, b"ipfs://z".to_vec(), b"ipfs://a".to_vec()),
        Err(GovernanceError::RoundCapReached)
    );
    assert_eq!(m.concern_count(), 2);

    // And proposals are gated out of the concern round.
    assert_eq!(
        m.propose::<Identity>(4, b"ipfs://p".to_vec()),
        Err(GovernanceError::WrongPhase)
    );
}

#[test]
fn remaining_quotas_follow_the_counters() {
    let mut m = in_propose(gate_cfg(3, 2, 1));
    assert_eq!(m.remaining_global(SubmissionKind::Proposal), 3);
    assert_eq!(m.remaining_for_identity(1, SubmissionKind::Proposal), 2);
    assert_eq!(m.propose::<Identity>(1, b"ipfs://a".to_vec()), Ok(()));
    assert_eq!(m.remaining_global(SubmissionKind::Proposal), 2);
    assert_eq!(m.remaining_for_identity(1, SubmissionKind::Proposal), 1);
    assert_eq!(m.remaining_for_identity(2, SubmissionKind::Proposal), 2);
    assert_eq!(m.remaining_global(SubmissionKind::Concern), 3);
    assert_eq!(m.remaining_for_identity(1, SubmissionKind::Concern), 2);
}
