//! Manages proposal and concern rounds as well as the correspondent voting
//! rounds.
//!
//! The engine owns a single global phase that advances along the fixed cycle
//! `Uninitialized -> Propose -> VotePropose -> Concern -> VoteConcern ->
//! VoteCouncil -> Propose -> ...`. Every transition computes how long the
//! entered phase lasts, re-arms a one-shot scheduler for that deadline, and
//! only then commits: a transition whose re-arm fails changes nothing.
//! Submissions are gated by the current phase, by a global per-round cap, by
//! the submitter's identity level, and by a per-identity cap.
//!
//! Policy for a proposal round that closes with no content ("no content, no
//! progress"): the engine stays in `Propose` and re-arms with the full
//! proposal-round duration instead of advancing to a vote over nothing.

pub mod types;

use vstd::prelude::*;

use crate::community_identity::{AccountId, IdentityId, PeerReviewedPhysicalIdentity};
use crate::scheduler::Scheduler;
pub use types::{Concern, ConcernCID, Permill, Proposal, ProposalCID, States};

verus! {

/// Configuration of the round engine, loaded once and immutable thereafter.
#[derive(Copy, Clone, Debug)]
pub struct Config {
    /// How long an identified user is locked out from submitting proposals
    /// or concerns for bad behaviour, in seconds.
    pub identified_user_penalty: u32,
    /// How many proposals can be submitted per proposal round?
    pub propose_cap: u32,
    /// How many proposals can an identified user submit per proposal round?
    pub propose_identified_user_cap: u8,
    /// Which identity level is required to create a proposal?
    pub propose_identity_level: u8,
    /// How high is the reward for the proposer if the proposal is converted
    /// into a project?
    pub propose_reward: Permill,
    /// How long can proposals be submitted?
    pub propose_round_duration: u64,
    /// How many votes does a proposal require to be accepted for the next
    /// round?
    pub propose_vote_acceptance_min: Permill,
    /// How long can votes for proposals be submitted?
    pub propose_vote_duration: u64,
    /// Which identity level is required to vote on proposals?
    pub propose_vote_identity_level: u16,
    /// How many votes can each identified user submit per proposal vote
    /// round?
    pub propose_vote_max_per_identified_user: u16,
    /// How high is the reward if a proposal the user voted for passes?
    pub propose_vote_correct_reward: u64,
    /// How many concerns can be submitted per concern round?
    pub concern_cap: u32,
    /// How many concerns can an identified user submit per concern round?
    pub concern_identified_user_cap: u8,
    /// Which identity level is required to submit a concern?
    pub concern_identity_level: u8,
    /// How high is the reward if the concern receives enough votes to be
    /// passed to the next state?
    pub concern_reward: u64,
    /// How long can concerns be submitted?
    pub concern_round_duration: u64,
    /// How many votes does a concern require to be accepted for the next
    /// round?
    pub concern_vote_acceptance_min: Permill,
    /// How long can votes for concerns be submitted?
    pub concern_vote_duration: u64,
    /// Which identity level is required to vote on concerns?
    pub concern_vote_identity_level: u16,
    /// How many votes can each identified user submit per concern vote
    /// round?
    pub concern_vote_max_per_identified_user: u16,
    /// How high is the reward if a concern the user voted for passes?
    pub concern_vote_correct_reward: u64,
    /// How much time is reserved for the council to vote?
    pub council_vote_round_duration: u64,
    /// How many percent of the council must agree that a concern is too
    /// serious to launch a project from the associated proposal?
    pub council_accept_concern_min_votes: Permill,
}

impl Config {
    /// Every configured fraction is a meaningful fraction.
    pub open spec fn wf(self) -> bool {
        &&& self.propose_reward.wf()
        &&& self.propose_vote_acceptance_min.wf()
        &&& self.concern_vote_acceptance_min.wf()
        &&& self.council_accept_concern_min_votes.wf()
    }
}

/// Typed, distinguishable failures of the engine's operations.
#[derive(Copy, Clone, Debug, PartialEq, Eq, Structural)]
pub enum GovernanceError {
    /// Operation attempted outside its owning phase; retry in a later phase.
    WrongPhase,
    /// The global submission cap of the active round is exhausted.
    RoundCapReached,
    /// The per-identity submission cap of the active round is exhausted.
    IdentityCapReached,
    /// The submitter's identity level is below the configured minimum.
    IdentityLevelTooLow,
    /// Re-arming the scheduler failed; the transition was aborted whole.
    SchedulingFailure,
}

/// Notification emitted by the engine, appended to its event log.
#[derive(Copy, Clone, Debug, PartialEq, Eq, Structural)]
pub enum Event {
    /// Rotated to the next state. Carries the new state.
    StateRotated(States),
}

/// What a delivered timer fire did.
#[derive(Copy, Clone, Debug, PartialEq, Eq, Structural)]
pub enum AdvanceOutcome {
    /// The engine rotated into the carried state.
    Rotated(States),
    /// The proposal round closed with no content; the engine held the phase
    /// and re-armed for a full further round.
    Held,
    /// The scheduled deadline is still in the future: a duplicate delivery,
    /// ignored.
    Stale,
}

/// The two kinds of gated submissions.
#[derive(Copy, Clone, Debug, PartialEq, Eq, Structural)]
pub enum SubmissionKind {
    Proposal,
    Concern,
}

/// The fixed transition table of the phase cycle.
pub open spec fn next_state(s: States) -> States {
    match s {
        States::Uninitialized => States::Propose,
        States::Propose => States::VotePropose,
        States::VotePropose => States::Concern,
        States::Concern => States::VoteConcern,
        States::VoteConcern => States::VoteCouncil,
        States::VoteCouncil => States::Propose,
    }
}

/// How long the engine remains in `entered` after rotating into it.
/// `Uninitialized` is never entered; its duration is immaterial.
pub open spec fn duration_of(cfg: Config, entered: States) -> u64 {
    match entered {
        States::Uninitialized => 0,
        States::Propose => cfg.propose_round_duration,
        States::VotePropose => cfg.propose_vote_duration,
        States::Concern => cfg.concern_round_duration,
        States::VoteConcern => cfg.concern_vote_duration,
        States::VoteCouncil => cfg.council_vote_round_duration,
    }
}

/// The records `identity` owns in `store`, oldest first; an identity
/// without an entry owns none.
pub open spec fn stored<T>(store: Map<IdentityId, Vec<T>>, identity: IdentityId) -> Seq<T> {
    if store.contains_key(identity) {
        store[identity]@
    } else {
        Seq::empty()
    }
}

/// No identity owns any record in `store`.
pub open spec fn store_empty<T>(store: Map<IdentityId, Vec<T>>) -> bool {
    forall|identity: IdentityId| (#[trigger] stored(store, identity)).len() == 0
}

/// No identity owns more than `cap` records in `store`.
pub open spec fn store_within_cap<T>(store: Map<IdentityId, Vec<T>>, cap: u8) -> bool {
    forall|identity: IdentityId| (#[trigger] stored(store, identity)).len() <= cap
}

/// Relation between the engine before and after a fire that held the
/// proposal round open ("no content, no progress"): only the deadline moves,
/// by one further full proposal-round duration.
pub open spec fn hold_post(pre: Module, now: u64, post: Module) -> bool {
    &&& pre.state is Propose
    &&& pre.proposal_count == 0
    &&& post.cfg == pre.cfg
    &&& post.state == pre.state
    &&& post.next_transit == now + pre.cfg.propose_round_duration
    &&& post.proposals == pre.proposals
    &&& post.proposal_count == pre.proposal_count
    &&& post.concerns == pre.concerns
    &&& post.concern_count == pre.concern_count
    &&& post.events == pre.events
}

/// Relation between the engine before and after a successful rotation fired
/// at ledger time `now`: the phase steps along the fixed cycle, the deadline
/// is the entered phase's duration after `now`, exactly one rotation
/// notification is appended, and the quota counters and content of a round
/// that begins are reset atomically with the rotation.
pub open spec fn rotate_post(pre: Module, now: u64, post: Module) -> bool {
    let entered = next_state(pre.state);
    &&& !pre.holds_round()
    &&& post.cfg == pre.cfg
    &&& post.state == entered
    &&& post.next_transit == now + duration_of(pre.cfg, entered)
    &&& post.events@ == pre.events@.push(Event::StateRotated(entered))
    &&& match entered {
        States::Propose => {
            &&& post.proposals@ == Map::<IdentityId, Vec<Proposal>>::empty()
            &&& post.proposal_count == 0
            &&& post.concerns == pre.concerns
            &&& post.concern_count == pre.concern_count
        },
        States::Concern => {
            &&& post.proposals@ == Map::<IdentityId, Vec<Proposal>>::empty()
            &&& post.proposal_count == 0
            &&& post.concerns@ == Map::<IdentityId, Vec<Concern>>::empty()
            &&& post.concern_count == 0
        },
        _ => {
            &&& post.proposals == pre.proposals
            &&& post.proposal_count == pre.proposal_count
            &&& post.concerns == pre.concerns
            &&& post.concern_count == pre.concern_count
        },
    }
}

/// Relation between the engine before and after an admitted proposal from
/// `identity`: the new record is appended to that identity's list with a
/// vote count of zero, the global counter steps by one, and nothing else
/// moves.
pub open spec fn proposal_accepted(
    pre: Module,
    identity: IdentityId,
    cid: ProposalCID,
    post: Module,
) -> bool {
    &&& post.cfg == pre.cfg
    &&& post.state == pre.state
    &&& post.next_transit == pre.next_transit
    &&& post.events == pre.events
    &&& post.concerns == pre.concerns
    &&& post.concern_count == pre.concern_count
    &&& post.proposal_count == pre.proposal_count + 1
    &&& post.proposals@.contains_key(identity)
    &&& post.user_proposals(identity) == pre.user_proposals(identity).push(
        Proposal { proposal: cid, votes: 0 },
    )
    &&& forall|other: IdentityId|
        other != identity ==> #[trigger] post.user_proposals(other) == pre.user_proposals(other)
}

/// Relation between the engine before and after an admitted concern from
/// `identity`; the counterpart of `proposal_accepted`.
pub open spec fn concern_accepted(
    pre: Module,
    identity: IdentityId,
    cid: ConcernCID,
    associated: ProposalCID,
    post: Module,
) -> bool {
    &&& post.cfg == pre.cfg
    &&& post.state == pre.state
    &&& post.next_transit == pre.next_transit
    &&& post.events == pre.events
    &&& post.proposals == pre.proposals
    &&& post.proposal_count == pre.proposal_count
    &&& post.concern_count == pre.concern_count + 1
    &&& post.concerns@.contains_key(identity)
    &&& post.user_concerns(identity) == pre.user_concerns(identity).push(
        Concern { concern: cid, associated_proposal: associated, votes: 0 },
    )
    &&& forall|other: IdentityId|
        other != identity ==> #[trigger] post.user_concerns(other) == pre.user_concerns(other)
}

/// The round engine: current phase, scheduled transition time, content
/// store, quota counters and event log, owned as one explicit state object.
pub struct Module {
    /// Immutable configuration of caps, durations, levels and rates.
    pub cfg: Config,
    /// The current state.
    pub state: States,
    /// Time for which the next state transit is scheduled.
    pub next_transit: u64,
    /// Identity -> proposals submitted in the active round.
    pub proposals: vstd::hash_map::HashMapWithView<IdentityId, Vec<Proposal>>,
    /// Total proposals admitted in the active round.
    pub proposal_count: u32,
    /// Identity -> concerns submitted in the active round.
    pub concerns: vstd::hash_map::HashMapWithView<IdentityId, Vec<Concern>>,
    /// Total concerns admitted in the active round.
    pub concern_count: u32,
    /// Append-only log of emitted notifications.
    pub events: Vec<Event>,
}

impl Module {
    /// The proposals an identity owns in the active round, oldest first.
    pub open spec fn user_proposals(self, identity: IdentityId) -> Seq<Proposal> {
        stored(self.proposals@, identity)
    }

    /// The concerns an identity owns in the active round, oldest first.
    pub open spec fn user_concerns(self, identity: IdentityId) -> Seq<Concern> {
        stored(self.concerns@, identity)
    }

    /// Well-formedness: the counters respect the configured caps, a fresh
    /// engine has no deadline, and the global counter is zero exactly when
    /// the store holds nothing.
    pub open spec fn wf(self) -> bool {
        &&& self.cfg.wf()
        &&& self.state is Uninitialized ==> self.next_transit == 0
        &&& self.proposal_count <= self.cfg.propose_cap
        &&& self.concern_count <= self.cfg.concern_cap
        &&& (self.proposal_count == 0 <==> store_empty(self.proposals@))
        &&& (self.concern_count == 0 <==> store_empty(self.concerns@))
        &&& store_within_cap(self.proposals@, self.cfg.propose_identified_user_cap)
        &&& store_within_cap(self.concerns@, self.cfg.concern_identified_user_cap)
    }

    /// The "no content, no progress" policy fires: the proposal round is
    /// ending and no proposal was submitted.
    pub open spec fn holds_round(self) -> bool {
        self.state is Propose && self.proposal_count == 0
    }

    /// The duration a fire of `advance` would arm next: a held proposal
    /// round is re-armed whole, otherwise the entered phase's duration.
    pub open spec fn planned_duration(self) -> u64 {
        if self.holds_round() {
            self.cfg.propose_round_duration
        } else {
            duration_of(self.cfg, next_state(self.state))
        }
    }

    /// Verdict of the submission gate for a proposal from an identity of the
    /// given level, checked in order: owning phase, global round cap,
    /// identity level, per-identity cap.
    pub open spec fn gate_proposal(self, level: u8, identity: IdentityId) -> Result<
        (),
        GovernanceError,
    > {
        if !(self.state is Propose) {
            Err(GovernanceError::WrongPhase)
        } else if self.proposal_count >= self.cfg.propose_cap {
            Err(GovernanceError::RoundCapReached)
        } else if level < self.cfg.propose_identity_level {
            Err(GovernanceError::IdentityLevelTooLow)
        } else if self.user_proposals(identity).len() >= self.cfg.propose_identified_user_cap {
            Err(GovernanceError::IdentityCapReached)
        } else {
            Ok(())
        }
    }

    /// Verdict of the submission gate for a concern; same checks in the same
    /// order, against the concern round's configuration.
    pub open spec fn gate_concern(self, level: u8, identity: IdentityId) -> Result<
        (),
        GovernanceError,
    > {
        if !(self.state is Concern) {
            Err(GovernanceError::WrongPhase)
        } else if self.concern_count >= self.cfg.concern_cap {
            Err(GovernanceError::RoundCapReached)
        } else if level < self.cfg.concern_identity_level {
            Err(GovernanceError::IdentityLevelTooLow)
        } else if self.user_concerns(identity).len() >= self.cfg.concern_identified_user_cap {
            Err(GovernanceError::IdentityCapReached)
        } else {
            Ok(())
        }
    }

    /// A fresh engine: uninitialized, empty, with nothing scheduled.
    pub fn new(cfg: Config) -> (m: Module)
        requires
            cfg.wf(),
        ensures
            m.wf(),
            m.cfg == cfg,
            m.state is Uninitialized,
            m.next_transit == 0,
            m.proposal_count == 0,
            m.concern_count == 0,
            m.proposals@ == Map::<IdentityId, Vec<Proposal>>::empty(),
            m.concerns@ == Map::<IdentityId, Vec<Concern>>::empty(),
            m.events@ == Seq::<Event>::empty(),
    {
        broadcast use vstd::std_specs::hash::group_hash_axioms;

        let m = Module {
            cfg,
            state: States::Uninitialized,
            next_transit: 0,
            proposals: vstd::hash_map::HashMapWithView::new(),
            proposal_count: 0,
            concerns: vstd::hash_map::HashMapWithView::new(),
            concern_count: 0,
            events: Vec::new(),
        };
        proof {
            assert forall|identity: IdentityId| (#[trigger] stored(m.proposals@, identity)).len()
                == 0 by {}
            assert forall|identity: IdentityId| (#[trigger] stored(m.concerns@, identity)).len()
                == 0 by {}
        }
        m
    }

    /// The current state.
    pub fn state(&self) -> (s: States)
        ensures
            s == self.state,
    {
        self.state
    }

    /// Time for which the next state transit is scheduled.
    pub fn next_transit(&self) -> (t: u64)
        ensures
            t == self.next_transit,
    {
        self.next_transit
    }

    /// Total proposals admitted in the active round.
    pub fn proposal_count(&self) -> (c: u32)
        ensures
            c == self.proposal_count,
    {
        self.proposal_count
    }

    /// Total concerns admitted in the active round.
    pub fn concern_count(&self) -> (c: u32)
        ensures
            c == self.concern_count,
    {
        self.concern_count
    }

    /// The proposals an identity owns in the active round, if any.
    pub fn proposals(&self, identity: &IdentityId) -> (r: Option<&Vec<Proposal>>)
        ensures
            match r {
                Some(list) => self.proposals@.contains_key(*identity) && list@
                    == self.user_proposals(*identity),
                None => !self.proposals@.contains_key(*identity),
            },
    {
        self.proposals.get(identity)
    }

    /// The concerns an identity owns in the active round, if any.
    pub fn concerns(&self, identity: &IdentityId) -> (r: Option<&Vec<Concern>>)
        ensures
            match r {
                Some(list) => self.concerns@.contains_key(*identity) && list@
                    == self.user_concerns(*identity),
                None => !self.concerns@.contains_key(*identity),
            },
    {
        self.concerns.get(identity)
    }

    /// The emitted notifications, oldest first.
    pub fn events(&self) -> (r: &Vec<Event>)
        ensures
            r == self.events,
    {
        &self.events
    }

    /// How many further submissions of `kind` the active round admits
    /// globally.
    pub fn remaining_global(&self, kind: SubmissionKind) -> (r: u32)
        requires
            self.wf(),
        ensures
            kind is Proposal ==> r == self.cfg.propose_cap - self.proposal_count,
            kind is Concern ==> r == self.cfg.concern_cap - self.concern_count,
    {
        match kind {
            SubmissionKind::Proposal => self.cfg.propose_cap - self.proposal_count,
            SubmissionKind::Concern => self.cfg.concern_cap - self.concern_count,
        }
    }

    /// How many further submissions of `kind` the active round admits from
    /// `identity`.
    pub fn remaining_for_identity(&self, identity: IdentityId, kind: SubmissionKind) -> (r: u8)
        requires
            self.wf(),
        ensures
            kind is Proposal ==> r == self.cfg.propose_identified_user_cap
                - self.user_proposals(identity).len(),
            kind is Concern ==> r == self.cfg.concern_identified_user_cap
                - self.user_concerns(identity).len(),
    {
        match kind {
            SubmissionKind::Proposal => {
                let used: usize = match self.proposals.get(&identity) {
                    Some(list) => list.len(),
                    None => 0,
                };
                proof {
                    assert(used == self.user_proposals(identity).len());
                }
                self.cfg.propose_identified_user_cap - (used as u8)
            },
            SubmissionKind::Concern => {
                let used: usize = match self.concerns.get(&identity) {
                    Some(list) => list.len(),
                    None => 0,
                };
                proof {
                    assert(used == self.user_concerns(identity).len());
                }
                self.cfg.concern_identified_user_cap - (used as u8)
            },
        }
    }

    /// Appends an admitted proposal to `identity`'s list and steps the
    /// global counter; the caller has already checked the admission rules.
    fn add_proposal(&mut self, identity: IdentityId, proposal: ProposalCID)
        requires
            old(self).wf(),
            old(self).proposal_count < old(self).cfg.propose_cap,
            old(self).user_proposals(identity).len() < old(self).cfg.propose_identified_user_cap,
        ensures
            final(self).wf(),
            proposal_accepted(*old(self), identity, proposal, *final(self)),
    {
        let mut list: Vec<Proposal> = match self.proposals.remove(&identity) {
            Some(list) => list,
            None => Vec::new(),
        };
        list.push(Proposal::new(proposal));
        self.proposals.insert(identity, list);
        self.proposal_count = self.proposal_count + 1;
        proof {
            assert(stored(self.proposals@, identity).len() > 0);
            assert forall|other: IdentityId| other != identity implies #[trigger] stored(
                self.proposals@,
                other,
            ) == stored(old(self).proposals@, other) by {}
            assert forall|any: IdentityId| (#[trigger] stored(self.proposals@, any)).len()
                <= self.cfg.propose_identified_user_cap by {
                if any != identity {
                    assert(stored(self.proposals@, any) == stored(old(self).proposals@, any));
                }
            }
        }
    }

    /// Appends an admitted concern to `identity`'s list and steps the
    /// global counter; the caller has already checked the admission rules.
    fn add_concern(&mut self, identity: IdentityId, concern: ConcernCID, associated: ProposalCID)
        requires
            old(self).wf(),
            old(self).concern_count < old(self).cfg.concern_cap,
            old(self).user_concerns(identity).len() < old(self).cfg.concern_identified_user_cap,
        ensures
            final(self).wf(),
            concern_accepted(*old(self), identity, concern, associated, *final(self)),
    {
        let mut list: Vec<Concern> = match self.concerns.remove(&identity) {
            Some(list) => list,
            None => Vec::new(),
        };
        list.push(Concern::new(concern, associated));
        self.concerns.insert(identity, list);
        self.concern_count = self.concern_count + 1;
        proof {
            assert(stored(self.concerns@, identity).len() > 0);
            assert forall|other: IdentityId| other != identity implies #[trigger] stored(
                self.concerns@,
                other,
            ) == stored(old(self).concerns@, other) by {}
            assert forall|any: IdentityId| (#[trigger] stored(self.concerns@, any)).len()
                <= self.cfg.concern_identified_user_cap by {
                if any != identity {
                    assert(stored(self.concerns@, any) == stored(old(self).concerns@, any));
                }
            }
        }
    }

    /// As an identified user, submit a proposal.
    ///
    /// The admission verdict is exactly `gate_proposal`, evaluated for the
    /// identity the oracle `I` resolves `caller` to: the checks run in
    /// order, stop at the first failure, and a failure leaves the engine
    /// untouched.
    pub fn propose<I: PeerReviewedPhysicalIdentity>(
        &mut self,
        caller: AccountId,
        proposal: ProposalCID,
    ) -> (r: Result<(), GovernanceError>)
        requires
            old(self).wf(),
        ensures
            final(self).wf(),
            r == old(self).gate_proposal(
                I::spec_identity_level(I::spec_identity_id(caller)),
                I::spec_identity_id(caller),
            ),
            r is Err ==> *final(self) == *old(self),
            r is Ok ==> proposal_accepted(
                *old(self),
                I::spec_identity_id(caller),
                proposal,
                *final(self),
            ),
    {
        // Ensure that the engine is in the appropriate state.
        if self.state != States::Propose {
            return Err(GovernanceError::WrongPhase);
        }
        // Ensure that the maximum proposal count was not reached yet.
        if self.proposal_count >= self.cfg.propose_cap {
            return Err(GovernanceError::RoundCapReached);
        }
        // Ensure the identity level is high enough to propose.
        let identity: IdentityId = I::get_identity_id(&caller);
        let level: u8 = I::get_identity_level(&identity);
        if level < self.cfg.propose_identity_level {
            return Err(GovernanceError::IdentityLevelTooLow);
        }
        // Ensure the user has not surpassed the proposal limit per user.
        let used: usize = match self.proposals.get(&identity) {
            Some(list) => list.len(),
            None => 0,
        };
        proof {
            assert(used == self.user_proposals(identity).len());
        }
        if used >= self.cfg.propose_identified_user_cap as usize {
            return Err(GovernanceError::IdentityCapReached);
        }
        self.add_proposal(identity, proposal);
        Ok(())
    }

    /// As an identified user, submit a concern about a proposal.
    ///
    /// The counterpart of `propose` for the concern round; the verdict is
    /// exactly `gate_concern`.
    pub fn submit_concern<I: PeerReviewedPhysicalIdentity>(
        &mut self,
        caller: AccountId,
        concern: ConcernCID,
        associated_proposal: ProposalCID,
    ) -> (r: Result<(), GovernanceError>)
        requires
            old(self).wf(),
        ensures
            final(self).wf(),
            r == old(self).gate_concern(
                I::spec_identity_level(I::spec_identity_id(caller)),
                I::spec_identity_id(caller),
            ),
            r is Err ==> *final(self) == *old(self),
            r is Ok ==> concern_accepted(
                *old(self),
                I::spec_identity_id(caller),
                concern,
                associated_proposal,
                *final(self),
            ),
    {
        // Ensure that the engine is in the appropriate state.
        if self.state != States::Concern {
            return Err(GovernanceError::WrongPhase);
        }
        // Ensure that the maximum concern count was not reached yet.
        if self.concern_count >= self.cfg.concern_cap {
            return Err(GovernanceError::RoundCapReached);
        }
        // Ensure the identity level is high enough to raise a concern.
        let identity: IdentityId = I::get_identity_id(&caller);
        let level: u8 = I::get_identity_level(&identity);
        if level < self.cfg.concern_identity_level {
            return Err(GovernanceError::IdentityLevelTooLow);
        }
        // Ensure the user has not surpassed the concern limit per user.
        let used: usize = match self.concerns.get(&identity) {
            Some(list) => list.len(),
            None => 0,
        };
        proof {
            assert(used == self.user_concerns(identity).len());
        }
        if used >= self.cfg.concern_identified_user_cap as usize {
            return Err(GovernanceError::IdentityCapReached);
        }
        self.add_concern(identity, concern, associated_proposal);
        Ok(())
    }

    /// Execute the state transit and schedule the next state transit.
    ///
    /// The transition is all-or-nothing: the scheduler is re-armed for the
    /// computed deadline before anything is committed, and a refused re-arm
    /// aborts the fire with `SchedulingFailure` and no state change, because
    /// a committed phase with no scheduled follow-up would stall the engine
    /// forever. A fire delivered while the scheduled deadline is still in
    /// the future is a duplicate and changes nothing (`Stale`). A proposal
    /// round that ends with no content is held open for one further full
    /// round (`Held`) rather than rotated into a vote over nothing.
    pub fn advance<S: Scheduler>(&mut self, now: u64, scheduler: &mut S) -> (r: Result<
        AdvanceOutcome,
        GovernanceError,
    >)
        requires
            old(self).wf(),
            now + old(self).planned_duration() <= u64::MAX,
        ensures
            final(self).wf(),
            (r == Ok::<AdvanceOutcome, GovernanceError>(AdvanceOutcome::Stale)) <==> now < old(
                self,
            ).next_transit,
            now < old(self).next_transit ==> *final(self) == *old(self) && *final(scheduler)
                == *old(scheduler),
            now >= old(self).next_transit ==> ((r is Err) <==> !old(scheduler).accepts(
                (now + old(self).planned_duration()) as u64,
            )),
            r is Err ==> r == Err::<AdvanceOutcome, GovernanceError>(
                GovernanceError::SchedulingFailure,
            ) && *final(self) == *old(self),
            r == Ok::<AdvanceOutcome, GovernanceError>(AdvanceOutcome::Held) ==> hold_post(
                *old(self),
                now,
                *final(self),
            ),
            (now >= old(self).next_transit && old(scheduler).accepts(
                (now + old(self).planned_duration()) as u64,
            ) && old(self).holds_round()) ==> r == Ok::<AdvanceOutcome, GovernanceError>(
                AdvanceOutcome::Held,
            ),
            r matches Ok(AdvanceOutcome::Rotated(entered)) ==> entered == next_state(
                old(self).state,
            ) && rotate_post(*old(self), now, *final(self)),
            (now >= old(self).next_transit && old(scheduler).accepts(
                (now + old(self).planned_duration()) as u64,
            ) && !old(self).holds_round()) ==> r == Ok::<AdvanceOutcome, GovernanceError>(
                AdvanceOutcome::Rotated(next_state(old(self).state)),
            ),
    {
        // A fire before the scheduled deadline is a duplicate delivery.
        if now < self.next_transit {
            return Ok(AdvanceOutcome::Stale);
        }
        // Only transit out of the proposal round if proposals exist.
        if self.state == States::Propose && self.proposal_count == 0 {
            let target: u64 = now + self.cfg.propose_round_duration;
            if scheduler.schedule_once(target).is_err() {
                return Err(GovernanceError::SchedulingFailure);
            }
            self.next_transit = target;
            return Ok(AdvanceOutcome::Held);
        }
        let entered: States = match self.state {
            States::Uninitialized => States::Propose,
            States::Propose => States::VotePropose,
            States::VotePropose => States::Concern,
            States::Concern => States::VoteConcern,
            States::VoteConcern => States::VoteCouncil,
            States::VoteCouncil => States::Propose,
        };
        let duration: u64 = match entered {
            States::Uninitialized => 0,
            States::Propose => self.cfg.propose_round_duration,
            States::VotePropose => self.cfg.propose_vote_duration,
            States::Concern => self.cfg.concern_round_duration,
            States::VoteConcern => self.cfg.concern_vote_duration,
            States::VoteCouncil => self.cfg.council_vote_round_duration,
        };
        let target: u64 = now + duration;
        // Verify first, write last: nothing is committed unless the next
        // fire is armed.
        if scheduler.schedule_once(target).is_err() {
            return Err(GovernanceError::SchedulingFailure);
        }
        self.next_transit = target;
        self.state = entered;
        // Reset the quota counters and content of every round that begins.
        match entered {
            States::Propose => {
                self.proposals.clear();
                self.proposal_count = 0;
            },
            States::Concern => {
                self.proposals.clear();
                self.proposal_count = 0;
                self.concerns.clear();
                self.concern_count = 0;
            },
            _ => {},
        }
        proof {
            if self.proposals@ =~= Map::<IdentityId, Vec<Proposal>>::empty() {
                assert forall|identity: IdentityId| (#[trigger] stored(
                    self.proposals@,
                    identity,
                )).len() == 0 by {}
            }
            if self.concerns@ =~= Map::<IdentityId, Vec<Concern>>::empty() {
                assert forall|identity: IdentityId| (#[trigger] stored(
                    self.concerns@,
                    identity,
                )).len() == 0 by {}
            }
        }
        self.events.push(Event::StateRotated(entered));
        Ok(AdvanceOutcome::Rotated(entered))
    }

    /// Records one vote for the `index`-th record that `identity` owns of
    /// `kind`, and returns the new vote count, which grows by exactly one
    /// per call.
    ///
    /// Returns `None`, changing nothing, when `identity` owns no record at
    /// `index` or the count would not fit the machine word. Whether the
    /// voter may vote at all (phase, level, vote quota, repeat votes) is the
    /// business of a voting-eligibility layer outside this store.
    pub fn record_vote(&mut self, identity: IdentityId, kind: SubmissionKind, index: usize) -> (r:
        Option<u32>)
        requires
            old(self).wf(),
        ensures
            final(self).wf(),
            r is None ==> *final(self) == *old(self),
            kind is Proposal ==> ((r is Some) <==> index < old(self).user_proposals(
                identity,
            ).len() && old(self).user_proposals(identity)[index as int].votes < u32::MAX),
            kind is Concern ==> ((r is Some) <==> index < old(self).user_concerns(identity).len()
                && old(self).user_concerns(identity)[index as int].votes < u32::MAX),
            kind is Proposal && r is Some ==> ({
                let prior = old(self).user_proposals(identity)[index as int];
                &&& r == Some((prior.votes + 1) as u32)
                &&& final(self).user_proposals(identity) == old(self).user_proposals(
                    identity,
                ).update(index as int, (Proposal { proposal: prior.proposal, votes: (prior.votes + 1) as u32 }))
                &&& forall|other: IdentityId|
                    other != identity ==> #[trigger] final(self).user_proposals(other) == old(
                        self,
                    ).user_proposals(other)
                &&& final(self).concerns == old(self).concerns
            }),
            kind is Concern && r is Some ==> ({
                let prior = old(self).user_concerns(identity)[index as int];
                &&& r == Some((prior.votes + 1) as u32)
                &&& final(self).user_concerns(identity) == old(self).user_concerns(
                    identity,
                ).update(index as int, (Concern {
                    concern: prior.concern,
                    associated_proposal: prior.associated_proposal,
                    votes: (prior.votes + 1) as u32,
                }))
                &&& forall|other: IdentityId|
                    other != identity ==> #[trigger] final(self).user_concerns(other) == old(
                        self,
                    ).user_concerns(other)
                &&& final(self).proposals == old(self).proposals
            }),
            r is Some ==> ({
                &&& final(self).cfg == old(self).cfg
                &&& final(self).state == old(self).state
                &&& final(self).next_transit == old(self).next_transit
                &&& final(self).events == old(self).events
                &&& final(self).proposal_count == old(self).proposal_count
                &&& final(self).concern_count == old(self).concern_count
            }),
    {
        match kind {
            SubmissionKind::Proposal => {
                let can: bool = match self.proposals.get(&identity) {
                    Some(list) => index < list.len() && list[index].votes < u32::MAX,
                    None => false,
                };
                if !can {
                    return None;
                }
                let mut list: Vec<Proposal> = match self.proposals.remove(&identity) {
                    Some(list) => list,
                    None => {
                        return None;
                    },
                };
                let ghost pre_list: Seq<Proposal> = list@;
                let record = &mut list[index];
                let votes: u32 = record.votes + 1;
                record.votes = votes;
                proof {
                    assert(list@ == pre_list.update(
                        index as int,
                        (Proposal { proposal: pre_list[index as int].proposal, votes }),
                    ));
                }
                self.proposals.insert(identity, list);
                proof {
                    assert(stored(self.proposals@, identity) == list@);
                    assert(stored(self.proposals@, identity).len() > 0);
                    assert(stored(old(self).proposals@, identity).len() > 0);
                    assert(self.proposal_count != 0);
                    assert forall|any: IdentityId| (#[trigger] stored(self.proposals@, any)).len()
                        <= self.cfg.propose_identified_user_cap by {
                        if any == identity {
                            assert(stored(self.proposals@, any).len() == stored(
                                old(self).proposals@,
                                any,
                            ).len());
                        } else {
                            assert(stored(self.proposals@, any) == stored(
                                old(self).proposals@,
                                any,
                            ));
                        }
                    }
                }
                Some(votes)
            },
            SubmissionKind::Concern => {
                let can: bool = match self.concerns.get(&identity) {
                    Some(list) => index < list.len() && list[index].votes < u32::MAX,
                    None => false,
                };
                if !can {
                    return None;
                }
                let mut list: Vec<Concern> = match self.concerns.remove(&identity) {
                    Some(list) => list,
                    None => {
                        return None;
                    },
                };
                let ghost pre_list: Seq<Concern> = list@;
                let record = &mut list[index];
                let votes: u32 = record.votes + 1;
                record.votes = votes;
                proof {
                    assert(list@ == pre_list.update(
                        index as int,
                        (Concern {
                            concern: pre_list[index as int].concern,
                            associated_proposal: pre_list[index as int].associated_proposal,
                            votes,
                        }),
                    ));
                }
                self.concerns.insert(identity, list);
                proof {
                    assert(stored(self.concerns@, identity) == list@);
                    assert(stored(self.concerns@, identity).len() > 0);
                    assert(stored(old(self).concerns@, identity).len() > 0);
                    assert(self.concern_count != 0);
                    assert forall|any: IdentityId| (#[trigger] stored(self.concerns@, any)).len()
                        <= self.cfg.concern_identified_user_cap by {
                        if any == identity {
                            assert(stored(self.concerns@, any).len() == stored(
                                old(self).concerns@,
                                any,
                            ).len());
                        } else {
                            assert(stored(self.concerns@, any) == stored(
                                old(self).concerns@,
                                any,
                            ));
                        }
                    }
                }
                Some(votes)
            },
        }
    }

    /// Tallying hook run when a proposal round is promoted into its voting
    /// round; the ratification algorithm lives outside this engine, so every
    /// submitted proposal stands for voting unchanged.
    pub fn propose_to_vote_propose(state: u32) {
        let _ = state;
    }
}

} // verus!
