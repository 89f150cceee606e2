//! Value types of the round engine: the phase enumeration, submitted content
//! records, and the parts-per-million fraction used for configured rates.

use vstd::prelude::*;

verus! {

/// Content identifier of a proposal body stored outside the ledger
/// (a content-addressed hash carried as opaque bytes).
pub type ProposalCID = Vec<u8>;

/// Content identifier of a concern body; same shape as a proposal identifier.
pub type ConcernCID = ProposalCID;

/// A fixed-point fraction expressed in parts per million, used for the
/// configured acceptance thresholds and reward rates.
#[derive(Copy, Clone, Debug, PartialEq, Eq, Structural)]
pub struct Permill {
    pub parts: u32,
}

impl Permill {
    /// A fraction is meaningful only when it does not exceed one.
    pub open spec fn wf(self) -> bool {
        self.parts <= 1_000_000
    }

    /// Builds a fraction from parts per million, saturating at one.
    pub fn from_parts(parts: u32) -> (r: Permill)
        ensures
            r.wf(),
            r.parts == if parts <= 1_000_000 { parts as int } else { 1_000_000int },
    {
        if parts > 1_000_000 {
            Permill { parts: 1_000_000 }
        } else {
            Permill { parts }
        }
    }

    /// Builds a fraction from whole percents, saturating at one hundred.
    pub fn from_percent(percent: u32) -> (r: Permill)
        ensures
            r.wf(),
            r.parts == (if percent <= 100 { percent as int } else { 100int }) * 10_000,
    {
        let bounded: u32 = if percent > 100 { 100 } else { percent };
        Permill { parts: bounded * 10_000 }
    }
}

/// Contains proposal and vote count.
#[derive(Clone, Debug, PartialEq, Eq)]
pub struct Proposal {
    pub proposal: ProposalCID,
    pub votes: u32,
}

impl Proposal {
    /// A freshly submitted proposal starts with no votes.
    pub fn new(proposal: ProposalCID) -> (r: Proposal)
        ensures
            r.proposal == proposal,
            r.votes == 0,
    {
        Proposal { proposal, votes: 0 }
    }
}

impl Default for Proposal {
    fn default() -> (r: Proposal)
        ensures
            r.proposal@ == Seq::<u8>::empty(),
            r.votes == 0,
    {
        Proposal::new(Vec::new())
    }
}

/// Contains concern, the proposal it objects to, and vote count.
#[derive(Clone, Debug, PartialEq, Eq)]
pub struct Concern {
    pub concern: ConcernCID,
    pub associated_proposal: ProposalCID,
    pub votes: u32,
}

impl Concern {
    /// A freshly submitted concern starts with no votes.
    pub fn new(concern: ConcernCID, associated_proposal: ProposalCID) -> (r: Concern)
        ensures
            r.concern == concern,
            r.associated_proposal == associated_proposal,
            r.votes == 0,
    {
        Concern { concern, associated_proposal, votes: 0 }
    }
}

impl Default for Concern {
    fn default() -> (r: Concern)
        ensures
            r.concern@ == Seq::<u8>::empty(),
            r.associated_proposal@ == Seq::<u8>::empty(),
            r.votes == 0,
    {
        Concern::new(Vec::new(), Vec::new())
    }
}

/// Contains one winning proposal together with its proposer (for later
/// rewards) and the vote ratio it achieved.
#[derive(Clone, Debug, PartialEq, Eq)]
pub struct ProposalWinner {
    pub proposer: u64,
    pub proposal: ProposalCID,
    pub vote_ratio: Permill,
}

impl ProposalWinner {
    pub fn new(proposer: u64, proposal: ProposalCID, vote_ratio: Permill) -> (r: ProposalWinner)
        ensures
            r.proposer == proposer,
            r.proposal == proposal,
            r.vote_ratio == vote_ratio,
    {
        ProposalWinner { proposer, proposal, vote_ratio }
    }
}

impl Default for ProposalWinner {
    fn default() -> (r: ProposalWinner)
        ensures
            r.proposer == 0,
            r.proposal@ == Seq::<u8>::empty(),
            r.vote_ratio.parts == 0,
    {
        ProposalWinner::new(0, Vec::new(), Permill::from_parts(0))
    }
}

/// Contains the six different states the round engine can be in.
///
/// `Uninitialized` is transient and visited only once; the other five states
/// cycle indefinitely.
#[derive(Copy, Clone, Debug, PartialEq, Eq, Structural)]
pub enum States {
    Uninitialized,
    Propose,
    VotePropose,
    Concern,
    VoteConcern,
    VoteCouncil,
}

impl Default for States {
    fn default() -> (r: States)
        ensures
            r is Uninitialized,
    {
        States::Uninitialized
    }
}

} // verus!
