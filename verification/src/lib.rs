//! Governance round engine: a fixed cycle of timed phases (proposal
//! submission, proposal voting, concern submission, concern voting, council
//! ratification) with quota and identity-level gating of submissions.

pub mod community_identity;
pub mod laws;
pub mod proposal;
pub mod scheduler;
