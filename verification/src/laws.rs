//! Laws of the round engine, stated over the same specification functions
//! that the engine's contracts use and proved once and for all.

use vstd::prelude::*;

use crate::community_identity::IdentityId;
use crate::proposal::{
    duration_of, hold_post, next_state, rotate_post, Module, States,
};

verus! {

/// The phase reached after `n` rotations, starting from `Uninitialized`.
///
/// `advance`'s contract makes every rotation step the engine's state along
/// `next_state`, so this is the phase sequence an observer of the rotation
/// notifications sees.
pub open spec fn phase_after(n: nat) -> States
    decreases n,
{
    if n == 0 {
        States::Uninitialized
    } else {
        next_state(phase_after((n - 1) as nat))
    }
}

/// Cycle closure, first turn: the rotations visit the six states in their
/// fixed order and the seventh re-enters the proposal round.
pub proof fn lemma_cycle_first_turn()
    ensures
        phase_after(0) == States::Uninitialized,
        phase_after(1) == States::Propose,
        phase_after(2) == States::VotePropose,
        phase_after(3) == States::Concern,
        phase_after(4) == States::VoteConcern,
        phase_after(5) == States::VoteCouncil,
        phase_after(6) == States::Propose,
{
    assert(phase_after(0) == States::Uninitialized);
    assert(phase_after(1) == States::Propose);
    assert(phase_after(2) == States::VotePropose);
    assert(phase_after(3) == States::Concern);
    assert(phase_after(4) == States::VoteConcern);
    assert(phase_after(5) == States::VoteCouncil);
    assert(phase_after(6) == States::Propose);
}

/// Cycle closure: `Uninitialized` is transient — once left, it is never
/// re-entered.
pub proof fn lemma_uninitialized_is_transient(n: nat)
    requires
        1 <= n,
    ensures
        phase_after(n) !is Uninitialized,
{
    assert(phase_after(n) == next_state(phase_after((n - 1) as nat)));
}

/// Cycle closure: from the first rotation on, the phase sequence repeats
/// with period five, so the observed sequence is exactly the fixed cycle,
/// repeating indefinitely.
pub proof fn lemma_cycle_period(n: nat)
    requires
        1 <= n,
    ensures
        phase_after(n + 5) == phase_after(n),
    decreases n,
{
    if n == 1 {
        lemma_cycle_first_turn();
    } else {
        lemma_cycle_period((n - 1) as nat);
        assert(phase_after(n + 5) == next_state(phase_after((n + 4) as nat)));
        assert(phase_after(n) == next_state(phase_after((n - 1) as nat)));
    }
}

/// Each rotation steps the engine's state along the fixed table; no other
/// edge is reachable.
pub proof fn lemma_rotation_follows_cycle(pre: Module, now: u64, post: Module)
    requires
        rotate_post(pre, now, post),
    ensures
        post.state == next_state(pre.state),
{
}

/// Idempotent re-fire: a fire at ledger time `now` that rotated (or held
/// the proposal round) armed a deadline strictly beyond `now` whenever the
/// armed duration is positive. A duplicate fire at the same clock reading
/// therefore finds the deadline still in the future, and `advance`'s
/// contract makes such a call a no-op: exactly one transition happens.
/// (A zero-duration phase is legal and deliberately re-fires at once.)
pub proof fn lemma_duplicate_fire_is_stale(pre: Module, now: u64, post: Module)
    requires
        (rotate_post(pre, now, post) && duration_of(pre.cfg, next_state(pre.state)) > 0) || (
        hold_post(pre, now, post) && pre.cfg.propose_round_duration > 0),
    ensures
        now < post.next_transit,
{
}

/// Atomic reset: immediately after any transition into the proposal round,
/// the full global cap remains available and every identity's per-round
/// counter is zero, with no window in between.
pub proof fn lemma_atomic_reset(pre: Module, now: u64, post: Module)
    requires
        rotate_post(pre, now, post),
        next_state(pre.state) is Propose,
    ensures
        post.proposal_count == 0,
        post.cfg.propose_cap - post.proposal_count == pre.cfg.propose_cap,
        forall|identity: IdentityId| (#[trigger] post.user_proposals(identity)).len() == 0,
{
    assert forall|identity: IdentityId| (#[trigger] post.user_proposals(identity)).len()
        == 0 by {
        assert(!post.proposals@.contains_key(identity));
    }
}

} // verus!
