//! The ground detector: turns the per-tick outcome of the downward probe
//! into ground-contact state with enter/exit edge detection. The detector
//! keeps a persisted "was in floor" flag, so a tick only reports an edge
//! when the probe outcome differs from the previous tick.

use vstd::prelude::*;
use crate::state::ControllerState;

verus! {

/// Edge report from one run of the ground detector.
#[derive(Clone, Copy, PartialEq, Eq, Debug)]
pub enum GroundTransition {
    /// The probe hit while the player was not previously in the floor.
    EnteredFloor,
    /// The probe missed while the player was previously in the floor.
    LeftFloor,
    /// The probe outcome matched the previous tick; no edge.
    NoChange,
}

/// The edge reported for one tick, given the persisted flag and the
/// probe outcome.
pub open spec fn ground_transition_of(was_in_floor: bool, hit: bool) -> GroundTransition {
    if hit && !was_in_floor {
        GroundTransition::EnteredFloor
    } else if !hit && was_in_floor {
        GroundTransition::LeftFloor
    } else {
        GroundTransition::NoChange
    }
}

/// The store after one run of the ground detector: ground contact and
/// jump eligibility follow the probe outcome; nothing else is touched.
pub open spec fn ground_next(s: ControllerState, hit: bool) -> ControllerState {
    ControllerState { grounded: hit, in_floor: hit, can_jump: hit, ..s }
}

/// One run of the ground detector, once per tick.
///
/// A hit makes (or keeps) the player grounded and grants jump
/// eligibility; a repeated hit re-affirms eligibility rather than
/// toggling it. A miss clears ground contact and eligibility, and only
/// the first miss after contact reports the exit edge.
pub fn ground_tick(state: &mut ControllerState, hit: bool) -> (t: GroundTransition)
    ensures
        *final(state) == ground_next(*old(state), hit),
        t == ground_transition_of(old(state).in_floor, hit),
        hit ==> final(state).grounded && final(state).can_jump,
        !hit ==> !final(state).grounded && !final(state).can_jump,
        hit && !old(state).in_floor ==> t is EnteredFloor,
        !hit && old(state).in_floor ==> t is LeftFloor,
        hit == old(state).in_floor ==> t is NoChange,
        final(state).wall == old(state).wall,
        final(state).debug_enabled == old(state).debug_enabled,
{
    let t: GroundTransition = if hit {
        if state.in_floor {
            GroundTransition::NoChange
        } else {
            GroundTransition::EnteredFloor
        }
    } else {
        if state.in_floor {
            GroundTransition::LeftFloor
        } else {
            GroundTransition::NoChange
        }
    };
    state.grounded = hit;
    state.in_floor = hit;
    state.can_jump = hit;
    t
}

/// Idempotence law: once the detector has absorbed a probe outcome, a
/// further run with the same outcome changes nothing and reports no edge.
pub proof fn lemma_ground_idempotent(s: ControllerState, hit: bool)
    ensures
        ground_next(ground_next(s, hit), hit) == ground_next(s, hit),
        ground_transition_of(ground_next(s, hit).in_floor, hit) == GroundTransition::NoChange,
{
}

} // verus!
