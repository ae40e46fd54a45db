//! One whole simulation tick: the ground detector, the wall detector and
//! the input translator run in that fixed order against the shared store.

use vstd::prelude::*;
use crate::ground::{ground_next, ground_tick, ground_transition_of, GroundTransition};
use crate::motion::{input_next, input_tick, jump_impulse, motion_of, InputState, MotionCommand};
use crate::state::ControllerState;
use crate::wall::{wall_next, wall_tick};

verus! {

/// The outcomes of the tick's three collision probes, as the physics
/// world reported them.
#[derive(Clone, Copy, PartialEq, Eq, Debug)]
pub struct ProbeHits {
    pub ground: bool,
    pub wall_right: bool,
    pub wall_left: bool,
}

/// What one tick hands back: the ground edge report and the motion
/// decision for the physics body.
#[derive(Clone, Copy, PartialEq, Eq, Debug)]
pub struct TickOutput {
    pub transition: GroundTransition,
    pub motion: MotionCommand,
}

/// The store after one whole tick: the two detectors absorb the probe
/// outcomes, then the translator reads the refreshed contacts.
pub open spec fn tick_next(s: ControllerState, hits: ProbeHits, input: InputState) -> ControllerState {
    input_next(wall_next(ground_next(s, hits.ground), hits.wall_right, hits.wall_left), input)
}

/// The motion decision of one whole tick: the translator judges the
/// contact state the detectors just wrote, not the previous tick's.
pub open spec fn tick_motion(s: ControllerState, hits: ProbeHits, input: InputState) -> MotionCommand {
    motion_of(wall_next(ground_next(s, hits.ground), hits.wall_right, hits.wall_left), input)
}

/// Runs one whole simulation tick against the store.
pub fn controller_tick(state: &mut ControllerState, hits: ProbeHits, input: InputState) -> (out: TickOutput)
    ensures
        *final(state) == tick_next(*old(state), hits, input),
        out.transition == ground_transition_of(old(state).in_floor, hits.ground),
        out.motion == tick_motion(*old(state), hits, input),
        final(state).wf(),
{
    let transition = ground_tick(state, hits.ground);
    wall_tick(state, hits.wall_right, hits.wall_left);
    let motion = input_tick(state, input);
    TickOutput { transition, motion }
}

/// Invariant law: the startup state is well-formed, and a whole tick
/// leaves a well-formed store whatever store it started from — so every
/// reachable store is well-formed.
pub proof fn lemma_tick_preserves_wf(s: ControllerState, hits: ProbeHits, input: InputState)
    ensures
        ControllerState::initial().wf(),
        tick_next(s, hits, input).wf(),
{
}

/// The store after a whole scripted session: the given ticks applied in
/// order, each with its probe outcomes and key state.
pub open spec fn run_ticks(s: ControllerState, script: Seq<(ProbeHits, InputState)>) -> ControllerState
    decreases script.len(),
{
    if script.len() == 0 {
        s
    } else {
        run_ticks(tick_next(s, script[0].0, script[0].1), script.skip(1))
    }
}

/// Reachability law: from any well-formed store — the startup state in
/// particular — every store reachable by any sequence of whole ticks is
/// well-formed; so the jump-eligibility and ground-flag invariants hold
/// in every reachable state.
pub proof fn lemma_reachable_wf(s: ControllerState, script: Seq<(ProbeHits, InputState)>)
    requires
        s.wf(),
    ensures
        run_ticks(s, script).wf(),
    decreases script.len(),
{
    if script.len() > 0 {
        lemma_tick_preserves_wf(s, script[0].0, script[0].1);
        lemma_reachable_wf(tick_next(s, script[0].0, script[0].1), script.skip(1));
    }
}

/// Jump-grounding law: a tick whose ground probe misses never issues an
/// impulse, and one whose probe hits while the jump key goes down always
/// issues exactly the fixed jump impulse.
pub proof fn lemma_jump_needs_ground(s: ControllerState, hits: ProbeHits, input: InputState)
    ensures
        !hits.ground ==> tick_motion(s, hits, input).impulse is None,
        hits.ground && input.jump_pressed ==> tick_motion(s, hits, input).impulse == Some(
            jump_impulse(),
        ),
{
}

} // verus!
