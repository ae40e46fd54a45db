//! The wall detector: resolves the two lateral probe outcomes into a
//! wall-contact value, replacing the stored one whole each tick.

use vstd::prelude::*;
use crate::state::{ControllerState, WallContact, WallSide};

verus! {

/// How the two lateral probe outcomes resolve. The right probe is
/// consulted first: when both probes hit, the reported side is always
/// `Right` — a fixed, deliberate tie-break, not an oversight.
pub open spec fn wall_resolve(right_hit: bool, left_hit: bool) -> WallContact {
    if right_hit {
        WallContact::Touching(WallSide::Right)
    } else if left_hit {
        WallContact::Touching(WallSide::Left)
    } else {
        WallContact::NoContact
    }
}

/// The store after one run of the wall detector: the wall-contact value
/// is replaced as a whole; nothing else is touched.
pub open spec fn wall_next(s: ControllerState, right_hit: bool, left_hit: bool) -> ControllerState {
    ControllerState { wall: wall_resolve(right_hit, left_hit), ..s }
}

/// One run of the wall detector, once per tick.
pub fn wall_tick(state: &mut ControllerState, right_hit: bool, left_hit: bool)
    ensures
        *final(state) == wall_next(*old(state), right_hit, left_hit),
        final(state).wall == wall_resolve(right_hit, left_hit),
        final(state).wall.is_touching() == (right_hit || left_hit),
        final(state).grounded == old(state).grounded,
        final(state).in_floor == old(state).in_floor,
        final(state).can_jump == old(state).can_jump,
        final(state).debug_enabled == old(state).debug_enabled,
{
    state.wall = if right_hit {
        WallContact::Touching(WallSide::Right)
    } else if left_hit {
        WallContact::Touching(WallSide::Left)
    } else {
        WallContact::NoContact
    };
}

/// Tie-break law: whenever the right probe hits — in particular when both
/// probes hit at once — the resolved contact is the right wall.
pub proof fn lemma_wall_tiebreak_right(left_hit: bool)
    ensures
        wall_resolve(true, left_hit) == WallContact::Touching(WallSide::Right),
{
}

} // verus!
