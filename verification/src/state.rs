//! The contact-state store: the persisted values that the detectors write
//! and the input translator reads, one instance for the whole session.

use vstd::prelude::*;

verus! {

/// Which side of the player a wall probe reported contact on.
#[derive(Clone, Copy, PartialEq, Eq, Debug)]
pub enum WallSide {
    Left,
    Right,
}

/// Wall contact as a tagged variant: a contacted side exists exactly when
/// the player is touching a wall, so an inconsistent pair (touching with
/// no side, or a side without touching) cannot even be built.
#[derive(Clone, Copy, PartialEq, Eq, Debug)]
pub enum WallContact {
    NoContact,
    Touching(WallSide),
}

impl WallContact {
    /// Whether the player is in contact with a wall.
    pub open spec fn is_touching(self) -> bool {
        self is Touching
    }

    /// The contacted side, if any.
    pub open spec fn spec_side(self) -> Option<WallSide> {
        match self {
            WallContact::NoContact => None,
            WallContact::Touching(s) => Some(s),
        }
    }

    /// Whether the player is in contact with a wall.
    pub fn touching(&self) -> (b: bool)
        ensures
            b == self.is_touching(),
    {
        match self {
            WallContact::Touching(_) => true,
            WallContact::NoContact => false,
        }
    }

    /// The contacted side, if any.
    pub fn side(&self) -> (s: Option<WallSide>)
        ensures
            s == self.spec_side(),
    {
        match self {
            WallContact::Touching(side) => Some(*side),
            WallContact::NoContact => None,
        }
    }
}

/// A wall side is reported exactly when the player is touching a wall:
/// the tagged representation makes the two readings of a `WallContact`
/// agree for every value, not only for the reachable ones.
pub proof fn lemma_side_iff_touching(w: WallContact)
    ensures
        w.spec_side() is Some <==> w.is_touching(),
{
}

/// The contact-state store. Each field has a single writer: the ground
/// detector owns `grounded`, `in_floor` and sets `can_jump`; the wall
/// detector owns `wall`; the input translator clears `can_jump` when a
/// jump is consumed and owns `debug_enabled`.
#[derive(Clone, Copy, PartialEq, Eq, Debug)]
pub struct ControllerState {
    /// Ground-contact flag read by the rest of the controller.
    pub grounded: bool,
    /// The ground detector's persisted "was in floor" flag, tracked
    /// apart from `grounded` so that enter/exit edges are detected
    /// against the previous tick rather than the per-tick cast alone.
    pub in_floor: bool,
    /// Jump eligibility: set while ground contact holds, cleared when a
    /// jump impulse is issued or ground contact is lost.
    pub can_jump: bool,
    /// Wall contact and side, fully replaced by the wall detector each tick.
    pub wall: WallContact,
    /// Whether the physics debug overlay is drawn; toggled by a key,
    /// never read by the movement rules.
    pub debug_enabled: bool,
}

impl ControllerState {
    /// Well-formedness of the store: the public ground flag agrees with
    /// the detector's persisted flag, and jump eligibility is only ever
    /// held while grounded.
    pub open spec fn wf(self) -> bool {
        &&& self.grounded == self.in_floor
        &&& self.can_jump ==> self.grounded
    }

    /// The startup state: no contact anywhere, no jump, overlay off.
    pub open spec fn initial() -> ControllerState {
        ControllerState {
            grounded: false,
            in_floor: false,
            can_jump: false,
            wall: WallContact::NoContact,
            debug_enabled: false,
        }
    }

    /// Builds the startup state.
    pub fn new() -> (s: ControllerState)
        ensures
            s == ControllerState::initial(),
            s.wf(),
    {
        ControllerState {
            grounded: false,
            in_floor: false,
            can_jump: false,
            wall: WallContact::NoContact,
            debug_enabled: false,
        }
    }
}

} // verus!
