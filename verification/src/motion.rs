//! The input-to-motion translator: combines one tick's key state with the
//! contact state the detectors just wrote, and decides which velocity
//! command and one-shot jump impulse the physics body receives.

use vstd::prelude::*;
use crate::geometry::Vec2i;
use crate::state::{ControllerState, WallContact, WallSide};

verus! {

/// Horizontal speed assigned while a move key is held, in world units
/// per second.
pub const MOVE_SPEED: i32 = 200;

/// Downward speed forced while pressing into a touched wall, in world
/// units per second.
pub const WALL_SLIDE_SPEED: i32 = 200;

/// Vertical component of the one-shot jump impulse.
pub const JUMP_IMPULSE_Y: i32 = 220;

/// Torque component of the one-shot jump impulse.
pub const JUMP_TORQUE: i32 = 1;

/// Discrete key state for one tick, captured once per tick from the
/// input backend: `*_pressed` fields are edge-triggered (the key went
/// down this tick), `*_held` fields are level-triggered.
#[derive(Clone, Copy, PartialEq, Eq, Debug)]
pub struct InputState {
    pub toggle_debug_pressed: bool,
    pub jump_pressed: bool,
    pub left_held: bool,
    pub right_held: bool,
}

/// What a velocity command does to the vertical component: leave the
/// physics integration's value alone, or overwrite it.
#[derive(Clone, Copy, PartialEq, Eq, Debug)]
pub enum VerticalMotion {
    Preserve,
    Assign(i32),
}

/// A full overwrite of the horizontal velocity component, together with
/// what happens to the vertical one.
#[derive(Clone, Copy, PartialEq, Eq, Debug)]
pub struct VelocityCommand {
    pub vx: i32,
    pub vy: VerticalMotion,
}

/// A one-shot impulse enqueued on the physics body.
#[derive(Clone, Copy, PartialEq, Eq, Debug)]
pub struct ImpulseCommand {
    pub x: i32,
    pub y: i32,
    pub torque: i32,
}

/// Everything the translator hands the physics body for one tick.
#[derive(Clone, Copy, PartialEq, Eq, Debug)]
pub struct MotionCommand {
    pub impulse: Option<ImpulseCommand>,
    pub velocity: Option<VelocityCommand>,
}

/// The fixed jump impulse: straight up, with a fixed torque kick.
pub open spec fn jump_impulse() -> ImpulseCommand {
    ImpulseCommand { x: 0, y: JUMP_IMPULSE_Y, torque: JUMP_TORQUE }
}

/// Whether a jump is issued this tick: the key went down and eligibility
/// is held.
pub open spec fn jump_issued(s: ControllerState, input: InputState) -> bool {
    input.jump_pressed && s.can_jump
}

/// The impulse issued this tick, if any.
pub open spec fn impulse_of(s: ControllerState, input: InputState) -> Option<ImpulseCommand> {
    if jump_issued(s, input) {
        Some(jump_impulse())
    } else {
        None
    }
}

/// Whether the tick's movement keys press into a wall that is touched on
/// the same side, which forces the downward slide component.
pub open spec fn wall_slide(input: InputState, wall: WallContact) -> bool {
    ||| input.left_held && wall == WallContact::Touching(WallSide::Left)
    ||| input.right_held && wall == WallContact::Touching(WallSide::Right)
}

/// The net velocity command for one tick. Both move rules apply in a
/// fixed order, left first, and each assignment overwrites the previous
/// one, so with both keys held the right rule's horizontal speed is the
/// one observed; a same-side wall contact under either held key forces
/// the downward slide component.
pub open spec fn velocity_of(input: InputState, wall: WallContact) -> Option<VelocityCommand> {
    if input.right_held {
        Some(VelocityCommand {
            vx: MOVE_SPEED,
            vy: if wall_slide(input, wall) {
                VerticalMotion::Assign((-WALL_SLIDE_SPEED) as i32)
            } else {
                VerticalMotion::Preserve
            },
        })
    } else if input.left_held {
        Some(VelocityCommand {
            vx: (-MOVE_SPEED) as i32,
            vy: if wall_slide(input, wall) {
                VerticalMotion::Assign((-WALL_SLIDE_SPEED) as i32)
            } else {
                VerticalMotion::Preserve
            },
        })
    } else {
        None
    }
}

/// The full motion decision for one tick.
pub open spec fn motion_of(s: ControllerState, input: InputState) -> MotionCommand {
    MotionCommand { impulse: impulse_of(s, input), velocity: velocity_of(input, s.wall) }
}

/// The store after the translator: issuing a jump consumes eligibility,
/// the toggle key flips the overlay flag, and nothing else is touched.
pub open spec fn input_next(s: ControllerState, input: InputState) -> ControllerState {
    ControllerState {
        can_jump: s.can_jump && !input.jump_pressed,
        debug_enabled: if input.toggle_debug_pressed {
            !s.debug_enabled
        } else {
            s.debug_enabled
        },
        ..s
    }
}

/// One run of the translator, once per tick after both detectors.
pub fn input_tick(state: &mut ControllerState, input: InputState) -> (cmd: MotionCommand)
    ensures
        *final(state) == input_next(*old(state), input),
        cmd == motion_of(*old(state), input),
        cmd.impulse is Some <==> input.jump_pressed && old(state).can_jump,
        input.jump_pressed ==> !final(state).can_jump,
        !input.jump_pressed ==> final(state).can_jump == old(state).can_jump,
        final(state).grounded == old(state).grounded,
        final(state).in_floor == old(state).in_floor,
        final(state).wall == old(state).wall,
{
    if input.toggle_debug_pressed {
        state.debug_enabled = !state.debug_enabled;
    }

    let impulse: Option<ImpulseCommand> = if input.jump_pressed && state.can_jump {
        state.can_jump = false;
        Some(ImpulseCommand { x: 0, y: JUMP_IMPULSE_Y, torque: JUMP_TORQUE })
    } else {
        None
    };

    let touching_left: bool = match state.wall {
        WallContact::Touching(WallSide::Left) => true,
        _ => false,
    };
    let touching_right: bool = match state.wall {
        WallContact::Touching(WallSide::Right) => true,
        _ => false,
    };
    let slide: bool = (input.left_held && touching_left) || (input.right_held && touching_right);
    let vy: VerticalMotion = if slide {
        VerticalMotion::Assign(-WALL_SLIDE_SPEED)
    } else {
        VerticalMotion::Preserve
    };
    let velocity: Option<VelocityCommand> = if input.right_held {
        Some(VelocityCommand { vx: MOVE_SPEED, vy })
    } else if input.left_held {
        Some(VelocityCommand { vx: -MOVE_SPEED, vy })
    } else {
        None
    };

    MotionCommand { impulse, velocity }
}

/// The effect of a velocity command on a velocity vector: the horizontal
/// component is overwritten; the vertical one is preserved or assigned.
pub open spec fn apply_velocity_spec(cmd: Option<VelocityCommand>, v: Vec2i) -> Vec2i {
    match cmd {
        None => v,
        Some(c) => Vec2i {
            x: c.vx,
            y: match c.vy {
                VerticalMotion::Preserve => v.y,
                VerticalMotion::Assign(vy) => vy,
            },
        },
    }
}

/// Applies a velocity command to a velocity vector.
pub fn apply_velocity(cmd: &Option<VelocityCommand>, v: Vec2i) -> (r: Vec2i)
    ensures
        r == apply_velocity_spec(*cmd, v),
{
    match cmd {
        None => v,
        Some(c) => Vec2i {
            x: c.vx,
            y: match c.vy {
                VerticalMotion::Preserve => v.y,
                VerticalMotion::Assign(vy) => vy,
            },
        },
    }
}

/// One directional move rule by itself: how holding one key updates the
/// velocity, including the same-side wall override.
pub open spec fn directional_step(held: bool, side: WallSide, wall: WallContact, v: Vec2i) -> Vec2i {
    if held {
        let vx: i32 = if side is Right {
            MOVE_SPEED
        } else {
            (-MOVE_SPEED) as i32
        };
        if wall == WallContact::Touching(side) {
            Vec2i { x: vx, y: (-WALL_SLIDE_SPEED) as i32 }
        } else {
            Vec2i { x: vx, y: v.y }
        }
    } else {
        v
    }
}

/// Last-assignment-wins law: the net velocity command of a tick has
/// exactly the effect of applying the left move rule and then the right
/// move rule in order, so with both keys held the right assignment is
/// the one observed, and a vertical component the first rule assigned
/// survives into the second rule's "preserve".
pub proof fn lemma_last_assignment_wins(input: InputState, wall: WallContact, v: Vec2i)
    ensures
        apply_velocity_spec(velocity_of(input, wall), v) == directional_step(
            input.right_held,
            WallSide::Right,
            wall,
            directional_step(input.left_held, WallSide::Left, wall, v),
        ),
{
}

/// Movement-override law, left: with move-left held (and move-right
/// not), the tick's command lands the body at exactly (-200, -200) when
/// the left wall is touched, and at (-200, unchanged vertical) for every
/// other wall state and every previous velocity.
pub proof fn lemma_move_left_override(s: ControllerState, input: InputState, v: Vec2i)
    requires
        input.left_held,
        !input.right_held,
    ensures
        s.wall == WallContact::Touching(WallSide::Left) ==> apply_velocity_spec(
            motion_of(s, input).velocity,
            v,
        ) == (Vec2i { x: (-MOVE_SPEED) as i32, y: (-WALL_SLIDE_SPEED) as i32 }),
        s.wall != WallContact::Touching(WallSide::Left) ==> apply_velocity_spec(
            motion_of(s, input).velocity,
            v,
        ) == (Vec2i { x: (-MOVE_SPEED) as i32, y: v.y }),
{
}

/// Movement-override law, right: symmetric to the left one, with +200
/// and the right wall.
pub proof fn lemma_move_right_override(s: ControllerState, input: InputState, v: Vec2i)
    requires
        input.right_held,
        !input.left_held,
    ensures
        s.wall == WallContact::Touching(WallSide::Right) ==> apply_velocity_spec(
            motion_of(s, input).velocity,
            v,
        ) == (Vec2i { x: MOVE_SPEED, y: (-WALL_SLIDE_SPEED) as i32 }),
        s.wall != WallContact::Touching(WallSide::Right) ==> apply_velocity_spec(
            motion_of(s, input).velocity,
            v,
        ) == (Vec2i { x: MOVE_SPEED, y: v.y }),
{
}

/// Jump-consumption law: a jump press while eligible issues exactly one
/// impulse and consumes eligibility at once, so any further press before
/// a new ground contact issues none, however long the key stays down.
pub proof fn lemma_jump_consumed(s: ControllerState, first: InputState, second: InputState)
    requires
        s.can_jump,
        first.jump_pressed,
    ensures
        motion_of(s, first).impulse == Some(jump_impulse()),
        !input_next(s, first).can_jump,
        motion_of(input_next(s, first), second).impulse is None,
{
}

} // verus!
