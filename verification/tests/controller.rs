use platformer_control::ground::GroundTransition;
use platformer_control::motion::{
    apply_velocity, input_tick, ImpulseCommand, InputState, MotionCommand, VelocityCommand,
    VerticalMotion,
};
use platformer_control::state::{ControllerState, WallContact, WallSide};
use platformer_control::tick::{controller_tick, ProbeHits, TickOutput};
use platformer_control::geometry::Vec2i;

fn no_input() -> InputState {
    InputState {
        toggle_debug_pressed: false,
        jump_pressed: false,
        left_held: false,
        right_held: false,
    }
}

fn no_hits() -> ProbeHits {
    ProbeHits {
        ground: false,
        wall_right: false,
        wall_left: false,
    }
}

fn grounded_state() -> ControllerState {
    let mut s = ControllerState::new();
    let hits = ProbeHits {
        ground: true,
        wall_right: false,
        wall_left: false,
    };
    controller_tick(&mut s, hits, no_input());
    s
}

#[test]
fn initial_state_is_inert() {
    let s = ControllerState::new();
    assert!(!s.grounded);
    assert!(!s.in_floor);
    assert!(!s.can_jump);
    assert_eq!(s.wall, WallContact::NoContact);
    assert!(!s.debug_enabled);
}

#[test]
fn ground_hit_enters_floor_and_grants_jump() {
    let mut s = ControllerState::new();
    let hits = ProbeHits {
        ground: true,
        wall_right: false,
        wall_left: false,
    };
    let out: TickOutput = controller_tick(&mut s, hits, no_input());
    assert_eq!(out.transition, GroundTransition::EnteredFloor);
    assert!(s.grounded);
    assert!(s.can_jump);
}

#[test]
fn ground_miss_leaves_floor_and_revokes_jump() {
    let mut s = grounded_state();
    assert!(s.grounded && s.can_jump);
    let out = controller_tick(&mut s, no_hits(), no_input());
    assert_eq!(out.transition, GroundTransition::LeftFloor);
    assert!(!s.grounded);
    assert!(!s.can_jump);
}

#[test]
fn repeated_ground_result_reports_no_edge() {
    let mut s = ControllerState::new();
    let hit = ProbeHits {
        ground: true,
        wall_right: false,
        wall_left: false,
    };
    let first = controller_tick(&mut s, hit, no_input());
    assert_eq!(first.transition, GroundTransition::EnteredFloor);
    let after_first = s;
    let second = controller_tick(&mut s, hit, no_input());
    assert_eq!(second.transition, GroundTransition::NoChange);
    assert_eq!(s, after_first);

    let mut airborne = ControllerState::new();
    let out = controller_tick(&mut airborne, no_hits(), no_input());
    assert_eq!(out.transition, GroundTransition::NoChange);
    assert_eq!(airborne, ControllerState::new());
}

#[test]
fn wall_tiebreak_prefers_right() {
    let mut s = ControllerState::new();
    let both = ProbeHits {
        ground: false,
        wall_right: true,
        wall_left: true,
    };
    controller_tick(&mut s, both, no_input());
    assert_eq!(s.wall, WallContact::Touching(WallSide::Right));
    assert!(s.wall.touching());
    assert_eq!(s.wall.side(), Some(WallSide::Right));
}

#[test]
fn wall_contact_replaced_whole_each_tick() {
    let mut s = ControllerState::new();
    let left_only = ProbeHits {
        ground: false,
        wall_right: false,
        wall_left: true,
    };
    controller_tick(&mut s, left_only, no_input());
    assert_eq!(s.wall, WallContact::Touching(WallSide::Left));
    controller_tick(&mut s, no_hits(), no_input());
    assert_eq!(s.wall, WallContact::NoContact);
}

#[test]
fn wall_side_reported_iff_touching() {
    let values = [
        WallContact::NoContact,
        WallContact::Touching(WallSide::Left),
        WallContact::Touching(WallSide::Right),
    ];
    for w in values {
        assert_eq!(w.side().is_some(), w.touching());
    }
}

#[test]
fn jump_consumed_once_while_key_held() {
    let mut s = grounded_state();
    let jump = InputState {
        jump_pressed: true,
        ..no_input()
    };
    let first: MotionCommand = input_tick(&mut s, jump);
    assert_eq!(
        first.impulse,
        Some(ImpulseCommand {
            x: 0,
            y: 220,
            torque: 1
        })
    );
    assert!(!s.can_jump);
    let second = input_tick(&mut s, jump);
    assert_eq!(second.impulse, None);
    assert!(!s.can_jump);
}

#[test]
fn jump_ignored_when_ineligible() {
    let mut s = ControllerState::new();
    let jump = InputState {
        jump_pressed: true,
        ..no_input()
    };
    let cmd = input_tick(&mut s, jump);
    assert_eq!(cmd.impulse, None);
}

#[test]
fn jump_scenario_from_rest() {
    // Grounded and at rest; the jump key goes down.
    let mut s = grounded_state();
    assert!(s.can_jump);
    let hits = ProbeHits {
        ground: true,
        wall_right: false,
        wall_left: false,
    };
    let jump = InputState {
        jump_pressed: true,
        ..no_input()
    };
    let out = controller_tick(&mut s, hits, jump);
    assert_eq!(
        out.motion.impulse,
        Some(ImpulseCommand {
            x: 0,
            y: 220,
            torque: 1
        })
    );
    assert_eq!(out.motion.velocity, None);
    assert!(!s.can_jump);
}

#[test]
fn leaving_ground_logs_exactly_once() {
    let mut s = grounded_state();
    let mut transitions = Vec::new();
    for _ in 0..3 {
        let out = controller_tick(&mut s, no_hits(), no_input());
        transitions.push(out.transition);
        assert!(!s.grounded);
        assert!(!s.can_jump);
    }
    assert_eq!(
        transitions,
        vec![
            GroundTransition::LeftFloor,
            GroundTransition::NoChange,
            GroundTransition::NoChange
        ]
    );
}

#[test]
fn move_left_against_left_wall_forces_slide() {
    let mut s = ControllerState::new();
    s.wall = WallContact::Touching(WallSide::Left);
    let left = InputState {
        left_held: true,
        ..no_input()
    };
    let cmd = input_tick(&mut s, left);
    assert_eq!(
        cmd.velocity,
        Some(VelocityCommand {
            vx: -200,
            vy: VerticalMotion::Assign(-200)
        })
    );
    let v = apply_velocity(&cmd.velocity, Vec2i { x: 0, y: 37 });
    assert_eq!(v, Vec2i { x: -200, y: -200 });
}

#[test]
fn move_left_without_wall_preserves_vertical() {
    let mut s = ControllerState::new();
    let left = InputState {
        left_held: true,
        ..no_input()
    };
    let cmd = input_tick(&mut s, left);
    assert_eq!(
        cmd.velocity,
        Some(VelocityCommand {
            vx: -200,
            vy: VerticalMotion::Preserve
        })
    );
    let v = apply_velocity(&cmd.velocity, Vec2i { x: 5, y: 37 });
    assert_eq!(v, Vec2i { x: -200, y: 37 });
}

#[test]
fn move_right_against_right_wall_forces_slide() {
    let mut s = ControllerState::new();
    s.wall = WallContact::Touching(WallSide::Right);
    let right = InputState {
        right_held: true,
        ..no_input()
    };
    let cmd = input_tick(&mut s, right);
    assert_eq!(
        cmd.velocity,
        Some(VelocityCommand {
            vx: 200,
            vy: VerticalMotion::Assign(-200)
        })
    );
}

#[test]
fn move_right_without_wall_preserves_vertical() {
    let mut s = ControllerState::new();
    let right = InputState {
        right_held: true,
        ..no_input()
    };
    let cmd = input_tick(&mut s, right);
    let v = apply_velocity(&cmd.velocity, Vec2i { x: -80, y: 12 });
    assert_eq!(v, Vec2i { x: 200, y: 12 });
}

#[test]
fn right_wall_slide_persists_each_tick() {
    // Against the right wall, holding move-right: every tick while the
    // contact persists the resulting velocity is (200, -200).
    let mut s = grounded_state();
    let hits = ProbeHits {
        ground: true,
        wall_right: true,
        wall_left: false,
    };
    let right = InputState {
        right_held: true,
        ..no_input()
    };
    let mut v = Vec2i { x: 0, y: 55 };
    for _ in 0..5 {
        let out = controller_tick(&mut s, hits, right);
        v = apply_velocity(&out.motion.velocity, v);
        assert_eq!(v, Vec2i { x: 200, y: -200 });
    }
}

#[test]
fn opposite_keys_right_assignment_wins() {
    let mut s = ControllerState::new();
    let both = InputState {
        left_held: true,
        right_held: true,
        ..no_input()
    };
    let cmd = input_tick(&mut s, both);
    let v = apply_velocity(&cmd.velocity, Vec2i { x: 0, y: 91 });
    assert_eq!(v, Vec2i { x: 200, y: 91 });
}

#[test]
fn opposite_keys_keep_first_rules_slide_component() {
    // Both keys held while touching the left wall: the left rule assigns
    // (-200, -200) first, then the right rule overwrites the horizontal
    // component and preserves the vertical one the left rule just set.
    let mut s = ControllerState::new();
    s.wall = WallContact::Touching(WallSide::Left);
    let both = InputState {
        left_held: true,
        right_held: true,
        ..no_input()
    };
    let cmd = input_tick(&mut s, both);
    let v = apply_velocity(&cmd.velocity, Vec2i { x: 0, y: 91 });
    assert_eq!(v, Vec2i { x: 200, y: -200 });
}

#[test]
fn no_keys_issue_no_motion() {
    let mut s = grounded_state();
    let out = controller_tick(
        &mut s,
        ProbeHits {
            ground: true,
            wall_right: false,
            wall_left: false,
        },
        no_input(),
    );
    assert_eq!(out.motion.impulse, None);
    assert_eq!(out.motion.velocity, None);
}

#[test]
fn debug_toggle_flips_overlay_flag_only() {
    let mut s = ControllerState::new();
    let toggle = InputState {
        toggle_debug_pressed: true,
        ..no_input()
    };
    let cmd = input_tick(&mut s, toggle);
    assert!(s.debug_enabled);
    assert_eq!(cmd.impulse, None);
    assert_eq!(cmd.velocity, None);
    input_tick(&mut s, no_input());
    assert!(s.debug_enabled);
    input_tick(&mut s, toggle);
    assert!(!s.debug_enabled);
}
