//! End-to-end fixed-step scenarios over whole simulated sessions.

use sisyphus_core::fatigue::{Fatigue, FATIGUE_MAX, HURT_THRESHOLD};
use sisyphus_core::geom::Vec2;
use sisyphus_core::machine::{Machine, HURT_TORQUE};
use sisyphus_core::state::{BodyMode, Facing, PlayerInputEvent, PlayerState};
use sisyphus_core::world::{Boulder, PhysicsFeedback, Player, World, PLAYER_SPAWN_X};

fn grounded_feedback() -> PhysicsFeedback {
    PhysicsFeedback {
        grounded: true,
        desired: Vec2 { x: 0, y: 0 },
        effective: Vec2 { x: 0, y: 0 },
    }
}

/// A second of rest: an idle, rested player away from the boulder stays
/// idle and rested through sixty fixed steps.
#[test]
fn an_idle_second_leaves_fatigue_and_state_untouched() {
    let mut world = World::new();
    world.spawn_player();
    world.spawn_boulder();
    world.confirm_textures();
    world.set_player_position(Vec2 { x: 500_000_000, y: 0 });
    for _ in 0..60 {
        let intent = world.fixed_step(&Vec::new(), &grounded_feedback(), 16_666);
        assert!(intent.is_some());
        assert_eq!(world.machine.current, PlayerState::Idle);
        assert_eq!(world.player.unwrap().fatigue, Fatigue(0));
    }
}

/// Twenty seconds of sustained pushing at fine steps: fatigue climbs at
/// the gain rate, stays within its bounds, reaches the hurt threshold
/// before the twenty seconds are out, and the step after the crossing is
/// decided as `Hurt`, with the destabilizing torque, while contact
/// still holds. The hurt interruption stops the climb at the threshold,
/// so the clamp at the top of the range is never needed at this step
/// size.
#[test]
fn sustained_pushing_reaches_the_hurt_threshold_in_time() {
    let mut world = World::new();
    world.spawn_player();
    world.spawn_boulder();
    world.confirm_textures();
    let events = vec![PlayerInputEvent::MoveRight];
    let dt: u32 = 10_000;
    let mut hurt_step: Option<u64> = None;
    for step in 1u64..=2_000 {
        let intent = world.fixed_step(&events, &grounded_feedback(), dt).unwrap();
        let fatigue = world.player.unwrap().fatigue.0;
        assert!(fatigue <= FATIGUE_MAX);
        if world.machine.current == PlayerState::Hurt && hurt_step.is_none() {
            hurt_step = Some(step);
            assert_eq!(intent.torque, HURT_TORQUE);
        }
        if step <= 1_980 {
            assert_eq!(world.machine.current, PlayerState::Push);
            assert_eq!(fatigue, step * 50_000);
            assert_eq!(intent.torque, 0);
        }
    }
    // Fatigue first reached the threshold at t = 19.8 s; the very next
    // step was decided as Hurt, at t = 19.81 s, within the twenty
    // seconds.
    assert_eq!(hurt_step, Some(1_981));
    assert!(hurt_step.unwrap() * (dt as u64) <= 20_000_000);
}

/// Twenty seconds of pushing taken in one coarse step: fatigue reaches
/// the top of its range, clamped, at exactly twenty seconds, and the
/// following step is decided as `Hurt` while contact still holds.
#[test]
fn a_full_push_of_twenty_seconds_clamps_fatigue_at_the_top() {
    let mut world = World::new();
    world.spawn_player();
    world.spawn_boulder();
    world.confirm_textures();
    let events = vec![PlayerInputEvent::MoveRight];
    let _ = world.fixed_step(&events, &grounded_feedback(), 20_000_000);
    assert_eq!(world.machine.current, PlayerState::Push);
    assert_eq!(world.player.unwrap().fatigue, Fatigue(FATIGUE_MAX));
    let intent = world.fixed_step(&events, &grounded_feedback(), 10_000).unwrap();
    assert_eq!(world.machine.current, PlayerState::Hurt);
    assert_eq!(intent.torque, HURT_TORQUE);
}

/// Airborne at hurt-level fatigue with movement held: the grounded check
/// precedes both the hurt check and the walk request, so the step is
/// decided as `Fall`.
#[test]
fn airborne_wins_over_hurt_and_walk() {
    let mut world = World {
        textures_loaded: true,
        machine: Machine { current: PlayerState::Push, pending: None },
        player: Some(Player {
            position: Vec2 { x: PLAYER_SPAWN_X, y: 0 },
            facing: Facing::Right,
            fatigue: Fatigue(HURT_THRESHOLD),
            rotation_urad: 0,
        }),
        boulder: Some(Boulder { position: Vec2 { x: 0, y: 0 }, mode: BodyMode::Dynamic }),
        distance: 0,
    };
    let airborne = PhysicsFeedback {
        grounded: false,
        desired: Vec2 { x: 0, y: 0 },
        effective: Vec2 { x: 0, y: 0 },
    };
    let events = vec![PlayerInputEvent::MoveRight];
    let _ = world.fixed_step(&events, &airborne, 16_666);
    assert_eq!(world.machine.current, PlayerState::Fall);
    assert_ne!(world.machine.current, PlayerState::Hurt);
    assert_ne!(world.machine.current, PlayerState::Walk);
}
