//! The fixed-step orchestrator: readiness, spawn defaults, intent
//! values, distance counting, facing, marker and slope updates.

use sisyphus_core::fatigue::Fatigue;
use sisyphus_core::geom::Vec2;
use sisyphus_core::machine::{Machine, HURT_TORQUE};
use sisyphus_core::state::{BodyMode, Facing, GameState, PlayerInputEvent, PlayerState};
use sisyphus_core::world::{
    Boulder, PhysicsFeedback, Player, StepIntent, World, MARKER_OFFSET_Y, PLAYER_SPAWN_X,
};

fn grounded_feedback() -> PhysicsFeedback {
    PhysicsFeedback {
        grounded: true,
        desired: Vec2 { x: 0, y: 0 },
        effective: Vec2 { x: 0, y: 0 },
    }
}

#[test]
fn a_step_without_player_and_boulder_is_a_silent_noop() {
    let mut world = World::new();
    let intent = world.fixed_step(&Vec::new(), &grounded_feedback(), 16_666);
    assert_eq!(intent, None);
    assert_eq!(world.machine.current, PlayerState::Setup);
    assert_eq!(world.distance, 0);

    world.spawn_player();
    let intent = world.fixed_step(&Vec::new(), &grounded_feedback(), 16_666);
    assert_eq!(intent, None);
}

#[test]
fn spawning_sets_the_documented_defaults() {
    let mut world = World::new();
    world.spawn_player();
    world.spawn_boulder();
    let player = world.player.unwrap();
    assert_eq!(player.position, Vec2 { x: PLAYER_SPAWN_X, y: 0 });
    assert_eq!(player.facing, Facing::Right);
    assert_eq!(player.fatigue, Fatigue(0));
    assert_eq!(player.rotation_urad, 0);
    let boulder = world.boulder.unwrap();
    assert_eq!(boulder.position, Vec2 { x: 0, y: 0 });
    assert_eq!(boulder.mode, BodyMode::Dynamic);
}

#[test]
fn a_step_composes_fall_and_walk_into_one_translation() {
    let mut world = World::new();
    world.spawn_player();
    world.spawn_boulder();
    world.confirm_textures();
    // Away from the boulder, so the walk request stands.
    world.set_player_position(Vec2 { x: 500_000_000, y: 0 });
    let events = vec![PlayerInputEvent::MoveRight];
    let intent = world.fixed_step(&events, &grounded_feedback(), 16_667);
    assert_eq!(
        intent,
        Some(StepIntent {
            translation: Vec2 { x: 75 * 16_667, y: -100 * 16_667 },
            torque: 0,
        })
    );
    assert_eq!(world.machine.current, PlayerState::Walk);
}

#[test]
fn the_last_queued_event_wins_the_step() {
    let mut world = World::new();
    world.spawn_player();
    world.spawn_boulder();
    world.confirm_textures();
    world.set_player_position(Vec2 { x: 500_000_000, y: 0 });
    let events = vec![
        PlayerInputEvent::MoveRight,
        PlayerInputEvent::MoveLeft,
        PlayerInputEvent::Idle,
    ];
    let intent = world.fixed_step(&events, &grounded_feedback(), 10_000).unwrap();
    assert_eq!(intent.translation.x, 0);
    assert_eq!(world.machine.current, PlayerState::Idle);

    let events = vec![PlayerInputEvent::Idle, PlayerInputEvent::MoveLeft];
    let intent = world.fixed_step(&events, &grounded_feedback(), 10_000).unwrap();
    assert_eq!(intent.translation.x, -750_000);
    assert_eq!(world.machine.current, PlayerState::Walk);
}

#[test]
fn contact_at_the_spawn_point_classifies_a_push_and_counts_distance() {
    let mut world = World::new();
    world.spawn_player();
    world.spawn_boulder();
    world.confirm_textures();
    // Spawn is 50 units from the boulder: within 64 + 24.
    let intent = world.fixed_step(&Vec::new(), &grounded_feedback(), 16_666);
    assert!(intent.is_some());
    assert_eq!(world.machine.current, PlayerState::Push);
    assert_eq!(world.distance, 1);
    let _ = world.fixed_step(&Vec::new(), &grounded_feedback(), 16_666);
    assert_eq!(world.distance, 2);
}

#[test]
fn the_distance_counter_saturates_rather_than_wraps() {
    let mut world = World::new();
    world.spawn_player();
    world.spawn_boulder();
    world.confirm_textures();
    world.distance = u64::MAX;
    let _ = world.fixed_step(&Vec::new(), &grounded_feedback(), 16_666);
    assert_eq!(world.distance, u64::MAX);
}

#[test]
fn facing_follows_the_previously_attempted_translation() {
    let mut world = World::new();
    world.spawn_player();
    world.spawn_boulder();
    world.confirm_textures();
    let feedback = PhysicsFeedback {
        grounded: true,
        desired: Vec2 { x: -1_250_025, y: -1_666_700 },
        effective: Vec2 { x: 0, y: 0 },
    };
    let _ = world.fixed_step(&Vec::new(), &feedback, 16_666);
    assert_eq!(world.player.unwrap().facing, Facing::Left);
    // A blocked attempt still counts; a zero attempt persists.
    let _ = world.fixed_step(&Vec::new(), &grounded_feedback(), 16_666);
    assert_eq!(world.player.unwrap().facing, Facing::Left);
}

#[test]
fn pause_freezes_the_boulder_and_resume_releases_it() {
    let mut world = World::new();
    world.spawn_boulder();
    assert_eq!(world.freeze_or_release_boulder(GameState::Pause), Some(BodyMode::Fixed));
    assert_eq!(world.boulder.unwrap().mode, BodyMode::Fixed);
    assert_eq!(world.freeze_or_release_boulder(GameState::InGame), Some(BodyMode::Dynamic));
    assert_eq!(world.boulder.unwrap().mode, BodyMode::Dynamic);
    let mut empty = World::new();
    assert_eq!(empty.freeze_or_release_boulder(GameState::Pause), None);
}

#[test]
fn the_fatigue_marker_tracks_the_player_with_an_offset() {
    let mut world = World::new();
    assert_eq!(world.fatigue_marker(), None);
    world.spawn_player();
    world.set_player_position(Vec2 { x: 7_000_000, y: 11_000_000 });
    let (position, icon) = world.fatigue_marker().unwrap();
    assert_eq!(position, Vec2 { x: 7_000_000, y: 11_000_000 + MARKER_OFFSET_Y });
    assert_eq!(icon, 0);
}

#[test]
fn slope_alignment_commits_only_through_the_world_player() {
    let mut world = World::new();
    world.align_to_slope(Some(1000), true);
    assert_eq!(world.player, None);
    world.spawn_player();
    world.align_to_slope(Some(1000), true);
    assert_eq!(world.player.unwrap().rotation_urad, 100);
    world.align_to_slope(Some(2000), false);
    assert_eq!(world.player.unwrap().rotation_urad, 100);
    world.align_to_slope(None, true);
    assert_eq!(world.player.unwrap().rotation_urad, 100);
}

#[test]
fn the_world_selector_reads_the_current_state_and_feedback() {
    let world = World {
        textures_loaded: true,
        machine: Machine { current: PlayerState::Push, pending: None },
        player: None,
        boulder: None,
        distance: 0,
    };
    let feedback = PhysicsFeedback {
        grounded: true,
        desired: Vec2 { x: 1_250_025, y: -1_666_700 },
        effective: Vec2 { x: 0, y: 0 },
    };
    let selection = world.select_player_sheet(&feedback).unwrap();
    assert_eq!(format!("{:?}", selection.sheet), "Push");
    assert_eq!(selection.frames.first, 0);
    assert_eq!(selection.frames.last, 9);
}

#[test]
fn the_hurt_step_writes_the_destabilizing_torque() {
    let mut world = World {
        textures_loaded: true,
        machine: Machine { current: PlayerState::Push, pending: None },
        player: Some(Player {
            position: Vec2 { x: PLAYER_SPAWN_X, y: 0 },
            facing: Facing::Right,
            fatigue: Fatigue(99_000_000),
            rotation_urad: 0,
        }),
        boulder: Some(Boulder { position: Vec2 { x: 0, y: 0 }, mode: BodyMode::Dynamic }),
        distance: 0,
    };
    let intent = world.fixed_step(&Vec::new(), &grounded_feedback(), 10_000).unwrap();
    assert_eq!(intent.torque, HURT_TORQUE);
    assert_eq!(world.machine.current, PlayerState::Hurt);
}
