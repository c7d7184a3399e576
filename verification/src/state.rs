//! The enums of the simulation: locomotion states, facing, input events,
//! session states and rigid-body modes, with the small decision functions
//! that map one to another.

use vstd::prelude::*;

verus! {

/// Locomotion state of the player. `Setup` is the unique initial state,
/// held until the player's texture assets are confirmed loaded; the
/// machine then free-runs among the remaining states.
#[derive(Clone, Copy, Debug, PartialEq, Eq, Structural)]
pub enum PlayerState {
    Setup,
    Idle,
    Walk,
    Push,
    Hurt,
    Fall,
}

/// Which way the player faces. Derived each step from the sign of the
/// attempted horizontal translation; persists when that sign is zero.
#[derive(Clone, Copy, Debug, PartialEq, Eq, Structural)]
pub enum Facing {
    Left,
    Right,
}

/// A discrete movement intent, produced from raw keyboard state once per
/// frame (a held key repeats its event every frame).
#[derive(Clone, Copy, Debug, PartialEq, Eq, Structural)]
pub enum PlayerInputEvent {
    MoveLeft,
    MoveRight,
    Idle,
}

/// Session state of the whole game.
#[derive(Clone, Copy, Debug, PartialEq, Eq, Structural)]
pub enum GameState {
    Startup,
    MainMenu,
    InGame,
    Pause,
    GiveUp,
    Cleanup,
}

/// Rigid-body mode requested of the physics engine for the boulder.
#[derive(Clone, Copy, Debug, PartialEq, Eq, Structural)]
pub enum BodyMode {
    Fixed,
    Dynamic,
}

/// The facing that results from attempting a horizontal translation of
/// `dx`: its sign wins, and a zero keeps the previous facing.
pub open spec fn facing_after_spec(previous: Facing, dx: i64) -> Facing {
    if dx > 0 {
        Facing::Right
    } else if dx < 0 {
        Facing::Left
    } else {
        previous
    }
}

/// Update the facing from the sign of the attempted horizontal
/// translation; a zero translation keeps the previous facing.
pub fn facing_after(previous: Facing, dx: i64) -> (facing: Facing)
    ensures
        facing == facing_after_spec(previous, dx),
{
    if dx > 0 {
        Facing::Right
    } else if dx < 0 {
        Facing::Left
    } else {
        previous
    }
}

/// Facing persistence: a step with zero attempted horizontal translation
/// leaves the facing exactly as it was, whatever it was.
pub proof fn lemma_facing_persists(previous: Facing)
    ensures
        facing_after_spec(previous, 0) == previous,
{
}

/// Whether the sprite is drawn mirrored: the sheets face right, so a
/// left-facing player flips the sprite on its vertical axis.
pub fn sprite_flipped(facing: Facing) -> (flipped: bool)
    ensures
        flipped == (facing == Facing::Left),
{
    match facing {
        Facing::Left => true,
        Facing::Right => false,
    }
}

/// Rigid-body mode the boulder should have in a session state: it rolls
/// freely only while gameplay is active, and is frozen in place whenever
/// the session leaves active play (pause, menus, cleanup).
pub fn boulder_body_mode(game: GameState) -> (mode: BodyMode)
    ensures
        mode == (if game == GameState::InGame {
            BodyMode::Dynamic
        } else {
            BodyMode::Fixed
        }),
{
    match game {
        GameState::InGame => BodyMode::Dynamic,
        _ => BodyMode::Fixed,
    }
}

/// Session state after the pause key is pressed: active play and pause
/// toggle into each other, and every other session state ignores the key.
pub fn after_pause_key(current: GameState) -> (next: GameState)
    ensures
        current == GameState::InGame ==> next == GameState::Pause,
        current == GameState::Pause ==> next == GameState::InGame,
        current != GameState::InGame && current != GameState::Pause ==> next == current,
{
    match current {
        GameState::InGame => GameState::Pause,
        GameState::Pause => GameState::InGame,
        other => other,
    }
}

} // verus!
