//! Resolution of queued input events into the step's horizontal intent
//! and requested locomotion state, and the constant-velocity fall model
//! that supplies the vertical intent.

use vstd::prelude::*;
use crate::state::PlayerState;
use crate::state::PlayerInputEvent;

verus! {

/// Horizontal walking speed, in micro-units per microsecond (75 world
/// units per second).
pub const WALK_SPEED: i64 = 75;

/// Magnitude of the constant descent speed, in micro-units per
/// microsecond (100 world units per second). The fall model is a bounded
/// constant-velocity descent, not acceleration under gravity: when the
/// player is grounded the engine's collision resolution clamps the
/// resulting vertical displacement to zero.
pub const FALL_SPEED: i64 = 100;

/// The horizontal displacement, in micro-units, that one input event sets
/// for a step of `dt_us` microseconds.
pub open spec fn event_dx_spec(event: PlayerInputEvent, dt_us: u32) -> int {
    match event {
        PlayerInputEvent::MoveRight => WALK_SPEED * dt_us,
        PlayerInputEvent::MoveLeft => -(WALK_SPEED * dt_us),
        PlayerInputEvent::Idle => 0,
    }
}

/// The horizontal displacement after the whole queue is consumed in
/// order: each event sets the intent, so the last event wins, and an
/// empty queue leaves it zero.
pub open spec fn queue_dx_spec(events: Seq<PlayerInputEvent>, dt_us: u32) -> int {
    if events.len() == 0 {
        0
    } else {
        event_dx_spec(events.last(), dt_us)
    }
}

/// The locomotion state the queue requests: a movement event requests
/// `Walk`, an `Idle` event requests `Idle`, the last event wins, and a
/// step without events defaults to `Idle`.
pub open spec fn queue_state_spec(events: Seq<PlayerInputEvent>) -> PlayerState {
    if events.len() == 0 {
        PlayerState::Idle
    } else {
        match events.last() {
            PlayerInputEvent::MoveRight => PlayerState::Walk,
            PlayerInputEvent::MoveLeft => PlayerState::Walk,
            PlayerInputEvent::Idle => PlayerState::Idle,
        }
    }
}

/// Consume the step's queued input events in order. Each movement event
/// sets the horizontal intent to plus or minus `WALK_SPEED * dt_us` and
/// requests `Walk`; an `Idle` event clears the intent and requests
/// `Idle`; with no movement event the state defaults to `Idle`.
pub fn resolve_input(events: &Vec<PlayerInputEvent>, dt_us: u32) -> (resolved: (i64, PlayerState))
    ensures
        resolved.0 == queue_dx_spec(events@, dt_us),
        resolved.1 == queue_state_spec(events@),
        -(WALK_SPEED * dt_us) <= resolved.0 <= WALK_SPEED * dt_us,
{
    let mut dx: i64 = 0;
    let mut requested: PlayerState = PlayerState::Idle;
    let step: i64 = WALK_SPEED * (dt_us as i64);
    let mut i: usize = 0;
    while i < events.len()
        invariant
            i <= events@.len(),
            step == WALK_SPEED * dt_us,
            dx == queue_dx_spec(events@.take(i as int), dt_us),
            requested == queue_state_spec(events@.take(i as int)),
        decreases events@.len() - i,
    {
        match events[i] {
            PlayerInputEvent::MoveRight => {
                dx = step;
                requested = PlayerState::Walk;
            }
            PlayerInputEvent::MoveLeft => {
                dx = -step;
                requested = PlayerState::Walk;
            }
            PlayerInputEvent::Idle => {
                dx = 0;
                requested = PlayerState::Idle;
            }
        }
        proof {
            assert(events@.take(i + 1).last() == events@[i as int]);
        }
        i = i + 1;
    }
    proof {
        assert(events@.take(events@.len() as int) == events@);
    }
    (dx, requested)
}

/// The step's vertical intent, in micro-units: `dt_us` microseconds of
/// descent at `FALL_SPEED`, always negative for a non-empty step and
/// independent of whether the player is airborne.
pub fn fall_dy(dt_us: u32) -> (dy: i64)
    ensures
        dy == -(FALL_SPEED * dt_us),
{
    -(FALL_SPEED * (dt_us as i64))
}

} // verus!
