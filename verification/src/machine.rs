//! The player state machine: the fixed-precedence transition rules, the
//! destabilizing torque that accompanies `Hurt`, and the deferred
//! pending-state mechanism that makes a transition take effect atomically
//! at a tick boundary.

use vstd::prelude::*;
use crate::fatigue::HURT_THRESHOLD;
use crate::state::PlayerState;

verus! {

/// Torque impulse, in micro-units, applied to the player's body while the
/// hurt condition holds, destabilizing the push.
pub const HURT_TORQUE: i64 = 120_000_000;

/// The hurt condition: fatigue has reached the hurt threshold while the
/// player is in contact with the boulder.
pub open spec fn hurt_condition_spec(fatigue: u64, contact: bool) -> bool {
    fatigue >= HURT_THRESHOLD && contact
}

/// The locomotion state decided for a step, by fixed precedence:
/// unconfirmed textures hold `Setup`; an airborne report forces `Fall`;
/// the hurt condition forces `Hurt`; boulder contact overrides the queued
/// request with `Push`; otherwise the queued request stands.
pub open spec fn next_state_spec(
    textures_loaded: bool,
    grounded: bool,
    fatigue: u64,
    contact: bool,
    requested: PlayerState,
) -> PlayerState {
    if !textures_loaded {
        PlayerState::Setup
    } else if !grounded {
        PlayerState::Fall
    } else if hurt_condition_spec(fatigue, contact) {
        PlayerState::Hurt
    } else if contact {
        PlayerState::Push
    } else {
        requested
    }
}

/// Decide the locomotion state for a step from the precedence rules:
/// texture readiness first, then the grounded report, then the hurt
/// condition, then boulder contact, and only then the queued request.
pub fn next_state(
    textures_loaded: bool,
    grounded: bool,
    fatigue: u64,
    contact: bool,
    requested: PlayerState,
) -> (next: PlayerState)
    ensures
        next == next_state_spec(textures_loaded, grounded, fatigue, contact, requested),
{
    if !textures_loaded {
        PlayerState::Setup
    } else if !grounded {
        PlayerState::Fall
    } else if fatigue >= HURT_THRESHOLD && contact {
        PlayerState::Hurt
    } else if contact {
        PlayerState::Push
    } else {
        requested
    }
}

/// The torque written to the player's body for a step: the destabilizing
/// impulse while the hurt condition holds, and zero otherwise, so the
/// torque is cleared the moment the condition passes.
pub fn step_torque(fatigue: u64, contact: bool) -> (torque: i64)
    ensures
        torque == (if hurt_condition_spec(fatigue, contact) {
            HURT_TORQUE
        } else {
            0
        }),
{
    if fatigue >= HURT_THRESHOLD && contact {
        HURT_TORQUE
    } else {
        0
    }
}

/// Precedence of the grounded check: once texture assets are confirmed,
/// an airborne report decides the step as `Fall`, whatever the queued
/// input requested, whatever the contact test found and however high
/// fatigue stands. (While textures are still unconfirmed the machine
/// holds `Setup` instead, airborne or not.)
pub proof fn lemma_airborne_forces_fall(fatigue: u64, contact: bool, requested: PlayerState)
    ensures
        next_state_spec(true, false, fatigue, contact, requested) == PlayerState::Fall,
{
}

/// The authoritative current state and the transition decided during the
/// tick. Every reader within one tick sees the same `current`; the
/// pending value replaces it only at the tick boundary.
#[derive(Clone, Copy, Debug, PartialEq, Eq, Structural)]
pub struct Machine {
    pub current: PlayerState,
    pub pending: Option<PlayerState>,
}

impl Machine {
    /// A fresh machine starts in `Setup` with no transition pending.
    pub fn new() -> (machine: Machine)
        ensures
            machine.current == PlayerState::Setup,
            machine.pending is None,
    {
        Machine { current: PlayerState::Setup, pending: None }
    }

    /// Record the state decided for this tick without changing what the
    /// tick's remaining readers observe.
    pub fn set_pending(&mut self, next: PlayerState)
        ensures
            final(self).current == old(self).current,
            final(self).pending == Some(next),
    {
        self.pending = Some(next);
    }

    /// Apply the pending transition at the tick boundary; without one the
    /// current state holds.
    pub fn apply_pending(&mut self)
        ensures
            final(self).current == (match old(self).pending {
                Some(next) => next,
                None => old(self).current,
            }),
            final(self).pending is None,
    {
        match self.pending {
            Some(next) => {
                self.current = next;
            }
            None => {}
        }
        self.pending = None;
    }
}

} // verus!
