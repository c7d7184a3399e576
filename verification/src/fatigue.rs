//! The fatigue model: a bounded scalar integrated once per fixed step as a
//! function of the locomotion state, clamped to its range at every step,
//! and the step function mapping it to a marker icon index.

use vstd::prelude::*;
use crate::state::PlayerState;

verus! {

/// One fatigue point in micro-points.
pub const FATIGUE_POINT: u64 = 1_000_000;

/// Upper bound of the fatigue range, in micro-points (100 points).
pub const FATIGUE_MAX: u64 = 100_000_000;

/// Fatigue at or above which a sustained push destabilizes the player,
/// in micro-points (99 points).
pub const HURT_THRESHOLD: u64 = 99_000_000;

/// Fatigue gained per microsecond of pushing (5 points per second).
pub const FATIGUE_GAIN_RATE: u64 = 5;

/// Fatigue recovered per microsecond while not pushing (25 points per
/// second; recovery is deliberately faster than gain).
pub const FATIGUE_DECAY_RATE: u64 = 25;

/// Push exertion of the player, in micro-points, always within
/// `[0, FATIGUE_MAX]`.
#[derive(Clone, Copy, Debug, PartialEq, Eq, Structural)]
pub struct Fatigue(pub u64);

impl Fatigue {
    /// A fatigue value is well formed when it lies within the bounded
    /// range; every constructor establishes this and every step keeps it.
    pub open spec fn wf(self) -> bool {
        self.0 <= FATIGUE_MAX
    }

    /// A fresh player starts fully rested.
    pub fn new() -> (fatigue: Fatigue)
        ensures
            fatigue.0 == 0,
            fatigue.wf(),
    {
        Fatigue(0)
    }
}

/// The fatigue value after one fixed step of `dt` microseconds spent in
/// `state`: pushing gains `FATIGUE_GAIN_RATE * dt`, anything else recovers
/// `FATIGUE_DECAY_RATE * dt`, and the result is clamped to
/// `[0, FATIGUE_MAX]`.
pub open spec fn integrate_spec(fatigue: u64, state: PlayerState, dt_us: u32) -> u64 {
    if state == PlayerState::Push {
        if fatigue + FATIGUE_GAIN_RATE * dt_us >= FATIGUE_MAX {
            FATIGUE_MAX
        } else {
            (fatigue + FATIGUE_GAIN_RATE * dt_us) as u64
        }
    } else {
        if fatigue <= FATIGUE_DECAY_RATE * dt_us {
            0
        } else {
            (fatigue - FATIGUE_DECAY_RATE * dt_us) as u64
        }
    }
}

/// Integrate fatigue over one fixed step of `dt_us` microseconds, reading
/// the locomotion state already decided for this step. The result stays
/// within `[0, FATIGUE_MAX]`, rises while pushing and falls otherwise.
pub fn integrate(fatigue: Fatigue, state: PlayerState, dt_us: u32) -> (updated: Fatigue)
    requires
        fatigue.wf(),
    ensures
        updated.0 == integrate_spec(fatigue.0, state, dt_us),
        updated.wf(),
        state == PlayerState::Push ==> updated.0 >= fatigue.0,
        state != PlayerState::Push ==> updated.0 <= fatigue.0,
{
    if matches!(state, PlayerState::Push) {
        let gained: u64 = FATIGUE_GAIN_RATE * (dt_us as u64);
        if gained >= FATIGUE_MAX || fatigue.0 >= FATIGUE_MAX - gained {
            Fatigue(FATIGUE_MAX)
        } else {
            Fatigue(fatigue.0 + gained)
        }
    } else {
        let recovered: u64 = FATIGUE_DECAY_RATE * (dt_us as u64);
        if fatigue.0 <= recovered {
            Fatigue(0)
        } else {
            Fatigue(fatigue.0 - recovered)
        }
    }
}

/// The fatigue value after a whole sequence of fixed steps, each a pair of
/// the locomotion state decided for the step and the step's duration in
/// microseconds, integrated in order.
pub open spec fn run_spec(fatigue: u64, steps: Seq<(PlayerState, u32)>) -> u64
    decreases steps.len(),
{
    if steps.len() == 0 {
        fatigue
    } else {
        run_spec(integrate_spec(fatigue, steps[0].0, steps[0].1), steps.drop_first())
    }
}

/// Fatigue bounds: for every sequence of steps and elapsed-time values,
/// fatigue remains within `[0, FATIGUE_MAX]` after each integration.
pub proof fn lemma_fatigue_bounded(fatigue: u64, steps: Seq<(PlayerState, u32)>)
    requires
        fatigue <= FATIGUE_MAX,
    ensures
        run_spec(fatigue, steps) <= FATIGUE_MAX,
    decreases steps.len(),
{
    if steps.len() > 0 {
        lemma_fatigue_bounded(integrate_spec(fatigue, steps[0].0, steps[0].1), steps.drop_first());
    }
}

/// Fatigue moves in one direction per step: a push step never decreases
/// it, and a step in any other state never increases it.
pub proof fn lemma_fatigue_monotone(fatigue: u64, state: PlayerState, dt_us: u32)
    requires
        fatigue <= FATIGUE_MAX,
    ensures
        state == PlayerState::Push ==> integrate_spec(fatigue, state, dt_us) >= fatigue,
        state != PlayerState::Push ==> integrate_spec(fatigue, state, dt_us) <= fatigue,
{
}

/// Icon index displayed by the fatigue marker for a fatigue value: a
/// monotonic step function with seven buckets over the whole range,
/// evaluated on the fatigue ceiling in whole points. The sheet holds
/// eight columns of which the fourth is unused, so index 3 is skipped.
pub open spec fn marker_icon_spec(fatigue: u64) -> usize {
    let points = (fatigue + (FATIGUE_POINT - 1)) / (FATIGUE_POINT as int);
    if points <= 15 {
        0
    } else if points <= 30 {
        1
    } else if points <= 45 {
        2
    } else if points <= 60 {
        4
    } else if points <= 75 {
        5
    } else if points <= 90 {
        6
    } else {
        7
    }
}

/// The marker icon index for a fatigue value, in `0..=7`.
pub fn marker_icon_index(fatigue: Fatigue) -> (index: usize)
    requires
        fatigue.wf(),
    ensures
        index == marker_icon_spec(fatigue.0),
        index <= 7,
{
    let points: u64 = (fatigue.0 + (FATIGUE_POINT - 1)) / FATIGUE_POINT;
    if points <= 15 {
        0
    } else if points <= 30 {
        1
    } else if points <= 45 {
        2
    } else if points <= 60 {
        4
    } else if points <= 75 {
        5
    } else if points <= 90 {
        6
    } else {
        7
    }
}

/// The marker's icon never moves backward as fatigue grows: the step
/// function from fatigue to icon index is monotonic.
pub proof fn lemma_marker_icon_monotone(lower: u64, higher: u64)
    requires
        lower <= higher,
    ensures
        marker_icon_spec(lower) <= marker_icon_spec(higher),
{
    assert((lower + (FATIGUE_POINT - 1)) / (FATIGUE_POINT as int)
        <= (higher + (FATIGUE_POINT - 1)) / (FATIGUE_POINT as int)) by (nonlinear_arith)
        requires
            lower <= higher,
    ;
}

} // verus!
