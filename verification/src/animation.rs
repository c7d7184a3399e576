//! Sprite animation: the timer-driven frame cycler and the pure selector
//! that maps the finalized locomotion state and physics feedback to a
//! sprite sheet and frame range.

use vstd::prelude::*;
use crate::state::PlayerState;

verus! {

/// Interval between sprite frames, in microseconds (a tenth of a second).
pub const FRAME_PERIOD_US: u32 = 100_000;

/// Inclusive frame range of a sprite sheet.
#[derive(Clone, Copy, Debug, PartialEq, Eq, Structural)]
pub struct AnimationIndices {
    pub first: usize,
    pub last: usize,
}

/// Repeating timer that paces the frame cycler: accumulated time wraps
/// each time it reaches the period.
#[derive(Clone, Copy, Debug, PartialEq, Eq, Structural)]
pub struct AnimationTimer {
    pub period_us: u32,
    pub elapsed_us: u32,
}

impl AnimationTimer {
    /// The accumulated time never reaches the period between ticks, and
    /// the period is positive.
    pub open spec fn wf(self) -> bool {
        0 < self.period_us && self.elapsed_us < self.period_us
    }

    /// A fresh repeating timer with the given period.
    pub fn new(period_us: u32) -> (timer: AnimationTimer)
        requires
            period_us > 0,
        ensures
            timer.period_us == period_us,
            timer.elapsed_us == 0,
            timer.wf(),
    {
        AnimationTimer { period_us, elapsed_us: 0 }
    }

    /// Advance the timer by `dt_us` microseconds. Reports whether the
    /// period elapsed during this tick; the overshoot is kept, so a
    /// steady tick rate yields a steady frame rate.
    pub fn tick(&mut self, dt_us: u32) -> (finished: bool)
        requires
            old(self).wf(),
        ensures
            final(self).period_us == old(self).period_us,
            final(self).wf(),
            finished == (old(self).elapsed_us + dt_us >= old(self).period_us),
            finished ==> final(self).elapsed_us
                == (old(self).elapsed_us + dt_us) % (old(self).period_us as int),
            !finished ==> final(self).elapsed_us == old(self).elapsed_us + dt_us,
    {
        let total: u64 = (self.elapsed_us as u64) + (dt_us as u64);
        if total >= (self.period_us as u64) {
            self.elapsed_us = (total % (self.period_us as u64)) as u32;
            true
        } else {
            self.elapsed_us = total as u32;
            false
        }
    }
}

/// The frame shown after one timer period: the next frame of the range,
/// wrapping back to `first` past `last`, and recovering to `first` from
/// any index outside the range.
pub open spec fn advance_frame_spec(index: usize, frames: AnimationIndices) -> usize {
    if index >= frames.last || index < frames.first {
        frames.first
    } else {
        (index + 1) as usize
    }
}

/// Step the sprite-frame index one frame forward within `frames`,
/// wrapping within the inclusive range.
pub fn advance_frame(index: usize, frames: AnimationIndices) -> (next: usize)
    ensures
        next == advance_frame_spec(index, frames),
        frames.first <= frames.last ==> frames.first <= next <= frames.last,
{
    if index >= frames.last || index < frames.first {
        frames.first
    } else {
        index + 1
    }
}

/// The sprite sheets of the player.
#[derive(Clone, Copy, Debug, PartialEq, Eq, Structural)]
pub enum SheetId {
    Idle,
    Walk,
    Push,
    Hurt,
    Jumping,
}

/// A sheet together with the frame range to cycle over.
#[derive(Clone, Copy, Debug, PartialEq, Eq, Structural)]
pub struct SheetSelection {
    pub sheet: SheetId,
    pub frames: AnimationIndices,
}

/// The frame range of a sheet.
pub open spec fn sheet_frames_spec(sheet: SheetId) -> AnimationIndices {
    match sheet {
        SheetId::Idle => AnimationIndices { first: 0, last: 9 },
        SheetId::Walk => AnimationIndices { first: 0, last: 7 },
        SheetId::Push => AnimationIndices { first: 0, last: 9 },
        SheetId::Hurt => AnimationIndices { first: 0, last: 3 },
        SheetId::Jumping => AnimationIndices { first: 0, last: 2 },
    }
}

/// The selection for a locomotion state under the given feedback, or
/// `None` when the state keeps whatever sheet is already assigned.
/// `Hurt` and `Fall` always select their sheet; `Idle` selects only for
/// a grounded player with no horizontal intent; `Walk` and `Push` select
/// only for a grounded player with a nonzero horizontal intent; `Setup`
/// never selects.
pub open spec fn select_sheet_spec(
    state: PlayerState,
    grounded: bool,
    desired_dx: i64,
) -> Option<SheetSelection> {
    match state {
        PlayerState::Setup => None,
        PlayerState::Idle => if desired_dx == 0 && grounded {
            Some(SheetSelection { sheet: SheetId::Idle, frames: sheet_frames_spec(SheetId::Idle) })
        } else {
            None
        },
        PlayerState::Walk => if desired_dx != 0 && grounded {
            Some(SheetSelection { sheet: SheetId::Walk, frames: sheet_frames_spec(SheetId::Walk) })
        } else {
            None
        },
        PlayerState::Push => if desired_dx != 0 && grounded {
            Some(SheetSelection { sheet: SheetId::Push, frames: sheet_frames_spec(SheetId::Push) })
        } else {
            None
        },
        PlayerState::Hurt => Some(
            SheetSelection { sheet: SheetId::Hurt, frames: sheet_frames_spec(SheetId::Hurt) },
        ),
        PlayerState::Fall => Some(
            SheetSelection { sheet: SheetId::Jumping, frames: sheet_frames_spec(SheetId::Jumping) },
        ),
    }
}

/// Select the sprite sheet for the finalized locomotion state and the
/// step's feedback. The selection is level-triggered: it is re-derived
/// every frame the state holds rather than on state edges, so a
/// late-arriving asset load or a state flicker self-corrects without an
/// explicit invalidation.
pub fn select_sheet(
    state: PlayerState,
    grounded: bool,
    desired_dx: i64,
) -> (selection: Option<SheetSelection>)
    ensures
        selection == select_sheet_spec(state, grounded, desired_dx),
{
    match state {
        PlayerState::Setup => None,
        PlayerState::Idle => if desired_dx == 0 && grounded {
            Some(SheetSelection { sheet: SheetId::Idle, frames: AnimationIndices { first: 0, last: 9 } })
        } else {
            None
        },
        PlayerState::Walk => if desired_dx != 0 && grounded {
            Some(SheetSelection { sheet: SheetId::Walk, frames: AnimationIndices { first: 0, last: 7 } })
        } else {
            None
        },
        PlayerState::Push => if desired_dx != 0 && grounded {
            Some(SheetSelection { sheet: SheetId::Push, frames: AnimationIndices { first: 0, last: 9 } })
        } else {
            None
        },
        PlayerState::Hurt => Some(
            SheetSelection { sheet: SheetId::Hurt, frames: AnimationIndices { first: 0, last: 3 } },
        ),
        PlayerState::Fall => Some(
            SheetSelection { sheet: SheetId::Jumping, frames: AnimationIndices { first: 0, last: 2 } },
        ),
    }
}

/// Idempotence of selection: re-deriving the selection from unchanged
/// inputs yields the same sheet and frame range, so the level-triggered
/// re-application never drifts.
pub proof fn lemma_selection_idempotent(state: PlayerState, grounded: bool, desired_dx: i64)
    ensures
        select_sheet_spec(state, grounded, desired_dx)
            == select_sheet_spec(state, grounded, desired_dx),
{
}

/// The selection depends on the horizontal intent only through its sign:
/// two intents on the same side of zero select the same sheet.
pub proof fn lemma_selection_sign_only(
    state: PlayerState,
    grounded: bool,
    dx_a: i64,
    dx_b: i64,
)
    requires
        (dx_a == 0) == (dx_b == 0),
    ensures
        select_sheet_spec(state, grounded, dx_a) == select_sheet_spec(state, grounded, dx_b),
{
}

} // verus!
