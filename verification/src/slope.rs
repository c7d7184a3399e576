//! Slope alignment: exponential smoothing of the player's rotation
//! toward the angle of the ground normal found by a short downward ray,
//! committed only while grounded.

use vstd::prelude::*;

verus! {

/// How far below the player the ground-probing ray reaches, in
/// micro-units (four world units).
pub const RAY_REACH: i64 = 4_000_000;

/// Denominator of the per-step blend: each grounded step closes a tenth
/// of the gap between the current rotation and the slope's angle, an
/// exponential smoothing that never overshoots.
pub const BLEND_DIVISOR: i64 = 10;

/// Largest magnitude, in microradians, accepted for a rotation angle.
/// Angles from the engine are normalized and lie well within it.
pub const ANGLE_LIMIT: i64 = 1_000_000_000;

/// One smoothing step from `current` toward `target`: the gap shrinks by
/// its tenth, rounded toward `current`, so the result never passes the
/// target.
pub open spec fn blend_spec(current: int, target: int) -> int {
    if target >= current {
        current + (target - current) / (BLEND_DIVISOR as int)
    } else {
        current - (current - target) / (BLEND_DIVISOR as int)
    }
}

/// The rotation committed for a step: a grounded player turns one blend
/// step toward the slope's angle, an airborne player holds the last
/// rotation unchanged.
pub open spec fn align_spec(current: int, target: int, grounded: bool) -> int {
    if grounded {
        blend_spec(current, target)
    } else {
        current
    }
}

/// Rotate the player toward the slope angle `target_urad` found by the
/// ground ray, by one smoothing step, only while grounded. The result
/// always lies between the current rotation and the target.
pub fn align_rotation(current_urad: i64, target_urad: i64, grounded: bool) -> (rotation: i64)
    requires
        -ANGLE_LIMIT <= current_urad <= ANGLE_LIMIT,
        -ANGLE_LIMIT <= target_urad <= ANGLE_LIMIT,
    ensures
        rotation == align_spec(current_urad as int, target_urad as int, grounded),
        current_urad <= target_urad ==> current_urad <= rotation <= target_urad,
        target_urad <= current_urad ==> target_urad <= rotation <= current_urad,
{
    proof {
        lemma_blend_between(current_urad as int, target_urad as int);
    }
    if !grounded {
        current_urad
    } else if target_urad >= current_urad {
        current_urad + (target_urad - current_urad) / BLEND_DIVISOR
    } else {
        current_urad - (current_urad - target_urad) / BLEND_DIVISOR
    }
}

/// A blend step never leaves the closed interval between the current
/// rotation and the target.
pub proof fn lemma_blend_between(current: int, target: int)
    ensures
        current <= target ==> current <= blend_spec(current, target) <= target,
        target <= current ==> target <= blend_spec(current, target) <= current,
{
    if current <= target {
        assert(0 <= (target - current) / (BLEND_DIVISOR as int) <= target - current)
            by (nonlinear_arith)
            requires
                target - current >= 0,
        ;
    } else {
        assert(0 <= (current - target) / (BLEND_DIVISOR as int) <= current - target)
            by (nonlinear_arith)
            requires
                current - target >= 0,
        ;
    }
}

} // verus!
