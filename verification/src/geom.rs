//! Fixed-point plane geometry: the vector type carried between the core
//! and the physics engine, and the circle-versus-box contact test that
//! classifies pushing.

use vstd::prelude::*;

verus! {

/// Largest magnitude, in micro-units, that a coordinate handled by the
/// geometric tests may have (one million world units). Keeps every
/// squared distance well inside `i128`.
pub const COORD_LIMIT: i64 = 1_000_000_000_000;

/// A plane vector in micro-units (millionths of a world unit).
#[derive(Clone, Copy, Debug, PartialEq, Eq, Structural)]
pub struct Vec2 {
    pub x: i64,
    pub y: i64,
}

impl Vec2 {
    /// The zero vector.
    pub fn zero() -> (v: Vec2)
        ensures
            v == (Vec2 { x: 0, y: 0 }),
    {
        Vec2 { x: 0, y: 0 }
    }

    /// Both coordinates lie within the handled range.
    pub open spec fn in_range(self) -> bool {
        -COORD_LIMIT <= self.x <= COORD_LIMIT && -COORD_LIMIT <= self.y <= COORD_LIMIT
    }
}

/// `value` clamped to the closed interval `[low, high]`.
pub open spec fn clamp_spec(value: int, low: int, high: int) -> int {
    if value < low {
        low
    } else if value > high {
        high
    } else {
        value
    }
}

/// Whether a circle of radius `radius` centered at `center` intersects the
/// axis-aligned box centered at `box_center` with half-extents
/// `(half_x, half_y)`: the closest point of the box to the circle's
/// center, found by clamping each coordinate to the box, lies within
/// `radius` of it.
pub open spec fn circle_box_contact_spec(
    center: Vec2,
    radius: int,
    box_center: Vec2,
    half_x: int,
    half_y: int,
) -> bool {
    let nearest_x = clamp_spec(center.x as int, box_center.x - half_x, box_center.x + half_x);
    let nearest_y = clamp_spec(center.y as int, box_center.y - half_y, box_center.y + half_y);
    let dx = center.x - nearest_x;
    let dy = center.y - nearest_y;
    dx * dx + dy * dy <= radius * radius
}

/// `value` clamped to `[low, high]`.
pub fn clamp(value: i64, low: i64, high: i64) -> (clamped: i64)
    requires
        low <= high,
    ensures
        clamped == clamp_spec(value as int, low as int, high as int),
{
    if value < low {
        low
    } else if value > high {
        high
    } else {
        value
    }
}

/// Test whether a circle intersects an axis-aligned box by clamping the
/// circle's center to the box and comparing the squared distance to the
/// squared radius. Glancing contacts at corners are classified exactly;
/// no box-of-the-circle approximation is involved.
pub fn circle_box_contact(
    center: Vec2,
    radius: i64,
    box_center: Vec2,
    half_x: i64,
    half_y: i64,
) -> (contact: bool)
    requires
        center.in_range(),
        box_center.in_range(),
        0 <= radius <= COORD_LIMIT,
        0 <= half_x <= COORD_LIMIT,
        0 <= half_y <= COORD_LIMIT,
    ensures
        contact == circle_box_contact_spec(
            center,
            radius as int,
            box_center,
            half_x as int,
            half_y as int,
        ),
{
    let low_x: i64 = box_center.x - half_x;
    let high_x: i64 = box_center.x + half_x;
    let low_y: i64 = box_center.y - half_y;
    let high_y: i64 = box_center.y + half_y;
    let nearest_x: i64 = clamp(center.x, low_x, high_x);
    let nearest_y: i64 = clamp(center.y, low_y, high_y);
    let dx: i128 = (center.x as i128) - (nearest_x as i128);
    let dy: i128 = (center.y as i128) - (nearest_y as i128);
    proof {
        assert(-(4 * COORD_LIMIT as int * COORD_LIMIT) <= dx * dx
            <= 4 * COORD_LIMIT as int * COORD_LIMIT) by (nonlinear_arith)
            requires
                -(2 * COORD_LIMIT as int) <= dx <= 2 * COORD_LIMIT as int,
        ;
        assert(-(4 * COORD_LIMIT as int * COORD_LIMIT) <= dy * dy
            <= 4 * COORD_LIMIT as int * COORD_LIMIT) by (nonlinear_arith)
            requires
                -(2 * COORD_LIMIT as int) <= dy <= 2 * COORD_LIMIT as int,
        ;
        assert(0 <= (radius as int) * (radius as int)
            <= COORD_LIMIT as int * COORD_LIMIT) by (nonlinear_arith)
            requires
                0 <= radius as int <= COORD_LIMIT as int,
        ;
    }
    let squared_distance: i128 = dx * dx + dy * dy;
    let squared_radius: i128 = (radius as i128) * (radius as i128);
    squared_distance <= squared_radius
}

} // verus!
