//! Boundary behaviour of the circle-versus-box contact classifier.

use sisyphus_core::geom::{circle_box_contact, Vec2};

const RADIUS: i64 = 64_000_000;
const HALF: i64 = 24_000_000;

fn at(x: i64, y: i64) -> Vec2 {
    Vec2 { x, y }
}

#[test]
fn contact_when_center_exactly_on_box_edge() {
    // The box spans x in [0, 48]: the circle's center sits on its left edge.
    assert!(circle_box_contact(at(0, 0), RADIUS, at(HALF, 0), HALF, HALF));
}

#[test]
fn contact_at_exactly_the_radius_along_an_axis() {
    // Nearest box point is at distance exactly 64 units.
    assert!(circle_box_contact(at(0, 0), RADIUS, at(HALF + RADIUS, 0), HALF, HALF));
}

#[test]
fn no_contact_just_past_the_radius_along_an_axis() {
    // One micro-unit farther and the contact is gone.
    assert!(!circle_box_contact(at(0, 0), RADIUS, at(HALF + RADIUS + 1, 0), HALF, HALF));
}

#[test]
fn contact_just_inside_the_radius_at_a_corner() {
    // The nearest corner lies at (d, d) with 2 * d * d just below the
    // squared radius.
    let d: i64 = 45_254_833;
    assert!(circle_box_contact(at(0, 0), RADIUS, at(HALF + d, HALF + d), HALF, HALF));
}

#[test]
fn no_contact_just_outside_the_radius_at_a_corner() {
    // One micro-unit farther out diagonally and the corner leaves the circle.
    let d: i64 = 45_254_834;
    assert!(!circle_box_contact(at(0, 0), RADIUS, at(HALF + d, HALF + d), HALF, HALF));
}

#[test]
fn contact_when_center_is_inside_the_box() {
    // A center inside the box clamps to itself: contact at any radius.
    assert!(circle_box_contact(at(10_000_000, -5_000_000), 0, at(0, 0), HALF, HALF));
}
