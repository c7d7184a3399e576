//! Simulation core of a side-scrolling boulder-pushing platformer.
//!
//! The crate holds the decision logic that sits between raw input / physics
//! feedback and the character's state: the player locomotion state machine,
//! the fatigue model, boulder contact detection, slope alignment and the
//! animation selector. Rendering, audio, asset loading and the physics
//! engine itself are external collaborators; the library consumes their
//! outputs (grounded flag, translations, ray-hit angles) and produces
//! intents (desired translation, torque, rigid-body mode) as plain values.
//!
//! All quantities are fixed-point integers in micro-units: positions and
//! translations in millionths of a world unit, time in microseconds,
//! fatigue in millionths of a fatigue point, angles in microradians.

pub mod animation;
pub mod fatigue;
pub mod geom;
pub mod machine;
pub mod movement;
pub mod slope;
pub mod state;
pub mod world;
