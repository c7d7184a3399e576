//! The world: the single player, the single boulder, the distance
//! counter and the state machine, advanced by one bounded synchronous
//! pass per fixed tick. A step with a missing player or boulder is a
//! silent no-op, retried next tick, never an error.

use vstd::prelude::*;
use crate::animation::SheetSelection;
use crate::animation::select_sheet;
use crate::animation::select_sheet_spec;
use crate::fatigue::Fatigue;
use crate::fatigue::integrate;
use crate::fatigue::integrate_spec;
use crate::fatigue::marker_icon_index;
use crate::fatigue::marker_icon_spec;
use crate::geom::Vec2;
use crate::geom::circle_box_contact;
use crate::geom::circle_box_contact_spec;
use crate::machine::HURT_TORQUE;
use crate::machine::Machine;
use crate::machine::hurt_condition_spec;
use crate::machine::next_state;
use crate::machine::next_state_spec;
use crate::machine::step_torque;
use crate::movement::FALL_SPEED;
use crate::movement::fall_dy;
use crate::movement::queue_dx_spec;
use crate::movement::queue_state_spec;
use crate::movement::resolve_input;
use crate::slope::ANGLE_LIMIT;
use crate::slope::align_rotation;
use crate::slope::align_spec;
use crate::state::BodyMode;
use crate::state::Facing;
use crate::state::GameState;
use crate::state::PlayerInputEvent;
use crate::state::PlayerState;
use crate::state::boulder_body_mode;
use crate::state::facing_after;
use crate::state::facing_after_spec;

verus! {

/// Radius of the boulder's bounding circle, in micro-units (64 world
/// units).
pub const BOULDER_RADIUS: i64 = 64_000_000;

/// Half-extent, on each axis, of the player's axis-aligned contact
/// bounds, in micro-units (24 world units).
pub const PLAYER_HALF_EXTENT: i64 = 24_000_000;

/// Horizontal spawn position of the player, in micro-units.
pub const PLAYER_SPAWN_X: i64 = -50_000_000;

/// Vertical offset of the fatigue marker above the player, in
/// micro-units (32 world units).
pub const MARKER_OFFSET_Y: i64 = 32_000_000;

/// Read-only feedback from the physics engine about the previous step:
/// whether the body rests on a walkable surface, the translation that was
/// requested of the engine, and the translation that survived collision
/// resolution.
#[derive(Clone, Copy, Debug, PartialEq, Eq, Structural)]
pub struct PhysicsFeedback {
    pub grounded: bool,
    pub desired: Vec2,
    pub effective: Vec2,
}

/// What a step asks of the physics engine: the desired translation for
/// the player's body, and the torque written to it.
#[derive(Clone, Copy, Debug, PartialEq, Eq, Structural)]
pub struct StepIntent {
    pub translation: Vec2,
    pub torque: i64,
}

/// The controlled character: its last known position, persisted facing,
/// bounded fatigue, and committed rotation.
#[derive(Clone, Copy, Debug, PartialEq, Eq, Structural)]
pub struct Player {
    pub position: Vec2,
    pub facing: Facing,
    pub fatigue: Fatigue,
    pub rotation_urad: i64,
}

impl Player {
    /// Position within the handled range, fatigue within its bounds,
    /// rotation within the angle range.
    pub open spec fn wf(self) -> bool {
        &&& self.position.in_range()
        &&& self.fatigue.wf()
        &&& -ANGLE_LIMIT <= self.rotation_urad <= ANGLE_LIMIT
    }
}

/// The pushable boulder: its last known position and the rigid-body mode
/// currently requested of the engine.
#[derive(Clone, Copy, Debug, PartialEq, Eq, Structural)]
pub struct Boulder {
    pub position: Vec2,
    pub mode: BodyMode,
}

impl Boulder {
    /// Position within the handled range.
    pub open spec fn wf(self) -> bool {
        self.position.in_range()
    }
}

/// The simulation world: at most one player and one boulder, held in
/// named fields rather than open-ended collections, with step logic that
/// fails closed (no-ops) while either is absent.
pub struct World {
    pub textures_loaded: bool,
    pub machine: Machine,
    pub player: Option<Player>,
    pub boulder: Option<Boulder>,
    pub distance: u64,
}

impl World {
    /// Every present entity is well formed.
    pub open spec fn wf(self) -> bool {
        &&& (self.player matches Some(p) ==> p.wf())
        &&& (self.boulder matches Some(b) ==> b.wf())
    }

    /// Both entities are present, so a fixed step does real work.
    pub open spec fn ready(self) -> bool {
        self.player is Some && self.boulder is Some
    }

    /// The boulder contact classification for this step: the boulder's
    /// bounding circle against the player's axis-aligned bounds.
    pub open spec fn contact_now(self) -> bool
        recommends
            self.ready(),
    {
        circle_box_contact_spec(
            self.boulder->Some_0.position,
            BOULDER_RADIUS as int,
            self.player->Some_0.position,
            PLAYER_HALF_EXTENT as int,
            PLAYER_HALF_EXTENT as int,
        )
    }

    /// The locomotion state a fixed step decides, by the precedence
    /// rules, from the queued events and the engine's feedback.
    pub open spec fn decided_state(
        self,
        events: Seq<PlayerInputEvent>,
        feedback: PhysicsFeedback,
    ) -> PlayerState
        recommends
            self.ready(),
    {
        next_state_spec(
            self.textures_loaded,
            feedback.grounded,
            self.player->Some_0.fatigue.0,
            self.contact_now(),
            queue_state_spec(events),
        )
    }

    /// An empty world: nothing spawned, textures unconfirmed, machine in
    /// its initial state, no distance covered.
    pub fn new() -> (world: World)
        ensures
            !world.textures_loaded,
            world.machine.current == PlayerState::Setup,
            world.machine.pending is None,
            world.player is None,
            world.boulder is None,
            world.distance == 0,
            world.wf(),
    {
        World {
            textures_loaded: false,
            machine: Machine::new(),
            player: None,
            boulder: None,
            distance: 0,
        }
    }

    /// Bring the player into the world at the spawn point: facing right,
    /// fully rested, upright.
    pub fn spawn_player(&mut self)
        ensures
            final(self).player == Some(Player {
                position: Vec2 { x: PLAYER_SPAWN_X, y: 0 },
                facing: Facing::Right,
                fatigue: Fatigue(0),
                rotation_urad: 0,
            }),
            final(self).boulder == old(self).boulder,
            final(self).machine == old(self).machine,
            final(self).textures_loaded == old(self).textures_loaded,
            final(self).distance == old(self).distance,
            old(self).wf() ==> final(self).wf(),
    {
        self.player = Some(Player {
            position: Vec2 { x: PLAYER_SPAWN_X, y: 0 },
            facing: Facing::Right,
            fatigue: Fatigue::new(),
            rotation_urad: 0,
        });
    }

    /// Bring the boulder into the world at the origin, free to roll.
    pub fn spawn_boulder(&mut self)
        ensures
            final(self).boulder == Some(Boulder {
                position: Vec2 { x: 0, y: 0 },
                mode: BodyMode::Dynamic,
            }),
            final(self).player == old(self).player,
            final(self).machine == old(self).machine,
            final(self).textures_loaded == old(self).textures_loaded,
            final(self).distance == old(self).distance,
            old(self).wf() ==> final(self).wf(),
    {
        self.boulder = Some(Boulder { position: Vec2 { x: 0, y: 0 }, mode: BodyMode::Dynamic });
    }

    /// Record that the player's texture assets finished loading: the
    /// machine leaves `Setup` for `Idle` at the next tick boundary and is
    /// never sent back.
    pub fn confirm_textures(&mut self)
        ensures
            final(self).textures_loaded,
            final(self).machine.current == old(self).machine.current,
            final(self).machine.pending == Some(PlayerState::Idle),
            final(self).player == old(self).player,
            final(self).boulder == old(self).boulder,
            final(self).distance == old(self).distance,
            old(self).wf() ==> final(self).wf(),
    {
        self.textures_loaded = true;
        self.machine.set_pending(PlayerState::Idle);
    }

    /// Adopt the player position the physics engine reports. A position
    /// while no player is live is ignored.
    pub fn set_player_position(&mut self, position: Vec2)
        requires
            position.in_range(),
        ensures
            final(self).player == (match old(self).player {
                Some(p) => Some(Player { position, ..p }),
                None => None::<Player>,
            }),
            final(self).boulder == old(self).boulder,
            final(self).machine == old(self).machine,
            final(self).textures_loaded == old(self).textures_loaded,
            final(self).distance == old(self).distance,
            old(self).wf() ==> final(self).wf(),
    {
        match self.player {
            Some(p) => {
                self.player = Some(Player {
                    position,
                    facing: p.facing,
                    fatigue: p.fatigue,
                    rotation_urad: p.rotation_urad,
                });
            }
            None => {}
        }
    }

    /// Adopt the boulder position the physics engine reports. A position
    /// while no boulder is live is ignored.
    pub fn set_boulder_position(&mut self, position: Vec2)
        requires
            position.in_range(),
        ensures
            final(self).boulder == (match old(self).boulder {
                Some(b) => Some(Boulder { position, ..b }),
                None => None::<Boulder>,
            }),
            final(self).player == old(self).player,
            final(self).machine == old(self).machine,
            final(self).textures_loaded == old(self).textures_loaded,
            final(self).distance == old(self).distance,
            old(self).wf() ==> final(self).wf(),
    {
        match self.boulder {
            Some(b) => {
                self.boulder = Some(Boulder { position, mode: b.mode });
            }
            None => {}
        }
    }

    /// Request of the engine the rigid-body mode the boulder should have
    /// in the given session state: rolling during active play, frozen
    /// everywhere else. Without a boulder this is a no-op.
    pub fn freeze_or_release_boulder(&mut self, game: GameState) -> (mode: Option<BodyMode>)
        ensures
            final(self).boulder == (match old(self).boulder {
                Some(b) => Some(Boulder {
                    mode: (if game == GameState::InGame { BodyMode::Dynamic } else { BodyMode::Fixed }),
                    ..b
                }),
                None => None::<Boulder>,
            }),
            mode == (match old(self).boulder {
                Some(b) => Some(
                    if game == GameState::InGame { BodyMode::Dynamic } else { BodyMode::Fixed },
                ),
                None => None::<BodyMode>,
            }),
            final(self).player == old(self).player,
            final(self).machine == old(self).machine,
            final(self).textures_loaded == old(self).textures_loaded,
            final(self).distance == old(self).distance,
            old(self).wf() ==> final(self).wf(),
    {
        match self.boulder {
            Some(b) => {
                let mode = boulder_body_mode(game);
                self.boulder = Some(Boulder { position: b.position, mode });
                Some(mode)
            }
            None => None,
        }
    }

    /// Start the distance count afresh for a new session.
    pub fn reset_distance(&mut self)
        ensures
            final(self).distance == 0,
            final(self).player == old(self).player,
            final(self).boulder == old(self).boulder,
            final(self).machine == old(self).machine,
            final(self).textures_loaded == old(self).textures_loaded,
            old(self).wf() ==> final(self).wf(),
    {
        self.distance = 0;
    }

    /// Advance the simulation by one fixed step of `dt_us` microseconds.
    ///
    /// While the player or the boulder is absent the step is a silent
    /// no-op returning `None`. Otherwise the step composes the vertical
    /// fall intent with the horizontal intent resolved from the queued
    /// events, decides the locomotion state by the precedence rules,
    /// counts a unit of distance for sustained contact, integrates
    /// fatigue from the state just decided, updates the facing from the
    /// sign of the previously attempted translation, applies the pending
    /// transition at the tick boundary, and hands back the translation
    /// and torque to write to the engine.
    pub fn fixed_step(
        &mut self,
        events: &Vec<PlayerInputEvent>,
        feedback: &PhysicsFeedback,
        dt_us: u32,
    ) -> (intent: Option<StepIntent>)
        requires
            old(self).wf(),
        ensures
            final(self).wf(),
            !old(self).ready() ==> *final(self) == *old(self) && intent is None,
            old(self).ready() ==> ({
                let player = old(self).player->Some_0;
                let contact = old(self).contact_now();
                let next = old(self).decided_state(events@, *feedback);
                &&& intent == Some(StepIntent {
                    translation: Vec2 {
                        x: queue_dx_spec(events@, dt_us) as i64,
                        y: (-(FALL_SPEED * dt_us)) as i64,
                    },
                    torque: (if hurt_condition_spec(player.fatigue.0, contact) {
                        HURT_TORQUE as i64
                    } else {
                        0
                    }),
                })
                &&& final(self).machine.current == next
                &&& final(self).machine.pending is None
                &&& final(self).player matches Some(p2)
                    && p2.fatigue.0 == integrate_spec(player.fatigue.0, next, dt_us)
                    && p2.facing == facing_after_spec(player.facing, feedback.desired.x)
                    && p2.position == player.position
                    && p2.rotation_urad == player.rotation_urad
                &&& final(self).distance == (if contact {
                    (if old(self).distance == u64::MAX {
                        u64::MAX
                    } else {
                        (old(self).distance + 1) as u64
                    })
                } else {
                    old(self).distance
                })
                &&& final(self).boulder == old(self).boulder
                &&& final(self).textures_loaded == old(self).textures_loaded
            }),
    {
        let (player, boulder) = match (self.player, self.boulder) {
            (Some(p), Some(b)) => (p, b),
            _ => {
                return None;
            }
        };

        let dy = fall_dy(dt_us);
        let (dx, requested) = resolve_input(events, dt_us);

        let contact = circle_box_contact(
            boulder.position,
            BOULDER_RADIUS,
            player.position,
            PLAYER_HALF_EXTENT,
            PLAYER_HALF_EXTENT,
        );

        let next = next_state(
            self.textures_loaded,
            feedback.grounded,
            player.fatigue.0,
            contact,
            requested,
        );
        let torque = step_torque(player.fatigue.0, contact);
        self.machine.set_pending(next);

        if contact && self.distance < u64::MAX {
            self.distance = self.distance + 1;
        }

        let fatigue = integrate(player.fatigue, next, dt_us);
        let facing = facing_after(player.facing, feedback.desired.x);
        self.player = Some(Player {
            position: player.position,
            facing,
            fatigue,
            rotation_urad: player.rotation_urad,
        });

        self.machine.apply_pending();

        Some(StepIntent { translation: Vec2 { x: dx, y: dy }, torque })
    }

    /// Turn the player one smoothing step toward the slope angle the
    /// ground ray reported, committed only while grounded; without a
    /// player, or without a ray hit, the rotation is untouched.
    pub fn align_to_slope(&mut self, slope_urad: Option<i64>, grounded: bool)
        requires
            old(self).wf(),
            slope_urad matches Some(a) ==> -ANGLE_LIMIT <= a <= ANGLE_LIMIT,
        ensures
            final(self).wf(),
            final(self).player == (match (old(self).player, slope_urad) {
                (Some(p), Some(a)) => Some(Player {
                    rotation_urad: align_spec(p.rotation_urad as int, a as int, grounded) as i64,
                    ..p
                }),
                (p, _) => p,
            }),
            final(self).boulder == old(self).boulder,
            final(self).machine == old(self).machine,
            final(self).textures_loaded == old(self).textures_loaded,
            final(self).distance == old(self).distance,
    {
        match (self.player, slope_urad) {
            (Some(p), Some(target)) => {
                let rotation_urad = align_rotation(p.rotation_urad, target, grounded);
                self.player = Some(Player {
                    position: p.position,
                    facing: p.facing,
                    fatigue: p.fatigue,
                    rotation_urad,
                });
            }
            _ => {}
        }
    }

    /// The fatigue marker derived from the player: its position, an
    /// offset above the player, and the icon index for the current
    /// fatigue. Fully derived, no independent state; `None` while no
    /// player is live.
    pub fn fatigue_marker(&self) -> (marker: Option<(Vec2, usize)>)
        requires
            self.wf(),
        ensures
            marker == (match self.player {
                Some(p) => Some((
                    Vec2 { x: p.position.x, y: (p.position.y + MARKER_OFFSET_Y) as i64 },
                    marker_icon_spec(p.fatigue.0),
                )),
                None => None::<(Vec2, usize)>,
            }),
    {
        match self.player {
            Some(p) => {
                let position = Vec2 { x: p.position.x, y: p.position.y + MARKER_OFFSET_Y };
                let icon = marker_icon_index(p.fatigue);
                Some((position, icon))
            }
            None => None,
        }
    }

    /// The sprite sheet to assign this frame, derived from the current
    /// state and the engine's feedback; `None` keeps the assigned sheet.
    pub fn select_player_sheet(&self, feedback: &PhysicsFeedback) -> (selection: Option<
        SheetSelection,
    >)
        ensures
            selection == select_sheet_spec(
                self.machine.current,
                feedback.grounded,
                feedback.desired.x,
            ),
    {
        select_sheet(self.machine.current, feedback.grounded, feedback.desired.x)
    }
}

/// Precedence at the world level: a ready world whose textures are
/// confirmed decides `Fall` for any step whose feedback reports the
/// player airborne, whatever events are queued, wherever the boulder
/// stands and however high fatigue is.
pub proof fn lemma_airborne_step_falls(
    world: World,
    events: Seq<PlayerInputEvent>,
    feedback: PhysicsFeedback,
)
    requires
        world.ready(),
        world.textures_loaded,
        !feedback.grounded,
    ensures
        world.decided_state(events, feedback) == PlayerState::Fall,
{
}

} // verus!
