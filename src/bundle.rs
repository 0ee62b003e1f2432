use vstd::prelude::*;
use crate::player::{Actor, ActorStatus, Milli, Player};

verus! {

/// Where the player's sprite sheet is loaded from.
pub const PLAYER_SHEET_PATH: &'static str = "sprites/sam1.png";

/// Width of one cell of the player's sprite sheet, in pixels.
pub const CELL_WIDTH: u32 = 48;

/// Height of one cell of the player's sprite sheet, in pixels.
pub const CELL_HEIGHT: u32 = 32;

/// Columns of cells in the player's sprite sheet.
pub const SHEET_COLUMNS: usize = 4;

/// Rows of cells in the player's sprite sheet.
pub const SHEET_ROWS: usize = 1;

/// Time each animation frame is shown (a fifth of a second).
pub const FRAME_TIME: Milli = 200;

/// Half the height of the straight part of the player's capsule collider.
pub const CAPSULE_HALF_HEIGHT: Milli = 7000;

/// Radius of the player's capsule collider.
pub const CAPSULE_RADIUS: Milli = 7000;

/// Skin kept by the character controller, relative to the collider's size.
pub const CONTROLLER_OFFSET: Milli = 100;

/// Depth at which the player is drawn.
pub const PLAYER_DEPTH: Milli = 1000;

pub const MOVE_SPEED: Milli = 60_000;

pub const DRAG: Milli = 100;

pub const ACCEL: Milli = 500_000;

pub const DECCEL: Milli = 1_000_000;

pub const GRAVITY: Milli = 1_000_000;

pub const JUMP_SPEED: Milli = 1_000_000;

pub const JUMP_TIME: Milli = 100;

/// An image to load and the grid that slices it into animation frames.
#[derive(Clone, Debug, PartialEq, Eq)]
pub struct SpriteSheet {
    /// Asset path of the image.
    pub path: String,
    /// Size of one cell, in pixels.
    pub cell_width: u32,
    pub cell_height: u32,
    pub columns: usize,
    pub rows: usize,
}

/// A position in space; a larger `z` is drawn in front.
#[derive(Clone, Copy, Debug, PartialEq, Eq, Structural)]
pub struct Translation {
    pub x: Milli,
    pub y: Milli,
    pub z: Milli,
}

/// Which frames of a sprite sheet an animation cycles through, and how fast.
#[derive(Clone, Copy, Debug, PartialEq, Eq, Structural)]
pub struct SpriteAnimation {
    pub first_frame: usize,
    pub last_frame: usize,
    /// Number of frames in the cycle.
    pub frame_count: usize,
    /// Time each frame is shown.
    pub frame_time: Milli,
    /// Whether the cycle starts over after its last frame.
    pub looping: bool,
}

/// How the physics engine moves a body.
#[derive(Clone, Copy, Debug, PartialEq, Eq, Structural)]
pub enum BodyKind {
    /// Moved by forces and impulses.
    Dynamic,
    /// Never moves.
    Fixed,
    /// Moved by setting its next position.
    KinematicPositionBased,
    /// Moved by setting its velocity.
    KinematicVelocityBased,
}

/// A capsule collider whose straight part is vertical.
#[derive(Clone, Copy, Debug, PartialEq, Eq, Structural)]
pub struct Capsule {
    pub half_height: Milli,
    pub radius: Milli,
}

/// A length given in units, or relative to the size of the collider.
#[derive(Clone, Copy, Debug, PartialEq, Eq, Structural)]
pub enum CharacterLength {
    Absolute(Milli),
    Relative(Milli),
}

/// Settings of the character controller that moves a kinematic body.
#[derive(Clone, Copy, Debug, PartialEq, Eq, Structural)]
pub struct Controller {
    /// Gap kept between the collider and what it touches.
    pub offset: CharacterLength,
}

/// Everything the player entity is made of when level data places it. The
/// sprite sheet is described by its path and slicing: loading it and
/// registering the sliced atlas is left to the engine.
#[derive(Clone, Debug, PartialEq, Eq)]
pub struct PlayerBundle {
    pub sprite_sheet: SpriteSheet,
    /// Where the sprite is drawn, relative to the entity's placement.
    pub translation: Translation,
    /// The animation, on the atlas sliced from `sprite_sheet`.
    pub sprite_animator: SpriteAnimation,
    pub player: Player,
    pub rigidbody: BodyKind,
    pub collider: Capsule,
    pub controller: Controller,
    pub actor: Actor,
    pub actor_status: ActorStatus,
}

/// The tuning of the player's actor, with no input yet.
pub open spec fn player_actor() -> Actor {
    Actor {
        move_speed: MOVE_SPEED,
        drag: DRAG,
        accel: ACCEL,
        deccel: DECCEL,
        gravity: GRAVITY,
        jump_speed: JUMP_SPEED,
        jump_time: JUMP_TIME,
        move_input: 0,
        jump_input: false,
    }
}

impl SpriteSheet {
    /// This sheet is the player's: its image and a grid of
    /// `SHEET_COLUMNS` by `SHEET_ROWS` cells of `CELL_WIDTH` by `CELL_HEIGHT`.
    pub open spec fn is_player_sheet(&self) -> bool {
        &&& self.path@ == PLAYER_SHEET_PATH@
        &&& self.cell_width == CELL_WIDTH
        &&& self.cell_height == CELL_HEIGHT
        &&& self.columns == SHEET_COLUMNS
        &&& self.rows == SHEET_ROWS
    }

    /// Both sheets name the same image and slice it the same way.
    pub open spec fn same_sheet(&self, other: &SpriteSheet) -> bool {
        &&& self.path@ == other.path@
        &&& self.cell_width == other.cell_width
        &&& self.cell_height == other.cell_height
        &&& self.columns == other.columns
        &&& self.rows == other.rows
    }
}

impl PlayerBundle {
    /// This bundle is the player as level data spawns it.
    pub open spec fn is_spawned_player(&self) -> bool {
        &&& self.sprite_sheet.is_player_sheet()
        &&& self.translation == Translation { x: 0, y: 0, z: PLAYER_DEPTH }
        &&& self.sprite_animator == SpriteAnimation {
            first_frame: 0,
            last_frame: 3,
            frame_count: SHEET_COLUMNS,
            frame_time: FRAME_TIME,
            looping: true,
        }
        &&& self.player == Player
        &&& self.rigidbody == BodyKind::KinematicPositionBased
        &&& self.collider == Capsule { half_height: CAPSULE_HALF_HEIGHT, radius: CAPSULE_RADIUS }
        &&& self.controller == Controller { offset: CharacterLength::Relative(CONTROLLER_OFFSET) }
        &&& self.actor == player_actor()
        &&& self.actor_status == ActorStatus { grounded: false, velocity_x: 0, velocity_y: 0 }
    }

    /// Both bundles hold the same components, the sprite sheet compared by
    /// its image and slicing.
    pub open spec fn same_components(&self, other: &PlayerBundle) -> bool {
        &&& self.sprite_sheet.same_sheet(&other.sprite_sheet)
        &&& self.translation == other.translation
        &&& self.sprite_animator == other.sprite_animator
        &&& self.player == other.player
        &&& self.rigidbody == other.rigidbody
        &&& self.collider == other.collider
        &&& self.controller == other.controller
        &&& self.actor == other.actor
        &&& self.actor_status == other.actor_status
    }

    /// The player entity for a player marker found in level data: a
    /// four-frame looping run cycle, a kinematic capsule body with a
    /// character controller, and the actor's fixed tuning.
    pub fn bundle_entity() -> (r: PlayerBundle)
        ensures
            r.is_spawned_player(),
    {
        PlayerBundle {
            sprite_sheet: SpriteSheet {
                path: PLAYER_SHEET_PATH.to_owned(),
                cell_width: CELL_WIDTH,
                cell_height: CELL_HEIGHT,
                columns: SHEET_COLUMNS,
                rows: SHEET_ROWS,
            },
            translation: Translation { x: 0, y: 0, z: PLAYER_DEPTH },
            sprite_animator: SpriteAnimation {
                first_frame: 0,
                last_frame: 3,
                frame_count: SHEET_COLUMNS,
                frame_time: FRAME_TIME,
                looping: true,
            },
            player: Player,
            rigidbody: BodyKind::KinematicPositionBased,
            collider: Capsule { half_height: CAPSULE_HALF_HEIGHT, radius: CAPSULE_RADIUS },
            controller: Controller { offset: CharacterLength::Relative(CONTROLLER_OFFSET) },
            actor: Actor {
                move_speed: MOVE_SPEED,
                drag: DRAG,
                accel: ACCEL,
                deccel: DECCEL,
                gravity: GRAVITY,
                jump_speed: JUMP_SPEED,
                jump_time: JUMP_TIME,
                move_input: 0,
                jump_input: false,
            },
            actor_status: ActorStatus { grounded: false, velocity_x: 0, velocity_y: 0 },
        }
    }
}

/// Two player entities spawned from level data hold the same components, and
/// their sprite sheets name the same image sliced into the same grid.
pub proof fn lemma_spawn_deterministic(a: PlayerBundle, b: PlayerBundle)
    requires
        a.is_spawned_player(),
        b.is_spawned_player(),
    ensures
        a.same_components(&b),
        a.sprite_sheet.is_player_sheet(),
{
}

} // verus!
