//! The simulation's data model: the player state, the physics configuration
//! of a running level, the per-tick inputs, and their mathematical views.
//!
//! Every scaled quantity (positions, velocities, forces, speeds, the world
//! scroll offset) is an `i64` in tenths of a design pixel, so that the rules'
//! decimal constants are exact integers. The camera offset stays in whole
//! design pixels, as the camera accumulator counts whole pixels.

use vstd::prelude::*;

verus! {

/// The ground line, in deci units (design y = 500).
pub const GROUND_DECI: i64 = 5000;

/// Lower screen bound that triggers downward camera follow (design y = 501).
pub const CAMERA_DOWN_DECI: i64 = 5010;

/// Where the player is re-clamped after downward camera follow (design y = 502).
pub const CAMERA_DOWN_SNAP_DECI: i64 = 5020;

/// Upper screen bound that triggers upward camera follow (design y = 50).
pub const CAMERA_UP_DECI: i64 = 500;

/// Where the player is re-clamped after upward camera follow (design y = 49).
pub const CAMERA_UP_SNAP_DECI: i64 = 490;

/// Magnitude bound on the player's vertical position accepted by a tick.
pub const POS_LIMIT: i64 = 100_000_000_000_000;

/// Magnitude bound on the vertical velocity; one tick never leaves it.
pub const VEL_LIMIT: i64 = 100_000_000;

/// Magnitude bound on gravity and jump force.
pub const FORCE_LIMIT: i64 = 100_000;

/// Bound on the horizontal movement speed and the other configured rates.
pub const SPEED_LIMIT: i64 = 100_000;

/// Magnitude bound on the world scroll offset accepted by a tick.
pub const OFFSET_LIMIT: i64 = 100_000_000_000_000;

/// Magnitude bound on the camera follow offset accepted by a tick.
pub const CAM_LIMIT: i64 = 1_000_000_000_000;

/// Magnitude bound on the visual rotation accepted by a tick.
pub const ROT_LIMIT: i64 = 100_000_000_000_000;

/// The movement mode the player is in; it selects the vertical-motion rule
/// of the integrator and which mode portals have an effect.
#[derive(Clone, Copy, Debug, PartialEq, Eq, Structural)]
pub enum GameMode {
    Cube,
    Ship,
    Ball,
    Wave,
}

/// How the world scrolls: automatically forward each tick, or freely under
/// the left/right inputs (the legacy horizontal-free-movement variant).
#[derive(Clone, Copy, Debug, PartialEq, Eq, Structural)]
pub enum ScrollMode {
    Auto,
    Free,
}

/// The horizontal direction chosen by the free-scroll inputs this tick;
/// it only steers the visual rotation.
#[derive(Clone, Copy, Debug, PartialEq, Eq, Structural)]
pub enum HorizontalDir {
    Still,
    Right,
    Left,
}

/// The screens of the surrounding game; only `Playing`'s simulation is
/// modeled here, the rest drive the outer loop.
#[derive(Clone, Copy, Debug, PartialEq, Eq, Structural)]
pub enum GameState {
    Menu,
    Playing,
    GameOver,
    CreatorMenu,
    Editor,
    LevelOptions,
    LevelSelect,
    LevelComplete,
    EditorKeybinds,
    AccountPage,
    LevelUpload,
    LevelPage,
    SearchPage,
    LevelRate,
}

/// Terminal outcome of a tick: the player died, or reached an end trigger.
#[derive(Clone, Copy, Debug, PartialEq, Eq, Structural)]
pub enum Terminal {
    Died,
    Completed,
}

/// The full mutable simulation state of the player, in deci units
/// (camera_y in whole pixels).
#[derive(Clone, Copy, Debug)]
pub struct PlayerState {
    /// Vertical position of the player's top edge, deci units.
    pub pos_y: i64,
    /// Vertical velocity per tick, deci units.
    pub velocity_y: i64,
    /// Signed gravity; positive means upright, negative inverted.
    pub gravity: i64,
    /// Signed jump impulse; its sign always mirrors `gravity`'s.
    pub jump_force: i64,
    /// Horizontal scroll speed per tick, deci units.
    pub movement_speed: i64,
    /// Horizontal scroll accumulator; decreases as the level advances.
    pub world_offset: i64,
    /// Visual rotation, tenths of a degree; not used for collision.
    pub rotation: i64,
    /// Vertical camera follow offset, whole design pixels.
    pub camera_y: i64,
    /// Current movement mode.
    pub mode: GameMode,
    /// Direction picked by the free-scroll inputs this tick.
    pub moving_direction: HorizontalDir,
    /// Whether the player rests on the ground or a block top.
    pub is_on_ground: bool,
    /// Whether a block holds the player against its far side.
    pub touching_block_ceiling: bool,
    /// Whether an orb is armed (set on release, consumed by an orb jump).
    pub on_orb: bool,
    /// Set by lethal collisions; consumed by the tick's terminal check.
    pub kill: bool,
    /// Latch that makes color triggers fire once per contiguous overlap.
    pub touching_color_trigger: bool,
}

/// Mathematical view of `PlayerState` over unbounded integers.
pub struct PlayerModel {
    pub pos_y: int,
    pub velocity_y: int,
    pub gravity: int,
    pub jump_force: int,
    pub movement_speed: int,
    pub world_offset: int,
    pub rotation: int,
    pub camera_y: int,
    pub mode: GameMode,
    pub moving_direction: HorizontalDir,
    pub is_on_ground: bool,
    pub touching_block_ceiling: bool,
    pub on_orb: bool,
    pub kill: bool,
    pub touching_color_trigger: bool,
}

impl View for PlayerState {
    type V = PlayerModel;

    open spec fn view(&self) -> PlayerModel {
        PlayerModel {
            pos_y: self.pos_y as int,
            velocity_y: self.velocity_y as int,
            gravity: self.gravity as int,
            jump_force: self.jump_force as int,
            movement_speed: self.movement_speed as int,
            world_offset: self.world_offset as int,
            rotation: self.rotation as int,
            camera_y: self.camera_y as int,
            mode: self.mode,
            moving_direction: self.moving_direction,
            is_on_ground: self.is_on_ground,
            touching_block_ceiling: self.touching_block_ceiling,
            on_orb: self.on_orb,
            kill: self.kill,
            touching_color_trigger: self.touching_color_trigger,
        }
    }
}

impl PlayerModel {
    /// Machine-range bounds under which a tick's arithmetic cannot overflow.
    pub open spec fn wf(self) -> bool {
        &&& -POS_LIMIT <= self.pos_y <= POS_LIMIT
        &&& -VEL_LIMIT <= self.velocity_y <= VEL_LIMIT
        &&& -FORCE_LIMIT <= self.gravity <= FORCE_LIMIT
        &&& -FORCE_LIMIT <= self.jump_force <= FORCE_LIMIT
        &&& 0 <= self.movement_speed <= SPEED_LIMIT
        &&& -OFFSET_LIMIT <= self.world_offset <= OFFSET_LIMIT
        &&& -ROT_LIMIT <= self.rotation <= ROT_LIMIT
        &&& -CAM_LIMIT <= self.camera_y <= CAM_LIMIT
    }

    /// The orientation invariant: gravity and jump force always point the
    /// same way, and neither is zero while a level runs.
    pub open spec fn gravity_sign_ok(self) -> bool {
        (self.gravity > 0 && self.jump_force < 0) || (self.gravity < 0 && self.jump_force > 0)
    }

    /// Slightly widened bounds that one integrator tick from a well-formed
    /// state always lands in; collision resolution needs no more.
    pub open spec fn sim_bounds(self) -> bool {
        &&& -POS_LIMIT - VEL_LIMIT <= self.pos_y <= POS_LIMIT + VEL_LIMIT
        &&& -VEL_LIMIT <= self.velocity_y <= VEL_LIMIT
        &&& -FORCE_LIMIT <= self.gravity <= FORCE_LIMIT
        &&& -FORCE_LIMIT <= self.jump_force <= FORCE_LIMIT
        &&& 0 <= self.movement_speed <= SPEED_LIMIT
        &&& -OFFSET_LIMIT - SPEED_LIMIT <= self.world_offset <= OFFSET_LIMIT + SPEED_LIMIT
        &&& -2 * CAM_LIMIT <= self.camera_y <= 2 * CAM_LIMIT
    }
}

impl PlayerState {
    /// A player standing on the ground line at the level start, with the
    /// configured defaults.
    pub fn reset(cfg: &PhysicsConfig) -> (s: PlayerState)
        ensures
            s@ == (PlayerModel {
                pos_y: GROUND_DECI as int,
                velocity_y: 0,
                gravity: cfg.default_gravity as int,
                jump_force: cfg.default_jump_force as int,
                movement_speed: cfg.default_speed as int,
                world_offset: 0,
                rotation: 0,
                camera_y: 0,
                mode: GameMode::Cube,
                moving_direction: HorizontalDir::Still,
                is_on_ground: true,
                touching_block_ceiling: false,
                on_orb: false,
                kill: false,
                touching_color_trigger: false,
            }),
    {
        PlayerState {
            pos_y: GROUND_DECI,
            velocity_y: 0,
            gravity: cfg.default_gravity,
            jump_force: cfg.default_jump_force,
            movement_speed: cfg.default_speed,
            world_offset: 0,
            rotation: 0,
            camera_y: 0,
            mode: GameMode::Cube,
            moving_direction: HorizontalDir::Still,
            is_on_ground: true,
            touching_block_ceiling: false,
            on_orb: false,
            kill: false,
            touching_color_trigger: false,
        }
    }
}

/// The fixed physics configuration of a running level, in deci units.
#[derive(Clone, Copy, Debug)]
pub struct PhysicsConfig {
    /// How the world scrolls in this level.
    pub scroll: ScrollMode,
    /// Default downward acceleration (positive), restored by portals.
    pub default_gravity: i64,
    /// Default jump impulse (negative: upward), restored by portals.
    pub default_jump_force: i64,
    /// Default scroll speed, restored by the 1x speed portal.
    pub default_speed: i64,
    /// Ship thrust per tick while the action is held.
    pub ship_power: i64,
    /// Ship fall acceleration per tick while the action is released.
    pub ship_falling_speed: i64,
    /// Wave slope factor; the wave moves at this times the scroll speed.
    pub wave_velocity: i64,
}

/// Mathematical view of `PhysicsConfig`.
pub struct ConfigModel {
    pub scroll: ScrollMode,
    pub default_gravity: int,
    pub default_jump_force: int,
    pub default_speed: int,
    pub ship_power: int,
    pub ship_falling_speed: int,
    pub wave_velocity: int,
}

impl View for PhysicsConfig {
    type V = ConfigModel;

    open spec fn view(&self) -> ConfigModel {
        ConfigModel {
            scroll: self.scroll,
            default_gravity: self.default_gravity as int,
            default_jump_force: self.default_jump_force as int,
            default_speed: self.default_speed as int,
            ship_power: self.ship_power as int,
            ship_falling_speed: self.ship_falling_speed as int,
            wave_velocity: self.wave_velocity as int,
        }
    }
}

impl ConfigModel {
    /// Sign conventions and machine-range bounds of a sane configuration.
    pub open spec fn wf(self) -> bool {
        &&& 0 < self.default_gravity <= 10_000
        &&& -10_000 <= self.default_jump_force < 0
        &&& 0 < self.default_speed <= 10_000
        &&& 0 <= self.ship_power <= 10_000
        &&& 0 <= self.ship_falling_speed <= 10_000
        &&& 0 <= self.wave_velocity <= 10_000
    }
}

impl PhysicsConfig {
    /// The stock configuration: gravity 0.8, jump -13, speed 6, ship thrust
    /// 0.7, ship fall 0.5, wave slope 1.0, auto scroll.
    pub fn standard() -> (cfg: PhysicsConfig)
        ensures
            cfg@ == (ConfigModel {
                scroll: ScrollMode::Auto,
                default_gravity: 8,
                default_jump_force: -130,
                default_speed: 60,
                ship_power: 7,
                ship_falling_speed: 5,
                wave_velocity: 10,
            }),
            cfg@.wf(),
    {
        PhysicsConfig {
            scroll: ScrollMode::Auto,
            default_gravity: 8,
            default_jump_force: -130,
            default_speed: 60,
            ship_power: 7,
            ship_falling_speed: 5,
            wave_velocity: 10,
        }
    }
}

/// The player's inputs for one tick.
#[derive(Clone, Copy, Debug)]
pub struct TickInput {
    /// The primary action: jump, ship thrust, ball flip, wave up, orb fire.
    pub jump_held: bool,
    /// Free-scroll: move the world forward (player visually moves right).
    pub move_right: bool,
    /// Free-scroll: move the world backward.
    pub move_left: bool,
}

} // verus!
