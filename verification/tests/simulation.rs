//! Tests of the per-tick simulation: the integrator's mode rules, the
//! ground clamp, the camera, and the laws' concrete instances.

use geometry_rays::state::{PlayerState, PhysicsConfig, TickInput, GameMode, Terminal};
use geometry_rays::physics::{physics_handle, mode_rule_step};
use geometry_rays::collision::tick;
use geometry_rays::objects::{ObjectStruct, TriggerProps};
use geometry_rays::world::{EnvColors, Progress, MainLevel, LevelCtx};

fn input_none() -> TickInput {
    TickInput { jump_held: false, move_right: false, move_left: false }
}

fn input_jump() -> TickInput {
    TickInput { jump_held: true, move_right: false, move_left: false }
}

fn env_default() -> EnvColors {
    EnvColors {
        bg_red: 0,
        bg_green: 0,
        bg_blue: 50,
        ground_red: 0,
        ground_green: 0,
        ground_blue: 100,
    }
}

fn progress_default() -> Progress {
    Progress {
        stars: 0,
        levels_completed: vec![false],
        online_levels_beaten: vec![],
    }
}

fn main_levels_default() -> Vec<MainLevel> {
    vec![MainLevel {
        name: String::from("Plummet"),
        difficulty: 3,
        song: String::from("0.mp3"),
        artist: String::from("someone"),
        data: String::new(),
    }]
}

fn ctx_custom() -> LevelCtx {
    LevelCtx {
        in_custom_level: true,
        current_level: 0,
        online_level_id: 1,
        online_level_rated: false,
        online_level_diff: 0,
    }
}

fn object(x: i32, y: i32, rotation: i16, id: u32) -> ObjectStruct {
    ObjectStruct {
        y,
        x,
        rotation,
        no_touch: false,
        hide: false,
        id,
        selected: false,
        properties: if id == 23 {
            Some(TriggerProps { red: 50, green: 50, blue: 50, kind: 1 })
        } else {
            None
        },
    }
}

/// Scenario: Cube mode on the ground with the action held converts the
/// jump force into velocity and leaves the ground.
#[test]
fn cube_jump_sets_jump_force() {
    let cfg = PhysicsConfig::standard();
    let mut state = PlayerState::reset(&cfg);
    assert_eq!(state.gravity, 8);
    assert_eq!(state.jump_force, -130);
    assert!(state.is_on_ground);
    mode_rule_step(&mut state, &cfg, &input_jump());
    assert_eq!(state.velocity_y, -130);
    assert!(!state.is_on_ground);
}

/// After the whole jump tick the gravity term has already eaten into the
/// impulse and the player has left the ground line.
#[test]
fn cube_jump_full_tick() {
    let cfg = PhysicsConfig::standard();
    let mut state = PlayerState::reset(&cfg);
    physics_handle(&mut state, &cfg, &input_jump());
    assert_eq!(state.velocity_y, -122);
    assert_eq!(state.pos_y, 5000 - 122);
    assert!(!state.is_on_ground);
}

/// Ground clamp: a falling cube one pixel above the ground snaps onto
/// it, with zero velocity and the ground flag set.
#[test]
fn ground_clamp_lands_exactly() {
    let cfg = PhysicsConfig::standard();
    let mut state = PlayerState::reset(&cfg);
    state.pos_y = 4990;
    state.velocity_y = 50;
    state.is_on_ground = false;
    physics_handle(&mut state, &cfg, &input_none());
    assert_eq!(state.pos_y, 5000);
    assert_eq!(state.velocity_y, 0);
    assert!(state.is_on_ground);
    assert_eq!(state.rotation, 0);
}

/// An airborne cube keeps accelerating and spins.
#[test]
fn airborne_cube_accumulates_gravity_and_spin() {
    let cfg = PhysicsConfig::standard();
    let mut state = PlayerState::reset(&cfg);
    state.pos_y = 3000;
    state.velocity_y = 0;
    state.is_on_ground = false;
    physics_handle(&mut state, &cfg, &input_none());
    assert_eq!(state.velocity_y, 8);
    assert_eq!(state.pos_y, 3008);
    assert_eq!(state.rotation, 50);
    assert_eq!(state.world_offset, -60);
}

/// The cube's velocity only grows while it lies inside the open
/// interval (-20, 20).
#[test]
fn cube_terminal_velocity() {
    let cfg = PhysicsConfig::standard();
    let mut state = PlayerState::reset(&cfg);
    state.pos_y = 1000;
    state.velocity_y = 196;
    state.is_on_ground = false;
    physics_handle(&mut state, &cfg, &input_none());
    assert_eq!(state.velocity_y, 204);
    physics_handle(&mut state, &cfg, &input_none());
    // 204 lies outside (-200, 200): no further gravity.
    assert_eq!(state.velocity_y, 204);
}

/// Ship clamp: holding thrust from -9.9 never pushes the magnitude past
/// 10.
#[test]
fn ship_thrust_clamps_at_ten() {
    let cfg = PhysicsConfig::standard();
    let mut state = PlayerState::reset(&cfg);
    state.mode = GameMode::Ship;
    state.pos_y = 3000;
    state.is_on_ground = false;
    state.velocity_y = -99;
    for _ in 0..5 {
        physics_handle(&mut state, &cfg, &input_jump());
        assert!(state.velocity_y.abs() <= 100);
    }
    assert_eq!(state.velocity_y, -100);
}

/// A ship against a block ceiling has its velocity forced to zero.
#[test]
fn ship_ceiling_zeroes_velocity() {
    let cfg = PhysicsConfig::standard();
    let mut state = PlayerState::reset(&cfg);
    state.mode = GameMode::Ship;
    state.pos_y = 3000;
    state.is_on_ground = false;
    state.velocity_y = -80;
    state.touching_block_ceiling = true;
    physics_handle(&mut state, &cfg, &input_jump());
    assert_eq!(state.velocity_y, 0);
}

/// The ball flips gravity and jump force together, and falls slightly
/// slower than the cube.
#[test]
fn ball_flip_keeps_signs_aligned() {
    let cfg = PhysicsConfig::standard();
    let mut state = PlayerState::reset(&cfg);
    state.mode = GameMode::Ball;
    mode_rule_step(&mut state, &cfg, &input_jump());
    assert_eq!(state.gravity, -8);
    assert_eq!(state.jump_force, 130);
    assert!(!state.is_on_ground);

    let mut faller = PlayerState::reset(&cfg);
    faller.mode = GameMode::Ball;
    faller.pos_y = 3000;
    faller.is_on_ground = false;
    physics_handle(&mut faller, &cfg, &input_none());
    // Gravity 0.8 lightened by 0.2.
    assert_eq!(faller.velocity_y, 6);
}

/// The wave sets its velocity outright from the scroll speed and the
/// held action.
#[test]
fn wave_velocity_follows_speed_and_input() {
    let cfg = PhysicsConfig::standard();
    let mut state = PlayerState::reset(&cfg);
    state.mode = GameMode::Wave;
    state.pos_y = 3000;
    state.is_on_ground = false;
    physics_handle(&mut state, &cfg, &input_jump());
    // wave_velocity 1.0 times speed 6.0, upward while held.
    assert_eq!(state.velocity_y, -60);
    physics_handle(&mut state, &cfg, &input_none());
    assert_eq!(state.velocity_y, 60);
}

/// The camera follows the player across the lower screen bound and
/// re-clamps the position just inside it.
#[test]
fn camera_follows_downward() {
    let cfg = PhysicsConfig::standard();
    let mut state = PlayerState::reset(&cfg);
    state.pos_y = 4000;
    state.velocity_y = 150;
    state.is_on_ground = false;
    state.camera_y = -100;
    physics_handle(&mut state, &cfg, &input_none());
    // pos 4000 + 158 = 4158 is below neither bound with the camera at
    // -100: the ground line sits at 5000 + 1000.
    assert_eq!(state.pos_y, 4158);
    state.velocity_y = 196;
    for _ in 0..5 {
        physics_handle(&mut state, &cfg, &input_none());
    }
    // The player crossed 501 design pixels on the way down, so the
    // camera absorbed the crossing velocity.
    assert!(state.camera_y > -100);
    assert_eq!(state.pos_y, 5020);
}

/// Scenario: a spike whose lethal strip overlaps the full hitbox kills,
/// and the tick reports the death once, clearing the flag.
#[test]
fn spike_kills_and_death_resets() {
    let cfg = PhysicsConfig::standard();
    let mut state = PlayerState::reset(&cfg);
    state.movement_speed = 0;
    state.world_offset = -2900;
    let objects = vec![object(480, 480, 0, 1)];
    let mut env = env_default();
    let mut progress = progress_default();
    let levels = main_levels_default();
    let ctx = ctx_custom();
    let t = tick(&mut state, &objects, &mut env, &mut progress, &levels, &ctx, &cfg, &input_none());
    assert_eq!(t, Some(Terminal::Died));
    assert!(!state.kill);
    // A fresh tick with no hazard keeps the flag down.
    let t2 = tick(&mut state, &vec![], &mut env, &mut progress, &levels, &ctx, &cfg, &input_none());
    assert_eq!(t2, None);
    assert!(!state.kill);
}

/// An untouchable spike is excluded from every collision check.
#[test]
fn no_touch_spike_does_not_kill() {
    let cfg = PhysicsConfig::standard();
    let mut state = PlayerState::reset(&cfg);
    state.movement_speed = 0;
    state.world_offset = -2900;
    let mut spike = object(480, 480, 0, 1);
    spike.no_touch = true;
    let objects = vec![spike];
    let mut env = env_default();
    let mut progress = progress_default();
    let levels = main_levels_default();
    let ctx = ctx_custom();
    let t = tick(&mut state, &objects, &mut env, &mut progress, &levels, &ctx, &cfg, &input_none());
    assert_eq!(t, None);
    assert!(!state.kill);
}

/// Scenario: a cube portal touched in Ship mode switches the mode, and
/// it stays switched on a later tick without the portal.
#[test]
fn mode_portal_switches_to_cube() {
    let cfg = PhysicsConfig::standard();
    let mut state = PlayerState::reset(&cfg);
    state.mode = GameMode::Ship;
    state.movement_speed = 0;
    let objects = vec![object(190, 480, 0, 8)];
    let mut env = env_default();
    let mut progress = progress_default();
    let levels = main_levels_default();
    let ctx = ctx_custom();
    let t = tick(&mut state, &objects, &mut env, &mut progress, &levels, &ctx, &cfg, &input_none());
    assert_eq!(t, None);
    assert_eq!(state.mode, GameMode::Cube);
    let t2 = tick(&mut state, &vec![], &mut env, &mut progress, &levels, &ctx, &cfg, &input_none());
    assert_eq!(t2, None);
    assert_eq!(state.mode, GameMode::Cube);
}

/// A speed portal multiplies the default speed, and the new speed
/// persists after the portal is gone.
#[test]
fn speed_portal_sets_and_persists() {
    let cfg = PhysicsConfig::standard();
    let mut state = PlayerState::reset(&cfg);
    state.movement_speed = 0;
    let objects = vec![object(190, 480, 0, 18)];
    let mut env = env_default();
    let mut progress = progress_default();
    let levels = main_levels_default();
    let ctx = ctx_custom();
    tick(&mut state, &objects, &mut env, &mut progress, &levels, &ctx, &cfg, &input_none());
    // 1.4 times the default speed of 6.0.
    assert_eq!(state.movement_speed, 84);
    state.movement_speed = 84;
    tick(&mut state, &vec![], &mut env, &mut progress, &levels, &ctx, &cfg, &input_none());
    assert_eq!(state.movement_speed, 84);
}

/// The three other speed portals select 1.0, 1.8 and 0.8 times the
/// default.
#[test]
fn speed_portal_multipliers() {
    let cfg = PhysicsConfig::standard();
    for (id, expected) in [(17u32, 60i64), (19, 108), (20, 48)] {
        let mut state = PlayerState::reset(&cfg);
        state.movement_speed = 0;
        let objects = vec![object(190, 480, 0, id)];
        let mut env = env_default();
        let mut progress = progress_default();
        let levels = main_levels_default();
        let ctx = ctx_custom();
        tick(&mut state, &objects, &mut env, &mut progress, &levels, &ctx, &cfg, &input_none());
        assert_eq!(state.movement_speed, expected);
    }
}

/// A gravity portal fixes gravity and jump force to its orientation,
/// keeping their signs aligned.
#[test]
fn gravity_portal_flips_both_signs() {
    let cfg = PhysicsConfig::standard();
    let mut state = PlayerState::reset(&cfg);
    state.movement_speed = 0;
    let objects = vec![object(190, 480, 0, 5)];
    let mut env = env_default();
    let mut progress = progress_default();
    let levels = main_levels_default();
    let ctx = ctx_custom();
    tick(&mut state, &objects, &mut env, &mut progress, &levels, &ctx, &cfg, &input_none());
    assert_eq!(state.gravity, -8);
    assert_eq!(state.jump_force, 130);
    assert!(state.gravity.signum() != state.jump_force.signum());

    let back = vec![object(190, 480, 0, 6)];
    tick(&mut state, &back, &mut env, &mut progress, &levels, &ctx, &cfg, &input_none());
    assert_eq!(state.gravity, 8);
    assert_eq!(state.jump_force, -130);
}

/// A pad hurls the player against gravity on proximity alone.
#[test]
fn pad_fires_on_contact() {
    let cfg = PhysicsConfig::standard();
    let mut state = PlayerState::reset(&cfg);
    state.movement_speed = 0;
    let objects = vec![object(200, 480, 0, 3)];
    let mut env = env_default();
    let mut progress = progress_default();
    let levels = main_levels_default();
    let ctx = ctx_custom();
    tick(&mut state, &objects, &mut env, &mut progress, &levels, &ctx, &cfg, &input_none());
    assert_eq!(state.velocity_y, -150);
    assert!(!state.is_on_ground);
}

/// An orb needs both proximity and a held action, and consumes its
/// charge.
#[test]
fn orb_needs_press() {
    let cfg = PhysicsConfig::standard();
    let mut state = PlayerState::reset(&cfg);
    state.movement_speed = 0;
    state.on_orb = true;
    let objects = vec![object(200, 480, 0, 4)];
    let mut env = env_default();
    let mut progress = progress_default();
    let levels = main_levels_default();
    let ctx = ctx_custom();
    // Without the press the orb only keeps the player airborne.
    tick(&mut state, &objects, &mut env, &mut progress, &levels, &ctx, &cfg, &input_none());
    assert!(state.on_orb);
    assert!(!state.is_on_ground);
    // With the press it fires and disarms.
    let mut state2 = PlayerState::reset(&cfg);
    state2.movement_speed = 0;
    state2.on_orb = true;
    tick(&mut state2, &objects, &mut env, &mut progress, &levels, &ctx, &cfg, &input_jump());
    assert_eq!(state2.velocity_y, -130);
    assert!(!state2.on_orb);
}

/// A color trigger held for ten ticks recolors the background exactly
/// once; leaving and re-entering fires it again.
#[test]
fn color_trigger_fires_once_per_contact() {
    let cfg = PhysicsConfig::standard();
    let mut state = PlayerState::reset(&cfg);
    state.movement_speed = 0;
    let mut trigger = object(200, 480, 0, 23);
    trigger.properties = Some(TriggerProps { red: 200, green: 150, blue: 100, kind: 1 });
    let objects = vec![trigger];
    let mut env = env_default();
    let mut progress = progress_default();
    let levels = main_levels_default();
    let ctx = ctx_custom();
    let mut fired = 0;
    for _ in 0..10 {
        let before = (env.bg_red, env.bg_green, env.bg_blue);
        tick(&mut state, &objects, &mut env, &mut progress, &levels, &ctx, &cfg, &input_none());
        if (env.bg_red, env.bg_green, env.bg_blue) != before {
            fired += 1;
        }
    }
    assert_eq!(fired, 1);
    assert_eq!((env.bg_red, env.bg_green, env.bg_blue), (200, 150, 100));
    // Leaving clears the latch.
    env.bg_red = 0;
    tick(&mut state, &vec![], &mut env, &mut progress, &levels, &ctx, &cfg, &input_none());
    assert!(!state.touching_color_trigger);
    // Re-entering fires again.
    tick(&mut state, &objects, &mut env, &mut progress, &levels, &ctx, &cfg, &input_none());
    assert_eq!(env.bg_red, 200);
}

/// A ground-recolor trigger changes the ground channels instead.
#[test]
fn color_trigger_ground_kind() {
    let cfg = PhysicsConfig::standard();
    let mut state = PlayerState::reset(&cfg);
    state.movement_speed = 0;
    let mut trigger = object(200, 480, 0, 23);
    trigger.properties = Some(TriggerProps { red: 9, green: 8, blue: 7, kind: 2 });
    let objects = vec![trigger];
    let mut env = env_default();
    let mut progress = progress_default();
    let levels = main_levels_default();
    let ctx = ctx_custom();
    tick(&mut state, &objects, &mut env, &mut progress, &levels, &ctx, &cfg, &input_none());
    assert_eq!((env.ground_red, env.ground_green, env.ground_blue), (9, 8, 7));
    assert_eq!((env.bg_red, env.bg_green, env.bg_blue), (0, 0, 50));
}

/// The end trigger in a built-in level awards its difficulty once and
/// signals completion.
#[test]
fn end_trigger_awards_stars_once() {
    let cfg = PhysicsConfig::standard();
    let mut state = PlayerState::reset(&cfg);
    state.movement_speed = 0;
    let objects = vec![object(200, 480, 0, 15)];
    let mut env = env_default();
    let mut progress = progress_default();
    let levels = main_levels_default();
    let ctx = LevelCtx { in_custom_level: false, ..ctx_custom() };
    let t = tick(&mut state, &objects, &mut env, &mut progress, &levels, &ctx, &cfg, &input_none());
    assert_eq!(t, Some(Terminal::Completed));
    assert_eq!(progress.stars, 3);
    assert_eq!(progress.levels_completed, vec![true]);
    // Completing again awards nothing more.
    let t2 = tick(&mut state, &objects, &mut env, &mut progress, &levels, &ctx, &cfg, &input_none());
    assert_eq!(t2, Some(Terminal::Completed));
    assert_eq!(progress.stars, 3);
}

/// The end trigger in a rated online level awards its rated difficulty
/// once and records the level as beaten.
#[test]
fn end_trigger_online_rated() {
    let cfg = PhysicsConfig::standard();
    let mut state = PlayerState::reset(&cfg);
    state.movement_speed = 0;
    let objects = vec![object(200, 480, 0, 15)];
    let mut env = env_default();
    let mut progress = progress_default();
    let levels = main_levels_default();
    let ctx = LevelCtx {
        in_custom_level: true,
        current_level: 0,
        online_level_id: 77,
        online_level_rated: true,
        online_level_diff: 5,
    };
    let t = tick(&mut state, &objects, &mut env, &mut progress, &levels, &ctx, &cfg, &input_none());
    assert_eq!(t, Some(Terminal::Completed));
    assert_eq!(progress.stars, 5);
    assert_eq!(progress.online_levels_beaten, vec![77]);
    let t2 = tick(&mut state, &objects, &mut env, &mut progress, &levels, &ctx, &cfg, &input_none());
    assert_eq!(t2, Some(Terminal::Completed));
    assert_eq!(progress.stars, 5);
    assert_eq!(progress.online_levels_beaten, vec![77]);
}

/// Death takes precedence over completion when both happen in one tick.
#[test]
fn death_beats_completion() {
    let cfg = PhysicsConfig::standard();
    let mut state = PlayerState::reset(&cfg);
    state.movement_speed = 0;
    state.world_offset = -2900;
    let objects = vec![object(490, 480, 0, 15), object(480, 480, 0, 1)];
    let mut env = env_default();
    let mut progress = progress_default();
    let levels = main_levels_default();
    let ctx = ctx_custom();
    let t = tick(&mut state, &objects, &mut env, &mut progress, &levels, &ctx, &cfg, &input_none());
    assert_eq!(t, Some(Terminal::Died));
}

/// A block top carries the cube: standing on it keeps the ground flag
/// and pins the player to the ledge.
#[test]
fn block_top_carries_player() {
    let cfg = PhysicsConfig::standard();
    let mut state = PlayerState::reset(&cfg);
    state.movement_speed = 0;
    state.pos_y = 4640;
    state.velocity_y = 0;
    state.is_on_ground = false;
    // Block at cell (200, 480): its top ledge spans y 481..484 design
    // pixels, which the falling player reaches.
    let objects = vec![object(200, 480, 0, 2)];
    let mut env = env_default();
    let mut progress = progress_default();
    let levels = main_levels_default();
    let ctx = ctx_custom();
    let t = tick(&mut state, &objects, &mut env, &mut progress, &levels, &ctx, &cfg, &input_none());
    assert_eq!(t, None);
    assert!(state.is_on_ground);
    assert_eq!(state.velocity_y, 0);
    // Snapped on top of the block: object.y - 19 design pixels.
    assert_eq!(state.pos_y, 4610);
}

fn cfg_free() -> PhysicsConfig {
    PhysicsConfig {
        scroll: geometry_rays::state::ScrollMode::Free,
        default_gravity: 8,
        default_jump_force: -130,
        default_speed: 60,
        ship_power: 7,
        ship_falling_speed: 5,
        wave_velocity: 10,
    }
}

/// In free scroll the arrows move the world and pick the spin
/// direction; with no arrow the player stands and does not spin.
#[test]
fn free_scroll_follows_arrows() {
    let cfg = cfg_free();
    let mut state = PlayerState::reset(&cfg);
    state.pos_y = 3000;
    state.is_on_ground = false;
    let right = TickInput { jump_held: false, move_right: true, move_left: false };
    physics_handle(&mut state, &cfg, &right);
    assert_eq!(state.world_offset, -60);
    assert_eq!(state.rotation, 50);
    let left = TickInput { jump_held: false, move_right: false, move_left: true };
    physics_handle(&mut state, &cfg, &left);
    assert_eq!(state.world_offset, 0);
    assert_eq!(state.rotation, 0);
    let still = TickInput { jump_held: false, move_right: false, move_left: false };
    physics_handle(&mut state, &cfg, &still);
    assert_eq!(state.world_offset, 0);
    assert_eq!(state.rotation, 0);
}

/// In free scroll a block's leading edge pushes the world back instead
/// of killing.
#[test]
fn free_scroll_block_pushes_back() {
    let cfg = cfg_free();
    let mut state = PlayerState::reset(&cfg);
    let objects = vec![object(200, 470, 0, 2)];
    let mut env = env_default();
    let mut progress = progress_default();
    let levels = main_levels_default();
    let ctx = ctx_custom();
    let t = tick(&mut state, &objects, &mut env, &mut progress, &levels, &ctx, &cfg, &input_none());
    assert_eq!(t, None);
    assert!(!state.kill);
    assert_eq!(state.world_offset, 200);
}

/// Under auto scroll the same leading edge is lethal.
#[test]
fn auto_scroll_block_edge_kills() {
    let cfg = PhysicsConfig::standard();
    let mut state = PlayerState::reset(&cfg);
    state.movement_speed = 0;
    let objects = vec![object(200, 470, 0, 2)];
    let mut env = env_default();
    let mut progress = progress_default();
    let levels = main_levels_default();
    let ctx = ctx_custom();
    let t = tick(&mut state, &objects, &mut env, &mut progress, &levels, &ctx, &cfg, &input_none());
    assert_eq!(t, Some(Terminal::Died));
}

/// Holding the action against a block's bottom ledge marks a ceiling
/// hold and pins the player beneath the block.
#[test]
fn block_bottom_ledge_ceiling_hold() {
    let cfg = PhysicsConfig::standard();
    let mut state = PlayerState::reset(&cfg);
    state.mode = GameMode::Ship;
    state.movement_speed = 0;
    let objects = vec![object(200, 480, 0, 2)];
    let mut env = env_default();
    let mut progress = progress_default();
    let levels = main_levels_default();
    let ctx = ctx_custom();
    tick(&mut state, &objects, &mut env, &mut progress, &levels, &ctx, &cfg, &input_jump());
    assert!(state.touching_block_ceiling);
    assert!(state.is_on_ground);
    // Pinned just below the block: object.y + 61 design pixels.
    assert_eq!(state.pos_y, 5410);
}

/// The checks run top ledge first, bottom ledge second: a hold that only
/// reaches the top ledge still snaps the player, but the bottom ledge's
/// miss drops the ceiling mark again.
#[test]
fn block_top_ledge_hold_inverted_snaps_without_ceiling() {
    let cfg = PhysicsConfig::standard();
    let mut state = PlayerState::reset(&cfg);
    state.mode = GameMode::Ship;
    state.gravity = -8;
    state.jump_force = 130;
    state.movement_speed = 0;
    state.pos_y = 4640;
    state.is_on_ground = false;
    let objects = vec![object(200, 480, 0, 2)];
    let mut env = env_default();
    let mut progress = progress_default();
    let levels = main_levels_default();
    let ctx = ctx_custom();
    tick(&mut state, &objects, &mut env, &mut progress, &levels, &ctx, &cfg, &input_jump());
    assert!(!state.touching_block_ceiling);
    assert!(state.is_on_ground);
    // Snapped to the hold position above the block: object.y - 21.
    assert_eq!(state.pos_y, 4590);
}

/// The wave portal only works while the level scrolls automatically.
#[test]
fn wave_portal_needs_auto_scroll() {
    let objects = vec![object(190, 480, 0, 25)];
    let mut env = env_default();
    let mut progress = progress_default();
    let levels = main_levels_default();
    let ctx = ctx_custom();

    let free = cfg_free();
    let mut state = PlayerState::reset(&free);
    state.movement_speed = 0;
    tick(&mut state, &objects, &mut env, &mut progress, &levels, &ctx, &free, &input_none());
    assert_eq!(state.mode, GameMode::Cube);

    let auto = PhysicsConfig::standard();
    let mut state2 = PlayerState::reset(&auto);
    state2.movement_speed = 0;
    tick(&mut state2, &objects, &mut env, &mut progress, &levels, &ctx, &auto, &input_none());
    assert_eq!(state2.mode, GameMode::Wave);
}

/// The short spike's lethal box rides high in its cell only when the
/// spike is near upside down.
#[test]
fn short_spike_rotation_moves_hitbox() {
    let cfg = PhysicsConfig::standard();
    let mut env = env_default();
    let mut progress = progress_default();
    let levels = main_levels_default();
    let ctx = ctx_custom();

    let mut upright = PlayerState::reset(&cfg);
    upright.movement_speed = 0;
    upright.world_offset = -2900;
    let t = tick(&mut upright, &vec![object(480, 500, 0, 7)], &mut env, &mut progress, &levels, &ctx, &cfg, &input_none());
    assert_eq!(t, None);

    let mut flipped = PlayerState::reset(&cfg);
    flipped.movement_speed = 0;
    flipped.world_offset = -2900;
    let t2 = tick(&mut flipped, &vec![object(480, 500, 180, 7)], &mut env, &mut progress, &levels, &ctx, &cfg, &input_none());
    assert_eq!(t2, Some(Terminal::Died));
}

/// A hidden object is only hidden from rendering: it still collides.
#[test]
fn hidden_spike_still_kills() {
    let cfg = PhysicsConfig::standard();
    let mut state = PlayerState::reset(&cfg);
    state.movement_speed = 0;
    state.world_offset = -2900;
    let mut spike = object(480, 480, 0, 1);
    spike.hide = true;
    let mut env = env_default();
    let mut progress = progress_default();
    let levels = main_levels_default();
    let ctx = ctx_custom();
    let t = tick(&mut state, &vec![spike], &mut env, &mut progress, &levels, &ctx, &cfg, &input_none());
    assert_eq!(t, Some(Terminal::Died));
}

/// The gravity pad fires on proximity and flips gravity and jump force
/// together.
#[test]
fn gravity_pad_flips_orientation() {
    let cfg = PhysicsConfig::standard();
    let mut state = PlayerState::reset(&cfg);
    state.movement_speed = 0;
    let objects = vec![object(200, 480, 0, 21)];
    let mut env = env_default();
    let mut progress = progress_default();
    let levels = main_levels_default();
    let ctx = ctx_custom();
    tick(&mut state, &objects, &mut env, &mut progress, &levels, &ctx, &cfg, &input_none());
    assert_eq!(state.velocity_y, -70);
    assert_eq!(state.gravity, -8);
    assert_eq!(state.jump_force, 130);
    assert!(!state.is_on_ground);
}

/// The gravity orb flips orientation like the pad, but only when
/// pressed while armed.
#[test]
fn gravity_orb_flips_on_press() {
    let cfg = PhysicsConfig::standard();
    let mut state = PlayerState::reset(&cfg);
    state.movement_speed = 0;
    state.on_orb = true;
    let objects = vec![object(200, 480, 0, 22)];
    let mut env = env_default();
    let mut progress = progress_default();
    let levels = main_levels_default();
    let ctx = ctx_custom();
    tick(&mut state, &objects, &mut env, &mut progress, &levels, &ctx, &cfg, &input_jump());
    assert_eq!(state.velocity_y, -70);
    assert_eq!(state.gravity, -8);
    assert_eq!(state.jump_force, 130);
    assert!(!state.on_orb);
}

/// The camera also follows the player across the upper screen bound.
#[test]
fn camera_follows_upward() {
    let cfg = PhysicsConfig::standard();
    let mut state = PlayerState::reset(&cfg);
    state.mode = GameMode::Ship;
    state.pos_y = 600;
    state.velocity_y = -100;
    state.is_on_ground = false;
    physics_handle(&mut state, &cfg, &input_jump());
    assert_eq!(state.pos_y, 490);
    assert_eq!(state.camera_y, -10);
}

/// Under inverted gravity the airborne spin runs the other way.
#[test]
fn inverted_gravity_spins_backward() {
    let cfg = PhysicsConfig::standard();
    let mut state = PlayerState::reset(&cfg);
    state.gravity = -8;
    state.jump_force = 130;
    state.pos_y = 3000;
    state.is_on_ground = false;
    physics_handle(&mut state, &cfg, &input_none());
    assert_eq!(state.velocity_y, -8);
    assert_eq!(state.rotation, -50);
}

/// A sideways-rotated portal uses the perpendicular interaction region.
#[test]
fn portal_rotation_changes_region() {
    let cfg = PhysicsConfig::standard();
    let mut env = env_default();
    let mut progress = progress_default();
    let levels = main_levels_default();
    let ctx = ctx_custom();

    let mut state = PlayerState::reset(&cfg);
    state.movement_speed = 0;
    tick(&mut state, &vec![object(150, 480, 0, 9)], &mut env, &mut progress, &levels, &ctx, &cfg, &input_none());
    assert_eq!(state.mode, GameMode::Cube);

    let mut state2 = PlayerState::reset(&cfg);
    state2.movement_speed = 0;
    tick(&mut state2, &vec![object(150, 480, 90, 9)], &mut env, &mut progress, &levels, &ctx, &cfg, &input_none());
    assert_eq!(state2.mode, GameMode::Ship);
}

/// Objects far outside the screen window are skipped even when their
/// coordinates would otherwise overlap after a huge scroll.
#[test]
fn off_window_objects_are_skipped() {
    let cfg = PhysicsConfig::standard();
    let mut state = PlayerState::reset(&cfg);
    state.movement_speed = 0;
    // The spike sits 2000 design pixels ahead: out of the window.
    let objects = vec![object(2480, 480, 0, 1)];
    let mut env = env_default();
    let mut progress = progress_default();
    let levels = main_levels_default();
    let ctx = ctx_custom();
    let t = tick(&mut state, &objects, &mut env, &mut progress, &levels, &ctx, &cfg, &input_none());
    assert_eq!(t, None);
}

/// Later objects override earlier ones in one tick: with two mode
/// portals overlapping, the last in store order wins.
#[test]
fn last_portal_wins() {
    let cfg = PhysicsConfig::standard();
    let mut state = PlayerState::reset(&cfg);
    state.movement_speed = 0;
    let objects = vec![object(190, 480, 0, 9), object(190, 480, 0, 24)];
    let mut env = env_default();
    let mut progress = progress_default();
    let levels = main_levels_default();
    let ctx = ctx_custom();
    tick(&mut state, &objects, &mut env, &mut progress, &levels, &ctx, &cfg, &input_none());
    assert_eq!(state.mode, GameMode::Ball);
}
