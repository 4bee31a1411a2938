//! The physics integrator: one tick of vertical motion for the current
//! mode, the horizontal scroll, the ground clamp and the camera follow.
//!
//! `spec_advance` is the mathematical transition function over unbounded
//! integers; `physics_handle` is its executable twin and is proved to
//! compute exactly that function.

use vstd::prelude::*;
use crate::state::{
    PlayerState, PlayerModel, PhysicsConfig, ConfigModel, TickInput, GameMode, ScrollMode,
    HorizontalDir, GROUND_DECI, CAMERA_DOWN_DECI, CAMERA_DOWN_SNAP_DECI, CAMERA_UP_DECI,
    CAMERA_UP_SNAP_DECI, SPEED_LIMIT, POS_LIMIT, VEL_LIMIT, FORCE_LIMIT, OFFSET_LIMIT,
    CAM_LIMIT, ROT_LIMIT,
};

verus! {

/// Truncating division of a velocity by ten (deci units to whole pixels),
/// rounding toward zero.
pub open spec fn spec_div10_trunc(v: int) -> int {
    if v >= 0 {
        v / 10
    } else {
        -((-v) / 10)
    }
}

/// The mode rule for the Cube: a held action on the ground converts the
/// jump force into upward velocity.
pub open spec fn spec_cube_rule(s: PlayerModel, jump_held: bool) -> PlayerModel {
    if s.is_on_ground && jump_held {
        PlayerModel { velocity_y: s.jump_force, is_on_ground: false, ..s }
    } else {
        s
    }
}

/// The mode rule for the Ship: thrust accelerates against gravity and
/// release accelerates with it, each saturating at magnitude 10; a block
/// ceiling zeroes the velocity.
pub open spec fn spec_ship_rule(s: PlayerModel, cfg: ConfigModel, jump_held: bool) -> PlayerModel {
    if s.touching_block_ceiling {
        PlayerModel { velocity_y: 0, ..s }
    } else if jump_held {
        if s.gravity > 0 {
            if s.velocity_y > -100 {
                let v = s.velocity_y - cfg.ship_power;
                PlayerModel { velocity_y: if v < -100 { -100 } else { v }, ..s }
            } else {
                s
            }
        } else {
            if s.velocity_y < 100 {
                let v = s.velocity_y + cfg.ship_power;
                PlayerModel { velocity_y: if v > 100 { 100 } else { v }, ..s }
            } else {
                s
            }
        }
    } else {
        if s.gravity > 0 {
            if s.velocity_y < 100 {
                let v = s.velocity_y + cfg.ship_falling_speed;
                PlayerModel { velocity_y: if v > 100 { 100 } else { v }, ..s }
            } else {
                s
            }
        } else {
            if s.velocity_y > -100 {
                let v = s.velocity_y - cfg.ship_falling_speed;
                PlayerModel { velocity_y: if v < -100 { -100 } else { v }, ..s }
            } else {
                s
            }
        }
    }
}

/// The mode rule for the Ball: a held action on the ground flips gravity,
/// and with it the jump force, keeping their signs aligned.
pub open spec fn spec_ball_rule(s: PlayerModel, jump_held: bool) -> PlayerModel {
    if s.is_on_ground && jump_held {
        PlayerModel {
            gravity: -s.gravity,
            jump_force: -s.jump_force,
            is_on_ground: false,
            ..s
        }
    } else {
        s
    }
}

/// The mode rule for the Wave: the velocity is set outright each tick to
/// the wave slope times the scroll speed, the sign chosen by gravity and
/// by whether the action is held.
pub open spec fn spec_wave_rule(s: PlayerModel, cfg: ConfigModel, jump_held: bool) -> PlayerModel {
    let m = (cfg.wave_velocity * s.movement_speed) / 10;
    let v = if s.gravity > 0 {
        if jump_held { -m } else { m }
    } else {
        if jump_held { m } else { -m }
    };
    PlayerModel { velocity_y: v, ..s }
}

/// Dispatch of the per-mode vertical rule.
pub open spec fn spec_mode_rule(s: PlayerModel, cfg: ConfigModel, jump_held: bool) -> PlayerModel {
    match s.mode {
        GameMode::Cube => spec_cube_rule(s, jump_held),
        GameMode::Ship => spec_ship_rule(s, cfg, jump_held),
        GameMode::Ball => spec_ball_rule(s, jump_held),
        GameMode::Wave => spec_wave_rule(s, cfg, jump_held),
    }
}

/// The horizontal scroll: automatic forward motion, or free motion under
/// the arrow inputs, which also pick the visual direction.
pub open spec fn spec_scroll(s: PlayerModel, cfg: ConfigModel, move_right: bool, move_left: bool) -> PlayerModel {
    match cfg.scroll {
        ScrollMode::Auto => PlayerModel { world_offset: s.world_offset - s.movement_speed, ..s },
        ScrollMode::Free => {
            if move_right {
                PlayerModel {
                    world_offset: s.world_offset - s.movement_speed,
                    moving_direction: HorizontalDir::Right,
                    ..s
                }
            } else if move_left {
                PlayerModel {
                    world_offset: s.world_offset + s.movement_speed,
                    moving_direction: HorizontalDir::Left,
                    ..s
                }
            } else {
                PlayerModel { moving_direction: HorizontalDir::Still, ..s }
            }
        },
    }
}

/// The gravity term added after the mode rule: plain gravity for the Cube,
/// gravity lightened by 0.2 for the Ball, nothing for Ship and Wave; only
/// applied while the velocity lies strictly inside (-20, 20).
pub open spec fn spec_gravity_step(s: PlayerModel) -> PlayerModel {
    if (s.mode == GameMode::Cube || s.mode == GameMode::Ball) && -200 < s.velocity_y < 200 {
        if s.mode == GameMode::Cube {
            PlayerModel { velocity_y: s.velocity_y + s.gravity, ..s }
        } else {
            let ease: int = if s.gravity > 0 { 2 } else { -2 };
            PlayerModel { velocity_y: s.velocity_y + s.gravity - ease, ..s }
        }
    } else {
        s
    }
}

/// Position integration followed by the ground clamp and the rotation
/// rule: landing zeroes velocity and rotation, airborne ticks spin the
/// player, the spin direction following gravity and the move direction.
pub open spec fn spec_ground_step(s: PlayerModel, cfg: ConfigModel) -> PlayerModel {
    let pos = s.pos_y + s.velocity_y;
    if pos >= GROUND_DECI - s.camera_y * 10 {
        PlayerModel {
            pos_y: GROUND_DECI - s.camera_y * 10,
            velocity_y: 0,
            is_on_ground: true,
            rotation: 0,
            ..s
        }
    } else {
        let spin: int = if s.moving_direction == HorizontalDir::Right || cfg.scroll == ScrollMode::Auto {
            50
        } else if s.moving_direction == HorizontalDir::Left {
            -50
        } else {
            0
        };
        let rot = if spin == 0 {
            0
        } else if s.gravity > 0 {
            s.rotation + spin
        } else {
            s.rotation - spin
        };
        PlayerModel { pos_y: pos, rotation: rot, ..s }
    }
}

/// The camera follow: when the player crosses the lower or upper screen
/// bound, the crossing velocity is absorbed into the camera offset and the
/// player is re-clamped just inside the bound.
pub open spec fn spec_camera_step(s: PlayerModel) -> PlayerModel {
    let s1 = if s.pos_y >= CAMERA_DOWN_DECI {
        PlayerModel {
            camera_y: s.camera_y + spec_div10_trunc(s.velocity_y),
            pos_y: CAMERA_DOWN_SNAP_DECI as int,
            ..s
        }
    } else {
        s
    };
    if s1.pos_y <= CAMERA_UP_DECI {
        PlayerModel {
            camera_y: s1.camera_y + spec_div10_trunc(s1.velocity_y),
            pos_y: CAMERA_UP_SNAP_DECI as int,
            ..s1
        }
    } else {
        s1
    }
}

/// One full integrator tick: mode rule, scroll, gravity, integration with
/// ground clamp, camera follow.
pub open spec fn spec_advance(s: PlayerModel, cfg: ConfigModel, input: TickInput) -> PlayerModel {
    spec_camera_step(spec_ground_step(spec_gravity_step(spec_scroll(spec_mode_rule(s, cfg, input.jump_held), cfg, input.move_right, input.move_left)), cfg))
}

/// Truncating division by ten on machine integers.
fn div10_trunc(v: i64) -> (r: i64)
    requires
        -1_000_000_000_000_000_000 <= v <= 1_000_000_000_000_000_000,
    ensures
        r as int == spec_div10_trunc(v as int),
{
    if v >= 0 {
        v / 10
    } else {
        -((-v) / 10)
    }
}

/// The per-mode vertical rule on the machine state: the first stage of a
/// tick, before the scroll, the gravity term and the integration.
pub fn mode_rule_step(state: &mut PlayerState, cfg: &PhysicsConfig, input: &TickInput)
    requires
        old(state)@.wf(),
        cfg@.wf(),
    ensures
        final(state)@ == spec_mode_rule(old(state)@, cfg@, input.jump_held),
{
    match state.mode {
        GameMode::Cube => {
            if state.is_on_ground && input.jump_held {
                state.velocity_y = state.jump_force;
                state.is_on_ground = false;
            }
        },
        GameMode::Ship => {
            if state.touching_block_ceiling {
                state.velocity_y = 0;
            } else if input.jump_held {
                if state.gravity > 0 {
                    if state.velocity_y > -100 {
                        let v = state.velocity_y - cfg.ship_power;
                        state.velocity_y = if v < -100 { -100 } else { v };
                    }
                } else {
                    if state.velocity_y < 100 {
                        let v = state.velocity_y + cfg.ship_power;
                        state.velocity_y = if v > 100 { 100 } else { v };
                    }
                }
            } else {
                if state.gravity > 0 {
                    if state.velocity_y < 100 {
                        let v = state.velocity_y + cfg.ship_falling_speed;
                        state.velocity_y = if v > 100 { 100 } else { v };
                    }
                } else {
                    if state.velocity_y > -100 {
                        let v = state.velocity_y - cfg.ship_falling_speed;
                        state.velocity_y = if v < -100 { -100 } else { v };
                    }
                }
            }
        },
        GameMode::Ball => {
            if state.is_on_ground && input.jump_held {
                state.gravity = -state.gravity;
                state.jump_force = -state.jump_force;
                state.is_on_ground = false;
            }
        },
        GameMode::Wave => {
            assert(cfg.wave_velocity * state.movement_speed <= 10_000 * SPEED_LIMIT) by (nonlinear_arith)
                requires
                    0 <= cfg.wave_velocity <= 10_000,
                    0 <= state.movement_speed <= SPEED_LIMIT,
            ;
            let m = (cfg.wave_velocity * state.movement_speed) / 10;
            state.velocity_y = if state.gravity > 0 {
                if input.jump_held { -m } else { m }
            } else {
                if input.jump_held { m } else { -m }
            };
        },
    }
}

/// The horizontal scroll on the machine state.
fn scroll_step(state: &mut PlayerState, cfg: &PhysicsConfig, input: &TickInput)
    requires
        -OFFSET_LIMIT - SPEED_LIMIT <= old(state)@.world_offset <= OFFSET_LIMIT + SPEED_LIMIT,
        0 <= old(state)@.movement_speed <= SPEED_LIMIT,
    ensures
        final(state)@ == spec_scroll(old(state)@, cfg@, input.move_right, input.move_left),
{
    match cfg.scroll {
        ScrollMode::Auto => {
            state.world_offset = state.world_offset - state.movement_speed;
        },
        ScrollMode::Free => {
            if input.move_right {
                state.world_offset = state.world_offset - state.movement_speed;
                state.moving_direction = HorizontalDir::Right;
            } else if input.move_left {
                state.world_offset = state.world_offset + state.movement_speed;
                state.moving_direction = HorizontalDir::Left;
            } else {
                state.moving_direction = HorizontalDir::Still;
            }
        },
    }
}

/// The gravity term on the machine state.
fn gravity_step(state: &mut PlayerState)
    requires
        -VEL_LIMIT <= old(state)@.velocity_y <= VEL_LIMIT,
        -FORCE_LIMIT <= old(state)@.gravity <= FORCE_LIMIT,
    ensures
        final(state)@ == spec_gravity_step(old(state)@),
{
    if (state.mode == GameMode::Cube || state.mode == GameMode::Ball)
        && -200 < state.velocity_y && state.velocity_y < 200 {
        if state.mode == GameMode::Cube {
            state.velocity_y = state.velocity_y + state.gravity;
        } else {
            let ease: i64 = if state.gravity > 0 { 2 } else { -2 };
            state.velocity_y = state.velocity_y + state.gravity - ease;
        }
    }
}

/// Position integration, ground clamp and rotation on the machine state.
fn ground_step(state: &mut PlayerState, cfg: &PhysicsConfig)
    requires
        -POS_LIMIT <= old(state)@.pos_y <= POS_LIMIT,
        -VEL_LIMIT <= old(state)@.velocity_y <= VEL_LIMIT,
        -CAM_LIMIT <= old(state)@.camera_y <= CAM_LIMIT,
        -ROT_LIMIT <= old(state)@.rotation <= ROT_LIMIT,
    ensures
        final(state)@ == spec_ground_step(old(state)@, cfg@),
{
    let pos = state.pos_y + state.velocity_y;
    if pos >= GROUND_DECI - state.camera_y * 10 {
        state.pos_y = GROUND_DECI - state.camera_y * 10;
        state.velocity_y = 0;
        state.is_on_ground = true;
        state.rotation = 0;
    } else {
        state.pos_y = pos;
        let spin: i64 = if state.moving_direction == HorizontalDir::Right
            || cfg.scroll == ScrollMode::Auto {
            50
        } else if state.moving_direction == HorizontalDir::Left {
            -50
        } else {
            0
        };
        state.rotation = if spin == 0 {
            0
        } else if state.gravity > 0 {
            state.rotation + spin
        } else {
            state.rotation - spin
        };
    }
}

/// The camera follow on the machine state.
fn camera_step(state: &mut PlayerState)
    requires
        -POS_LIMIT - VEL_LIMIT <= old(state)@.pos_y <= POS_LIMIT + VEL_LIMIT,
        -VEL_LIMIT <= old(state)@.velocity_y <= VEL_LIMIT,
        -2 * CAM_LIMIT <= old(state)@.camera_y <= 2 * CAM_LIMIT,
    ensures
        final(state)@ == spec_camera_step(old(state)@),
{
    if state.pos_y >= CAMERA_DOWN_DECI {
        state.camera_y = state.camera_y + div10_trunc(state.velocity_y);
        state.pos_y = CAMERA_DOWN_SNAP_DECI;
    }
    if state.pos_y <= CAMERA_UP_DECI {
        state.camera_y = state.camera_y + div10_trunc(state.velocity_y);
        state.pos_y = CAMERA_UP_SNAP_DECI;
    }
}

/// Bounds of the integrator's intermediate states, letting each stage's
/// machine arithmetic stay in range when started from a well-formed state,
/// and placing the tick's result inside the simulation bounds that
/// collision resolution works under.
#[verifier::rlimit(60)]
pub proof fn lemma_advance_stage_bounds(s: PlayerModel, cfg: ConfigModel, input: TickInput)
    requires
        s.wf(),
        cfg.wf(),
    ensures
        ({
            let s1 = spec_mode_rule(s, cfg, input.jump_held);
            let s2 = spec_scroll(s1, cfg, input.move_right, input.move_left);
            let s3 = spec_gravity_step(s2);
            let s4 = spec_ground_step(s3, cfg);
            &&& -VEL_LIMIT <= s1.velocity_y <= VEL_LIMIT
            &&& -OFFSET_LIMIT - SPEED_LIMIT <= s2.world_offset <= OFFSET_LIMIT + SPEED_LIMIT
            &&& -VEL_LIMIT <= s3.velocity_y <= VEL_LIMIT
            &&& -POS_LIMIT - VEL_LIMIT <= s4.pos_y <= POS_LIMIT + VEL_LIMIT
            &&& -2 * CAM_LIMIT <= s4.camera_y <= 2 * CAM_LIMIT
        }),
        spec_advance(s, cfg, input).sim_bounds(),
{
    let s1 = spec_mode_rule(s, cfg, input.jump_held);
    let s2 = spec_scroll(s1, cfg, input.move_right, input.move_left);
    let s3 = spec_gravity_step(s2);
    let s4 = spec_ground_step(s3, cfg);
    let s5 = spec_camera_step(s4);
    assert(0 <= cfg.wave_velocity * s.movement_speed <= 10_000 * SPEED_LIMIT) by (nonlinear_arith)
        requires
            0 <= cfg.wave_velocity <= 10_000,
            0 <= s.movement_speed <= SPEED_LIMIT,
    ;
    assert(-10 * CAM_LIMIT <= s.camera_y * 10 <= 10 * CAM_LIMIT) by (nonlinear_arith)
        requires
            -CAM_LIMIT <= s.camera_y <= CAM_LIMIT,
    ;
    assert(-VEL_LIMIT <= s1.velocity_y <= VEL_LIMIT);
    assert(s1.pos_y == s.pos_y && s1.world_offset == s.world_offset && s1.camera_y == s.camera_y
        && s1.movement_speed == s.movement_speed && s1.rotation == s.rotation
        && -FORCE_LIMIT <= s1.gravity <= FORCE_LIMIT && -FORCE_LIMIT <= s1.jump_force <= FORCE_LIMIT);
    assert(-OFFSET_LIMIT - SPEED_LIMIT <= s2.world_offset <= OFFSET_LIMIT + SPEED_LIMIT);
    assert(s2.pos_y == s1.pos_y && s2.camera_y == s1.camera_y && s2.velocity_y == s1.velocity_y
        && s2.movement_speed == s1.movement_speed && s2.rotation == s1.rotation
        && s2.gravity == s1.gravity && s2.jump_force == s1.jump_force);
    assert(-VEL_LIMIT <= s3.velocity_y <= VEL_LIMIT);
    assert(s3.pos_y == s2.pos_y && s3.camera_y == s2.camera_y && s3.world_offset == s2.world_offset
        && s3.movement_speed == s2.movement_speed && s3.gravity == s2.gravity
        && s3.jump_force == s2.jump_force);
    assert(-POS_LIMIT - VEL_LIMIT <= s4.pos_y <= POS_LIMIT + VEL_LIMIT);
    assert(s4.camera_y == s3.camera_y && s4.world_offset == s3.world_offset
        && (-VEL_LIMIT <= s4.velocity_y <= VEL_LIMIT)
        && s4.movement_speed == s3.movement_speed && s4.gravity == s3.gravity
        && s4.jump_force == s3.jump_force);
    assert(-2 * CAM_LIMIT <= s5.camera_y <= 2 * CAM_LIMIT);
    assert(-POS_LIMIT - VEL_LIMIT <= s5.pos_y <= POS_LIMIT + VEL_LIMIT);
    assert(s5.sim_bounds());
}

/// Advances the player by one physics tick, before collisions are
/// resolved. Computes exactly the mathematical transition `spec_advance`.
pub fn physics_handle(state: &mut PlayerState, cfg: &PhysicsConfig, input: &TickInput)
    requires
        old(state)@.wf(),
        cfg@.wf(),
    ensures
        final(state)@ == spec_advance(old(state)@, cfg@, *input),
{
    proof {
        lemma_advance_stage_bounds(state@, cfg@, *input);
    }
    mode_rule_step(state, cfg, input);
    scroll_step(state, cfg, input);
    gravity_step(state);
    ground_step(state, cfg);
    camera_step(state);
}

} // verus!
