//! The collision resolver: per-object interaction effects, the pass over
//! the object store, and the tick's terminal signal.
//!
//! All interaction rectangles are tested against the two hitbox variants
//! the integrator's position fixes for the whole pass: the full 40x40 box
//! and the narrower 20x20 box used for thin hazards. Objects are visited
//! in store order with no early exit, so a later object's effect can
//! override an earlier one's.

use vstd::prelude::*;
use crate::geom::{DeciRect, boxes_overlap, rects_overlap};
use crate::objects::{ObjectStruct, TriggerProps, spec_upright};
use crate::state::{
    PlayerState, PlayerModel, PhysicsConfig, ConfigModel, TickInput, GameMode, ScrollMode,
    Terminal, POS_LIMIT, VEL_LIMIT, SPEED_LIMIT, OFFSET_LIMIT, CAM_LIMIT, FORCE_LIMIT,
};
use crate::world::{EnvColors, EnvModel, Progress, ProgressModel, MainLevel, LevelCtx};
use crate::physics::{physics_handle, spec_advance, lemma_advance_stage_bounds};

verus! {

/// Everything one collision pass reads and writes, as one mathematical
/// value: the player, the environment tint, the award state, whether an
/// end trigger fired, and whether any color trigger is being touched.
pub struct FrameModel {
    pub player: PlayerModel,
    pub env: EnvModel,
    pub progress: ProgressModel,
    pub completed: bool,
    pub trigger_touched: bool,
}

/// The outcome of a full resolution pass.
pub struct ResolveOut {
    pub player: PlayerModel,
    pub env: EnvModel,
    pub progress: ProgressModel,
    pub terminal: Option<Terminal>,
}

/// Whether the tick's full 40x40 player box, built from position
/// `box_pos`, overlaps the given rectangle.
pub open spec fn spec_full_hits(box_pos: int, rx: int, ry: int, rw: int, rh: int) -> bool {
    boxes_overlap(1800, box_pos - 200, 400, 400, rx, ry, rw, rh)
}

/// Whether the tick's narrow 20x20 player box overlaps the given
/// rectangle.
pub open spec fn spec_small_hits(box_pos: int, rx: int, ry: int, rw: int, rh: int) -> bool {
    boxes_overlap(1950, box_pos - 100, 200, 200, rx, ry, rw, rh)
}

/// The spike's lethal region: a 10 by 20 strip in the middle of its cell.
pub open spec fn spec_spike_step(p: PlayerModel, o: ObjectStruct, box_pos: int) -> PlayerModel {
    let ox = o@.x * 10 + p.world_offset;
    let oy = o@.y * 10 - p.camera_y * 10;
    PlayerModel { kill: p.kill || spec_full_hits(box_pos, ox + 200, oy + 200, 100, 200), ..p }
}

/// The short spike's lethal region: a 10 by 10 box whose height within
/// the cell follows the rotation (near upside-down raises it).
pub open spec fn spec_short_spike_step(p: PlayerModel, o: ObjectStruct, box_pos: int) -> PlayerModel {
    let ox = o@.x * 10 + p.world_offset;
    let oy = o@.y * 10 - p.camera_y * 10;
    let lift: int = if o@.rotation > 145 || o@.rotation < -145 { 50 } else { 250 };
    PlayerModel { kill: p.kill || spec_full_hits(box_pos, ox + 200, oy + lift, 100, 100), ..p }
}

/// A solid block's four sensors, tested in a fixed order:
/// the leading edge (lethal under auto scroll, a pushback in free scroll),
/// the top ledge, the bottom ledge, and the step-off sensor past its
/// right side. Ledge contact snaps the player onto or under the block
/// unless the action is held toward it, which marks a ceiling hold.
pub open spec fn spec_solid_step(p: PlayerModel, o: ObjectStruct, box_pos: int, cfg: ConfigModel, jump_held: bool) -> PlayerModel {
    let ox = o@.x * 10 + p.world_offset;
    let oy = o@.y * 10;
    let cam = p.camera_y * 10;
    let p1 = if cfg.scroll == ScrollMode::Auto {
        PlayerModel { kill: p.kill || spec_small_hits(box_pos, ox, oy + 100 - cam, 30, 200), ..p }
    } else if spec_full_hits(box_pos, ox, oy + 200 - cam, 30, 30) {
        PlayerModel { world_offset: -(o@.x * 10 - 2200), ..p }
    } else if spec_full_hits(box_pos, ox + 400, oy + 200 - cam, 30, 30) {
        PlayerModel { world_offset: -(o@.x * 10 - 1400), ..p }
    } else {
        p
    };
    let ox1 = o@.x * 10 + p1.world_offset;
    let p2 = if spec_full_hits(box_pos, ox1 + 30, oy + 10 - cam, 370, 30) {
        if !jump_held {
            PlayerModel {
                is_on_ground: true,
                rotation: 0,
                pos_y: oy - 190 - cam,
                velocity_y: 0,
                ..p1
            }
        } else if p1.gravity < 0 {
            PlayerModel {
                is_on_ground: true,
                rotation: 0,
                touching_block_ceiling: true,
                pos_y: oy - 210 - cam,
                ..p1
            }
        } else {
            PlayerModel { is_on_ground: true, rotation: 0, ..p1 }
        }
    } else {
        PlayerModel { touching_block_ceiling: false, ..p1 }
    };
    let p3 = if spec_full_hits(box_pos, ox1 + 30, oy + 380 - cam, 370, 30) {
        if !jump_held {
            PlayerModel {
                is_on_ground: true,
                rotation: 0,
                pos_y: oy + 610 - cam,
                velocity_y: 0,
                ..p2
            }
        } else if p2.gravity > 0 {
            PlayerModel {
                is_on_ground: true,
                rotation: 0,
                touching_block_ceiling: true,
                pos_y: oy + 610 - cam,
                ..p2
            }
        } else {
            PlayerModel { is_on_ground: true, rotation: 0, ..p2 }
        }
    } else {
        PlayerModel { touching_block_ceiling: false, ..p2 }
    };
    if spec_full_hits(box_pos, ox1 + 800, oy - cam + 100, 30, 200) {
        PlayerModel { is_on_ground: false, ..p3 }
    } else {
        p3
    }
}

/// A pad's strip near the top of its cell: the plain pad hurls the player
/// against gravity, the gravity pad gives a smaller hurl and flips
/// gravity and jump force together to the opposite orientation.
pub open spec fn spec_pad_step(p: PlayerModel, o: ObjectStruct, box_pos: int, cfg: ConfigModel) -> PlayerModel {
    let ox = o@.x * 10 + p.world_offset;
    let oy = o@.y * 10 - p.camera_y * 10;
    if spec_full_hits(box_pos, ox, oy + 350, 400, 50) {
        if o@.id == 3 {
            PlayerModel {
                velocity_y: if p.gravity > 0 { -150int } else { 150 },
                is_on_ground: false,
                ..p
            }
        } else {
            if p.gravity > 0 {
                PlayerModel {
                    velocity_y: -70,
                    gravity: -cfg.default_gravity,
                    jump_force: -cfg.default_jump_force,
                    is_on_ground: false,
                    ..p
                }
            } else {
                PlayerModel {
                    velocity_y: 70,
                    gravity: cfg.default_gravity,
                    jump_force: cfg.default_jump_force,
                    is_on_ground: false,
                    ..p
                }
            }
        }
    } else {
        p
    }
}

/// An orb's 60 by 60 region around its cell: while overlapped the player
/// is airborne, and an armed orb fires its impulse only when the action
/// is held; the gravity orb flips gravity and jump force as the gravity
/// pad does.
pub open spec fn spec_orb_step(p: PlayerModel, o: ObjectStruct, box_pos: int, cfg: ConfigModel, jump_held: bool) -> PlayerModel {
    let ox = o@.x * 10 + p.world_offset;
    let oy = o@.y * 10 - p.camera_y * 10;
    if spec_full_hits(box_pos, ox - 100, oy - 100, 600, 600) {
        let p1 = if p.on_orb && jump_held {
            if o@.id == 4 {
                PlayerModel {
                    velocity_y: if p.gravity > 0 { -130int } else { 130 },
                    on_orb: false,
                    ..p
                }
            } else {
                if p.gravity > 0 {
                    PlayerModel {
                        velocity_y: -70,
                        gravity: -cfg.default_gravity,
                        jump_force: -cfg.default_jump_force,
                        on_orb: false,
                        ..p
                    }
                } else {
                    PlayerModel {
                        velocity_y: 70,
                        gravity: cfg.default_gravity,
                        jump_force: cfg.default_jump_force,
                        on_orb: false,
                        ..p
                    }
                }
            }
        } else {
            p
        };
        PlayerModel { is_on_ground: false, ..p1 }
    } else {
        p
    }
}

/// A portal's interaction region: a tall 20 by 80 box when the rotation
/// is upright, the perpendicular 80 by 20 box otherwise.
pub open spec fn spec_portal_hits(p: PlayerModel, o: ObjectStruct, box_pos: int) -> bool {
    let ox = o@.x * 10 + p.world_offset;
    let oy = o@.y * 10 - p.camera_y * 10;
    if spec_upright(o@.rotation) {
        spec_full_hits(box_pos, ox + 100, oy - 110, 200, 800)
    } else {
        spec_full_hits(box_pos, ox - 200, oy + 110, 800, 200)
    }
}

/// A gravity portal sets gravity and jump force to its fixed orientation:
/// inverted for the upside-down portal, normal for the right-side-up one.
pub open spec fn spec_gravity_portal_step(p: PlayerModel, o: ObjectStruct, box_pos: int, cfg: ConfigModel) -> PlayerModel {
    if spec_portal_hits(p, o, box_pos) {
        if o@.id == 5 {
            PlayerModel {
                jump_force: -cfg.default_jump_force,
                gravity: -cfg.default_gravity,
                is_on_ground: false,
                ..p
            }
        } else {
            PlayerModel {
                jump_force: cfg.default_jump_force,
                gravity: cfg.default_gravity,
                is_on_ground: false,
                ..p
            }
        }
    } else {
        p
    }
}

/// A mode portal sets the movement mode; the wave portal only works in
/// auto-scroll levels.
pub open spec fn spec_mode_portal_step(p: PlayerModel, o: ObjectStruct, box_pos: int, cfg: ConfigModel) -> PlayerModel {
    if spec_portal_hits(p, o, box_pos) {
        if o@.id == 8 {
            PlayerModel { mode: GameMode::Cube, is_on_ground: false, ..p }
        } else if o@.id == 9 {
            PlayerModel { mode: GameMode::Ship, is_on_ground: false, ..p }
        } else if o@.id == 24 {
            PlayerModel { mode: GameMode::Ball, is_on_ground: false, ..p }
        } else if o@.id == 25 && cfg.scroll == ScrollMode::Auto {
            PlayerModel { mode: GameMode::Wave, is_on_ground: false, ..p }
        } else {
            p
        }
    } else {
        p
    }
}

/// A speed portal sets the movement speed to the default times 1.0, 1.4,
/// 1.8 or 0.8 for ids 17, 18, 19 and 20.
pub open spec fn spec_speed_portal_step(p: PlayerModel, o: ObjectStruct, box_pos: int, cfg: ConfigModel) -> PlayerModel {
    if spec_portal_hits(p, o, box_pos) {
        let speed: int = if o@.id == 17 {
            cfg.default_speed
        } else if o@.id == 18 {
            (cfg.default_speed * 14) / 10
        } else if o@.id == 19 {
            (cfg.default_speed * 18) / 10
        } else {
            (cfg.default_speed * 8) / 10
        };
        PlayerModel { movement_speed: speed, ..p }
    } else {
        p
    }
}

/// What the end trigger would award right now: the built-in level's
/// difficulty if it is unbeaten, the online level's rated difficulty if
/// it is rated and unbeaten, otherwise nothing.
pub open spec fn spec_award_amount(prog: ProgressModel, ctx: LevelCtx, levels: Seq<MainLevel>) -> int {
    if !ctx.in_custom_level {
        if 0 <= ctx.current_level < prog.levels_completed.len()
            && ctx.current_level < levels.len()
            && !prog.levels_completed[ctx.current_level as int] {
            levels[ctx.current_level as int].difficulty as int
        } else {
            0
        }
    } else if ctx.online_level_rated
        && !prog.online_levels_beaten.contains(ctx.online_level_id) {
        ctx.online_level_diff as int
    } else {
        0
    }
}

/// The award state never overflows the star counter: what the end
/// trigger could add still fits.
pub open spec fn spec_stars_ok(prog: ProgressModel, ctx: LevelCtx, levels: Seq<MainLevel>) -> bool {
    prog.stars + spec_award_amount(prog, ctx, levels) <= u32::MAX
}

/// The end trigger's full cell: award stars once per level, then signal
/// completion.
pub open spec fn spec_end_trigger_step(f: FrameModel, o: ObjectStruct, box_pos: int, ctx: LevelCtx, levels: Seq<MainLevel>) -> FrameModel {
    let ox = o@.x * 10 + f.player.world_offset;
    let oy = o@.y * 10 - f.player.camera_y * 10;
    if spec_full_hits(box_pos, ox, oy, 400, 400) {
        let prog = f.progress;
        let prog1 = if !ctx.in_custom_level && !prog.levels_completed[ctx.current_level as int] {
            ProgressModel {
                stars: prog.stars + levels[ctx.current_level as int].difficulty,
                levels_completed: prog.levels_completed.update(ctx.current_level as int, true),
                ..prog
            }
        } else if ctx.online_level_rated && ctx.in_custom_level {
            if !prog.online_levels_beaten.contains(ctx.online_level_id) {
                ProgressModel {
                    stars: prog.stars + ctx.online_level_diff,
                    online_levels_beaten: prog.online_levels_beaten.push(ctx.online_level_id),
                    ..prog
                }
            } else {
                prog
            }
        } else {
            prog
        };
        FrameModel { progress: prog1, completed: true, ..f }
    } else {
        f
    }
}

/// A color trigger's full cell: the first tick of a contiguous overlap
/// applies its color to the background or the ground and latches; while
/// the latch holds, nothing more happens.
pub open spec fn spec_color_trigger_step(f: FrameModel, o: ObjectStruct, box_pos: int) -> FrameModel {
    let ox = o@.x * 10 + f.player.world_offset;
    let oy = o@.y * 10 - f.player.camera_y * 10;
    if spec_full_hits(box_pos, ox, oy, 400, 400) {
        let f1 = FrameModel { trigger_touched: true, ..f };
        if !f.player.touching_color_trigger {
            let env1 = match o@.properties {
                Some(tp) => {
                    if tp.kind == 1 {
                        EnvModel {
                            bg_red: tp.red as int,
                            bg_green: tp.green as int,
                            bg_blue: tp.blue as int,
                            ..f.env
                        }
                    } else if tp.kind == 2 {
                        EnvModel {
                            ground_red: tp.red as int,
                            ground_green: tp.green as int,
                            ground_blue: tp.blue as int,
                            ..f.env
                        }
                    } else {
                        f.env
                    }
                },
                None => f.env,
            };
            FrameModel {
                env: env1,
                player: PlayerModel { touching_color_trigger: true, ..f.player },
                ..f1
            }
        } else {
            f1
        }
    } else {
        f
    }
}

/// The effect of one touchable object on the frame, dispatched on its
/// type id; unknown ids do nothing.
pub open spec fn spec_object_step(f: FrameModel, o: ObjectStruct, box_pos: int, ctx: LevelCtx, levels: Seq<MainLevel>, cfg: ConfigModel, jump_held: bool) -> FrameModel {
    let id = o@.id;
    if id == 1 {
        FrameModel { player: spec_spike_step(f.player, o, box_pos), ..f }
    } else if id == 2 || (10 <= id <= 14) {
        FrameModel { player: spec_solid_step(f.player, o, box_pos, cfg, jump_held), ..f }
    } else if id == 3 || id == 21 {
        FrameModel { player: spec_pad_step(f.player, o, box_pos, cfg), ..f }
    } else if id == 4 || id == 22 {
        FrameModel { player: spec_orb_step(f.player, o, box_pos, cfg, jump_held), ..f }
    } else if id == 5 || id == 6 {
        FrameModel { player: spec_gravity_portal_step(f.player, o, box_pos, cfg), ..f }
    } else if id == 7 {
        FrameModel { player: spec_short_spike_step(f.player, o, box_pos), ..f }
    } else if id == 8 || id == 9 || id == 24 || id == 25 {
        FrameModel { player: spec_mode_portal_step(f.player, o, box_pos, cfg), ..f }
    } else if id == 15 {
        spec_end_trigger_step(f, o, box_pos, ctx, levels)
    } else if 17 <= id <= 20 {
        FrameModel { player: spec_speed_portal_step(f.player, o, box_pos, cfg), ..f }
    } else if id == 23 {
        spec_color_trigger_step(f, o, box_pos)
    } else {
        f
    }
}

/// Whether an object lies inside the generous on-screen window the pass
/// considers; off-window objects cannot have been reached this tick.
pub open spec fn spec_in_window(o: ObjectStruct, world_offset: int) -> bool {
    let ox = o@.x * 10 + world_offset;
    -400 < ox < 8000
}

/// One iteration of the pass: untouchable and off-window objects are
/// skipped, the rest apply their effect.
pub open spec fn spec_pass_step(f: FrameModel, o: ObjectStruct, box_pos: int, ctx: LevelCtx, levels: Seq<MainLevel>, cfg: ConfigModel, jump_held: bool) -> FrameModel {
    if o@.no_touch || !spec_in_window(o, f.player.world_offset) {
        f
    } else {
        spec_object_step(f, o, box_pos, ctx, levels, cfg, jump_held)
    }
}

/// The pass over a store prefix, in order.
pub open spec fn spec_pass(f: FrameModel, objs: Seq<ObjectStruct>, box_pos: int, ctx: LevelCtx, levels: Seq<MainLevel>, cfg: ConfigModel, jump_held: bool) -> FrameModel
    decreases objs.len(),
{
    if objs.len() == 0 {
        f
    } else {
        spec_pass(
            spec_pass_step(f, objs[0], box_pos, ctx, levels, cfg, jump_held),
            objs.subrange(1, objs.len() as int),
            box_pos,
            ctx,
            levels,
            cfg,
            jump_held,
        )
    }
}

/// The full resolution of one tick: the pass over the store, the color
/// trigger latch following whether any trigger is still touched, then the
/// terminal signal, death taking precedence over completion and clearing
/// the kill flag for the next life.
pub open spec fn spec_resolve(p: PlayerModel, env: EnvModel, prog: ProgressModel, objs: Seq<ObjectStruct>, ctx: LevelCtx, levels: Seq<MainLevel>, cfg: ConfigModel, jump_held: bool) -> ResolveOut {
    let f0 = FrameModel {
        player: p,
        env: env,
        progress: prog,
        completed: false,
        trigger_touched: false,
    };
    let f1 = spec_pass(f0, objs, p.pos_y, ctx, levels, cfg, jump_held);
    let p1 = PlayerModel { touching_color_trigger: f1.trigger_touched, ..f1.player };
    if p1.kill {
        ResolveOut {
            player: PlayerModel { kill: false, ..p1 },
            env: f1.env,
            progress: f1.progress,
            terminal: Some(Terminal::Died),
        }
    } else if f1.completed {
        ResolveOut {
            player: p1,
            env: f1.env,
            progress: f1.progress,
            terminal: Some(Terminal::Completed),
        }
    } else {
        ResolveOut { player: p1, env: f1.env, progress: f1.progress, terminal: None }
    }
}

/// Coordinate magnitude up to which interaction rectangles stay well
/// inside the overlap test's range.
pub const HITBOX_COORD_LIMIT: i64 = 2_000_000_000_000_000;

/// Overlap of the full 40x40 player box with a rectangle, on machine
/// integers.
fn full_hits(box_pos: i64, rx: i64, ry: i64, rw: i64, rh: i64) -> (r: bool)
    requires
        -POS_LIMIT - VEL_LIMIT <= box_pos <= POS_LIMIT + VEL_LIMIT,
        -HITBOX_COORD_LIMIT <= rx <= HITBOX_COORD_LIMIT,
        -HITBOX_COORD_LIMIT <= ry <= HITBOX_COORD_LIMIT,
        0 <= rw <= 1000,
        0 <= rh <= 1000,
    ensures
        r == spec_full_hits(box_pos as int, rx as int, ry as int, rw as int, rh as int),
{
    rects_overlap(
        &DeciRect { x: 1800, y: box_pos - 200, w: 400, h: 400 },
        &DeciRect { x: rx, y: ry, w: rw, h: rh },
    )
}

/// Overlap of the narrow 20x20 player box with a rectangle, on machine
/// integers.
fn small_hits(box_pos: i64, rx: i64, ry: i64, rw: i64, rh: i64) -> (r: bool)
    requires
        -POS_LIMIT - VEL_LIMIT <= box_pos <= POS_LIMIT + VEL_LIMIT,
        -HITBOX_COORD_LIMIT <= rx <= HITBOX_COORD_LIMIT,
        -HITBOX_COORD_LIMIT <= ry <= HITBOX_COORD_LIMIT,
        0 <= rw <= 1000,
        0 <= rh <= 1000,
    ensures
        r == spec_small_hits(box_pos as int, rx as int, ry as int, rw as int, rh as int),
{
    rects_overlap(
        &DeciRect { x: 1950, y: box_pos - 100, w: 200, h: 200 },
        &DeciRect { x: rx, y: ry, w: rw, h: rh },
    )
}

/// The preconditions shared by every per-object effect.
pub open spec fn spec_step_pre(p: PlayerModel, o: ObjectStruct, box_pos: int) -> bool {
    &&& p.sim_bounds()
    &&& o@.wf()
    &&& -POS_LIMIT - VEL_LIMIT <= box_pos <= POS_LIMIT + VEL_LIMIT
}

/// The spike's effect on the machine state.
fn spike_step(object: &ObjectStruct, state: &mut PlayerState, box_pos: i64)
    requires
        spec_step_pre(old(state)@, *object, box_pos as int),
    ensures
        final(state)@ == spec_spike_step(old(state)@, *object, box_pos as int),
{
    let ox = (object.x as i64) * 10 + state.world_offset;
    let oy = (object.y as i64) * 10 - state.camera_y * 10;
    let hit = full_hits(box_pos, ox + 200, oy + 200, 100, 200);
    state.kill = state.kill || hit;
}

/// The short spike's effect on the machine state.
fn short_spike_step(object: &ObjectStruct, state: &mut PlayerState, box_pos: i64)
    requires
        spec_step_pre(old(state)@, *object, box_pos as int),
    ensures
        final(state)@ == spec_short_spike_step(old(state)@, *object, box_pos as int),
{
    let ox = (object.x as i64) * 10 + state.world_offset;
    let oy = (object.y as i64) * 10 - state.camera_y * 10;
    let lift: i64 = if object.rotation > 145 || object.rotation < -145 { 50 } else { 250 };
    let hit = full_hits(box_pos, ox + 200, oy + lift, 100, 100);
    state.kill = state.kill || hit;
}

/// A solid block's effect on the machine state.
#[verifier::rlimit(100)]
fn solid_step(object: &ObjectStruct, state: &mut PlayerState, box_pos: i64, cfg: &PhysicsConfig, jump_held: bool)
    requires
        spec_step_pre(old(state)@, *object, box_pos as int),
    ensures
        final(state)@ == spec_solid_step(old(state)@, *object, box_pos as int, cfg@, jump_held),
{
    let ox = (object.x as i64) * 10 + state.world_offset;
    let oy = (object.y as i64) * 10;
    let cam = state.camera_y * 10;
    match cfg.scroll {
        ScrollMode::Auto => {
            let hit = small_hits(box_pos, ox, oy + 100 - cam, 30, 200);
            state.kill = state.kill || hit;
        },
        ScrollMode::Free => {
            if full_hits(box_pos, ox, oy + 200 - cam, 30, 30) {
                state.world_offset = -((object.x as i64) * 10 - 2200);
            } else if full_hits(box_pos, ox + 400, oy + 200 - cam, 30, 30) {
                state.world_offset = -((object.x as i64) * 10 - 1400);
            }
        },
    }
    let ox1 = (object.x as i64) * 10 + state.world_offset;
    if full_hits(box_pos, ox1 + 30, oy + 10 - cam, 370, 30) {
        state.is_on_ground = true;
        state.rotation = 0;
        if !jump_held {
            state.pos_y = oy - 190 - cam;
            state.velocity_y = 0;
        } else if state.gravity < 0 {
            state.touching_block_ceiling = true;
            state.pos_y = oy - 210 - cam;
        }
    } else {
        state.touching_block_ceiling = false;
    }
    if full_hits(box_pos, ox1 + 30, oy + 380 - cam, 370, 30) {
        state.is_on_ground = true;
        state.rotation = 0;
        if !jump_held {
            state.pos_y = oy + 610 - cam;
            state.velocity_y = 0;
        } else if state.gravity > 0 {
            state.touching_block_ceiling = true;
            state.pos_y = oy + 610 - cam;
        }
    } else {
        state.touching_block_ceiling = false;
    }
    if full_hits(box_pos, ox1 + 800, oy - cam + 100, 30, 200) {
        state.is_on_ground = false;
    }
}

/// A pad's effect on the machine state.
fn pad_step(object: &ObjectStruct, state: &mut PlayerState, box_pos: i64, cfg: &PhysicsConfig)
    requires
        spec_step_pre(old(state)@, *object, box_pos as int),
        cfg@.wf(),
    ensures
        final(state)@ == spec_pad_step(old(state)@, *object, box_pos as int, cfg@),
{
    let ox = (object.x as i64) * 10 + state.world_offset;
    let oy = (object.y as i64) * 10 - state.camera_y * 10;
    if full_hits(box_pos, ox, oy + 350, 400, 50) {
        if object.id == 3 {
            state.velocity_y = if state.gravity > 0 { -150 } else { 150 };
        } else {
            if state.gravity > 0 {
                state.velocity_y = -70;
                state.gravity = -cfg.default_gravity;
                state.jump_force = -cfg.default_jump_force;
            } else {
                state.velocity_y = 70;
                state.gravity = cfg.default_gravity;
                state.jump_force = cfg.default_jump_force;
            }
        }
        state.is_on_ground = false;
    }
}

/// An orb's effect on the machine state.
fn orb_step(object: &ObjectStruct, state: &mut PlayerState, box_pos: i64, cfg: &PhysicsConfig, jump_held: bool)
    requires
        spec_step_pre(old(state)@, *object, box_pos as int),
        cfg@.wf(),
    ensures
        final(state)@ == spec_orb_step(old(state)@, *object, box_pos as int, cfg@, jump_held),
{
    let ox = (object.x as i64) * 10 + state.world_offset;
    let oy = (object.y as i64) * 10 - state.camera_y * 10;
    if full_hits(box_pos, ox - 100, oy - 100, 600, 600) {
        if state.on_orb && jump_held {
            if object.id == 4 {
                state.velocity_y = if state.gravity > 0 { -130 } else { 130 };
            } else {
                if state.gravity > 0 {
                    state.velocity_y = -70;
                    state.gravity = -cfg.default_gravity;
                    state.jump_force = -cfg.default_jump_force;
                } else {
                    state.velocity_y = 70;
                    state.gravity = cfg.default_gravity;
                    state.jump_force = cfg.default_jump_force;
                }
            }
            state.on_orb = false;
        }
        state.is_on_ground = false;
    }
}

/// Overlap with a portal's rotation-dependent region, on machine
/// integers.
fn portal_hits(object: &ObjectStruct, state: &PlayerState, box_pos: i64) -> (r: bool)
    requires
        spec_step_pre(state@, *object, box_pos as int),
    ensures
        r == spec_portal_hits(state@, *object, box_pos as int),
{
    let ox = (object.x as i64) * 10 + state.world_offset;
    let oy = (object.y as i64) * 10 - state.camera_y * 10;
    if object.rotation == 0 || object.rotation == 180 || object.rotation == -180 {
        full_hits(box_pos, ox + 100, oy - 110, 200, 800)
    } else {
        full_hits(box_pos, ox - 200, oy + 110, 800, 200)
    }
}

/// A gravity portal's effect on the machine state.
fn gravity_portal_step(object: &ObjectStruct, state: &mut PlayerState, box_pos: i64, cfg: &PhysicsConfig)
    requires
        spec_step_pre(old(state)@, *object, box_pos as int),
        cfg@.wf(),
    ensures
        final(state)@ == spec_gravity_portal_step(old(state)@, *object, box_pos as int, cfg@),
{
    if portal_hits(object, state, box_pos) {
        if object.id == 5 {
            state.jump_force = -cfg.default_jump_force;
            state.gravity = -cfg.default_gravity;
        } else {
            state.jump_force = cfg.default_jump_force;
            state.gravity = cfg.default_gravity;
        }
        state.is_on_ground = false;
    }
}

/// A mode portal's effect on the machine state.
fn mode_portal_step(object: &ObjectStruct, state: &mut PlayerState, box_pos: i64, cfg: &PhysicsConfig)
    requires
        spec_step_pre(old(state)@, *object, box_pos as int),
    ensures
        final(state)@ == spec_mode_portal_step(old(state)@, *object, box_pos as int, cfg@),
{
    if portal_hits(object, state, box_pos) {
        if object.id == 8 {
            state.mode = GameMode::Cube;
            state.is_on_ground = false;
        } else if object.id == 9 {
            state.mode = GameMode::Ship;
            state.is_on_ground = false;
        } else if object.id == 24 {
            state.mode = GameMode::Ball;
            state.is_on_ground = false;
        } else if object.id == 25 && cfg.scroll == ScrollMode::Auto {
            state.mode = GameMode::Wave;
            state.is_on_ground = false;
        }
    }
}

/// A speed portal's effect on the machine state.
fn speed_portal_step(object: &ObjectStruct, state: &mut PlayerState, box_pos: i64, cfg: &PhysicsConfig)
    requires
        spec_step_pre(old(state)@, *object, box_pos as int),
        cfg@.wf(),
    ensures
        final(state)@ == spec_speed_portal_step(old(state)@, *object, box_pos as int, cfg@),
{
    if portal_hits(object, state, box_pos) {
        state.movement_speed = if object.id == 17 {
            cfg.default_speed
        } else if object.id == 18 {
            (cfg.default_speed * 14) / 10
        } else if object.id == 19 {
            (cfg.default_speed * 18) / 10
        } else {
            (cfg.default_speed * 8) / 10
        };
    }
}

/// Applies one object's effect to the running frame, dispatching on its
/// type id exactly as `spec_object_step` does. Objects are handed to this
/// function by the pass; untouchable or off-window ones never reach it.
pub fn hitbox_collision(
    object: &ObjectStruct,
    state: &mut PlayerState,
    env: &mut EnvColors,
    progress: &mut Progress,
    completed: &mut bool,
    trigger_touched: &mut bool,
    main_levels: &Vec<MainLevel>,
    ctx: &LevelCtx,
    cfg: &PhysicsConfig,
    input: &TickInput,
    box_pos: i64,
)
    requires
        spec_step_pre(old(state)@, *object, box_pos as int),
        cfg@.wf(),
        ctx.current_level < main_levels@.len(),
        ctx.current_level < old(progress)@.levels_completed.len(),
        spec_stars_ok(old(progress)@, *ctx, main_levels@),
    ensures
        (FrameModel {
            player: final(state)@,
            env: final(env)@,
            progress: final(progress)@,
            completed: *final(completed),
            trigger_touched: *final(trigger_touched),
        }) == spec_object_step(
            FrameModel {
                player: old(state)@,
                env: old(env)@,
                progress: old(progress)@,
                completed: *old(completed),
                trigger_touched: *old(trigger_touched),
            },
            *object,
            box_pos as int,
            *ctx,
            main_levels@,
            cfg@,
            input.jump_held,
        ),
{
    let id = object.id;
    if id == 1 {
        spike_step(object, state, box_pos);
    } else if id == 2 || (10 <= id && id <= 14) {
        solid_step(object, state, box_pos, cfg, input.jump_held);
    } else if id == 3 || id == 21 {
        pad_step(object, state, box_pos, cfg);
    } else if id == 4 || id == 22 {
        orb_step(object, state, box_pos, cfg, input.jump_held);
    } else if id == 5 || id == 6 {
        gravity_portal_step(object, state, box_pos, cfg);
    } else if id == 7 {
        short_spike_step(object, state, box_pos);
    } else if id == 8 || id == 9 || id == 24 || id == 25 {
        mode_portal_step(object, state, box_pos, cfg);
    } else if id == 15 {
        let ox = (object.x as i64) * 10 + state.world_offset;
        let oy = (object.y as i64) * 10 - state.camera_y * 10;
        if full_hits(box_pos, ox, oy, 400, 400) {
            if !ctx.in_custom_level && !progress.levels_completed[ctx.current_level] {
                let diff = main_levels[ctx.current_level].difficulty;
                progress.stars = progress.stars + diff as u32;
                progress.levels_completed.set(ctx.current_level, true);
            } else if ctx.online_level_rated && ctx.in_custom_level {
                if !beaten_contains(&progress.online_levels_beaten, ctx.online_level_id) {
                    progress.stars = progress.stars + ctx.online_level_diff as u32;
                    progress.online_levels_beaten.push(ctx.online_level_id);
                }
            }
            *completed = true;
        }
    } else if 17 <= id && id <= 20 {
        speed_portal_step(object, state, box_pos, cfg);
    } else if id == 23 {
        let ox = (object.x as i64) * 10 + state.world_offset;
        let oy = (object.y as i64) * 10 - state.camera_y * 10;
        if full_hits(box_pos, ox, oy, 400, 400) {
            *trigger_touched = true;
            if !state.touching_color_trigger {
                match object.properties {
                    Some(tp) => {
                        if tp.kind == 1 {
                            env.bg_red = tp.red;
                            env.bg_green = tp.green;
                            env.bg_blue = tp.blue;
                        } else if tp.kind == 2 {
                            env.ground_red = tp.red as i32;
                            env.ground_green = tp.green as i32;
                            env.ground_blue = tp.blue as i32;
                        }
                    },
                    None => {},
                }
                state.touching_color_trigger = true;
            }
        }
    }
}

/// One pass iteration keeps the player inside the simulation bounds,
/// keeps the star counter's headroom, and never changes the length of the
/// completed-levels table.
#[verifier::rlimit(100)]
pub proof fn lemma_pass_step_props(f: FrameModel, o: ObjectStruct, box_pos: int, ctx: LevelCtx, levels: Seq<MainLevel>, cfg: ConfigModel, jump_held: bool)
    requires
        f.player.sim_bounds(),
        o@.wf(),
        cfg.wf(),
        spec_stars_ok(f.progress, ctx, levels),
        ctx.current_level < f.progress.levels_completed.len(),
        ctx.current_level < levels.len(),
    ensures
        ({
            let f1 = spec_pass_step(f, o, box_pos, ctx, levels, cfg, jump_held);
            &&& f1.player.sim_bounds()
            &&& spec_stars_ok(f1.progress, ctx, levels)
            &&& f1.progress.levels_completed.len() == f.progress.levels_completed.len()
        }),
{
    let f1 = spec_pass_step(f, o, box_pos, ctx, levels, cfg, jump_held);
    if !o@.no_touch && spec_in_window(o, f.player.world_offset) && o@.id == 15 {
        let prog = f.progress;
        let prog1 = f1.progress;
        if spec_full_hits(
            box_pos,
            o@.x * 10 + f.player.world_offset,
            o@.y * 10 - f.player.camera_y * 10,
            400,
            400,
        ) {
            if ctx.in_custom_level && ctx.online_level_rated
                && !prog.online_levels_beaten.contains(ctx.online_level_id) {
                assert(prog1.online_levels_beaten[prog.online_levels_beaten.len() as int]
                    == ctx.online_level_id);
                assert(prog1.online_levels_beaten.contains(ctx.online_level_id));
            }
        }
    }
    assert(f1.player.sim_bounds());
}

/// Extending the pass by one object on the right applies that object's
/// iteration to the pass over the prefix.
pub proof fn lemma_pass_snoc(f: FrameModel, objs: Seq<ObjectStruct>, o: ObjectStruct, box_pos: int, ctx: LevelCtx, levels: Seq<MainLevel>, cfg: ConfigModel, jump_held: bool)
    ensures
        spec_pass(f, objs.push(o), box_pos, ctx, levels, cfg, jump_held)
            == spec_pass_step(
                spec_pass(f, objs, box_pos, ctx, levels, cfg, jump_held),
                o, box_pos, ctx, levels, cfg, jump_held,
            ),
    decreases objs.len(),
{
    let s = objs.push(o);
    if objs.len() == 0 {
        assert(s[0] == o);
        assert(s.subrange(1, s.len() as int) =~= Seq::<ObjectStruct>::empty());
        let f1 = spec_pass_step(f, o, box_pos, ctx, levels, cfg, jump_held);
        assert(spec_pass(f1, s.subrange(1, s.len() as int), box_pos, ctx, levels, cfg, jump_held) == f1);
        assert(spec_pass(f, objs, box_pos, ctx, levels, cfg, jump_held) == f);
    } else {
        assert(s[0] == objs[0]);
        assert(s.subrange(1, s.len() as int) =~= objs.subrange(1, objs.len() as int).push(o));
        lemma_pass_snoc(
            spec_pass_step(f, objs[0], box_pos, ctx, levels, cfg, jump_held),
            objs.subrange(1, objs.len() as int),
            o, box_pos, ctx, levels, cfg, jump_held,
        );
    }
}

/// Resolves one tick's collisions: walks the object store in order,
/// applies every touchable on-screen object's effect, settles the color
/// trigger latch, and derives the terminal signal, exactly as
/// `spec_resolve` describes.
pub fn resolve(
    state: &mut PlayerState,
    object_grid: &Vec<ObjectStruct>,
    env: &mut EnvColors,
    progress: &mut Progress,
    main_levels: &Vec<MainLevel>,
    ctx: &LevelCtx,
    cfg: &PhysicsConfig,
    input: &TickInput,
) -> (t: Option<Terminal>)
    requires
        old(state)@.sim_bounds(),
        cfg@.wf(),
        forall|i: int| 0 <= i < object_grid@.len() ==> object_grid@[i].wf(),
        ctx.current_level < main_levels@.len(),
        ctx.current_level < old(progress)@.levels_completed.len(),
        spec_stars_ok(old(progress)@, *ctx, main_levels@),
    ensures
        ({
            let out = spec_resolve(
                old(state)@, old(env)@, old(progress)@, object_grid@,
                *ctx, main_levels@, cfg@, input.jump_held,
            );
            &&& final(state)@ == out.player
            &&& final(env)@ == out.env
            &&& final(progress)@ == out.progress
            &&& t == out.terminal
        }),
        final(state)@.sim_bounds(),
{
    let box_pos = state.pos_y;
    let mut completed = false;
    let mut trigger_touched = false;
    let ghost f0 = FrameModel {
        player: state@,
        env: env@,
        progress: progress@,
        completed: false,
        trigger_touched: false,
    };
    let mut i: usize = 0;
    while i < object_grid.len()
        invariant
            0 <= i <= object_grid@.len(),
            forall|j: int| 0 <= j < object_grid@.len() ==> object_grid@[j].wf(),
            cfg@.wf(),
            -POS_LIMIT - VEL_LIMIT <= box_pos <= POS_LIMIT + VEL_LIMIT,
            ctx.current_level < main_levels@.len(),
            ctx.current_level < progress@.levels_completed.len(),
            spec_stars_ok(progress@, *ctx, main_levels@),
            state@.sim_bounds(),
            (FrameModel {
                player: state@,
                env: env@,
                progress: progress@,
                completed: completed,
                trigger_touched: trigger_touched,
            }) == spec_pass(
                f0, object_grid@.take(i as int), box_pos as int,
                *ctx, main_levels@, cfg@, input.jump_held,
            ),
        decreases object_grid@.len() - i,
    {
        let ghost prefix = object_grid@.take(i as int);
        let ghost cur = FrameModel {
            player: state@,
            env: env@,
            progress: progress@,
            completed: completed,
            trigger_touched: trigger_touched,
        };
        let object = &object_grid[i];
        let ox = (object.x as i64) * 10 + state.world_offset;
        if !object.no_touch && ox < 8000 && ox > -400 {
            hitbox_collision(
                object, state, env, progress, &mut completed, &mut trigger_touched,
                main_levels, ctx, cfg, input, box_pos,
            );
        }
        proof {
            lemma_pass_step_props(
                cur, object_grid@[i as int], box_pos as int,
                *ctx, main_levels@, cfg@, input.jump_held,
            );
            lemma_pass_snoc(
                f0, prefix, object_grid@[i as int], box_pos as int,
                *ctx, main_levels@, cfg@, input.jump_held,
            );
            assert(object_grid@.take(i + 1) =~= prefix.push(object_grid@[i as int]));
        }
        i += 1;
    }
    proof {
        assert(object_grid@.take(object_grid@.len() as int) =~= object_grid@);
    }
    state.touching_color_trigger = trigger_touched;
    if state.kill {
        state.kill = false;
        Some(Terminal::Died)
    } else if completed {
        Some(Terminal::Completed)
    } else {
        None
    }
}

/// One whole simulation tick: the integrator's transition followed by the
/// collision pass and its terminal signal.
pub open spec fn spec_tick(p: PlayerModel, env: EnvModel, prog: ProgressModel, objs: Seq<ObjectStruct>, ctx: LevelCtx, levels: Seq<MainLevel>, cfg: ConfigModel, input: TickInput) -> ResolveOut {
    spec_resolve(spec_advance(p, cfg, input), env, prog, objs, ctx, levels, cfg, input.jump_held)
}

/// Runs one simulation tick: advances the physics, resolves the object
/// store against the new position, and reports whether the player died or
/// completed the level. Computes exactly `spec_tick`.
pub fn tick(
    state: &mut PlayerState,
    object_grid: &Vec<ObjectStruct>,
    env: &mut EnvColors,
    progress: &mut Progress,
    main_levels: &Vec<MainLevel>,
    ctx: &LevelCtx,
    cfg: &PhysicsConfig,
    input: &TickInput,
) -> (t: Option<Terminal>)
    requires
        old(state)@.wf(),
        cfg@.wf(),
        forall|i: int| 0 <= i < object_grid@.len() ==> object_grid@[i].wf(),
        ctx.current_level < main_levels@.len(),
        ctx.current_level < old(progress)@.levels_completed.len(),
        spec_stars_ok(old(progress)@, *ctx, main_levels@),
    ensures
        ({
            let out = spec_tick(
                old(state)@, old(env)@, old(progress)@, object_grid@,
                *ctx, main_levels@, cfg@, *input,
            );
            &&& final(state)@ == out.player
            &&& final(env)@ == out.env
            &&& final(progress)@ == out.progress
            &&& t == out.terminal
        }),
        final(state)@.sim_bounds(),
{
    proof {
        lemma_advance_stage_bounds(state@, cfg@, *input);
    }
    physics_handle(state, cfg, input);
    resolve(state, object_grid, env, progress, main_levels, ctx, cfg, input)
}

/// Linear membership test on the beaten-online-levels list.
fn beaten_contains(v: &Vec<u16>, x: u16) -> (r: bool)
    ensures
        r == v@.contains(x),
{
    let mut i: usize = 0;
    while i < v.len()
        invariant
            0 <= i <= v@.len(),
            forall|j: int| 0 <= j < i ==> v@[j] != x,
        decreases v@.len() - i,
    {
        if v[i] == x {
            assert(v@.contains(x));
            return true;
        }
        i += 1;
    }
    false
}

} // verus!
