//! The library's laws: properties of the simulation that hold across all
//! inputs, stated over the mathematical transition functions and proved
//! once and for all.

use vstd::prelude::*;
use crate::state::{PlayerModel, ConfigModel, TickInput, GameMode, Terminal, GROUND_DECI};
use crate::objects::{ObjectStruct, ObjectCategory, spec_category_of};
use crate::world::{EnvModel, ProgressModel, MainLevel, LevelCtx};
use crate::physics::{spec_advance, spec_mode_rule, spec_scroll, spec_gravity_step};
use crate::collision::{
    FrameModel, spec_pass, spec_pass_step, spec_resolve, spec_tick, spec_portal_hits,
    spec_speed_portal_step,
};

verus! {

/// Ground clamp: a Cube tick that starts one pixel above the ground with
/// a neutral camera and enough downward motion to cross the ground line
/// ends exactly on it, with zero velocity and the ground flag set.
///
/// The downward-motion premise is necessary: with an upward velocity
/// (say -13.0 from a jump) the player leaves the ground instead.
pub proof fn lemma_ground_clamp(s: PlayerModel, cfg: ConfigModel, input: TickInput)
    requires
        s.wf(),
        cfg.wf(),
        s.mode == GameMode::Cube,
        s.pos_y == GROUND_DECI - 10,
        s.camera_y == 0,
        s.gravity > 0,
        !input.jump_held,
        -200 < s.velocity_y < 200 ==> s.velocity_y + s.gravity >= 10,
        s.velocity_y > -200,
    ensures
        spec_advance(s, cfg, input).pos_y == GROUND_DECI,
        spec_advance(s, cfg, input).velocity_y == 0,
        spec_advance(s, cfg, input).is_on_ground,
{
    let s1 = spec_mode_rule(s, cfg, input.jump_held);
    let s2 = spec_scroll(s1, cfg, input.move_right, input.move_left);
    let s3 = spec_gravity_step(s2);
    assert(s3.pos_y + s3.velocity_y >= GROUND_DECI);
}

/// Gravity sign invariant, integrator half: one physics tick keeps the
/// signs of gravity and jump force aligned.
pub proof fn lemma_advance_gravity_sign(s: PlayerModel, cfg: ConfigModel, input: TickInput)
    requires
        s.gravity_sign_ok(),
    ensures
        spec_advance(s, cfg, input).gravity_sign_ok(),
{
}

/// Gravity sign invariant, resolver half: every object's effect keeps the
/// signs of gravity and jump force aligned, over the whole pass.
#[verifier::rlimit(100)]
pub proof fn lemma_pass_gravity_sign(f: FrameModel, objs: Seq<ObjectStruct>, box_pos: int, ctx: LevelCtx, levels: Seq<MainLevel>, cfg: ConfigModel, jump_held: bool)
    requires
        f.player.gravity_sign_ok(),
        cfg.wf(),
    ensures
        spec_pass(f, objs, box_pos, ctx, levels, cfg, jump_held).player.gravity_sign_ok(),
    decreases objs.len(),
{
    if objs.len() > 0 {
        let f1 = spec_pass_step(f, objs[0], box_pos, ctx, levels, cfg, jump_held);
        assert(f1.player.gravity_sign_ok());
        lemma_pass_gravity_sign(
            f1, objs.subrange(1, objs.len() as int), box_pos, ctx, levels, cfg, jump_held,
        );
    }
}

/// Gravity sign invariant: after any whole tick, over any object store,
/// `sign(gravity) == sign(jump_force)` still holds.
pub proof fn lemma_tick_gravity_sign(p: PlayerModel, env: EnvModel, prog: ProgressModel, objs: Seq<ObjectStruct>, ctx: LevelCtx, levels: Seq<MainLevel>, cfg: ConfigModel, input: TickInput)
    requires
        p.gravity_sign_ok(),
        cfg.wf(),
    ensures
        spec_tick(p, env, prog, objs, ctx, levels, cfg, input).player.gravity_sign_ok(),
{
    lemma_advance_gravity_sign(p, cfg, input);
    let p1 = spec_advance(p, cfg, input);
    let f0 = FrameModel {
        player: p1,
        env: env,
        progress: prog,
        completed: false,
        trigger_touched: false,
    };
    lemma_pass_gravity_sign(f0, objs, p1.pos_y, ctx, levels, cfg, input.jump_held);
}

/// Ship clamp: in Ship mode the integrator never pushes the velocity's
/// magnitude past 10, whatever is held and however gravity points.
pub proof fn lemma_ship_velocity_clamp(s: PlayerModel, cfg: ConfigModel, input: TickInput)
    requires
        s.wf(),
        cfg.wf(),
        s.mode == GameMode::Ship,
        -100 <= s.velocity_y <= 100,
    ensures
        -100 <= spec_advance(s, cfg, input).velocity_y <= 100,
{
}

/// Kill consumption: a resolution pass always leaves the kill flag
/// cleared — when it was set, the tick reports the death and resets it
/// for the next life.
pub proof fn lemma_resolve_clears_kill(p: PlayerModel, env: EnvModel, prog: ProgressModel, objs: Seq<ObjectStruct>, ctx: LevelCtx, levels: Seq<MainLevel>, cfg: ConfigModel, jump_held: bool)
    ensures
        !spec_resolve(p, env, prog, objs, ctx, levels, cfg, jump_held).player.kill,
{
}

/// Only hazards and solid-block edges can set the kill flag: a pass over
/// a store holding neither keeps a cleared kill flag cleared.
#[verifier::rlimit(100)]
pub proof fn lemma_pass_no_hazard_no_kill(f: FrameModel, objs: Seq<ObjectStruct>, box_pos: int, ctx: LevelCtx, levels: Seq<MainLevel>, cfg: ConfigModel, jump_held: bool)
    requires
        !f.player.kill,
        forall|i: int| 0 <= i < objs.len() ==> spec_category_of(objs[i]@.id) != ObjectCategory::Hazard
            && spec_category_of(objs[i]@.id) != ObjectCategory::Solid,
    ensures
        !spec_pass(f, objs, box_pos, ctx, levels, cfg, jump_held).player.kill,
    decreases objs.len(),
{
    if objs.len() > 0 {
        assert(spec_category_of(objs[0]@.id) != ObjectCategory::Hazard
            && spec_category_of(objs[0]@.id) != ObjectCategory::Solid);
        let f1 = spec_pass_step(f, objs[0], box_pos, ctx, levels, cfg, jump_held);
        assert(!f1.player.kill);
        lemma_pass_no_hazard_no_kill(
            f1, objs.subrange(1, objs.len() as int), box_pos, ctx, levels, cfg, jump_held,
        );
    }
}

/// Kill idempotence per life: once a death was consumed (the kill flag is
/// clear), a tick over a store without hazards or solids cannot report
/// another death, and leaves the flag clear.
pub proof fn lemma_tick_no_hazard_no_death(p: PlayerModel, env: EnvModel, prog: ProgressModel, objs: Seq<ObjectStruct>, ctx: LevelCtx, levels: Seq<MainLevel>, cfg: ConfigModel, input: TickInput)
    requires
        !p.kill,
        forall|i: int| 0 <= i < objs.len() ==> spec_category_of(objs[i]@.id) != ObjectCategory::Hazard
            && spec_category_of(objs[i]@.id) != ObjectCategory::Solid,
    ensures
        spec_tick(p, env, prog, objs, ctx, levels, cfg, input).terminal != Some(Terminal::Died),
        !spec_tick(p, env, prog, objs, ctx, levels, cfg, input).player.kill,
{
    let p1 = spec_advance(p, cfg, input);
    assert(!p1.kill);
    let f0 = FrameModel {
        player: p1,
        env: env,
        progress: prog,
        completed: false,
        trigger_touched: false,
    };
    lemma_pass_no_hazard_no_kill(f0, objs, p1.pos_y, ctx, levels, cfg, input.jump_held);
}

/// A touched 2x speed portal sets the movement speed to 1.4 times the
/// default, exactly.
pub proof fn lemma_speed_portal_sets(p: PlayerModel, o: ObjectStruct, box_pos: int, cfg: ConfigModel)
    requires
        o@.id == 18,
        spec_portal_hits(p, o, box_pos),
    ensures
        spec_speed_portal_step(p, o, box_pos, cfg).movement_speed == (cfg.default_speed * 14) / 10,
{
}

/// Speed persistence, resolver half: a pass over a store without speed
/// portals never changes the movement speed.
#[verifier::rlimit(100)]
pub proof fn lemma_pass_speed_unchanged(f: FrameModel, objs: Seq<ObjectStruct>, box_pos: int, ctx: LevelCtx, levels: Seq<MainLevel>, cfg: ConfigModel, jump_held: bool)
    requires
        forall|i: int| 0 <= i < objs.len() ==> spec_category_of(objs[i]@.id) != ObjectCategory::SpeedPortal,
    ensures
        spec_pass(f, objs, box_pos, ctx, levels, cfg, jump_held).player.movement_speed
            == f.player.movement_speed,
    decreases objs.len(),
{
    if objs.len() > 0 {
        assert(spec_category_of(objs[0]@.id) != ObjectCategory::SpeedPortal);
        let f1 = spec_pass_step(f, objs[0], box_pos, ctx, levels, cfg, jump_held);
        assert(f1.player.movement_speed == f.player.movement_speed);
        lemma_pass_speed_unchanged(
            f1, objs.subrange(1, objs.len() as int), box_pos, ctx, levels, cfg, jump_held,
        );
    }
}

/// Speed persistence: a changed movement speed survives every tick whose
/// store holds no speed portal — only another speed portal can change it.
pub proof fn lemma_tick_speed_persists(p: PlayerModel, env: EnvModel, prog: ProgressModel, objs: Seq<ObjectStruct>, ctx: LevelCtx, levels: Seq<MainLevel>, cfg: ConfigModel, input: TickInput)
    requires
        forall|i: int| 0 <= i < objs.len() ==> spec_category_of(objs[i]@.id) != ObjectCategory::SpeedPortal,
    ensures
        spec_tick(p, env, prog, objs, ctx, levels, cfg, input).player.movement_speed
            == p.movement_speed,
{
    let p1 = spec_advance(p, cfg, input);
    assert(p1.movement_speed == p.movement_speed);
    let f0 = FrameModel {
        player: p1,
        env: env,
        progress: prog,
        completed: false,
        trigger_touched: false,
    };
    lemma_pass_speed_unchanged(f0, objs, p1.pos_y, ctx, levels, cfg, input.jump_held);
}

/// Color trigger single fire, latched half: while the latch from an
/// earlier contact still holds, a pass changes no environment color and
/// keeps the latch wherever a trigger is still touched.
#[verifier::rlimit(100)]
pub proof fn lemma_pass_latched_env_unchanged(f: FrameModel, objs: Seq<ObjectStruct>, box_pos: int, ctx: LevelCtx, levels: Seq<MainLevel>, cfg: ConfigModel, jump_held: bool)
    requires
        f.player.touching_color_trigger,
    ensures
        ({
            let f1 = spec_pass(f, objs, box_pos, ctx, levels, cfg, jump_held);
            &&& f1.env == f.env
            &&& f1.player.touching_color_trigger
        }),
    decreases objs.len(),
{
    if objs.len() > 0 {
        let f1 = spec_pass_step(f, objs[0], box_pos, ctx, levels, cfg, jump_held);
        assert(f1.env == f.env && f1.player.touching_color_trigger);
        lemma_pass_latched_env_unchanged(
            f1, objs.subrange(1, objs.len() as int), box_pos, ctx, levels, cfg, jump_held,
        );
    }
}

/// Color trigger single fire: a tick that starts with the latch held (the
/// player already stood in a trigger last tick) repaints nothing, however
/// long the player keeps standing there.
pub proof fn lemma_tick_latched_env_unchanged(p: PlayerModel, env: EnvModel, prog: ProgressModel, objs: Seq<ObjectStruct>, ctx: LevelCtx, levels: Seq<MainLevel>, cfg: ConfigModel, input: TickInput)
    requires
        p.touching_color_trigger,
    ensures
        spec_tick(p, env, prog, objs, ctx, levels, cfg, input).env == env,
{
    let p1 = spec_advance(p, cfg, input);
    assert(p1.touching_color_trigger);
    let f0 = FrameModel {
        player: p1,
        env: env,
        progress: prog,
        completed: false,
        trigger_touched: false,
    };
    lemma_pass_latched_env_unchanged(f0, objs, p1.pos_y, ctx, levels, cfg, input.jump_held);
}

/// Color trigger re-arm: a pass over a store without color triggers never
/// reports a touched trigger, so the tick drops the latch and the next
/// contact fires again.
#[verifier::rlimit(100)]
pub proof fn lemma_pass_no_trigger_untouched(f: FrameModel, objs: Seq<ObjectStruct>, box_pos: int, ctx: LevelCtx, levels: Seq<MainLevel>, cfg: ConfigModel, jump_held: bool)
    requires
        !f.trigger_touched,
        forall|i: int| 0 <= i < objs.len() ==> spec_category_of(objs[i]@.id) != ObjectCategory::ColorTrigger,
    ensures
        !spec_pass(f, objs, box_pos, ctx, levels, cfg, jump_held).trigger_touched,
    decreases objs.len(),
{
    if objs.len() > 0 {
        assert(spec_category_of(objs[0]@.id) != ObjectCategory::ColorTrigger);
        let f1 = spec_pass_step(f, objs[0], box_pos, ctx, levels, cfg, jump_held);
        assert(!f1.trigger_touched);
        lemma_pass_no_trigger_untouched(
            f1, objs.subrange(1, objs.len() as int), box_pos, ctx, levels, cfg, jump_held,
        );
    }
}

/// Color trigger re-arm: after a tick away from every color trigger, the
/// latch is down again.
pub proof fn lemma_tick_releases_latch(p: PlayerModel, env: EnvModel, prog: ProgressModel, objs: Seq<ObjectStruct>, ctx: LevelCtx, levels: Seq<MainLevel>, cfg: ConfigModel, input: TickInput)
    requires
        forall|i: int| 0 <= i < objs.len() ==> spec_category_of(objs[i]@.id) != ObjectCategory::ColorTrigger,
    ensures
        !spec_tick(p, env, prog, objs, ctx, levels, cfg, input).player.touching_color_trigger,
{
    let p1 = spec_advance(p, cfg, input);
    let f0 = FrameModel {
        player: p1,
        env: env,
        progress: prog,
        completed: false,
        trigger_touched: false,
    };
    lemma_pass_no_trigger_untouched(f0, objs, p1.pos_y, ctx, levels, cfg, input.jump_held);
}

} // verus!
