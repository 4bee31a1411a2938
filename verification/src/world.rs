//! Shared state around the player: the background and ground tint, the
//! award/progress bookkeeping, and the description of which level is
//! being played.

use vstd::prelude::*;

verus! {

/// The recolorable environment: background tint (byte channels) and
/// ground tint (kept as wide integers).
#[derive(Clone, Copy, Debug)]
pub struct EnvColors {
    pub bg_red: u8,
    pub bg_green: u8,
    pub bg_blue: u8,
    pub ground_red: i32,
    pub ground_green: i32,
    pub ground_blue: i32,
}

/// Mathematical view of `EnvColors`.
pub struct EnvModel {
    pub bg_red: int,
    pub bg_green: int,
    pub bg_blue: int,
    pub ground_red: int,
    pub ground_green: int,
    pub ground_blue: int,
}

impl View for EnvColors {
    type V = EnvModel;

    open spec fn view(&self) -> EnvModel {
        EnvModel {
            bg_red: self.bg_red as int,
            bg_green: self.bg_green as int,
            bg_blue: self.bg_blue as int,
            ground_red: self.ground_red as int,
            ground_green: self.ground_green as int,
            ground_blue: self.ground_blue as int,
        }
    }
}

/// One built-in level: display data plus its rated difficulty, which the
/// end trigger awards as stars.
#[derive(Debug)]
pub struct MainLevel {
    pub name: String,
    pub difficulty: u8,
    pub song: String,
    pub artist: String,
    pub data: String,
}

/// The session's award state: stars earned, which built-in levels are
/// beaten, and which online levels are beaten.
#[derive(Debug)]
pub struct Progress {
    pub stars: u32,
    pub levels_completed: Vec<bool>,
    pub online_levels_beaten: Vec<u16>,
}

/// Mathematical view of `Progress`.
pub struct ProgressModel {
    pub stars: int,
    pub levels_completed: Seq<bool>,
    pub online_levels_beaten: Seq<u16>,
}

impl View for Progress {
    type V = ProgressModel;

    open spec fn view(&self) -> ProgressModel {
        ProgressModel {
            stars: self.stars as int,
            levels_completed: self.levels_completed@,
            online_levels_beaten: self.online_levels_beaten@,
        }
    }
}

/// Which level is being played, for the end trigger's award rules.
#[derive(Clone, Copy, Debug)]
pub struct LevelCtx {
    /// True in a custom or online level, false in a built-in one.
    pub in_custom_level: bool,
    /// Index of the built-in level being played.
    pub current_level: usize,
    /// Identifier of the online level being played.
    pub online_level_id: u16,
    /// Whether the online level has a rating (and thus awards stars).
    pub online_level_rated: bool,
    /// The online level's rated difficulty.
    pub online_level_diff: u8,
}

} // verus!
