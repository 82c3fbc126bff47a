//! NPC definitions and the sprite handle cache.
//!
//! An NPC definition is the parsed form of one `.npc` file: sprite and
//! collider geometry, the difficulty window it may spawn in, and its combat
//! and movement stats. [`NpcData::load_entity`] assembles from it everything
//! a fresh NPC entity is made of.

use vstd::prelude::*;

use crate::character::{Character, ProjectileShooter, STAT_LIMIT};
use crate::combat::{npc_groups, spec_npc_groups, GroupPair, Immunity, ProjectileStats,
    MAX_LIFETIME_MS};
use crate::npc::{NpcController, NpcKind};
use crate::rng::random_in_range;
use crate::timer::{GameTimer, TimerMode};
use crate::units::{ColorMilli, Vec2i};

verus! {

/// How long a fresh character cannot be hurt again, in milliseconds.
pub const IMMUNITY_MS: u64 = 250;

/// The bounds of the interval an NPC's retarget timer is drawn from, in
/// milliseconds.
pub const TARGET_CHANGE_MIN_MS: u64 = 5_000;

pub const TARGET_CHANGE_MAX_MS: u64 = 15_000;

/// Acceleration every NPC moves with, in thousandths.
pub const NPC_ACCEL: i64 = 3_900;

/// Damping every NPC slows down with, in thousandths.
pub const NPC_DAMP: i64 = 5_000;

/// How far below an NPC's collider its healthbar hangs, in milli-units.
pub const HEALTHBAR_DROP: i64 = 20_000;

/// The projectile stats of one NPC definition: damage and knockback in
/// milli-points, speed in milli-units per second, lifetime in milliseconds.
#[derive(Clone, Copy, Debug, PartialEq, Eq, Structural)]
pub struct ProjectileData {
    pub damage: i64,
    pub knockback: i64,
    pub speed: i64,
    pub life_time_ms: u64,
}

impl ProjectileData {
    pub open spec fn wf(self) -> bool {
        &&& 0 <= self.damage <= STAT_LIMIT
        &&& 0 <= self.knockback <= STAT_LIMIT
        &&& 0 <= self.speed <= STAT_LIMIT
        &&& 1 <= self.life_time_ms <= MAX_LIFETIME_MS
    }
}

/// One NPC definition, as read from a `.npc` file.
#[derive(Clone, Debug)]
pub struct NpcData {
    pub sprite_name: String,
    pub sprite_size: Vec2i,
    pub sprite_color: ColorMilli,
    pub collider_halfextents: Vec2i,
    pub min_difficulty: i64,
    pub max_difficulty: Option<i64>,
    pub max_health: i64,
    pub attack_speed_ms: u64,
    pub projectile_stats: ProjectileData,
    pub speed: i64,
    pub kind: NpcKind,
}

impl NpcData {
    pub open spec fn wf(self) -> bool {
        &&& 1 <= self.max_health <= STAT_LIMIT
        &&& 1 <= self.attack_speed_ms <= MAX_LIFETIME_MS
        &&& 0 <= self.speed <= STAT_LIMIT
        &&& self.projectile_stats.wf()
        &&& self.collider_halfextents.in_bounds()
        &&& 0 <= self.collider_halfextents.y
        &&& 0 <= self.min_difficulty <= STAT_LIMIT
        &&& match self.max_difficulty {
            Some(m) => 0 <= m <= STAT_LIMIT,
            None => true,
        }
    }

    /// Whether this NPC may spawn at the given difficulty: at or above its
    /// minimum, and, where it has one, at or below its maximum.
    pub open spec fn spec_eligible(self, difficulty: i64) -> bool {
        match self.max_difficulty {
            Some(m) => self.min_difficulty <= difficulty && difficulty <= m,
            None => self.min_difficulty <= difficulty,
        }
    }

    pub fn eligible(&self, difficulty: i64) -> (r: bool)
        ensures
            r == self.spec_eligible(difficulty),
    {
        match self.max_difficulty {
            Some(m) => difficulty >= self.min_difficulty && difficulty <= m,
            None => difficulty >= self.min_difficulty,
        }
    }

    /// Assemble a fresh NPC entity at `position` from this definition: full
    /// health, standard acceleration and damping, enemy collision groups,
    /// fresh immunity, a shooter on this definition's stats, a targetless
    /// controller whose retarget interval is drawn from
    /// [`TARGET_CHANGE_MIN_MS`]`..`[`TARGET_CHANGE_MAX_MS`], and a healthbar
    /// hung below the collider.
    pub fn load_entity(&self, position: Vec2i) -> (b: NpcBundle)
        requires
            self.wf(),
        ensures
            b.position == position,
            b.sprite_name@ == self.sprite_name@,
            b.sprite_size == self.sprite_size,
            b.sprite_color == self.sprite_color,
            b.collider_halfextents == self.collider_halfextents,
            b.groups == spec_npc_groups(),
            b.character == (Character {
                max_health: self.max_health,
                health: self.max_health,
                input: Vec2i { x: 0, y: 0 },
                last_x: (-1000) as i64,
                speed: self.speed,
                accel: NPC_ACCEL,
                damp: NPC_DAMP,
            }),
            b.immunity.0 == (GameTimer {
                duration_ms: IMMUNITY_MS,
                elapsed_ms: 0,
                mode: TimerMode::Once,
                paused: false,
                finished: false,
                just_finished: false,
            }),
            b.shooter.projectile_stats == (ProjectileStats {
                damage: self.projectile_stats.damage,
                knockback: self.projectile_stats.knockback,
                speed: self.projectile_stats.speed,
                life_time: GameTimer {
                    duration_ms: self.projectile_stats.life_time_ms,
                    elapsed_ms: 0,
                    mode: TimerMode::Once,
                    paused: false,
                    finished: false,
                    just_finished: false,
                },
            }),
            b.shooter.attack_speed == (GameTimer {
                duration_ms: self.attack_speed_ms,
                elapsed_ms: 0,
                mode: TimerMode::Once,
                paused: false,
                finished: false,
                just_finished: false,
            }),
            b.controller.kind == self.kind,
            b.controller.target is None,
            b.controller.target_change.mode == TimerMode::Repeating,
            TARGET_CHANGE_MIN_MS <= b.controller.target_change.duration_ms
                < TARGET_CHANGE_MAX_MS,
            b.controller.target_change.elapsed_ms == 0,
            !b.controller.target_change.paused,
            !b.controller.target_change.finished,
            !b.controller.target_change.just_finished,
            b.healthbar_offset == (Vec2i { x: 0, y: (-self.collider_halfextents.y
                - HEALTHBAR_DROP) as i64 }),
            b.character.wf(),
            b.shooter.wf(),
            b.controller.wf(),
    {
        let retarget_ms = random_in_range(
            TARGET_CHANGE_MIN_MS as i64,
            TARGET_CHANGE_MAX_MS as i64,
        ) as u64;
        NpcBundle {
            position,
            sprite_name: self.sprite_name.clone(),
            sprite_size: self.sprite_size,
            sprite_color: self.sprite_color,
            collider_halfextents: self.collider_halfextents,
            groups: npc_groups(),
            character: Character {
                max_health: self.max_health,
                health: self.max_health,
                input: Vec2i { x: 0, y: 0 },
                last_x: -1000,
                speed: self.speed,
                accel: NPC_ACCEL,
                damp: NPC_DAMP,
            },
            immunity: Immunity(GameTimer::from_millis(IMMUNITY_MS, TimerMode::Once)),
            shooter: ProjectileShooter {
                projectile_stats: ProjectileStats {
                    damage: self.projectile_stats.damage,
                    knockback: self.projectile_stats.knockback,
                    speed: self.projectile_stats.speed,
                    life_time: GameTimer::from_millis(
                        self.projectile_stats.life_time_ms,
                        TimerMode::Once,
                    ),
                },
                attack_speed: GameTimer::from_millis(self.attack_speed_ms, TimerMode::Once),
            },
            controller: NpcController {
                kind: self.kind,
                target: None,
                target_change: GameTimer::from_millis(retarget_ms, TimerMode::Repeating),
            },
            healthbar_offset: Vec2i { x: 0, y: -self.collider_halfextents.y - HEALTHBAR_DROP },
        }
    }
}

/// Everything a fresh NPC entity is made of.
#[derive(Clone, Debug)]
pub struct NpcBundle {
    pub position: Vec2i,
    pub sprite_name: String,
    pub sprite_size: Vec2i,
    pub sprite_color: ColorMilli,
    pub collider_halfextents: Vec2i,
    pub groups: GroupPair,
    pub character: Character,
    pub immunity: Immunity,
    pub shooter: ProjectileShooter,
    pub controller: NpcController,
    pub healthbar_offset: Vec2i,
}

/// The sprite handle cache: each sprite name resolves to one handle, issued
/// the first time the name is asked for.
pub struct GameSprites {
    pub sprites: Vec<(String, u64)>,
}

/// The handle the cache holds for `name`: that of the first entry bearing it.
pub open spec fn spec_find_sprite(s: Seq<(String, u64)>, name: Seq<char>) -> Option<u64>
    decreases s.len(),
{
    if s.len() == 0 {
        None
    } else if s[0].0@ == name {
        Some(s[0].1)
    } else {
        spec_find_sprite(s.drop_first(), name)
    }
}

impl GameSprites {
    pub fn new() -> (r: GameSprites)
        ensures
            r.sprites@.len() == 0,
    {
        GameSprites { sprites: Vec::new() }
    }

    /// The handle for a sprite name: the cached one where the name is known,
    /// otherwise `fresh_handle`, which the cache remembers for the name from
    /// now on.
    pub fn get_or_load(&mut self, sprite_name: &String, fresh_handle: u64) -> (h: u64)
        ensures
            match spec_find_sprite(old(self).sprites@, sprite_name@) {
                Some(existing) => h == existing && *final(self) == *old(self),
                None => {
                    &&& h == fresh_handle
                    &&& final(self).sprites@.len() == old(self).sprites@.len() + 1
                    &&& final(self).sprites@.drop_last() == old(self).sprites@
                    &&& final(self).sprites@.last().0@ == sprite_name@
                    &&& final(self).sprites@.last().1 == fresh_handle
                },
            },
    {
        let n = self.sprites.len();
        let mut i: usize = 0;
        proof {
            assert(self.sprites@.skip(0) =~= self.sprites@);
        }
        while i < n
            invariant
                *self == *old(self),
                n == self.sprites@.len(),
                i <= n,
                spec_find_sprite(self.sprites@, sprite_name@) == spec_find_sprite(
                    self.sprites@.skip(i as int),
                    sprite_name@,
                ),
            decreases n - i,
        {
            if self.sprites[i].0 == *sprite_name {
                return self.sprites[i].1;
            }
            proof {
                assert(self.sprites@.skip(i as int).drop_first() =~= self.sprites@.skip(
                    i as int + 1,
                ));
            }
            i = i + 1;
        }
        self.sprites.push((sprite_name.clone(), fresh_handle));
        proof {
            assert(self.sprites@.drop_last() =~= old(self).sprites@);
        }
        fresh_handle
    }
}

} // verus!
