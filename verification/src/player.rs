//! The player: the entity it spawns as, and how input becomes intent.

use vstd::prelude::*;

use crate::character::{Character, HealthRegen, ProjectileShooter, ShootEvent};
use crate::combat::{player_groups, spec_player_groups, GroupPair, Immunity, ProjectileStats,
    ENEMY_GROUP};
use crate::timer::{GameTimer, TimerMode};
use crate::units::Vec2i;
use crate::world::{MAX_WORLD_X, MAX_WORLD_Y, MIN_WORLD_X, MIN_WORLD_Y};

verus! {

/// Marks the one entity the player controls.
#[derive(Clone, Copy, Debug, PartialEq, Eq, Structural)]
pub struct Player;

/// Everything the player entity is made of.
#[derive(Clone, Copy, Debug, PartialEq, Eq, Structural)]
pub struct PlayerBundle {
    pub position: Vec2i,
    pub sprite_size: Vec2i,
    pub collider_half_extents: Vec2i,
    pub groups: GroupPair,
    pub character: Character,
    pub shooter: ProjectileShooter,
    pub immunity: Immunity,
    pub regen: HealthRegen,
    pub healthbar_offset: Vec2i,
}

/// Assemble the player: thirty health, brisk movement, a half-second attack
/// with a short-lived fast projectile, quarter-second hit immunity, slow
/// regeneration after six undisturbed seconds, and a healthbar below.
pub fn spawn_player() -> (r: PlayerBundle)
    ensures
        r == (PlayerBundle {
            position: Vec2i { x: 0, y: 100_000 },
            sprite_size: Vec2i { x: 120_000, y: 120_000 },
            collider_half_extents: Vec2i { x: 40_000, y: 60_000 },
            groups: spec_player_groups(),
            character: Character {
                max_health: 30_000,
                health: 30_000,
                input: Vec2i { x: 0, y: 0 },
                last_x: (-1000) as i64,
                speed: 7_500_000,
                accel: 3_900,
                damp: 5_000,
            },
            shooter: ProjectileShooter {
                projectile_stats: ProjectileStats {
                    damage: 4_500,
                    knockback: 8_000_000,
                    speed: 25_000_000,
                    life_time: GameTimer {
                        duration_ms: 200,
                        elapsed_ms: 0,
                        mode: TimerMode::Once,
                        paused: false,
                        finished: false,
                        just_finished: false,
                    },
                },
                attack_speed: GameTimer {
                    duration_ms: 500,
                    elapsed_ms: 0,
                    mode: TimerMode::Once,
                    paused: false,
                    finished: false,
                    just_finished: false,
                },
            },
            immunity: Immunity(
                GameTimer {
                    duration_ms: 250,
                    elapsed_ms: 0,
                    mode: TimerMode::Once,
                    paused: false,
                    finished: false,
                    just_finished: false,
                },
            ),
            regen: HealthRegen {
                delay: GameTimer {
                    duration_ms: 6_000,
                    elapsed_ms: 0,
                    mode: TimerMode::Once,
                    paused: false,
                    finished: false,
                    just_finished: false,
                },
                speed: 50,
            },
            healthbar_offset: Vec2i { x: 0, y: (-80_000) as i64 },
        }),
        r.character.wf(),
        r.shooter.wf(),
        r.regen.wf(),
        r.immunity.0.wf(),
{
    PlayerBundle {
        position: Vec2i { x: 0, y: 100_000 },
        sprite_size: Vec2i { x: 120_000, y: 120_000 },
        collider_half_extents: Vec2i { x: 40_000, y: 60_000 },
        groups: player_groups(),
        character: Character {
            max_health: 30_000,
            health: 30_000,
            input: Vec2i { x: 0, y: 0 },
            last_x: -1000,
            speed: 7_500_000,
            accel: 3_900,
            damp: 5_000,
        },
        shooter: ProjectileShooter {
            projectile_stats: ProjectileStats {
                damage: 4_500,
                knockback: 8_000_000,
                speed: 25_000_000,
                life_time: GameTimer::from_millis(200, TimerMode::Once),
            },
            attack_speed: GameTimer::from_millis(500, TimerMode::Once),
        },
        immunity: Immunity(GameTimer::from_millis(250, TimerMode::Once)),
        regen: HealthRegen { delay: GameTimer::from_millis(6_000, TimerMode::Once), speed: 50 },
        healthbar_offset: Vec2i { x: 0, y: -80_000 },
    }
}

/// Turn the four movement keys into a unit input, in thousandths. Where two
/// opposed keys are both down, down beats up and right beats left, as the
/// keys are read in that order.
pub fn player_input_axis(up: bool, down: bool, left: bool, right: bool) -> (r: Vec2i)
    ensures
        r.x == if right {
            1000int
        } else if left {
            -1000int
        } else {
            0int
        },
        r.y == if down {
            -1000int
        } else if up {
            1000int
        } else {
            0int
        },
{
    let x: i64 = if right {
        1000
    } else if left {
        -1000
    } else {
        0
    };
    let y: i64 = if down {
        -1000
    } else if up {
        1000
    } else {
        0
    };
    Vec2i { x, y }
}

/// How far inside the left and right world edges the camera stops, in
/// milli-units.
pub const CAMERA_MARGIN_X: i64 = 150_000;

/// How far outside the top and bottom world edges the camera may go, in
/// milli-units.
pub const CAMERA_MARGIN_Y: i64 = 100_000;

/// The clamp that sums up an `int` held to a closed interval.
pub open spec fn spec_clamp(v: int, lo: int, hi: int) -> int {
    if v < lo {
        lo
    } else if v > hi {
        hi
    } else {
        v
    }
}

/// Hold the camera inside its box: a margin inside the world's left and
/// right edges, a margin beyond its top and bottom ones. The easing of the
/// camera toward the player is the engine's work; this is where it stops.
pub fn camera_clamp(p: Vec2i) -> (r: Vec2i)
    ensures
        r.x == spec_clamp(
            p.x as int,
            MIN_WORLD_X + CAMERA_MARGIN_X,
            MAX_WORLD_X - CAMERA_MARGIN_X,
        ),
        r.y == spec_clamp(
            p.y as int,
            MIN_WORLD_Y - CAMERA_MARGIN_Y,
            MAX_WORLD_Y + CAMERA_MARGIN_Y,
        ),
{
    let x: i64 = if p.x < MIN_WORLD_X + CAMERA_MARGIN_X {
        MIN_WORLD_X + CAMERA_MARGIN_X
    } else if p.x > MAX_WORLD_X - CAMERA_MARGIN_X {
        MAX_WORLD_X - CAMERA_MARGIN_X
    } else {
        p.x
    };
    let y: i64 = if p.y < MIN_WORLD_Y - CAMERA_MARGIN_Y {
        MIN_WORLD_Y - CAMERA_MARGIN_Y
    } else if p.y > MAX_WORLD_Y + CAMERA_MARGIN_Y {
        MAX_WORLD_Y + CAMERA_MARGIN_Y
    } else {
        p.y
    };
    Vec2i { x, y }
}

/// The shot a frame of input asks for: with the fire button down and the
/// pointer resolving to a world position, the player shoots at it, aimed at
/// the enemy group.
pub fn player_shoot_event(entity: u64, fire_pressed: bool, cursor_world: Option<Vec2i>) -> (e:
    Option<ShootEvent>)
    ensures
        e == if fire_pressed {
            match cursor_world {
                Some(target) => Some(
                    ShootEvent { entity, target, target_group: ENEMY_GROUP },
                ),
                None => None::<ShootEvent>,
            }
        } else {
            None::<ShootEvent>
        },
{
    if fire_pressed {
        match cursor_world {
            Some(target) => Some(ShootEvent { entity, target, target_group: ENEMY_GROUP }),
            None => None,
        }
    } else {
        None
    }
}

} // verus!
