//! Combat: collision groups, projectiles, immunity frames and damage
//! resolution.

use vstd::prelude::*;

use crate::character::{clamp_stat, spec_clamp_stat, Character, HealthRegen, STAT_LIMIT};
use crate::npc::{NpcController, NpcTarget};
use crate::timer::{GameTimer, TimerMode, MAX_TIMER_MS};
use crate::units::Vec2i;

verus! {

/// Collision group of every projectile.
pub const PROJECTILE_GROUP: u32 = 0b1000;

/// Collision group of the player.
pub const PLAYER_GROUP: u32 = 0b0010;

/// Collision group of every NPC.
pub const ENEMY_GROUP: u32 = 0b0100;

/// The default group static world geometry is in: everything collides with
/// it.
pub const WORLD_GROUP: u32 = 0b0001;

/// Bound on projectile lifetimes and attack cooldowns: a day in milliseconds.
pub const MAX_LIFETIME_MS: u64 = 86_400_000;

/// Bound on one frame's delta wherever it enters velocity arithmetic.
pub const MAX_FRAME_MS: u64 = 1_000_000;

/// A collider's group memberships and the groups it collides with.
#[derive(Clone, Copy, Debug, PartialEq, Eq, Structural)]
pub struct GroupPair {
    pub memberships: u32,
    pub filters: u32,
}

/// Two colliders interact exactly when each one's memberships meet the
/// other's filter.
pub open spec fn pair_interact(a: GroupPair, b: GroupPair) -> bool {
    (a.memberships & b.filters) != 0 && (b.memberships & a.filters) != 0
}

pub open spec fn spec_projectile_groups(target_group: u32) -> GroupPair {
    GroupPair { memberships: PROJECTILE_GROUP, filters: target_group | WORLD_GROUP }
}

pub open spec fn spec_npc_groups() -> GroupPair {
    GroupPair { memberships: ENEMY_GROUP, filters: PROJECTILE_GROUP | WORLD_GROUP }
}

pub open spec fn spec_player_groups() -> GroupPair {
    GroupPair { memberships: PLAYER_GROUP, filters: PROJECTILE_GROUP | WORLD_GROUP }
}

/// The groups a projectile is fired with: it hurts its target group and is
/// stopped by the world.
pub fn projectile_groups(target_group: u32) -> (r: GroupPair)
    ensures
        r == spec_projectile_groups(target_group),
{
    GroupPair { memberships: PROJECTILE_GROUP, filters: target_group | WORLD_GROUP }
}

/// The groups an NPC's body is spawned with.
pub fn npc_groups() -> (r: GroupPair)
    ensures
        r == spec_npc_groups(),
{
    GroupPair { memberships: ENEMY_GROUP, filters: PROJECTILE_GROUP | WORLD_GROUP }
}

/// The groups the player's body is spawned with.
pub fn player_groups() -> (r: GroupPair)
    ensures
        r == spec_player_groups(),
{
    GroupPair { memberships: PLAYER_GROUP, filters: PROJECTILE_GROUP | WORLD_GROUP }
}

/// A projectile meets exactly the side it was aimed at: one fired at the
/// enemy group interacts with NPC bodies and not with the player, one fired
/// at the player group the other way round, and no projectile interacts with
/// another projectile.
pub proof fn lemma_projectiles_hit_only_their_target()
    ensures
        pair_interact(spec_projectile_groups(ENEMY_GROUP), spec_npc_groups()),
        !pair_interact(spec_projectile_groups(ENEMY_GROUP), spec_player_groups()),
        pair_interact(spec_projectile_groups(PLAYER_GROUP), spec_player_groups()),
        !pair_interact(spec_projectile_groups(PLAYER_GROUP), spec_npc_groups()),
        !pair_interact(
            spec_projectile_groups(ENEMY_GROUP),
            spec_projectile_groups(PLAYER_GROUP),
        ),
        !pair_interact(spec_projectile_groups(ENEMY_GROUP), spec_projectile_groups(ENEMY_GROUP)),
{
    assert((0b1000u32 & (0b1000u32 | 0b0001u32)) != 0) by (bit_vector);
    assert((0b0100u32 & (0b0100u32 | 0b0001u32)) != 0) by (bit_vector);
    assert((0b0010u32 & (0b0100u32 | 0b0001u32)) == 0) by (bit_vector);
    assert((0b0010u32 & (0b0010u32 | 0b0001u32)) != 0) by (bit_vector);
    assert((0b0100u32 & (0b0010u32 | 0b0001u32)) == 0) by (bit_vector);
    assert((0b1000u32 & (0b0010u32 | 0b0001u32)) == 0) by (bit_vector);
    assert((0b1000u32 & (0b0100u32 | 0b0001u32)) == 0) by (bit_vector);
}

/// What a projectile carries while it flies: damage and knockback dealt on a
/// hit, flight speed, and its remaining lifetime.
#[derive(Clone, Copy, Debug, PartialEq, Eq, Structural)]
pub struct ProjectileStats {
    pub damage: i64,
    pub knockback: i64,
    pub speed: i64,
    pub life_time: GameTimer,
}

impl ProjectileStats {
    pub open spec fn wf(self) -> bool {
        &&& 0 <= self.damage <= STAT_LIMIT
        &&& 0 <= self.knockback <= STAT_LIMIT
        &&& 0 <= self.speed <= STAT_LIMIT
        &&& self.life_time.wf()
        &&& self.life_time.duration_ms <= MAX_LIFETIME_MS
    }
}

/// A projectile in flight: who fired it, its stats, and its unit flight
/// direction in thousandths.
#[derive(Clone, Copy, Debug, PartialEq, Eq, Structural)]
pub struct Projectile {
    pub owner: u64,
    pub stats: ProjectileStats,
    pub direction: Vec2i,
}

impl Projectile {
    pub open spec fn wf(self) -> bool {
        &&& self.stats.wf()
        &&& -1000 <= self.direction.x <= 1000
        &&& -1000 <= self.direction.y <= 1000
    }

    /// One frame of flight: the lifetime advances, and the projectile is to
    /// vanish on the tick that exhausts it. A repeating lifetime is ruled out
    /// rather than handled.
    pub fn tick_lifetime(&mut self, delta_ms: u64) -> (vanish: bool)
        requires
            old(self).wf(),
            old(self).stats.life_time.mode == TimerMode::Once,
            delta_ms <= MAX_TIMER_MS,
        ensures
            final(self).owner == old(self).owner,
            final(self).direction == old(self).direction,
            final(self).stats == (ProjectileStats {
                life_time: old(self).stats.life_time.spec_ticked(delta_ms),
                ..old(self).stats
            }),
            vanish == old(self).stats.life_time.spec_ticked(delta_ms).just_finished,
            final(self).wf(),
    {
        self.stats.life_time.tick(delta_ms);
        self.stats.life_time.just_finished()
    }
}

/// Hit immunity: while the timer runs, damage does not land.
#[derive(Clone, Copy, Debug, PartialEq, Eq, Structural)]
pub struct Immunity(pub GameTimer);

/// A request to put a projectile into the world.
#[derive(Clone, Copy, Debug, PartialEq, Eq, Structural)]
pub struct SpawnProjectileEvent {
    pub caster: u64,
    pub projectile_stats: ProjectileStats,
    pub direction: Vec2i,
    pub start_position: Vec2i,
    pub target_group: u32,
}

/// A projectile has struck a character.
#[derive(Clone, Copy, Debug, PartialEq, Eq, Structural)]
pub struct CharacterAttackEvent {
    pub victim: u64,
    pub projectile: Projectile,
}

/// Everything a fresh projectile entity is made of. Extents are in
/// milli-units.
#[derive(Clone, Copy, Debug, PartialEq, Eq, Structural)]
pub struct ProjectileBundle {
    pub start_position: Vec2i,
    pub sprite_size: Vec2i,
    pub collider_half_extents: Vec2i,
    pub groups: GroupPair,
    pub projectile: Projectile,
}

/// Assemble a projectile entity: a 64-by-48 sprite over a 32-by-24 collider,
/// grouped to hurt `target_group` and to stop at the world.
pub fn spawn_projectile(
    position: Vec2i,
    direction: Vec2i,
    projectile_stats: ProjectileStats,
    owner: u64,
    target_group: u32,
) -> (r: ProjectileBundle)
    ensures
        r == (ProjectileBundle {
            start_position: position,
            sprite_size: Vec2i { x: 64_000, y: 48_000 },
            collider_half_extents: Vec2i { x: 32_000, y: 24_000 },
            groups: spec_projectile_groups(target_group),
            projectile: Projectile { owner, stats: projectile_stats, direction },
        }),
{
    ProjectileBundle {
        start_position: position,
        sprite_size: Vec2i { x: 64_000, y: 48_000 },
        collider_half_extents: Vec2i { x: 32_000, y: 24_000 },
        groups: projectile_groups(target_group),
        projectile: Projectile { owner, stats: projectile_stats, direction },
    }
}

/// One side of a collision pair, in the order the physics engine reported it.
#[derive(Clone, Copy, Debug, PartialEq, Eq, Structural)]
pub enum Side {
    First,
    Second,
}

/// What a collision asks for: possibly an attack on one side, possibly one
/// side vanishing.
#[derive(Clone, Copy, Debug, PartialEq, Eq, Structural)]
pub struct CollisionOutcome {
    pub attack_victim: Option<Side>,
    pub vanish: Option<Side>,
}

/// The collision rule. The first side found to be a projectile vanishes, and
/// if the other side is a character it is attacked; when the first side is a
/// projectile the second is not examined as one.
pub open spec fn spec_resolve_collision(
    first_is_projectile: bool,
    first_is_character: bool,
    second_is_projectile: bool,
    second_is_character: bool,
) -> CollisionOutcome {
    if first_is_projectile {
        CollisionOutcome {
            attack_victim: if second_is_character {
                Some(Side::Second)
            } else {
                None
            },
            vanish: Some(Side::First),
        }
    } else if second_is_projectile {
        CollisionOutcome {
            attack_victim: if first_is_character {
                Some(Side::First)
            } else {
                None
            },
            vanish: Some(Side::Second),
        }
    } else {
        CollisionOutcome { attack_victim: None, vanish: None }
    }
}

/// Resolve one started collision between two entities, each side classified
/// by whether it carries a projectile or a character.
pub fn resolve_collision(
    first_is_projectile: bool,
    first_is_character: bool,
    second_is_projectile: bool,
    second_is_character: bool,
) -> (r: CollisionOutcome)
    ensures
        r == spec_resolve_collision(
            first_is_projectile,
            first_is_character,
            second_is_projectile,
            second_is_character,
        ),
{
    if first_is_projectile {
        CollisionOutcome {
            attack_victim: if second_is_character {
                Some(Side::Second)
            } else {
                None
            },
            vanish: Some(Side::First),
        }
    } else if second_is_projectile {
        CollisionOutcome {
            attack_victim: if first_is_character {
                Some(Side::First)
            } else {
                None
            },
            vanish: Some(Side::Second),
        }
    } else {
        CollisionOutcome { attack_victim: None, vanish: None }
    }
}

/// A rewound, running copy of a timer.
pub open spec fn spec_restarted(t: GameTimer) -> GameTimer {
    GameTimer { elapsed_ms: 0, finished: false, just_finished: false, paused: false, ..t }
}

/// Land a projectile hit on a character, mirroring the attack-event handler:
/// nothing happens while the victim is immune; otherwise the damage comes off
/// the victim's health, immunity restarts, an NPC victim turns on its
/// attacker, and any regeneration delay restarts.
pub fn resolve_attack(
    character: &mut Character,
    immunity: &mut Immunity,
    npc: &mut Option<NpcController>,
    regen: &mut Option<HealthRegen>,
    projectile: &Projectile,
) -> (applied: bool)
    requires
        old(character).wf(),
        old(immunity).0.wf(),
        projectile.wf(),
    ensures
        applied == old(immunity).0.finished,
        !applied ==> *final(character) == *old(character) && *final(immunity) == *old(immunity)
            && *final(npc) == *old(npc) && *final(regen) == *old(regen),
        applied ==> *final(character) == (Character {
            health: spec_clamp_stat(old(character).health - projectile.stats.damage) as i64,
            ..*old(character)
        }),
        applied ==> final(immunity).0 == spec_restarted(old(immunity).0),
        applied ==> *final(npc) == match *old(npc) {
            Some(n) => Some(
                NpcController { target: Some(NpcTarget::Character(projectile.owner)), ..n },
            ),
            None => None,
        },
        applied ==> *final(regen) == match *old(regen) {
            Some(r) => Some(HealthRegen { delay: spec_restarted(r.delay), ..r }),
            None => None,
        },
        final(character).health <= old(character).health,
        final(character).wf(),
        final(immunity).0.wf(),
{
    if immunity.0.finished() {
        character.health = clamp_stat(character.health - projectile.stats.damage);
        match &mut *npc {
            Some(n) => {
                n.target = Some(NpcTarget::Character(projectile.owner));
            },
            None => {},
        }
        match &mut *regen {
            Some(r) => {
                r.delay.reset();
                r.delay.unpause();
            },
            None => {},
        }
        immunity.0.reset();
        immunity.0.unpause();
        true
    } else {
        false
    }
}

/// Where a shot leaves its shooter: the shooter's position pushed out along
/// the unit firing direction by the shooter's collider half-extents.
pub fn shot_origin(position: Vec2i, extents: Vec2i, direction: Vec2i) -> (r: Vec2i)
    requires
        position.in_bounds(),
        0 <= extents.x <= 1_000_000_000,
        0 <= extents.y <= 1_000_000_000,
        -1000 <= direction.x <= 1000,
        -1000 <= direction.y <= 1000,
    ensures
        r.x == position.x + spec_div_trunc(extents.x * direction.x, 1000),
        r.y == position.y + spec_div_trunc(extents.y * direction.y, 1000),
{
    let dx = offset_component(extents.x, direction.x);
    let dy = offset_component(extents.y, direction.y);
    Vec2i { x: position.x + dx, y: position.y + dy }
}

fn offset_component(extent: i64, direction: i64) -> (r: i64)
    requires
        0 <= extent <= 1_000_000_000,
        -1000 <= direction <= 1000,
    ensures
        r == spec_div_trunc(extent * direction, 1000),
        -extent <= r <= extent,
{
    proof {
        assert(-1_000_000_000_000 <= extent * direction <= 1_000_000_000_000
            && (extent * direction) / 1000 <= extent && -extent <= -((-(extent * direction))
            / 1000)) by (nonlinear_arith)
            requires
                0 <= extent <= 1_000_000_000,
                -1000 <= direction <= 1000,
        ;
    }
    let p = extent * direction;
    if p >= 0 {
        ((p as u64) / 1000u64) as i64
    } else {
        -((((-p) as u64) / 1000u64) as i64)
    }
}

/// The truncating quotient used by velocity arithmetic: division toward zero
/// by a positive divisor.
pub open spec fn spec_div_trunc(a: int, b: int) -> int {
    if a >= 0 {
        a / b
    } else {
        -((-a) / b)
    }
}

/// A velocity from a unit direction in thousandths, a magnitude in
/// milli-units per second, and one frame's delta: the frame-scaled velocity
/// the engine is handed for projectile flight and for knockback.
pub fn scaled_velocity(direction: Vec2i, magnitude: i64, delta_ms: u64) -> (r: Vec2i)
    requires
        -1000 <= direction.x <= 1000,
        -1000 <= direction.y <= 1000,
        0 <= magnitude <= STAT_LIMIT,
        delta_ms <= MAX_FRAME_MS,
    ensures
        r.x == spec_div_trunc(direction.x * magnitude * delta_ms, 1_000_000),
        r.y == spec_div_trunc(direction.y * magnitude * delta_ms, 1_000_000),
{
    let rx = scale_component(direction.x, magnitude, delta_ms);
    let ry = scale_component(direction.y, magnitude, delta_ms);
    Vec2i { x: rx, y: ry }
}

fn scale_component(c: i64, magnitude: i64, delta_ms: u64) -> (r: i64)
    requires
        -1000 <= c <= 1000,
        0 <= magnitude <= STAT_LIMIT,
        delta_ms <= MAX_FRAME_MS,
    ensures
        r == spec_div_trunc(c * magnitude * delta_ms, 1_000_000),
{
    proof {
        lemma_scale_bound(c as int, magnitude as int, delta_ms as int);
    }
    let p = c * magnitude * (delta_ms as i64);
    if p >= 0 {
        ((p as u64) / 1_000_000u64) as i64
    } else {
        -((((-p) as u64) / 1_000_000u64) as i64)
    }
}

/// The triple product in velocity scaling stays far inside the `i64` range.
proof fn lemma_scale_bound(c: int, magnitude: int, delta_ms: int)
    requires
        -1000 <= c <= 1000,
        0 <= magnitude <= STAT_LIMIT,
        0 <= delta_ms <= MAX_FRAME_MS,
    ensures
        -1_000_000_000_000 <= c * magnitude <= 1_000_000_000_000,
        -1_000_000_000_000_000_000 <= c * magnitude * delta_ms <= 1_000_000_000_000_000_000,
{
    assert(-1_000_000_000_000 <= c * magnitude <= 1_000_000_000_000 && -1_000_000_000_000_000_000
        <= c * magnitude * delta_ms <= 1_000_000_000_000_000_000) by (nonlinear_arith)
        requires
            -1000 <= c <= 1000,
            0 <= magnitude <= 1_000_000_000,
            0 <= delta_ms <= 1_000_000,
    ;
}

} // verus!
