//! The world: its bounds and barriers, the environment scatter, the NPC pool
//! and the spawn waves that draw from it.

use vstd::prelude::*;

use crate::asset::NpcData;
use crate::rng::{random_in_range, random_index};
use crate::timer::{GameTimer, TimerMode, MAX_TIMER_MS};
use crate::units::Vec2i;

verus! {

/// The playable area, in milli-units.
pub const MIN_WORLD_X: i64 = -2_000_000;

pub const MIN_WORLD_Y: i64 = -2_000_000;

pub const MAX_WORLD_X: i64 = 2_000_000;

pub const MAX_WORLD_Y: i64 = 2_000_000;

/// A point random placement may put something at: within the playable area,
/// the far edge excluded.
pub open spec fn in_world(p: Vec2i) -> bool {
    &&& MIN_WORLD_X <= p.x < MAX_WORLD_X
    &&& MIN_WORLD_Y <= p.y < MAX_WORLD_Y
}

/// Which edge of the world a barrier seals.
#[derive(Clone, Copy, Debug, PartialEq, Eq, Structural)]
pub enum BarrierSide {
    Left,
    Right,
    Top,
    Bottom,
}

/// One wall sealing an edge of the world: where it stands, how it is drawn
/// and how far its collider reaches.
#[derive(Clone, Copy, Debug, PartialEq, Eq, Structural)]
pub struct Barrier {
    pub side: BarrierSide,
    pub center: Vec2i,
    pub sprite_size: Vec2i,
    pub collider_half_extents: Vec2i,
}

/// The four walls: 450 milli-kilounits outside each edge, drawn 100 units
/// thick and two and a half world-heights long.
pub open spec fn spec_world_barriers() -> Seq<Barrier> {
    seq![
        Barrier {
            side: BarrierSide::Left,
            center: Vec2i { x: (-2_450_000) as i64, y: 0 },
            sprite_size: Vec2i { x: 100_000, y: 5_000_000 },
            collider_half_extents: Vec2i { x: 50_000, y: 2_500_000 },
        },
        Barrier {
            side: BarrierSide::Right,
            center: Vec2i { x: 2_450_000, y: 0 },
            sprite_size: Vec2i { x: 100_000, y: 5_000_000 },
            collider_half_extents: Vec2i { x: 50_000, y: 2_500_000 },
        },
        Barrier {
            side: BarrierSide::Top,
            center: Vec2i { x: 0, y: 2_450_000 },
            sprite_size: Vec2i { x: 5_000_000, y: 100_000 },
            collider_half_extents: Vec2i { x: 2_500_000, y: 50_000 },
        },
        Barrier {
            side: BarrierSide::Bottom,
            center: Vec2i { x: 0, y: (-2_450_000) as i64 },
            sprite_size: Vec2i { x: 5_000_000, y: 100_000 },
            collider_half_extents: Vec2i { x: 2_500_000, y: 50_000 },
        },
    ]
}

/// The barriers that seal the world's edges.
pub fn world_barriers() -> (r: Vec<Barrier>)
    ensures
        r@ == spec_world_barriers(),
{
    let mut r: Vec<Barrier> = Vec::new();
    r.push(Barrier {
        side: BarrierSide::Left,
        center: Vec2i { x: -2_450_000, y: 0 },
        sprite_size: Vec2i { x: 100_000, y: 5_000_000 },
        collider_half_extents: Vec2i { x: 50_000, y: 2_500_000 },
    });
    r.push(Barrier {
        side: BarrierSide::Right,
        center: Vec2i { x: 2_450_000, y: 0 },
        sprite_size: Vec2i { x: 100_000, y: 5_000_000 },
        collider_half_extents: Vec2i { x: 50_000, y: 2_500_000 },
    });
    r.push(Barrier {
        side: BarrierSide::Top,
        center: Vec2i { x: 0, y: 2_450_000 },
        sprite_size: Vec2i { x: 5_000_000, y: 100_000 },
        collider_half_extents: Vec2i { x: 2_500_000, y: 50_000 },
    });
    r.push(Barrier {
        side: BarrierSide::Bottom,
        center: Vec2i { x: 0, y: -2_450_000 },
        sprite_size: Vec2i { x: 5_000_000, y: 100_000 },
        collider_half_extents: Vec2i { x: 2_500_000, y: 50_000 },
    });
    proof {
        assert(r@ =~= spec_world_barriers());
    }
    r
}

/// What an environment placement puts down.
#[derive(Clone, Copy, Debug, PartialEq, Eq, Structural)]
pub enum EnvKind {
    Tree,
    Rock,
}

/// One piece of scenery: its kind, which of the four sprite variants it
/// shows, and where it stands.
#[derive(Clone, Copy, Debug, PartialEq, Eq, Structural)]
pub struct EnvPlacement {
    pub kind: EnvKind,
    pub sprite_index: usize,
    pub position: Vec2i,
}

/// How many trees a fresh world is scattered with.
pub const TREE_COUNT: usize = 20;

/// How many rocks a fresh world is scattered with.
pub const ROCK_COUNT: usize = 60;

/// How many sprite variants the tree and rock atlases each hold.
pub const ENV_SPRITE_VARIANTS: usize = 4;

/// A placement is valid when its sprite variant exists and it stands in the
/// world.
pub open spec fn placement_valid(p: EnvPlacement) -> bool {
    &&& p.sprite_index < ENV_SPRITE_VARIANTS
    &&& in_world(p.position)
}

fn plan_scatter(kind: EnvKind, count: usize, plan: &mut Vec<EnvPlacement>)
    ensures
        final(plan)@.len() == old(plan)@.len() + count,
        forall|i: int| 0 <= i < old(plan)@.len() ==> final(plan)@[i] == old(plan)@[i],
        forall|i: int|
            old(plan)@.len() <= i < final(plan)@.len() ==> (#[trigger] final(plan)@[i]).kind
                == kind && placement_valid(final(plan)@[i]),
{
    let mut k: usize = 0;
    while k < count
        invariant
            k <= count,
            plan@.len() == old(plan)@.len() + k,
            forall|i: int| 0 <= i < old(plan)@.len() ==> plan@[i] == old(plan)@[i],
            forall|i: int|
                old(plan)@.len() <= i < plan@.len() ==> (#[trigger] plan@[i]).kind == kind
                    && placement_valid(plan@[i]),
        decreases count - k,
    {
        let sprite_index = random_index(ENV_SPRITE_VARIANTS);
        let px = random_in_range(MIN_WORLD_X, MAX_WORLD_X);
        let py = random_in_range(MIN_WORLD_Y, MAX_WORLD_Y);
        plan.push(EnvPlacement { kind, sprite_index, position: Vec2i { x: px, y: py } });
        k = k + 1;
    }
}

/// Everything one tree is made of: a tall sprite hung on a small fixed
/// collider at its foot, so characters walk behind the canopy.
#[derive(Clone, Copy, Debug, PartialEq, Eq, Structural)]
pub struct TreeBundle {
    pub sprite_index: usize,
    pub position: Vec2i,
    pub sprite_size: Vec2i,
    pub sprite_offset: Vec2i,
    pub collider_half_extents: Vec2i,
}

/// Assemble a tree at `position` showing sprite variant `sprite_index`: a
/// 384-unit sprite offset up from a slim 52-by-2 trunk collider.
pub fn spawn_tree(sprite_index: usize, position: Vec2i) -> (r: TreeBundle)
    ensures
        r == (TreeBundle {
            sprite_index,
            position,
            sprite_size: Vec2i { x: 384_000, y: 384_000 },
            sprite_offset: Vec2i { x: 20_000, y: 184_000 },
            collider_half_extents: Vec2i { x: 52_000, y: 2_000 },
        }),
{
    TreeBundle {
        sprite_index,
        position,
        sprite_size: Vec2i { x: 384_000, y: 384_000 },
        sprite_offset: Vec2i { x: 20_000, y: 184_000 },
        collider_half_extents: Vec2i { x: 52_000, y: 2_000 },
    }
}

/// Everything one rock is made of: a 64-unit sprite with nothing to collide
/// with.
#[derive(Clone, Copy, Debug, PartialEq, Eq, Structural)]
pub struct RockBundle {
    pub sprite_index: usize,
    pub position: Vec2i,
    pub sprite_size: Vec2i,
}

/// Assemble a rock at `position` showing sprite variant `sprite_index`.
pub fn spawn_rock(sprite_index: usize, position: Vec2i) -> (r: RockBundle)
    ensures
        r == (RockBundle {
            sprite_index,
            position,
            sprite_size: Vec2i { x: 64_000, y: 64_000 },
        }),
{
    RockBundle { sprite_index, position, sprite_size: Vec2i { x: 64_000, y: 64_000 } }
}

/// Pace and pressure of NPC spawning: the wave timer, and the difficulty
/// that climbs a step every frame, in ten-thousandths.
#[derive(Clone, Copy, Debug, PartialEq, Eq, Structural)]
pub struct WorldManager {
    pub spawn_timer: GameTimer,
    pub difficulty: i64,
}

/// How often a spawn wave comes, in milliseconds.
pub const SPAWN_INTERVAL_MS: u64 = 20_000;

/// How much the difficulty climbs each frame, in ten-thousandths.
pub const DIFFICULTY_STEP: i64 = 2;

/// A ceiling the difficulty never nears in play, keeping its arithmetic in
/// range.
pub const DIFFICULTY_CEILING: i64 = 1_000_000_000_000;

impl WorldManager {
    pub open spec fn wf(self) -> bool {
        &&& self.spawn_timer.wf()
        &&& 0 <= self.difficulty <= DIFFICULTY_CEILING
    }
}

/// Everything a fresh world is prepared with: its barriers, its scenery, and
/// a manager whose wave timer starts from zero at difficulty naught.
pub struct WorldPlan {
    pub barriers: Vec<Barrier>,
    pub environment: Vec<EnvPlacement>,
    pub manager: WorldManager,
}

/// Lay out a fresh world: the four barriers, twenty trees and sixty rocks at
/// random spots, and a fresh manager.
pub fn prepare_world() -> (r: WorldPlan)
    ensures
        r.barriers@ == spec_world_barriers(),
        r.environment@.len() == TREE_COUNT + ROCK_COUNT,
        forall|i: int|
            0 <= i < TREE_COUNT ==> (#[trigger] r.environment@[i]).kind == EnvKind::Tree
                && placement_valid(r.environment@[i]),
        forall|i: int|
            TREE_COUNT <= i < TREE_COUNT + ROCK_COUNT ==> (#[trigger] r.environment@[i]).kind
                == EnvKind::Rock && placement_valid(r.environment@[i]),
        r.manager == (WorldManager {
            spawn_timer: GameTimer {
                duration_ms: SPAWN_INTERVAL_MS,
                elapsed_ms: 0,
                mode: TimerMode::Repeating,
                paused: false,
                finished: false,
                just_finished: false,
            },
            difficulty: 0,
        }),
        r.manager.wf(),
{
    let barriers = world_barriers();
    let mut environment: Vec<EnvPlacement> = Vec::new();
    plan_scatter(EnvKind::Tree, TREE_COUNT, &mut environment);
    plan_scatter(EnvKind::Rock, ROCK_COUNT, &mut environment);
    let manager = WorldManager {
        spawn_timer: GameTimer::from_millis(SPAWN_INTERVAL_MS, TimerMode::Repeating),
        difficulty: 0,
    };
    WorldPlan { barriers, environment, manager }
}

/// One frame of spawn pacing: the wave timer advances and the difficulty
/// climbs a step; on the tick that completes a wave interval, a wave of one
/// to four NPCs is called for.
pub fn npc_spawning(manager: &mut WorldManager, delta_ms: u64) -> (amount: Option<usize>)
    requires
        old(manager).wf(),
        old(manager).difficulty < DIFFICULTY_CEILING,
        delta_ms <= MAX_TIMER_MS,
    ensures
        final(manager).spawn_timer == old(manager).spawn_timer.spec_ticked(delta_ms),
        final(manager).difficulty == old(manager).difficulty + DIFFICULTY_STEP,
        ({
            let ticked = old(manager).spawn_timer.spec_ticked(delta_ms);
            if ticked.just_finished {
                match amount {
                    Some(n) => 1 <= n <= 4,
                    None => false,
                }
            } else {
                amount is None
            }
        }),
{
    manager.spawn_timer.tick(delta_ms);
    manager.difficulty = manager.difficulty + DIFFICULTY_STEP;
    if manager.spawn_timer.just_finished() {
        let n = random_in_range(1, 5);
        Some(n as usize)
    } else {
        None
    }
}

/// How many NPCs a fresh world is populated with, at difficulty naught.
pub const INITIAL_NPC_COUNT: usize = 40;

/// The definitions NPCs are spawned from, collected once the assets are in.
pub struct NpcPool {
    pub npcs: Vec<NpcData>,
}

impl Default for NpcPool {
    /// A pool starts empty.
    fn default() -> (r: NpcPool)
        ensures
            r.npcs@.len() == 0,
    {
        NpcPool { npcs: Vec::new() }
    }
}

/// One planned NPC: which pool entry it comes from and where it appears.
#[derive(Clone, Copy, Debug, PartialEq, Eq, Structural)]
pub struct NpcSpawn {
    pub pool_index: usize,
    pub position: Vec2i,
}

/// Plan a wave of NPC spawns: each one a pool entry eligible at the given
/// difficulty, placed at a random spot in the world. With nothing eligible
/// the wave is empty; otherwise it has exactly `amount` entries.
pub fn spawn_random_npcs(pool: &NpcPool, amount: usize, difficulty: i64) -> (r: Vec<NpcSpawn>)
    requires
        pool.npcs@.len() <= 0x7fff_ffff,
    ensures
        (exists|i: int|
            0 <= i < pool.npcs@.len() && (#[trigger] pool.npcs@[i]).spec_eligible(difficulty))
            ==> r@.len() == amount,
        (forall|i: int|
            0 <= i < pool.npcs@.len() ==> !(#[trigger] pool.npcs@[i]).spec_eligible(difficulty))
            ==> r@.len() == 0,
        forall|j: int|
            0 <= j < r@.len() ==> (#[trigger] r@[j]).pool_index < pool.npcs@.len()
                && pool.npcs@[r@[j].pool_index as int].spec_eligible(difficulty) && in_world(
                r@[j].position,
            ),
{
    let mut available: Vec<usize> = Vec::new();
    let mut i: usize = 0;
    while i < pool.npcs.len()
        invariant
            i <= pool.npcs@.len(),
            pool.npcs@.len() <= 0x7fff_ffff,
            available@.len() <= i,
            forall|k: int|
                0 <= k < available@.len() ==> (#[trigger] available@[k]) < pool.npcs@.len()
                    && pool.npcs@[available@[k] as int].spec_eligible(difficulty),
            available@.len() == 0 ==> forall|t: int|
                0 <= t < i ==> !(#[trigger] pool.npcs@[t]).spec_eligible(difficulty),
        decreases pool.npcs@.len() - i,
    {
        if pool.npcs[i].eligible(difficulty) {
            available.push(i);
        }
        i = i + 1;
    }
    proof {
        if available@.len() > 0 {
            assert(pool.npcs@[available@[0] as int].spec_eligible(difficulty));
        }
    }
    let mut r: Vec<NpcSpawn> = Vec::new();
    if available.len() > 0 {
        let mut k: usize = 0;
        while k < amount
            invariant
                k <= amount,
                r@.len() == k,
                0 < available@.len() <= 0x7fff_ffff,
                forall|t: int|
                    0 <= t < available@.len() ==> (#[trigger] available@[t]) < pool.npcs@.len()
                        && pool.npcs@[available@[t] as int].spec_eligible(difficulty),
                forall|j: int|
                    0 <= j < r@.len() ==> (#[trigger] r@[j]).pool_index < pool.npcs@.len()
                        && pool.npcs@[r@[j].pool_index as int].spec_eligible(difficulty)
                        && in_world(r@[j].position),
            decreases amount - k,
        {
            let idx = random_index(available.len());
            let pool_index = available[idx];
            let px = random_in_range(MIN_WORLD_X, MAX_WORLD_X);
            let py = random_in_range(MIN_WORLD_Y, MAX_WORLD_Y);
            r.push(NpcSpawn { pool_index, position: Vec2i { x: px, y: py } });
            k = k + 1;
        }
    }
    r
}

} // verus!
