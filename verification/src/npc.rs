//! NPC behaviour: kinds, targeting and the per-frame decision step.
//!
//! Each frame an NPC may acquire the player as a target (by kind), walk
//! toward its target, shoot when the target is within its projectiles'
//! plausible reach, give up a target that got away, and — on its retarget
//! timer — drop a stale wander goal or pick a fresh one near itself.

use vstd::prelude::*;

use crate::character::ProjectileShooter;
use crate::rng::random_in_range;
use crate::timer::{GameTimer, MAX_TIMER_MS};
use crate::units::{Vec2i, COORD_LIMIT};

verus! {

/// How far away an NPC notices or gives up on a character target, in
/// milli-units.
pub const CHASE_RANGE: i64 = 250_000;

/// How close to a wander goal counts as having arrived, in milli-units.
pub const ARRIVE_RANGE: i64 = 7_500;

/// Half-width of the box a fresh wander goal is drawn from, centred on the
/// NPC, in milli-units.
pub const WANDER_RANGE: i64 = 250_000;

/// Divisor turning a projectile's speed times its lifetime into the distance
/// a shot is considered worth taking from.
pub const RANGE_DIVISOR: i64 = 25;

/// An NPC's temperament toward the player.
#[derive(Clone, Copy, Debug, PartialEq, Eq, Structural)]
pub enum NpcKind {
    /// Attacks only when provoked.
    Friendly,
    /// Starts chasing when the player comes close.
    Hostile,
    /// Chases the player from the moment it spawns.
    VeryHostile,
}

/// What an NPC is after: a point to walk to, or a character to chase.
#[derive(Clone, Copy, Debug, PartialEq, Eq, Structural)]
pub enum NpcTarget {
    Position(Vec2i),
    Character(u64),
}

/// The AI state of one NPC: its temperament, its current target, and the
/// interval timer that drops or renews wander goals.
#[derive(Clone, Copy, Debug, PartialEq, Eq, Structural)]
pub struct NpcController {
    pub kind: NpcKind,
    pub target: Option<NpcTarget>,
    pub target_change: GameTimer,
}

impl NpcController {
    pub open spec fn wf(self) -> bool {
        &&& self.target_change.wf()
        &&& match self.target {
            Some(NpcTarget::Position(p)) => p.in_bounds(),
            _ => true,
        }
    }
}

/// What the NPC wants its body to do this frame.
#[derive(Clone, Copy, Debug, PartialEq, Eq, Structural)]
pub enum MoveCommand {
    /// Steer toward this point.
    Toward(Vec2i),
    /// Stand down: no input, and let the velocity damp out.
    Stop,
    /// Leave the previous input as it is.
    Keep,
}

/// One frame's decision: a movement command, and possibly a point to shoot
/// at.
#[derive(Clone, Copy, Debug, PartialEq, Eq, Structural)]
pub struct NpcDecision {
    pub movement: MoveCommand,
    pub shoot_at: Option<Vec2i>,
}

/// Kind-driven acquisition: a hostile NPC locks onto a player within chase
/// range, a very hostile one onto any player at all; a friendly one keeps
/// whatever target it had.
pub open spec fn spec_retarget(
    kind: NpcKind,
    target: Option<NpcTarget>,
    position: Vec2i,
    player: Option<(u64, Vec2i)>,
) -> Option<NpcTarget> {
    match kind {
        NpcKind::Hostile => match player {
            Some(p) => if Vec2i::spec_dist_lt(position, p.1, CHASE_RANGE as int) {
                Some(NpcTarget::Character(p.0))
            } else {
                target
            },
            None => target,
        },
        NpcKind::VeryHostile => match player {
            Some(p) => Some(NpcTarget::Character(p.0)),
            None => target,
        },
        NpcKind::Friendly => target,
    }
}

/// Where a chased character stands: the player's own position when the chased
/// entity is the player, otherwise whatever position the caller looked up for
/// it (`None` when it is gone).
pub open spec fn spec_resolved_pos(
    entity: u64,
    player: Option<(u64, Vec2i)>,
    target_entity_pos: Option<Vec2i>,
) -> Option<Vec2i> {
    match player {
        Some(p) => if p.0 == entity {
            Some(p.1)
        } else {
            target_entity_pos
        },
        None => target_entity_pos,
    }
}

/// The distance from which a shot is considered to have a chance: the
/// projectile's speed times its lifetime, over [`RANGE_DIVISOR`].
pub open spec fn spec_possible_range(shooter: ProjectileShooter) -> int {
    shooter.projectile_stats.speed * shooter.projectile_stats.life_time.duration_ms / (1000
        * RANGE_DIVISOR)
}

/// Target pursuit: the target after this phase, the movement command, and the
/// point shot at, if any. A wander goal within arrival range is dropped; a
/// chased character is walked toward, shot at within the plausible range, and
/// given up beyond chase range; with no target the NPC stands down.
pub open spec fn spec_engage(
    target: Option<NpcTarget>,
    position: Vec2i,
    player: Option<(u64, Vec2i)>,
    target_entity_pos: Option<Vec2i>,
    shooter: ProjectileShooter,
) -> (Option<NpcTarget>, MoveCommand, Option<Vec2i>) {
    match target {
        Some(NpcTarget::Position(tp)) => if Vec2i::spec_dist_gt(
            position,
            tp,
            ARRIVE_RANGE as int,
        ) {
            (target, MoveCommand::Toward(tp), None)
        } else {
            (None, MoveCommand::Keep, None)
        },
        Some(NpcTarget::Character(e)) => match spec_resolved_pos(e, player, target_entity_pos) {
            Some(tp) => {
                let shoot = if Vec2i::spec_dist_lt(position, tp, spec_possible_range(shooter)) {
                    Some(tp)
                } else {
                    None
                };
                let kept = if Vec2i::spec_dist_gt(position, tp, CHASE_RANGE as int) {
                    None
                } else {
                    target
                };
                (kept, MoveCommand::Toward(tp), shoot)
            },
            None => (target, MoveCommand::Keep, None),
        },
        None => (None, MoveCommand::Stop, None),
    }
}

/// Whether `t` is a wander goal inside the box of half-width
/// [`WANDER_RANGE`] around `position`.
pub open spec fn spec_wander_box(position: Vec2i, t: Option<NpcTarget>) -> bool {
    match t {
        Some(NpcTarget::Position(p)) => {
            &&& position.x - WANDER_RANGE <= p.x < position.x + WANDER_RANGE
            &&& position.y - WANDER_RANGE <= p.y < position.y + WANDER_RANGE
        },
        _ => false,
    }
}

/// Positions an NPC may wander from: far enough inside the coordinate bounds
/// that any wander goal it draws stays in bounds.
pub open spec fn in_roam_bounds(p: Vec2i) -> bool {
    &&& -(COORD_LIMIT - WANDER_RANGE) <= p.x <= COORD_LIMIT - WANDER_RANGE
    &&& -(COORD_LIMIT - WANDER_RANGE) <= p.y <= COORD_LIMIT - WANDER_RANGE
}

fn resolved_pos(entity: u64, player: Option<(u64, Vec2i)>, target_entity_pos: Option<Vec2i>) -> (r:
    Option<Vec2i>)
    ensures
        r == spec_resolved_pos(entity, player, target_entity_pos),
{
    match player {
        Some(p) => if p.0 == entity {
            Some(p.1)
        } else {
            target_entity_pos
        },
        None => target_entity_pos,
    }
}

fn possible_range(shooter: &ProjectileShooter) -> (r: i64)
    requires
        shooter.wf(),
    ensures
        r == spec_possible_range(*shooter),
        r >= 0,
{
    let speed = shooter.projectile_stats.speed as u64;
    let duration = shooter.projectile_stats.life_time.duration_ms;
    proof {
        assert(speed * duration <= 1_000_000_000 * 86_400_000) by (nonlinear_arith)
            requires
                0 <= speed <= 1_000_000_000,
                0 <= duration <= 86_400_000,
        ;
    }
    ((speed * duration) / 25_000) as i64
}

/// One frame of NPC thinking. `player` names the player entity and where it
/// stands, if one exists; `target_entity_pos` is where the entity of the
/// NPC's current character target stands, if it still does. The NPC's
/// retarget timer advances; its kind may lock it onto the player; it pursues,
/// shoots at and gives up targets by distance; and on the retarget tick a
/// wander goal is dropped, or a fresh one drawn near the NPC when it has no
/// target at all.
pub fn npc_update(
    npc: &mut NpcController,
    shooter: &ProjectileShooter,
    position: Vec2i,
    player: Option<(u64, Vec2i)>,
    target_entity_pos: Option<Vec2i>,
    delta_ms: u64,
) -> (decision: NpcDecision)
    requires
        old(npc).wf(),
        shooter.wf(),
        in_roam_bounds(position),
        match player {
            Some(p) => p.1.in_bounds(),
            None => true,
        },
        match target_entity_pos {
            Some(p) => p.in_bounds(),
            None => true,
        },
        delta_ms <= MAX_TIMER_MS,
    ensures
        ({
            let ticked = old(npc).target_change.spec_ticked(delta_ms);
            let acquired = spec_retarget(old(npc).kind, old(npc).target, position, player);
            let engaged = spec_engage(acquired, position, player, target_entity_pos, *shooter);
            &&& final(npc).kind == old(npc).kind
            &&& final(npc).target_change == ticked
            &&& decision.movement == engaged.1
            &&& decision.shoot_at == engaged.2
            &&& if ticked.just_finished {
                match engaged.0 {
                    Some(NpcTarget::Position(_)) => final(npc).target is None,
                    Some(NpcTarget::Character(_)) => final(npc).target == engaged.0,
                    None => spec_wander_box(position, final(npc).target),
                }
            } else {
                final(npc).target == engaged.0
            }
        }),
        final(npc).wf(),
{
    npc.target_change.tick(delta_ms);

    match npc.kind {
        NpcKind::Hostile => {
            if let Some((pid, ppos)) = player {
                if Vec2i::dist_lt(position, ppos, CHASE_RANGE) {
                    npc.target = Some(NpcTarget::Character(pid));
                }
            }
        },
        NpcKind::VeryHostile => {
            if let Some((pid, _)) = player {
                npc.target = Some(NpcTarget::Character(pid));
            }
        },
        NpcKind::Friendly => {},
    }

    let mut movement = MoveCommand::Keep;
    let mut shoot_at: Option<Vec2i> = None;

    match npc.target {
        Some(NpcTarget::Position(tp)) => {
            if Vec2i::dist_gt(position, tp, ARRIVE_RANGE) {
                movement = MoveCommand::Toward(tp);
            } else {
                npc.target = None;
            }
        },
        Some(NpcTarget::Character(e)) => {
            if let Some(tp) = resolved_pos(e, player, target_entity_pos) {
                movement = MoveCommand::Toward(tp);
                let range = possible_range(shooter);
                if Vec2i::dist_lt(position, tp, range) {
                    shoot_at = Some(tp);
                }
                if Vec2i::dist_gt(position, tp, CHASE_RANGE) {
                    npc.target = None;
                }
            }
        },
        None => {
            movement = MoveCommand::Stop;
        },
    }

    if npc.target_change.just_finished() {
        match npc.target {
            Some(NpcTarget::Position(_)) => {
                npc.target = None;
            },
            Some(NpcTarget::Character(_)) => {},
            None => {
                let wx = random_in_range(position.x - WANDER_RANGE, position.x + WANDER_RANGE);
                let wy = random_in_range(position.y - WANDER_RANGE, position.y + WANDER_RANGE);
                npc.target = Some(NpcTarget::Position(Vec2i { x: wx, y: wy }));
            },
        }
    }

    NpcDecision { movement, shoot_at }
}

} // verus!
