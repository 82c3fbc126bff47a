//! Characters: health, movement parameters, regeneration and shooting.
//!
//! A character is anything that can take damage and move — the player and
//! every NPC. Health and the other scalar stats are kept within a fixed
//! representable range; arithmetic on them clamps at its ends, far beyond any
//! value play can reach.

use vstd::prelude::*;

use crate::combat::ProjectileStats;
use crate::timer::{GameTimer, TimerMode, MAX_TIMER_MS};
use crate::units::Vec2i;

verus! {

/// Bound on every scalar stat: health and damage in milli-points, speeds in
/// milli-units per second, interpolation factors in thousandths.
pub const STAT_LIMIT: i64 = 1_000_000_000;

/// The range stats are kept in, as a mathematical clamp.
pub open spec fn spec_clamp_stat(v: int) -> int {
    if v > STAT_LIMIT {
        STAT_LIMIT as int
    } else if v < -STAT_LIMIT {
        -STAT_LIMIT as int
    } else {
        v
    }
}

/// Clamp a value into the representable stat range.
pub fn clamp_stat(v: i64) -> (r: i64)
    ensures
        r == spec_clamp_stat(v as int),
{
    if v > STAT_LIMIT {
        STAT_LIMIT
    } else if v < -STAT_LIMIT {
        -STAT_LIMIT
    } else {
        v
    }
}

/// A combatant's health and movement parameters. `input` is the unit
/// direction the character wants to move in and `last_x` the last nonzero
/// horizontal input, both in thousandths; `accel` and `damp` are
/// interpolation factors in thousandths.
#[derive(Clone, Copy, Debug, PartialEq, Eq, Structural)]
pub struct Character {
    pub max_health: i64,
    pub health: i64,
    pub input: Vec2i,
    pub last_x: i64,
    pub speed: i64,
    pub accel: i64,
    pub damp: i64,
}

impl Character {
    pub open spec fn wf(self) -> bool {
        &&& 1 <= self.max_health <= STAT_LIMIT
        &&& -STAT_LIMIT <= self.health <= STAT_LIMIT
        &&& 0 <= self.speed <= STAT_LIMIT
        &&& 0 <= self.accel <= STAT_LIMIT
        &&& 0 <= self.damp <= STAT_LIMIT
        &&& -1000 <= self.input.x <= 1000
        &&& -1000 <= self.input.y <= 1000
        &&& -1000 <= self.last_x <= 1000
    }

    /// A character dies the moment its health is no longer positive.
    pub fn is_dead(&self) -> (r: bool)
        ensures
            r == (self.health <= 0),
    {
        self.health <= 0
    }
}

/// The ids of every character whose health has run out, in their given order.
pub open spec fn spec_vanished(s: Seq<(u64, Character)>) -> Seq<u64>
    decreases s.len(),
{
    if s.len() == 0 {
        Seq::empty()
    } else {
        let rest = spec_vanished(s.drop_last());
        if s.last().1.health <= 0 {
            rest.push(s.last().0)
        } else {
            rest
        }
    }
}

/// The per-frame death sweep: which characters are to vanish this frame.
pub fn character_update(characters: &Vec<(u64, Character)>) -> (r: Vec<u64>)
    ensures
        r@ == spec_vanished(characters@),
{
    let mut r: Vec<u64> = Vec::new();
    let mut i: usize = 0;
    while i < characters.len()
        invariant
            i <= characters@.len(),
            r@ == spec_vanished(characters@.subrange(0, i as int)),
        decreases characters@.len() - i,
    {
        let p = characters[i];
        proof {
            assert(characters@.subrange(0, i + 1).drop_last() =~= characters@.subrange(0, i as int));
            assert(characters@.subrange(0, i + 1).last() == characters@[i as int]);
        }
        if p.1.health <= 0 {
            r.push(p.0);
        }
        i = i + 1;
    }
    proof {
        assert(characters@.subrange(0, characters@.len() as int) =~= characters@);
    }
    r
}

/// The decision half of per-frame movement: whether the character is moving
/// this frame — it has an input direction, a positive speed and a real time
/// step — and, when moving sideways, the remembered horizontal facing. The
/// velocity easing itself is the engine's work.
pub fn move_character(character: &mut Character, delta_ms: u64) -> (moving: bool)
    requires
        old(character).wf(),
    ensures
        moving == (old(character).input != (Vec2i { x: 0, y: 0 }) && old(character).speed > 0
            && delta_ms > 0),
        *final(character) == if moving && old(character).input.x != 0 {
            Character { last_x: old(character).input.x, ..*old(character) }
        } else {
            *old(character)
        },
        final(character).wf(),
{
    let moving = (character.input.x != 0 || character.input.y != 0) && character.speed > 0
        && delta_ms > 0;
    if moving && character.input.x != 0 {
        character.last_x = character.input.x;
    }
    moving
}

/// Whether `id` belongs to some listed character whose health has run out.
pub open spec fn lists_a_dead(s: Seq<(u64, Character)>, id: u64) -> bool {
    exists|i: int| 0 <= i < s.len() && (#[trigger] s[i]).0 == id && s[i].1.health <= 0
}

/// Everything the death sweep names was indeed dead: each id it returns
/// belongs to a listed character whose health had run out.
pub proof fn lemma_vanished_are_dead(s: Seq<(u64, Character)>)
    ensures
        forall|j: int|
            0 <= j < spec_vanished(s).len() ==> lists_a_dead(s, #[trigger] spec_vanished(s)[j]),
    decreases s.len(),
{
    if s.len() > 0 {
        lemma_vanished_are_dead(s.drop_last());
        let rest = spec_vanished(s.drop_last());
        assert forall|j: int| 0 <= j < spec_vanished(s).len() implies lists_a_dead(
            s,
            #[trigger] spec_vanished(s)[j],
        ) by {
            if j < rest.len() {
                assert(lists_a_dead(s.drop_last(), rest[j]));
                let i = choose|i: int|
                    0 <= i < s.drop_last().len() && (#[trigger] s.drop_last()[i]).0 == rest[j]
                        && s.drop_last()[i].1.health <= 0;
                assert(s[i] == s.drop_last()[i]);
                assert((s[i]).0 == spec_vanished(s)[j] && s[i].1.health <= 0);
            } else {
                let i = s.len() - 1;
                assert((s[i]).0 == spec_vanished(s)[j] && s[i].1.health <= 0);
            }
        }
    }
}

/// Every dead character is named by the death sweep: no casualty is missed.
pub proof fn lemma_dead_are_vanished(s: Seq<(u64, Character)>)
    ensures
        forall|i: int|
            0 <= i < s.len() && (#[trigger] s[i]).1.health <= 0 ==> spec_vanished(s).contains(
                s[i].0,
            ),
    decreases s.len(),
{
    if s.len() > 0 {
        lemma_dead_are_vanished(s.drop_last());
        let rest = spec_vanished(s.drop_last());
        assert forall|i: int|
            0 <= i < s.len() && (#[trigger] s[i]).1.health <= 0 implies spec_vanished(
            s,
        ).contains(s[i].0) by {
            if i < s.len() - 1 {
                assert(s.drop_last()[i] == s[i]);
                assert(rest.contains(s[i].0));
                let j = choose|j: int| 0 <= j < rest.len() && rest[j] == s[i].0;
                assert(spec_vanished(s)[j] == s[i].0);
            } else {
                if s.last().1.health <= 0 {
                    assert(spec_vanished(s).last() == s[i].0);
                }
            }
        }
    }
}

/// Passive healing: after `delay` has run out undisturbed, `speed`
/// milli-points come back each frame. A hit rewinds the delay.
#[derive(Clone, Copy, Debug, PartialEq, Eq, Structural)]
pub struct HealthRegen {
    pub delay: GameTimer,
    pub speed: i64,
}

impl HealthRegen {
    pub open spec fn wf(self) -> bool {
        &&& self.delay.wf()
        &&& 0 <= self.speed <= STAT_LIMIT
    }
}

/// One frame of regeneration: advance the delay, and once it has run out,
/// heal a wounded character by the regeneration speed. A repeating delay is
/// ruled out rather than handled.
pub fn health_regen_update(character: &mut Character, regen: &mut HealthRegen, delta_ms: u64)
    requires
        old(character).wf(),
        old(regen).wf(),
        old(regen).delay.mode != TimerMode::Repeating,
        delta_ms <= MAX_TIMER_MS,
    ensures
        final(regen).delay == old(regen).delay.spec_ticked(delta_ms),
        final(regen).speed == old(regen).speed,
        ({
            let ticked = old(regen).delay.spec_ticked(delta_ms);
            if ticked.finished && old(character).health < old(character).max_health {
                *final(character) == (Character {
                    health: spec_clamp_stat(old(character).health + old(regen).speed) as i64,
                    ..*old(character)
                })
            } else {
                *final(character) == *old(character)
            }
        }),
        final(character).wf(),
        final(regen).wf(),
{
    regen.delay.tick(delta_ms);
    if regen.delay.finished() {
        if character.health < character.max_health {
            character.health = clamp_stat(character.health + regen.speed);
        }
    }
}

/// The ability to fire projectiles: the stats each projectile is born with,
/// and the cooldown between shots.
#[derive(Clone, Copy, Debug, PartialEq, Eq, Structural)]
pub struct ProjectileShooter {
    pub projectile_stats: ProjectileStats,
    pub attack_speed: GameTimer,
}

impl ProjectileShooter {
    pub open spec fn wf(self) -> bool {
        &&& self.projectile_stats.wf()
        &&& self.attack_speed.wf()
    }

    /// The cooldown gate of the shoot handler: a shot goes out only when the
    /// cooldown has run out, and taking it rewinds and restarts the cooldown.
    pub fn try_shoot(&mut self) -> (fired: bool)
        requires
            old(self).wf(),
        ensures
            fired == old(self).attack_speed.finished,
            final(self).projectile_stats == old(self).projectile_stats,
            fired ==> final(self).attack_speed == (GameTimer {
                elapsed_ms: 0,
                finished: false,
                just_finished: false,
                paused: false,
                ..old(self).attack_speed
            }),
            !fired ==> *final(self) == *old(self),
            final(self).wf(),
    {
        if self.attack_speed.finished() {
            self.attack_speed.reset();
            self.attack_speed.unpause();
            true
        } else {
            false
        }
    }
}

/// A request to fire: who shoots, at what point, and which collision group
/// the projectile is to hurt.
#[derive(Clone, Copy, Debug, PartialEq, Eq, Structural)]
pub struct ShootEvent {
    pub entity: u64,
    pub target: Vec2i,
    pub target_group: u32,
}

} // verus!
