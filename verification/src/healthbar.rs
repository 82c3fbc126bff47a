//! Healthbars: world-space bars that follow a character and show its health.

use vstd::prelude::*;

use crate::character::{Character, STAT_LIMIT};
use crate::combat::spec_div_trunc;
use crate::units::Vec2i;

verus! {

/// Width of a full bar, in milli-units.
pub const HEALTHBAR_WIDTH: i64 = 64_000;

/// Height of the bar, in milli-units.
pub const HEALTHBAR_HEIGHT: i64 = 8_000;

/// How much wider and taller the backdrop is than the bar, in milli-units.
pub const CONTAINER_OFFSET: i64 = 6_000;

/// A healthbar: whose health it shows, and where it hangs relative to them.
#[derive(Clone, Copy, Debug, PartialEq, Eq, Structural)]
pub struct HealthBar {
    pub target: u64,
    pub offset_position: Vec2i,
}

/// The sprites a fresh healthbar is made of: the bar itself and its backdrop.
#[derive(Clone, Copy, Debug, PartialEq, Eq, Structural)]
pub struct HealthbarBundle {
    pub bar: HealthBar,
    pub fill_size: Vec2i,
    pub container_size: Vec2i,
}

/// Assemble a healthbar that tracks `tracked_entity` at `offset`: the bar at
/// full width, over a backdrop one offset wider.
pub fn spawn_healthbar(offset: Vec2i, tracked_entity: u64) -> (r: HealthbarBundle)
    ensures
        r == (HealthbarBundle {
            bar: HealthBar { target: tracked_entity, offset_position: offset },
            fill_size: Vec2i {
                x: HEALTHBAR_WIDTH,
                y: (HEALTHBAR_HEIGHT + CONTAINER_OFFSET) as i64,
            },
            container_size: Vec2i {
                x: (HEALTHBAR_WIDTH + CONTAINER_OFFSET) as i64,
                y: (HEALTHBAR_HEIGHT + CONTAINER_OFFSET) as i64,
            },
        }),
{
    HealthbarBundle {
        bar: HealthBar { target: tracked_entity, offset_position: offset },
        fill_size: Vec2i { x: HEALTHBAR_WIDTH, y: HEALTHBAR_HEIGHT + CONTAINER_OFFSET },
        container_size: Vec2i {
            x: HEALTHBAR_WIDTH + CONTAINER_OFFSET,
            y: HEALTHBAR_HEIGHT + CONTAINER_OFFSET,
        },
    }
}

/// The width of the filled part of a bar: the full width scaled by the
/// tracked character's health over its maximum.
pub open spec fn spec_fill_width(health: int, max_health: int) -> int {
    spec_div_trunc(health * HEALTHBAR_WIDTH, max_health)
}

fn fill_width(health: i64, max_health: i64) -> (r: i64)
    requires
        -STAT_LIMIT <= health <= STAT_LIMIT,
        1 <= max_health <= STAT_LIMIT,
    ensures
        r == spec_fill_width(health as int, max_health as int),
{
    proof {
        assert(-64_000_000_000_000 <= health * HEALTHBAR_WIDTH <= 64_000_000_000_000)
            by (nonlinear_arith)
            requires
                -1_000_000_000 <= health <= 1_000_000_000,
        ;
    }
    let p = health * HEALTHBAR_WIDTH;
    if p >= 0 {
        ((p as u64) / (max_health as u64)) as i64
    } else {
        proof {
            assert(((-p) as u64) / (max_health as u64) <= (-p) as u64) by (nonlinear_arith)
                requires
                    0 < (max_health as u64),
            ;
        }
        -((((-p) as u64) / (max_health as u64)) as i64)
    }
}

/// One frame of a healthbar's life: gone with its character, otherwise moved
/// above it and resized to its health.
#[derive(Clone, Copy, Debug, PartialEq, Eq, Structural)]
pub enum HealthbarUpdate {
    /// The tracked character no longer exists: the bar goes too.
    Despawn,
    /// Follow the character and show its health.
    Refresh { translation: Vec2i, fill_size: Vec2i },
}

/// Decide a healthbar's frame: despawn when its character is gone, else hang
/// at the character's position plus the bar's offset, filled to the
/// character's health.
pub fn handle_healthbar(bar: &HealthBar, target: Option<(Character, Vec2i)>) -> (u:
    HealthbarUpdate)
    requires
        bar.offset_position.in_bounds(),
        match target {
            Some(t) => t.0.wf() && t.1.in_bounds(),
            None => true,
        },
    ensures
        u == match target {
            None => HealthbarUpdate::Despawn,
            Some(t) => HealthbarUpdate::Refresh {
                translation: Vec2i {
                    x: (t.1.x + bar.offset_position.x) as i64,
                    y: (t.1.y + bar.offset_position.y) as i64,
                },
                fill_size: Vec2i {
                    x: spec_fill_width(t.0.health as int, t.0.max_health as int) as i64,
                    y: HEALTHBAR_HEIGHT,
                },
            },
        },
{
    match target {
        Some((character, position)) => {
            let w = fill_width(character.health, character.max_health);
            HealthbarUpdate::Refresh {
                translation: Vec2i {
                    x: position.x + bar.offset_position.x,
                    y: position.y + bar.offset_position.y,
                },
                fill_size: Vec2i { x: w, y: HEALTHBAR_HEIGHT },
            }
        },
        None => HealthbarUpdate::Despawn,
    }
}

} // verus!
