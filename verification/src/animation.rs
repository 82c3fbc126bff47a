//! Animation bookkeeping: vanish and hit-flash decisions, and what a
//! completed tween asks of the session.
//!
//! The animations themselves — scale and colour interpolation — are the
//! engine's work; what is decided here is when one starts, and what happens
//! when one reports completion.

use vstd::prelude::*;

verus! {

/// Completion tag of a vanish animation.
pub const VANISHING_COMPLETED: u64 = 1;

/// Completion tag of a hit flash.
pub const FLASH_COMPLETED: u64 = 2;

/// An entity is to shrink away and then be removed.
#[derive(Clone, Copy, Debug, PartialEq, Eq, Structural)]
pub struct VanishEvent {
    pub entity: u64,
}

/// An entity is to flash red from a hit.
#[derive(Clone, Copy, Debug, PartialEq, Eq, Structural)]
pub struct HitFlashEvent {
    pub entity: u64,
}

/// What a completed tween asks for.
#[derive(Clone, Copy, Debug, PartialEq, Eq, Structural)]
pub struct TweenActions {
    /// The entity finished vanishing and is to be removed.
    pub despawn: bool,
    /// The vanished entity was the player: the run is over.
    pub player_died: bool,
    /// A hit flash ran its course: the flash marker comes off.
    pub end_flash: bool,
}

/// React to a tween reporting completion with the given tag.
pub fn process_tween_completed(user_data: u64, entity_is_player: bool) -> (a: TweenActions)
    ensures
        a.despawn == (user_data == VANISHING_COMPLETED),
        a.player_died == (user_data == VANISHING_COMPLETED && entity_is_player),
        a.end_flash == (user_data == FLASH_COMPLETED),
{
    TweenActions {
        despawn: user_data == VANISHING_COMPLETED,
        player_died: user_data == VANISHING_COMPLETED && entity_is_player,
        end_flash: user_data == FLASH_COMPLETED,
    }
}

/// What handling a vanish event does.
#[derive(Clone, Copy, Debug, PartialEq, Eq, Structural)]
pub struct VanishActions {
    /// Mark the entity so a second vanish event cannot restart the animation.
    pub mark: bool,
    /// Start the shrink animation.
    pub start_tween: bool,
}

/// Decide a vanish event: an existing, unmarked entity is marked, and its
/// shrink starts where it still has a transform to shrink.
pub fn vanish_event(entity_exists: bool, already_marked: bool, has_transform: bool) -> (a:
    VanishActions)
    ensures
        a.mark == (!already_marked && entity_exists),
        a.start_tween == (!already_marked && has_transform && entity_exists),
{
    VanishActions {
        mark: !already_marked && entity_exists,
        start_tween: !already_marked && has_transform && entity_exists,
    }
}

/// Decide a hit-flash event: the flash starts — and the entity is marked —
/// only for an existing, unmarked entity that has a sprite to tint.
pub fn hit_flash_event(has_sprite: bool, already_marked: bool, entity_exists: bool) -> (start:
    bool)
    ensures
        start == (has_sprite && !already_marked && entity_exists),
{
    has_sprite && !already_marked && entity_exists
}

} // verus!
